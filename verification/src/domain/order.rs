//! Order intents: what a strategy would like to trade.

use vstd::prelude::*;
use crate::errors::DomainError;
use crate::text::trim_seq;
use super::instrument::{normalize_text, ContractQuantity, OptionContract, Price, TradingMode};
use super::market::validate_timestamp;

verus! {

/// Buy or sell.
#[derive(Debug, Clone, Copy, PartialEq, Eq, Structural)]
pub enum OrderSide {
    Buy,
    Sell,
}

/// Market or limit order.
#[derive(Debug, Clone, Copy, PartialEq, Eq, Structural)]
pub enum OrderType {
    Market,
    Limit,
}

/// The unvalidated fields of an order intent; `created_at` is in seconds
/// since the Unix epoch.
#[derive(Debug, Clone, PartialEq, Eq)]
pub struct OrderIntentSpec {
    pub id: String,
    pub mode: TradingMode,
    pub contract: OptionContract,
    pub side: OrderSide,
    pub quantity: ContractQuantity,
    pub order_type: OrderType,
    pub limit_price: Option<Price>,
    pub estimated_max_loss: Price,
    pub strategy_id: String,
    pub risk_context_id: String,
    pub created_at: i64,
}

/// A validated order intent; `created_at` is in seconds since the Unix epoch.
#[derive(Debug, PartialEq, Eq)]
pub struct OrderIntent {
    pub id: String,
    pub mode: TradingMode,
    pub contract: OptionContract,
    pub side: OrderSide,
    pub quantity: ContractQuantity,
    pub order_type: OrderType,
    pub limit_price: Option<Price>,
    pub estimated_max_loss: Price,
    pub strategy_id: String,
    pub risk_context_id: String,
    pub created_at: i64,
}

impl Clone for OrderIntent {
    fn clone(&self) -> (r: Self)
        ensures
            r == *self,
    {
        OrderIntent {
            id: self.id.clone(),
            mode: self.mode,
            contract: self.contract.clone(),
            side: self.side,
            quantity: self.quantity,
            order_type: self.order_type,
            limit_price: self.limit_price,
            estimated_max_loss: self.estimated_max_loss,
            strategy_id: self.strategy_id.clone(),
            risk_context_id: self.risk_context_id.clone(),
            created_at: self.created_at,
        }
    }
}

impl OrderIntent {
    /// Whether the order type and limit price agree: a limit order carries
    /// a limit price and a market order carries none.
    pub open spec fn spec_type_consistent(order_type: OrderType, limit_price: Option<Price>) -> bool {
        match order_type {
            OrderType::Limit => limit_price is Some,
            OrderType::Market => limit_price is None,
        }
    }

    /// Whether `new` accepts `spec`.
    pub open spec fn spec_accepts(spec: OrderIntentSpec) -> bool {
        &&& trim_seq(spec.id@).len() > 0
        &&& trim_seq(spec.strategy_id@).len() > 0
        &&& trim_seq(spec.risk_context_id@).len() > 0
        &&& spec.created_at >= 0
        &&& Self::spec_type_consistent(spec.order_type, spec.limit_price)
    }

    /// What `new` answers for `spec`.
    pub open spec fn spec_new_result(spec: OrderIntentSpec, r: Result<Self, DomainError>) -> bool {
        match r {
            Ok(i) => {
                &&& Self::spec_accepts(spec)
                &&& i.id@ == trim_seq(spec.id@)
                &&& i.strategy_id@ == trim_seq(spec.strategy_id@)
                &&& i.risk_context_id@ == trim_seq(spec.risk_context_id@)
                &&& i.mode == spec.mode
                &&& i.contract == spec.contract
                &&& i.side == spec.side
                &&& i.quantity == spec.quantity
                &&& i.order_type == spec.order_type
                &&& i.limit_price == spec.limit_price
                &&& i.estimated_max_loss == spec.estimated_max_loss
                &&& i.created_at == spec.created_at
            },
            Err(e) => {
                &&& !Self::spec_accepts(spec)
                &&& if trim_seq(spec.id@).len() == 0 {
                    e matches DomainError::EmptyField { field } && field@ == "id"@
                } else if trim_seq(spec.strategy_id@).len() == 0 {
                    e matches DomainError::EmptyField { field } && field@ == "strategy_id"@
                } else if trim_seq(spec.risk_context_id@).len() == 0 {
                    e matches DomainError::EmptyField { field } && field@ == "risk_context_id"@
                } else if spec.created_at < 0 {
                    e matches DomainError::InvalidTimestamp
                } else if spec.order_type == OrderType::Limit {
                    e matches DomainError::InvalidOrderType { detail } && detail@
                        == "limit orders require a limit price"@
                } else {
                    e matches DomainError::InvalidOrderType { detail } && detail@
                        == "market orders must not include a limit price"@
                }
            },
        }
    }

    /// An intent with trimmed identifiers; refused for a blank id, strategy
    /// id or risk context id, a pre-epoch time, or a limit price that does
    /// not fit the order type, checked in that order.
    pub fn new(spec: OrderIntentSpec) -> (r: Result<Self, DomainError>)
        ensures
            Self::spec_new_result(spec, r),
    {
        let id = normalize_text(spec.id.as_str(), "id")?;
        let strategy_id = normalize_text(spec.strategy_id.as_str(), "strategy_id")?;
        let risk_context_id = normalize_text(spec.risk_context_id.as_str(), "risk_context_id")?;
        validate_timestamp(spec.created_at)?;
        match spec.order_type {
            OrderType::Limit => {
                if spec.limit_price.is_none() {
                    return Err(
                        DomainError::InvalidOrderType { detail: "limit orders require a limit price" },
                    );
                }
            },
            OrderType::Market => {
                if spec.limit_price.is_some() {
                    return Err(
                        DomainError::InvalidOrderType {
                            detail: "market orders must not include a limit price",
                        },
                    );
                }
            },
        }
        Ok(
            OrderIntent {
                id,
                mode: spec.mode,
                contract: spec.contract,
                side: spec.side,
                quantity: spec.quantity,
                order_type: spec.order_type,
                limit_price: spec.limit_price,
                estimated_max_loss: spec.estimated_max_loss,
                strategy_id,
                risk_context_id,
                created_at: spec.created_at,
            },
        )
    }
}

} // verus!
