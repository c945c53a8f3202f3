//! The pre-trade risk gate.

use vstd::prelude::*;
use vstd::string::*;
use crate::errors::DomainError;
use super::account::AccountSnapshot;
use super::instrument::{PercentBps, TradingMode};
use super::order::OrderIntent;

verus! {

/// Why the risk gate refused an order intent.
#[derive(Debug, Clone, Copy, PartialEq, Eq, Structural)]
pub enum RiskReasonCode {
    MissingLimits,
    LiveTradingDisabled,
    QuantityOverLimit,
    EstimatedAccountRiskOverCap,
    DailyLossOverCap,
    KillSwitchActive,
}

impl RiskReasonCode {
    /// The stable text of the code.
    pub open spec fn spec_str(self) -> Seq<char> {
        match self {
            RiskReasonCode::MissingLimits => "RISK_MISSING_LIMITS"@,
            RiskReasonCode::LiveTradingDisabled => "RISK_LIVE_DISABLED"@,
            RiskReasonCode::QuantityOverLimit => "RISK_QUANTITY_OVER_LIMIT"@,
            RiskReasonCode::EstimatedAccountRiskOverCap => "RISK_ACCOUNT_RISK_OVER_CAP"@,
            RiskReasonCode::DailyLossOverCap => "RISK_DAILY_LOSS_OVER_CAP"@,
            RiskReasonCode::KillSwitchActive => "KILL_SWITCH_ACTIVE"@,
        }
    }

    /// The stable text of the code.
    pub fn as_str(self) -> (r: &'static str)
        ensures
            r@ == self.spec_str(),
    {
        match self {
            RiskReasonCode::MissingLimits => "RISK_MISSING_LIMITS",
            RiskReasonCode::LiveTradingDisabled => "RISK_LIVE_DISABLED",
            RiskReasonCode::QuantityOverLimit => "RISK_QUANTITY_OVER_LIMIT",
            RiskReasonCode::EstimatedAccountRiskOverCap => "RISK_ACCOUNT_RISK_OVER_CAP",
            RiskReasonCode::DailyLossOverCap => "RISK_DAILY_LOSS_OVER_CAP",
            RiskReasonCode::KillSwitchActive => "KILL_SWITCH_ACTIVE",
        }
    }

    /// The explanation the risk gate gives with this code.
    pub open spec fn spec_explanation(self) -> Seq<char> {
        match self {
            RiskReasonCode::MissingLimits => "risk limits must be configured before execution"@,
            RiskReasonCode::LiveTradingDisabled => "live trading is disabled by risk limits"@,
            RiskReasonCode::QuantityOverLimit => "order quantity exceeds configured max contracts per order"@,
            RiskReasonCode::EstimatedAccountRiskOverCap => "estimated account risk exceeds configured limit"@,
            RiskReasonCode::DailyLossOverCap => "daily loss exceeds configured limit"@,
            RiskReasonCode::KillSwitchActive => "kill switch is active; execution is blocked"@,
        }
    }

    /// The explanation the risk gate gives with this code.
    pub fn explanation(self) -> (r: &'static str)
        ensures
            r@ == self.spec_explanation(),
    {
        match self {
            RiskReasonCode::MissingLimits => "risk limits must be configured before execution",
            RiskReasonCode::LiveTradingDisabled => "live trading is disabled by risk limits",
            RiskReasonCode::QuantityOverLimit => "order quantity exceeds configured max contracts per order",
            RiskReasonCode::EstimatedAccountRiskOverCap => "estimated account risk exceeds configured limit",
            RiskReasonCode::DailyLossOverCap => "daily loss exceeds configured limit",
            RiskReasonCode::KillSwitchActive => "kill switch is active; execution is blocked",
        }
    }
}

/// Per-order and per-day risk caps.
#[derive(Debug, Clone, Copy, PartialEq, Eq, Structural)]
pub struct RiskLimits {
    pub max_account_risk_bps: PercentBps,
    pub max_daily_loss_bps: PercentBps,
    pub max_contracts_per_order: u32,
    pub allow_live: bool,
}

impl RiskLimits {
    /// Limits with the given caps; refused when the contract cap is zero.
    pub fn new(
        max_account_risk_bps: PercentBps,
        max_daily_loss_bps: PercentBps,
        max_contracts_per_order: u32,
        allow_live: bool,
    ) -> (r: Result<Self, DomainError>)
        ensures
            max_contracts_per_order == 0 ==> (r matches Err(DomainError::InvalidQuantity { value })
                && value == 0),
            max_contracts_per_order > 0 ==> r == Ok::<RiskLimits, DomainError>(
                RiskLimits {
                    max_account_risk_bps,
                    max_daily_loss_bps,
                    max_contracts_per_order,
                    allow_live,
                },
            ),
    {
        if max_contracts_per_order == 0 {
            return Err(DomainError::InvalidQuantity { value: max_contracts_per_order });
        }
        Ok(RiskLimits { max_account_risk_bps, max_daily_loss_bps, max_contracts_per_order, allow_live })
    }
}

/// The risk gate's verdict on one order intent.
#[derive(Debug, PartialEq, Eq)]
pub enum RiskDecision {
    Accepted,
    Rejected { code: RiskReasonCode, message: String },
}

impl Clone for RiskDecision {
    fn clone(&self) -> (r: Self)
        ensures
            r == *self,
    {
        match self {
            RiskDecision::Accepted => RiskDecision::Accepted,
            RiskDecision::Rejected { code, message } => RiskDecision::Rejected {
                code: *code,
                message: message.clone(),
            },
        }
    }
}

impl RiskDecision {
    /// An acceptance.
    pub fn accepted() -> (r: Self)
        ensures
            r is Accepted,
    {
        RiskDecision::Accepted
    }

    /// A rejection with `code` and `message`.
    pub fn rejected(code: RiskReasonCode, message: &str) -> (r: Self)
        ensures
            r matches RiskDecision::Rejected { code: c, message: m } && c == code && m@ == message@,
    {
        RiskDecision::Rejected { code, message: message.to_owned() }
    }

    /// Whether the intent was accepted.
    pub fn is_accepted(&self) -> (r: bool)
        ensures
            r == self is Accepted,
    {
        match self {
            RiskDecision::Accepted => true,
            RiskDecision::Rejected { .. } => false,
        }
    }

    /// The rejection code, if rejected.
    pub open spec fn spec_code(&self) -> Option<RiskReasonCode> {
        match self {
            RiskDecision::Accepted => None,
            RiskDecision::Rejected { code, .. } => Some(*code),
        }
    }

    /// The rejection code, if rejected.
    pub fn code(&self) -> (r: Option<RiskReasonCode>)
        ensures
            r == self.spec_code(),
    {
        match self {
            RiskDecision::Accepted => None,
            RiskDecision::Rejected { code, .. } => Some(*code),
        }
    }

    /// `RISK_ACCEPTED`, or the code and message of a rejection.
    pub open spec fn spec_display(&self) -> Seq<char> {
        match self {
            RiskDecision::Accepted => "RISK_ACCEPTED"@,
            RiskDecision::Rejected { code, message } => code.spec_str() + ": "@ + message@,
        }
    }

    /// `RISK_ACCEPTED`, or the code and message of a rejection.
    pub fn to_display_string(&self) -> (r: String)
        ensures
            r@ == self.spec_display(),
    {
        match self {
            RiskDecision::Accepted => "RISK_ACCEPTED".to_owned(),
            RiskDecision::Rejected { code, message } => {
                let mut s = code.as_str().to_owned();
                s.append(": ");
                s.append(message.as_str());
                s
            },
        }
    }
}

/// Whether the kill switch is engaged for the current run.
#[derive(Debug, Clone, Copy, PartialEq, Eq, Structural)]
pub struct RiskContext {
    pub kill_switch_active: bool,
}

/// The first gate that refuses the intent, or `None` when every gate
/// passes. Gates in order: limits configured, kill switch off, live mode
/// allowed, quantity within the cap, estimated risk within the account cap,
/// daily loss within its cap.
pub open spec fn spec_first_refusal(
    intent: OrderIntent,
    limits: Option<RiskLimits>,
    account: AccountSnapshot,
    kill_switch_active: bool,
) -> Option<RiskReasonCode> {
    match limits {
        None => Some(RiskReasonCode::MissingLimits),
        Some(l) => if kill_switch_active {
            Some(RiskReasonCode::KillSwitchActive)
        } else if intent.mode == TradingMode::Live && !l.allow_live {
            Some(RiskReasonCode::LiveTradingDisabled)
        } else if intent.quantity.spec_get() > l.max_contracts_per_order {
            Some(RiskReasonCode::QuantityOverLimit)
        } else if intent.estimated_max_loss.spec_risk_bps_of(account.equity)
            > l.max_account_risk_bps.spec_bps() {
            Some(RiskReasonCode::EstimatedAccountRiskOverCap)
        } else if account.daily_loss_bps > l.max_daily_loss_bps.spec_bps() {
            Some(RiskReasonCode::DailyLossOverCap)
        } else {
            None
        },
    }
}

/// The decision the risk gate gives: acceptance when no gate refuses, else
/// a rejection with the first refusing gate's code and explanation.
pub open spec fn spec_evaluate(
    intent: OrderIntent,
    limits: Option<RiskLimits>,
    account: AccountSnapshot,
    kill_switch_active: bool,
    decision: RiskDecision,
) -> bool {
    match spec_first_refusal(intent, limits, account, kill_switch_active) {
        None => decision is Accepted,
        Some(c) => (decision matches RiskDecision::Rejected { code, message } && code == c
            && message@ == c.spec_explanation()),
    }
}

/// Evaluates an order intent against the limits, the account and the kill
/// switch. Fails closed: without limits, or with the kill switch engaged,
/// nothing is accepted.
pub fn evaluate_order_intent(
    intent: &OrderIntent,
    limits: Option<&RiskLimits>,
    account: &AccountSnapshot,
    kill_switch_active: bool,
) -> (r: RiskDecision)
    ensures
        spec_evaluate(
            *intent,
            match limits {
                Some(l) => Some(*l),
                None => None,
            },
            *account,
            kill_switch_active,
            r,
        ),
{
    let limits = match limits {
        Some(l) => l,
        None => {
            let c = RiskReasonCode::MissingLimits;
            return RiskDecision::rejected(c, c.explanation());
        },
    };
    if kill_switch_active {
        let c = RiskReasonCode::KillSwitchActive;
        return RiskDecision::rejected(c, c.explanation());
    }
    if intent.mode == TradingMode::Live && !limits.allow_live {
        let c = RiskReasonCode::LiveTradingDisabled;
        return RiskDecision::rejected(c, c.explanation());
    }
    if intent.quantity.get() > limits.max_contracts_per_order {
        let c = RiskReasonCode::QuantityOverLimit;
        return RiskDecision::rejected(c, c.explanation());
    }
    let estimated_account_risk_bps = intent.estimated_max_loss.risk_bps_of(account.equity);
    if estimated_account_risk_bps > limits.max_account_risk_bps.bps() {
        let c = RiskReasonCode::EstimatedAccountRiskOverCap;
        return RiskDecision::rejected(c, c.explanation());
    }
    if account.daily_loss_bps > limits.max_daily_loss_bps.bps() {
        let c = RiskReasonCode::DailyLossOverCap;
        return RiskDecision::rejected(c, c.explanation());
    }
    RiskDecision::accepted()
}

/// An accepted intent respects every configured cap: limits were given,
/// the kill switch was off, live mode was allowed when the intent is live,
/// and quantity, estimated account risk and daily loss were within their
/// caps.
pub proof fn lemma_accepted_respects_limits(
    intent: OrderIntent,
    limits: Option<RiskLimits>,
    account: AccountSnapshot,
    kill_switch_active: bool,
    decision: RiskDecision,
)
    requires
        spec_evaluate(intent, limits, account, kill_switch_active, decision),
        decision is Accepted,
    ensures
        limits is Some,
        !kill_switch_active,
        intent.mode == TradingMode::Live ==> limits.unwrap().allow_live,
        intent.quantity.spec_get() <= limits.unwrap().max_contracts_per_order,
        intent.estimated_max_loss.spec_risk_bps_of(account.equity)
            <= limits.unwrap().max_account_risk_bps.spec_bps(),
        account.daily_loss_bps <= limits.unwrap().max_daily_loss_bps.spec_bps(),
{
}

/// An engaged kill switch refuses every intent, whatever the limits and
/// the account, and names itself as the reason once limits are configured.
pub proof fn lemma_kill_switch_blocks(
    intent: OrderIntent,
    limits: Option<RiskLimits>,
    account: AccountSnapshot,
    decision: RiskDecision,
)
    requires
        spec_evaluate(intent, limits, account, true, decision),
    ensures
        decision is Rejected,
        limits is Some ==> decision.spec_code() == Some(RiskReasonCode::KillSwitchActive),
{
}

/// An intent evaluated with no risk limits is always refused with the
/// missing-limits code.
pub proof fn lemma_no_limits_rejects(
    intent: OrderIntent,
    account: AccountSnapshot,
    kill_switch_active: bool,
    decision: RiskDecision,
)
    requires
        spec_evaluate(intent, None, account, kill_switch_active, decision),
    ensures
        decision.spec_code() == Some(RiskReasonCode::MissingLimits),
{
}

} // verus!
