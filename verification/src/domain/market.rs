//! Market data snapshots of one option contract.

use vstd::prelude::*;
use crate::errors::DomainError;
use super::instrument::{OptionContract, Price};

verus! {

/// A timestamp is accepted when it is on or after the Unix epoch; times are
/// seconds relative to the epoch.
pub fn validate_timestamp(timestamp: i64) -> (r: Result<(), DomainError>)
    ensures
        timestamp >= 0 <==> r is Ok,
        timestamp < 0 ==> r matches Err(DomainError::InvalidTimestamp),
{
    if timestamp < 0 {
        return Err(DomainError::InvalidTimestamp);
    }
    Ok(())
}

/// Quotes for one contract at one moment; `timestamp` is in seconds since
/// the Unix epoch.
#[derive(Debug, PartialEq, Eq)]
pub struct MarketSnapshot {
    pub contract: OptionContract,
    pub timestamp: i64,
    pub underlying_price: Price,
    pub option_bid: Option<Price>,
    pub option_ask: Option<Price>,
    pub option_last: Option<Price>,
    pub implied_volatility_bps: Option<u32>,
}

impl Clone for MarketSnapshot {
    fn clone(&self) -> (r: Self)
        ensures
            r == *self,
    {
        MarketSnapshot {
            contract: self.contract.clone(),
            timestamp: self.timestamp,
            underlying_price: self.underlying_price,
            option_bid: self.option_bid,
            option_ask: self.option_ask,
            option_last: self.option_last,
            implied_volatility_bps: self.implied_volatility_bps,
        }
    }
}

impl MarketSnapshot {
    /// Whether the ask is below the bid.
    pub open spec fn spec_inverted(bid: Option<Price>, ask: Option<Price>) -> bool {
        bid matches Some(b) && ask matches Some(a) && a.spec_micros() < b.spec_micros()
    }

    /// What `new` answers for these arguments.
    pub open spec fn spec_new_result(
        contract: OptionContract,
        timestamp: i64,
        underlying_price: Price,
        option_bid: Option<Price>,
        option_ask: Option<Price>,
        option_last: Option<Price>,
        implied_volatility_bps: Option<u32>,
        r: Result<Self, DomainError>,
    ) -> bool {
        match r {
            Ok(m) => {
                &&& timestamp >= 0
                &&& !Self::spec_inverted(option_bid, option_ask)
                &&& implied_volatility_bps != Some(0u32)
                &&& m == (MarketSnapshot {
                    contract,
                    timestamp,
                    underlying_price,
                    option_bid,
                    option_ask,
                    option_last,
                    implied_volatility_bps,
                })
            },
            Err(e) => if timestamp < 0 {
                e matches DomainError::InvalidTimestamp
            } else if Self::spec_inverted(option_bid, option_ask) {
                e matches DomainError::InvalidPercent { field, value } && field@
                    == "ask_bid_spread"@ && value == 0
            } else {
                &&& implied_volatility_bps == Some(0u32)
                &&& e matches DomainError::InvalidPercent { field, value } && field@
                    == "implied_volatility_bps"@ && value == 0
            },
        }
    }

    /// A snapshot; refused for a pre-epoch time, an ask below the bid, or a
    /// zero implied volatility, checked in that order.
    pub fn new(
        contract: OptionContract,
        timestamp: i64,
        underlying_price: Price,
        option_bid: Option<Price>,
        option_ask: Option<Price>,
        option_last: Option<Price>,
        implied_volatility_bps: Option<u32>,
    ) -> (r: Result<Self, DomainError>)
        ensures
            Self::spec_new_result(
                contract,
                timestamp,
                underlying_price,
                option_bid,
                option_ask,
                option_last,
                implied_volatility_bps,
                r,
            ),
    {
        validate_timestamp(timestamp)?;
        if let (Some(bid), Some(ask)) = (option_bid, option_ask) {
            if ask.micros() < bid.micros() {
                return Err(DomainError::InvalidPercent { field: "ask_bid_spread", value: 0 });
            }
        }
        if let Some(vol) = implied_volatility_bps {
            if vol == 0 {
                return Err(DomainError::InvalidPercent { field: "implied_volatility_bps", value: vol });
            }
        }
        Ok(
            MarketSnapshot {
                contract,
                timestamp,
                underlying_price,
                option_bid,
                option_ask,
                option_last,
                implied_volatility_bps,
            },
        )
    }
}

} // verus!
