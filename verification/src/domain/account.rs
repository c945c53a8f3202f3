//! Account snapshots and held positions.

use vstd::prelude::*;
use crate::errors::DomainError;
use crate::text::trim_seq;
use super::instrument::{normalize_text, ContractQuantity, OptionContract, Price};

verus! {

/// Contracts held at an average entry price.
#[derive(Debug, Clone, PartialEq, Eq)]
pub struct Position {
    pub contract: OptionContract,
    pub quantity: ContractQuantity,
    pub average_entry_price: Price,
}

impl Position {
    /// A position of `quantity` contracts entered at `average_entry_price`.
    pub fn new(contract: OptionContract, quantity: ContractQuantity, average_entry_price: Price) -> (r:
        Self)
        ensures
            r.contract == contract,
            r.quantity == quantity,
            r.average_entry_price == average_entry_price,
    {
        Position { contract, quantity, average_entry_price }
    }
}

/// What an account holds at one moment.
#[derive(Debug, Clone, PartialEq, Eq)]
pub struct AccountSnapshot {
    pub account_id: String,
    pub equity: Price,
    pub available_cash: Option<Price>,
    pub daily_loss_bps: u32,
    pub positions: Vec<Position>,
}

impl AccountSnapshot {
    /// A snapshot with a trimmed account id; refused when the id is blank.
    /// (Cash, when given, is a `Price` and so always positive.)
    pub fn new(
        account_id: &str,
        equity: Price,
        available_cash: Option<Price>,
        daily_loss_bps: u32,
        positions: Vec<Position>,
    ) -> (r: Result<Self, DomainError>)
        ensures
            trim_seq(account_id@).len() == 0 ==> (r matches Err(DomainError::EmptyField { field })
                && field@ == "account_id"@),
            trim_seq(account_id@).len() > 0 ==> (r matches Ok(a) && a.account_id@ == trim_seq(
                account_id@,
            ) && a.equity == equity && a.available_cash == available_cash && a.daily_loss_bps
                == daily_loss_bps && a.positions@ == positions@),
    {
        let account_id = normalize_text(account_id, "account_id")?;
        if let Some(cash) = available_cash {
            if cash.micros() <= 0 {
                return Err(DomainError::InvalidPrice { value_micros: cash.micros() });
            }
        }
        Ok(AccountSnapshot { account_id, equity, available_cash, daily_loss_bps, positions })
    }
}

} // verus!
