//! The paper-trading state file.

use vstd::prelude::*;
use vstd::string::*;
use crate::domain::TradingMode;
use crate::errors::PersistenceError;
use super::schema::SCHEMA_VERSION;

verus! {

/// A position as the state file stores it.
#[derive(Debug, Clone, PartialEq, Eq, Default)]
pub struct StoredPosition {
    pub symbol: String,
    pub underlying: String,
    pub expiration: String,
    pub strike_micros: i64,
    pub kind: String,
    pub quantity: u32,
    pub average_entry_price_micros: i64,
}

/// The paper account as the state file stores it; times are seconds since
/// the Unix epoch.
#[derive(Debug, Clone, PartialEq, Eq)]
pub struct PaperState {
    pub schema_version: u32,
    pub mode: String,
    pub account_id: String,
    pub equity_micros: Option<i64>,
    pub available_cash_micros: Option<i64>,
    pub daily_loss_bps: u32,
    pub positions: Vec<StoredPosition>,
    pub last_updated_unix_seconds: Option<u64>,
}

impl Default for PaperState {
    /// A fresh paper account: current schema, paper mode, id `paper`,
    /// nothing held.
    fn default() -> (r: Self)
        ensures
            r.schema_version == SCHEMA_VERSION,
            r.mode@ == "paper"@,
            r.account_id@ == "paper"@,
            r.equity_micros is None,
            r.available_cash_micros is None,
            r.daily_loss_bps == 0,
            r.positions@.len() == 0,
            r.last_updated_unix_seconds is None,
    {
        PaperState {
            schema_version: SCHEMA_VERSION,
            mode: TradingMode::Paper.to_display_string(),
            account_id: "paper".to_owned(),
            equity_micros: None,
            available_cash_micros: None,
            daily_loss_bps: 0,
            positions: Vec::new(),
            last_updated_unix_seconds: None,
        }
    }
}

/// What reading a state file accepts: the supported schema version and a
/// known trading mode; the schema is checked first.
pub open spec fn spec_state_check(path: Seq<char>, state: PaperState, r: Result<(), PersistenceError>) -> bool {
    if state.schema_version != SCHEMA_VERSION {
        r matches Err(PersistenceError::UnsupportedSchema { path: p, found, expected }) && p@
            == path && found == state.schema_version && expected == SCHEMA_VERSION
    } else if TradingMode::spec_parse(state.mode@) is None {
        r matches Err(PersistenceError::Corrupt { path: p, detail }) && p@ == path && detail@
            == "invalid trading mode"@
    } else {
        r is Ok
    }
}

/// Checks a state read from `path`.
pub fn validate_state(path: &str, state: &PaperState) -> (r: Result<(), PersistenceError>)
    ensures
        spec_state_check(path@, *state, r),
{
    if state.schema_version != SCHEMA_VERSION {
        return Err(
            PersistenceError::UnsupportedSchema {
                path: path.to_owned(),
                found: state.schema_version,
                expected: SCHEMA_VERSION,
            },
        );
    }
    if TradingMode::parse(state.mode.as_str()).is_err() {
        return Err(
            PersistenceError::Corrupt {
                path: path.to_owned(),
                detail: "invalid trading mode".to_owned(),
            },
        );
    }
    Ok(())
}

/// Refuses to write a state of another schema version.
pub fn check_state_writable(path: &str, state: &PaperState) -> (r: Result<(), PersistenceError>)
    ensures
        state.schema_version == SCHEMA_VERSION ==> r is Ok,
        state.schema_version != SCHEMA_VERSION ==> (r matches Err(
            PersistenceError::UnsupportedSchema { path: p, found, expected },
        ) && p@ == path@ && found == state.schema_version && expected == SCHEMA_VERSION),
{
    if state.schema_version != SCHEMA_VERSION {
        return Err(
            PersistenceError::UnsupportedSchema {
                path: path.to_owned(),
                found: state.schema_version,
                expected: SCHEMA_VERSION,
            },
        );
    }
    Ok(())
}

/// A freshly initialised state passes the checks that reading it applies,
/// so what initialisation writes, verification accepts.
pub proof fn lemma_default_state_valid(path: Seq<char>, state: PaperState, r: Result<(), PersistenceError>)
    requires
        state.schema_version == SCHEMA_VERSION,
        state.mode@ == "paper"@,
        spec_state_check(path, state, r),
    ensures
        r is Ok,
{
    reveal_strlit("paper");
    assert(crate::text::trim_seq("paper"@) == "paper"@) by {
        crate::text::lemma_trim_noop("paper"@);
    }
    assert(crate::text::ascii_lower_seq("paper"@) =~= "paper"@);
}

} // verus!
