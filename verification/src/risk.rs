//! Execution gates that sit in front of every order path.

use vstd::prelude::*;
use crate::domain::TradingMode;
use crate::errors::{AppError, SecurityError};

pub use crate::domain::risk::{
    evaluate_order_intent, RiskContext, RiskDecision, RiskLimits, RiskReasonCode,
};

verus! {

/// Operator switches that execution must pass: the kill switch, and the
/// explicit enablement of live trading.
#[derive(Debug, Clone, Copy, PartialEq, Eq, Structural)]
pub struct ExecutionGates {
    pub kill_switch_active: bool,
    pub live_trading_enabled: bool,
}

impl ExecutionGates {
    /// Every gate closed: kill switch off, live trading not enabled.
    pub open spec fn spec_default() -> ExecutionGates {
        ExecutionGates { kill_switch_active: false, live_trading_enabled: false }
    }
}

impl Default for ExecutionGates {
    fn default() -> (r: Self)
        ensures
            r == Self::spec_default(),
    {
        ExecutionGates { kill_switch_active: false, live_trading_enabled: false }
    }
}

/// What `authorize_execution` answers: the kill switch refuses every mode;
/// live mode is refused unless live trading is enabled; otherwise execution
/// may proceed.
pub open spec fn spec_authorization(
    mode: TradingMode,
    gates: ExecutionGates,
    r: Result<(), AppError>,
) -> bool {
    if gates.kill_switch_active {
        r matches Err(AppError::Security(SecurityError::KillSwitchActive))
    } else if mode == TradingMode::Live && !gates.live_trading_enabled {
        r matches Err(AppError::Security(SecurityError::LiveTradingDisabled { mode: m })) && m@
            == mode.spec_name()
    } else {
        r is Ok
    }
}

/// Decides whether an order in `mode` may execute behind `gates`.
pub fn authorize_execution(mode: TradingMode, gates: ExecutionGates) -> (r: Result<(), AppError>)
    ensures
        spec_authorization(mode, gates, r),
{
    if gates.kill_switch_active {
        return Err(AppError::Security(SecurityError::KillSwitchActive));
    }
    if mode == TradingMode::Live && !gates.live_trading_enabled {
        return Err(
            AppError::Security(SecurityError::LiveTradingDisabled { mode: mode.to_display_string() }),
        );
    }
    Ok(())
}

} // verus!
