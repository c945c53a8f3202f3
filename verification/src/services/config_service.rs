//! Checking a configuration file's contents.

use vstd::prelude::*;
use crate::config::{AppConfig, LiveEnvironment};
use crate::domain::TradingMode;
use crate::errors::AppError;

verus! {

/// A configuration that passed its checks, and its mode.
#[derive(Debug, Clone, PartialEq, Eq)]
pub struct ConfigReport {
    pub config_path: String,
    pub trading_mode: TradingMode,
}

/// Checks the configuration read from `config_path` against the security
/// gates of its mode, with `env` as the process environment.
pub fn check_config(config_path: &str, config: &AppConfig, env: &LiveEnvironment) -> (r: Result<
    ConfigReport,
    AppError,
>)
    ensures
        match r {
            Ok(report) => config.spec_validate_security(*env, Ok(()))
                && report.config_path@ == config_path@ && report.trading_mode
                == config.trading_mode,
            Err(e) => config.spec_validate_security(*env, Err(e)),
        },
        config.trading_mode != TradingMode::Live ==> r is Ok,
{
    config.validate_security(env)?;
    Ok(ConfigReport { config_path: config_path.to_owned(), trading_mode: config.trading_mode })
}

} // verus!
