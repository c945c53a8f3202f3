//! Local readiness.

use vstd::prelude::*;
use crate::config::AppConfig;
use crate::domain::TradingMode;
use super::{derive_data_dir, spec_derive_data_dir};

verus! {

/// What `health` reports.
#[derive(Debug, Clone, PartialEq, Eq)]
pub struct HealthReport {
    pub config_path: String,
    pub data_dir: String,
    pub trading_mode: TradingMode,
    pub config_ready: bool,
    pub data_ready: bool,
    pub audit_ready: bool,
    pub secrets_store_ready: bool,
    pub mock_providers_ready: bool,
    pub kill_switch_active: bool,
}

/// The readiness of the configuration parsed from `config_path` and of its
/// data directory, the one `derive_data_dir` gives for `config_path`;
/// `data_dir_exists` and `data_dir_verified` say whether that directory
/// exists and whether its verification passed. The data and the audit log
/// are ready when both hold; the fixture providers and the local secret
/// store are always ready, and no kill switch is engaged.
pub fn health(
    config_path: &str,
    config: &AppConfig,
    data_dir_exists: bool,
    data_dir_verified: bool,
) -> (r: HealthReport)
    ensures
        r.config_path@ == config_path@,
        r.data_dir@ == spec_derive_data_dir(config_path@),
        r.trading_mode == config.trading_mode,
        r.config_ready,
        r.data_ready == (data_dir_exists && data_dir_verified),
        r.audit_ready == (data_dir_exists && data_dir_verified),
        r.secrets_store_ready,
        r.mock_providers_ready,
        !r.kill_switch_active,
{
    let ready = data_dir_exists && data_dir_verified;
    HealthReport {
        config_path: config_path.to_owned(),
        data_dir: derive_data_dir(config_path),
        trading_mode: config.trading_mode,
        config_ready: true,
        data_ready: ready,
        audit_ready: ready,
        secrets_store_ready: true,
        mock_providers_ready: true,
        kill_switch_active: false,
    }
}

} // verus!
