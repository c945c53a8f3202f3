use optionclaw::config::{AppConfig, LiveEnvironment, TradingMode};
use optionclaw::errors::{SecurityError, SecurityErrorCode};
use optionclaw::execution::authorize_live_mode;
use optionclaw::risk::{authorize_execution, ExecutionGates};
use optionclaw::secrets::{DisabledSecretStore, MemorySecretStore, Redacted, SecretStore};

fn no_env() -> LiveEnvironment {
    LiveEnvironment { enable_live_trading: None, alpaca_api_key: None, alpaca_api_secret: None }
}

#[test]
fn redaction_hides_sensitive_values() {
    let secret = Redacted::new("super-secret".to_string());
    assert_eq!(secret.to_display_string(), "<redacted>");
    assert!(!secret.to_debug_string().contains("super-secret"));
}

#[test]
fn missing_secret_fails_closed() {
    let store = DisabledSecretStore;
    let err = store.load("broker_api_key").err().expect("missing secret should fail");
    assert!(err.message().contains("SECRET_MISSING"));
}

#[test]
fn paper_mode_does_not_require_secrets() {
    let config = AppConfig { trading_mode: TradingMode::Paper, ..AppConfig::default() };
    assert!(config.validate_security(&no_env()).is_ok());
    assert!(authorize_execution(TradingMode::Paper, ExecutionGates::default()).is_ok());
}

#[test]
fn live_mode_fails_closed_without_gates() {
    let err = authorize_execution(TradingMode::Live, ExecutionGates::default())
        .expect_err("live mode should fail closed");
    assert!(err.message().contains("LIVE_TRADING_DISABLED"));
    assert!(authorize_live_mode().is_err());
}

#[test]
fn kill_switch_active_blocks_execution() {
    let err = authorize_execution(
        TradingMode::Paper,
        ExecutionGates { kill_switch_active: true, ..ExecutionGates::default() },
    )
    .expect_err("kill switch should block execution");
    assert!(err.message().contains("KILL_SWITCH_ACTIVE"));
}

#[test]
fn memory_secret_store_round_trips_without_plaintext_printing() {
    let mut store = MemorySecretStore::new();
    store.store("llm_api_key", "opclaw_fake_key".into()).expect("store should succeed");

    let secret = store.load("llm_api_key").expect("load should succeed");
    assert_eq!(secret.expose(), "opclaw_fake_key");
    assert_eq!(secret.to_display_string(), "<redacted>");
}

#[test]
fn integration_security_security_error_codes_are_stable() {
    let err = SecurityError::SecretStorageDisabled { path: None };
    assert_eq!(err.code().as_str(), SecurityErrorCode::SecretStorageDisabled.as_str());
}
