use optionclaw::config::{stable_hex_hash, AppConfig, LiveEnvironment, Provider};
use optionclaw::domain::TradingMode;
use optionclaw::errors::{CliError, DomainError, InputError, PersistenceError, SecurityError};

fn no_env() -> LiveEnvironment {
    LiveEnvironment { enable_live_trading: None, alpaca_api_key: None, alpaca_api_secret: None }
}

#[test]
fn domain_error_codes_are_stable() {
    let err = DomainError::InvalidPrice { value_micros: 0 };
    assert_eq!(err.code().as_str(), "DOMAIN_INVALID_PRICE");
    assert!(err.message().contains("DOMAIN_INVALID_PRICE"));
}

#[test]
fn input_error_codes_are_stable() {
    let err = InputError::Invalid {
        path: "fixture.json".to_string(),
        detail: "bad json".to_string(),
    };
    assert_eq!(err.code().as_str(), "INPUT_INVALID");
    assert!(err.message().contains("INPUT_INVALID"));
}

#[test]
fn mod_security_error_codes_are_stable() {
    let err = SecurityError::LiveTradingDisabled { mode: "live".to_string() };
    assert_eq!(err.code().as_str(), "LIVE_TRADING_DISABLED");
    assert!(err.message().contains("LIVE_TRADING_DISABLED"));
}

#[test]
fn cli_error_codes_are_stable() {
    let err = CliError::UnknownCommand { command: "paper".to_string() };
    assert_eq!(err.code().as_str(), "CLI_UNKNOWN_COMMAND");
    assert!(err.message().contains("CLI_UNKNOWN_COMMAND"));
}

#[test]
fn persistence_error_codes_are_stable() {
    let err = PersistenceError::UnsupportedSchema {
        path: "schema.json".to_string(),
        found: 2,
        expected: 1,
    };
    assert_eq!(err.code().as_str(), "SCHEMA_UNSUPPORTED");
    assert!(err.message().contains("SCHEMA_UNSUPPORTED"));
}

#[test]
fn live_mode_fails_closed_at_validation_boundary() {
    let config = AppConfig {
        trading_mode: TradingMode::Live,
        provider: Provider::Alpaca,
        approval_artifact: Some("var/dev/live/live-approval.json".into()),
        max_account_risk_bps: Some(100),
        max_daily_loss_bps: Some(300),
        max_contracts_per_order: Some(1),
        ..AppConfig::default()
    };
    let err = config.validate_security(&no_env()).expect_err("live mode should fail closed");
    assert!(err.message().contains("LIVE_TRADING_DISABLED"));
}

#[test]
fn config_hash_changes_when_risk_changes() {
    let first = AppConfig {
        provider: Provider::Alpaca,
        max_account_risk_bps: Some(100),
        max_daily_loss_bps: Some(300),
        max_contracts_per_order: Some(1),
        ..AppConfig::default()
    };
    let second = AppConfig { max_account_risk_bps: Some(200), ..first.clone() };
    assert_ne!(first.approval_config_hash(), second.approval_config_hash());
    assert_eq!(stable_hex_hash("abc"), stable_hex_hash("abc"));
}

#[test]
fn stable_hash_is_fnv1a_in_hex() {
    assert_eq!(stable_hex_hash(""), "cbf29ce484222325");
    assert_eq!(stable_hex_hash("a"), "af63dc4c8601ec8c");
}

#[test]
fn paper_mode_passes_security_without_secrets() {
    let config = AppConfig::default();
    assert_eq!(config.trading_mode, TradingMode::Paper);
    assert!(config.validate_security(&no_env()).is_ok());
}

#[test]
fn live_mode_with_every_gate_passes_the_contract() {
    let config = AppConfig {
        trading_mode: TradingMode::Live,
        provider: Provider::Alpaca,
        approval_artifact: Some("approval.json".into()),
        max_account_risk_bps: Some(100),
        max_daily_loss_bps: Some(300),
        max_contracts_per_order: Some(1),
        ..AppConfig::default()
    };
    let env = LiveEnvironment {
        enable_live_trading: Some("true".to_string()),
        alpaca_api_key: Some("key".to_string()),
        alpaca_api_secret: Some("  ".to_string()),
    };
    let err = config.validate_security(&env).expect_err("blank secret should fail");
    assert!(err.message().contains("OPTIONCLAW_ALPACA_API_SECRET"));
    let env = LiveEnvironment { alpaca_api_secret: Some("secret".to_string()), ..env };
    assert!(config.validate_security(&env).is_ok());
    let limits = config.live_risk_limits().expect("limits should build");
    assert_eq!(limits.max_contracts_per_order, 1);
    assert!(limits.allow_live);
}

#[test]
fn defaults_to_paper_mode() {
    let config = AppConfig::default();
    assert_eq!(config.trading_mode, TradingMode::Paper);
    assert_eq!(config.provider, Provider::Fixture);
}

#[test]
fn parses_explicit_paper_mode() {
    let config = AppConfig {
        trading_mode: TradingMode::parse("paper").expect("valid config"),
        ..AppConfig::default()
    };
    assert_eq!(config.trading_mode, TradingMode::Paper);
}

#[test]
fn config_hash_is_sixteen_hex_digits_and_ignores_the_mode() {
    let paper = AppConfig { max_account_risk_bps: Some(100), ..AppConfig::default() };
    let live = AppConfig { trading_mode: TradingMode::Live, ..paper.clone() };
    let hash = paper.approval_config_hash();
    assert_eq!(hash.len(), 16);
    assert!(hash.chars().all(|c| c.is_ascii_digit() || ('a'..='f').contains(&c)));
    assert_eq!(hash, live.approval_config_hash());
}
