use optionclaw::config::{AppConfig, Provider};
use optionclaw::services::research_service::{
    approval_signature, backtest_evidence, issue_approval, validate_aggressive_growth,
    validate_approval_artifact, BacktestFixture, LiveApprovalArtifact, ResearchEvidence,
    APPROVAL_TTL_SECONDS, MAX_DRAWDOWN_BPS, MIN_BACKTEST_NET_ROI_BPS, MIN_BACKTEST_TRADES,
    MIN_FORWARD_PAPER_ROI_BPS, MIN_FORWARD_PAPER_TRADES, MIN_PROFIT_FACTOR_BPS,
};

fn evidence() -> ResearchEvidence {
    ResearchEvidence {
        strategy_id: "aggressive-growth-v1".to_string(),
        risk_profile_id: "aggressive-growth-risk-v1".to_string(),
        config_hash: "hash".to_string(),
        annualized_net_roi_bps: MIN_BACKTEST_NET_ROI_BPS,
        forward_paper_roi_bps: MIN_FORWARD_PAPER_ROI_BPS,
        profit_factor_bps: MIN_PROFIT_FACTOR_BPS,
        max_drawdown_bps: MAX_DRAWDOWN_BPS,
        backtest_trades: MIN_BACKTEST_TRADES,
        forward_paper_trades: MIN_FORWARD_PAPER_TRADES,
        risk_gate_bypasses: 0,
        generated_at_unix_seconds: 1,
        approved: true,
    }
}

fn live_config() -> AppConfig {
    AppConfig {
        approval_artifact: Some("approval.json".into()),
        max_account_risk_bps: Some(100),
        max_daily_loss_bps: Some(300),
        max_contracts_per_order: Some(1),
        ..AppConfig::default()
    }
}

#[test]
fn aggressive_growth_gate_accepts_boundary_values() {
    validate_aggressive_growth(&evidence(), "report.json").expect("boundary should pass");
}

#[test]
fn aggressive_growth_gate_rejects_drawdown() {
    let mut evidence = evidence();
    evidence.max_drawdown_bps = MAX_DRAWDOWN_BPS + 1;
    let err =
        validate_aggressive_growth(&evidence, "report.json").expect_err("drawdown should fail");
    assert!(err.message().contains("max drawdown"));
}

#[test]
fn stale_approval_is_rejected() {
    let config = live_config();
    let mut artifact = LiveApprovalArtifact {
        approval_version: "optionclaw-live-approval-v1".to_string(),
        strategy_id: config.strategy_id.clone(),
        risk_profile_id: config.risk_profile_id.clone(),
        config_hash: config.approval_config_hash(),
        generated_at_unix_seconds: 1,
        expires_at_unix_seconds: 2,
        approved: true,
        signature: "sig".to_string(),
        evidence: evidence(),
    };
    artifact.evidence.config_hash = artifact.config_hash.clone();
    let err = validate_approval_artifact(&config, &artifact, 3, "approval.json")
        .expect_err("stale approval should fail");
    assert!(err.message().contains("stale"));
}

#[test]
fn issued_approval_validates_until_expiry_and_not_after() {
    let config = live_config();
    let mut ev = evidence();
    ev.config_hash = config.approval_config_hash();
    let artifact = issue_approval(&config, ev, "report.json", 1_000).expect("approval issues");
    assert_eq!(artifact.expires_at_unix_seconds, 1_000 + APPROVAL_TTL_SECONDS);
    assert!(validate_approval_artifact(&config, &artifact, 1_000, "a.json").is_ok());
    assert!(validate_approval_artifact(&config, &artifact, 1_000 + APPROVAL_TTL_SECONDS, "a.json")
        .is_ok());
    let err =
        validate_approval_artifact(&config, &artifact, 1_001 + APPROVAL_TTL_SECONDS, "a.json")
            .expect_err("expired");
    assert!(err.message().contains("stale"));
    let mut forged = artifact.clone();
    forged.expires_at_unix_seconds += 1;
    let err = validate_approval_artifact(&config, &forged, 1_000, "a.json").expect_err("forged");
    assert!(err.message().contains("signature is invalid"));
    let changed = AppConfig { max_contracts_per_order: Some(2), ..config };
    let err = validate_approval_artifact(&changed, &artifact, 1_000, "a.json").expect_err("hash");
    assert!(err.message().contains("config hash"));
}

#[test]
fn approval_refuses_evidence_of_another_config() {
    let config = live_config();
    let err = issue_approval(&config, evidence(), "report.json", 5).expect_err("hash mismatch");
    assert!(err.message().contains("ROI evidence config hash does not match current live config"));
}

#[test]
fn signature_hashes_identity_and_lifetime() {
    let a = approval_signature("s", "r", "h", 1, 2);
    assert_eq!(a, optionclaw::config::stable_hex_hash("s:r:h:1:2"));
    assert_ne!(a, approval_signature("s", "r", "h", 1, 3));
}

#[test]
fn backtest_approves_evidence_that_passes_the_gate() {
    let config = AppConfig { provider: Provider::Alpaca, ..AppConfig::default() };
    let fixture = BacktestFixture {
        annualized_net_roi_bps: 3_000,
        forward_paper_roi_bps: 900,
        profit_factor_bps: 14_000,
        max_drawdown_bps: 1_500,
        backtest_trades: 250,
        forward_paper_trades: 40,
        risk_gate_bypasses: 0,
    };
    let ev = backtest_evidence(&config, &fixture, "fixtures.json", 7).expect("passes");
    assert!(ev.approved);
    assert_eq!(ev.config_hash, config.approval_config_hash());
    assert_eq!(ev.generated_at_unix_seconds, 7);
    let failing = BacktestFixture { risk_gate_bypasses: 1, ..fixture };
    let err = backtest_evidence(&config, &failing, "fixtures.json", 7).expect_err("bypass");
    assert!(err.message().contains("risk gate bypasses must be zero"));
}
