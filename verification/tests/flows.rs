use optionclaw::alpaca::{AlpacaAccountStatus, AlpacaOrderReport};
use optionclaw::config::{AppConfig, LiveEnvironment, Provider};
use optionclaw::domain::{OptionKind, OrderSide, OrderType, Price, TradingMode};
use optionclaw::persistence::state::PaperState;
use optionclaw::services::live_check_flow::{LiveCheckAction, LiveCheckEvent, LiveCheckRun};
use optionclaw::services::live_flow::{LiveSubmitAction, LiveSubmitEvent, LiveSubmitRun};
use optionclaw::services::paper_flow::{PaperAction, PaperEvent, PaperRun};
use optionclaw::services::paper_service::{
    AdvisoryFixture, MarketSnapshotFixture, OrderFixture, PaperAccountFixture, PaperRunFixture,
};
use optionclaw::services::research_service::{issue_approval, ResearchEvidence};
use optionclaw::services::risk_service::{
    CalendarDateFixture, OptionContractFixture, OrderIntentFixture, RiskLimitsFixture,
};

fn contract_fixture() -> OptionContractFixture {
    OptionContractFixture {
        symbol: "AAPL260201C00100000".to_string(),
        underlying: "AAPL".to_string(),
        expiration: CalendarDateFixture { year: 2026, month: 2, day: 1 },
        strike_micros: 100_000_000,
        kind: OptionKind::Call,
        venue_id: None,
        as_of: CalendarDateFixture { year: 2026, month: 1, day: 1 },
    }
}

fn paper_fixture(ask_micros: i64) -> PaperRunFixture {
    PaperRunFixture {
        market_snapshot: MarketSnapshotFixture {
            contract: contract_fixture(),
            timestamp_unix_seconds: 1_704_067_201,
            underlying_price_micros: 190_000_000,
            option_bid_micros: Some(1_000_000),
            option_ask_micros: Some(ask_micros),
            option_last_micros: None,
            implied_volatility_bps: None,
        },
        account: PaperAccountFixture {
            equity_micros: 10_000_000,
            available_cash_micros: None,
            daily_loss_bps: 0,
        },
        risk_limits: RiskLimitsFixture {
            max_account_risk_bps: 2_000,
            max_daily_loss_bps: 300,
            max_contracts_per_order: 1,
            allow_live: false,
        },
        order: OrderFixture {
            id: "intent-1".to_string(),
            strategy_id: "strategy-1".to_string(),
            risk_context_id: "risk-1".to_string(),
            quantity: 1,
            side: OrderSide::Buy,
            order_type: OrderType::Limit,
        },
    }
}

fn no_env() -> LiveEnvironment {
    LiveEnvironment { enable_live_trading: None, alpaca_api_key: None, alpaca_api_secret: None }
}

fn advisory() -> AdvisoryFixture {
    AdvisoryFixture { score: 75, confidence_bps: 8_500, explanation: "fixture advisory".to_string() }
}

#[test]
fn paper_flow_audits_then_writes_state_for_an_accepted_order() {
    let (run, action) = PaperRun::start("repo/config/example.toml", "fixtures");
    assert!(matches!(action, PaperAction::LoadConfig { .. }));
    let (run, action) = run.step(PaperEvent::ConfigLoaded { config: AppConfig::default(), env: no_env() });
    match &action {
        PaperAction::PrepareDataDir { path } => assert_eq!(path, "repo/var/dev"),
        _ => panic!("expected the data directory"),
    }
    let (run, action) = run.step(PaperEvent::DataDirReady);
    match &action {
        PaperAction::LoadFixtures { snapshot_path, advisory_path } => {
            assert_eq!(snapshot_path, "fixtures/market/sample_snapshot.json");
            assert_eq!(advisory_path, "fixtures/llm/sample_advisory.json");
        }
        _ => panic!("expected fixtures"),
    }
    let (run, action) = run.step(PaperEvent::FixturesLoaded {
        fixture: paper_fixture(1_100_000),
        advisory: advisory(),
    });
    match &action {
        PaperAction::AppendAudit { path, event } => {
            assert_eq!(path, "repo/var/dev/audit/events.jsonl");
            assert_eq!(event.risk_decision.as_deref(), Some("RISK_ACCEPTED"));
            assert_eq!(event.redacted_context, "paper run-once decision: fixture advisory");
        }
        _ => panic!("expected the decision audit"),
    }
    let (run, action) = run.step(PaperEvent::AuditAppended);
    assert!(matches!(action, PaperAction::ReadState { .. }));
    let (run, action) = run.step(PaperEvent::StateRead { state: PaperState::default() });
    match &action {
        PaperAction::WriteState { path, state } => {
            assert_eq!(path, "repo/var/dev/paper/state.json");
            assert_eq!(state.positions.len(), 1);
            assert_eq!(state.positions[0].average_entry_price_micros, 1_100_000);
        }
        _ => panic!("expected a state write"),
    }
    let (run, action) = run.step(PaperEvent::StateWritten);
    match &action {
        PaperAction::AppendAudit { event, .. } => {
            assert_eq!(event.risk_decision.as_deref(), Some("PAPER_EXECUTED"));
        }
        _ => panic!("expected the execution audit"),
    }
    let (_, action) = run.step(PaperEvent::AuditAppended);
    match action {
        PaperAction::Done { report } => {
            assert!(report.state_updated);
            assert_eq!(report.order_intent_id, "intent-1");
        }
        _ => panic!("expected success"),
    }
}

#[test]
fn paper_flow_never_writes_state_for_a_rejected_order() {
    let (run, _) = PaperRun::start("c.toml", "f");
    let (run, _) = run.step(PaperEvent::ConfigLoaded { config: AppConfig::default(), env: no_env() });
    let (run, _) = run.step(PaperEvent::DataDirReady);
    let (run, _) = run.step(PaperEvent::FixturesLoaded { fixture: paper_fixture(2_500_000), advisory: advisory() });
    let (run, _) = run.step(PaperEvent::AuditAppended);
    let (_, action) = run.step(PaperEvent::StateRead { state: PaperState::default() });
    match action {
        PaperAction::Done { report } => {
            assert!(!report.state_updated);
            assert!(report.risk_decision.to_display_string().starts_with("RISK_ACCOUNT_RISK_OVER_CAP"));
        }
        _ => panic!("a rejected order ends the run"),
    }
}

#[test]
fn paper_flow_refuses_live_configurations() {
    let (run, _) = PaperRun::start("c.toml", "f");
    let live = AppConfig { trading_mode: TradingMode::Live, ..AppConfig::default() };
    let (_, action) = run.step(PaperEvent::ConfigLoaded { config: live, env: no_env() });
    match action {
        PaperAction::Stop { error } => assert!(error.message().contains("LIVE_TRADING_DISABLED")),
        _ => panic!("live mode must stop the run"),
    }
}

fn live_config() -> AppConfig {
    AppConfig {
        trading_mode: TradingMode::Live,
        provider: Provider::Alpaca,
        approval_artifact: Some("approval.json".into()),
        max_account_risk_bps: Some(5_000),
        max_daily_loss_bps: Some(300),
        max_contracts_per_order: Some(1),
        ..AppConfig::default()
    }
}

fn live_env() -> LiveEnvironment {
    LiveEnvironment {
        enable_live_trading: Some("true".to_string()),
        alpaca_api_key: Some("key".to_string()),
        alpaca_api_secret: Some("secret".to_string()),
    }
}

fn live_intent() -> OrderIntentFixture {
    OrderIntentFixture {
        id: "intent-1".to_string(),
        mode: TradingMode::Live,
        contract: contract_fixture(),
        side: OrderSide::Buy,
        quantity: 1,
        order_type: OrderType::Limit,
        limit_price_micros: Some(1_250_000),
        estimated_max_loss_micros: 1_250_000,
        strategy_id: "aggressive-growth-v1".to_string(),
        risk_context_id: "aggressive-growth-risk-v1".to_string(),
        created_at_unix_seconds: 1,
    }
}

fn fresh_approval(config: &AppConfig) -> optionclaw::services::LiveApprovalArtifact {
    let evidence = ResearchEvidence {
        strategy_id: config.strategy_id.clone(),
        risk_profile_id: config.risk_profile_id.clone(),
        config_hash: config.approval_config_hash(),
        annualized_net_roi_bps: 3_000,
        forward_paper_roi_bps: 900,
        profit_factor_bps: 14_000,
        max_drawdown_bps: 1_000,
        backtest_trades: 300,
        forward_paper_trades: 40,
        risk_gate_bypasses: 0,
        generated_at_unix_seconds: 1,
        approved: true,
    };
    let now = std::time::SystemTime::now()
        .duration_since(std::time::UNIX_EPOCH)
        .expect("clock after epoch")
        .as_secs();
    issue_approval(config, evidence, "report.json", now).expect("approval issues")
}

#[test]
fn live_flow_submits_once_after_every_gate() {
    let (run, action) = LiveSubmitRun::start("repo/config/live.toml", "order.json", true);
    assert!(matches!(action, LiveSubmitAction::LoadConfig { .. }));
    let config = live_config();
    let approval = fresh_approval(&config);
    let (run, action) = run.step(LiveSubmitEvent::ConfigLoaded { config, env: live_env() });
    assert!(matches!(action, LiveSubmitAction::LoadApproval { .. }));
    let now_unix_seconds = approval.generated_at_unix_seconds;
    let (run, action) = run.step(LiveSubmitEvent::ApprovalLoaded { artifact: approval, now_unix_seconds });
    match &action {
        LiveSubmitAction::FetchAccount { base_url, .. } => {
            assert_eq!(base_url, "https://paper-api.alpaca.markets")
        }
        _ => panic!("expected the account fetch"),
    }
    let status = AlpacaAccountStatus {
        account_id: "acct-123".to_string(),
        status: "active".to_string(),
        options_approved_level: 2,
        options_trading_level: 3,
        trading_blocked: false,
        equity: Price::from_micros(100_000_000_000).unwrap(),
        buying_power: None,
    };
    let (run, action) = run.step(LiveSubmitEvent::AccountFetched { status });
    assert!(matches!(action, LiveSubmitAction::LoadIntent { .. }));
    let (run, action) = run.step(LiveSubmitEvent::IntentLoaded { fixture: live_intent() });
    match &action {
        LiveSubmitAction::Submit { intent, .. } => assert_eq!(intent.id, "intent-1"),
        _ => panic!("expected the submission"),
    }
    let report = AlpacaOrderReport {
        order_id: "alpaca-order-1".to_string(),
        status: "accepted".to_string(),
        filled_quantity: 0,
        fill_price: None,
    };
    let (run, action) = run.step(LiveSubmitEvent::Submitted { report });
    match &action {
        LiveSubmitAction::PrepareDataDir { path } => assert_eq!(path, "repo/var/dev"),
        _ => panic!("expected the data directory"),
    }
    let (run, action) = run.step(LiveSubmitEvent::DataDirReady);
    match &action {
        LiveSubmitAction::AppendAudit { event, .. } => {
            assert_eq!(event.risk_decision.as_deref(), Some("LIVE_SUBMITTED"));
            assert_eq!(event.redacted_context, "provider_order_id=alpaca-order-1");
        }
        _ => panic!("expected the audit record"),
    }
    let (_, action) = run.step(LiveSubmitEvent::AuditAppended);
    match action {
        LiveSubmitAction::Done { report } => {
            assert!(report.submitted);
            assert_eq!(report.provider_order_id, "alpaca-order-1");
        }
        _ => panic!("expected success"),
    }
}

#[test]
fn live_flow_stops_before_the_broker_when_a_gate_refuses() {
    let (_, action) = LiveSubmitRun::start("c.toml", "order.json", false);
    match action {
        LiveSubmitAction::Stop { error } => assert!(error.message().contains("--confirm-live")),
        _ => panic!("unconfirmed submissions stop at once"),
    }
    let (run, _) = LiveSubmitRun::start("c.toml", "order.json", true);
    let (_, action) = run.step(LiveSubmitEvent::ConfigLoaded { config: live_config(), env: no_env() });
    match action {
        LiveSubmitAction::Stop { error } => assert!(error.message().contains("LIVE_TRADING_DISABLED")),
        _ => panic!("live trading not enabled must stop the run"),
    }
    let (run, _) = LiveSubmitRun::start("c.toml", "order.json", true);
    let config = AppConfig { kill_switch_file: Some("STOP".into()), ..live_config() };
    let (run, action) = run.step(LiveSubmitEvent::ConfigLoaded { config, env: live_env() });
    assert!(matches!(action, LiveSubmitAction::CheckKillSwitch { .. }));
    let (_, action) = run.step(LiveSubmitEvent::KillSwitchChecked { exists: true });
    match action {
        LiveSubmitAction::Stop { error } => assert!(error.message().contains("KILL_SWITCH_ACTIVE")),
        _ => panic!("an engaged kill switch must stop the run"),
    }
}

#[test]
fn live_flow_refuses_an_approval_read_after_its_expiry() {
    let (run, _) = LiveSubmitRun::start("repo/config/live.toml", "order.json", true);
    let config = live_config();
    let approval = fresh_approval(&config);
    let (run, _) = run.step(LiveSubmitEvent::ConfigLoaded { config, env: live_env() });
    let now_unix_seconds = approval.expires_at_unix_seconds + 1;
    let (_, action) = run.step(LiveSubmitEvent::ApprovalLoaded { artifact: approval, now_unix_seconds });
    match action {
        LiveSubmitAction::Stop { error } => assert!(error.message().contains("stale")),
        _ => panic!("expected the run to stop"),
    }
}

#[test]
fn live_check_flow_reports_after_every_gate() {
    let (run, action) = LiveCheckRun::start("repo/config/live.toml");
    assert!(matches!(action, LiveCheckAction::LoadConfig { .. }));
    let config = live_config();
    let approval = fresh_approval(&config);
    let (run, action) = run.step(LiveCheckEvent::ConfigLoaded { config, env: live_env() });
    assert!(matches!(action, LiveCheckAction::LoadApproval { .. }));
    let now_unix_seconds = approval.generated_at_unix_seconds;
    let (run, action) = run.step(LiveCheckEvent::ApprovalLoaded { artifact: approval, now_unix_seconds });
    assert!(matches!(action, LiveCheckAction::FetchAccount { .. }));
    let status = AlpacaAccountStatus {
        account_id: "acct-123".to_string(),
        status: "active".to_string(),
        options_approved_level: 2,
        options_trading_level: 2,
        trading_blocked: false,
        equity: Price::from_micros(100_000_000_000).unwrap(),
        buying_power: None,
    };
    let (_, action) = run.step(LiveCheckEvent::AccountFetched { status });
    match action {
        LiveCheckAction::Done { report } => {
            assert!(report.approved);
            assert!(report.approval_fresh);
            assert_eq!(report.options_approved_level, 2);
        }
        _ => panic!("expected the report"),
    }
}

#[test]
fn live_check_flow_stops_on_low_options_level() {
    let (run, _) = LiveCheckRun::start("repo/config/live.toml");
    let config = live_config();
    let approval = fresh_approval(&config);
    let (run, _) = run.step(LiveCheckEvent::ConfigLoaded { config, env: live_env() });
    let now_unix_seconds = approval.generated_at_unix_seconds;
    let (run, _) = run.step(LiveCheckEvent::ApprovalLoaded { artifact: approval, now_unix_seconds });
    let status = AlpacaAccountStatus {
        account_id: "acct-123".to_string(),
        status: "active".to_string(),
        options_approved_level: 1,
        options_trading_level: 1,
        trading_blocked: false,
        equity: Price::from_micros(100_000_000_000).unwrap(),
        buying_power: None,
    };
    let (_, action) = run.step(LiveCheckEvent::AccountFetched { status });
    match action {
        LiveCheckAction::Stop { error } => {
            assert!(error.message().contains("options approved/trading level 2"))
        }
        _ => panic!("expected the run to stop"),
    }
}

#[test]
fn live_check_flow_stops_without_live_enablement() {
    let (run, _) = LiveCheckRun::start("repo/config/live.toml");
    let (_, action) = run.step(LiveCheckEvent::ConfigLoaded { config: live_config(), env: no_env() });
    match action {
        LiveCheckAction::Stop { error } => assert!(error.message().contains("LIVE_TRADING_DISABLED")),
        _ => panic!("expected the run to stop"),
    }
}
