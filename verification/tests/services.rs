use optionclaw::persistence::backup::backup_refusal;
use optionclaw::alpaca::AlpacaAccountStatus;
use optionclaw::cli::{parse_command, Command};
use optionclaw::config::{AppConfig, LiveEnvironment, Provider};
use optionclaw::domain::{
    OptionKind, OrderSide, OrderType, Price, RiskDecision, RiskReasonCode, TradingMode,
};
use optionclaw::errors::CliError;
use optionclaw::output::{format_check_config, format_health_report, format_paper_run};
use optionclaw::persistence::audit::{corrupt_log_line, log_lines, AuditEvent, AuditEventType};
use optionclaw::persistence::schema::{
    current_schema, init_report, join_path, migrate_dry_run, verify_report, SchemaMetadata,
};
use optionclaw::persistence::state::{validate_state, PaperState};
use optionclaw::services::live_service::{
    ensure_kill_switch_inactive, ensure_options_capability, live_base_url, live_order_gate,
    require_confirm_live, require_live_config,
};
use optionclaw::services::paper_service::{
    apply_paper_fill, check_paper_mode, paper_run_report, plan_paper_run, AdvisoryFixture,
    MarketSnapshotFixture, OrderFixture, PaperAccountFixture, PaperRunFixture,
};
use optionclaw::services::risk_service::{
    explain_risk, AccountFixture, CalendarDateFixture, OptionContractFixture, OrderIntentFixture,
    RiskExplainFixture, RiskLimitsFixture,
};
use optionclaw::services::{check_config, derive_data_dir, health};

fn contract_fixture() -> OptionContractFixture {
    OptionContractFixture {
        symbol: "AAPL260201C00100000".to_string(),
        underlying: "AAPL".to_string(),
        expiration: CalendarDateFixture { year: 2026, month: 2, day: 1 },
        strike_micros: 100_000_000,
        kind: OptionKind::Call,
        venue_id: None,
        as_of: CalendarDateFixture { year: 2026, month: 1, day: 1 },
    }
}

fn paper_fixture(ask_micros: i64) -> PaperRunFixture {
    PaperRunFixture {
        market_snapshot: MarketSnapshotFixture {
            contract: contract_fixture(),
            timestamp_unix_seconds: 1_704_067_201,
            underlying_price_micros: 190_000_000,
            option_bid_micros: Some(1_000_000),
            option_ask_micros: Some(ask_micros),
            option_last_micros: None,
            implied_volatility_bps: Some(2_500),
        },
        account: PaperAccountFixture {
            equity_micros: 10_000_000,
            available_cash_micros: Some(7_000_000),
            daily_loss_bps: 0,
        },
        risk_limits: RiskLimitsFixture {
            max_account_risk_bps: 2_000,
            max_daily_loss_bps: 300,
            max_contracts_per_order: 1,
            allow_live: false,
        },
        order: OrderFixture {
            id: " intent-1 ".to_string(),
            strategy_id: "strategy-1".to_string(),
            risk_context_id: "risk-1".to_string(),
            quantity: 1,
            side: OrderSide::Buy,
            order_type: OrderType::Limit,
        },
    }
}

fn advisory() -> AdvisoryFixture {
    AdvisoryFixture { score: 75, confidence_bps: 8_500, explanation: "fixture advisory".to_string() }
}

#[test]
fn paper_plan_accepts_a_small_order_and_fills_state() {
    let plan = plan_paper_run(&paper_fixture(1_100_000), &advisory()).expect("plan");
    assert_eq!(plan.intent.id, "intent-1");
    assert_eq!(plan.intent.mode, TradingMode::Paper);
    assert_eq!(plan.intent.limit_price, Some(Price::from_micros(1_100_000).unwrap()));
    assert_eq!(plan.decision, RiskDecision::Accepted);
    assert_eq!(plan.account.account_id, "paper");
    let mut state = PaperState::default();
    apply_paper_fill(&mut state, &plan.intent, 1_704_067_201);
    assert_eq!(state.positions.len(), 1);
    assert_eq!(state.positions[0].expiration, "2026-02-01");
    assert_eq!(state.positions[0].kind, "call");
    assert_eq!(state.positions[0].average_entry_price_micros, 1_100_000);
    assert_eq!(state.last_updated_unix_seconds, Some(1_704_067_201));
    let report = paper_run_report("c.toml", "fixtures", TradingMode::Paper, "intent-1", plan.decision, true);
    assert_eq!(
        format_paper_run(&report),
        "paper run-once ok mode=paper intent=intent-1 decision=RISK_ACCEPTED execution=executed audit_appended=true state_updated=true"
    );
}

#[test]
fn paper_plan_rejects_an_order_over_the_risk_cap() {
    let plan = plan_paper_run(&paper_fixture(2_500_000), &advisory()).expect("plan");
    assert_eq!(plan.decision.code(), Some(RiskReasonCode::EstimatedAccountRiskOverCap));
    assert!(check_paper_mode("c.toml", TradingMode::Live).is_err());
    assert!(check_paper_mode("c.toml", TradingMode::Sandbox).is_ok());
}

#[test]
fn paper_plan_reports_the_first_bad_fixture_value() {
    let mut fixture = paper_fixture(1_100_000);
    fixture.market_snapshot.option_ask_micros = Some(900_000);
    let err = plan_paper_run(&fixture, &advisory()).expect_err("inverted spread");
    assert!(err.message().contains("DOMAIN_INVALID_PERCENT"));
    let bad = AdvisoryFixture { score: 101, ..advisory() };
    let err = plan_paper_run(&paper_fixture(1_100_000), &bad).expect_err("bad score");
    assert!(err.message().contains("DOMAIN_INVALID_SCORE"));
}

fn risk_fixture(kill_switch_active: bool) -> RiskExplainFixture {
    RiskExplainFixture {
        order_intent: OrderIntentFixture {
            id: "intent-1".to_string(),
            mode: TradingMode::Paper,
            contract: contract_fixture(),
            side: OrderSide::Buy,
            quantity: 1,
            order_type: OrderType::Limit,
            limit_price_micros: Some(1_000_000),
            estimated_max_loss_micros: 1_000_000,
            strategy_id: "strategy-1".to_string(),
            risk_context_id: "risk-1".to_string(),
            created_at_unix_seconds: 1_704_067_201,
        },
        account: AccountFixture {
            account_id: "acct-1".to_string(),
            equity_micros: 10_000_000,
            available_cash_micros: Some(7_000_000),
            daily_loss_bps: 0,
        },
        limits: RiskLimitsFixture {
            max_account_risk_bps: 5_000,
            max_daily_loss_bps: 300,
            max_contracts_per_order: 1,
            allow_live: false,
        },
        kill_switch_active,
    }
}

#[test]
fn risk_explain_accepts_and_honours_the_kill_switch() {
    let report = explain_risk("risk.json", &risk_fixture(false)).expect("explains");
    assert_eq!(report.order_intent_id, "intent-1");
    assert_eq!(report.decision, RiskDecision::Accepted);
    let report = explain_risk("risk.json", &risk_fixture(true)).expect("explains");
    assert_eq!(report.decision.code(), Some(RiskReasonCode::KillSwitchActive));
}

fn live_config() -> AppConfig {
    AppConfig {
        trading_mode: TradingMode::Live,
        provider: Provider::Alpaca,
        approval_artifact: Some("approval.json".into()),
        max_account_risk_bps: Some(5_000),
        max_daily_loss_bps: Some(300),
        max_contracts_per_order: Some(1),
        kill_switch_file: Some("STOP".into()),
        ..AppConfig::default()
    }
}

fn status(level: u8) -> AlpacaAccountStatus {
    AlpacaAccountStatus {
        account_id: "acct-123".to_string(),
        status: "ACTIVE".to_string(),
        options_approved_level: level,
        options_trading_level: level,
        trading_blocked: false,
        equity: Price::from_micros(100_000_000_000).unwrap(),
        buying_power: Some(Price::from_micros(50_000_000_000).unwrap()),
    }
}

#[test]
fn live_gates_refuse_in_order() {
    let err = require_confirm_live("order.json", false).expect_err("needs confirmation");
    assert!(err.message().contains("--confirm-live"));
    let env = LiveEnvironment {
        enable_live_trading: Some("true".to_string()),
        alpaca_api_key: Some("k".to_string()),
        alpaca_api_secret: Some("s".to_string()),
    };
    let paper = AppConfig::default();
    let err = require_live_config(&paper, "c.toml", &env).expect_err("paper config");
    assert!(err.message().contains("trading_mode = \"live\""));
    assert!(require_live_config(&live_config(), "c.toml", &env).is_ok());
    let err = ensure_kill_switch_inactive(&live_config(), true).expect_err("kill switch");
    assert!(err.message().contains("KILL_SWITCH_ACTIVE"));
    assert!(ensure_kill_switch_inactive(&paper, true).is_ok());
    let err = ensure_options_capability(&status(1), "c.toml").expect_err("level 1");
    assert!(err.message().contains("options approved/trading level 2"));
    assert!(ensure_options_capability(&status(2), "c.toml").is_ok());
    assert_eq!(live_base_url(&live_config()), "https://paper-api.alpaca.markets");
}

#[test]
fn live_order_gate_keeps_to_long_live_orders_within_limits() {
    let account = optionclaw::alpaca::account_snapshot_from_status(&status(2)).expect("account");
    let mut fixture = risk_fixture(false).order_intent;
    let err = live_order_gate("order.json", &live_config(), &account, &fixture)
        .expect_err("paper intent");
    assert!(err.message().contains("mode = live"));
    fixture.mode = TradingMode::Live;
    let intent = live_order_gate("order.json", &live_config(), &account, &fixture).expect("passes");
    assert_eq!(intent.id, "intent-1");
    fixture.quantity = 2;
    let err = live_order_gate("order.json", &live_config(), &account, &fixture)
        .expect_err("over the contract cap");
    assert!(err.message().contains("live risk gate rejected order: RISK_QUANTITY_OVER_LIMIT"));
}

#[test]
fn data_dir_sits_beside_the_config_directory() {
    assert_eq!(derive_data_dir("repo/config/example.toml"), "repo/var/dev");
    assert_eq!(derive_data_dir("/abs/config/x.toml"), "/abs/var/dev");
    assert_eq!(join_path("root", "audit"), "root/audit");
    assert_eq!(join_path("root/", "audit"), "root/audit");
}

#[test]
fn config_check_and_health_report() {
    let env = LiveEnvironment { enable_live_trading: None, alpaca_api_key: None, alpaca_api_secret: None };
    let report = check_config("config/example.toml", &AppConfig::default(), &env).expect("paper ok");
    assert_eq!(format_check_config(&report), "config ok: mode=paper config=config/example.toml");
    let err = check_config("c.toml", &live_config(), &env).expect_err("live refused");
    assert!(err.message().contains("LIVE_TRADING_DISABLED"));
    let h = health("c.toml", &AppConfig::default(), true, true);
    assert_eq!(
        format_health_report(&h),
        "health ok mode=paper config_ready=true data_ready=true audit_ready=true secrets_store_ready=true providers_ready=true kill_switch_active=false"
    );
    let h = health("c.toml", &AppConfig::default(), false, true);
    assert!(!h.data_ready && !h.audit_ready);
}

fn args(list: &[&str]) -> Vec<String> {
    list.iter().map(|s| s.to_string()).collect()
}

#[test]
fn command_line_parses_each_command() {
    assert_eq!(parse_command(&args(&[])), Ok(Command::Help));
    assert_eq!(parse_command(&args(&["-V"])), Ok(Command::Version));
    assert_eq!(
        parse_command(&args(&["check-config", "--config", "c.toml"])),
        Ok(Command::CheckConfig { config: "c.toml".to_string() })
    );
    assert_eq!(
        parse_command(&args(&["paper", "run-once", "--config", "c", "--fixtures", "f"])),
        Ok(Command::PaperRunOnce { config: "c".to_string(), fixtures: "f".to_string() })
    );
    assert_eq!(
        parse_command(&args(&["live", "submit", "--config", "c", "--order-intent", "o"])),
        Ok(Command::LiveSubmit {
            config: "c".to_string(),
            order_intent: "o".to_string(),
            confirm_live: false
        })
    );
    assert_eq!(
        parse_command(&args(&[
            "live", "submit", "--config", "c", "--order-intent", "o", "--confirm-live"
        ])),
        Ok(Command::LiveSubmit {
            config: "c".to_string(),
            order_intent: "o".to_string(),
            confirm_live: true
        })
    );
    assert_eq!(parse_command(&args(&["state", "init", "--help"])), Ok(Command::Help));
}

#[test]
fn command_line_reports_what_is_wrong() {
    assert_eq!(
        parse_command(&args(&["trade"])),
        Err(CliError::UnknownCommand { command: "trade".to_string() })
    );
    assert_eq!(
        parse_command(&args(&["state"])),
        Err(CliError::MissingArgument {
            command: "state",
            argument: "<init|verify>",
            hint: "run `optionclaw state --help`."
        })
    );
    assert_eq!(
        parse_command(&args(&["check-config", "--conf", "x"])),
        Err(CliError::UnexpectedArgument {
            command: "check-config",
            argument: "--conf".to_string(),
            hint: "use `--config <path>`."
        })
    );
    assert_eq!(
        parse_command(&args(&["health", "--config", "c", "extra"])),
        Err(CliError::UnexpectedArgument {
            command: "health",
            argument: "extra".to_string(),
            hint: "remove the extra argument and try again."
        })
    );
    assert_eq!(
        parse_command(&args(&["risk", "explain", "--config", "c"])),
        Err(CliError::MissingArgument {
            command: "risk explain",
            argument: "--order-intent <path>",
            hint: "run the command with --help to see the required form."
        })
    );
    assert_eq!(
        parse_command(&args(&["research", "publish"])),
        Err(CliError::UnknownSubcommand { command: "research", subcommand: "publish".to_string() })
    );
}

#[test]
fn audit_log_lines_skip_blanks_and_keep_numbers() {
    let lines = log_lines("{\"a\":1}\r\n\n  \n{\"b\":2}\nlast\r");
    let got: Vec<(usize, &str)> = lines.iter().map(|l| (l.number, l.text.as_str())).collect();
    assert_eq!(got, vec![(1, "{\"a\":1}"), (4, "{\"b\":2}"), (5, "last\r")]);
    let err = corrupt_log_line("events.jsonl", 4, "expected value");
    assert!(err.message().contains("line 4: expected value"));
}

#[test]
fn audit_events_refuse_blank_context() {
    let err = AuditEvent::new_at(1, AuditEventType::RiskDecision, TradingMode::Paper, None, None, "  ")
        .expect_err("blank context");
    assert!(err.message().contains("redacted context must not be empty"));
    let event = AuditEvent::new_at(
        1,
        AuditEventType::RiskDecision,
        TradingMode::Paper,
        Some("intent-1".to_string()),
        Some("RISK_ACCEPTED".to_string()),
        "redacted context only",
    )
    .expect("valid");
    assert_eq!(event.mode, "paper");
    assert_eq!(event.event_type.as_str(), "risk_decision");
}

#[test]
fn schema_and_state_checks() {
    let report = migrate_dry_run("root", SchemaMetadata { schema_version: 1 }).expect("noop");
    assert!(report.dry_run && !report.would_modify);
    let err = migrate_dry_run("root", SchemaMetadata { schema_version: 2 }).expect_err("v2");
    assert!(err.message().contains("SCHEMA_UNSUPPORTED"));
    assert!(validate_state("state.json", &PaperState::default()).is_ok());
    let bad = PaperState { mode: "demo".to_string(), ..PaperState::default() };
    let err = validate_state("state.json", &bad).expect_err("bad mode");
    assert!(err.message().contains("invalid trading mode"));
}

#[test]
fn dry_run_migration_is_noop_for_schema_v1() {
    let report = migrate_dry_run("var/dev", SchemaMetadata { schema_version: 1 })
        .expect("dry run should succeed");
    assert!(report.dry_run);
    assert!(!report.would_modify);
    assert_eq!(report.from_version, 1);
    assert_eq!(report.to_version, 1);
}

#[test]
fn health_reflects_missing_data_dir_when_not_initialized() {
    let config = AppConfig::default();
    let report = health("root/config/example.toml", &config, false, false);
    assert_eq!(report.data_dir, derive_data_dir("root/config/example.toml"));
    assert_eq!(report.data_dir, "root/var/dev");
    assert!(report.config_ready);
    assert!(!report.data_ready);
    assert!(!report.audit_ready);
}

#[test]
fn config_and_state_services_succeed() {
    let env = LiveEnvironment { enable_live_trading: None, alpaca_api_key: None, alpaca_api_secret: None };
    let config_path = "root/config/example.toml";
    let config = AppConfig { trading_mode: TradingMode::Paper, ..AppConfig::default() };
    let data_dir = "root/var/dev";

    let config_report = check_config(config_path, &config, &env).expect("config should validate");
    assert_eq!(config_report.trading_mode.as_str(), "paper");

    let init_report = init_report(data_dir, false, false, false);
    assert!(init_report.created);
    let verify_report = verify_report(data_dir, current_schema());
    assert!(verify_report.verified);

    let health_report = health(config_path, &config, true, true);
    assert!(health_report.config_ready);
    assert!(health_report.data_ready);
    assert!(health_report.audit_ready);
    assert!(health_report.mock_providers_ready);
    assert!(!health_report.kill_switch_active);
}

#[test]
fn backup_refuses_in_order() {
    let missing = backup_refusal("src", "dst", false, true, true).expect("missing source");
    assert!(missing.message().contains("PERSISTENCE_MISSING"));
    let exists = backup_refusal("src", "dst", true, true, true).expect("existing target");
    assert_eq!(exists.code().as_str(), "PERSISTENCE_BACKUP_EXISTS");
    let inside = backup_refusal("src", "src/dst", true, false, true).expect("target inside");
    assert!(inside.message().contains("must not be inside the source directory"));
    assert!(backup_refusal("src", "dst", true, false, false).is_none());
}
