use optionclaw::domain::{
    AccountSnapshot, CalendarDate, ContractQuantity, MarketSnapshot, OptionContract, OptionKind,
    OrderIntent, OrderIntentSpec, OrderSide, OrderType, PercentBps, Position, Price,
    RiskDecision, RiskLimits, RiskReasonCode, Signal, SignalSource, TradingMode,
};
use optionclaw::domain::risk::evaluate_order_intent;

fn as_of() -> CalendarDate {
    CalendarDate::new(2026, 1, 1).expect("valid date")
}

fn contract() -> OptionContract {
    OptionContract::new(
        "AAPL260201C00100000",
        "AAPL",
        CalendarDate::new(2026, 2, 1).expect("valid date"),
        Price::from_micros(1_000_000).expect("valid price"),
        OptionKind::Call,
        None::<String>,
        CalendarDate::new(2026, 1, 1).expect("valid date"),
    )
    .expect("valid contract")
}

fn position() -> Position {
    Position::new(
        contract(),
        ContractQuantity::new(1).expect("valid quantity"),
        Price::from_micros(500_000).expect("valid price"),
    )
}

fn account(equity_micros: i64, daily_loss_bps: u32) -> AccountSnapshot {
    AccountSnapshot::new(
        "acct-1",
        Price::from_micros(equity_micros).expect("valid price"),
        None,
        daily_loss_bps,
        vec![position()],
    )
    .expect("valid account snapshot")
}

fn order_intent(mode: TradingMode, quantity: u32, max_loss_micros: i64) -> OrderIntent {
    OrderIntent::new(OrderIntentSpec {
        id: "intent-1".to_string(),
        mode,
        contract: contract(),
        side: OrderSide::Buy,
        quantity: ContractQuantity::new(quantity).expect("valid quantity"),
        order_type: OrderType::Limit,
        limit_price: Some(Price::from_micros(500_000).expect("valid price")),
        estimated_max_loss: Price::from_micros(max_loss_micros).expect("valid price"),
        strategy_id: "strategy-1".to_string(),
        risk_context_id: "risk-1".to_string(),
        created_at: 1,
    })
    .expect("valid order intent")
}

#[test]
fn rejects_empty_account_id() {
    let err = AccountSnapshot::new(
        "  ",
        Price::from_micros(1_000_000).expect("valid price"),
        None,
        0,
        vec![position()],
    )
    .expect_err("empty account id invalid");
    assert_eq!(err.code().as_str(), "DOMAIN_EMPTY_FIELD");
}

#[test]
fn accepts_positive_cash() {
    let account = AccountSnapshot::new(
        "acct-1",
        Price::from_micros(1_000_000).expect("valid price"),
        Some(Price::from_micros(1).expect("valid price")),
        0,
        vec![position()],
    )
    .expect("positive cash should be allowed");
    assert_eq!(account.account_id, "acct-1");
}

#[test]
fn rejects_invalid_date() {
    let err = CalendarDate::new(2026, 2, 30).expect_err("invalid date");
    assert_eq!(err.code().as_str(), "DOMAIN_INVALID_DATE");
}

#[test]
fn rejects_empty_symbol() {
    let expiration = CalendarDate::new(2026, 2, 1).expect("valid date");
    let strike = Price::from_micros(1_000_000).expect("valid price");
    let err = OptionContract::new(
        "  ",
        "AAPL",
        expiration,
        strike,
        OptionKind::Call,
        None::<String>,
        as_of(),
    )
    .expect_err("empty symbol should fail");
    assert_eq!(err.code().as_str(), "DOMAIN_EMPTY_FIELD");
}

#[test]
fn rejects_invalid_strike() {
    let expiration = CalendarDate::new(2026, 2, 1).expect("valid date");
    let err = Price::from_micros(0).expect_err("zero price invalid");
    assert_eq!(err.code().as_str(), "DOMAIN_INVALID_PRICE");
    let strike = Price::from_micros(1).expect("valid price");
    let contract = OptionContract::new(
        "AAPL260201C00100000",
        "AAPL",
        expiration,
        strike,
        OptionKind::Call,
        None::<String>,
        as_of(),
    )
    .expect("valid contract");
    assert_eq!(contract.strike.micros(), 1);
}

#[test]
fn rejects_expired_contract() {
    let expiration = CalendarDate::new(2025, 12, 31).expect("valid date");
    let strike = Price::from_micros(1_000_000).expect("valid price");
    let err = OptionContract::new(
        "AAPL260101C00100000",
        "AAPL",
        expiration,
        strike,
        OptionKind::Call,
        None::<String>,
        as_of(),
    )
    .expect_err("expired contract should fail");
    assert_eq!(err.code().as_str(), "DOMAIN_EXPIRED_CONTRACT");
}

#[test]
fn instrument_rejects_zero_quantity() {
    let err = ContractQuantity::new(0).expect_err("zero quantity invalid");
    assert_eq!(err.code().as_str(), "DOMAIN_INVALID_QUANTITY");
}

#[test]
fn rejects_invalid_trading_mode() {
    let err = TradingMode::parse("demo").expect_err("invalid mode should fail");
    assert_eq!(err.code().as_str(), "DOMAIN_INVALID_MODE");
}

#[test]
fn rejects_invalid_timestamp() {
    let err = MarketSnapshot::new(
        contract(),
        -1,
        Price::from_micros(1_000_000).expect("valid price"),
        None,
        None,
        None,
        None,
    )
    .expect_err("pre-epoch timestamp invalid");
    assert_eq!(err.code().as_str(), "DOMAIN_INVALID_TIMESTAMP");
}

#[test]
fn rejects_inverted_spread() {
    let err = MarketSnapshot::new(
        contract(),
        1,
        Price::from_micros(1_000_000).expect("valid price"),
        Some(Price::from_micros(2_000_000).expect("valid price")),
        Some(Price::from_micros(1_500_000).expect("valid price")),
        None,
        None,
    )
    .expect_err("ask below bid invalid");
    assert_eq!(err.code().as_str(), "DOMAIN_INVALID_PERCENT");
}

#[test]
fn order_rejects_zero_quantity() {
    let err = ContractQuantity::new(0).expect_err("zero invalid");
    assert_eq!(err.code().as_str(), "DOMAIN_INVALID_QUANTITY");
}

#[test]
fn rejects_missing_limit_price_for_limit_order() {
    let err = OrderIntent::new(OrderIntentSpec {
        id: "intent-1".to_string(),
        mode: TradingMode::Paper,
        contract: contract(),
        side: OrderSide::Buy,
        quantity: ContractQuantity::new(1).expect("valid quantity"),
        order_type: OrderType::Limit,
        limit_price: None,
        estimated_max_loss: Price::from_micros(100_000).expect("valid price"),
        strategy_id: "strategy-1".to_string(),
        risk_context_id: "risk-1".to_string(),
        created_at: 1,
    })
    .expect_err("limit order without limit price invalid");
    assert_eq!(err.code().as_str(), "DOMAIN_INVALID_ORDER_TYPE");
}

#[test]
fn rejects_missing_limits() {
    let decision = evaluate_order_intent(
        &order_intent(TradingMode::Paper, 1, 100_000),
        None,
        &account(1_000_000, 0),
        false,
    );
    assert_eq!(
        decision.code(),
        Some(RiskReasonCode::MissingLimits),
        "missing limits should fail closed"
    );
}

#[test]
fn rejects_live_when_disabled() {
    let limits = RiskLimits::new(
        PercentBps::from_bps(100).expect("valid percent"),
        PercentBps::from_bps(100).expect("valid percent"),
        1,
        false,
    )
    .expect("valid limits");
    let decision = evaluate_order_intent(
        &order_intent(TradingMode::Live, 1, 100_000),
        Some(&limits),
        &account(1_000_000, 0),
        false,
    );
    assert_eq!(
        decision.code(),
        Some(RiskReasonCode::LiveTradingDisabled),
        "live trading should be blocked"
    );
}

#[test]
fn rejects_quantity_over_limit() {
    let limits = RiskLimits::new(
        PercentBps::from_bps(100).expect("valid percent"),
        PercentBps::from_bps(100).expect("valid percent"),
        1,
        true,
    )
    .expect("valid limits");
    let decision = evaluate_order_intent(
        &order_intent(TradingMode::Paper, 2, 100_000),
        Some(&limits),
        &account(1_000_000, 0),
        false,
    );
    assert_eq!(
        decision.code(),
        Some(RiskReasonCode::QuantityOverLimit),
        "quantity cap should fail closed"
    );
}

#[test]
fn rejects_risk_over_cap() {
    let limits = RiskLimits::new(
        PercentBps::from_bps(100).expect("valid percent"),
        PercentBps::from_bps(100).expect("valid percent"),
        10,
        true,
    )
    .expect("valid limits");
    let decision = evaluate_order_intent(
        &order_intent(TradingMode::Paper, 1, 500_000),
        Some(&limits),
        &account(1_000_000, 0),
        false,
    );
    assert_eq!(
        decision.code(),
        Some(RiskReasonCode::EstimatedAccountRiskOverCap),
        "risk cap should fail closed"
    );
}

#[test]
fn rejects_daily_loss_over_cap() {
    let limits = RiskLimits::new(
        PercentBps::from_bps(100).expect("valid percent"),
        PercentBps::from_bps(50).expect("valid percent"),
        10,
        true,
    )
    .expect("valid limits");
    let decision = evaluate_order_intent(
        &order_intent(TradingMode::Paper, 1, 10_000),
        Some(&limits),
        &account(1_000_000, 60),
        false,
    );
    assert_eq!(
        decision.code(),
        Some(RiskReasonCode::DailyLossOverCap),
        "daily loss cap should fail closed"
    );
}

#[test]
fn rejects_kill_switch() {
    let limits = RiskLimits::new(
        PercentBps::from_bps(100).expect("valid percent"),
        PercentBps::from_bps(100).expect("valid percent"),
        10,
        true,
    )
    .expect("valid limits");
    let decision = evaluate_order_intent(
        &order_intent(TradingMode::Paper, 1, 10_000),
        Some(&limits),
        &account(1_000_000, 0),
        true,
    );
    assert_eq!(
        decision.code(),
        Some(RiskReasonCode::KillSwitchActive),
        "kill switch should block execution"
    );
    assert_eq!(RiskReasonCode::KillSwitchActive.as_str(), "KILL_SWITCH_ACTIVE");
    assert!(decision.to_display_string().contains("KILL_SWITCH_ACTIVE"));
}

#[test]
fn rejects_invalid_score() {
    let err = Signal::new(
        SignalSource::Model,
        101,
        PercentBps::from_bps(10).expect("valid confidence"),
        1,
        "signal",
    )
    .expect_err("out of range score invalid");
    assert_eq!(err.code().as_str(), "DOMAIN_INVALID_SCORE");
}

#[test]
fn accepted_intent_within_limits_is_accepted() {
    let limits = RiskLimits::new(
        PercentBps::from_bps(100).expect("valid percent"),
        PercentBps::from_bps(100).expect("valid percent"),
        10,
        false,
    )
    .expect("valid limits");
    let decision = evaluate_order_intent(
        &order_intent(TradingMode::Paper, 1, 10_000),
        Some(&limits),
        &account(1_000_000, 0),
        false,
    );
    assert_eq!(decision, RiskDecision::Accepted);
    assert_eq!(decision.to_display_string(), "RISK_ACCEPTED");
}

#[test]
fn risk_bps_truncates_and_dates_display_padded() {
    let loss = Price::from_micros(10_001).expect("valid price");
    let equity = Price::from_micros(1_000_000).expect("valid price");
    assert_eq!(loss.risk_bps_of(equity), 100);
    let date = CalendarDate::new(2026, 2, 1).expect("valid date");
    assert_eq!(date.to_display_string(), "2026-02-01");
    assert!(CalendarDate::new(2024, 2, 29).is_ok());
    assert!(CalendarDate::new(2100, 2, 29).is_err());
}

#[test]
fn trading_mode_parse_trims_and_folds_case() {
    assert_eq!(TradingMode::parse("  LIVE ").expect("valid mode"), TradingMode::Live);
    assert_eq!(TradingMode::parse(TradingMode::Sandbox.as_str()), Ok(TradingMode::Sandbox));
}
