use optionclaw::alpaca::{
    account_url, format_price, AlpacaAccountResponse, AlpacaContractResponse, AlpacaOrderResponse, http_error, normalize_base_url, parse_date, parse_decimal_micros,
    preview_order,
};
use optionclaw::domain::{
    CalendarDate, ContractQuantity, OptionContract, OptionKind, OrderIntent, OrderIntentSpec,
    OrderSide, OrderType, PercentBps, Price, Signal, SignalSource, TradingMode,
};
use optionclaw::strategy::StrategyCandidate;

fn contract() -> OptionContract {
    OptionContract::new(
        "AAPL260201C00100000",
        "AAPL",
        CalendarDate::new(2026, 2, 1).expect("valid date"),
        Price::from_micros(1_000_000).expect("valid price"),
        OptionKind::Call,
        None::<String>,
        CalendarDate::new(2026, 1, 1).expect("valid date"),
    )
    .expect("valid contract")
}

fn signal() -> Signal {
    Signal::new(
        SignalSource::Model,
        90,
        PercentBps::from_bps(9_000).expect("valid confidence"),
        1,
        "high confidence",
    )
    .expect("valid signal")
}

fn order_intent_with(mode: TradingMode, side: OrderSide) -> OrderIntent {
    OrderIntent::new(OrderIntentSpec {
        id: "intent-1".to_string(),
        mode,
        contract: contract(),
        side,
        quantity: ContractQuantity::new(1).expect("valid quantity"),
        order_type: OrderType::Limit,
        limit_price: Some(Price::from_micros(500_000).expect("valid price")),
        estimated_max_loss: Price::from_micros(100_000).expect("valid price"),
        strategy_id: "strategy-1".to_string(),
        risk_context_id: "risk-1".to_string(),
        created_at: 1,
    })
    .expect("valid order intent")
}

fn order_intent() -> OrderIntent {
    order_intent_with(TradingMode::Paper, OrderSide::Buy)
}

#[test]
fn retains_high_advisory_score_without_changing_order() {
    let candidate = StrategyCandidate::new(
        "candidate-1",
        signal(),
        order_intent(),
        Some(PercentBps::from_bps(9_900).expect("valid advisory score")),
    )
    .expect("valid candidate");

    assert_eq!(candidate.advisory_score.unwrap().bps(), 9_900);
    assert_eq!(candidate.order_intent.quantity.get(), 1);
}

#[test]
fn rejects_empty_candidate_id() {
    let err = StrategyCandidate::new("  ", signal(), order_intent(), None)
        .expect_err("empty candidate id invalid");
    assert_eq!(err.code().as_str(), "DOMAIN_EMPTY_FIELD");
}

#[test]
fn decimal_parser_converts_to_micros() {
    assert_eq!(parse_decimal_micros("12.34").expect("valid").micros(), 12_340_000);
}

#[test]
fn decimal_parser_refuses_zero_and_garbage() {
    assert!(parse_decimal_micros("0.00").is_err());
    assert!(parse_decimal_micros("1.2.3").is_err());
    assert_eq!(parse_decimal_micros("100").expect("whole number").micros(), 100_000_000);
}

#[test]
fn formatted_prices_parse_back() {
    let p = Price::from_micros(1_250_000).expect("valid price");
    assert_eq!(format_price(p), "1.250000");
    assert_eq!(parse_decimal_micros(&format_price(p)).expect("round trip"), p);
}

#[test]
fn preview_rejects_short_options_and_maps_limit_buys() {
    let err = preview_order(&order_intent_with(TradingMode::Live, OrderSide::Sell))
        .expect_err("sell side should fail");
    assert!(err.message().contains("long calls and puts only"));
    let request = preview_order(&order_intent_with(TradingMode::Live, OrderSide::Buy))
        .expect("buy maps");
    assert_eq!(request.symbol, "AAPL260201C00100000");
    assert_eq!(request.qty, "1");
    assert_eq!(request.side, "buy");
    assert_eq!(request.order_type, "limit");
    assert_eq!(request.time_in_force, "day");
    assert_eq!(request.limit_price.as_deref(), Some("0.500000"));
}

#[test]
fn dates_parse_from_iso_text() {
    assert_eq!(parse_date("2026-02-01").expect("valid date"), CalendarDate::new(2026, 2, 1).unwrap());
    assert_eq!(parse_date("2026-2-1").expect("short parts parse"), CalendarDate::new(2026, 2, 1).unwrap());
    assert!(parse_date("2026-02").is_err());
    assert!(parse_date("2026-02-30").is_err());
}

#[test]
fn urls_and_http_errors_never_carry_credentials() {
    assert_eq!(normalize_base_url("http://127.0.0.1:8080//"), "http://127.0.0.1:8080");
    assert_eq!(account_url("http://h"), "http://h/v2/account");
    let err = http_error("account status", "HTTP status client error (401 Unauthorized)");
    assert!(err.message().contains("Alpaca account status failed without exposing credentials"));
}

#[test]
fn preview_order_rejects_short_options() {
    let as_of = CalendarDate::new(2026, 1, 1).expect("valid date");
    let contract = OptionContract::new(
        "AAPL260201C00100000",
        "AAPL",
        CalendarDate::new(2026, 2, 1).expect("valid date"),
        Price::from_micros(100_000_000).expect("valid price"),
        OptionKind::Call,
        None::<String>,
        as_of,
    )
    .expect("valid contract");
    let intent = OrderIntent::new(OrderIntentSpec {
        id: "intent-1".to_string(),
        mode: TradingMode::Live,
        contract,
        side: OrderSide::Sell,
        quantity: ContractQuantity::new(1).expect("valid quantity"),
        order_type: OrderType::Limit,
        limit_price: Some(Price::from_micros(1_250_000).expect("valid price")),
        estimated_max_loss: Price::from_micros(1_250_000).expect("valid price"),
        strategy_id: "aggressive-growth-v1".to_string(),
        risk_context_id: "aggressive-growth-risk-v1".to_string(),
        created_at: 1,
    })
    .expect("valid intent");
    let err = preview_order(&intent).expect_err("sell side should fail");
    assert!(err.message().contains("long calls and puts only"));
}

#[test]
fn app_error_wraps_domain_error() {
    let err = optionclaw::errors::AppError::from(optionclaw::errors::DomainError::InvalidQuantity {
        value: 0,
    });
    assert!(err.message().contains("DOMAIN_INVALID_QUANTITY"));
}

#[test]
fn account_response_maps_options_capability() {
    let response = AlpacaAccountResponse {
        id: Some("acct-123".to_string()),
        account_number: None,
        status: "ACTIVE".to_string(),
        options_approved_level: Some(2),
        options_trading_level: Some(2),
        trading_blocked: false,
        equity: "100000.00".to_string(),
        buying_power: Some("50000.00".to_string()),
    };
    let status = response.to_status().expect("account should map");
    assert_eq!(status.account_id, "acct-123");
    assert_eq!(status.options_approved_level, 2);
    assert_eq!(status.options_trading_level, 2);
    assert_eq!(status.equity.micros(), 100_000_000_000);
}

#[test]
fn contract_response_maps_to_a_domain_contract() {
    let response = AlpacaContractResponse {
        symbol: "AAPL260201C00100000".to_string(),
        underlying_symbol: "AAPL".to_string(),
        expiration_date: "2026-02-01".to_string(),
        strike_price: "100.00".to_string(),
        option_type: "call".to_string(),
    };
    let contract = response
        .to_contract(CalendarDate::new(2026, 1, 1).expect("valid date"))
        .expect("contract should map");
    assert_eq!(contract.symbol, "AAPL260201C00100000");
    assert_eq!(contract.kind, OptionKind::Call);
    assert_eq!(contract.strike.micros(), 100_000_000);
}

#[test]
fn order_response_maps_status_and_fill() {
    let response = AlpacaOrderResponse {
        id: "alpaca-order-1".to_string(),
        status: "partially_filled".to_string(),
        filled_qty: Some("1".to_string()),
        filled_avg_price: Some("1.25".to_string()),
    };
    let report = response.to_report().expect("status should map");
    assert_eq!(report.status, "partially_filled");
    assert_eq!(report.filled_quantity, 1);
    assert_eq!(report.fill_price.expect("fill price").micros(), 1_250_000);

    let accepted = AlpacaOrderResponse {
        id: "alpaca-order-1".to_string(),
        status: "accepted".to_string(),
        filled_qty: Some("0".to_string()),
        filled_avg_price: None,
    };
    let report = accepted.to_report().expect("submit should map");
    assert_eq!(report.order_id, "alpaca-order-1");
    assert_eq!(report.status, "accepted");
}
