//! One fixture-backed paper-trading run: the decisions it makes, from the
//! fixtures it reads to the state and audit records it writes.

use vstd::prelude::*;
use vstd::string::*;
use crate::domain::{
    AccountSnapshot, ContractQuantity, MarketSnapshot, OptionKind, OrderIntent, OrderIntentSpec,
    OrderSide, OrderType, PercentBps, Price, RiskDecision, RiskLimits, Signal, SignalSource,
    TradingMode,
};
use crate::domain::risk::{evaluate_order_intent, spec_evaluate};
use crate::errors::{invalid_input, spec_input_error, AppError, DomainError, PersistenceError};
use crate::llm::{AdvisoryContext, AdvisoryResult, FixtureLlmAdvisor, LlmAdvisor};
use crate::market_data::{FixtureMarketDataProvider, MarketDataProvider, MarketDataRequest};
use crate::persistence::audit::{spec_blank_context_error, spec_clock_error, AuditEvent, AuditEventType};
use crate::persistence::state::{PaperState, StoredPosition};
use crate::text::{lemma_trim_idempotent, lemma_trim_noop, trim_seq};

use super::risk_service::{spec_opt_positive, spec_opt_price, spec_price_error, OptionContractFixture, RiskLimitsFixture};

verus! {

/// Whether the run filled the order or the risk gate refused it.
#[derive(Debug, Clone, Copy, PartialEq, Eq, Structural)]
pub enum PaperExecutionStatus {
    Executed,
    Rejected,
}

/// What a paper run did.
#[derive(Debug, Clone, PartialEq, Eq)]
pub struct PaperRunReport {
    pub config_path: String,
    pub fixture_root: String,
    pub trading_mode: TradingMode,
    pub order_intent_id: String,
    pub risk_decision: RiskDecision,
    pub execution_status: PaperExecutionStatus,
    pub audit_appended: bool,
    pub state_updated: bool,
}

/// A market snapshot as the paper fixture spells it; its time is in
/// seconds since the Unix epoch.
#[derive(Debug, Clone, PartialEq, Eq)]
pub struct MarketSnapshotFixture {
    pub contract: OptionContractFixture,
    pub timestamp_unix_seconds: u64,
    pub underlying_price_micros: i64,
    pub option_bid_micros: Option<i64>,
    pub option_ask_micros: Option<i64>,
    pub option_last_micros: Option<i64>,
    pub implied_volatility_bps: Option<u32>,
}

/// Converts an optional amount to an optional price.
fn opt_price(micros: Option<i64>) -> (r: Result<Option<Price>, AppError>)
    ensures
        spec_opt_positive(micros) ==> (r matches Ok(p) && spec_opt_price(micros, p)),
        !spec_opt_positive(micros) ==> (r matches Err(e) && spec_price_error(micros->0, e)),
{
    match micros {
        Some(m) => match Price::from_micros(m) {
            Ok(p) => Ok(Some(p)),
            Err(e) => Err(AppError::Domain(e)),
        },
        None => Ok(None),
    }
}

/// Converts an amount to a price.
fn price(micros: i64) -> (r: Result<Price, AppError>)
    ensures
        micros > 0 ==> (r matches Ok(p) && p.spec_micros() == micros),
        micros <= 0 ==> (r matches Err(e) && spec_price_error(micros, e)),
{
    match Price::from_micros(micros) {
        Ok(p) => Ok(p),
        Err(e) => Err(AppError::Domain(e)),
    }
}

impl MarketSnapshotFixture {
    /// Whether the quoted ask is below the quoted bid.
    pub open spec fn spec_inverted(self) -> bool {
        self.option_bid_micros matches Some(b) && self.option_ask_micros matches Some(a) && a < b
    }

    /// Whether the fixture converts to a market snapshot.
    pub open spec fn spec_converts(self) -> bool {
        &&& self.contract.spec_converts()
        &&& self.underlying_price_micros > 0
        &&& spec_opt_positive(self.option_bid_micros)
        &&& spec_opt_positive(self.option_ask_micros)
        &&& spec_opt_positive(self.option_last_micros)
        &&& !self.spec_inverted()
        &&& self.implied_volatility_bps != Some(0u32)
    }

    /// The refusal for a fixture that does not convert: the contract, the
    /// underlying price, bid, ask and last, an inverted spread, then a zero
    /// implied volatility.
    pub open spec fn spec_error(self, e: AppError) -> bool {
        if !self.contract.spec_converts() {
            self.contract.spec_error(e)
        } else if self.underlying_price_micros <= 0 {
            spec_price_error(self.underlying_price_micros, e)
        } else if !spec_opt_positive(self.option_bid_micros) {
            spec_price_error(self.option_bid_micros->0, e)
        } else if !spec_opt_positive(self.option_ask_micros) {
            spec_price_error(self.option_ask_micros->0, e)
        } else if !spec_opt_positive(self.option_last_micros) {
            spec_price_error(self.option_last_micros->0, e)
        } else if self.spec_inverted() {
            e matches AppError::Domain(DomainError::InvalidPercent { field, value }) && field@
                == "ask_bid_spread"@ && value == 0
        } else {
            e matches AppError::Domain(DomainError::InvalidPercent { field, value }) && field@
                == "implied_volatility_bps"@ && value == 0
        }
    }

    /// Whether `m` is the snapshot the fixture converts to.
    pub open spec fn spec_market(self, m: MarketSnapshot) -> bool {
        &&& self.contract.spec_contract(m.contract)
        &&& m.timestamp == self.timestamp_unix_seconds
        &&& m.underlying_price.spec_micros() == self.underlying_price_micros
        &&& spec_opt_price(self.option_bid_micros, m.option_bid)
        &&& spec_opt_price(self.option_ask_micros, m.option_ask)
        &&& spec_opt_price(self.option_last_micros, m.option_last)
        &&& m.implied_volatility_bps == self.implied_volatility_bps
    }

    /// The snapshot, or the first refusal as `spec_error` orders them.
    pub fn to_domain(&self) -> (r: Result<MarketSnapshot, AppError>)
        requires
            self.timestamp_unix_seconds <= i64::MAX,
        ensures
            self.spec_converts() ==> (r matches Ok(m) && self.spec_market(m)),
            !self.spec_converts() ==> (r matches Err(e) && self.spec_error(e)),
    {
        let contract = self.contract.to_domain()?;
        let underlying = price(self.underlying_price_micros)?;
        let bid = opt_price(self.option_bid_micros)?;
        let ask = opt_price(self.option_ask_micros)?;
        let last = opt_price(self.option_last_micros)?;
        match MarketSnapshot::new(
            contract,
            self.timestamp_unix_seconds as i64,
            underlying,
            bid,
            ask,
            last,
            self.implied_volatility_bps,
        ) {
            Ok(m) => Ok(m),
            Err(e) => Err(AppError::Domain(e)),
        }
    }
}

/// The paper account as the fixture spells it.
#[derive(Debug, Clone, Copy, PartialEq, Eq, Structural)]
pub struct PaperAccountFixture {
    pub equity_micros: i64,
    pub available_cash_micros: Option<i64>,
    pub daily_loss_bps: u32,
}

impl PaperAccountFixture {
    /// Whether the fixture converts to an account snapshot.
    pub open spec fn spec_converts(self) -> bool {
        self.equity_micros > 0 && spec_opt_positive(self.available_cash_micros)
    }

    /// The refusal for a fixture that does not convert: equity, then cash.
    pub open spec fn spec_error(self, e: AppError) -> bool {
        if self.equity_micros <= 0 {
            spec_price_error(self.equity_micros, e)
        } else {
            spec_price_error(self.available_cash_micros->0, e)
        }
    }

    /// Whether `a` is the `paper` account the fixture converts to.
    pub open spec fn spec_account(self, a: AccountSnapshot) -> bool {
        &&& a.account_id@ == "paper"@
        &&& a.equity.spec_micros() == self.equity_micros
        &&& spec_opt_price(self.available_cash_micros, a.available_cash)
        &&& a.daily_loss_bps == self.daily_loss_bps
        &&& a.positions@.len() == 0
    }

    /// The account `paper`, or the first refusal as `spec_error` orders
    /// them.
    pub fn to_domain(&self) -> (r: Result<AccountSnapshot, AppError>)
        ensures
            self.spec_converts() ==> (r matches Ok(a) && self.spec_account(a)),
            !self.spec_converts() ==> (r matches Err(e) && self.spec_error(e)),
            r matches Ok(a) ==> a.daily_loss_bps == self.daily_loss_bps && a.equity.spec_micros()
                == self.equity_micros,
    {
        let equity = price(self.equity_micros)?;
        let cash = opt_price(self.available_cash_micros)?;
        proof {
            reveal_strlit("paper");
            lemma_trim_noop("paper"@);
        }
        match AccountSnapshot::new("paper", equity, cash, self.daily_loss_bps, Vec::new()) {
            Ok(a) => Ok(a),
            Err(e) => Err(AppError::Domain(e)),
        }
    }
}

/// The order the paper fixture asks for.
#[derive(Debug, Clone, PartialEq, Eq)]
pub struct OrderFixture {
    pub id: String,
    pub strategy_id: String,
    pub risk_context_id: String,
    pub quantity: u32,
    pub side: OrderSide,
    pub order_type: OrderType,
}

/// The advisory opinion the paper fixture provides.
#[derive(Debug, Clone, PartialEq, Eq)]
pub struct AdvisoryFixture {
    pub score: i16,
    pub confidence_bps: u32,
    pub explanation: String,
}

/// Everything a paper run reads besides the advisory opinion.
#[derive(Debug, Clone, PartialEq, Eq)]
pub struct PaperRunFixture {
    pub market_snapshot: MarketSnapshotFixture,
    pub account: PaperAccountFixture,
    pub risk_limits: RiskLimitsFixture,
    pub order: OrderFixture,
}

/// The price a paper order is placed at: the ask, else the last trade,
/// else the bid.
pub open spec fn spec_quote(m: MarketSnapshot) -> Option<Price> {
    match m.option_ask {
        Some(p) => Some(p),
        None => match m.option_last {
            Some(p) => Some(p),
            None => m.option_bid,
        },
    }
}

/// The refusal of an order built from `order` at the quote `quote` on a
/// snapshot taken at `timestamp`: quantity, identifiers, time, then the
/// order type against the quote.
pub open spec fn spec_order_error(order: OrderFixture, quote: Option<Price>, timestamp: i64, e: AppError) -> bool {
    if order.quantity == 0 {
        e matches AppError::Domain(DomainError::InvalidQuantity { value }) && value == 0
    } else if trim_seq(order.id@).len() == 0 {
        e matches AppError::Domain(DomainError::EmptyField { field }) && field@ == "id"@
    } else if trim_seq(order.strategy_id@).len() == 0 {
        e matches AppError::Domain(DomainError::EmptyField { field }) && field@ == "strategy_id"@
    } else if trim_seq(order.risk_context_id@).len() == 0 {
        e matches AppError::Domain(DomainError::EmptyField { field }) && field@
            == "risk_context_id"@
    } else if timestamp < 0 {
        e matches AppError::Domain(DomainError::InvalidTimestamp)
    } else if order.order_type == OrderType::Limit {
        e matches AppError::Domain(DomainError::InvalidOrderType { detail }) && detail@
            == "limit orders require a limit price"@
    } else {
        e matches AppError::Domain(DomainError::InvalidOrderType { detail }) && detail@
            == "market orders must not include a limit price"@
    }
}

/// Whether an order built from `order` at the quote `quote` on a snapshot
/// taken at `timestamp` is accepted.
pub open spec fn spec_order_ok(order: OrderFixture, quote: Option<Price>, timestamp: i64) -> bool {
    &&& order.quantity > 0
    &&& trim_seq(order.id@).len() > 0
    &&& trim_seq(order.strategy_id@).len() > 0
    &&& trim_seq(order.risk_context_id@).len() > 0
    &&& timestamp >= 0
    &&& OrderIntent::spec_type_consistent(order.order_type, quote)
}

/// Whether `i` is the paper intent built from `order` on the snapshot `m`:
/// placed at the quote, with the quote (or the underlying price when
/// there is none) as the largest loss, timed at the snapshot.
pub open spec fn spec_paper_intent(order: OrderFixture, m: MarketSnapshot, i: OrderIntent) -> bool {
    &&& i.id@ == trim_seq(order.id@)
    &&& i.mode == TradingMode::Paper
    &&& i.contract == m.contract
    &&& i.side == order.side
    &&& i.quantity.spec_get() == order.quantity
    &&& i.order_type == order.order_type
    &&& i.limit_price == spec_quote(m)
    &&& i.estimated_max_loss == (match spec_quote(m) {
        Some(p) => p,
        None => m.underlying_price,
    })
    &&& i.strategy_id@ == trim_seq(order.strategy_id@)
    &&& i.risk_context_id@ == trim_seq(order.risk_context_id@)
    &&& i.created_at == m.timestamp
}

/// The paper order intent for `order` on the snapshot `market`.
pub fn build_order_intent(order: &OrderFixture, market: &MarketSnapshot) -> (r: Result<OrderIntent, AppError>)
    ensures
        spec_order_ok(*order, spec_quote(*market), market.timestamp) ==> (r matches Ok(i)
            && spec_paper_intent(*order, *market, i)),
        !spec_order_ok(*order, spec_quote(*market), market.timestamp) ==> (r matches Err(e)
            && spec_order_error(*order, spec_quote(*market), market.timestamp, e)),
{
    let quantity = match ContractQuantity::new(order.quantity) {
        Ok(q) => q,
        Err(e) => {
            return Err(AppError::Domain(e));
        },
    };
    let limit_price = match market.option_ask {
        Some(p) => Some(p),
        None => match market.option_last {
            Some(p) => Some(p),
            None => market.option_bid,
        },
    };
    let estimated_max_loss = match limit_price {
        Some(p) => p,
        None => market.underlying_price,
    };
    let spec = OrderIntentSpec {
        id: order.id.clone(),
        mode: TradingMode::Paper,
        contract: market.contract.clone(),
        side: order.side,
        quantity,
        order_type: order.order_type,
        limit_price,
        estimated_max_loss,
        strategy_id: order.strategy_id.clone(),
        risk_context_id: order.risk_context_id.clone(),
        created_at: market.timestamp,
    };
    match OrderIntent::new(spec) {
        Ok(i) => Ok(i),
        Err(e) => Err(AppError::Domain(e)),
    }
}

/// What a paper run decides from its fixtures.
#[derive(Debug, Clone, PartialEq, Eq)]
pub struct PaperPlan {
    pub market: MarketSnapshot,
    pub advisory: AdvisoryResult,
    pub intent: OrderIntent,
    pub account: AccountSnapshot,
    pub limits: RiskLimits,
    pub decision: RiskDecision,
}

/// Whether the advisory fixture converts to an opinion.
pub open spec fn spec_advisory_ok(a: AdvisoryFixture) -> bool {
    &&& a.confidence_bps <= 10_000
    &&& -100 <= a.score <= 100
    &&& trim_seq(a.explanation@).len() > 0
}

/// The refusal of an advisory fixture that does not convert: confidence,
/// score, then explanation.
pub open spec fn spec_advisory_error(a: AdvisoryFixture, e: AppError) -> bool {
    if a.confidence_bps > 10_000 {
        e matches AppError::Domain(DomainError::InvalidPercent { field, value }) && field@ == "bps"@
            && value == a.confidence_bps
    } else if !(-100 <= a.score <= 100) {
        e matches AppError::Domain(DomainError::InvalidScore { value }) && value == a.score
    } else {
        e matches AppError::Domain(DomainError::EmptyField { field }) && field@ == "explanation"@
    }
}

/// The quote a market fixture gives, in micro-units: the ask, else the
/// last trade, else the bid.
pub open spec fn spec_fixture_quote(m: MarketSnapshotFixture) -> Option<i64> {
    match m.option_ask_micros {
        Some(p) => Some(p),
        None => match m.option_last_micros {
            Some(p) => Some(p),
            None => m.option_bid_micros,
        },
    }
}

/// Whether the order type agrees with a quote given in micro-units.
pub open spec fn spec_fixture_type_consistent(order_type: OrderType, quote: Option<i64>) -> bool {
    match order_type {
        OrderType::Limit => quote is Some,
        OrderType::Market => quote is None,
    }
}

/// Whether a paper run of these fixtures gets as far as a risk decision.
pub open spec fn spec_plan_ok(f: PaperRunFixture, a: AdvisoryFixture) -> bool {
    &&& f.market_snapshot.spec_converts()
    &&& spec_advisory_ok(a)
    &&& f.order.quantity > 0
    &&& trim_seq(f.order.id@).len() > 0
    &&& trim_seq(f.order.strategy_id@).len() > 0
    &&& trim_seq(f.order.risk_context_id@).len() > 0
    &&& spec_fixture_type_consistent(f.order.order_type, spec_fixture_quote(f.market_snapshot))
    &&& f.account.spec_converts()
    &&& f.risk_limits.spec_converts()
}

/// The refusal of a paper run of these fixtures: the market snapshot, the
/// advisory opinion, the order, the account, then the limits.
pub open spec fn spec_plan_error(f: PaperRunFixture, a: AdvisoryFixture, e: AppError) -> bool {
    if !f.market_snapshot.spec_converts() {
        f.market_snapshot.spec_error(e)
    } else if !spec_advisory_ok(a) {
        spec_advisory_error(a, e)
    } else if !(f.order.quantity > 0 && trim_seq(f.order.id@).len() > 0 && trim_seq(
        f.order.strategy_id@,
    ).len() > 0 && trim_seq(f.order.risk_context_id@).len() > 0 && spec_fixture_type_consistent(
        f.order.order_type,
        spec_fixture_quote(f.market_snapshot),
    )) {
        if f.order.quantity == 0 {
            e matches AppError::Domain(DomainError::InvalidQuantity { value }) && value == 0
        } else if trim_seq(f.order.id@).len() == 0 {
            e matches AppError::Domain(DomainError::EmptyField { field }) && field@ == "id"@
        } else if trim_seq(f.order.strategy_id@).len() == 0 {
            e matches AppError::Domain(DomainError::EmptyField { field }) && field@
                == "strategy_id"@
        } else if trim_seq(f.order.risk_context_id@).len() == 0 {
            e matches AppError::Domain(DomainError::EmptyField { field }) && field@
                == "risk_context_id"@
        } else if f.order.order_type == OrderType::Limit {
            e matches AppError::Domain(DomainError::InvalidOrderType { detail }) && detail@
                == "limit orders require a limit price"@
        } else {
            e matches AppError::Domain(DomainError::InvalidOrderType { detail }) && detail@
                == "market orders must not include a limit price"@
        }
    } else if !f.account.spec_converts() {
        f.account.spec_error(e)
    } else {
        f.risk_limits.spec_error(e)
    }
}

/// Whether `p` is the plan a paper run of these fixtures makes: the
/// converted snapshot and opinion, the paper intent on that snapshot, the
/// converted account and limits, and the risk gate's verdict with the
/// kill switch off.
pub open spec fn spec_plan(f: PaperRunFixture, a: AdvisoryFixture, p: PaperPlan) -> bool {
    &&& f.market_snapshot.spec_market(p.market)
    &&& p.advisory.score == a.score
    &&& p.advisory.confidence.spec_bps() == a.confidence_bps
    &&& p.advisory.explanation@ == trim_seq(a.explanation@)
    &&& spec_paper_intent(f.order, p.market, p.intent)
    &&& f.account.spec_account(p.account)
    &&& f.risk_limits.spec_limits(p.limits)
    &&& spec_evaluate(p.intent, Some(p.limits), p.account, false, p.decision)
}

/// Refuses a paper run under a live configuration read from
/// `config_path`.
pub fn check_paper_mode(config_path: &str, mode: TradingMode) -> (r: Result<(), AppError>)
    ensures
        mode == TradingMode::Live ==> (r matches Err(e) && spec_input_error(
            e,
            config_path@,
            "paper run-once requires paper or sandbox mode"@,
        )),
        mode != TradingMode::Live ==> r is Ok,
{
    if mode == TradingMode::Live {
        return Err(invalid_input(config_path, "paper run-once requires paper or sandbox mode"));
    }
    Ok(())
}

/// The decisions of one paper run: converts the fixtures, asks the
/// fixture market-data provider and advisor, builds the paper intent and
/// runs the risk gate on it with the kill switch off.
pub fn plan_paper_run(fixture: &PaperRunFixture, advisory: &AdvisoryFixture) -> (r: Result<PaperPlan, AppError>)
    requires
        fixture.market_snapshot.timestamp_unix_seconds <= i64::MAX,
    ensures
        spec_plan_ok(*fixture, *advisory) ==> (r matches Ok(p) && spec_plan(*fixture, *advisory, p)),
        !spec_plan_ok(*fixture, *advisory) ==> (r matches Err(e) && spec_plan_error(
            *fixture,
            *advisory,
            e,
        )),
        r matches Ok(p) ==> p.account.daily_loss_bps == fixture.account.daily_loss_bps
            && p.limits.max_daily_loss_bps.spec_bps() == fixture.risk_limits.max_daily_loss_bps,
        fixture.account.daily_loss_bps > fixture.risk_limits.max_daily_loss_bps ==> (r matches Ok(p)
            ==> p.decision is Rejected),
{
    let market_snapshot = fixture.market_snapshot.to_domain()?;
    let confidence = match PercentBps::from_bps(advisory.confidence_bps) {
        Ok(c) => c,
        Err(e) => {
            return Err(AppError::Domain(e));
        },
    };
    let opinion = match AdvisoryResult::new(advisory.score, confidence, advisory.explanation.as_str()) {
        Ok(a) => a,
        Err(e) => {
            return Err(AppError::Domain(e));
        },
    };
    let market_provider = FixtureMarketDataProvider::new(market_snapshot.clone());
    let llm_advisor = FixtureLlmAdvisor::new(opinion.clone());
    let resolved_market = market_provider.snapshot(
        MarketDataRequest {
            contract: market_snapshot.contract.clone(),
            as_of: market_snapshot.contract.expiration,
        },
    )?;
    proof {
        lemma_trim_idempotent(advisory.explanation@);
    }
    let signal = match Signal::new(
        SignalSource::Model,
        opinion.score,
        opinion.confidence,
        market_snapshot.timestamp,
        opinion.explanation.as_str(),
    ) {
        Ok(s) => s,
        Err(e) => {
            return Err(AppError::Domain(e));
        },
    };
    let resolved_advisory = llm_advisor.advise(
        AdvisoryContext { market: resolved_market.clone(), signal },
    )?;
    let intent = build_order_intent(&fixture.order, &resolved_market)?;
    let account = fixture.account.to_domain()?;
    let limits = fixture.risk_limits.to_domain()?;
    let decision = evaluate_order_intent(&intent, Some(&limits), &account, false);
    Ok(
        PaperPlan {
            market: resolved_market,
            advisory: resolved_advisory,
            intent,
            account,
            limits,
            decision,
        },
    )
}

/// The audit record of a paper run's risk decision, stamped now.
pub fn decision_audit_event(mode: TradingMode, plan: &PaperPlan) -> (r: Result<AuditEvent, PersistenceError>)
    ensures
        match r {
            Ok(e) => {
                &&& e.event_type == AuditEventType::RiskDecision
                &&& e.mode@ == mode.spec_name()
                &&& e.order_intent_id == Some(plan.intent.id)
                &&& e.risk_decision matches Some(d) && d@ == plan.decision.spec_display()
                &&& e.redacted_context@ == "paper run-once decision: "@ + plan.advisory.explanation@
            },
            Err(e) => spec_clock_error(e),
        },
{
    let mut context = "paper run-once decision: ".to_owned();
    context.append(plan.advisory.explanation.as_str());
    proof {
        reveal_strlit("paper run-once decision: ");
        lemma_trim_noop_prefix(context@);
    }
    AuditEvent::new(
        AuditEventType::RiskDecision,
        mode,
        Some(plan.intent.id.clone()),
        Some(plan.decision.to_display_string()),
        context.as_str(),
    )
}

/// Text that starts with `p` is not blank once trimmed.
proof fn lemma_trim_noop_prefix(s: Seq<char>)
    requires
        s.len() > 0,
        s[0] == 'p',
    ensures
        trim_seq(s).len() != 0,
{
    assert(!crate::text::is_ws(s[0]));
    crate::text::lemma_trim_nonblank(s);
}

/// The audit record of an applied paper fill, stamped now.
pub fn execution_audit_event(mode: TradingMode, intent: &OrderIntent) -> (r: Result<AuditEvent, PersistenceError>)
    ensures
        match r {
            Ok(e) => {
                &&& e.event_type == AuditEventType::StateWrite
                &&& e.mode@ == mode.spec_name()
                &&& e.order_intent_id == Some(intent.id)
                &&& e.risk_decision matches Some(d) && d@ == "PAPER_EXECUTED"@
                &&& e.redacted_context@ == "paper execution applied"@
            },
            Err(e) => spec_clock_error(e),
        },
{
    proof {
        reveal_strlit("paper execution applied");
        lemma_trim_noop_prefix("paper execution applied"@);
    }
    AuditEvent::new(
        AuditEventType::StateWrite,
        mode,
        Some(intent.id.clone()),
        Some("PAPER_EXECUTED".to_owned()),
        "paper execution applied",
    )
}

/// The name a stored position gives an option kind.
pub open spec fn spec_kind_name(kind: OptionKind) -> Seq<char> {
    match kind {
        OptionKind::Call => "call"@,
        OptionKind::Put => "put"@,
    }
}

/// Whether `after` is `before` with the fill of `intent` at `timestamp`
/// recorded: one more position, bought at the limit price (or the largest
/// loss when the order had none), and the state marked updated at that
/// time; everything else as it was.
pub open spec fn spec_filled(before: PaperState, intent: OrderIntent, timestamp: u64, after: PaperState) -> bool {
    &&& after.positions@.len() == before.positions@.len() + 1
    &&& after.positions@.subrange(0, before.positions@.len() as int) == before.positions@
    &&& ({
        let p = after.positions@.last();
        &&& p.symbol@ == intent.contract.symbol@
        &&& p.underlying@ == intent.contract.underlying@
        &&& p.expiration@ == intent.contract.expiration.spec_display()
        &&& p.strike_micros == intent.contract.strike.spec_micros()
        &&& p.kind@ == spec_kind_name(intent.contract.kind)
        &&& p.quantity == intent.quantity.spec_get()
        &&& p.average_entry_price_micros == (match intent.limit_price {
            Some(l) => l,
            None => intent.estimated_max_loss,
        }).spec_micros()
    })
    &&& after.last_updated_unix_seconds == Some(timestamp)
    &&& after.schema_version == before.schema_version
    &&& after.mode == before.mode
    &&& after.account_id == before.account_id
    &&& after.equity_micros == before.equity_micros
    &&& after.available_cash_micros == before.available_cash_micros
    &&& after.daily_loss_bps == before.daily_loss_bps
}

/// Records a filled paper intent in the state at time `timestamp`, as
/// `spec_filled` states.
pub fn apply_paper_fill(state: &mut PaperState, intent: &OrderIntent, timestamp_unix_seconds: u64)
    ensures
        spec_filled(*old(state), *intent, timestamp_unix_seconds, *final(state)),
{
    let entry = match intent.limit_price {
        Some(l) => l,
        None => intent.estimated_max_loss,
    };
    let position = StoredPosition {
        symbol: intent.contract.symbol.clone(),
        underlying: intent.contract.underlying.clone(),
        expiration: intent.contract.expiration.to_display_string(),
        strike_micros: intent.contract.strike.micros(),
        kind: match intent.contract.kind {
            OptionKind::Call => "call".to_owned(),
            OptionKind::Put => "put".to_owned(),
        },
        quantity: intent.quantity.get(),
        average_entry_price_micros: entry.micros(),
    };
    state.positions.push(position);
    state.last_updated_unix_seconds = Some(timestamp_unix_seconds);
    assert(state.positions@.subrange(0, old(state).positions@.len() as int) =~= old(
        state,
    ).positions@);
}

/// The report of a paper run whose decision was `decision` and which
/// filled the order when `executed`.
pub fn paper_run_report(
    config_path: &str,
    fixture_root: &str,
    trading_mode: TradingMode,
    order_intent_id: &str,
    decision: RiskDecision,
    executed: bool,
) -> (r: PaperRunReport)
    ensures
        r.config_path@ == config_path@,
        r.fixture_root@ == fixture_root@,
        r.trading_mode == trading_mode,
        r.order_intent_id@ == order_intent_id@,
        r.risk_decision == decision,
        r.execution_status == (if executed {
            PaperExecutionStatus::Executed
        } else {
            PaperExecutionStatus::Rejected
        }),
        r.audit_appended,
        r.state_updated == executed,
{
    PaperRunReport {
        config_path: config_path.to_owned(),
        fixture_root: fixture_root.to_owned(),
        trading_mode,
        order_intent_id: order_intent_id.to_owned(),
        risk_decision: decision,
        execution_status: if executed {
            PaperExecutionStatus::Executed
        } else {
            PaperExecutionStatus::Rejected
        },
        audit_appended: true,
        state_updated: executed,
    }
}

/// A paper run carries the fixture account's daily loss to the risk gate:
/// whatever the market, advisory and order, a plan made from a fixture
/// whose account has lost more today than its daily-loss cap allows is
/// rejected, and an accepted plan has its daily loss within the cap.
pub proof fn lemma_paper_plan_respects_daily_loss(f: PaperRunFixture, a: AdvisoryFixture, p: PaperPlan)
    requires
        spec_plan(f, a, p),
    ensures
        f.account.daily_loss_bps > f.risk_limits.max_daily_loss_bps ==> p.decision is Rejected,
        p.decision is Accepted ==> f.account.daily_loss_bps <= f.risk_limits.max_daily_loss_bps,
{
}

} // verus!
