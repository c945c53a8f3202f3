//! Explaining the risk gate's verdict on a serialized order intent.

use vstd::prelude::*;
use vstd::string::*;
use crate::domain::{
    AccountSnapshot, CalendarDate, ContractQuantity, OptionContract, OptionKind, OrderIntent,
    OrderIntentSpec, OrderSide, OrderType, PercentBps, Price, RiskDecision, RiskLimits,
    TradingMode,
};
use crate::domain::instrument::spec_is_valid_date;
use crate::domain::risk::{evaluate_order_intent, spec_evaluate};
use crate::errors::{AppError, DomainError};
use crate::text::{opt_view, trim_seq};

verus! {

/// A calendar date as fixtures spell it.
#[derive(Debug, Clone, Copy, PartialEq, Eq, Structural)]
pub struct CalendarDateFixture {
    pub year: u16,
    pub month: u8,
    pub day: u8,
}

impl CalendarDateFixture {
    /// The date the fixture names.
    pub open spec fn spec_date(self) -> CalendarDate {
        CalendarDate { year: self.year, month: self.month, day: self.day }
    }

    /// Whether the fixture names a real calendar day.
    pub open spec fn spec_valid(self) -> bool {
        spec_is_valid_date(self.year, self.month, self.day)
    }

    /// The refusal for a fixture that names no real day.
    pub open spec fn spec_error(self, e: AppError) -> bool {
        e matches AppError::Domain(DomainError::InvalidDate { year, month, day }) && year
            == self.year && month == self.month && day == self.day
    }

    /// The date, refused unless it is a real calendar day.
    pub fn to_domain(&self) -> (r: Result<CalendarDate, AppError>)
        ensures
            self.spec_valid() ==> r == Ok::<CalendarDate, AppError>(self.spec_date()),
            !self.spec_valid() ==> (r matches Err(e) && self.spec_error(e)),
    {
        match CalendarDate::new(self.year, self.month, self.day) {
            Ok(d) => Ok(d),
            Err(e) => Err(AppError::Domain(e)),
        }
    }
}

/// An option contract as fixtures spell it.
#[derive(Debug, Clone, PartialEq, Eq)]
pub struct OptionContractFixture {
    pub symbol: String,
    pub underlying: String,
    pub expiration: CalendarDateFixture,
    pub strike_micros: i64,
    pub kind: OptionKind,
    pub venue_id: Option<String>,
    pub as_of: CalendarDateFixture,
}

impl OptionContractFixture {
    /// Whether the fixture converts to a contract.
    pub open spec fn spec_converts(self) -> bool {
        &&& self.expiration.spec_valid()
        &&& self.strike_micros > 0
        &&& self.as_of.spec_valid()
        &&& OptionContract::spec_new_accepts(
            self.symbol@,
            self.underlying@,
            self.expiration.spec_date(),
            opt_view(self.venue_id),
            self.as_of.spec_date(),
        )
    }

    /// The refusal for a fixture that does not convert: the expiration
    /// date, the strike, the as-of date, then the contract's own checks.
    pub open spec fn spec_error(self, e: AppError) -> bool {
        if !self.expiration.spec_valid() {
            self.expiration.spec_error(e)
        } else if self.strike_micros <= 0 {
            e matches AppError::Domain(DomainError::InvalidPrice { value_micros }) && value_micros
                == self.strike_micros
        } else if !self.as_of.spec_valid() {
            self.as_of.spec_error(e)
        } else {
            e matches AppError::Domain(d) && OptionContract::spec_new_error(
                self.symbol@,
                self.underlying@,
                self.expiration.spec_date(),
                opt_view(self.venue_id),
                self.as_of.spec_date(),
                d,
            )
        }
    }

    /// Whether `c` is the contract the fixture converts to.
    pub open spec fn spec_contract(self, c: OptionContract) -> bool {
        &&& c.strike.spec_micros() == self.strike_micros
        &&& OptionContract::spec_new_result(
            self.symbol@,
            self.underlying@,
            self.expiration.spec_date(),
            c.strike,
            self.kind,
            opt_view(self.venue_id),
            self.as_of.spec_date(),
            Ok(c),
        )
    }

    /// The contract, or the first refusal as `spec_error` orders them.
    pub fn to_domain(&self) -> (r: Result<OptionContract, AppError>)
        ensures
            self.spec_converts() ==> (r matches Ok(c) && self.spec_contract(c)),
            !self.spec_converts() ==> (r matches Err(e) && self.spec_error(e)),
    {
        let expiration = self.expiration.to_domain()?;
        let strike = match Price::from_micros(self.strike_micros) {
            Ok(p) => p,
            Err(e) => {
                return Err(AppError::Domain(e));
            },
        };
        let as_of = self.as_of.to_domain()?;
        let venue_id = match &self.venue_id {
            Some(v) => Some(v.clone()),
            None => None,
        };
        match OptionContract::new(
            self.symbol.as_str(),
            self.underlying.as_str(),
            expiration,
            strike,
            self.kind,
            venue_id,
            as_of,
        ) {
            Ok(c) => Ok(c),
            Err(e) => Err(AppError::Domain(e)),
        }
    }
}

/// An account as risk fixtures spell it.
#[derive(Debug, Clone, PartialEq, Eq)]
pub struct AccountFixture {
    pub account_id: String,
    pub equity_micros: i64,
    pub available_cash_micros: Option<i64>,
    pub daily_loss_bps: u32,
}

/// Whether `e` is the refusal of a non-positive price of `micros`.
pub open spec fn spec_price_error(micros: i64, e: AppError) -> bool {
    e matches AppError::Domain(DomainError::InvalidPrice { value_micros }) && value_micros == micros
}

/// Whether `p` is the price an optional amount converts to.
pub open spec fn spec_opt_price(micros: Option<i64>, p: Option<Price>) -> bool {
    match micros {
        Some(m) => p matches Some(q) && q.spec_micros() == m,
        None => p is None,
    }
}

/// Converts an optional amount to an optional price.
fn opt_price(micros: Option<i64>) -> (r: Result<Option<Price>, AppError>)
    ensures
        match micros {
            Some(m) => if m > 0 {
                r matches Ok(p) && spec_opt_price(micros, p)
            } else {
                r matches Err(e) && spec_price_error(m, e)
            },
            None => r == Ok::<Option<Price>, AppError>(None),
        },
{
    match micros {
        Some(m) => match Price::from_micros(m) {
            Ok(p) => Ok(Some(p)),
            Err(e) => Err(AppError::Domain(e)),
        },
        None => Ok(None),
    }
}

/// Converts an amount to a price.
fn price(micros: i64) -> (r: Result<Price, AppError>)
    ensures
        micros > 0 ==> (r matches Ok(p) && p.spec_micros() == micros),
        micros <= 0 ==> (r matches Err(e) && spec_price_error(micros, e)),
{
    match Price::from_micros(micros) {
        Ok(p) => Ok(p),
        Err(e) => Err(AppError::Domain(e)),
    }
}

/// Whether an optional amount converts: absent, or positive.
pub open spec fn spec_opt_positive(micros: Option<i64>) -> bool {
    micros matches Some(m) ==> m > 0
}

impl AccountFixture {
    /// Whether the fixture converts to an account snapshot.
    pub open spec fn spec_converts(self) -> bool {
        &&& self.equity_micros > 0
        &&& spec_opt_positive(self.available_cash_micros)
        &&& trim_seq(self.account_id@).len() > 0
    }

    /// The refusal for a fixture that does not convert: equity, cash,
    /// then the account id.
    pub open spec fn spec_error(self, e: AppError) -> bool {
        if self.equity_micros <= 0 {
            spec_price_error(self.equity_micros, e)
        } else if !spec_opt_positive(self.available_cash_micros) {
            spec_price_error(self.available_cash_micros->0, e)
        } else {
            e matches AppError::Domain(DomainError::EmptyField { field }) && field@
                == "account_id"@
        }
    }

    /// Whether `a` is the snapshot the fixture converts to.
    pub open spec fn spec_account(self, a: AccountSnapshot) -> bool {
        &&& a.account_id@ == trim_seq(self.account_id@)
        &&& a.equity.spec_micros() == self.equity_micros
        &&& spec_opt_price(self.available_cash_micros, a.available_cash)
        &&& a.daily_loss_bps == self.daily_loss_bps
        &&& a.positions@.len() == 0
    }

    /// The snapshot, or the first refusal as `spec_error` orders them.
    pub fn to_domain(&self) -> (r: Result<AccountSnapshot, AppError>)
        ensures
            self.spec_converts() ==> (r matches Ok(a) && self.spec_account(a)),
            !self.spec_converts() ==> (r matches Err(e) && self.spec_error(e)),
            r matches Ok(a) ==> a.daily_loss_bps == self.daily_loss_bps && a.equity.spec_micros()
                == self.equity_micros,
    {
        let equity = price(self.equity_micros)?;
        let cash = opt_price(self.available_cash_micros)?;
        match AccountSnapshot::new(
            self.account_id.as_str(),
            equity,
            cash,
            self.daily_loss_bps,
            Vec::new(),
        ) {
            Ok(a) => Ok(a),
            Err(e) => Err(AppError::Domain(e)),
        }
    }
}

/// Risk limits as fixtures spell them.
#[derive(Debug, Clone, Copy, PartialEq, Eq, Structural)]
pub struct RiskLimitsFixture {
    pub max_account_risk_bps: u32,
    pub max_daily_loss_bps: u32,
    pub max_contracts_per_order: u32,
    pub allow_live: bool,
}

impl RiskLimitsFixture {
    /// Whether the fixture converts to risk limits.
    pub open spec fn spec_converts(self) -> bool {
        &&& self.max_account_risk_bps <= 10_000
        &&& self.max_daily_loss_bps <= 10_000
        &&& self.max_contracts_per_order > 0
    }

    /// The refusal for a fixture that does not convert: the account risk
    /// cap, the daily loss cap, then the contract cap.
    pub open spec fn spec_error(self, e: AppError) -> bool {
        if self.max_account_risk_bps > 10_000 {
            e matches AppError::Domain(DomainError::InvalidPercent { field, value }) && field@
                == "bps"@ && value == self.max_account_risk_bps
        } else if self.max_daily_loss_bps > 10_000 {
            e matches AppError::Domain(DomainError::InvalidPercent { field, value }) && field@
                == "bps"@ && value == self.max_daily_loss_bps
        } else {
            e matches AppError::Domain(DomainError::InvalidQuantity { value }) && value == 0
        }
    }

    /// Whether `l` are the limits the fixture converts to.
    pub open spec fn spec_limits(self, l: RiskLimits) -> bool {
        &&& l.max_account_risk_bps.spec_bps() == self.max_account_risk_bps
        &&& l.max_daily_loss_bps.spec_bps() == self.max_daily_loss_bps
        &&& l.max_contracts_per_order == self.max_contracts_per_order
        &&& l.allow_live == self.allow_live
    }

    /// The limits, or the first refusal as `spec_error` orders them.
    pub fn to_domain(&self) -> (r: Result<RiskLimits, AppError>)
        ensures
            self.spec_converts() ==> (r matches Ok(l) && self.spec_limits(l)),
            !self.spec_converts() ==> (r matches Err(e) && self.spec_error(e)),
    {
        let account = match PercentBps::from_bps(self.max_account_risk_bps) {
            Ok(p) => p,
            Err(e) => {
                return Err(AppError::Domain(e));
            },
        };
        let daily = match PercentBps::from_bps(self.max_daily_loss_bps) {
            Ok(p) => p,
            Err(e) => {
                return Err(AppError::Domain(e));
            },
        };
        match RiskLimits::new(account, daily, self.max_contracts_per_order, self.allow_live) {
            Ok(l) => Ok(l),
            Err(e) => Err(AppError::Domain(e)),
        }
    }
}

/// An order intent as fixtures spell it; its time is in seconds since the
/// Unix epoch.
#[derive(Debug, Clone, PartialEq, Eq)]
pub struct OrderIntentFixture {
    pub id: String,
    pub mode: TradingMode,
    pub contract: OptionContractFixture,
    pub side: OrderSide,
    pub quantity: u32,
    pub order_type: OrderType,
    pub limit_price_micros: Option<i64>,
    pub estimated_max_loss_micros: i64,
    pub strategy_id: String,
    pub risk_context_id: String,
    pub created_at_unix_seconds: u64,
}

impl OrderIntentFixture {
    /// Whether the order type and the limit price agree.
    pub open spec fn spec_type_consistent(self) -> bool {
        match self.order_type {
            OrderType::Limit => self.limit_price_micros is Some,
            OrderType::Market => self.limit_price_micros is None,
        }
    }

    /// Whether the fixture converts to an order intent.
    pub open spec fn spec_converts(self) -> bool {
        &&& self.contract.spec_converts()
        &&& self.quantity > 0
        &&& spec_opt_positive(self.limit_price_micros)
        &&& self.estimated_max_loss_micros > 0
        &&& trim_seq(self.id@).len() > 0
        &&& trim_seq(self.strategy_id@).len() > 0
        &&& trim_seq(self.risk_context_id@).len() > 0
        &&& self.spec_type_consistent()
    }

    /// The refusal for a fixture that does not convert: the contract, the
    /// quantity, the limit price, the loss estimate, then the intent's own
    /// checks.
    pub open spec fn spec_error(self, e: AppError) -> bool {
        if !self.contract.spec_converts() {
            self.contract.spec_error(e)
        } else if self.quantity == 0 {
            e matches AppError::Domain(DomainError::InvalidQuantity { value }) && value == 0
        } else if !spec_opt_positive(self.limit_price_micros) {
            spec_price_error(self.limit_price_micros->0, e)
        } else if self.estimated_max_loss_micros <= 0 {
            spec_price_error(self.estimated_max_loss_micros, e)
        } else if trim_seq(self.id@).len() == 0 {
            e matches AppError::Domain(DomainError::EmptyField { field }) && field@ == "id"@
        } else if trim_seq(self.strategy_id@).len() == 0 {
            e matches AppError::Domain(DomainError::EmptyField { field }) && field@
                == "strategy_id"@
        } else if trim_seq(self.risk_context_id@).len() == 0 {
            e matches AppError::Domain(DomainError::EmptyField { field }) && field@
                == "risk_context_id"@
        } else if self.order_type == OrderType::Limit {
            e matches AppError::Domain(DomainError::InvalidOrderType { detail }) && detail@
                == "limit orders require a limit price"@
        } else {
            e matches AppError::Domain(DomainError::InvalidOrderType { detail }) && detail@
                == "market orders must not include a limit price"@
        }
    }

    /// Whether `i` is the intent the fixture converts to.
    pub open spec fn spec_intent(self, i: OrderIntent) -> bool {
        &&& i.id@ == trim_seq(self.id@)
        &&& i.mode == self.mode
        &&& self.contract.spec_contract(i.contract)
        &&& i.side == self.side
        &&& i.quantity.spec_get() == self.quantity
        &&& i.order_type == self.order_type
        &&& spec_opt_price(self.limit_price_micros, i.limit_price)
        &&& i.estimated_max_loss.spec_micros() == self.estimated_max_loss_micros
        &&& i.strategy_id@ == trim_seq(self.strategy_id@)
        &&& i.risk_context_id@ == trim_seq(self.risk_context_id@)
        &&& i.created_at == self.created_at_unix_seconds
    }

    /// The intent, or the first refusal as `spec_error` orders them. A
    /// time past the last second the system clock can hold is outside
    /// what the fixture may say.
    pub fn to_domain(&self) -> (r: Result<OrderIntent, AppError>)
        requires
            self.created_at_unix_seconds <= i64::MAX,
        ensures
            self.spec_converts() ==> (r matches Ok(i) && self.spec_intent(i)),
            !self.spec_converts() ==> (r matches Err(e) && self.spec_error(e)),
    {
        let contract = self.contract.to_domain()?;
        let quantity = match ContractQuantity::new(self.quantity) {
            Ok(q) => q,
            Err(e) => {
                return Err(AppError::Domain(e));
            },
        };
        let limit_price = opt_price(self.limit_price_micros)?;
        let estimated_max_loss = price(self.estimated_max_loss_micros)?;
        let spec = OrderIntentSpec {
            id: self.id.clone(),
            mode: self.mode,
            contract,
            side: self.side,
            quantity,
            order_type: self.order_type,
            limit_price,
            estimated_max_loss,
            strategy_id: self.strategy_id.clone(),
            risk_context_id: self.risk_context_id.clone(),
            created_at: self.created_at_unix_seconds as i64,
        };
        match OrderIntent::new(spec) {
            Ok(i) => Ok(i),
            Err(e) => Err(AppError::Domain(e)),
        }
    }
}

/// What `risk explain` reads: an intent, an account, limits and whether
/// the kill switch is on.
#[derive(Debug, Clone, PartialEq, Eq)]
pub struct RiskExplainFixture {
    pub order_intent: OrderIntentFixture,
    pub account: AccountFixture,
    pub limits: RiskLimitsFixture,
    pub kill_switch_active: bool,
}

/// The risk gate's verdict on the intent read from `order_intent_path`.
#[derive(Debug, Clone, PartialEq, Eq)]
pub struct RiskReport {
    pub order_intent_path: String,
    pub order_intent_id: String,
    pub decision: RiskDecision,
}

impl RiskExplainFixture {
    /// Whether every part of the fixture converts.
    pub open spec fn spec_converts(self) -> bool {
        self.order_intent.spec_converts() && self.account.spec_converts()
            && self.limits.spec_converts()
    }

    /// The refusal for a fixture that does not convert: the intent, the
    /// account, then the limits.
    pub open spec fn spec_error(self, e: AppError) -> bool {
        if !self.order_intent.spec_converts() {
            self.order_intent.spec_error(e)
        } else if !self.account.spec_converts() {
            self.account.spec_error(e)
        } else {
            self.limits.spec_error(e)
        }
    }
}

/// Converts the fixture read from `path` and runs the risk gate on it.
pub fn explain_risk(path: &str, fixture: &RiskExplainFixture) -> (r: Result<RiskReport, AppError>)
    requires
        fixture.order_intent.created_at_unix_seconds <= i64::MAX,
    ensures
        !fixture.spec_converts() ==> (r matches Err(e) && fixture.spec_error(e)),
        fixture.spec_converts() ==> (r matches Ok(report) && report.order_intent_path@ == path@
            && exists|i: OrderIntent, a: AccountSnapshot, l: RiskLimits|
            #![trigger fixture.order_intent.spec_intent(i), fixture.account.spec_account(a), fixture.limits.spec_limits(l)]
            fixture.order_intent.spec_intent(i) && fixture.account.spec_account(a)
                && fixture.limits.spec_limits(l) && report.order_intent_id@ == i.id@ && spec_evaluate(
                i,
                Some(l),
                a,
                fixture.kill_switch_active,
                report.decision,
            )),
        fixture.spec_converts() && fixture.account.daily_loss_bps > fixture.limits.max_daily_loss_bps
            ==> (r matches Ok(report) && report.decision is Rejected),
        r matches Ok(report) && report.decision is Accepted ==> fixture.account.daily_loss_bps
            <= fixture.limits.max_daily_loss_bps && !fixture.kill_switch_active,
{
    let intent = fixture.order_intent.to_domain()?;
    let account = fixture.account.to_domain()?;
    let limits = fixture.limits.to_domain()?;
    let decision = evaluate_order_intent(&intent, Some(&limits), &account, fixture.kill_switch_active);
    Ok(RiskReport { order_intent_path: path.to_owned(), order_intent_id: intent.id.clone(), decision })
}

/// Risk explain carries the fixture's daily loss to the risk check: whatever
/// the intent, a fixture whose account has lost more today than its
/// daily-loss cap allows is never accepted, and an accepted fixture has
/// its daily loss within the cap and the kill switch off.
pub proof fn lemma_explain_risk_respects_daily_loss(fixture: RiskExplainFixture, report: RiskReport)
    requires
        exists|i: OrderIntent, a: AccountSnapshot, l: RiskLimits|
            #![trigger fixture.order_intent.spec_intent(i), fixture.account.spec_account(a), fixture.limits.spec_limits(l)]
            fixture.order_intent.spec_intent(i) && fixture.account.spec_account(a)
                && fixture.limits.spec_limits(l) && spec_evaluate(
                i,
                Some(l),
                a,
                fixture.kill_switch_active,
                report.decision,
            ),
    ensures
        fixture.account.daily_loss_bps > fixture.limits.max_daily_loss_bps ==> report.decision is Rejected,
        report.decision is Accepted ==> fixture.account.daily_loss_bps
            <= fixture.limits.max_daily_loss_bps && !fixture.kill_switch_active,
{
}

} // verus!
