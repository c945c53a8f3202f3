//! Instruments and the scalar quantities that describe them.

use vstd::prelude::*;
use vstd::string::*;
use crate::errors::DomainError;
use crate::text::{
    ascii_lower_seq, opt_view, dec_seq, push_u64_padded, str_eq, to_ascii_lower, trim, trim_seq, zero_pad,
};

verus! {

/// Where orders go: simulated fills, a broker sandbox, or real money.
#[derive(Debug, Clone, Copy, PartialEq, Eq, Structural)]
pub enum TradingMode {
    Paper,
    Sandbox,
    Live,
}

impl Default for TradingMode {
    fn default() -> (r: Self)
        ensures
            r == TradingMode::Paper,
    {
        TradingMode::Paper
    }
}

impl TradingMode {
    /// The lower-case name of the mode.
    pub open spec fn spec_name(self) -> Seq<char> {
        match self {
            TradingMode::Paper => "paper"@,
            TradingMode::Sandbox => "sandbox"@,
            TradingMode::Live => "live"@,
        }
    }

    /// The lower-case name of the mode, as it is displayed.
    pub fn as_str(self) -> (r: &'static str)
        ensures
            r@ == self.spec_name(),
    {
        match self {
            TradingMode::Paper => "paper",
            TradingMode::Sandbox => "sandbox",
            TradingMode::Live => "live",
        }
    }

    /// The displayed name of the mode, as an owned string.
    pub fn to_display_string(self) -> (r: String)
        ensures
            r@ == self.spec_name(),
    {
        self.as_str().to_owned()
    }

    /// The mode named by `s` once trimmed and folded to lower case, if any.
    pub open spec fn spec_parse(s: Seq<char>) -> Option<TradingMode> {
        let t = ascii_lower_seq(trim_seq(s));
        if t == "paper"@ {
            Some(TradingMode::Paper)
        } else if t == "sandbox"@ {
            Some(TradingMode::Sandbox)
        } else if t == "live"@ {
            Some(TradingMode::Live)
        } else {
            None
        }
    }

    /// Parses a mode name, ignoring surrounding white space and ASCII case.
    pub fn parse(value: &str) -> (r: Result<Self, DomainError>)
        ensures
            match r {
                Ok(m) => Self::spec_parse(value@) == Some(m),
                Err(e) => Self::spec_parse(value@) is None && (e matches DomainError::InvalidTradingMode {
                    value: v,
                } && v@ == ascii_lower_seq(trim_seq(value@))),
            },
    {
        let trimmed = trim(value);
        let lowered = to_ascii_lower(trimmed.as_str());
        if str_eq(lowered.as_str(), "paper") {
            Ok(TradingMode::Paper)
        } else if str_eq(lowered.as_str(), "sandbox") {
            Ok(TradingMode::Sandbox)
        } else if str_eq(lowered.as_str(), "live") {
            Ok(TradingMode::Live)
        } else {
            Err(DomainError::InvalidTradingMode { value: lowered })
        }
    }
}

/// A mode's displayed name parses back to that mode.
pub proof fn lemma_mode_name_parses_back(m: TradingMode)
    ensures
        TradingMode::spec_parse(m.spec_name()) == Some(m),
{
    reveal_strlit("paper");
    reveal_strlit("sandbox");
    reveal_strlit("live");
    let n = m.spec_name();
    crate::text::lemma_trim_noop(n);
    assert(ascii_lower_seq(n) =~= n);
}

/// A positive price in micro-units (millionths of a currency unit).
#[derive(Debug, Clone, Copy, PartialEq, Eq, Structural, PartialOrd, Ord, Hash)]
pub struct Price {
    micros: i64,
}

/// Micro-units per currency unit.
pub const PRICE_SCALE: i64 = 1_000_000;

impl Price {
    #[verifier::type_invariant]
    spec fn positive(self) -> bool {
        self.micros > 0
    }

    /// The price in micro-units.
    pub closed spec fn spec_micros(self) -> i64 {
        self.micros
    }

    /// A price of `value` micro-units; refused unless positive.
    pub fn from_micros(value: i64) -> (r: Result<Self, DomainError>)
        ensures
            value > 0 ==> (r matches Ok(p) && p.spec_micros() == value),
            value <= 0 ==> (r matches Err(DomainError::InvalidPrice { value_micros }) && value_micros
                == value),
    {
        if value <= 0 {
            return Err(DomainError::InvalidPrice { value_micros: value });
        }
        Ok(Price { micros: value })
    }

    /// The price in micro-units, always positive.
    pub fn micros(self) -> (r: i64)
        ensures
            r == self.spec_micros(),
            r > 0,
    {
        proof {
            use_type_invariant(&self);
        }
        self.micros
    }

    /// This price as a share of `equity`, in basis points, truncated toward
    /// zero and then to 32 bits.
    pub open spec fn spec_risk_bps_of(self, equity: Price) -> u32 {
        ((self.spec_micros() as int * 10_000) / equity.spec_micros() as int) as u32
    }

    /// This price as a share of `equity`, in basis points.
    pub fn risk_bps_of(self, equity: Self) -> (r: u32)
        ensures
            r == self.spec_risk_bps_of(equity),
    {
        let a = self.micros() as u128;
        let b = equity.micros() as u128;
        assert(a * 10_000 <= 0x7fff_ffff_ffff_ffff * 10_000) by (nonlinear_arith)
            requires
                a <= 0x7fff_ffff_ffff_ffff,
        ;
        let q = (a * 10_000) / b;
        #[verifier::truncate]
        (q as u32)
    }
}

/// A percentage in basis points, at most 10 000.
#[derive(Debug, Clone, Copy, PartialEq, Eq, Structural, PartialOrd, Ord, Hash)]
pub struct PercentBps {
    bps: u32,
}

/// The largest percentage, 100 %, in basis points.
pub const MAX_BPS: u32 = 10_000;

impl PercentBps {
    #[verifier::type_invariant]
    spec fn in_range(self) -> bool {
        self.bps <= 10_000
    }

    /// The percentage in basis points.
    pub closed spec fn spec_bps(self) -> u32 {
        self.bps
    }

    /// A percentage of `value` basis points; refused above 10 000.
    pub fn from_bps(value: u32) -> (r: Result<Self, DomainError>)
        ensures
            value <= 10_000 ==> (r matches Ok(p) && p.spec_bps() == value),
            value > 10_000 ==> (r matches Err(DomainError::InvalidPercent { field, value: v }) && field@
                == "bps"@ && v == value),
    {
        if value > MAX_BPS {
            return Err(DomainError::InvalidPercent { field: "bps", value });
        }
        Ok(PercentBps { bps: value })
    }

    /// The percentage in basis points, at most 10 000.
    pub fn bps(self) -> (r: u32)
        ensures
            r == self.spec_bps(),
            r <= 10_000,
    {
        proof {
            use_type_invariant(&self);
        }
        self.bps
    }
}

/// A positive number of option contracts.
#[derive(Debug, Clone, Copy, PartialEq, Eq, Structural, PartialOrd, Ord, Hash)]
pub struct ContractQuantity {
    contracts: u32,
}

impl ContractQuantity {
    #[verifier::type_invariant]
    spec fn positive(self) -> bool {
        self.contracts > 0
    }

    /// The number of contracts.
    pub closed spec fn spec_get(self) -> u32 {
        self.contracts
    }

    /// A quantity of `value` contracts; refused when zero.
    pub fn new(value: u32) -> (r: Result<Self, DomainError>)
        ensures
            value > 0 ==> (r matches Ok(q) && q.spec_get() == value),
            value == 0 ==> (r matches Err(DomainError::InvalidQuantity { value: v }) && v == value),
    {
        if value == 0 {
            return Err(DomainError::InvalidQuantity { value });
        }
        Ok(ContractQuantity { contracts: value })
    }

    /// The number of contracts, always positive.
    pub fn get(self) -> (r: u32)
        ensures
            r == self.spec_get(),
            r > 0,
    {
        proof {
            use_type_invariant(&self);
        }
        self.contracts
    }
}

/// A proleptic Gregorian calendar date.
#[derive(Debug, Clone, Copy, PartialEq, Eq, Structural, PartialOrd, Ord, Hash)]
pub struct CalendarDate {
    pub year: u16,
    pub month: u8,
    pub day: u8,
}

/// Whether `year` is a Gregorian leap year.
pub open spec fn spec_is_leap_year(year: u16) -> bool {
    (year % 4 == 0 && year % 100 != 0) || year % 400 == 0
}

/// The number of days in `month` of `year`, or 0 when `month` is not 1 to 12.
pub open spec fn spec_days_in_month(year: u16, month: u8) -> u8 {
    if month == 1 || month == 3 || month == 5 || month == 7 || month == 8 || month == 10 || month
        == 12 {
        31
    } else if month == 4 || month == 6 || month == 9 || month == 11 {
        30
    } else if month == 2 {
        if spec_is_leap_year(year) {
            29
        } else {
            28
        }
    } else {
        0
    }
}

/// Whether `year-month-day` names a real calendar day.
pub open spec fn spec_is_valid_date(year: u16, month: u8, day: u8) -> bool {
    1 <= day && day <= spec_days_in_month(year, month)
}

fn is_leap_year(year: u16) -> (r: bool)
    ensures
        r == spec_is_leap_year(year),
{
    (year % 4 == 0 && year % 100 != 0) || year % 400 == 0
}

fn is_valid_date(year: u16, month: u8, day: u8) -> (r: bool)
    ensures
        r == spec_is_valid_date(year, month, day),
{
    let days_in_month: u8 = if month == 1 || month == 3 || month == 5 || month == 7 || month == 8
        || month == 10 || month == 12 {
        31
    } else if month == 4 || month == 6 || month == 9 || month == 11 {
        30
    } else if month == 2 {
        if is_leap_year(year) {
            29
        } else {
            28
        }
    } else {
        return false;
    };
    day >= 1 && day <= days_in_month
}

impl CalendarDate {
    /// The date `year-month-day`; refused unless it is a real calendar day.
    pub fn new(year: u16, month: u8, day: u8) -> (r: Result<Self, DomainError>)
        ensures
            spec_is_valid_date(year, month, day) ==> r == Ok::<CalendarDate, DomainError>(
                CalendarDate { year, month, day },
            ),
            !spec_is_valid_date(year, month, day) ==> (r matches Err(
                DomainError::InvalidDate { year: y, month: m, day: d },
            ) && y == year && m == month && d == day),
    {
        if !is_valid_date(year, month, day) {
            return Err(DomainError::InvalidDate { year, month, day });
        }
        Ok(CalendarDate { year, month, day })
    }

    /// Whether this date comes no later than `other`.
    pub open spec fn spec_on_or_before(self, other: Self) -> bool {
        self.year < other.year || (self.year == other.year && (self.month < other.month || (
        self.month == other.month && self.day <= other.day)))
    }

    /// Whether this date comes no later than `other`.
    pub fn is_on_or_before(self, other: Self) -> (r: bool)
        ensures
            r == self.spec_on_or_before(other),
    {
        self.year < other.year || (self.year == other.year && (self.month < other.month || (
        self.month == other.month && self.day <= other.day)))
    }

    /// The date as `YYYY-MM-DD`, each part zero-padded.
    pub open spec fn spec_display(self) -> Seq<char> {
        zero_pad(dec_seq(self.year as nat), 4) + "-"@ + zero_pad(dec_seq(self.month as nat), 2)
            + "-"@ + zero_pad(dec_seq(self.day as nat), 2)
    }

    /// The date as `YYYY-MM-DD`, each part zero-padded.
    pub fn to_display_string(self) -> (r: String)
        ensures
            r@ == self.spec_display(),
    {
        let mut s = String::new();
        push_u64_padded(&mut s, self.year as u64, 4);
        s.append("-");
        push_u64_padded(&mut s, self.month as u64, 2);
        s.append("-");
        push_u64_padded(&mut s, self.day as u64, 2);
        assert(s@ =~= self.spec_display());
        s
    }
}

/// Call or put.
#[derive(Debug, Clone, Copy, PartialEq, Eq, Structural)]
pub enum OptionKind {
    Call,
    Put,
}

/// A listed option contract.
#[derive(Debug, PartialEq, Eq)]
pub struct OptionContract {
    pub symbol: String,
    pub underlying: String,
    pub expiration: CalendarDate,
    pub strike: Price,
    pub kind: OptionKind,
    pub venue_id: Option<String>,
}

impl Clone for OptionContract {
    fn clone(&self) -> (r: Self)
        ensures
            r == *self,
    {
        OptionContract {
            symbol: self.symbol.clone(),
            underlying: self.underlying.clone(),
            expiration: self.expiration,
            strike: self.strike,
            kind: self.kind,
            venue_id: match &self.venue_id {
                Some(v) => Some(v.clone()),
                None => None,
            },
        }
    }
}

/// `value` trimmed, or `EmptyField { field }` when nothing but white space
/// remains.
pub fn normalize_text(value: &str, field: &'static str) -> (r: Result<String, DomainError>)
    ensures
        trim_seq(value@).len() > 0 ==> (r matches Ok(t) && t@ == trim_seq(value@)),
        trim_seq(value@).len() == 0 ==> (r matches Err(DomainError::EmptyField { field: f }) && f@
            == field@),
{
    let trimmed = trim(value);
    if trimmed.as_str().unicode_len() == 0 {
        return Err(DomainError::EmptyField { field });
    }
    Ok(trimmed)
}

impl OptionContract {
    /// Whether `new` accepts these arguments.
    pub open spec fn spec_new_accepts(
        symbol: Seq<char>,
        underlying: Seq<char>,
        expiration: CalendarDate,
        venue_id: Option<Seq<char>>,
        as_of: CalendarDate,
    ) -> bool {
        &&& trim_seq(symbol).len() > 0
        &&& trim_seq(underlying).len() > 0
        &&& !expiration.spec_on_or_before(as_of)
        &&& (venue_id matches Some(v) ==> trim_seq(v).len() > 0)
    }

    /// What `new` answers for these arguments.
    pub open spec fn spec_new_result(
        symbol: Seq<char>,
        underlying: Seq<char>,
        expiration: CalendarDate,
        strike: Price,
        kind: OptionKind,
        venue_id: Option<Seq<char>>,
        as_of: CalendarDate,
        r: Result<Self, DomainError>,
    ) -> bool {
        match r {
            Ok(c) => {
                &&& Self::spec_new_accepts(
                    symbol,
                    underlying,
                    expiration,
                    venue_id,
                    as_of,
                )
                &&& c.symbol@ == trim_seq(symbol)
                &&& c.underlying@ == trim_seq(underlying)
                &&& c.expiration == expiration
                &&& c.strike == strike
                &&& c.kind == kind
                &&& (match venue_id {
                    Some(v) => c.venue_id matches Some(w) && w@ == trim_seq(v),
                    None => c.venue_id is None,
                })
            },
            Err(e) => Self::spec_new_error(symbol, underlying, expiration, venue_id, as_of, e),
        }
    }

    /// The refusal `new` gives for these arguments: the first failed check.
    pub open spec fn spec_new_error(
        symbol: Seq<char>,
        underlying: Seq<char>,
        expiration: CalendarDate,
        venue_id: Option<Seq<char>>,
        as_of: CalendarDate,
        e: DomainError,
    ) -> bool {
        &&& !Self::spec_new_accepts(
            symbol,
            underlying,
            expiration,
            venue_id,
            as_of,
        )
        &&& if trim_seq(symbol).len() == 0 {
            e matches DomainError::EmptyField { field } && field@ == "symbol"@
        } else if trim_seq(underlying).len() == 0 {
            e matches DomainError::EmptyField { field } && field@ == "underlying"@
        } else if expiration.spec_on_or_before(as_of) {
            e matches DomainError::ExpiredContract { expiration: x, as_of: a } && x@
                == expiration.spec_display() && a@ == as_of.spec_display()
        } else {
            e matches DomainError::EmptyField { field } && field@ == "venue_id"@
        }
    }

    /// A contract with trimmed symbol, underlying and venue; refused when a
    /// text field is blank or when it expires on or before `as_of`.
    /// Checks run in this order: symbol, underlying, expiry, venue.
    pub fn new(
        symbol: &str,
        underlying: &str,
        expiration: CalendarDate,
        strike: Price,
        kind: OptionKind,
        venue_id: Option<String>,
        as_of: CalendarDate,
    ) -> (r: Result<Self, DomainError>)
        ensures
            Self::spec_new_result(
                symbol@,
                underlying@,
                expiration,
                strike,
                kind,
                opt_view(venue_id),
                as_of,
                r,
            ),
    {
        let symbol = normalize_text(symbol, "symbol")?;
        let underlying = normalize_text(underlying, "underlying")?;
        if expiration.is_on_or_before(as_of) {
            return Err(
                DomainError::ExpiredContract {
                    expiration: expiration.to_display_string(),
                    as_of: as_of.to_display_string(),
                },
            );
        }
        let venue_id = match venue_id {
            Some(value) => Some(normalize_text(value.as_str(), "venue_id")?),
            None => None,
        };
        Ok(OptionContract { symbol, underlying, expiration, strike, kind, venue_id })
    }
}

} // verus!
