//! The broker boundary for Alpaca: credentials, the shapes of its replies,
//! and their mapping to domain values and back.

use vstd::prelude::*;
use vstd::string::*;
use crate::config::{spec_blank, LiveEnvironment};
use crate::domain::{
    AccountSnapshot, CalendarDate, OptionContract, OptionKind, OrderIntent, OrderSide, OrderType,
    Price,
};
use crate::errors::{invalid_input, AppError, DomainError, InputError, SecurityError};
use crate::execution::{ExecutionMode, ExecutionReport, ExecutionStatus};
use crate::text::{
    ascii_lower_seq, chars_of, dec_seq, find_char_from, index_of_from, lemma_index_of_from, parse_i64, parse_unsigned,
    push_u64_dec, push_u64_padded, spec_parse_int, str_eq, string_of_range, to_ascii_lower, trim,
    trim_seq, zero_pad, zeros, IntParseError, is_digit, lemma_dec_seq_value, lemma_dec_seq_len_bound, lemma_zero_pad_value, lemma_trim_noop, lemma_index_of_from_at, pow10,
};

verus! {

/// The API key and secret, exactly as the environment gave them.
#[derive(Debug)]
pub struct AlpacaCredentials {
    api_key: String,
    api_secret: String,
}

impl Clone for AlpacaCredentials {
    fn clone(&self) -> (r: Self)
        ensures
            r == *self,
    {
        AlpacaCredentials { api_key: self.api_key.clone(), api_secret: self.api_secret.clone() }
    }
}

impl AlpacaCredentials {
    /// The API key.
    pub closed spec fn spec_api_key(&self) -> Seq<char> {
        self.api_key@
    }

    /// The API secret.
    pub closed spec fn spec_api_secret(&self) -> Seq<char> {
        self.api_secret@
    }

    /// Credentials from `OPTIONCLAW_ALPACA_API_KEY` and
    /// `OPTIONCLAW_ALPACA_API_SECRET`; refused when either is unset or blank,
    /// the key first.
    pub fn from_env(env: &LiveEnvironment) -> (r: Result<Self, AppError>)
        ensures
            match r {
                Ok(c) => !spec_blank(env.alpaca_api_key) && !spec_blank(env.alpaca_api_secret)
                    && c.spec_api_key() == env.alpaca_api_key.unwrap()@ && c.spec_api_secret()
                    == env.alpaca_api_secret.unwrap()@,
                Err(e) => if spec_blank(env.alpaca_api_key) {
                    e matches AppError::Security(SecurityError::SecretMissing { name }) && name@
                        == "OPTIONCLAW_ALPACA_API_KEY"@
                } else {
                    spec_blank(env.alpaca_api_secret) && (e matches AppError::Security(
                        SecurityError::SecretMissing { name },
                    ) && name@ == "OPTIONCLAW_ALPACA_API_SECRET"@)
                },
            },
    {
        let api_key = read_secret(&env.alpaca_api_key, "OPTIONCLAW_ALPACA_API_KEY")?;
        let api_secret = read_secret(&env.alpaca_api_secret, "OPTIONCLAW_ALPACA_API_SECRET")?;
        Ok(AlpacaCredentials { api_key, api_secret })
    }

    /// The API key.
    pub fn api_key(&self) -> (r: &str)
        ensures
            r@ == self.spec_api_key(),
    {
        self.api_key.as_str()
    }

    /// The API secret.
    pub fn api_secret(&self) -> (r: &str)
        ensures
            r@ == self.spec_api_secret(),
    {
        self.api_secret.as_str()
    }
}

fn read_secret(value: &Option<String>, name: &str) -> (r: Result<String, AppError>)
    ensures
        match r {
            Ok(v) => !spec_blank(*value) && v@ == value.unwrap()@,
            Err(e) => spec_blank(*value) && (e matches AppError::Security(
                SecurityError::SecretMissing { name: n },
            ) && n@ == name@),
        },
{
    match value {
        Some(v) => {
            if trim(v.as_str()).as_str().unicode_len() == 0 {
                Err(AppError::Security(SecurityError::SecretMissing { name: name.to_owned() }))
            } else {
                Ok(v.clone())
            }
        },
        None => Err(AppError::Security(SecurityError::SecretMissing { name: name.to_owned() })),
    }
}

/// Account state as Alpaca reports it, mapped to domain values.
#[derive(Debug, Clone, PartialEq, Eq)]
pub struct AlpacaAccountStatus {
    pub account_id: String,
    pub status: String,
    pub options_approved_level: u8,
    pub options_trading_level: u8,
    pub trading_blocked: bool,
    pub equity: Price,
    pub buying_power: Option<Price>,
}

/// An order's state as Alpaca reports it, mapped to domain values.
#[derive(Debug, Clone, PartialEq, Eq)]
pub struct AlpacaOrderReport {
    pub order_id: String,
    pub status: String,
    pub filled_quantity: u32,
    pub fill_price: Option<Price>,
}

/// The fields of Alpaca's account reply that the library reads.
#[derive(Debug, Clone, PartialEq, Eq)]
pub struct AlpacaAccountResponse {
    pub id: Option<String>,
    pub account_number: Option<String>,
    pub status: String,
    pub options_approved_level: Option<u8>,
    pub options_trading_level: Option<u8>,
    pub trading_blocked: bool,
    pub equity: String,
    pub buying_power: Option<String>,
}

/// The fields of Alpaca's order reply that the library reads.
#[derive(Debug, Clone, PartialEq, Eq)]
pub struct AlpacaOrderResponse {
    pub id: String,
    pub status: String,
    pub filled_qty: Option<String>,
    pub filled_avg_price: Option<String>,
}

/// The fields of Alpaca's option contract reply that the library reads.
#[derive(Debug, Clone, PartialEq, Eq)]
pub struct AlpacaContractResponse {
    pub symbol: String,
    pub underlying_symbol: String,
    pub expiration_date: String,
    pub strike_price: String,
    pub option_type: String,
}

/// The order body sent to Alpaca.
#[derive(Debug, Clone, PartialEq, Eq)]
pub struct AlpacaOrderRequest {
    pub symbol: String,
    pub qty: String,
    pub side: String,
    pub order_type: String,
    pub time_in_force: String,
    pub limit_price: Option<String>,
}

/// `f` cut to its first six scalars and right-padded with `0` to six.
pub open spec fn spec_fraction6(f: Seq<char>) -> Seq<char> {
    let t = if f.len() > 6 {
        f.subrange(0, 6)
    } else {
        f
    };
    t + zeros((6 - t.len()) as nat)
}

/// The overflow failure for a value on the given side of the range.
pub open spec fn spec_overflow(negative: bool) -> IntParseError {
    if negative {
        IntParseError::NegOverflow
    } else {
        IntParseError::PosOverflow
    }
}

/// Whether `v` fits in an `i64`.
pub open spec fn fits_i64(v: int) -> bool {
    i64::MIN <= v <= i64::MAX
}

/// The amount in micro-units that a decimal amount such as `12.34`
/// denotes: whole units, then at most six fraction digits (further digits
/// are dropped); or why it is not one.
pub open spec fn spec_decimal_micros(s: Seq<char>) -> Result<int, IntParseError> {
    let t = trim_seq(s);
    match index_of_from(t, '.', 0) {
        None => match spec_parse_int(t, true, i64::MIN as int, i64::MAX as int) {
            Ok(u) => if fits_i64(u * 1_000_000) {
                Ok(u * 1_000_000)
            } else {
                Err(spec_overflow(u < 0))
            },
            Err(e) => Err(e),
        },
        Some(k) => match spec_parse_int(t.subrange(0, k), true, i64::MIN as int, i64::MAX as int) {
            Err(e) => Err(e),
            Ok(d) => match spec_parse_int(
                spec_fraction6(t.subrange(k + 1, t.len() as int)),
                true,
                i64::MIN as int,
                i64::MAX as int,
            ) {
                Err(e) => Err(e),
                Ok(m) => if !fits_i64(d * 1_000_000) {
                    Err(spec_overflow(d < 0))
                } else if !fits_i64(d * 1_000_000 + m) {
                    Err(spec_overflow(d * 1_000_000 + m < 0))
                } else {
                    Ok(d * 1_000_000 + m)
                },
            },
        },
    }
}

/// Whether `r` is what parsing the decimal amount `s` into a price gives:
/// the price, a domain error for a non-positive amount, or an input error
/// at `alpaca-decimal` naming the parse failure.
pub open spec fn spec_parsed_price(s: Seq<char>, r: Result<Price, AppError>) -> bool {
    match spec_decimal_micros(s) {
        Ok(m) => if m > 0 {
            r matches Ok(p) && p.spec_micros() == m
        } else {
            r matches Err(AppError::Domain(DomainError::InvalidPrice { value_micros })) && value_micros
                == m
        },
        Err(e) => (r matches Err(AppError::Input(InputError::Invalid { path, detail })) && path@
            == "alpaca-decimal"@ && detail@ == "invalid decimal amount: "@ + e.spec_description()),
    }
}

fn decimal_error(e: IntParseError) -> (r: AppError)
    ensures
        r matches AppError::Input(InputError::Invalid { path, detail }) && path@ == "alpaca-decimal"@
            && detail@ == "invalid decimal amount: "@ + e.spec_description(),
{
    let mut detail = "invalid decimal amount: ".to_owned();
    detail.append(e.description());
    AppError::Input(InputError::Invalid { path: "alpaca-decimal".to_owned(), detail })
}

fn price_of(m: i64) -> (r: Result<Price, AppError>)
    ensures
        m > 0 ==> (r matches Ok(p) && p.spec_micros() == m),
        m <= 0 ==> (r matches Err(AppError::Domain(DomainError::InvalidPrice { value_micros }))
            && value_micros == m),
{
    match Price::from_micros(m) {
        Ok(p) => Ok(p),
        Err(e) => Err(AppError::Domain(e)),
    }
}

fn fraction6(v: &Vec<char>, lo: usize) -> (r: String)
    requires
        lo <= v@.len(),
    ensures
        r@ == spec_fraction6(v@.subrange(lo as int, v@.len() as int)),
{
    let n = v.len();
    let hi = if n - lo > 6 {
        lo + 6
    } else {
        n
    };
    let mut f = string_of_range(v, lo, hi);
    let mut k: usize = hi - lo;
    let ghost f0 = f@;
    proof {
        let full = v@.subrange(lo as int, n as int);
        if full.len() > 6 {
            assert(full.subrange(0, 6) =~= f0);
        } else {
            assert(full =~= f0);
        }
    }
    while k < 6
        invariant
            k <= 6,
            hi - lo <= 6,
            f0.len() == hi - lo,
            hi - lo <= k,
            f@ == f0 + zeros((k - (hi - lo)) as nat),
        decreases 6 - k,
    {
        f.append("0");
        proof {
            reveal_strlit("0");
        }
        k = k + 1;
        assert(f@ =~= f0 + zeros((k - (hi - lo)) as nat));
    }
    assert(f@ =~= spec_fraction6(v@.subrange(lo as int, v@.len() as int)));
    f
}

/// Parses a decimal amount such as `12.34` into a price in micro-units.
pub fn parse_decimal_micros(value: &str) -> (r: Result<Price, AppError>)
    ensures
        spec_parsed_price(value@, r),
{
    let trimmed = trim(value);
    let v = chars_of(trimmed.as_str());
    let n = v.len();
    match find_char_from(&v, '.', 0) {
        None => {
            let units = match parse_i64(trimmed.as_str()) {
                Ok(u) => u,
                Err(e) => return Err(decimal_error(e)),
            };
            let product = units as i128 * 1_000_000;
            if product < i64::MIN as i128 || product > i64::MAX as i128 {
                return Err(decimal_error(if units < 0 {
                    IntParseError::NegOverflow
                } else {
                    IntParseError::PosOverflow
                }));
            }
            price_of(product as i64)
        },
        Some(k) => {
            proof {
                lemma_index_of_from(v@, '.', 0);
            }
            let whole = string_of_range(&v, 0, k);
            let dollars = match parse_i64(whole.as_str()) {
                Ok(d) => d,
                Err(e) => return Err(decimal_error(e)),
            };
            let fraction = fraction6(&v, k + 1);
            let micros = match parse_i64(fraction.as_str()) {
                Ok(m) => m,
                Err(e) => return Err(decimal_error(e)),
            };
            let scaled = dollars as i128 * 1_000_000;
            if scaled < i64::MIN as i128 || scaled > i64::MAX as i128 {
                return Err(decimal_error(if dollars < 0 {
                    IntParseError::NegOverflow
                } else {
                    IntParseError::PosOverflow
                }));
            }
            let total = scaled + micros as i128;
            if total < i64::MIN as i128 || total > i64::MAX as i128 {
                return Err(decimal_error(if total < 0 {
                    IntParseError::NegOverflow
                } else {
                    IntParseError::PosOverflow
                }));
            }
            price_of(total as i64)
        },
    }
}

/// `price` as whole units, a dot and six fraction digits, e.g. `1.250000`.
pub open spec fn spec_format_price(micros: int) -> Seq<char> {
    dec_seq((micros / 1_000_000) as nat) + "."@ + zero_pad(dec_seq((micros % 1_000_000) as nat), 6)
}

/// `price` as whole units, a dot and six fraction digits, e.g. `1.250000`.
pub fn format_price(price: Price) -> (r: String)
    ensures
        r@ == spec_format_price(price.spec_micros() as int),
{
    let m = price.micros();
    let mut s = String::new();
    push_u64_dec(&mut s, (m / 1_000_000) as u64);
    s.append(".");
    push_u64_padded(&mut s, (m % 1_000_000) as u64, 6);
    assert(s@ =~= spec_format_price(m as int));
    s
}


/// The three `-`-separated parts of `s`, when `s` has exactly two dashes.
pub open spec fn spec_date_parts(s: Seq<char>) -> Option<(Seq<char>, Seq<char>, Seq<char>)> {
    match index_of_from(s, '-', 0) {
        None => None,
        Some(k1) => match index_of_from(s, '-', k1 + 1) {
            None => None,
            Some(k2) => match index_of_from(s, '-', k2 + 1) {
                Some(_) => None,
                None => Some((s.subrange(0, k1), s.subrange(k1 + 1, k2), s.subrange(k2 + 1, s.len() as int))),
            },
        },
    }
}

/// Whether `e` is an input error at `alpaca-date` with the given detail.
pub open spec fn spec_date_error(e: AppError, detail: Seq<char>) -> bool {
    e matches AppError::Input(InputError::Invalid { path, detail: d }) && path@ == "alpaca-date"@
        && d@ == detail
}

/// What parsing `yyyy-mm-dd` gives: the date, or the first failure among
/// the shape, the year, the month, the day and the calendar check.
pub open spec fn spec_parsed_date(s: Seq<char>, r: Result<CalendarDate, AppError>) -> bool {
    match spec_date_parts(s) {
        None => (r matches Err(e) && spec_date_error(e, "expected yyyy-mm-dd"@)),
        Some((ys, ms, ds)) => match spec_parse_int(ys, false, 0, u16::MAX as int) {
            Err(e) => (r matches Err(x) && spec_date_error(x, "invalid year: "@ + e.spec_description())),
            Ok(y) => match spec_parse_int(ms, false, 0, u8::MAX as int) {
                Err(e) => (r matches Err(x) && spec_date_error(
                    x,
                    "invalid month: "@ + e.spec_description(),
                )),
                Ok(m) => match spec_parse_int(ds, false, 0, u8::MAX as int) {
                    Err(e) => (r matches Err(x) && spec_date_error(
                        x,
                        "invalid day: "@ + e.spec_description(),
                    )),
                    Ok(d) => if crate::domain::instrument::spec_is_valid_date(
                        y as u16,
                        m as u8,
                        d as u8,
                    ) {
                        r == Ok::<CalendarDate, AppError>(
                            CalendarDate { year: y as u16, month: m as u8, day: d as u8 },
                        )
                    } else {
                        r matches Err(AppError::Domain(DomainError::InvalidDate { .. }))
                    },
                },
            },
        },
    }
}

fn date_error(prefix: &str, e: IntParseError) -> (r: AppError)
    ensures
        spec_date_error(r, prefix@ + e.spec_description()),
{
    let mut detail = prefix.to_owned();
    detail.append(e.description());
    AppError::Input(InputError::Invalid { path: "alpaca-date".to_owned(), detail })
}

/// Parses a `yyyy-mm-dd` date.
pub fn parse_date(value: &str) -> (r: Result<CalendarDate, AppError>)
    ensures
        spec_parsed_date(value@, r),
{
    let v = chars_of(value);
    let n = v.len();
    let shape_error = invalid_input("alpaca-date", "expected yyyy-mm-dd");
    let k1 = match find_char_from(&v, '-', 0) {
        Some(k) => k,
        None => return Err(shape_error),
    };
    proof {
        lemma_index_of_from(v@, '-', 0);
    }
    let k2 = match find_char_from(&v, '-', k1 + 1) {
        Some(k) => k,
        None => return Err(shape_error),
    };
    proof {
        lemma_index_of_from(v@, '-', k1 + 1);
    }
    if find_char_from(&v, '-', k2 + 1).is_some() {
        return Err(shape_error);
    }
    let ys = string_of_range(&v, 0, k1);
    let ms = string_of_range(&v, k1 + 1, k2);
    let ds = string_of_range(&v, k2 + 1, n);
    let year = match parse_unsigned(ys.as_str(), 65535) {
        Ok(y) => y as u16,
        Err(e) => return Err(date_error("invalid year: ", e)),
    };
    let month = match parse_unsigned(ms.as_str(), 255) {
        Ok(m) => m as u8,
        Err(e) => return Err(date_error("invalid month: ", e)),
    };
    let day = match parse_unsigned(ds.as_str(), 255) {
        Ok(d) => d as u8,
        Err(e) => return Err(date_error("invalid day: ", e)),
    };
    match CalendarDate::new(year, month, day) {
        Ok(d) => Ok(d),
        Err(e) => Err(AppError::Domain(e)),
    }
}

impl AlpacaAccountResponse {
    /// The account id: `id`, else `account_number`, else `alpaca-account`.
    pub open spec fn spec_account_id(&self) -> Seq<char> {
        match self.id {
            Some(i) => i@,
            None => match self.account_number {
                Some(a) => a@,
                None => "alpaca-account"@,
            },
        }
    }

    /// Maps the reply to an account status; missing option levels count as
    /// 0, and the equity and buying power must be valid decimal amounts.
    pub fn to_status(&self) -> (r: Result<AlpacaAccountStatus, AppError>)
        ensures
            match r {
                Ok(st) => {
                    &&& st.account_id@ == self.spec_account_id()
                    &&& st.status@ == self.status@
                    &&& st.options_approved_level == match self.options_approved_level {
                        Some(l) => l,
                        None => 0u8,
                    }
                    &&& st.options_trading_level == match self.options_trading_level {
                        Some(l) => l,
                        None => 0u8,
                    }
                    &&& st.trading_blocked == self.trading_blocked
                    &&& spec_parsed_price(self.equity@, Ok(st.equity))
                    &&& match self.buying_power {
                        Some(b) => st.buying_power matches Some(p) && spec_parsed_price(b@, Ok(p)),
                        None => st.buying_power is None,
                    }
                },
                Err(e) => {
                    ||| spec_parsed_price(self.equity@, Err(e))
                    ||| (exists|p: Price| spec_parsed_price(self.equity@, Ok(p))) && (
                    self.buying_power matches Some(b) && spec_parsed_price(b@, Err(e)))
                },
            },
    {
        let account_id = match &self.id {
            Some(i) => i.clone(),
            None => match &self.account_number {
                Some(a) => a.clone(),
                None => "alpaca-account".to_owned(),
            },
        };
        let equity = parse_decimal_micros(self.equity.as_str())?;
        let buying_power = match &self.buying_power {
            Some(b) => Some(parse_decimal_micros(b.as_str())?),
            None => None,
        };
        Ok(
            AlpacaAccountStatus {
                account_id,
                status: self.status.clone(),
                options_approved_level: match self.options_approved_level {
                    Some(l) => l,
                    None => 0,
                },
                options_trading_level: match self.options_trading_level {
                    Some(l) => l,
                    None => 0,
                },
                trading_blocked: self.trading_blocked,
                equity,
                buying_power,
            },
        )
    }
}

impl AlpacaOrderResponse {
    /// The filled quantity: `filled_qty` (or `0` when absent) read as a
    /// count, or 0 when it is not one.
    pub open spec fn spec_filled_quantity(&self) -> u32 {
        let text = match self.filled_qty {
            Some(q) => q@,
            None => "0"@,
        };
        match spec_parse_int(text, false, 0, u32::MAX as int) {
            Ok(v) => v as u32,
            Err(_) => 0,
        }
    }

    /// Maps the reply to an order report; the average fill price, when
    /// present, must be a valid decimal amount.
    pub fn to_report(&self) -> (r: Result<AlpacaOrderReport, AppError>)
        ensures
            match r {
                Ok(rep) => {
                    &&& rep.order_id@ == self.id@
                    &&& rep.status@ == self.status@
                    &&& rep.filled_quantity == self.spec_filled_quantity()
                    &&& match self.filled_avg_price {
                        Some(f) => rep.fill_price matches Some(p) && spec_parsed_price(f@, Ok(p)),
                        None => rep.fill_price is None,
                    }
                },
                Err(e) => self.filled_avg_price matches Some(f) && spec_parsed_price(f@, Err(e)),
            },
    {
        let text = match &self.filled_qty {
            Some(q) => q.clone(),
            None => "0".to_owned(),
        };
        let filled_quantity: u32 = match parse_unsigned(text.as_str(), 4294967295) {
            Ok(v) => v as u32,
            Err(_) => 0,
        };
        let fill_price = match &self.filled_avg_price {
            Some(f) => Some(parse_decimal_micros(f.as_str())?),
            None => None,
        };
        Ok(
            AlpacaOrderReport {
                order_id: self.id.clone(),
                status: self.status.clone(),
                filled_quantity,
                fill_price,
            },
        )
    }
}

impl AlpacaContractResponse {
    /// The option kind named by `option_type`, ignoring ASCII case.
    pub open spec fn spec_kind(&self) -> Option<OptionKind> {
        let t = ascii_lower_seq(self.option_type@);
        if t == "call"@ {
            Some(OptionKind::Call)
        } else if t == "put"@ {
            Some(OptionKind::Put)
        } else {
            None
        }
    }

    /// Maps the reply to a domain contract valued as of `as_of`: the
    /// expiration must parse, the type must be `call` or `put`, the strike
    /// must be a valid decimal amount, and the contract must be valid, in
    /// that order.
    pub fn to_contract(&self, as_of: CalendarDate) -> (r: Result<OptionContract, AppError>)
        ensures
            match r {
                Ok(c) => {
                    &&& spec_parsed_date(self.expiration_date@, Ok(c.expiration))
                    &&& self.spec_kind() == Some(c.kind)
                    &&& spec_parsed_price(self.strike_price@, Ok(c.strike))
                    &&& c.symbol@ == trim_seq(self.symbol@)
                    &&& c.underlying@ == trim_seq(self.underlying_symbol@)
                    &&& !c.expiration.spec_on_or_before(as_of)
                    &&& c.venue_id is None
                },
                Err(e) => {
                    ||| spec_parsed_date(self.expiration_date@, Err(e))
                    ||| (self.spec_kind() is None && (e matches AppError::Input(
                        InputError::Invalid { path, detail },
                    ) && path@ == "alpaca-contract"@ && detail@ == "unknown option contract type"@))
                    ||| spec_parsed_price(self.strike_price@, Err(e))
                    ||| e is Domain
                },
            },
    {
        let expiration = parse_date(self.expiration_date.as_str())?;
        let lowered = to_ascii_lower(self.option_type.as_str());
        let kind = if str_eq(lowered.as_str(), "call") {
            OptionKind::Call
        } else if str_eq(lowered.as_str(), "put") {
            OptionKind::Put
        } else {
            return Err(invalid_input("alpaca-contract", "unknown option contract type"));
        };
        let strike = parse_decimal_micros(self.strike_price.as_str())?;
        match OptionContract::new(
            self.symbol.as_str(),
            self.underlying_symbol.as_str(),
            expiration,
            strike,
            kind,
            None,
            as_of,
        ) {
            Ok(c) => Ok(c),
            Err(e) => Err(AppError::Domain(e)),
        }
    }
}

/// The order body for `intent`: a day order to buy `qty` contracts of the
/// contract's symbol, of the intent's type, with its limit price when it has
/// one. Only buys are allowed.
pub fn preview_order(intent: &OrderIntent) -> (r: Result<AlpacaOrderRequest, AppError>)
    ensures
        match r {
            Ok(req) => {
                &&& intent.side == OrderSide::Buy
                &&& req.symbol@ == intent.contract.symbol@
                &&& req.qty@ == dec_seq(intent.quantity.spec_get() as nat)
                &&& req.side@ == "buy"@
                &&& req.order_type@ == match intent.order_type {
                    OrderType::Market => "market"@,
                    OrderType::Limit => "limit"@,
                }
                &&& req.time_in_force@ == "day"@
                &&& match intent.limit_price {
                    Some(p) => req.limit_price matches Some(l) && l@ == spec_format_price(
                        p.spec_micros() as int,
                    ),
                    None => req.limit_price is None,
                }
            },
            Err(e) => intent.side == OrderSide::Sell && (e matches AppError::Input(
                InputError::Invalid { path, detail },
            ) && path@ == "alpaca-order"@ && detail@
                == "first live release allows long calls and puts only"@),
        },
{
    if intent.side != OrderSide::Buy {
        return Err(
            invalid_input("alpaca-order", "first live release allows long calls and puts only"),
        );
    }
    let order_type = match intent.order_type {
        OrderType::Market => "market",
        OrderType::Limit => "limit",
    };
    let limit_price = match intent.limit_price {
        Some(p) => Some(format_price(p)),
        None => None,
    };
    let mut qty = String::new();
    push_u64_dec(&mut qty, intent.quantity.get() as u64);
    assert(qty@ =~= dec_seq(intent.quantity.spec_get() as nat));
    Ok(
        AlpacaOrderRequest {
            symbol: intent.contract.symbol.clone(),
            qty,
            side: "buy".to_owned(),
            order_type: order_type.to_owned(),
            time_in_force: "day".to_owned(),
            limit_price,
        },
    )
}

/// The account snapshot an account status describes: its id, equity and
/// buying power as available cash, no daily loss and no positions.
pub fn account_snapshot_from_status(status: &AlpacaAccountStatus) -> (r: Result<
    AccountSnapshot,
    AppError,
>)
    ensures
        trim_seq(status.account_id@).len() == 0 ==> (r matches Err(AppError::Domain(
            DomainError::EmptyField { field },
        )) && field@ == "account_id"@),
        trim_seq(status.account_id@).len() > 0 ==> (r matches Ok(a) && a.account_id@ == trim_seq(
            status.account_id@,
        ) && a.equity == status.equity && a.available_cash == status.buying_power
            && a.daily_loss_bps == 0 && a.positions@.len() == 0),
{
    match AccountSnapshot::new(
        status.account_id.as_str(),
        status.equity,
        status.buying_power,
        0,
        Vec::new(),
    ) {
        Ok(a) => Ok(a),
        Err(e) => Err(AppError::Domain(e)),
    }
}

/// Formatting an amount as Alpaca's decimal text and parsing that text
/// back gives the same amount: `parse_decimal_micros(format_price(p))`
/// is `p`.
pub proof fn lemma_format_then_parse(micros: int)
    requires
        0 < micros <= i64::MAX,
    ensures
        spec_decimal_micros(spec_format_price(micros)) == Ok::<int, IntParseError>(micros),
        forall|r: Result<Price, AppError>|
            spec_parsed_price(spec_format_price(micros), r) ==> (r matches Ok(p) && p.spec_micros()
                == micros),
{
    let q = (micros / 1_000_000) as nat;
    let rem = (micros % 1_000_000) as nat;
    let a = dec_seq(q);
    let f = zero_pad(dec_seq(rem), 6);
    reveal_strlit(".");
    let s = a + "."@ + f;
    assert(s =~= spec_format_price(micros));
    lemma_dec_seq_value(q);
    lemma_dec_seq_value(rem);
    assert(pow10(6) == 1_000_000) by {
        reveal_with_fuel(pow10, 7);
    }
    lemma_dec_seq_len_bound(rem, 6);
    lemma_zero_pad_value(dec_seq(rem), 6);
    assert(f.len() == 6);
    assert(is_digit(a[0]));
    assert(is_digit(f[5]));
    assert(s[0] == a[0]);
    assert(s.last() == f[5]);
    lemma_trim_noop(s);
    assert forall|j: int| 0 <= j < a.len() implies s[j] != '.' by {
        assert(s[j] == a[j]);
        assert(is_digit(a[j]));
    }
    assert(s[a.len() as int] == '.');
    lemma_index_of_from_at(s, '.', 0, a.len() as int);
    assert(s.subrange(0, a.len() as int) =~= a);
    assert(s.subrange(a.len() as int + 1, s.len() as int) =~= f);
    assert(spec_fraction6(f) =~= f);
    assert(is_digit(f[0]));
    assert(spec_parse_int(a, true, i64::MIN as int, i64::MAX as int) == Ok::<int, IntParseError>(
        q as int,
    ));
    assert(spec_parse_int(f, true, i64::MIN as int, i64::MAX as int) == Ok::<int, IntParseError>(
        rem as int,
    ));
    assert(q * 1_000_000 + rem == micros);
}

/// `url` without its trailing slashes.
pub open spec fn spec_trim_slashes(url: Seq<char>) -> Seq<char>
    decreases url.len(),
{
    if url.len() > 0 && url.last() == '/' {
        spec_trim_slashes(url.drop_last())
    } else {
        url
    }
}

/// The base URL requests are built on: `url` without trailing slashes.
pub fn normalize_base_url(url: &str) -> (r: String)
    ensures
        r@ == spec_trim_slashes(url@),
{
    let v = chars_of(url);
    let mut end: usize = v.len();
    assert(v@.subrange(0, end as int) =~= v@);
    while end > 0 && v[end - 1] == '/'
        invariant
            end <= v@.len(),
            v@ == url@,
            spec_trim_slashes(url@) == spec_trim_slashes(v@.subrange(0, end as int)),
        decreases end,
    {
        proof {
            assert(v@.subrange(0, end as int).drop_last() =~= v@.subrange(0, end - 1));
        }
        end = end - 1;
    }
    string_of_range(&v, 0, end)
}

/// The account endpoint under `base`.
pub fn account_url(base: &str) -> (r: String)
    ensures
        r@ == base@ + "/v2/account"@,
{
    let mut s = base.to_owned();
    s.append("/v2/account");
    s
}

/// The endpoint of the option contract `symbol` under `base`.
pub fn contract_url(base: &str, symbol: &str) -> (r: String)
    ensures
        r@ == base@ + "/v2/options/contracts/"@ + symbol@,
{
    let mut s = base.to_owned();
    s.append("/v2/options/contracts/");
    s.append(symbol);
    s
}

/// The orders endpoint under `base`.
pub fn orders_url(base: &str) -> (r: String)
    ensures
        r@ == base@ + "/v2/orders"@,
{
    let mut s = base.to_owned();
    s.append("/v2/orders");
    s
}

/// The endpoint of the order `order_id` under `base`.
pub fn order_url(base: &str, order_id: &str) -> (r: String)
    ensures
        r@ == base@ + "/v2/orders/"@ + order_id@,
{
    let mut s = base.to_owned();
    s.append("/v2/orders/");
    s.append(order_id);
    s
}

/// The error for a failed broker request; `detail` is the transport's
/// own account, which never holds the credentials.
pub fn http_error(operation: &str, detail: &str) -> (r: AppError)
    ensures
        r matches AppError::Input(InputError::Invalid { path, detail: d }) && path@
            == "alpaca-http"@ && d@ == "Alpaca "@ + operation@
            + " failed without exposing credentials: "@ + detail@,
{
    let mut d = "Alpaca ".to_owned();
    d.append(operation);
    d.append(" failed without exposing credentials: ");
    d.append(detail);
    invalid_input("alpaca-http", d.as_str())
}

/// The error for a credential that cannot travel in a header; `secret`
/// says which of the two it was.
pub fn auth_header_error(secret: bool, detail: &str) -> (r: AppError)
    ensures
        r matches AppError::Input(InputError::Invalid { path, detail: d }) && path@
            == "alpaca-auth"@ && d@ == (if secret {
            "invalid API secret header: "@
        } else {
            "invalid API key header: "@
        }) + detail@,
{
    let mut d = if secret {
        "invalid API secret header: ".to_owned()
    } else {
        "invalid API key header: ".to_owned()
    };
    d.append(detail);
    invalid_input("alpaca-auth", d.as_str())
}

/// What submitting `intent` live reports, from the broker's answer.
pub fn live_execution_report(intent: &OrderIntent, report: &AlpacaOrderReport) -> (r: ExecutionReport)
    ensures
        r.mode == ExecutionMode::Live,
        r.status == ExecutionStatus::LiveSubmitted,
        r.intent_id@ == intent.id@,
        r.filled_quantity == report.filled_quantity,
        r.fill_price == report.fill_price,
{
    ExecutionReport {
        mode: ExecutionMode::Live,
        status: ExecutionStatus::LiveSubmitted,
        intent_id: intent.id.clone(),
        filled_quantity: report.filled_quantity,
        fill_price: report.fill_price,
    }
}

} // verus!
