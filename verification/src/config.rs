//! Application configuration, its live-trading contract, and the stable
//! hash that ties approvals to a configuration.

use vstd::prelude::*;
use vstd::string::*;
use vstd::utf8::*;
use crate::domain::{PercentBps, RiskLimits};
use crate::errors::{AppError, DomainError, InputError, SecurityError};
use crate::risk::{authorize_execution, spec_authorization, ExecutionGates};
use crate::text::{dec_seq, hex_seq, push_hex, push_u64_dec, str_eq, trim, trim_seq};

pub use crate::domain::TradingMode;

verus! {

/// Which market data and broker adapters to use.
#[derive(Debug, Clone, Copy, PartialEq, Eq, Structural)]
pub enum Provider {
    Fixture,
    Alpaca,
}

impl Default for Provider {
    fn default() -> (r: Self)
        ensures
            r == Provider::Fixture,
    {
        Provider::Fixture
    }
}

impl Provider {
    /// The lower-case name of the provider.
    pub open spec fn spec_name(self) -> Seq<char> {
        match self {
            Provider::Fixture => "fixture"@,
            Provider::Alpaca => "alpaca"@,
        }
    }

    /// The lower-case name of the provider, as it is displayed.
    pub fn as_str(self) -> (r: &'static str)
        ensures
            r@ == self.spec_name(),
    {
        match self {
            Provider::Fixture => "fixture",
            Provider::Alpaca => "alpaca",
        }
    }
}

/// Which broker environment the provider talks to.
#[derive(Debug, Clone, Copy, PartialEq, Eq, Structural)]
pub enum ProviderEnvironment {
    Paper,
    Sandbox,
    Live,
}

impl Default for ProviderEnvironment {
    fn default() -> (r: Self)
        ensures
            r == ProviderEnvironment::Paper,
    {
        ProviderEnvironment::Paper
    }
}

impl ProviderEnvironment {
    /// The lower-case name of the environment.
    pub open spec fn spec_name(self) -> Seq<char> {
        match self {
            ProviderEnvironment::Paper => "paper"@,
            ProviderEnvironment::Sandbox => "sandbox"@,
            ProviderEnvironment::Live => "live"@,
        }
    }

    /// The lower-case name of the environment, as it is displayed.
    pub fn as_str(self) -> (r: &'static str)
        ensures
            r@ == self.spec_name(),
    {
        match self {
            ProviderEnvironment::Paper => "paper",
            ProviderEnvironment::Sandbox => "sandbox",
            ProviderEnvironment::Live => "live",
        }
    }
}

/// The configuration file's contents; paths are kept as written.
#[derive(Debug, Clone, PartialEq, Eq)]
pub struct AppConfig {
    pub trading_mode: TradingMode,
    pub provider: Provider,
    pub provider_environment: ProviderEnvironment,
    pub strategy_id: String,
    pub risk_profile_id: String,
    pub max_account_risk_bps: Option<u32>,
    pub max_daily_loss_bps: Option<u32>,
    pub max_contracts_per_order: Option<u32>,
    pub kill_switch_file: Option<String>,
    pub approval_artifact: Option<String>,
    pub alpaca_base_url: Option<String>,
}

impl Default for AppConfig {
    /// Paper mode with fixture providers, the aggressive-growth strategy and
    /// risk profile, and nothing else set.
    fn default() -> (r: Self)
        ensures
            r.trading_mode == TradingMode::Paper,
            r.provider == Provider::Fixture,
            r.provider_environment == ProviderEnvironment::Paper,
            r.strategy_id@ == "aggressive-growth-v1"@,
            r.risk_profile_id@ == "aggressive-growth-risk-v1"@,
            r.max_account_risk_bps is None,
            r.max_daily_loss_bps is None,
            r.max_contracts_per_order is None,
            r.kill_switch_file is None,
            r.approval_artifact is None,
            r.alpaca_base_url is None,
    {
        AppConfig {
            trading_mode: TradingMode::Paper,
            provider: Provider::Fixture,
            provider_environment: ProviderEnvironment::Paper,
            strategy_id: "aggressive-growth-v1".to_owned(),
            risk_profile_id: "aggressive-growth-risk-v1".to_owned(),
            max_account_risk_bps: None,
            max_daily_loss_bps: None,
            max_contracts_per_order: None,
            kill_switch_file: None,
            approval_artifact: None,
            alpaca_base_url: None,
        }
    }
}

/// The process environment that live trading depends on: each variable's
/// value, or `None` when unset.
#[derive(Debug, Clone, PartialEq, Eq, Default)]
pub struct LiveEnvironment {
    /// `OPTIONCLAW_ENABLE_LIVE_TRADING`
    pub enable_live_trading: Option<String>,
    /// `OPTIONCLAW_ALPACA_API_KEY`
    pub alpaca_api_key: Option<String>,
    /// `OPTIONCLAW_ALPACA_API_SECRET`
    pub alpaca_api_secret: Option<String>,
}

/// Whether an optional secret is unset or blank.
pub open spec fn spec_blank(value: Option<String>) -> bool {
    match value {
        Some(v) => trim_seq(v@).len() == 0,
        None => true,
    }
}

fn is_blank(value: &Option<String>) -> (r: bool)
    ensures
        r == spec_blank(*value),
{
    match value {
        Some(v) => trim(v.as_str()).as_str().unicode_len() == 0,
        None => true,
    }
}

/// Whether `e` is the input error at `config` with the given detail.
pub open spec fn spec_config_input_error(e: AppError, detail: Seq<char>) -> bool {
    e matches AppError::Input(InputError::Invalid { path, detail: d }) && path@ == "config"@ && d@
        == detail
}

/// FNV-1a over `bytes`, continuing from `hash`.
pub open spec fn spec_fnv1a_from(hash: u64, bytes: Seq<u8>) -> u64
    decreases bytes.len(),
{
    if bytes.len() == 0 {
        hash
    } else {
        spec_fnv1a_from((hash ^ (bytes[0] as u64)).wrapping_mul(0x100000001b3u64), bytes.drop_first())
    }
}

/// The 64-bit FNV-1a hash of `bytes`.
pub open spec fn spec_fnv1a(bytes: Seq<u8>) -> u64 {
    spec_fnv1a_from(0xcbf29ce484222325u64, bytes)
}

/// The FNV-1a hash of the UTF-8 encoding of `input`, as 16 lower-case
/// hexadecimal digits.
pub open spec fn spec_stable_hex_hash(input: Seq<char>) -> Seq<char> {
    hex_seq(spec_fnv1a(encode_utf8(input)) as nat, 16)
}

proof fn lemma_fnv_split(hash: u64, bytes: Seq<u8>, i: int)
    requires
        0 <= i < bytes.len(),
    ensures
        spec_fnv1a_from(hash, bytes.subrange(0, i + 1)) == (spec_fnv1a_from(
            hash,
            bytes.subrange(0, i),
        ) ^ (bytes[i] as u64)).wrapping_mul(0x100000001b3u64),
    decreases i,
{
    let h1 = (hash ^ (bytes[0] as u64)).wrapping_mul(0x100000001b3u64);
    let rest = bytes.drop_first();
    let a = bytes.subrange(0, i + 1);
    assert(a[0] == bytes[0]);
    assert(spec_fnv1a_from(hash, a) == spec_fnv1a_from(h1, a.drop_first()));
    if i > 0 {
        lemma_fnv_split(h1, rest, i - 1);
        let b = bytes.subrange(0, i);
        assert(b[0] == bytes[0]);
        assert(spec_fnv1a_from(hash, b) == spec_fnv1a_from(h1, b.drop_first()));
        assert(a.drop_first() =~= rest.subrange(0, i));
        assert(b.drop_first() =~= rest.subrange(0, i - 1));
        assert(rest[i - 1] == bytes[i]);
    } else {
        assert(a.drop_first() =~= Seq::<u8>::empty());
        assert(bytes.subrange(0, 0) =~= Seq::<u8>::empty());
    }
}

/// A lower-case hexadecimal digit.
pub open spec fn is_lower_hex_digit(c: char) -> bool {
    (48 <= (c as u32) <= 57) || (97 <= (c as u32) <= 102)
}

proof fn lemma_hex_seq_digits(n: nat, k: nat)
    ensures
        hex_seq(n, k).len() == k,
        forall|i: int| 0 <= i < k ==> is_lower_hex_digit(#[trigger] hex_seq(n, k)[i]),
    decreases k,
{
    if k > 0 {
        lemma_hex_seq_digits(n / 16, (k - 1) as nat);
        let d = n % 16;
        let c = crate::text::hex_char(d);
        if d < 10 {
            assert(((48 + d) as u32) as char as u32 == 48 + d);
        } else {
            assert(((87 + d) as u32) as char as u32 == 87 + d);
        }
        assert(is_lower_hex_digit(c));
        let s = hex_seq(n, k);
        assert forall|i: int| 0 <= i < k implies is_lower_hex_digit(#[trigger] s[i]) by {
            if i < k - 1 {
                assert(s[i] == hex_seq(n / 16, (k - 1) as nat)[i]);
            } else {
                assert(s[i] == c);
            }
        }
    }
}

/// Every stable hash is 16 lower-case hexadecimal digits.
pub proof fn lemma_stable_hash_shape(input: Seq<char>)
    ensures
        spec_stable_hex_hash(input).len() == 16,
        forall|i: int| 0 <= i < 16 ==> is_lower_hex_digit(#[trigger] spec_stable_hex_hash(input)[i]),
{
    lemma_hex_seq_digits(spec_fnv1a(encode_utf8(input)) as nat, 16);
}

/// Multiplying by the FNV prime modulo 2^64 is undone by multiplying by
/// its inverse `0xce965057aff6957b`.
proof fn lemma_fnv_prime_inverse(x: u64)
    ensures
        x.wrapping_mul(0x100000001b3u64).wrapping_mul(0xce965057aff6957bu64) == x,
{
    let m: int = 0x10000000000000000;
    let p: int = 0x100000001b3;
    let q: int = 0xce965057aff6957b;
    let k: int = 887285111055;
    let xi = x as int;
    let y = x.wrapping_mul(0x100000001b3u64);
    assert(y as int == (xi * p) % m);
    assert(y.wrapping_mul(0xce965057aff6957bu64) as int == (y as int * q) % m);
    vstd::arithmetic::div_mod::lemma_mul_mod_noop_left(xi * p, q, m);
    vstd::arithmetic::mul::lemma_mul_is_associative(xi, p, q);
    assert(p * q == 1 + k * m);
    assert(xi * (1 + k * m) == m * (xi * k) + xi) by (nonlinear_arith);
    vstd::arithmetic::div_mod::lemma_mod_multiples_vanish(xi * k, xi, m);
    vstd::arithmetic::div_mod::lemma_small_mod(x as nat, m as nat);
}

/// Different values stay different when multiplied by the FNV prime
/// modulo 2^64.
proof fn lemma_fnv_prime_injective(x: u64, y: u64)
    requires
        x != y,
    ensures
        x.wrapping_mul(0x100000001b3u64) != y.wrapping_mul(0x100000001b3u64),
{
    lemma_fnv_prime_inverse(x);
    lemma_fnv_prime_inverse(y);
}

/// Whether `s1` and `s2` have the same length and differ at position `j`
/// alone.
pub open spec fn differ_only_at<T>(s1: Seq<T>, s2: Seq<T>, j: int) -> bool {
    &&& s1.len() == s2.len()
    &&& 0 <= j < s1.len()
    &&& s1[j] != s2[j]
    &&& forall|i: int| 0 <= i < s1.len() && i != j ==> s1[i] == s2[i]
}

/// FNV-1a keeps different running hashes different over the same bytes.
proof fn lemma_fnv_from_injective(h1: u64, h2: u64, bytes: Seq<u8>)
    requires
        h1 != h2,
    ensures
        spec_fnv1a_from(h1, bytes) != spec_fnv1a_from(h2, bytes),
    decreases bytes.len(),
{
    if bytes.len() > 0 {
        let b = bytes[0] as u64;
        assert((h1 ^ b) != (h2 ^ b)) by (bit_vector)
            requires
                h1 != h2,
        ;
        lemma_fnv_prime_injective(h1 ^ b, h2 ^ b);
        lemma_fnv_from_injective(
            (h1 ^ b).wrapping_mul(0x100000001b3u64),
            (h2 ^ b).wrapping_mul(0x100000001b3u64),
            bytes.drop_first(),
        );
    }
}

/// FNV-1a tells apart two byte strings of one length that differ in one
/// byte.
proof fn lemma_fnv_one_byte_apart(h: u64, s1: Seq<u8>, s2: Seq<u8>, j: int)
    requires
        differ_only_at(s1, s2, j),
    ensures
        spec_fnv1a_from(h, s1) != spec_fnv1a_from(h, s2),
    decreases j,
{
    let b1 = s1[0] as u64;
    let b2 = s2[0] as u64;
    if j == 0 {
        assert(b1 != b2);
        assert((h ^ b1) != (h ^ b2)) by (bit_vector)
            requires
                b1 != b2,
        ;
        lemma_fnv_prime_injective(h ^ b1, h ^ b2);
        assert forall|i: int| 0 <= i < s1.drop_first().len() implies s1.drop_first()[i]
            == s2.drop_first()[i] by {
            assert(s1[i + 1] == s2[i + 1]);
        }
        assert(s1.drop_first() =~= s2.drop_first());
        lemma_fnv_from_injective(
            (h ^ b1).wrapping_mul(0x100000001b3u64),
            (h ^ b2).wrapping_mul(0x100000001b3u64),
            s1.drop_first(),
        );
    } else {
        assert(s1[0] == s2[0]);
        let t1 = s1.drop_first();
        let t2 = s2.drop_first();
        assert forall|i: int| 0 <= i < t1.len() && i != j - 1 implies t1[i] == t2[i] by {
            assert(s1[i + 1] == s2[i + 1]);
        }
        assert(t1[j - 1] == s1[j] && t2[j - 1] == s2[j]);
        lemma_fnv_one_byte_apart((h ^ b1).wrapping_mul(0x100000001b3u64), t1, t2, j - 1);
    }
}

/// 16 to the power `k`.
pub open spec fn pow16(k: nat) -> nat
    decreases k,
{
    if k == 0 {
        1
    } else {
        16 * pow16((k - 1) as nat)
    }
}

proof fn lemma_hex_char_value(d: nat)
    requires
        d < 16,
    ensures
        crate::text::hex_char(d) as u32 == (if d < 10 {
            48 + d
        } else {
            87 + d
        }),
{
    if d < 10 {
        assert(((48 + d) as u32) as char as u32 == 48 + d);
    } else {
        assert(((87 + d) as u32) as char as u32 == 87 + d);
    }
}

/// `k` hexadecimal digits tell apart the numbers below 16^k.
proof fn lemma_hex_seq_injective(n: nat, m: nat, k: nat)
    requires
        n < pow16(k),
        m < pow16(k),
        hex_seq(n, k) == hex_seq(m, k),
    ensures
        n == m,
    decreases k,
{
    if k > 0 {
        let k1 = (k - 1) as nat;
        let a = hex_seq(n / 16, k1);
        let b = hex_seq(m / 16, k1);
        lemma_hex_seq_digits(n / 16, k1);
        lemma_hex_seq_digits(m / 16, k1);
        let sn = hex_seq(n, k);
        let sm = hex_seq(m, k);
        assert(sn[k1 as int] == crate::text::hex_char(n % 16));
        assert(sm[k1 as int] == crate::text::hex_char(m % 16));
        lemma_hex_char_value(n % 16);
        lemma_hex_char_value(m % 16);
        assert(n % 16 == m % 16);
        assert(sn.drop_last() =~= a);
        assert(sm.drop_last() =~= b);
        let p = pow16(k1);
        assert(n / 16 < p) by (nonlinear_arith)
            requires
                n < 16 * p,
        ;
        assert(m / 16 < p) by (nonlinear_arith)
            requires
                m < 16 * p,
        ;
        lemma_hex_seq_injective(n / 16, m / 16, k1);
        assert(n == 16 * (n / 16) + n % 16) by (nonlinear_arith);
        assert(m == 16 * (m / 16) + m % 16) by (nonlinear_arith);
    }
}

proof fn lemma_encode_utf8_concat(x: Seq<char>, y: Seq<char>)
    ensures
        encode_utf8(x + y) == encode_utf8(x) + encode_utf8(y),
    decreases x.len(),
{
    if x.len() == 0 {
        assert(x + y =~= y);
        assert(encode_utf8(x) + encode_utf8(y) =~= encode_utf8(y));
    } else {
        assert((x + y).drop_first() =~= x.drop_first() + y);
        assert((x + y)[0] == x[0]);
        lemma_encode_utf8_concat(x.drop_first(), y);
        let e0 = encode_scalar(x[0] as u32);
        assert(e0 + (encode_utf8(x.drop_first()) + encode_utf8(y)) =~= (e0 + encode_utf8(
            x.drop_first(),
        )) + encode_utf8(y));
    }
}

proof fn lemma_encode_ascii(c: char)
    requires
        (c as u32) <= 0x7f,
    ensures
        encode_utf8(seq![c]) == seq![((c as u32) & 0x7f) as u8],
{
    let u = c as u32;
    assert(seq![c].drop_first() =~= Seq::<char>::empty());
    assert(seq![c][0] == c);
    assert(encode_utf8(Seq::<char>::empty()) =~= Seq::<u8>::empty());
    assert(has_width_1_encoding(u));
    assert(encode_scalar(u) =~= seq![(u & 0x7f) as u8]);
    assert(encode_utf8(seq![c]) =~= encode_scalar(u) + encode_utf8(Seq::<char>::empty()));
}

/// Two texts of one length that differ in one ASCII character alone have
/// different stable hashes.
pub proof fn lemma_stable_hash_one_ascii_apart(s1: Seq<char>, s2: Seq<char>, j: int)
    requires
        differ_only_at(s1, s2, j),
        (s1[j] as u32) <= 0x7f,
        (s2[j] as u32) <= 0x7f,
    ensures
        spec_stable_hex_hash(s1) != spec_stable_hex_hash(s2),
{
    let pre = s1.subrange(0, j);
    let post = s1.subrange(j + 1, s1.len() as int);
    assert(pre =~= s2.subrange(0, j));
    assert(post =~= s2.subrange(j + 1, s2.len() as int));
    let c1 = s1[j];
    let c2 = s2[j];
    assert(s1 =~= pre + (seq![c1] + post));
    assert(s2 =~= pre + (seq![c2] + post));
    lemma_encode_utf8_concat(pre, seq![c1] + post);
    lemma_encode_utf8_concat(pre, seq![c2] + post);
    lemma_encode_utf8_concat(seq![c1], post);
    lemma_encode_utf8_concat(seq![c2], post);
    lemma_encode_ascii(c1);
    lemma_encode_ascii(c2);
    let u1 = c1 as u32;
    let u2 = c2 as u32;
    vstd::utf8::char_u32_cast(c1, u1);
    vstd::utf8::char_u32_cast(c2, u2);
    assert(u1 != u2);
    assert((u1 & 0x7f) as u8 != (u2 & 0x7f) as u8) by (bit_vector)
        requires
            u1 <= 0x7f,
            u2 <= 0x7f,
            u1 != u2,
    ;
    let ep = encode_utf8(pre);
    let eq = encode_utf8(post);
    let e1 = encode_utf8(s1);
    let e2 = encode_utf8(s2);
    assert(e1 =~= ep + (seq![(u1 & 0x7f) as u8] + eq));
    assert(e2 =~= ep + (seq![(u2 & 0x7f) as u8] + eq));
    let k = ep.len() as int;
    assert forall|i: int| 0 <= i < e1.len() && i != k implies e1[i] == e2[i] by {
        if i < k {
            assert(e1[i] == ep[i] && e2[i] == ep[i]);
        } else {
            assert(e1[i] == eq[i - k - 1] && e2[i] == eq[i - k - 1]);
        }
    }
    assert(differ_only_at(e1, e2, k));
    lemma_fnv_one_byte_apart(0xcbf29ce484222325u64, e1, e2, k);
    let f1 = spec_fnv1a(e1);
    let f2 = spec_fnv1a(e2);
    assert(pow16(16) == 0x10000000000000000) by {
        reveal_with_fuel(pow16, 17);
    }
    if spec_stable_hex_hash(s1) == spec_stable_hex_hash(s2) {
        lemma_hex_seq_injective(f1 as nat, f2 as nat, 16);
    }
}

/// The scalars of a decimal rendering are the digits `0`..`9`.
proof fn lemma_dec_seq_digits(n: nat)
    ensures
        forall|i: int| 0 <= i < dec_seq(n).len() ==> 48 <= #[trigger] (dec_seq(n)[i] as u32) <= 57,
    decreases n,
{
    let d = n % 10;
    assert(((48 + d) as u32) as char as u32 == 48 + d);
    if n < 10 {
        assert(((48 + n) as u32) as char as u32 == 48 + n);
    } else {
        lemma_dec_seq_digits(n / 10);
        let s = dec_seq(n);
        assert forall|i: int| 0 <= i < s.len() implies 48 <= #[trigger] (s[i] as u32) <= 57 by {
            if i < s.len() - 1 {
                assert(s[i] == dec_seq(n / 10)[i]);
            }
        }
    }
}

/// The FNV-1a hash of `input`'s UTF-8 bytes, as 16 lower-case hexadecimal
/// digits. The same input always gives the same text.
pub fn stable_hex_hash(input: &str) -> (r: String)
    ensures
        r@ == spec_stable_hex_hash(input@),
{
    let bytes = input.as_bytes();
    let mut hash: u64 = 0xcbf29ce484222325;
    let mut i: usize = 0;
    while i < bytes.len()
        invariant
            bytes@ == encode_utf8(input@),
            i <= bytes@.len(),
            hash == spec_fnv1a_from(0xcbf29ce484222325u64, bytes@.subrange(0, i as int)),
        decreases bytes@.len() - i,
    {
        proof {
            lemma_fnv_split(0xcbf29ce484222325u64, bytes@, i as int);
        }
        hash = (hash ^ (bytes[i] as u64)).wrapping_mul(0x100000001b3);
        i = i + 1;
    }
    assert(bytes@.subrange(0, bytes@.len() as int) =~= bytes@);
    let mut s = String::new();
    push_hex(&mut s, hash, 16);
    assert(s@ =~= spec_stable_hex_hash(input@));
    s
}

/// `Some(n)` or `None`, as `{:?}` renders an optional count.
pub open spec fn spec_debug_opt(v: Option<u32>) -> Seq<char> {
    match v {
        Some(n) => "Some("@ + dec_seq(n as nat) + ")"@,
        None => "None"@,
    }
}

fn push_debug_opt(s: &mut String, v: Option<u32>)
    ensures
        final(s)@ == old(s)@ + spec_debug_opt(v),
{
    match v {
        Some(n) => {
            s.append("Some(");
            push_u64_dec(s, n as u64);
            s.append(")");
        },
        None => {
            s.append("None");
        },
    }
    assert(final(s)@ =~= old(s)@ + spec_debug_opt(v));
}

impl AppConfig {
    /// The text whose hash identifies the risk-relevant configuration.
    pub open spec fn spec_hash_input(&self) -> Seq<char> {
        "provider="@ + self.provider.spec_name() + ";provider_environment="@
            + self.provider_environment.spec_name() + ";strategy_id="@ + self.strategy_id@
            + ";risk_profile_id="@ + self.risk_profile_id@ + ";max_account_risk_bps="@
            + spec_debug_opt(self.max_account_risk_bps) + ";max_daily_loss_bps="@ + spec_debug_opt(
            self.max_daily_loss_bps,
        ) + ";max_contracts_per_order="@ + spec_debug_opt(self.max_contracts_per_order)
    }

    /// The hash of the provider, environment, strategy, risk profile and
    /// risk caps; approvals are bound to it.
    pub fn approval_config_hash(&self) -> (r: String)
        ensures
            r@ == spec_stable_hex_hash(self.spec_hash_input()),
    {
        let mut input = String::new();
        input.append("provider=");
        input.append(self.provider.as_str());
        input.append(";provider_environment=");
        input.append(self.provider_environment.as_str());
        input.append(";strategy_id=");
        input.append(self.strategy_id.as_str());
        input.append(";risk_profile_id=");
        input.append(self.risk_profile_id.as_str());
        input.append(";max_account_risk_bps=");
        push_debug_opt(&mut input, self.max_account_risk_bps);
        input.append(";max_daily_loss_bps=");
        push_debug_opt(&mut input, self.max_daily_loss_bps);
        input.append(";max_contracts_per_order=");
        push_debug_opt(&mut input, self.max_contracts_per_order);
        assert(input@ =~= self.spec_hash_input());
        stable_hex_hash(input.as_str())
    }

    /// What `live_risk_limits` answers.
    pub open spec fn spec_live_risk_limits(&self, r: Result<RiskLimits, AppError>) -> bool {
        match (self.max_account_risk_bps, self.max_daily_loss_bps, self.max_contracts_per_order) {
            (None, _, _) => (r matches Err(e) && spec_config_input_error(
                e,
                "live mode requires max_account_risk_bps"@,
            )),
            (Some(_), None, _) => (r matches Err(e) && spec_config_input_error(
                e,
                "live mode requires max_daily_loss_bps"@,
            )),
            (Some(_), Some(_), None) => (r matches Err(e) && spec_config_input_error(
                e,
                "live mode requires max_contracts_per_order"@,
            )),
            (Some(a), Some(d), Some(c)) => if a > 10_000 {
                r matches Err(AppError::Domain(DomainError::InvalidPercent { value, .. })) && value
                    == a
            } else if d > 10_000 {
                r matches Err(AppError::Domain(DomainError::InvalidPercent { value, .. })) && value
                    == d
            } else if c == 0 {
                r matches Err(AppError::Domain(DomainError::InvalidQuantity { value })) && value
                    == 0
            } else {
                r matches Ok(l) && l.max_account_risk_bps.spec_bps() == a
                    && l.max_daily_loss_bps.spec_bps() == d && l.max_contracts_per_order == c
                    && l.allow_live
            },
        }
    }

    /// A cap that live mode needs: its value, or the input error that names
    /// it.
    fn required_bps(&self, name: &str, value: Option<u32>) -> (r: Result<u32, AppError>)
        ensures
            match value {
                Some(v) => r == Ok::<u32, AppError>(v),
                None => r matches Err(e) && spec_config_input_error(e, "live mode requires "@ + name@),
            },
    {
        match value {
            Some(v) => Ok(v),
            None => {
                let mut detail = "live mode requires ".to_owned();
                detail.append(name);
                Err(AppError::Input(InputError::Invalid { path: "config".to_owned(), detail }))
            },
        }
    }

    /// The risk limits that live mode runs under: every cap must be set and
    /// valid, and live trading is allowed.
    pub fn live_risk_limits(&self) -> (r: Result<RiskLimits, AppError>)
        ensures
            self.spec_live_risk_limits(r),
    {
        proof {
            reveal_strlit("live mode requires ");
            reveal_strlit("max_account_risk_bps");
            reveal_strlit("max_daily_loss_bps");
            reveal_strlit("live mode requires max_account_risk_bps");
            reveal_strlit("live mode requires max_daily_loss_bps");
            assert("live mode requires max_account_risk_bps"@ =~= "live mode requires "@
                + "max_account_risk_bps"@);
            assert("live mode requires max_daily_loss_bps"@ =~= "live mode requires "@
                + "max_daily_loss_bps"@);
        }
        let max_account_risk_bps = self.required_bps("max_account_risk_bps", self.max_account_risk_bps)?;
        let max_daily_loss_bps = self.required_bps("max_daily_loss_bps", self.max_daily_loss_bps)?;
        let max_contracts_per_order = match self.max_contracts_per_order {
            Some(v) => v,
            None => {
                return Err(
                    AppError::Input(
                        InputError::Invalid {
                            path: "config".to_owned(),
                            detail: "live mode requires max_contracts_per_order".to_owned(),
                        },
                    ),
                )
            },
        };
        let account = match PercentBps::from_bps(max_account_risk_bps) {
            Ok(p) => p,
            Err(e) => return Err(AppError::Domain(e)),
        };
        let daily = match PercentBps::from_bps(max_daily_loss_bps) {
            Ok(p) => p,
            Err(e) => return Err(AppError::Domain(e)),
        };
        match RiskLimits::new(account, daily, max_contracts_per_order, true) {
            Ok(l) => Ok(l),
            Err(e) => Err(AppError::Domain(e)),
        }
    }

    /// What `validate_live_contract` answers: live trading must be enabled
    /// by the environment, the provider must be Alpaca, both API secrets
    /// must be set, the risk caps must be valid, and an approval artifact
    /// must be configured; the first failing check is reported.
    pub open spec fn spec_live_contract(&self, env: LiveEnvironment, r: Result<(), AppError>) -> bool {
        if !(env.enable_live_trading matches Some(v) && v@ == "true"@) {
            r matches Err(AppError::Security(SecurityError::LiveTradingDisabled { mode })) && mode@
                == self.trading_mode.spec_name()
        } else if self.provider != Provider::Alpaca {
            r matches Err(e) && spec_config_input_error(e, "live mode requires provider = \"alpaca\""@)
        } else if spec_blank(env.alpaca_api_key) {
            r matches Err(AppError::Security(SecurityError::SecretMissing { name })) && name@
                == "OPTIONCLAW_ALPACA_API_KEY"@
        } else if spec_blank(env.alpaca_api_secret) {
            r matches Err(AppError::Security(SecurityError::SecretMissing { name })) && name@
                == "OPTIONCLAW_ALPACA_API_SECRET"@
        } else if !(exists|l: RiskLimits| self.spec_live_risk_limits(Ok(l))) {
            r is Err && (forall|e: AppError| r == Err::<(), AppError>(e) ==> self.spec_live_risk_limits(Err(e)))
        } else if self.approval_artifact is None {
            r matches Err(e) && spec_config_input_error(e, "live mode requires approval_artifact"@)
        } else {
            r is Ok
        }
    }

    /// Checks every precondition of live trading, in the order that
    /// `spec_live_contract` states.
    pub fn validate_live_contract(&self, env: &LiveEnvironment) -> (r: Result<(), AppError>)
        ensures
            self.spec_live_contract(*env, r),
            !(env.enable_live_trading matches Some(v) && v@ == "true"@) ==> (r matches Err(
                AppError::Security(SecurityError::LiveTradingDisabled { mode }),
            ) && mode@ == self.trading_mode.spec_name()),
            r is Ok ==> (env.enable_live_trading matches Some(v) && v@ == "true"@)
                && self.provider == Provider::Alpaca && !spec_blank(env.alpaca_api_key)
                && !spec_blank(env.alpaca_api_secret) && self.approval_artifact is Some,
    {
        let enabled = match &env.enable_live_trading {
            Some(v) => str_eq(v.as_str(), "true"),
            None => false,
        };
        if !enabled {
            return Err(
                AppError::Security(
                    SecurityError::LiveTradingDisabled { mode: self.trading_mode.to_display_string() },
                ),
            );
        }
        if self.provider != Provider::Alpaca {
            return Err(
                AppError::Input(
                    InputError::Invalid {
                        path: "config".to_owned(),
                        detail: "live mode requires provider = \"alpaca\"".to_owned(),
                    },
                ),
            );
        }
        if is_blank(&env.alpaca_api_key) {
            return Err(
                AppError::Security(
                    SecurityError::SecretMissing { name: "OPTIONCLAW_ALPACA_API_KEY".to_owned() },
                ),
            );
        }
        if is_blank(&env.alpaca_api_secret) {
            return Err(
                AppError::Security(
                    SecurityError::SecretMissing { name: "OPTIONCLAW_ALPACA_API_SECRET".to_owned() },
                ),
            );
        }
        let limits = self.live_risk_limits();
        match limits {
            Ok(_) => {},
            Err(e) => {
                proof {
                    assert(forall|l: RiskLimits| !self.spec_live_risk_limits(Ok(l)));
                }
                return Err(e);
            },
        }
        if self.approval_artifact.is_none() {
            return Err(
                AppError::Input(
                    InputError::Invalid {
                        path: "config".to_owned(),
                        detail: "live mode requires approval_artifact".to_owned(),
                    },
                ),
            );
        }
        Ok(())
    }

    /// What `validate_security` answers: paper and sandbox modes pass the
    /// default execution gates; live mode must meet the live contract.
    pub open spec fn spec_validate_security(&self, env: LiveEnvironment, r: Result<(), AppError>) -> bool {
        if self.trading_mode != TradingMode::Live {
            spec_authorization(self.trading_mode, ExecutionGates::spec_default(), r)
        } else {
            self.spec_live_contract(env, r)
        }
    }

    /// Checks the configuration against the security gates of its mode.
    pub fn validate_security(&self, env: &LiveEnvironment) -> (r: Result<(), AppError>)
        ensures
            self.spec_validate_security(*env, r),
            self.trading_mode != TradingMode::Live ==> r is Ok,
            self.trading_mode == TradingMode::Live && !(env.enable_live_trading matches Some(v) && v@
                == "true"@) ==> (r matches Err(
                AppError::Security(SecurityError::LiveTradingDisabled { .. }),
            )),
    {
        if self.trading_mode != TradingMode::Live {
            return authorize_execution(self.trading_mode, ExecutionGates::default());
        }
        self.validate_live_contract(env)
    }
}

/// The approval hash of a configuration depends only on its provider,
/// provider environment, strategy, risk profile and the three risk caps:
/// two configurations that agree on these have the same hash, whatever
/// their trading mode, kill-switch file, approval artifact or broker URL.
/// Every such hash is 16 lower-case hexadecimal digits.
pub proof fn lemma_config_hash_depends_on_risk_identity(a: AppConfig, b: AppConfig)
    requires
        a.provider == b.provider,
        a.provider_environment == b.provider_environment,
        a.strategy_id@ == b.strategy_id@,
        a.risk_profile_id@ == b.risk_profile_id@,
        a.max_account_risk_bps == b.max_account_risk_bps,
        a.max_daily_loss_bps == b.max_daily_loss_bps,
        a.max_contracts_per_order == b.max_contracts_per_order,
    ensures
        spec_stable_hex_hash(a.spec_hash_input()) == spec_stable_hex_hash(b.spec_hash_input()),
        spec_stable_hex_hash(a.spec_hash_input()).len() == 16,
        forall|i: int| 0 <= i < 16 ==> is_lower_hex_digit(
            #[trigger] spec_stable_hex_hash(a.spec_hash_input())[i],
        ),
{
    assert(a.spec_hash_input() =~= b.spec_hash_input());
    lemma_stable_hash_shape(a.spec_hash_input());
}

/// The approval hash of a configuration changes with its account-risk cap:
/// two configurations that agree on everything hashed but that cap, which
/// both set, to values written with the same number of digits that differ
/// in one digit (such as 100 and 200), have different hashes.
pub proof fn lemma_config_hash_tracks_account_risk(a: AppConfig, b: AppConfig, x: u32, y: u32, j: int)
    requires
        a.provider == b.provider,
        a.provider_environment == b.provider_environment,
        a.strategy_id@ == b.strategy_id@,
        a.risk_profile_id@ == b.risk_profile_id@,
        a.max_account_risk_bps == Some(x),
        b.max_account_risk_bps == Some(y),
        a.max_daily_loss_bps == b.max_daily_loss_bps,
        a.max_contracts_per_order == b.max_contracts_per_order,
        differ_only_at(dec_seq(x as nat), dec_seq(y as nat), j),
    ensures
        spec_stable_hex_hash(a.spec_hash_input()) != spec_stable_hex_hash(b.spec_hash_input()),
{
    let pre = "provider="@ + a.provider.spec_name() + ";provider_environment="@
        + a.provider_environment.spec_name() + ";strategy_id="@ + a.strategy_id@
        + ";risk_profile_id="@ + a.risk_profile_id@ + ";max_account_risk_bps="@ + "Some("@;
    let post = ")"@ + ";max_daily_loss_bps="@ + spec_debug_opt(a.max_daily_loss_bps)
        + ";max_contracts_per_order="@ + spec_debug_opt(a.max_contracts_per_order);
    let dx = dec_seq(x as nat);
    let dy = dec_seq(y as nat);
    let s1 = a.spec_hash_input();
    let s2 = b.spec_hash_input();
    assert(s1 =~= pre + (dx + post));
    assert(s2 =~= pre + (dy + post));
    let k = pre.len() + j;
    assert forall|i: int| 0 <= i < s1.len() && i != k implies s1[i] == s2[i] by {
        if i < pre.len() {
            assert(s1[i] == pre[i] && s2[i] == pre[i]);
        } else if i < pre.len() + dx.len() {
            assert(s1[i] == dx[i - pre.len()] && s2[i] == dy[i - pre.len()]);
        } else {
            assert(s1[i] == post[i - pre.len() - dx.len()]);
            assert(s2[i] == post[i - pre.len() - dy.len()]);
        }
    }
    assert(s1[k] == dx[j] && s2[k] == dy[j]);
    lemma_dec_seq_digits(x as nat);
    lemma_dec_seq_digits(y as nat);
    assert(48 <= (dx[j] as u32) <= 57);
    assert(48 <= (dy[j] as u32) <= 57);
    lemma_stable_hash_one_ascii_apart(s1, s2, k);
}

/// Live trading is enabled only by the exact text `true`: under any other
/// value of `OPTIONCLAW_ENABLE_LIVE_TRADING`, or none, the live contract is
/// refused as live trading disabled for the configuration's mode; and when
/// the contract holds, the provider is Alpaca, both API secrets are set and
/// an approval artifact is configured.
pub proof fn lemma_live_trading_needs_explicit_true(c: AppConfig, env: LiveEnvironment, r: Result<(), AppError>)
    requires
        c.spec_live_contract(env, r),
    ensures
        !(env.enable_live_trading matches Some(v) && v@ == seq!['t', 'r', 'u', 'e']) ==> (r matches Err(
            AppError::Security(SecurityError::LiveTradingDisabled { mode }),
        ) && mode@ == c.trading_mode.spec_name()),
        r is Ok ==> (env.enable_live_trading matches Some(v) && v@ == seq!['t', 'r', 'u', 'e'])
            && c.provider == Provider::Alpaca && !spec_blank(env.alpaca_api_key) && !spec_blank(
            env.alpaca_api_secret,
        ) && c.approval_artifact is Some,
{
    reveal_strlit("true");
    assert("true"@ =~= seq!['t', 'r', 'u', 'e']);
}

} // verus!
