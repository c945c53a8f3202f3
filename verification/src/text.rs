//! Text helpers over Unicode scalar sequences: trimming, ASCII case
//! folding, decimal and hexadecimal rendering and decimal parsing.

use vstd::prelude::*;
use vstd::string::*;

verus! {

/// Unicode `White_Space` code points, the set that `char::is_whitespace`
/// and `str::trim` use.
pub open spec fn is_ws(c: char) -> bool {
    let u = c as u32;
    (0x9 <= u && u <= 0xd) || u == 0x20 || u == 0x85 || u == 0xa0 || u == 0x1680 || (0x2000 <= u
        && u <= 0x200a) || u == 0x2028 || u == 0x2029 || u == 0x202f || u == 0x205f || u == 0x3000
}

/// Whether `c` is a Unicode white-space scalar.
pub fn is_whitespace(c: char) -> (r: bool)
    ensures
        r == is_ws(c),
{
    let u = c as u32;
    (0x9 <= u && u <= 0xd) || u == 0x20 || u == 0x85 || u == 0xa0 || u == 0x1680 || (0x2000 <= u
        && u <= 0x200a) || u == 0x2028 || u == 0x2029 || u == 0x202f || u == 0x205f || u == 0x3000
}

/// Appends one scalar to a string.
#[verifier::external_body]
pub(crate) fn push_char(s: &mut String, c: char)
    ensures
        final(s)@ == old(s)@.push(c),
{
    s.push(c);
}

/// The scalars of `s`, in order.
pub fn chars_of(s: &str) -> (v: Vec<char>)
    ensures
        v@ == s@,
{
    let n = s.unicode_len();
    let mut v: Vec<char> = Vec::new();
    let mut i: usize = 0;
    while i < n
        invariant
            n == s@.len(),
            i <= n,
            v@ == s@.subrange(0, i as int),
        decreases n - i,
    {
        let c = s.get_char(i);
        v.push(c);
        i = i + 1;
        assert(v@ =~= s@.subrange(0, i as int));
    }
    assert(v@ =~= s@);
    v
}

/// The string made of the scalars `v[lo..hi]`.
pub fn string_of_range(v: &Vec<char>, lo: usize, hi: usize) -> (s: String)
    requires
        lo <= hi <= v@.len(),
    ensures
        s@ == v@.subrange(lo as int, hi as int),
{
    let mut s = String::new();
    let mut i: usize = lo;
    while i < hi
        invariant
            lo <= i <= hi,
            hi <= v@.len(),
            s@ == v@.subrange(lo as int, i as int),
        decreases hi - i,
    {
        push_char(&mut s, v[i]);
        i = i + 1;
        assert(s@ =~= v@.subrange(lo as int, i as int));
    }
    s
}

/// The string made of all scalars of `v`.
pub fn string_of(v: &Vec<char>) -> (s: String)
    ensures
        s@ == v@,
{
    let s = string_of_range(v, 0, v.len());
    assert(v@.subrange(0, v@.len() as int) =~= v@);
    s
}

/// `s` without its leading white space.
pub open spec fn trim_start_seq(s: Seq<char>) -> Seq<char>
    decreases s.len(),
{
    if s.len() > 0 && is_ws(s[0]) {
        trim_start_seq(s.drop_first())
    } else {
        s
    }
}

/// `s` without its trailing white space.
pub open spec fn trim_end_seq(s: Seq<char>) -> Seq<char>
    decreases s.len(),
{
    if s.len() > 0 && is_ws(s.last()) {
        trim_end_seq(s.drop_last())
    } else {
        s
    }
}

/// `s` without leading and trailing white space, as `str::trim` gives it.
pub open spec fn trim_seq(s: Seq<char>) -> Seq<char> {
    trim_end_seq(trim_start_seq(s))
}

proof fn lemma_trim_start_from(s: Seq<char>, i: int)
    requires
        0 <= i <= s.len(),
        forall|k: int| 0 <= k < i ==> is_ws(#[trigger] s[k]),
    ensures
        trim_start_seq(s) == trim_start_seq(s.subrange(i, s.len() as int)),
    decreases i,
{
    if i > 0 {
        let t = s.drop_first();
        assert forall|k: int| 0 <= k < i - 1 implies is_ws(#[trigger] t[k]) by {
            assert(t[k] == s[k + 1]);
        }
        lemma_trim_start_from(t, i - 1);
        assert(t.subrange(i - 1, t.len() as int) =~= s.subrange(i, s.len() as int));
    } else {
        assert(s.subrange(0, s.len() as int) =~= s);
    }
}

proof fn lemma_trim_end_upto(s: Seq<char>, j: int)
    requires
        0 <= j <= s.len(),
        forall|k: int| j <= k < s.len() ==> is_ws(#[trigger] s[k]),
    ensures
        trim_end_seq(s) == trim_end_seq(s.subrange(0, j)),
    decreases s.len() - j,
{
    if j < s.len() {
        let t = s.drop_last();
        assert forall|k: int| j <= k < t.len() implies is_ws(#[trigger] t[k]) by {
            assert(t[k] == s[k]);
        }
        lemma_trim_end_upto(t, j);
        assert(t.subrange(0, j) =~= s.subrange(0, j));
    } else {
        assert(s.subrange(0, j) =~= s);
    }
}

/// The scalars of `v` without leading and trailing white space.
pub fn trim_chars(v: &Vec<char>) -> (r: (usize, usize))
    ensures
        r.0 <= r.1 <= v@.len(),
        v@.subrange(r.0 as int, r.1 as int) == trim_seq(v@),
{
    let n = v.len();
    let mut i: usize = 0;
    while i < n && is_whitespace(v[i])
        invariant
            i <= n == v@.len(),
            forall|k: int| 0 <= k < i ==> is_ws(#[trigger] v@[k]),
        decreases n - i,
    {
        i = i + 1;
    }
    proof {
        lemma_trim_start_from(v@, i as int);
    }
    let ghost rest = v@.subrange(i as int, n as int);
    assert(i == n || !is_ws(rest[0]));
    let mut j: usize = n;
    while j > i && is_whitespace(v[j - 1])
        invariant
            i <= j <= n == v@.len(),
            forall|k: int| j <= k < n ==> is_ws(#[trigger] v@[k]),
        decreases j,
    {
        j = j - 1;
    }
    proof {
        assert forall|k: int| (j - i) <= k < rest.len() implies is_ws(#[trigger] rest[k]) by {
            assert(rest[k] == v@[k + i]);
        }
        lemma_trim_end_upto(rest, j - i);
        assert(rest.subrange(0, j - i) =~= v@.subrange(i as int, j as int));
        let t = v@.subrange(i as int, j as int);
        if t.len() > 0 {
            assert(!is_ws(t.last()));
        } else {
        }
    }
    (i, j)
}

/// `s` without leading and trailing white space.
pub fn trim(s: &str) -> (r: String)
    ensures
        r@ == trim_seq(s@),
{
    let v = chars_of(s);
    let (lo, hi) = trim_chars(&v);
    string_of_range(&v, lo, hi)
}


/// ASCII upper-case letters folded to lower case; other scalars kept.
pub open spec fn ascii_lower_char(c: char) -> char {
    if 'A' <= c && c <= 'Z' {
        ((c as u32) + 32) as char
    } else {
        c
    }
}

/// `s` with ASCII letters folded to lower case, as `to_ascii_lowercase` gives it.
pub open spec fn ascii_lower_seq(s: Seq<char>) -> Seq<char> {
    s.map_values(|c: char| ascii_lower_char(c))
}

/// The string `s` with ASCII letters folded to lower case.
pub fn to_ascii_lower(s: &str) -> (r: String)
    ensures
        r@ == ascii_lower_seq(s@),
{
    let v = chars_of(s);
    let mut r = String::new();
    let mut i: usize = 0;
    while i < v.len()
        invariant
            i <= v@.len(),
            v@ == s@,
            r@ == ascii_lower_seq(s@).subrange(0, i as int),
        decreases v@.len() - i,
    {
        let c = v[i];
        let l = if 'A' <= c && c <= 'Z' {
            let u = (c as u32) + 32;
            assert(u < 0x80);
            char_from_ascii(u as u8)
        } else {
            c
        };
        push_char(&mut r, l);
        i = i + 1;
        assert(r@ =~= ascii_lower_seq(s@).subrange(0, i as int));
    }
    assert(r@ =~= ascii_lower_seq(s@));
    r
}

/// The scalar with ASCII code `b`.
pub fn char_from_ascii(b: u8) -> (c: char)
    requires
        b < 0x80,
    ensures
        c as u32 == b as u32,
{
    b as char
}

/// Whether two strings hold the same scalars.
pub fn str_eq(a: &str, b: &str) -> (r: bool)
    ensures
        r == (a@ == b@),
{
    let va = chars_of(a);
    let vb = chars_of(b);
    if va.len() != vb.len() {
        return false;
    }
    let mut i: usize = 0;
    while i < va.len()
        invariant
            va@ == a@,
            vb@ == b@,
            va@.len() == vb@.len(),
            i <= va@.len(),
            forall|k: int| 0 <= k < i ==> va@[k] == vb@[k],
        decreases va@.len() - i,
    {
        if va[i] != vb[i] {
            return false;
        }
        i = i + 1;
    }
    assert(va@ =~= vb@);
    true
}

/// Whether `s` begins with `prefix`.
pub fn starts_with(s: &str, prefix: &str) -> (r: bool)
    ensures
        r == (prefix@.len() <= s@.len() && s@.subrange(0, prefix@.len() as int) == prefix@),
{
    let vs = chars_of(s);
    let vp = chars_of(prefix);
    if vp.len() > vs.len() {
        return false;
    }
    let mut i: usize = 0;
    while i < vp.len()
        invariant
            vs@ == s@,
            vp@ == prefix@,
            vp@.len() <= vs@.len(),
            i <= vp@.len(),
            forall|k: int| 0 <= k < i ==> vs@[k] == vp@[k],
        decreases vp@.len() - i,
    {
        if vs[i] != vp[i] {
            assert(s@.subrange(0, prefix@.len() as int)[i as int] != prefix@[i as int]);
            return false;
        }
        i = i + 1;
    }
    assert(s@.subrange(0, prefix@.len() as int) =~= prefix@);
    true
}

/// The scalar of decimal digit `d`.
pub open spec fn digit_char(d: nat) -> char {
    ((48 + d) as u32) as char
}

/// Decimal rendering of `n`, without leading zeros.
pub open spec fn dec_seq(n: nat) -> Seq<char>
    decreases n,
{
    if n < 10 {
        seq![digit_char(n)]
    } else {
        dec_seq(n / 10).push(digit_char(n % 10))
    }
}

/// Decimal rendering of a signed integer, with a leading `-` when negative.
pub open spec fn int_dec_seq(i: int) -> Seq<char> {
    if i < 0 {
        seq!['-'] + dec_seq((-i) as nat)
    } else {
        dec_seq(i as nat)
    }
}

/// `k` zero digits.
pub open spec fn zeros(k: nat) -> Seq<char> {
    Seq::new(k, |i: int| '0')
}

/// `s` left-padded with `0` to at least `width` scalars.
pub open spec fn zero_pad(s: Seq<char>, width: nat) -> Seq<char> {
    if s.len() < width {
        zeros((width - s.len()) as nat) + s
    } else {
        s
    }
}

/// Appends the decimal rendering of `n` to `s`.
pub fn push_u64_dec(s: &mut String, n: u64)
    ensures
        final(s)@ == old(s)@ + dec_seq(n as nat),
    decreases n,
{
    if n < 10 {
        push_char(s, char_from_ascii((48 + n) as u8));
        assert(final(s)@ =~= old(s)@ + dec_seq(n as nat)) by {
            assert(dec_seq(n as nat) == seq![digit_char(n as nat)]);
        }
    } else {
        push_u64_dec(s, n / 10);
        push_char(s, char_from_ascii((48 + n % 10) as u8));
        assert(final(s)@ =~= old(s)@ + dec_seq(n as nat));
    }
}

/// Decimal rendering of `n`.
pub fn u64_to_string(n: u64) -> (r: String)
    ensures
        r@ == dec_seq(n as nat),
{
    let mut s = String::new();
    push_u64_dec(&mut s, n);
    assert(s@ =~= dec_seq(n as nat));
    s
}

/// Appends the decimal rendering of the signed `n` to `s`.
pub fn push_i64_dec(s: &mut String, n: i64)
    ensures
        final(s)@ == old(s)@ + int_dec_seq(n as int),
{
    if n < 0 {
        push_char(s, '-');
        let m: u64 = if n == i64::MIN {
            9223372036854775808u64
        } else {
            (-n) as u64
        };
        push_u64_dec(s, m);
        assert(final(s)@ =~= old(s)@ + int_dec_seq(n as int));
    } else {
        push_u64_dec(s, n as u64);
    }
}

proof fn lemma_dec_seq_len(n: nat)
    ensures
        dec_seq(n).len() >= 1,
        n < 10 ==> dec_seq(n).len() == 1,
        n >= 10 ==> dec_seq(n).len() == dec_seq(n / 10).len() + 1,
        forall|k: int| 0 <= k < dec_seq(n).len() ==> is_digit(#[trigger] dec_seq(n)[k]),
    decreases n,
{
    if n >= 10 {
        lemma_dec_seq_len(n / 10);
        assert forall|k: int| 0 <= k < dec_seq(n).len() implies is_digit(#[trigger] dec_seq(n)[k]) by {
            if k < dec_seq(n / 10).len() {
                assert(dec_seq(n)[k] == dec_seq(n / 10)[k]);
            }
        }
    }
}

/// Appends the decimal rendering of `n`, zero-padded to `width` scalars.
pub fn push_u64_padded(s: &mut String, n: u64, width: usize)
    ensures
        final(s)@ == old(s)@ + zero_pad(dec_seq(n as nat), width as nat),
{
    let digits = u64_to_string(n);
    let len = digits.as_str().unicode_len();
    let mut k: usize = len;
    while k < width
        invariant
            len == dec_seq(n as nat).len(),
            len <= k,
            k <= width || k == len,
            s@ == old(s)@ + zeros((k - len) as nat),
        decreases width - k,
    {
        push_char(s, '0');
        k = k + 1;
        assert(s@ =~= old(s)@ + zeros((k - len) as nat));
    }
    let ghost before = s@;
    s.append(digits.as_str());
    proof {
        if len < width {
            assert(k == width);
            assert(s@ =~= old(s)@ + zero_pad(dec_seq(n as nat), width as nat));
        } else {
            assert(k == len);
            assert(s@ =~= old(s)@ + zero_pad(dec_seq(n as nat), width as nat));
        }
    }
}

/// Whether `c` is an ASCII decimal digit.
pub open spec fn is_digit(c: char) -> bool {
    '0' <= c && c <= '9'
}

/// Whether every scalar of `s` is an ASCII decimal digit.
pub open spec fn all_digits(s: Seq<char>) -> bool {
    forall|k: int| 0 <= k < s.len() ==> is_digit(#[trigger] s[k])
}

/// The value that the decimal digits `s` denote.
pub open spec fn digits_value(s: Seq<char>) -> nat
    decreases s.len(),
{
    if s.len() == 0 {
        0
    } else {
        digits_value(s.drop_last()) * 10 + ((s.last() as u32) - 48) as nat
    }
}

/// Why text is not an integer of the requested type, as `str::parse`
/// reports it.
#[derive(Debug, Clone, Copy, PartialEq, Eq, Structural)]
pub enum IntParseError {
    Empty,
    InvalidDigit,
    PosOverflow,
    NegOverflow,
}

impl IntParseError {
    /// The description `str::parse` gives of this failure.
    pub open spec fn spec_description(self) -> Seq<char> {
        match self {
            IntParseError::Empty => "cannot parse integer from empty string"@,
            IntParseError::InvalidDigit => "invalid digit found in string"@,
            IntParseError::PosOverflow => "number too large to fit in target type"@,
            IntParseError::NegOverflow => "number too small to fit in target type"@,
        }
    }

    /// The description `str::parse` gives of this failure.
    pub fn description(self) -> (r: &'static str)
        ensures
            r@ == self.spec_description(),
    {
        match self {
            IntParseError::Empty => "cannot parse integer from empty string",
            IntParseError::InvalidDigit => "invalid digit found in string",
            IntParseError::PosOverflow => "number too large to fit in target type",
            IntParseError::NegOverflow => "number too small to fit in target type",
        }
    }
}

/// Whether, reading `d` left to right, a non-digit comes before the value
/// read so far exceeds `bound`.
pub open spec fn invalid_before_overflow(d: Seq<char>, bound: int) -> bool {
    exists|k: int|
        0 <= k < d.len() && !is_digit(d[k]) && all_digits(#[trigger] d.subrange(0, k))
            && digits_value(d.subrange(0, k)) <= bound
}

/// Parses the digits `d` against `bound`: their value, or whether reading
/// stopped at a non-digit (`Err(true)`) or at overflow (`Err(false)`).
pub open spec fn spec_digits(d: Seq<char>, bound: int) -> Result<int, bool> {
    if all_digits(d) && digits_value(d) <= bound {
        Ok(digits_value(d) as int)
    } else {
        Err(invalid_before_overflow(d, bound))
    }
}

/// What `str::parse` gives for an integer type with bounds `lo..=hi`
/// (`signed` when the type has a sign).
pub open spec fn spec_parse_int(s: Seq<char>, signed: bool, lo: int, hi: int) -> Result<
    int,
    IntParseError,
> {
    if s.len() == 0 {
        Err(IntParseError::Empty)
    } else if s.len() == 1 && (s[0] == '+' || s[0] == '-') {
        Err(IntParseError::InvalidDigit)
    } else if signed && s[0] == '-' {
        match spec_digits(s.drop_first(), -lo) {
            Ok(v) => Ok(-v),
            Err(true) => Err(IntParseError::InvalidDigit),
            Err(false) => Err(IntParseError::NegOverflow),
        }
    } else {
        let d = if s[0] == '+' {
            s.drop_first()
        } else {
            s
        };
        match spec_digits(d, hi) {
            Ok(v) => Ok(v),
            Err(true) => Err(IntParseError::InvalidDigit),
            Err(false) => Err(IntParseError::PosOverflow),
        }
    }
}

proof fn lemma_digits_value_step(s: Seq<char>, i: int)
    requires
        0 <= i < s.len(),
    ensures
        digits_value(s.subrange(0, i + 1)) == digits_value(s.subrange(0, i)) * 10 + ((s[i] as u32)
            - 48) as nat,
{
    let t = s.subrange(0, i + 1);
    assert(t.drop_last() =~= s.subrange(0, i));
}

proof fn lemma_digits_value_mono(s: Seq<char>, i: int)
    requires
        0 <= i <= s.len(),
        all_digits(s),
    ensures
        digits_value(s.subrange(0, i)) <= digits_value(s),
    decreases s.len() - i,
{
    if i < s.len() {
        lemma_digits_value_step(s, i);
        lemma_digits_value_mono(s, i + 1);
        assert(is_digit(s[i]));
    } else {
        assert(s.subrange(0, i) =~= s);
    }
}

/// Reads the digits `v[lo..hi]` against `bound`, as `spec_digits` states.
pub fn parse_digits(v: &Vec<char>, lo: usize, hi: usize, bound: u64) -> (r: Result<u64, bool>)
    requires
        lo <= hi <= v@.len(),
    ensures
        match spec_digits(v@.subrange(lo as int, hi as int), bound as int) {
            Ok(x) => r == Ok::<u64, bool>(x as u64),
            Err(b) => r == Err::<u64, bool>(b),
        },
{
    let ghost d = v@.subrange(lo as int, hi as int);
    let mut acc: u64 = 0;
    let mut i: usize = lo;
    while i < hi
        invariant
            lo <= i <= hi <= v@.len(),
            d == v@.subrange(lo as int, hi as int),
            all_digits(d.subrange(0, i - lo)),
            acc as nat == digits_value(d.subrange(0, i - lo)),
            acc <= bound,
        decreases hi - i,
    {
        let c = v[i];
        if !('0' <= c && c <= '9') {
            proof {
                assert(!is_digit(d[i - lo]));
                assert(invalid_before_overflow(d, bound as int));
                assert(!all_digits(d));
            }
            return Err(true);
        }
        let digit = (c as u32 - 48) as u64;
        proof {
            lemma_digits_value_step(d, i - lo);
        }
        if digit > bound || acc > (bound - digit) / 10 {
            proof {
                let nv = digits_value(d.subrange(0, i - lo + 1));
                assert(nv == acc * 10 + digit);
                assert(acc * 10 + digit > bound) by (nonlinear_arith)
                    requires
                        digit > bound || acc > (bound - digit) / 10,
                        acc >= 0,
                ;
                assert(all_digits(d.subrange(0, i - lo + 1)));
                if all_digits(d) {
                    lemma_digits_value_mono(d, i - lo + 1);
                }
                if invalid_before_overflow(d, bound as int) {
                    let k = choose|k: int|
                        0 <= k < d.len() && !is_digit(d[k]) && all_digits(#[trigger] d.subrange(0, k))
                            && digits_value(d.subrange(0, k)) <= bound;
                    if k <= i - lo {
                        assert(d.subrange(0, i - lo + 1)[k] == d[k]);
                    } else {
                        assert(d.subrange(0, k).subrange(0, i - lo + 1) =~= d.subrange(0, i - lo + 1));
                        lemma_digits_value_mono(d.subrange(0, k), i - lo + 1);
                    }
                }
            }
            return Err(false);
        }
        assert(acc * 10 + digit <= bound) by (nonlinear_arith)
            requires
                digit <= bound,
                acc <= (bound - digit) / 10,
        ;
        acc = acc * 10 + digit;
        i = i + 1;
        assert(all_digits(d.subrange(0, i - lo)));
    }
    assert(d.subrange(0, i - lo) =~= d);
    Ok(acc)
}

/// Parses an unsigned decimal integer no greater than `bound`, as
/// `str::parse` does for an unsigned type whose maximum is `bound`.
pub fn parse_unsigned(s: &str, bound: u64) -> (r: Result<u64, IntParseError>)
    ensures
        match spec_parse_int(s@, false, 0, bound as int) {
            Ok(x) => r == Ok::<u64, IntParseError>(x as u64),
            Err(e) => r == Err::<u64, IntParseError>(e),
        },
{
    let v = chars_of(s);
    let n = v.len();
    if n == 0 {
        return Err(IntParseError::Empty);
    }
    if n == 1 && (v[0] == '+' || v[0] == '-') {
        return Err(IntParseError::InvalidDigit);
    }
    let start: usize = if v[0] == '+' {
        1
    } else {
        0
    };
    assert(s@.drop_first() =~= v@.subrange(1, n as int));
    assert(s@ =~= v@.subrange(0, n as int));
    match parse_digits(&v, start, n, bound) {
        Ok(x) => Ok(x),
        Err(true) => Err(IntParseError::InvalidDigit),
        Err(false) => Err(IntParseError::PosOverflow),
    }
}

/// Parses a signed 64-bit decimal integer, as `str::parse::<i64>` does.
pub fn parse_i64(s: &str) -> (r: Result<i64, IntParseError>)
    ensures
        match spec_parse_int(s@, true, i64::MIN as int, i64::MAX as int) {
            Ok(x) => r == Ok::<i64, IntParseError>(x as i64),
            Err(e) => r == Err::<i64, IntParseError>(e),
        },
{
    let v = chars_of(s);
    let n = v.len();
    if n == 0 {
        return Err(IntParseError::Empty);
    }
    if n == 1 && (v[0] == '+' || v[0] == '-') {
        return Err(IntParseError::InvalidDigit);
    }
    assert(s@.drop_first() =~= v@.subrange(1, n as int));
    assert(s@ =~= v@.subrange(0, n as int));
    if v[0] == '-' {
        match parse_digits(&v, 1, n, 9223372036854775808u64) {
            Ok(x) => {
                if x == 9223372036854775808u64 {
                    Ok(i64::MIN)
                } else {
                    Ok(-(x as i64))
                }
            },
            Err(true) => Err(IntParseError::InvalidDigit),
            Err(false) => Err(IntParseError::NegOverflow),
        }
    } else {
        let start: usize = if v[0] == '+' {
            1
        } else {
            0
        };
        match parse_digits(&v, start, n, 9223372036854775807u64) {
            Ok(x) => Ok(x as i64),
            Err(true) => Err(IntParseError::InvalidDigit),
            Err(false) => Err(IntParseError::PosOverflow),
        }
    }
}

/// The position of the first `sep` in `s` at or after `start`, if any.
pub open spec fn index_of_from(s: Seq<char>, sep: char, start: int) -> Option<int>
    decreases s.len() - start,
{
    if start < 0 || start >= s.len() {
        None
    } else if s[start] == sep {
        Some(start)
    } else {
        index_of_from(s, sep, start + 1)
    }
}

/// `index_of_from` names the first occurrence at or after `start`.
pub proof fn lemma_index_of_from(s: Seq<char>, sep: char, start: int)
    requires
        0 <= start,
    ensures
        match index_of_from(s, sep, start) {
            Some(k) => start <= k < s.len() && s[k] == sep && forall|j: int|
                start <= j < k ==> s[j] != sep,
            None => forall|j: int| start <= j < s.len() ==> s[j] != sep,
        },
    decreases s.len() - start,
{
    if start < s.len() && s[start] != sep {
        lemma_index_of_from(s, sep, start + 1);
    }
}

/// Finds the first `sep` in `v` at or after `start`.
pub fn find_char_from(v: &Vec<char>, sep: char, start: usize) -> (r: Option<usize>)
    ensures
        match index_of_from(v@, sep, start as int) {
            Some(k) => r == Some(k as usize),
            None => r is None,
        },
{
    let mut i: usize = start;
    while i < v.len()
        invariant
            start <= i,
            index_of_from(v@, sep, start as int) == index_of_from(v@, sep, i as int),
        decreases v@.len() - i,
    {
        if v[i] == sep {
            return Some(i);
        }
        i = i + 1;
    }
    None
}

/// The hexadecimal scalar of `d < 16`, lower case.
pub open spec fn hex_char(d: nat) -> char {
    if d < 10 {
        digit_char(d)
    } else {
        ((87 + d) as u32) as char
    }
}

/// The last `k` hexadecimal digits of `n`, most significant first.
pub open spec fn hex_seq(n: nat, k: nat) -> Seq<char>
    decreases k,
{
    if k == 0 {
        Seq::empty()
    } else {
        hex_seq(n / 16, (k - 1) as nat).push(hex_char(n % 16))
    }
}

/// Appends the last `k` hexadecimal digits of `n` to `s`.
pub fn push_hex(s: &mut String, n: u64, k: u32)
    ensures
        final(s)@ == old(s)@ + hex_seq(n as nat, k as nat),
    decreases k,
{
    if k > 0 {
        push_hex(s, n / 16, k - 1);
        let d = n % 16;
        let c = if d < 10 {
            char_from_ascii((48 + d) as u8)
        } else {
            char_from_ascii((87 + d) as u8)
        };
        push_char(s, c);
        assert(final(s)@ =~= old(s)@ + hex_seq(n as nat, k as nat));
    } else {
        assert(final(s)@ =~= old(s)@ + hex_seq(n as nat, k as nat));
    }
}

/// The scalars of an optional string.
pub open spec fn opt_view(o: Option<String>) -> Option<Seq<char>> {
    match o {
        Some(s) => Some(s@),
        None => None,
    }
}

/// Ten to the power `k`.
pub open spec fn pow10(k: nat) -> nat
    decreases k,
{
    if k == 0 {
        1
    } else {
        10 * pow10((k - 1) as nat)
    }
}

/// A decimal rendering is all digits and denotes the number rendered.
pub proof fn lemma_dec_seq_value(n: nat)
    ensures
        all_digits(dec_seq(n)),
        digits_value(dec_seq(n)) == n,
        dec_seq(n).len() >= 1,
    decreases n,
{
    let s = dec_seq(n);
    if n < 10 {
        assert(s.drop_last() =~= Seq::<char>::empty());
        assert(s[0] == digit_char(n));
        assert((digit_char(n) as u32) == 48 + n);
        assert(digits_value(s) == digits_value(s.drop_last()) * 10 + ((s.last() as u32) - 48) as nat);
    } else {
        lemma_dec_seq_value(n / 10);
        assert(s.drop_last() =~= dec_seq(n / 10));
        assert((digit_char(n % 10) as u32) == 48 + n % 10);
        assert(digits_value(s) == digits_value(s.drop_last()) * 10 + ((s.last() as u32) - 48) as nat);
        assert forall|k: int| 0 <= k < s.len() implies is_digit(#[trigger] s[k]) by {
            if k < s.len() - 1 {
                assert(s[k] == dec_seq(n / 10)[k]);
            }
        }
    }
}

/// A number below `10^k`, `k >= 1`, renders in at most `k` digits.
pub proof fn lemma_dec_seq_len_bound(n: nat, k: nat)
    requires
        k >= 1,
        n < pow10(k),
    ensures
        dec_seq(n).len() <= k,
    decreases k,
{
    if n >= 10 {
        assert(k >= 2) by {
            if k == 1 {
                assert(pow10(1) == 10 * pow10(0));
            }
        }
        assert(pow10(k) == 10 * pow10((k - 1) as nat));
        lemma_dec_seq_len_bound(n / 10, (k - 1) as nat);
    }
}

/// The value of concatenated digits: the left part shifted by the length
/// of the right part, plus the right part.
pub proof fn lemma_digits_value_concat(a: Seq<char>, b: Seq<char>)
    ensures
        digits_value(a + b) == digits_value(a) * pow10(b.len()) + digits_value(b),
    decreases b.len(),
{
    if b.len() == 0 {
        assert(a + b =~= a);
        assert(pow10(0) == 1);
        assert(digits_value(b) == 0);
    } else {
        let bl = b.drop_last();
        lemma_digits_value_concat(a, bl);
        let ab = a + b;
        assert(ab.drop_last() =~= a + bl);
        assert(ab.last() == b.last());
        let d = ((b.last() as u32) - 48) as nat;
        assert(digits_value(ab) == digits_value(a + bl) * 10 + d);
        assert(digits_value(b) == digits_value(bl) * 10 + d);
        let va = digits_value(a);
        let vb = digits_value(bl);
        let p = pow10(bl.len());
        assert(pow10(b.len()) == 10 * p);
        assert((va * p + vb) * 10 + d == va * (10 * p) + (vb * 10 + d)) by (nonlinear_arith);
        assert(digits_value(a + bl) == va * p + vb);
        assert(digits_value(ab) == va * pow10(b.len()) + digits_value(b));
    }
}

/// A run of `0` digits denotes zero.
pub proof fn lemma_zeros_value(k: nat)
    ensures
        digits_value(zeros(k)) == 0,
        all_digits(zeros(k)),
    decreases k,
{
    if k > 0 {
        lemma_zeros_value((k - 1) as nat);
        assert(zeros(k).drop_last() =~= zeros((k - 1) as nat));
    }
}

/// Zero-padding changes neither the digits' value nor their being digits.
pub proof fn lemma_zero_pad_value(s: Seq<char>, w: nat)
    requires
        all_digits(s),
    ensures
        all_digits(zero_pad(s, w)),
        digits_value(zero_pad(s, w)) == digits_value(s),
        zero_pad(s, w).len() == if s.len() < w {
            w as int
        } else {
            s.len() as int
        },
{
    if s.len() < w {
        let z = zeros((w - s.len()) as nat);
        lemma_zeros_value((w - s.len()) as nat);
        lemma_digits_value_concat(z, s);
        assert(zero_pad(s, w) =~= z + s);
        assert(digits_value(z) * pow10(s.len()) == 0);
        assert forall|k: int| 0 <= k < (z + s).len() implies is_digit(#[trigger] (z + s)[k]) by {
            if k < z.len() {
                assert((z + s)[k] == z[k]);
            } else {
                assert((z + s)[k] == s[k - z.len()]);
            }
        }
    }
}

/// The first `sep` at or after `start` is the one at `k` when none comes
/// between.
pub proof fn lemma_index_of_from_at(s: Seq<char>, sep: char, start: int, k: int)
    requires
        0 <= start <= k < s.len(),
        s[k] == sep,
        forall|j: int| start <= j < k ==> s[j] != sep,
    ensures
        index_of_from(s, sep, start) == Some(k),
    decreases k - start,
{
    if start < k {
        lemma_index_of_from_at(s, sep, start + 1, k);
    }
}

/// Trimming leaves text alone whose ends are not white space.
pub proof fn lemma_trim_noop(s: Seq<char>)
    requires
        s.len() > 0,
        !is_ws(s[0]),
        !is_ws(s.last()),
    ensures
        trim_seq(s) == s,
{
}

proof fn lemma_trim_start_shape(s: Seq<char>)
    ensures
        trim_start_seq(s).len() > 0 ==> !is_ws(trim_start_seq(s)[0]),
    decreases s.len(),
{
    if s.len() > 0 && is_ws(s[0]) {
        lemma_trim_start_shape(s.drop_first());
    }
}

proof fn lemma_trim_end_shape(s: Seq<char>)
    ensures
        trim_end_seq(s).len() <= s.len(),
        trim_end_seq(s) == s.subrange(0, trim_end_seq(s).len() as int),
        trim_end_seq(s).len() > 0 ==> !is_ws(trim_end_seq(s).last()),
    decreases s.len(),
{
    if s.len() > 0 && is_ws(s.last()) {
        lemma_trim_end_shape(s.drop_last());
        assert(s.drop_last().subrange(0, trim_end_seq(s).len() as int) =~= s.subrange(
            0,
            trim_end_seq(s).len() as int,
        ));
    } else {
        assert(s.subrange(0, s.len() as int) =~= s);
    }
}

proof fn lemma_trim_end_keeps_first(s: Seq<char>)
    requires
        s.len() > 0,
        !is_ws(s[0]),
    ensures
        trim_end_seq(s).len() > 0,
    decreases s.len(),
{
    if s.len() > 1 && is_ws(s.last()) {
        lemma_trim_end_keeps_first(s.drop_last());
    }
}

/// Text whose first scalar is not white space is not blank once trimmed.
pub proof fn lemma_trim_nonblank(s: Seq<char>)
    requires
        s.len() > 0,
        !is_ws(s[0]),
    ensures
        trim_seq(s).len() > 0,
{
    assert(trim_start_seq(s) == s);
    lemma_trim_end_keeps_first(s);
}

/// Trimming twice is trimming once.
pub proof fn lemma_trim_idempotent(s: Seq<char>)
    ensures
        trim_seq(trim_seq(s)) == trim_seq(s),
{
    let a = trim_start_seq(s);
    let t = trim_seq(s);
    lemma_trim_start_shape(s);
    lemma_trim_end_shape(a);
    if t.len() > 0 {
        assert(t[0] == a[0]);
        lemma_trim_noop(t);
    } else {
        assert(trim_start_seq(t) == t);
        assert(trim_end_seq(t) == t);
    }
}

/// Whether `a` orders before `b` by code point, comparing from index `i`
/// on; the order of Rust's string comparison, since UTF-8 keeps code point
/// order.
pub open spec fn less_from(a: Seq<char>, b: Seq<char>, i: int) -> bool
    decreases a.len() - i,
{
    if i < 0 || i >= a.len() {
        0 <= i < b.len()
    } else if i >= b.len() {
        false
    } else if a[i] != b[i] {
        (a[i] as u32) < (b[i] as u32)
    } else {
        less_from(a, b, i + 1)
    }
}

/// Whether `a` orders strictly before `b`.
pub open spec fn seq_less(a: Seq<char>, b: Seq<char>) -> bool {
    less_from(a, b, 0)
}

/// Whether `a` orders strictly before `b`.
pub fn str_less(a: &str, b: &str) -> (r: bool)
    ensures
        r == seq_less(a@, b@),
{
    let va = chars_of(a);
    let vb = chars_of(b);
    let mut i: usize = 0;
    while i < va.len() && i < vb.len() && va[i] == vb[i]
        invariant
            va@ == a@,
            vb@ == b@,
            i <= va@.len(),
            i <= vb@.len(),
            less_from(a@, b@, 0) == less_from(a@, b@, i as int),
        decreases va@.len() - i,
    {
        i = i + 1;
    }
    if i < va.len() && i < vb.len() {
        (va[i] as u32) < (vb[i] as u32)
    } else {
        i >= va.len() && i < vb.len()
    }
}

proof fn lemma_less_from_irreflexive(a: Seq<char>, i: int)
    requires
        0 <= i,
    ensures
        !less_from(a, a, i),
    decreases a.len() - i,
{
    if i < a.len() {
        lemma_less_from_irreflexive(a, i + 1);
    }
}

proof fn lemma_less_from_total(a: Seq<char>, b: Seq<char>, i: int)
    requires
        0 <= i <= a.len(),
        i <= b.len(),
        a.subrange(0, i) == b.subrange(0, i),
    ensures
        a == b || less_from(a, b, i) || less_from(b, a, i),
    decreases a.len() - i,
{
    if i < a.len() && i < b.len() && a[i] == b[i] {
        assert(a.subrange(0, i + 1) =~= a.subrange(0, i).push(a[i]));
        assert(b.subrange(0, i + 1) =~= b.subrange(0, i).push(b[i]));
        lemma_less_from_total(a, b, i + 1);
    } else if i == a.len() && i == b.len() {
        assert(a =~= a.subrange(0, i));
        assert(b =~= b.subrange(0, i));
    } else if i < a.len() && i < b.len() {
        vstd::utf8::char_u32_cast(a[i], a[i] as u32);
        vstd::utf8::char_u32_cast(b[i], b[i] as u32);
        assert((a[i] as u32) != (b[i] as u32));
    }
}

proof fn lemma_less_from_asym(a: Seq<char>, b: Seq<char>, i: int)
    requires
        0 <= i,
        less_from(a, b, i),
    ensures
        !less_from(b, a, i),
    decreases a.len() - i,
{
    if i < a.len() && i < b.len() && a[i] == b[i] {
        lemma_less_from_asym(a, b, i + 1);
    }
}

proof fn lemma_less_from_trans(a: Seq<char>, b: Seq<char>, c: Seq<char>, i: int)
    requires
        0 <= i,
        less_from(a, b, i),
        less_from(b, c, i),
    ensures
        less_from(a, c, i),
    decreases a.len() - i,
{
    if i < a.len() && i < b.len() && i < c.len() && a[i] == b[i] && b[i] == c[i] {
        lemma_less_from_trans(a, b, c, i + 1);
    }
}

/// Code point order on scalar sequences is a strict total order.
pub proof fn lemma_seq_less_order(a: Seq<char>, b: Seq<char>, c: Seq<char>)
    ensures
        !seq_less(a, a),
        a != b ==> seq_less(a, b) || seq_less(b, a),
        seq_less(a, b) ==> !seq_less(b, a),
        seq_less(a, b) && seq_less(b, c) ==> seq_less(a, c),
{
    lemma_less_from_irreflexive(a, 0);
    assert(a.subrange(0, 0) =~= b.subrange(0, 0));
    lemma_less_from_total(a, b, 0);
    if seq_less(a, b) {
        lemma_less_from_asym(a, b, 0);
        if seq_less(b, c) {
            lemma_less_from_trans(a, b, c, 0);
        }
    }
}

} // verus!
