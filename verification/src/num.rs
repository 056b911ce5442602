//! Integer parsing and formatting over character sequences, following the
//! grammar of Rust's `from_str` / `from_str_radix` and the `{}` / `{:02x}`
//! formats.

use vstd::prelude::*;
use crate::text::push_char;

verus! {

// ---------------------------------------------------------------------------
// Specifications
// ---------------------------------------------------------------------------

/// The value of a digit character in bases up to 36, or -1.
pub open spec fn digit_value(c: char) -> int {
    if '0' <= c && c <= '9' {
        c as int - '0' as int
    } else if 'a' <= c && c <= 'z' {
        c as int - 'a' as int + 10
    } else if 'A' <= c && c <= 'Z' {
        c as int - 'A' as int + 10
    } else {
        -1
    }
}

/// `c` is a digit in base `radix`.
pub open spec fn is_radix_digit(c: char, radix: int) -> bool {
    0 <= digit_value(c) < radix
}

/// Every character of `s` is a digit in base `radix`.
pub open spec fn all_radix_digits(s: Seq<char>, radix: int) -> bool {
    forall|i: int| 0 <= i < s.len() ==> is_radix_digit(#[trigger] s[i], radix)
}

/// The number written by the digits `s` in base `radix`.
pub open spec fn digits_value(s: Seq<char>, radix: int) -> int
    decreases s.len(),
{
    if s.len() == 0 {
        0
    } else {
        digits_value(s.drop_last(), radix) * radix + digit_value(s.last())
    }
}

/// Unsigned integer syntax: an optional `+`, then one or more digits.
pub open spec fn parse_unsigned(s: Seq<char>, radix: int) -> Option<int> {
    let body = if s.len() > 0 && s[0] == '+' {
        s.drop_first()
    } else {
        s
    };
    if body.len() > 0 && all_radix_digits(body, radix) {
        Some(digits_value(body, radix))
    } else {
        None
    }
}

/// Signed integer syntax: `-` followed by one or more digits, or the
/// unsigned syntax.
pub open spec fn parse_signed(s: Seq<char>, radix: int) -> Option<int> {
    if s.len() > 0 && s[0] == '-' {
        let body = s.drop_first();
        if body.len() > 0 && all_radix_digits(body, radix) {
            Some(-digits_value(body, radix))
        } else {
            None
        }
    } else {
        parse_unsigned(s, radix)
    }
}

/// `u8::from_str_radix(s, radix)`.
pub open spec fn parse_u8_radix(s: Seq<char>, radix: int) -> Option<u8> {
    match parse_unsigned(s, radix) {
        Some(v) => if v <= 255 {
            Some(v as u8)
        } else {
            None
        },
        None => None,
    }
}

/// Two hexadecimal digits read as a byte; anything else, a sign included,
/// is `None`.
pub open spec fn hex_pair(p: Seq<char>) -> Option<u8> {
    if p.len() == 2 && all_radix_digits(p, 16) {
        parse_u8_radix(p, 16)
    } else {
        None
    }
}

/// `s.parse::<u8>()`.
pub open spec fn parse_u8(s: Seq<char>) -> Option<u8> {
    parse_u8_radix(s, 10)
}

/// `s.parse::<i64>()`.
pub open spec fn parse_i64(s: Seq<char>) -> Option<i64> {
    match parse_signed(s, 10) {
        Some(v) => if i64::MIN <= v <= i64::MAX {
            Some(v as i64)
        } else {
            None
        },
        None => None,
    }
}

/// The decimal digit character for `d` in `0..10`.
pub open spec fn decimal_digit(d: int) -> char {
    (d + 48) as char
}

/// Decimal digits of a natural number, without leading zeros.
pub open spec fn nat_to_decimal(n: nat) -> Seq<char>
    decreases n,
{
    if n < 10 {
        seq![decimal_digit(n as int)]
    } else {
        nat_to_decimal(n / 10).push(decimal_digit((n % 10) as int))
    }
}

/// The `{}` text of an integer.
pub open spec fn int_to_decimal(n: int) -> Seq<char> {
    if n < 0 {
        seq!['-'] + nat_to_decimal((-n) as nat)
    } else {
        nat_to_decimal(n as nat)
    }
}

/// The lowercase hexadecimal digit for `d` in `0..16`.
pub open spec fn hex_digit(d: int) -> char {
    if d < 10 {
        (d + 48) as char
    } else {
        (d - 10 + 97) as char
    }
}

/// The `{:02x}` text of a byte.
pub open spec fn hex2(b: u8) -> Seq<char> {
    seq![hex_digit(b as int / 16), hex_digit(b as int % 16)]
}

// ---------------------------------------------------------------------------
// Lemmas
// ---------------------------------------------------------------------------

proof fn lemma_digits_value_nonneg(s: Seq<char>, radix: int)
    requires
        radix >= 1,
        all_radix_digits(s, radix),
    ensures
        digits_value(s, radix) >= 0,
    decreases s.len(),
{
    if s.len() > 0 {
        assert(is_radix_digit(s[s.len() - 1], radix));
        lemma_digits_value_nonneg(s.drop_last(), radix);
        assert(digits_value(s.drop_last(), radix) * radix >= 0) by (nonlinear_arith)
            requires
                digits_value(s.drop_last(), radix) >= 0,
                radix >= 1,
        ;
    }
}

proof fn lemma_nat_to_decimal(n: nat)
    ensures
        nat_to_decimal(n).len() > 0,
        all_radix_digits(nat_to_decimal(n), 10),
        digits_value(nat_to_decimal(n), 10) == n,
        nat_to_decimal(n)[0] != '+',
        nat_to_decimal(n)[0] != '-',
    decreases n,
{
    if n < 10 {
        let s = nat_to_decimal(n);
        assert(s.drop_last() =~= Seq::<char>::empty());
        assert(digit_value(decimal_digit(n as int)) == n);
        assert(s.last() == decimal_digit(n as int));
        assert(digits_value(s, 10) == digits_value(s.drop_last(), 10) * 10 + digit_value(s.last()));
        assert(digits_value(Seq::<char>::empty(), 10) == 0);
    } else {
        lemma_nat_to_decimal(n / 10);
        let s = nat_to_decimal(n);
        assert(s.drop_last() =~= nat_to_decimal(n / 10));
        assert(digit_value(decimal_digit((n % 10) as int)) == n % 10);
        assert(forall|i: int|
            0 <= i < s.len() - 1 ==> s[i] == nat_to_decimal(n / 10)[i]);
        assert((n / 10) * 10 + n % 10 == n);
        assert(s.last() == decimal_digit((n % 10) as int));
        assert(digits_value(s, 10) == digits_value(s.drop_last(), 10) * 10 + digit_value(s.last()));
    }
}

/// Formatting an integer in decimal and parsing it back gives the integer.
pub proof fn lemma_decimal_round_trip(n: int)
    ensures
        parse_signed(int_to_decimal(n), 10) == Some(n),
{
    if n < 0 {
        let m = (-n) as nat;
        lemma_nat_to_decimal(m);
        let s = int_to_decimal(n);
        assert(s.drop_first() =~= nat_to_decimal(m));
    } else {
        lemma_nat_to_decimal(n as nat);
    }
}

/// `parse_i64` inverts the decimal text of an `i64`.
pub proof fn lemma_i64_round_trip(n: i64)
    ensures
        parse_i64(int_to_decimal(n as int)) == Some(n),
{
    lemma_decimal_round_trip(n as int);
}

/// `parse_u8` inverts the decimal text of a `u8`.
pub proof fn lemma_u8_round_trip(n: u8)
    ensures
        parse_u8(nat_to_decimal(n as nat)) == Some(n),
{
    lemma_nat_to_decimal(n as nat);
}

/// Two lowercase hexadecimal digits parse back to the byte.
pub proof fn lemma_hex2_round_trip(b: u8)
    ensures
        parse_u8_radix(hex2(b), 16) == Some(b),
        hex_pair(hex2(b)) == Some(b),
{
    let s = hex2(b);
    let hi = b as int / 16;
    let lo = b as int % 16;
    assert(digit_value(hex_digit(hi)) == hi);
    assert(digit_value(hex_digit(lo)) == lo);
    assert(s.drop_last() =~= seq![hex_digit(hi)]);
    assert(seq![hex_digit(hi)].drop_last() =~= Seq::<char>::empty());
    assert(all_radix_digits(s, 16));
    assert(digits_value(seq![hex_digit(hi)], 16) == hi) by {
        let t = seq![hex_digit(hi)];
        assert(digits_value(t, 16) == digits_value(t.drop_last(), 16) * 16 + digit_value(t.last()));
        assert(digits_value(Seq::<char>::empty(), 16) == 0);
    }
    assert(digits_value(s, 16) == digits_value(s.drop_last(), 16) * 16 + digit_value(s.last()));
    assert(hi * 16 + lo == b);
    assert(s[0] != '+');
}

// ---------------------------------------------------------------------------
// Executable parsing
// ---------------------------------------------------------------------------

/// The value of a digit character, or `None`.
pub fn digit_of(c: char, radix: u32) -> (r: Option<u32>)
    requires
        2 <= radix <= 36,
    ensures
        r is Some <==> is_radix_digit(c, radix as int),
        r matches Some(d) ==> d == digit_value(c),
{
    let d: u32 = if '0' <= c && c <= '9' {
        (c as u32) - ('0' as u32)
    } else if 'a' <= c && c <= 'z' {
        (c as u32) - ('a' as u32) + 10
    } else if 'A' <= c && c <= 'Z' {
        (c as u32) - ('A' as u32) + 10
    } else {
        return None;
    };
    if d < radix {
        Some(d)
    } else {
        None
    }
}

/// The two hexadecimal digits `s[lo..lo + 2]` as a byte.
pub fn parse_hex_pair(s: &Vec<char>, lo: usize) -> (r: Option<u8>)
    requires
        lo + 2 <= s.len(),
    ensures
        r == hex_pair(s@.subrange(lo as int, lo + 2)),
{
    let ghost p = s@.subrange(lo as int, lo + 2);
    assert(p[0] == s@[lo as int] && p[1] == s@[lo + 1]);
    if digit_of(s[lo], 16).is_none() || digit_of(s[lo + 1], 16).is_none() {
        assert(!all_radix_digits(p, 16));
        return None;
    }
    assert(all_radix_digits(p, 16)) by {
        assert forall|i: int| 0 <= i < p.len() implies is_radix_digit(#[trigger] p[i], 16) by {
            if i == 0 {
            } else {
                assert(i == 1);
            }
        }
    }
    parse_u8_range(s, lo, lo + 2, 16)
}

/// Parse the digits `s[lo..hi]` in base `radix`; `None` when a character is
/// not a digit, the range is empty, or the value exceeds `max`.
pub fn parse_digits(s: &Vec<char>, lo: usize, hi: usize, radix: u32, max: u64) -> (r: Option<u64>)
    requires
        lo <= hi <= s.len(),
        2 <= radix <= 36,
    ensures
        ({
            let t = s@.subrange(lo as int, hi as int);
            r == (if t.len() > 0 && all_radix_digits(t, radix as int) && digits_value(
                t,
                radix as int,
            ) <= max {
                Some(digits_value(t, radix as int) as u64)
            } else {
                None
            })
        }),
        r matches Some(v) ==> v <= max && v == digits_value(
            s@.subrange(lo as int, hi as int),
            radix as int,
        ),
{
    let ghost t = s@.subrange(lo as int, hi as int);
    if lo == hi {
        return None;
    }
    let mut acc: u64 = 0;
    let mut over = false;
    let mut i = lo;
    assert(s@.subrange(lo as int, lo as int) =~= Seq::<char>::empty());
    while i < hi
        invariant
            lo <= i <= hi <= s.len(),
            2 <= radix <= 36,
            t == s@.subrange(lo as int, hi as int),
            all_radix_digits(s@.subrange(lo as int, i as int), radix as int),
            !over ==> acc == digits_value(s@.subrange(lo as int, i as int), radix as int),
            !over ==> acc <= max,
            over ==> digits_value(s@.subrange(lo as int, i as int), radix as int) > max,
        decreases hi - i,
    {
        let ghost prev = s@.subrange(lo as int, i as int);
        let ghost next = s@.subrange(lo as int, i + 1);
        assert(next.drop_last() =~= prev);
        assert(next.last() == s@[i as int]);
        match digit_of(s[i], radix) {
            None => {
                assert(!is_radix_digit(t[i - lo], radix as int));
                return None;
            },
            Some(d) => {
                proof {
                    lemma_digits_value_nonneg(prev, radix as int);
                    assert(digits_value(prev, radix as int) * radix >= digits_value(prev, radix as int))
                        by (nonlinear_arith)
                        requires
                            digits_value(prev, radix as int) >= 0,
                            radix >= 2,
                    ;
                }
                assert(all_radix_digits(next, radix as int)) by {
                    assert forall|j: int| 0 <= j < next.len() implies is_radix_digit(
                        #[trigger] next[j],
                        radix as int,
                    ) by {
                        if j < prev.len() {
                            assert(next[j] == prev[j]);
                        }
                    }
                }
                if !over {
                    assert((acc as u128) * (radix as u128) <= 18446744073709551615u128 * 36)
                        by (nonlinear_arith)
                        requires
                            acc <= 18446744073709551615u64,
                            radix <= 36,
                    ;
                    let v: u128 = (acc as u128) * (radix as u128) + (d as u128);
                    assert(v == acc * radix + d) by (nonlinear_arith)
                        requires
                            v == (acc as u128) * (radix as u128) + (d as u128),
                    ;
                    if v > max as u128 {
                        over = true;
                    } else {
                        acc = v as u64;
                    }
                }
            },
        }
        i += 1;
    }
    if over {
        None
    } else {
        Some(acc)
    }
}

/// Unsigned integer text `s[lo..hi]` in base `radix`, at most `max`.
pub fn parse_unsigned_range(s: &Vec<char>, lo: usize, hi: usize, radix: u32, max: u64) -> (r: Option<u64>)
    requires
        lo <= hi <= s.len(),
        2 <= radix <= 36,
    ensures
        r == (match parse_unsigned(s@.subrange(lo as int, hi as int), radix as int) {
            Some(v) => if v <= max {
                Some(v as u64)
            } else {
                None
            },
            None => None,
        }),
        r matches Some(v) ==> v <= max && parse_unsigned(
            s@.subrange(lo as int, hi as int),
            radix as int,
        ) == Some(v as int),
{
    let ghost t = s@.subrange(lo as int, hi as int);
    if lo < hi && s[lo] == '+' {
        assert(t.drop_first() =~= s@.subrange(lo + 1, hi as int));
        parse_digits(s, lo + 1, hi, radix, max)
    } else {
        parse_digits(s, lo, hi, radix, max)
    }
}

/// `u8::from_str_radix` on `s[lo..hi]`.
pub fn parse_u8_range(s: &Vec<char>, lo: usize, hi: usize, radix: u32) -> (r: Option<u8>)
    requires
        lo <= hi <= s.len(),
        2 <= radix <= 36,
    ensures
        r == parse_u8_radix(s@.subrange(lo as int, hi as int), radix as int),
{
    match parse_unsigned_range(s, lo, hi, radix, 255) {
        Some(v) => {
            let b: u8 = v as u8;
            assert(b == v);
            Some(b)
        },
        None => None,
    }
}

/// `str::parse::<i64>` on `s[lo..hi]`.
pub fn parse_i64_range(s: &Vec<char>, lo: usize, hi: usize) -> (r: Option<i64>)
    requires
        lo <= hi <= s.len(),
    ensures
        r == parse_i64(s@.subrange(lo as int, hi as int)),
{
    let ghost t = s@.subrange(lo as int, hi as int);
    if lo < hi && s[lo] == '-' {
        assert(t.drop_first() =~= s@.subrange(lo + 1, hi as int));
        match parse_digits(s, lo + 1, hi, 10, 9223372036854775808u64) {
            Some(m) => {
                let v: i128 = -(m as i128);
                let r: i64 = v as i64;
                assert(r == -(m as int));
                Some(r)
            },
            None => None,
        }
    } else {
        match parse_unsigned_range(s, lo, hi, 10, 9223372036854775807u64) {
            Some(m) => {
                let r: i64 = m as i64;
                assert(r == m);
                Some(r)
            },
            None => None,
        }
    }
}

/// `s.parse::<i64>().ok()`.
pub fn parse_i64_str(s: &str) -> (r: Option<i64>)
    ensures
        r == parse_i64(s@),
{
    let v = crate::text::chars_of(s);
    assert(v@.subrange(0, v@.len() as int) =~= v@);
    parse_i64_range(&v, 0, v.len())
}

// ---------------------------------------------------------------------------
// Executable formatting
// ---------------------------------------------------------------------------

/// The character of a decimal digit.
pub fn decimal_digit_char(d: u64) -> (c: char)
    requires
        d < 10,
    ensures
        c == decimal_digit(d as int),
{
    let b: u8 = 48u8 + (d as u8);
    b as char
}

/// Append the decimal digits of `n` to `out`.
pub fn push_nat_decimal(out: &mut String, n: u64)
    ensures
        final(out)@ == old(out)@ + nat_to_decimal(n as nat),
    decreases n,
{
    if n >= 10 {
        push_nat_decimal(out, n / 10);
    }
    push_char(out, decimal_digit_char(n % 10));
    assert(final(out)@ =~= old(out)@ + nat_to_decimal(n as nat));
}

/// The `{}` text of an `i64`.
pub fn i64_to_string(n: i64) -> (r: String)
    ensures
        r@ == int_to_decimal(n as int),
{
    let mut out = String::new();
    if n < 0 {
        push_char(&mut out, '-');
        let m: u64 = (-(n as i128)) as u64;
        push_nat_decimal(&mut out, m);
    } else {
        push_nat_decimal(&mut out, n as u64);
    }
    assert(out@ =~= int_to_decimal(n as int));
    out
}

/// The lowercase hexadecimal digit character for `d`.
pub fn hex_digit_char(d: u8) -> (c: char)
    requires
        d < 16,
    ensures
        c == hex_digit(d as int),
{
    if d < 10 {
        (48u8 + d) as char
    } else {
        (87u8 + d) as char
    }
}

/// Append the `{:02x}` text of `b` to `out`.
pub fn push_hex2(out: &mut String, b: u8)
    ensures
        final(out)@ == old(out)@ + hex2(b),
{
    push_char(out, hex_digit_char(b / 16));
    push_char(out, hex_digit_char(b % 16));
    assert(final(out)@ =~= old(out)@ + hex2(b));
}

} // verus!
