//! RGBA colours and their two text notations: Klassy's `R,G,B` and
//! Kvantum's `#RRGGBB` / `#RRGGBBAA`.

use vstd::prelude::*;
use crate::num::{
    hex2, hex_digit, hex_pair, parse_hex_pair, lemma_hex2_round_trip, lemma_u8_round_trip, nat_to_decimal, parse_u8, parse_u8_radix, parse_u8_range, push_hex2, push_nat_decimal,
};
use crate::text::{
    all_ascii, ascii_lower, is_ws, trim_end, trim_start, chars_of, find_char, lowercase, push_char, split, split_ranges, str_eq, to_lowercase, trim,
    trim_bounds, trim_str,
};

verus! {

broadcast use vstd::string::group_string_axioms;

/// RGBA color with 8-bit components.
#[derive(Debug, Clone, Copy, PartialEq, Eq, Hash, Structural)]
pub struct Rgba {
    pub r: u8,
    pub g: u8,
    pub b: u8,
    pub a: u8,
}

impl Rgba {
    /// A colour from all four components.
    pub fn new(r: u8, g: u8, b: u8, a: u8) -> (c: Self)
        ensures
            c == (Rgba { r, g, b, a }),
    {
        Rgba { r, g, b, a }
    }

    /// An opaque colour (alpha 255).
    pub fn rgb(r: u8, g: u8, b: u8) -> (c: Self)
        ensures
            c == opaque(r, g, b),
    {
        Rgba { r, g, b, a: 255 }
    }
}

/// The opaque colour with the given components.
pub open spec fn opaque(r: u8, g: u8, b: u8) -> Rgba {
    Rgba { r, g, b, a: 255 }
}

// ---------------------------------------------------------------------------
// Specifications of the notations
// ---------------------------------------------------------------------------

/// Klassy notation `R,G,B` in decimal.
pub open spec fn klassy_text(c: Rgba) -> Seq<char> {
    nat_to_decimal(c.r as nat) + seq![','] + nat_to_decimal(c.g as nat) + seq![','] + nat_to_decimal(
        c.b as nat,
    )
}

/// Kvantum notation: `#rrggbb`, or `#rrggbbaa` when alpha is not 255.
pub open spec fn kvantum_text(c: Rgba) -> Seq<char> {
    if c.a == 255 {
        seq!['#'] + hex2(c.r) + hex2(c.g) + hex2(c.b)
    } else {
        seq!['#'] + hex2(c.r) + hex2(c.g) + hex2(c.b) + hex2(c.a)
    }
}

/// What `parse_klassy_color` accepts: exactly three comma-separated decimal
/// bytes, each possibly surrounded by white space.
pub open spec fn spec_parse_klassy(s: Seq<char>) -> Option<Rgba> {
    let p = split(s, ',');
    if p.len() != 3 {
        None
    } else {
        match (parse_u8(trim(p[0])), parse_u8(trim(p[1])), parse_u8(trim(p[2]))) {
            (Some(r), Some(g), Some(b)) => Some(opaque(r, g, b)),
            _ => None,
        }
    }
}

/// All characters are ASCII.
pub open spec fn is_ascii_seq(s: Seq<char>) -> bool {
    forall|i: int| 0 <= i < s.len() ==> #[trigger] s[i] < '\u{80}'
}

/// What `parse_kvantum_color` accepts: `#` then exactly six or eight
/// hexadecimal digits, read in pairs.
pub open spec fn spec_parse_kvantum(s: Seq<char>) -> Option<Rgba> {
    if !(s.len() > 0 && s[0] == '#') {
        None
    } else {
        let h = s.drop_first();
        if !is_ascii_seq(h) {
            None
        } else if h.len() == 6 {
            match (
                hex_pair(h.subrange(0, 2)),
                hex_pair(h.subrange(2, 4)),
                hex_pair(h.subrange(4, 6)),
            ) {
                (Some(r), Some(g), Some(b)) => Some(opaque(r, g, b)),
                _ => None,
            }
        } else if h.len() == 8 {
            match (
                hex_pair(h.subrange(0, 2)),
                hex_pair(h.subrange(2, 4)),
                hex_pair(h.subrange(4, 6)),
                hex_pair(h.subrange(6, 8)),
            ) {
                (Some(r), Some(g), Some(b), Some(a)) => Some(Rgba { r, g, b, a }),
                _ => None,
            }
        } else {
            None
        }
    }
}

/// Number of bytes of a character in UTF-8.
pub open spec fn char_utf8_len(c: char) -> nat {
    if (c as int) < 0x80 {
        1
    } else if (c as int) < 0x800 {
        2
    } else if (c as int) < 0x10000 {
        3
    } else {
        4
    }
}

/// Number of bytes of a text in UTF-8.
pub open spec fn utf8_len(s: Seq<char>) -> nat
    decreases s.len(),
{
    if s.len() == 0 {
        0
    } else {
        utf8_len(s.drop_last()) + char_utf8_len(s.last())
    }
}

/// Byte offset `k` falls between two characters of `s`.
pub open spec fn is_char_boundary(s: Seq<char>, k: int) -> bool {
    exists|i: int| 0 <= i <= s.len() && utf8_len(s.take(i)) == k
}

/// The byte slicing that Kvantum parsing performs on `s` stays on character
/// boundaries (slicing a `str` elsewhere panics).
pub open spec fn kvantum_slicing_ok(s: Seq<char>) -> bool {
    (s.len() > 0 && s[0] == '#') ==> {
        let h = s.drop_first();
        &&& utf8_len(h) == 6 ==> is_char_boundary(h, 2) && is_char_boundary(h, 4)
        &&& utf8_len(h) == 8 ==> is_char_boundary(h, 2) && is_char_boundary(h, 4)
            && is_char_boundary(h, 6)
    }
}

/// `try_parse` can read `s` without panicking.
pub open spec fn color_text_ok(s: Seq<char>) -> bool {
    kvantum_slicing_ok(trim(s))
}

/// The lowercase form of a text (`str::to_lowercase`): on ASCII text the
/// ASCII lowercase, otherwise the named Unicode mapping.
pub open spec fn lower_text(s: Seq<char>) -> Seq<char> {
    if all_ascii(s) {
        s.map_values(|c: char| ascii_lower(c))
    } else {
        lowercase(s)
    }
}

/// The named colours known to `try_parse`, matched on the lowercase form.
pub open spec fn spec_named_color(s: Seq<char>) -> Option<Rgba> {
    let l = lower_text(s);
    if l == "white"@ {
        Some(opaque(255, 255, 255))
    } else if l == "black"@ {
        Some(opaque(0, 0, 0))
    } else if l == "red"@ {
        Some(opaque(255, 0, 0))
    } else if l == "green"@ {
        Some(opaque(0, 128, 0))
    } else if l == "blue"@ {
        Some(opaque(0, 0, 255))
    } else if l == "yellow"@ {
        Some(opaque(255, 255, 0))
    } else if l == "cyan"@ {
        Some(opaque(0, 255, 255))
    } else if l == "magenta"@ {
        Some(opaque(255, 0, 255))
    } else if l == "transparent"@ {
        Some(Rgba { r: 0, g: 0, b: 0, a: 0 })
    } else {
        None
    }
}

/// Any supported notation: hex when it starts with `#`, `R,G,B` when it
/// holds a comma, otherwise a colour name.  White space around is ignored.
pub open spec fn spec_try_parse(s: Seq<char>) -> Option<Rgba> {
    let t = trim(s);
    if t.len() > 0 && t[0] == '#' {
        spec_parse_kvantum(t)
    } else if t.contains(',') {
        spec_parse_klassy(t)
    } else {
        spec_named_color(t)
    }
}

// ---------------------------------------------------------------------------
// Laws
// ---------------------------------------------------------------------------

proof fn lemma_ascii_utf8_len(s: Seq<char>)
    requires
        is_ascii_seq(s),
    ensures
        utf8_len(s) == s.len(),
    decreases s.len(),
{
    if s.len() > 0 {
        assert(s.last() == s[s.len() - 1]);
        assert(is_ascii_seq(s.drop_last()));
        lemma_ascii_utf8_len(s.drop_last());
    }
}

proof fn lemma_ascii_boundary(s: Seq<char>, k: int)
    requires
        is_ascii_seq(s),
        0 <= k <= s.len(),
    ensures
        is_char_boundary(s, k),
{
    assert(is_ascii_seq(s.take(k)));
    lemma_ascii_utf8_len(s.take(k));
}

/// `s` with its ASCII capitals made small.
pub open spec fn lowered(s: Seq<char>) -> Seq<char> {
    s.map_values(|c: char| ascii_lower(c))
}

proof fn lemma_trim_start_ascii(s: Seq<char>)
    requires
        all_ascii(s),
    ensures
        all_ascii(trim_start(s)),
    decreases s.len(),
{
    if s.len() > 0 && is_ws(s[0]) {
        assert(all_ascii(s.drop_first())) by {
            assert forall|i: int| 0 <= i < s.drop_first().len() implies (#[trigger] s.drop_first()[i]) < '\u{80}' by {
                assert(s.drop_first()[i] == s[i + 1]);
            }
        }
        lemma_trim_start_ascii(s.drop_first());
    }
}

proof fn lemma_trim_end_ascii(s: Seq<char>)
    requires
        all_ascii(s),
    ensures
        all_ascii(trim_end(s)),
    decreases s.len(),
{
    if s.len() > 0 && is_ws(s.last()) {
        assert(all_ascii(s.drop_last())) by {
            assert forall|i: int| 0 <= i < s.drop_last().len() implies (#[trigger] s.drop_last()[i]) < '\u{80}' by {
                assert(s.drop_last()[i] == s[i]);
            }
        }
        lemma_trim_end_ascii(s.drop_last());
    }
}

/// The colour names read as their standard colours, in any mix of capital
/// and small letters and with white space around: white, black, red
/// (255,0,0), green (0,128,0), blue (0,0,255), yellow, cyan, magenta, and
/// transparent (all zero).
pub proof fn lemma_named_colors(s: Seq<char>)
    requires
        all_ascii(s),
    ensures
        lowered(trim(s)) == "white"@ ==> spec_try_parse(s) == Some(Rgba { r: 255, g: 255, b: 255, a: 255 }),
        lowered(trim(s)) == "black"@ ==> spec_try_parse(s) == Some(Rgba { r: 0, g: 0, b: 0, a: 255 }),
        lowered(trim(s)) == "red"@ ==> spec_try_parse(s) == Some(Rgba { r: 255, g: 0, b: 0, a: 255 }),
        lowered(trim(s)) == "green"@ ==> spec_try_parse(s) == Some(Rgba { r: 0, g: 128, b: 0, a: 255 }),
        lowered(trim(s)) == "blue"@ ==> spec_try_parse(s) == Some(Rgba { r: 0, g: 0, b: 255, a: 255 }),
        lowered(trim(s)) == "yellow"@ ==> spec_try_parse(s) == Some(Rgba { r: 255, g: 255, b: 0, a: 255 }),
        lowered(trim(s)) == "cyan"@ ==> spec_try_parse(s) == Some(Rgba { r: 0, g: 255, b: 255, a: 255 }),
        lowered(trim(s)) == "magenta"@ ==> spec_try_parse(s) == Some(Rgba { r: 255, g: 0, b: 255, a: 255 }),
        lowered(trim(s)) == "transparent"@ ==> spec_try_parse(s) == Some(Rgba { r: 0, g: 0, b: 0, a: 0 }),
{
    let t = trim(s);
    lemma_trim_start_ascii(s);
    lemma_trim_end_ascii(trim_start(s));
    let l = lowered(t);
    assert(lower_text(t) == l);
    reveal_strlit("white");
    reveal_strlit("black");
    reveal_strlit("red");
    reveal_strlit("green");
    reveal_strlit("blue");
    reveal_strlit("yellow");
    reveal_strlit("cyan");
    reveal_strlit("magenta");
    reveal_strlit("transparent");
    if l.len() > 0 {
        assert(l[0] == ascii_lower(t[0]));
        assert(t[0] == '#' ==> l[0] == '#');
    }
    if t.contains(',') {
        let i = choose|i: int| 0 <= i < t.len() && t[i] == ',';
        assert(l[i] == ',');
    }
}

/// A colour name reads as the colour its Kvantum `#RRGGBB` text reads:
/// red as `#FF0000`, green as `#008000`, blue as `#0000FF`, and so on for
/// every name.
pub proof fn lemma_named_colors_match_hex(s: Seq<char>, name: Seq<char>, c: Rgba)
    requires
        all_ascii(s),
        lowered(trim(s)) == name,
        (name == "white"@ && c == opaque(255, 255, 255)) || (name == "black"@ && c == opaque(0, 0, 0))
            || (name == "red"@ && c == opaque(255, 0, 0)) || (name == "green"@ && c == opaque(0, 128, 0))
            || (name == "blue"@ && c == opaque(0, 0, 255)) || (name == "yellow"@ && c == opaque(255, 255, 0))
            || (name == "cyan"@ && c == opaque(0, 255, 255)) || (name == "magenta"@ && c == opaque(255, 0, 255)),
    ensures
        spec_try_parse(s) == spec_try_parse(kvantum_text(c)),
        spec_try_parse(s) == Some(c),
{
    lemma_named_colors(s);
    lemma_kvantum_round_trip(c);
}

/// A text whose first and last characters are not white space is its own trim.
pub proof fn lemma_trim_noop(s: Seq<char>)
    requires
        s.len() > 0,
        !is_ws(s[0]),
        !is_ws(s.last()),
    ensures
        trim(s) == s,
{
    assert(trim_start(s) == s);
}

proof fn lemma_hex2_chars(b: u8)
    ensures
        hex2(b).len() == 2,
        is_ascii_seq(hex2(b)),
        !hex2(b).contains(','),
        !is_ws(hex2(b)[1]),
{
    assert(hex2(b)[0] == hex_digit(b as int / 16));
    assert(hex2(b)[1] == hex_digit(b as int % 16));
}

/// Kvantum notation parses back to the colour it was written from.
pub proof fn lemma_kvantum_round_trip(c: Rgba)
    ensures
        kvantum_slicing_ok(kvantum_text(c)),
        color_text_ok(kvantum_text(c)),
        spec_parse_kvantum(kvantum_text(c)) == Some(c),
        spec_try_parse(kvantum_text(c)) == Some(c),
{
    let s = kvantum_text(c);
    let h = s.drop_first();
    lemma_hex2_chars(c.r);
    lemma_hex2_chars(c.g);
    lemma_hex2_chars(c.b);
    lemma_hex2_chars(c.a);
    lemma_hex2_round_trip(c.r);
    lemma_hex2_round_trip(c.g);
    lemma_hex2_round_trip(c.b);
    lemma_hex2_round_trip(c.a);
    if c.a == 255 {
        assert(h =~= hex2(c.r) + hex2(c.g) + hex2(c.b));
        assert(h.subrange(0, 2) =~= hex2(c.r));
        assert(h.subrange(2, 4) =~= hex2(c.g));
        assert(h.subrange(4, 6) =~= hex2(c.b));
    } else {
        assert(h =~= hex2(c.r) + hex2(c.g) + hex2(c.b) + hex2(c.a));
        assert(h.subrange(0, 2) =~= hex2(c.r));
        assert(h.subrange(2, 4) =~= hex2(c.g));
        assert(h.subrange(4, 6) =~= hex2(c.b));
        assert(h.subrange(6, 8) =~= hex2(c.a));
    }
    assert(is_ascii_seq(h));
    lemma_ascii_utf8_len(h);
    lemma_ascii_boundary(h, 2);
    lemma_ascii_boundary(h, 4);
    lemma_ascii_boundary(h, 6);
    assert(s.last() == h.last());
    assert(h.last() == h[h.len() - 1]);
    if c.a == 255 {
        assert(h[5] == hex2(c.b)[1]);
    } else {
        assert(h[7] == hex2(c.a)[1]);
    }
    lemma_trim_noop(s);
}

proof fn lemma_decimal_chars(n: nat)
    ensures
        nat_to_decimal(n).len() > 0,
        !nat_to_decimal(n).contains(','),
        !is_ws(nat_to_decimal(n)[0]),
        !is_ws(nat_to_decimal(n).last()),
        nat_to_decimal(n)[0] != '#',
    decreases n,
{
    if n >= 10 {
        lemma_decimal_chars(n / 10);
        let s = nat_to_decimal(n);
        let t = nat_to_decimal(n / 10);
        assert(s[0] == t[0]);
        assert forall|i: int| 0 <= i < s.len() implies s[i] != ',' by {
            if i < t.len() {
                assert(s[i] == t[i]);
            }
        }
    }
}

/// Klassy notation parses back to the colour (made opaque).
#[verifier::spinoff_prover]
#[verifier::rlimit(40)]
pub proof fn lemma_klassy_round_trip(c: Rgba)
    ensures
        color_text_ok(klassy_text(c)),
        spec_parse_klassy(klassy_text(c)) == Some(opaque(c.r, c.g, c.b)),
        spec_try_parse(klassy_text(c)) == Some(opaque(c.r, c.g, c.b)),
{
    let r = nat_to_decimal(c.r as nat);
    let g = nat_to_decimal(c.g as nat);
    let b = nat_to_decimal(c.b as nat);
    lemma_decimal_chars(c.r as nat);
    lemma_decimal_chars(c.g as nat);
    lemma_decimal_chars(c.b as nat);
    lemma_u8_round_trip(c.r);
    lemma_u8_round_trip(c.g);
    lemma_u8_round_trip(c.b);
    let s = klassy_text(c);
    crate::text::lemma_split_concat(r, g + seq![','] + b, ',');
    crate::text::lemma_split_concat(g, b, ',');
    crate::text::lemma_split_no_sep(b, ',');
    assert(s =~= r + seq![','] + (g + seq![','] + b));
    assert(split(s, ',') =~= seq![r, g, b]);
    lemma_trim_noop(r);
    lemma_trim_noop(g);
    lemma_trim_noop(b);
    assert(s[0] == r[0]);
    assert(s.last() == b.last());
    lemma_trim_noop(s);
    assert(s.contains(',')) by {
        assert(s[r.len() as int] == ',');
    }
}

// ---------------------------------------------------------------------------
// Executable functions
// ---------------------------------------------------------------------------

/// Format as Klassy "R,G,B".
pub fn to_klassy_color(c: &Rgba) -> (s: String)
    ensures
        s@ == klassy_text(*c),
{
    let mut out = String::new();
    push_nat_decimal(&mut out, c.r as u64);
    push_char(&mut out, ',');
    push_nat_decimal(&mut out, c.g as u64);
    push_char(&mut out, ',');
    push_nat_decimal(&mut out, c.b as u64);
    assert(out@ =~= klassy_text(*c));
    out
}

/// Format as Kvantum "#rrggbb" (or "#rrggbbaa" if alpha < 255).
pub fn to_kvantum_color(c: &Rgba) -> (s: String)
    ensures
        s@ == kvantum_text(*c),
{
    let mut out = String::new();
    push_char(&mut out, '#');
    push_hex2(&mut out, c.r);
    push_hex2(&mut out, c.g);
    push_hex2(&mut out, c.b);
    if c.a != 255 {
        push_hex2(&mut out, c.a);
    }
    assert(out@ =~= kvantum_text(*c));
    out
}

/// Parse Klassy "R,G,B" format (e.g. "255,179,174").
pub fn parse_klassy_color(s: &str) -> (r: Option<Rgba>)
    ensures
        r == spec_parse_klassy(s@),
{
    let v = chars_of(s);
    assert(v@.subrange(0, v@.len() as int) =~= v@);
    parse_klassy_chars(&v)
}

fn parse_klassy_chars(v: &Vec<char>) -> (r: Option<Rgba>)
    ensures
        r == spec_parse_klassy(v@),
{
    let parts = split_ranges(v, 0, v.len(), ',');
    assert(v@.subrange(0, v@.len() as int) =~= v@);
    if parts.len() != 3 {
        return None;
    }
    let r = parse_u8_part(v, parts[0]);
    let g = parse_u8_part(v, parts[1]);
    let b = parse_u8_part(v, parts[2]);
    match (r, g, b) {
        (Some(r), Some(g), Some(b)) => Some(Rgba::rgb(r, g, b)),
        _ => None,
    }
}

/// `s[range].trim().parse::<u8>().ok()`.
fn parse_u8_part(v: &Vec<char>, range: (usize, usize)) -> (r: Option<u8>)
    requires
        range.0 <= range.1 <= v.len(),
    ensures
        r == parse_u8(trim(v@.subrange(range.0 as int, range.1 as int))),
{
    let (a, b) = trim_bounds(v, range.0, range.1);
    parse_u8_range(v, a, b, 10)
}

/// Whether every character of `v[lo..hi]` is ASCII.
fn ascii_range(v: &Vec<char>, lo: usize, hi: usize) -> (r: bool)
    requires
        lo <= hi <= v.len(),
    ensures
        r == is_ascii_seq(v@.subrange(lo as int, hi as int)),
{
    let ghost t = v@.subrange(lo as int, hi as int);
    let mut i = lo;
    while i < hi
        invariant
            lo <= i <= hi <= v.len(),
            t == v@.subrange(lo as int, hi as int),
            forall|j: int| 0 <= j < i - lo ==> #[trigger] t[j] < '\u{80}',
        decreases hi - i,
    {
        if v[i] >= '\u{80}' {
            assert(t[i - lo] >= '\u{80}');
            return false;
        }
        i += 1;
    }
    true
}

/// Parse Kvantum "#RRGGBB" or "#RRGGBBAA" format.
pub fn parse_kvantum_color(s: &str) -> (r: Option<Rgba>)
    requires
        kvantum_slicing_ok(s@),
    ensures
        r == spec_parse_kvantum(s@),
{
    let v = chars_of(s);
    assert(v@.subrange(0, v@.len() as int) =~= v@);
    parse_kvantum_chars(&v, 0, v.len())
}

fn parse_kvantum_chars(v: &Vec<char>, lo: usize, hi: usize) -> (r: Option<Rgba>)
    requires
        lo <= hi <= v.len(),
    ensures
        r == spec_parse_kvantum(v@.subrange(lo as int, hi as int)),
{
    let ghost s = v@.subrange(lo as int, hi as int);
    if !(lo < hi && v[lo] == '#') {
        return None;
    }
    let ghost h = s.drop_first();
    assert(h =~= v@.subrange(lo + 1, hi as int));
    if !ascii_range(v, lo + 1, hi) {
        return None;
    }
    let n = hi - lo - 1;
    let p = lo + 1;
    assert(forall|a: int, b: int|
        0 <= a <= b <= n ==> h.subrange(a, b) =~= v@.subrange(p + a, p + b));
    if n == 6 {
        let r = parse_hex_pair(v, p);
        let g = parse_hex_pair(v, p + 2);
        let b = parse_hex_pair(v, p + 4);
        match (r, g, b) {
            (Some(r), Some(g), Some(b)) => Some(Rgba::rgb(r, g, b)),
            _ => None,
        }
    } else if n == 8 {
        let r = parse_hex_pair(v, p);
        let g = parse_hex_pair(v, p + 2);
        let b = parse_hex_pair(v, p + 4);
        let a = parse_hex_pair(v, p + 6);
        match (r, g, b, a) {
            (Some(r), Some(g), Some(b), Some(a)) => Some(Rgba::new(r, g, b, a)),
            _ => None,
        }
    } else {
        None
    }
}

/// Named color lookup.
fn named_color(name: &str) -> (r: Option<Rgba>)
    ensures
        r == spec_named_color(name@),
{
    let l = to_lowercase(name);
    let l = l.as_str();
    if str_eq(l, "white") {
        Some(Rgba::rgb(255, 255, 255))
    } else if str_eq(l, "black") {
        Some(Rgba::rgb(0, 0, 0))
    } else if str_eq(l, "red") {
        Some(Rgba::rgb(255, 0, 0))
    } else if str_eq(l, "green") {
        Some(Rgba::rgb(0, 128, 0))
    } else if str_eq(l, "blue") {
        Some(Rgba::rgb(0, 0, 255))
    } else if str_eq(l, "yellow") {
        Some(Rgba::rgb(255, 255, 0))
    } else if str_eq(l, "cyan") {
        Some(Rgba::rgb(0, 255, 255))
    } else if str_eq(l, "magenta") {
        Some(Rgba::rgb(255, 0, 255))
    } else if str_eq(l, "transparent") {
        Some(Rgba::new(0, 0, 0, 0))
    } else {
        None
    }
}

/// Try to parse a color from any supported format (hex, R,G,B, named).
pub fn try_parse(s: &str) -> (r: Option<Rgba>)
    requires
        color_text_ok(s@),
    ensures
        r == spec_try_parse(s@),
{
    let t = trim_str(s);
    let v = chars_of(t.as_str());
    if v.len() > 0 && v[0] == '#' {
        assert(v@.subrange(0, v@.len() as int) =~= v@);
        parse_kvantum_chars(&v, 0, v.len())
    } else if find_char(&v, 0, v.len(), ',').is_some() {
        assert(v@.subrange(0, v@.len() as int) =~= v@);
        parse_klassy_chars(&v)
    } else {
        assert(v@.subrange(0, v@.len() as int) =~= v@);
        named_color(t.as_str())
    }
}

// ---------------------------------------------------------------------------
// Checking that a text can be read
// ---------------------------------------------------------------------------

/// The number of bytes of `c` in UTF-8.
fn char_byte_len(c: char) -> (n: u64)
    ensures
        n == char_utf8_len(c),
{
    let v = c as u32;
    if v < 0x80 {
        1
    } else if v < 0x800 {
        2
    } else if v < 0x10000 {
        3
    } else {
        4
    }
}

/// Whether `try_parse` can read `s` without panicking (its hexadecimal
/// notation is only sliced on character boundaries).
pub fn color_text_checked(s: &str) -> (r: bool)
    ensures
        r == color_text_ok(s@),
{
    let t = trim_str(s);
    let v = chars_of(t.as_str());
    if !(v.len() > 0 && v[0] == '#') {
        return true;
    }
    let ghost h = v@.drop_first();
    let mut acc: u64 = 0;
    let mut hit2 = false;
    let mut hit4 = false;
    let mut hit6 = false;
    let mut i: usize = 1;
    assert(h.take(0) =~= Seq::<char>::empty());
    while i < v.len()
        invariant
            1 <= i <= v.len(),
            h == v@.drop_first(),
            acc == if utf8_len(h.take(i - 1)) < 9 { utf8_len(h.take(i - 1)) } else { 9 },
            hit2 == exists|j: int| 0 <= j <= i - 1 && utf8_len(h.take(j)) == 2,
            hit4 == exists|j: int| 0 <= j <= i - 1 && utf8_len(h.take(j)) == 4,
            hit6 == exists|j: int| 0 <= j <= i - 1 && utf8_len(h.take(j)) == 6,
        decreases v.len() - i,
    {
        let ghost k = (i - 1) as int;
        assert(h.take(k + 1).drop_last() =~= h.take(k));
        assert(h.take(k + 1).last() == v@[i as int]);
        let n = char_byte_len(v[i]);
        if acc < 9 {
            acc = acc + n;
            if acc > 9 {
                acc = 9;
            }
        }
        proof {
            assert(utf8_len(h.take(k + 1)) == utf8_len(h.take(k)) + char_utf8_len(v@[i as int]));
        }
        if acc == 2 {
            hit2 = true;
        }
        if acc == 4 {
            hit4 = true;
        }
        if acc == 6 {
            hit6 = true;
        }
        proof {
            assert forall|j: int| 0 <= j <= k + 1 && utf8_len(h.take(j)) == 2 implies hit2 by {}
            assert forall|j: int| 0 <= j <= k + 1 && utf8_len(h.take(j)) == 4 implies hit4 by {}
            assert forall|j: int| 0 <= j <= k + 1 && utf8_len(h.take(j)) == 6 implies hit6 by {}
        }
        i += 1;
    }
    assert(h.take(h.len() as int) =~= h);
    proof {
        assert forall|k: int| #![auto] is_char_boundary(h, k) <==> exists|j: int| 0 <= j <= h.len() && utf8_len(h.take(j)) == k by {}
    }
    let total_ok = if acc == 6 {
        hit2 && hit4
    } else if acc == 8 {
        hit2 && hit4 && hit6
    } else {
        true
    };
    total_ok
}

} // verus!
