//! Rewriting the colour literals of an SVG: the `#RRGGBB` literals are
//! replaced first, then the `#RGB` literals that are not the start of a
//! longer run of hex digits.  Which colour each literal becomes is given
//! as a table; the literals are found with `regex`.

use vstd::prelude::*;
use crate::num::is_radix_digit;
use crate::strmap::StrMap;
use crate::text::{chars_of, texts};

verus! {

broadcast use vstd::string::group_string_axioms;

// ---------------------------------------------------------------------------
// Finding the literals
// ---------------------------------------------------------------------------

/// The text split at the matches of a regular expression: the text before
/// the first match, the match, the text up to the next match, and so on,
/// ending with the text after the last match; `None` for a pattern that is
/// not a valid regular expression.
pub uninterp spec fn regex_pieces(pattern: Seq<char>, text: Seq<char>) -> Option<Seq<Seq<char>>>;

/// The pieces put back together.
pub open spec fn joined(ps: Seq<Seq<char>>) -> Seq<char>
    decreases ps.len(),
{
    if ps.len() == 0 {
        Seq::empty()
    } else {
        joined(ps.drop_last()) + ps.last()
    }
}

/// `#` followed by `n` hexadecimal digits.
pub open spec fn is_hex_literal(p: Seq<char>, n: int) -> bool {
    &&& p.len() == n + 1
    &&& p[0] == '#'
    &&& forall|i: int| 1 <= i < p.len() ==> is_radix_digit(#[trigger] p[i], 16)
}

/// `regex::Regex::new(pattern)` and `find_iter(text)`: the text cut at the
/// successive non-overlapping matches (odd places hold the matches), or
/// `None` when the pattern is rejected.  The pieces depend on the pattern
/// and the text alone and are named `regex_pieces`; as the matches are in
/// order and do not overlap, the pieces make up the text; a match of one
/// of the two colour patterns is `#` and six (or three) hex digits.
#[verifier::external_body]
fn regex_split(pattern: &str, text: &str) -> (r: Option<Vec<String>>)
    ensures
        match r {
            Some(v) => {
                &&& regex_pieces(pattern@, text@) == Some(texts(v@))
                &&& v@.len() % 2 == 1
                &&& joined(texts(v@)) == text@
                &&& pattern@ == six_pattern() ==> forall|k: int|
                    0 <= k < v@.len() && k % 2 == 1 ==> is_hex_literal(#[trigger] texts(v@)[k], 6)
                &&& pattern@ == three_pattern() ==> forall|k: int|
                    0 <= k < v@.len() && k % 2 == 1 ==> is_hex_literal(#[trigger] texts(v@)[k], 3)
            },
            None => regex_pieces(pattern@, text@) is None,
        },
{
    let re = regex::Regex::new(pattern).ok()?;
    let mut pieces = Vec::new();
    let mut last: usize = 0;
    for m in re.find_iter(text) {
        pieces.push(text[last..m.start()].to_string());
        pieces.push(m.as_str().to_string());
        last = m.end();
    }
    pieces.push(text[last..].to_string());
    Some(pieces)
}

/// The pattern of a six-digit colour literal.
pub open spec fn six_pattern() -> Seq<char> {
    "#[0-9a-fA-F]{6}"@
}

/// The pattern of a three-digit colour literal.
pub open spec fn three_pattern() -> Seq<char> {
    "#[0-9a-fA-F]{3}"@
}

// ---------------------------------------------------------------------------
// Replacing them
// ---------------------------------------------------------------------------

/// The match at `i` is directly followed by a hexadecimal digit.
pub open spec fn followed_by_hex(ps: Seq<Seq<char>>, i: int) -> bool {
    i + 1 < ps.len() && ps[i + 1].len() > 0 && is_radix_digit(ps[i + 1][0], 16)
}

/// The match at `i` is replaced: it is in the table and, when `guard` is
/// set, not followed by a hexadecimal digit.
pub open spec fn is_replaced(ps: Seq<Seq<char>>, i: int, table: Map<Seq<char>, Seq<char>>, guard: bool) -> bool {
    &&& i % 2 == 1
    &&& table.contains_key(ps[i])
    &&& !(guard && followed_by_hex(ps, i))
}

/// The piece at `i` after replacement.
pub open spec fn piece_after(ps: Seq<Seq<char>>, i: int, table: Map<Seq<char>, Seq<char>>, guard: bool) -> Seq<char> {
    if is_replaced(ps, i, table, guard) {
        table[ps[i]]
    } else {
        ps[i]
    }
}

/// The first `k` pieces after replacement, put together.
pub open spec fn replaced_prefix(
    ps: Seq<Seq<char>>,
    k: int,
    table: Map<Seq<char>, Seq<char>>,
    guard: bool,
) -> Seq<char>
    decreases k,
{
    if k <= 0 {
        Seq::empty()
    } else {
        replaced_prefix(ps, k - 1, table, guard) + piece_after(ps, k - 1, table, guard)
    }
}

/// The matches at the first `k` pieces that are candidates for replacement
/// (when `guard` is set, those not followed by a hexadecimal digit).
pub open spec fn literals_prefix(ps: Seq<Seq<char>>, k: int, guard: bool) -> Seq<Seq<char>>
    decreases k,
{
    if k <= 0 {
        Seq::empty()
    } else {
        let prev = literals_prefix(ps, k - 1, guard);
        if (k - 1) % 2 == 1 && !(guard && followed_by_hex(ps, k - 1)) {
            prev.push(ps[k - 1])
        } else {
            prev
        }
    }
}

/// The text with its literals of `pattern` replaced through the table, or
/// the text unchanged when the pattern is rejected.
pub open spec fn replaced_text(
    pattern: Seq<char>,
    text: Seq<char>,
    table: Map<Seq<char>, Seq<char>>,
    guard: bool,
) -> Seq<char> {
    match regex_pieces(pattern, text) {
        Some(ps) => replaced_prefix(ps, ps.len() as int, table, guard),
        None => text,
    }
}

/// The literals of `pattern` in the text, in order (with repeats).
pub open spec fn literals_of(pattern: Seq<char>, text: Seq<char>, guard: bool) -> Seq<Seq<char>> {
    match regex_pieces(pattern, text) {
        Some(ps) => literals_prefix(ps, ps.len() as int, guard),
        None => Seq::empty(),
    }
}

/// Whether a piece starts with a hexadecimal digit.
fn starts_with_hex(p: &String) -> (r: bool)
    ensures
        r == (p@.len() > 0 && is_radix_digit(p@[0], 16)),
{
    let v = chars_of(p.as_str());
    v.len() > 0 && crate::num::digit_of(v[0], 16).is_some()
}

/// Replace the literals among `pieces` through the table.
fn replace_pieces(pieces: &Vec<String>, table: &StrMap, guard: bool) -> (r: String)
    ensures
        r@ == replaced_prefix(texts(pieces@), pieces@.len() as int, table@, guard),
{
    let ghost ps = texts(pieces@);
    let mut out = String::new();
    let mut i: usize = 0;
    while i < pieces.len()
        invariant
            i <= pieces.len(),
            ps == texts(pieces@),
            out@ == replaced_prefix(ps, i as int, table@, guard),
        decreases pieces.len() - i,
    {
        let p = &pieces[i];
        assert(ps[i as int] == p@);
        let follows = i + 1 < pieces.len() && starts_with_hex(&pieces[i + 1]);
        proof {
            if i + 1 < pieces.len() {
                assert(ps[i + 1] == pieces@[i + 1]@);
            }
            assert(follows == followed_by_hex(ps, i as int));
        }
        let candidate = i % 2 == 1 && !(guard && follows);
        match table.get(p.as_str()) {
            Some(t) => {
                if candidate {
                    out.append(t.as_str());
                } else {
                    out.append(p.as_str());
                }
            },
            None => out.append(p.as_str()),
        }
        i += 1;
    }
    out
}

/// The literals among `pieces`, in order.
fn literal_pieces(pieces: &Vec<String>, guard: bool, Ghost(n): Ghost<int>) -> (r: Vec<String>)
    requires
        forall|k: int| 0 <= k < pieces@.len() && k % 2 == 1 ==> is_hex_literal(#[trigger] texts(pieces@)[k], n),
    ensures
        texts(r@) == literals_prefix(texts(pieces@), pieces@.len() as int, guard),
        forall|k: int| 0 <= k < r@.len() ==> is_hex_literal(#[trigger] texts(r@)[k], n),
{
    let ghost ps = texts(pieces@);
    let mut out: Vec<String> = Vec::new();
    let mut i: usize = 0;
    while i < pieces.len()
        invariant
            i <= pieces.len(),
            ps == texts(pieces@),
            texts(out@) == literals_prefix(ps, i as int, guard),
            forall|k: int| 0 <= k < pieces@.len() && k % 2 == 1 ==> is_hex_literal(#[trigger] ps[k], n),
            forall|k: int| 0 <= k < out@.len() ==> is_hex_literal(#[trigger] texts(out@)[k], n),
        decreases pieces.len() - i,
    {
        assert(ps[i as int] == pieces@[i as int]@);
        let follows = i + 1 < pieces.len() && starts_with_hex(&pieces[i + 1]);
        proof {
            if i + 1 < pieces.len() {
                assert(ps[i + 1] == pieces@[i + 1]@);
            }
            assert(follows == followed_by_hex(ps, i as int));
        }
        if i % 2 == 1 && !(guard && follows) {
            let ghost before = out@;
            out.push(pieces[i].clone());
            assert(texts(out@) =~= texts(before).push(ps[i as int]));
            assert forall|k: int| 0 <= k < out@.len() implies is_hex_literal(#[trigger] texts(out@)[k], n) by {
                if k < before.len() {
                    assert(texts(out@)[k] == texts(before)[k]);
                }
            }
        }
        i += 1;
    }
    out
}

/// The `#RRGGBB` literals of an SVG, in order (with repeats).
pub fn six_hex_literals(svg: &str) -> (r: Vec<String>)
    ensures
        texts(r@) == literals_of(six_pattern(), svg@, false),
        forall|k: int| 0 <= k < r@.len() ==> is_hex_literal(#[trigger] texts(r@)[k], 6),
{
    match regex_split("#[0-9a-fA-F]{6}", svg) {
        Some(pieces) => literal_pieces(&pieces, false, Ghost(6)),
        None => Vec::new(),
    }
}

/// The `#RGB` literals of a text that are not followed by another
/// hexadecimal digit, in order (with repeats).
pub fn three_hex_literals(text: &str) -> (r: Vec<String>)
    ensures
        texts(r@) == literals_of(three_pattern(), text@, true),
        forall|k: int| 0 <= k < r@.len() ==> is_hex_literal(#[trigger] texts(r@)[k], 3),
{
    match regex_split("#[0-9a-fA-F]{3}", text) {
        Some(pieces) => literal_pieces(&pieces, true, Ghost(3)),
        None => Vec::new(),
    }
}

/// Replace every `#RRGGBB` literal of the SVG that the table names by the
/// table's text for it.
pub fn replace_six_literals(svg: &str, table: &StrMap) -> (r: String)
    ensures
        r@ == replaced_text(six_pattern(), svg@, table@, false),
{
    match regex_split("#[0-9a-fA-F]{6}", svg) {
        Some(pieces) => replace_pieces(&pieces, table, false),
        None => svg.to_string(),
    }
}

/// Replace every `#RGB` literal of the text that the table names, and that
/// is not followed by another hexadecimal digit, by the table's text for it.
pub fn replace_three_literals(text: &str, table: &StrMap) -> (r: String)
    ensures
        r@ == replaced_text(three_pattern(), text@, table@, true),
{
    match regex_split("#[0-9a-fA-F]{3}", text) {
        Some(pieces) => replace_pieces(&pieces, table, true),
        None => text.to_string(),
    }
}

} // verus!
