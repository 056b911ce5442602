//! Typed reading and writing of text values kept in a `StrMap`.

use vstd::prelude::*;
use crate::color::{color_text_checked, color_text_ok, spec_try_parse, try_parse, Rgba};
use crate::num::{int_to_decimal, lemma_i64_round_trip, parse_i64, parse_i64_str, i64_to_string};
use crate::strmap::StrMap;
use crate::text::str_eq;

verus! {

broadcast use vstd::string::group_string_axioms;

/// The value stored under `k`, if any.
pub open spec fn lookup(m: Map<Seq<char>, Seq<char>>, k: Seq<char>) -> Option<Seq<char>> {
    if m.contains_key(k) {
        Some(m[k])
    } else {
        None
    }
}

/// `true` or `false` as text.
pub open spec fn bool_text(b: bool) -> Seq<char> {
    if b {
        "true"@
    } else {
        "false"@
    }
}

/// A stored flag: present values read as `true` exactly when they are the
/// text `true`.
pub open spec fn bool_at(m: Map<Seq<char>, Seq<char>>, k: Seq<char>) -> Option<bool> {
    match lookup(m, k) {
        Some(v) => Some(v == "true"@),
        None => None,
    }
}

/// A stored integer (absent or unparseable values give `None`).
pub open spec fn int_at(m: Map<Seq<char>, Seq<char>>, k: Seq<char>) -> Option<i64> {
    match lookup(m, k) {
        Some(v) => parse_i64(v),
        None => None,
    }
}

/// A stored colour in any notation.
pub open spec fn color_at(m: Map<Seq<char>, Seq<char>>, k: Seq<char>) -> Option<Rgba> {
    match lookup(m, k) {
        Some(v) => spec_try_parse(v),
        None => None,
    }
}

/// The value under `k` can be read as a colour without panicking.
pub open spec fn color_ok(m: Map<Seq<char>, Seq<char>>, k: Seq<char>) -> bool {
    m.contains_key(k) ==> color_text_ok(m[k])
}

/// A flag with a default for absent keys.
pub open spec fn bool_or(m: Map<Seq<char>, Seq<char>>, k: Seq<char>, d: bool) -> bool {
    match bool_at(m, k) {
        Some(b) => b,
        None => d,
    }
}

/// An integer with a default for absent or unparseable values.
pub open spec fn int_or(m: Map<Seq<char>, Seq<char>>, k: Seq<char>, d: i64) -> i64 {
    match int_at(m, k) {
        Some(i) => i,
        None => d,
    }
}

/// A text with a default for absent keys.
pub open spec fn text_or(m: Map<Seq<char>, Seq<char>>, k: Seq<char>, d: Seq<char>) -> Seq<char> {
    match lookup(m, k) {
        Some(v) => v,
        None => d,
    }
}

/// The map with `k` set to the given text, or removed for `None`.
pub open spec fn with_opt(m: Map<Seq<char>, Seq<char>>, k: Seq<char>, v: Option<Seq<char>>) -> Map<
    Seq<char>,
    Seq<char>,
> {
    match v {
        Some(s) => m.insert(k, s),
        None => m.remove(k),
    }
}

/// The text of an optional flag.
pub open spec fn opt_bool_text(v: Option<bool>) -> Option<Seq<char>> {
    match v {
        Some(b) => Some(bool_text(b)),
        None => None,
    }
}

/// The text of an optional integer.
pub open spec fn opt_int_text(v: Option<i64>) -> Option<Seq<char>> {
    match v {
        Some(i) => Some(int_to_decimal(i as int)),
        None => None,
    }
}

/// The text of an optional string.
pub open spec fn opt_string_text(v: Option<String>) -> Option<Seq<char>> {
    match v {
        Some(s) => Some(s@),
        None => None,
    }
}

// ---------------------------------------------------------------------------
// Laws
// ---------------------------------------------------------------------------

/// A flag reads back as written.
pub proof fn lemma_bool_round_trip(m: Map<Seq<char>, Seq<char>>, k: Seq<char>, b: bool)
    ensures
        bool_at(m.insert(k, bool_text(b)), k) == Some(b),
        bool_or(m.insert(k, bool_text(b)), k, true) == b,
        bool_or(m.insert(k, bool_text(b)), k, false) == b,
{
    reveal_strlit("true");
    reveal_strlit("false");
    assert("true"@ != "false"@) by {
        assert("true"@.len() != "false"@.len());
    }
}

/// An integer reads back as written.
pub proof fn lemma_int_round_trip(m: Map<Seq<char>, Seq<char>>, k: Seq<char>, v: i64, d: i64)
    ensures
        int_at(m.insert(k, int_to_decimal(v as int)), k) == Some(v),
        int_or(m.insert(k, int_to_decimal(v as int)), k, d) == v,
{
    lemma_i64_round_trip(v);
}

/// Writing one key leaves every other key as it was.
pub proof fn lemma_other_keys(m: Map<Seq<char>, Seq<char>>, k: Seq<char>, v: Option<Seq<char>>, k2: Seq<char>)
    requires
        k2 != k,
    ensures
        lookup(with_opt(m, k, v), k2) == lookup(m, k2),
{
}

/// Removing a key makes it absent.
pub proof fn lemma_removed(m: Map<Seq<char>, Seq<char>>, k: Seq<char>)
    ensures
        lookup(with_opt(m, k, None), k) is None,
        bool_at(with_opt(m, k, None), k) is None,
        int_at(with_opt(m, k, None), k) is None,
{
}

// ---------------------------------------------------------------------------
// Executable helpers
// ---------------------------------------------------------------------------

/// `b.to_string()`.
pub fn bool_string(b: bool) -> (s: String)
    ensures
        s@ == bool_text(b),
{
    if b {
        "true".to_string()
    } else {
        "false".to_string()
    }
}

/// The stored text under `key`.
pub fn get_text<'a>(m: &'a StrMap, key: &str) -> (r: Option<&'a str>)
    ensures
        match r {
            Some(v) => lookup(m@, key@) == Some(v@),
            None => lookup(m@, key@) is None,
        },
{
    m.get_str(key)
}

/// The stored flag under `key`.
pub fn get_bool(m: &StrMap, key: &str) -> (r: Option<bool>)
    ensures
        r == bool_at(m@, key@),
{
    match m.get_str(key) {
        Some(v) => Some(str_eq(v, "true")),
        None => None,
    }
}

/// The stored integer under `key`.
pub fn get_int(m: &StrMap, key: &str) -> (r: Option<i64>)
    ensures
        r == int_at(m@, key@),
{
    match m.get_str(key) {
        Some(v) => parse_i64_str(v),
        None => None,
    }
}

/// The stored colour under `key`.
pub fn get_color(m: &StrMap, key: &str) -> (r: Option<Rgba>)
    requires
        color_ok(m@, key@),
    ensures
        r == color_at(m@, key@),
{
    match m.get_str(key) {
        Some(v) => try_parse(v),
        None => None,
    }
}

/// Whether the value under `key`, if any, can be read as a colour.
pub fn color_readable(m: &StrMap, key: &str) -> (r: bool)
    ensures
        r == color_ok(m@, key@),
{
    match m.get_str(key) {
        Some(v) => color_text_checked(v),
        None => true,
    }
}

/// Store a flag, or remove the key for `None`.
pub fn set_opt_bool(m: &mut StrMap, key: &str, v: Option<bool>)
    ensures
        final(m)@ == with_opt(old(m)@, key@, opt_bool_text(v)),
{
    match v {
        Some(b) => m.set(key, bool_string(b)),
        None => {
            m.remove(key);
        },
    }
}

/// Store an integer, or remove the key for `None`.
pub fn set_opt_int(m: &mut StrMap, key: &str, v: Option<i64>)
    ensures
        final(m)@ == with_opt(old(m)@, key@, opt_int_text(v)),
{
    match v {
        Some(i) => m.set(key, i64_to_string(i)),
        None => {
            m.remove(key);
        },
    }
}

/// Store a text, or remove the key for `None`.
pub fn set_opt_string(m: &mut StrMap, key: &str, v: Option<String>)
    ensures
        final(m)@ == with_opt(old(m)@, key@, opt_string_text(v)),
{
    match v {
        Some(s) => m.set(key, s),
        None => {
            m.remove(key);
        },
    }
}

} // verus!
