//! Choosing the user's languages from the gettext environment variables,
//! and reading `key = "value"` translation files.

use vstd::prelude::*;
use crate::strmap::StrMap;
use crate::text::{
    chars_of, ends_with, has_prefix, has_suffix, line_ranges, lines, split, split_ranges, starts_with, str_eq,
    string_of_range, texts, trim, trim_bounds,
};

verus! {

broadcast use vstd::string::group_string_axioms;

/// `s` up to the first `a` or `b` (all of `s` when neither occurs).
pub open spec fn upto(s: Seq<char>, a: char, b: char) -> Seq<char>
    decreases s.len(),
{
    if s.len() == 0 {
        s
    } else if s[0] == a || s[0] == b {
        Seq::empty()
    } else {
        seq![s[0]] + upto(s.drop_first(), a, b)
    }
}

/// A value that names no language.
pub open spec fn names_no_language(t: Seq<char>) -> bool {
    t.len() == 0 || t == "C"@ || t == "POSIX"@
}

/// `out` with the candidate for `locale` (and its language, the part
/// before `_`) appended, unless it is empty or already there.
pub open spec fn add_locale(out: Seq<(Seq<char>, Seq<char>)>, locale: Seq<char>) -> Seq<
    (Seq<char>, Seq<char>),
> {
    if locale.len() == 0 {
        out
    } else {
        let e = (locale, upto(locale, '_', '_'));
        if out.contains(e) {
            out
        } else {
            out.push(e)
        }
    }
}

/// `out` with the candidates of the pieces of one colon-separated value.
pub open spec fn add_pieces(out: Seq<(Seq<char>, Seq<char>)>, ps: Seq<Seq<char>>) -> Seq<
    (Seq<char>, Seq<char>),
>
    decreases ps.len(),
{
    if ps.len() == 0 {
        out
    } else {
        let prev = add_pieces(out, ps.drop_last());
        let p = trim(ps.last());
        if names_no_language(p) {
            prev
        } else {
            add_locale(prev, upto(p, '.', '@'))
        }
    }
}

/// `out` with the candidates of each value that is set, in order.
pub open spec fn add_values(vals: Seq<Option<Seq<char>>>) -> Seq<(Seq<char>, Seq<char>)>
    decreases vals.len(),
{
    if vals.len() == 0 {
        Seq::empty()
    } else {
        let prev = add_values(vals.drop_last());
        match vals.last() {
            Some(v) => {
                let t = trim(v);
                if names_no_language(t) {
                    prev
                } else {
                    add_pieces(prev, split(t, ':'))
                }
            },
            None => prev,
        }
    }
}

/// The `(locale, language)` candidates of the values of `LANGUAGE`,
/// `LC_ALL`, `LC_MESSAGES` and `LANG`, in priority order; English when
/// there is none.
pub open spec fn locale_candidates(vals: Seq<Option<Seq<char>>>) -> Seq<(Seq<char>, Seq<char>)> {
    let out = add_values(vals);
    if out.len() == 0 {
        seq![("en"@, "en"@)]
    } else {
        out
    }
}

/// The views of optional strings.
pub open spec fn opt_texts(v: Seq<Option<String>>) -> Seq<Option<Seq<char>>> {
    v.map_values(|o: Option<String>| match o {
        Some(s) => Some(s@),
        None => None,
    })
}

/// The views of pairs of strings.
pub open spec fn pair_texts(v: Seq<(String, String)>) -> Seq<(Seq<char>, Seq<char>)> {
    v.map_values(|p: (String, String)| (p.0@, p.1@))
}

/// The characters of `v[lo..hi]` up to the first `a` or `b`, as an end
/// position.
fn upto_end(v: &Vec<char>, lo: usize, hi: usize, a: char, b: char) -> (e: usize)
    requires
        lo <= hi <= v.len(),
    ensures
        lo <= e <= hi,
        v@.subrange(lo as int, e as int) == upto(v@.subrange(lo as int, hi as int), a, b),
{
    let mut e = lo;
    while e < hi && v[e] != a && v[e] != b
        invariant
            lo <= e <= hi <= v.len(),
            upto(v@.subrange(lo as int, hi as int), a, b) == v@.subrange(lo as int, e as int) + upto(
                v@.subrange(e as int, hi as int),
                a,
                b,
            ),
        decreases hi - e,
    {
        let ghost rest = v@.subrange(e as int, hi as int);
        assert(rest.drop_first() =~= v@.subrange(e + 1, hi as int));
        assert(v@.subrange(lo as int, e + 1) =~= v@.subrange(lo as int, e as int) + seq![v@[e as int]]);
        e += 1;
    }
    if e < hi {
        assert(v@.subrange(e as int, hi as int)[0] == v@[e as int]);
    }
    assert(v@.subrange(lo as int, e as int) + Seq::<char>::empty() =~= v@.subrange(lo as int, e as int));
    e
}

fn contains_pair(out: &Vec<(String, String)>, a: &str, b: &str) -> (r: bool)
    ensures
        r == pair_texts(out@).contains((a@, b@)),
{
    let mut i: usize = 0;
    while i < out.len()
        invariant
            i <= out.len(),
            forall|j: int| 0 <= j < i ==> pair_texts(out@)[j] != (a@, b@),
        decreases out.len() - i,
    {
        if str_eq(out[i].0.as_str(), a) && str_eq(out[i].1.as_str(), b) {
            assert(pair_texts(out@)[i as int] == (a@, b@));
            return true;
        }
        i += 1;
    }
    false
}

fn is_no_language(v: &Vec<char>, lo: usize, hi: usize) -> (r: bool)
    requires
        lo <= hi <= v.len(),
    ensures
        r == names_no_language(v@.subrange(lo as int, hi as int)),
{
    let s = string_of_range(v, lo, hi);
    lo == hi || str_eq(s.as_str(), "C") || str_eq(s.as_str(), "POSIX")
}

fn push_locale(out: &mut Vec<(String, String)>, v: &Vec<char>, lo: usize, hi: usize)
    requires
        lo <= hi <= v.len(),
    ensures
        pair_texts(final(out)@) == add_locale(pair_texts(old(out)@), v@.subrange(lo as int, hi as int)),
{
    if lo == hi {
        return;
    }
    let e = upto_end(v, lo, hi, '_', '_');
    let locale = string_of_range(v, lo, hi);
    let lang = string_of_range(v, lo, e);
    if !contains_pair(out, locale.as_str(), lang.as_str()) {
        let ghost prev = out@;
        out.push((locale, lang));
        assert(pair_texts(out@) =~= pair_texts(prev).push((v@.subrange(lo as int, hi as int), v@.subrange(lo as int, e as int))));
    }
}

/// The `(locale, language)` candidates of the raw values of `LANGUAGE`,
/// `LC_ALL`, `LC_MESSAGES` and `LANG`, in that order: `LANGUAGE`-style
/// colon-separated lists are split, `C`, `POSIX` and empty values are
/// skipped, encoding and modifier suffixes (`.UTF-8`, `@euro`) dropped,
/// repeats removed; English when nothing is left.
pub fn parse_locale_env(values: &[Option<String>]) -> (r: Vec<(String, String)>)
    ensures
        pair_texts(r@) == locale_candidates(opt_texts(values@)),
{
    let ghost vals = opt_texts(values@);
    let mut out: Vec<(String, String)> = Vec::new();
    assert(pair_texts(out@) =~= add_values(vals.take(0)));
    let mut i: usize = 0;
    while i < values.len()
        invariant
            i <= values.len(),
            vals == opt_texts(values@),
            pair_texts(out@) == add_values(vals.take(i as int)),
        decreases values.len() - i,
    {
        assert(vals.take(i + 1).drop_last() =~= vals.take(i as int));
        match &values[i] {
            Some(val) => {
                let v = chars_of(val.as_str());
                let (a, b) = crate::text::trim_bounds(&v, 0, v.len());
                assert(v@.subrange(0, v@.len() as int) =~= v@);
                let ghost t = trim(val@);
                if !is_no_language(&v, a, b) {
                    let pieces = split_ranges(&v, a, b, ':');
                    let ghost ps = split(t, ':');
                    let ghost base = pair_texts(out@);
                    let mut k: usize = 0;
                    assert(ps.take(0) =~= Seq::<Seq<char>>::empty());
                    while k < pieces.len()
                        invariant
                            k <= pieces.len(),
                            pieces.len() == ps.len(),
                            ps == split(t, ':'),
                            forall|j: int|
                                0 <= j < pieces.len() ==> (#[trigger] pieces[j]).0 <= pieces[j].1
                                    <= v.len() && v@.subrange(pieces[j].0 as int, pieces[j].1 as int)
                                    == ps[j],
                            pair_texts(out@) == add_pieces(base, ps.take(k as int)),
                        decreases pieces.len() - k,
                    {
                        assert(ps.take(k + 1).drop_last() =~= ps.take(k as int));
                        let (p, q) = pieces[k];
                        let (c, d) = trim_bounds(&v, p, q);
                        if !is_no_language(&v, c, d) {
                            let e = upto_end(&v, c, d, '.', '@');
                            push_locale(&mut out, &v, c, e);
                        }
                        k += 1;
                    }
                    assert(ps.take(k as int) =~= ps);
                }
            },
            None => {},
        }
        i += 1;
    }
    assert(vals.take(i as int) =~= vals);
    if out.len() == 0 {
        out.push(("en".to_string(), "en".to_string()));
        assert(pair_texts(out@) =~= seq![("en"@, "en"@)]);
    }
    out
}

// ---------------------------------------------------------------------------
// Translation files
// ---------------------------------------------------------------------------

/// A value with its surrounding double quotes, if any, removed.
pub open spec fn unquote(v: Seq<char>) -> Seq<char> {
    if v.len() >= 2 && v[0] == '"' && v.last() == '"' {
        v.subrange(1, v.len() - 1)
    } else {
        v
    }
}

/// The translations of a file: each `key = value` line (blank lines and
/// `#` comments skipped; the key and value trimmed, the value unquoted; a
/// later key wins; lines without `=` or with an empty key ignored).
pub open spec fn translations(ls: Seq<Seq<char>>) -> Map<Seq<char>, Seq<char>>
    decreases ls.len(),
{
    if ls.len() == 0 {
        Map::empty()
    } else {
        let m = translations(ls.drop_last());
        let t = trim(ls.last());
        if t.len() == 0 || t[0] == '#' || !t.contains('=') {
            m
        } else {
            let i = crate::text::first_index(t, '=');
            let k = trim(t.take(i));
            let v = unquote(trim(t.skip(i + 1)));
            if k.len() == 0 {
                m
            } else {
                m.insert(k, v)
            }
        }
    }
}

/// Read a translation file.
pub fn parse(content: &str) -> (m: StrMap)
    ensures
        m@ == translations(lines(content@)),
{
    let v = chars_of(content);
    let ranges = line_ranges(&v);
    let ghost ls = lines(content@);
    let mut m = StrMap::new();
    let mut k: usize = 0;
    while k < ranges.len()
        invariant
            k <= ranges.len(),
            v@ == content@,
            ls == lines(content@),
            ranges.len() == ls.len(),
            forall|j: int|
                0 <= j < ranges.len() ==> (#[trigger] ranges[j]).0 <= ranges[j].1 <= v.len()
                    && v@.subrange(ranges[j].0 as int, ranges[j].1 as int) == ls[j],
            m@ == translations(ls.take(k as int)),
        decreases ranges.len() - k,
    {
        assert(ls.take(k + 1).drop_last() =~= ls.take(k as int));
        assert(ls.take(k + 1).last() == ls[k as int]);
        let (lo, hi) = ranges[k];
        let (a, b) = trim_bounds(&v, lo, hi);
        let ghost t = trim(ls[k as int]);
        assert(v@.subrange(a as int, b as int) == t);
        if a < b && v[a] != '#' {
            match crate::text::find_char(&v, a, b, '=') {
                Some(i) => {
                    proof {
                        crate::text::lemma_first_index(t, '=');
                    }
                    let eq = a + i;
                    assert(t.contains('=')) by {
                        assert(t[i as int] == '=');
                    }
                    let (kl, kh) = trim_bounds(&v, a, eq);
                    let (vl, vh) = trim_bounds(&v, eq + 1, b);
                    assert(v@.subrange(a as int, eq as int) =~= t.take(i as int));
                    assert(v@.subrange(eq + 1, b as int) =~= t.skip(i + 1));
                    if kl < kh {
                        let key = string_of_range(&v, kl, kh);
                        let value = if vh - vl >= 2 && v[vl] == '"' && v[vh - 1] == '"' {
                            assert(v@.subrange(vl + 1, vh - 1) =~= v@.subrange(vl as int, vh as int).subrange(1, vh - vl - 1));
                            string_of_range(&v, vl + 1, vh - 1)
                        } else {
                            string_of_range(&v, vl, vh)
                        };
                        m.insert(key, value);
                    }
                },
                None => {
                    proof {
                        crate::text::lemma_first_index(t, '=');
                    }
                },
            }
        }
        k += 1;
    }
    assert(ls.take(k as int) =~= ls);
    m
}

// ---------------------------------------------------------------------------
// Which translation file to load
// ---------------------------------------------------------------------------

/// English is built in: a candidate `en` or `en_*` ends the search with
/// no file loaded.
pub fn is_english(locale: &str) -> (r: bool)
    ensures
        r == (locale@ == "en"@ || has_prefix(locale@, "en_"@)),
{
    str_eq(locale, "en") || starts_with(locale, "en_")
}

/// The translation files tried first for a candidate, in order: the exact
/// locale (`ru_RU.toml`), then the language alone (`ru.toml`) when it
/// differs.
pub fn locale_file_names(full_locale: &str, lang: &str) -> (r: Vec<String>)
    ensures
        full_locale@ != lang@ ==> texts(r@) == seq![full_locale@ + ".toml"@, lang@ + ".toml"@],
        full_locale@ == lang@ ==> texts(r@) == seq![full_locale@ + ".toml"@],
{
    let mut r: Vec<String> = Vec::new();
    let mut a = full_locale.to_string();
    a.append(".toml");
    r.push(a);
    if !str_eq(full_locale, lang) {
        let mut b = lang.to_string();
        b.append(".toml");
        r.push(b);
    }
    proof {
        if full_locale@ != lang@ {
            assert(texts(r@) =~= seq![full_locale@ + ".toml"@, lang@ + ".toml"@]);
        } else {
            assert(texts(r@) =~= seq![full_locale@ + ".toml"@]);
        }
    }
    r
}

/// Whether the file `name` is a regional variant (`<lang>_<REGION>.toml`)
/// of the language `lang`; an empty language has none.
pub fn is_region_variant(name: &str, lang: &str) -> (r: bool)
    ensures
        r == (lang@.len() > 0 && has_prefix(name@, lang@ + "_"@) && has_suffix(name@, ".toml"@)),
{
    if chars_of(lang).len() == 0 {
        return false;
    }
    let mut prefix = lang.to_string();
    prefix.append("_");
    starts_with(name, prefix.as_str()) && ends_with(name, ".toml")
}

} // verus!
