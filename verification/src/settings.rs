//! The editor's own settings file, its list of recently opened files, the
//! palettes shown on the home page, and what reloading a theme reports.

use vstd::prelude::*;
use crate::models::values::{bool_string, bool_text};
use crate::services::palette::key_colors;
use crate::services::process::ProcessResult;
use crate::strmap::{pairs_map, StrMap};
use crate::text::{chars_of, has_prefix, line_ranges, lines, range_eq, str_eq, string_of_range, texts};

verus! {

broadcast use vstd::string::group_string_axioms;

// ---------------------------------------------------------------------------
// Settings file
// ---------------------------------------------------------------------------

/// The `auto_apply` setting of the settings file's lines: the last
/// `auto_apply=<value>` line decides, `true` meaning on.
pub open spec fn auto_apply_of(ls: Seq<Seq<char>>) -> Option<bool>
    decreases ls.len(),
{
    if ls.len() == 0 {
        None
    } else if has_prefix(ls.last(), "auto_apply="@) {
        Some(ls.last().skip(11) == "true"@)
    } else {
        auto_apply_of(ls.drop_last())
    }
}

/// The `auto_apply` setting in the settings file, if it has one.
pub fn auto_apply_setting(content: &str) -> (r: Option<bool>)
    ensures
        r == auto_apply_of(lines(content@)),
{
    let v = chars_of(content);
    let ranges = line_ranges(&v);
    let ghost ls = lines(content@);
    let key = chars_of("auto_apply=");
    let yes = chars_of("true");
    proof {
        reveal_strlit("auto_apply=");
    }
    assert(key@.len() == 11);
    let mut r: Option<bool> = None;
    let mut k: usize = 0;
    assert(ls.take(0) =~= Seq::<Seq<char>>::empty());
    while k < ranges.len()
        invariant
            k <= ranges.len(),
            v@ == content@,
            ls == lines(content@),
            ranges.len() == ls.len(),
            key@ == "auto_apply="@,
            yes@ == "true"@,
            key@.len() == 11,
            forall|j: int|
                0 <= j < ranges.len() ==> (#[trigger] ranges[j]).0 <= ranges[j].1 <= v.len()
                    && v@.subrange(ranges[j].0 as int, ranges[j].1 as int) == ls[j],
            r == auto_apply_of(ls.take(k as int)),
        decreases ranges.len() - k,
    {
        let (lo, hi) = ranges[k];
        let ghost l = ls[k as int];
        assert(v@.subrange(lo as int, hi as int) == l);
        assert(ls.take(k + 1).drop_last() =~= ls.take(k as int));
        assert(ls.take(k + 1).last() == l);
        let is_setting = hi - lo >= 11 && range_eq(&v, lo, lo + 11, &key, 0, 11);
        proof {
            assert(key@.subrange(0, 11) =~= key@);
            if hi - lo >= 11 {
                assert(l.take(11) =~= v@.subrange(lo as int, lo + 11));
            }
        }
        if is_setting {
            let on = range_eq(&v, lo + 11, hi, &yes, 0, yes.len());
            proof {
                assert(yes@.subrange(0, yes@.len() as int) =~= yes@);
                assert(l.skip(11) =~= v@.subrange(lo + 11, hi as int));
            }
            r = Some(on);
        }
        k += 1;
    }
    assert(ls.take(k as int) =~= ls);
    r
}

/// The settings file for the `auto_apply` setting.
pub fn settings_text(auto_apply: bool) -> (r: String)
    ensures
        r@ == "[settings]\nauto_apply="@ + bool_text(auto_apply) + "\n"@,
{
    let mut r = "[settings]\nauto_apply=".to_string();
    let b = bool_string(auto_apply);
    r.append(b.as_str());
    r.append("\n");
    r
}

// ---------------------------------------------------------------------------
// Recently opened files
// ---------------------------------------------------------------------------

/// The most files kept in the list.
pub open spec fn recent_limit() -> nat {
    10
}

/// The list after opening `path`: `path` first, then the others in their
/// order without it, at most ten.
pub open spec fn recent_after(list: Seq<Seq<char>>, path: Seq<char>) -> Seq<Seq<char>> {
    let l = seq![path] + list.filter(|p: Seq<char>| p != path);
    if l.len() > recent_limit() {
        l.take(recent_limit() as int)
    } else {
        l
    }
}

/// Record `path` as the most recently opened file.
pub fn add_recent_file(list: &mut Vec<String>, path: String)
    ensures
        texts(final(list)@) == recent_after(texts(old(list)@), path@),
{
    let ghost old_list = texts(list@);
    let mut out: Vec<String> = Vec::new();
    out.push(path.clone());
    let ghost f = |p: Seq<char>| p != path@;
    let mut i: usize = 0;
    assert(texts(out@) =~= seq![path@] + old_list.take(0).filter(f));
    while i < list.len()
        invariant
            i <= list.len(),
            old_list == texts(list@),
            texts(out@) == seq![path@] + old_list.take(i as int).filter(f),
            f == (|p: Seq<char>| p != path@),
        decreases list.len() - i,
    {
        assert(old_list.take(i + 1).drop_last() =~= old_list.take(i as int));
        assert(old_list.take(i + 1).last() == list@[i as int]@);
        reveal(Seq::filter);
        let ghost prev_f = old_list.take(i as int).filter(f);
        if !str_eq(list[i].as_str(), path.as_str()) {
            let ghost x = list@[i as int]@;
            assert(f(x));
            assert(old_list.take(i + 1).filter(f) == prev_f.push(x));
            let ghost before = texts(out@);
            out.push(list[i].clone());
            assert(texts(out@) =~= before.push(x));
            assert(texts(out@) =~= seq![path@] + old_list.take(i + 1).filter(f));
        } else {
            assert(texts(out@) =~= seq![path@] + old_list.take(i + 1).filter(f));
        }
        i += 1;
    }
    assert(old_list.take(i as int) =~= old_list);
    out.truncate(10);
    assert(texts(out@) =~= recent_after(old_list, path@));
    *list = out;
}

/// Lines joined by newlines.
pub open spec fn joined_lines(ls: Seq<Seq<char>>) -> Seq<char>
    decreases ls.len(),
{
    if ls.len() == 0 {
        Seq::empty()
    } else if ls.len() == 1 {
        ls[0]
    } else {
        joined_lines(ls.drop_last()) + "\n"@ + ls.last()
    }
}

/// The text of the recent files list: one path per line.
pub fn recent_files_text(list: &Vec<String>) -> (r: String)
    ensures
        r@ == joined_lines(texts(list@)),
{
    let ghost ls = texts(list@);
    let mut out = String::new();
    let mut i: usize = 0;
    while i < list.len()
        invariant
            i <= list.len(),
            ls == texts(list@),
            out@ == joined_lines(ls.take(i as int)),
        decreases list.len() - i,
    {
        assert(ls.take(i + 1).drop_last() =~= ls.take(i as int));
        assert(ls.take(i + 1).last() == list@[i as int]@);
        if i > 0 {
            out.append("\n");
        } else {
            assert(out@ =~= Seq::<char>::empty());
        }
        out.append(list[i].as_str());
        assert(out@ =~= joined_lines(ls.take(i + 1)));
        i += 1;
    }
    assert(ls.take(i as int) =~= ls);
    out
}

/// The recent files read back: the non-empty lines.
pub fn recent_files_from_text(content: &str) -> (r: Vec<String>)
    ensures
        texts(r@) == lines(content@).filter(|l: Seq<char>| l.len() > 0),
{
    let v = chars_of(content);
    let ranges = line_ranges(&v);
    let ghost ls = lines(content@);
    let ghost f = |l: Seq<char>| l.len() > 0;
    let mut out: Vec<String> = Vec::new();
    let mut k: usize = 0;
    assert(texts(out@) =~= ls.take(0).filter(f));
    while k < ranges.len()
        invariant
            k <= ranges.len(),
            v@ == content@,
            ls == lines(content@),
            ranges.len() == ls.len(),
            f == (|l: Seq<char>| l.len() > 0),
            forall|j: int|
                0 <= j < ranges.len() ==> (#[trigger] ranges[j]).0 <= ranges[j].1 <= v.len()
                    && v@.subrange(ranges[j].0 as int, ranges[j].1 as int) == ls[j],
            texts(out@) == ls.take(k as int).filter(f),
        decreases ranges.len() - k,
    {
        let (lo, hi) = ranges[k];
        assert(v@.subrange(lo as int, hi as int) == ls[k as int]);
        assert(ls.take(k + 1).drop_last() =~= ls.take(k as int));
        assert(ls.take(k + 1).last() == ls[k as int]);
        reveal(Seq::filter);
        if lo < hi {
            out.push(string_of_range(&v, lo, hi));
        }
        assert(texts(out@) =~= ls.take(k + 1).filter(f));
        k += 1;
    }
    assert(ls.take(k as int) =~= ls);
    out
}

// ---------------------------------------------------------------------------
// Palettes on the home page
// ---------------------------------------------------------------------------

/// The key colours present in a palette variant, in key-colour order, with
/// their values.
pub open spec fn key_color_pairs(m: Map<Seq<char>, Seq<char>>) -> Seq<(Seq<char>, Seq<char>)> {
    key_colors().filter(|k: Seq<char>| m.contains_key(k)).map_values(|k: Seq<char>| (k, m[k]))
}

/// The texts of a list of pairs.
pub open spec fn pair_texts(v: Seq<(String, String)>) -> Seq<(Seq<char>, Seq<char>)> {
    v.map_values(|p: (String, String)| (p.0@, p.1@))
}

/// The key colours present in a palette variant, with their values.
pub fn palette_pairs(colors: &StrMap) -> (r: Vec<(String, String)>)
    ensures
        pair_texts(r@) == key_color_pairs(colors@),
{
    let keys = crate::services::palette::MatugenPalette::key_colors();
    let ghost kc = key_colors();
    let ghost f = |k: Seq<char>| colors@.contains_key(k);
    let ghost g = |k: Seq<char>| (k, colors@[k]);
    let mut out: Vec<(String, String)> = Vec::new();
    let mut i: usize = 0;
    assert(pair_texts(out@) =~= kc.take(0).filter(f).map_values(g));
    while i < keys.len()
        invariant
            i <= keys.len(),
            keys@.map_values(|s: &str| s@) == kc,
            kc == key_colors(),
            f == (|k: Seq<char>| colors@.contains_key(k)),
            g == (|k: Seq<char>| (k, colors@[k])),
            pair_texts(out@) == kc.take(i as int).filter(f).map_values(g),
        decreases keys.len() - i,
    {
        let k = keys[i];
        assert(kc[i as int] == k@);
        assert(kc.take(i + 1).drop_last() =~= kc.take(i as int));
        assert(kc.take(i + 1).last() == k@);
        reveal(Seq::filter);
        let ghost prev_f = kc.take(i as int).filter(f);
        match colors.get_str(k) {
            Some(v) => {
                assert(f(k@));
                assert(kc.take(i + 1).filter(f) == prev_f.push(k@));
                assert(kc.take(i + 1).filter(f).map_values(g) =~= prev_f.map_values(g).push(g(k@)));
                out.push((k.to_string(), v.to_string()));
                assert(pair_texts(out@) =~= kc.take(i + 1).filter(f).map_values(g));
            },
            None => {
                assert(pair_texts(out@) =~= kc.take(i + 1).filter(f).map_values(g));
            },
        }
        i += 1;
    }
    assert(kc.take(i as int) =~= kc);
    out
}

/// A list of pairs as a map (a later pair of the same key wins); no list
/// gives the empty map.
pub fn pairs_to_map(v: &Option<Vec<(String, String)>>) -> (m: StrMap)
    ensures
        m@ == match v {
            Some(list) => pairs_map(pair_texts(list@)),
            None => Map::empty(),
        },
{
    let mut m = StrMap::new();
    match v {
        Some(list) => {
            let ghost p = pair_texts(list@);
            let mut i: usize = 0;
            assert(p.take(0) =~= Seq::<(Seq<char>, Seq<char>)>::empty());
            while i < list.len()
                invariant
                    i <= list.len(),
                    p == pair_texts(list@),
                    m@ == pairs_map(p.take(i as int)),
                decreases list.len() - i,
            {
                assert(p.take(i + 1).drop_last() =~= p.take(i as int));
                assert(p.take(i + 1).last() == (list@[i as int].0@, list@[i as int].1@));
                m.insert(list[i].0.clone(), list[i].1.clone());
                i += 1;
            }
            assert(p.take(i as int) =~= p);
        },
        None => {},
    }
    m
}

// ---------------------------------------------------------------------------
// Reloading and applying
// ---------------------------------------------------------------------------

/// A finished run as the editor reports it: its output on success, its
/// error output otherwise, or why it could not run.
pub fn run_text_result(r: Result<ProcessResult, String>) -> (t: Result<String, String>)
    ensures
        match r {
            Ok(p) => if p.exit_code == 0 {
                t == Ok::<String, String>(p.stdout)
            } else {
                t == Err::<String, String>(p.stderr)
            },
            Err(e) => t == Err::<String, String>(e),
        },
{
    match r {
        Ok(p) => if p.is_success() {
            Ok(p.stdout)
        } else {
            Err(p.stderr)
        },
        Err(e) => Err(e),
    }
}

fn error_text(detail: &str) -> (r: String)
    ensures
        r@ == "Error: "@ + detail@,
{
    let mut r = "Error: ".to_string();
    r.append(detail);
    r
}

/// What reloading Klassy (through KWin) reports.
pub fn reload_klassy_report(r: &Result<ProcessResult, String>) -> (s: String)
    ensures
        match r {
            Ok(p) => if p.exit_code == 0 {
                s@ == "Klassy reloaded successfully."@
            } else {
                s@ == "Error: "@ + p.stderr@
            },
            Err(e) => s@ == "Error: "@ + e@,
        },
{
    match r {
        Ok(p) => if p.is_success() {
            "Klassy reloaded successfully.".to_string()
        } else {
            error_text(p.stderr.as_str())
        },
        Err(e) => error_text(e.as_str()),
    }
}

/// What reloading the Kvantum theme reports; `None` when the editor has no
/// theme to reload.
pub fn reload_kvantum_report(r: &Option<Result<ProcessResult, String>>) -> (s: String)
    ensures
        match r {
            Some(Ok(p)) => if p.exit_code == 0 {
                s@ == "Kvantum reloaded successfully."@
            } else {
                s@ == "Error: "@ + p.stderr@
            },
            Some(Err(e)) => s@ == "Error: "@ + e@,
            None => s@ == "Error: No active Kvantum theme to reload."@,
        },
{
    match r {
        Some(Ok(p)) => if p.is_success() {
            "Kvantum reloaded successfully.".to_string()
        } else {
            error_text(p.stderr.as_str())
        },
        Some(Err(e)) => error_text(e.as_str()),
        None => "Error: No active Kvantum theme to reload.".to_string(),
    }
}

/// The outcome of activating an installed Kvantum theme: its name, or the
/// error to show.
pub fn system_theme_result(name: &str, r: &Result<ProcessResult, String>) -> (t: Result<String, String>)
    ensures
        match r {
            Ok(p) => if p.exit_code == 0 {
                t matches Ok(n) && n@ == name@
            } else {
                t matches Err(e) && e@ == "Failed: "@ + p.stderr@
            },
            Err(e) => t matches Err(m) && m@ == "Error: "@ + e@,
        },
{
    match r {
        Ok(p) => if p.is_success() {
            Ok(name.to_string())
        } else {
            let mut m = "Failed: ".to_string();
            m.append(p.stderr.as_str());
            Err(m)
        },
        Err(e) => Err(error_text(e.as_str())),
    }
}

/// The status shown after an installed theme was activated.
pub fn applied_status(name: &str) -> (s: String)
    ensures
        s@ == "Applied: "@ + name@,
{
    let mut s = "Applied: ".to_string();
    s.append(name);
    s
}

} // verus!
