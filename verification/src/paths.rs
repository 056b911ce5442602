//! Where KDE, Klassy, Kvantum and this editor keep their files.

use vstd::prelude::*;
use crate::text::{
    chars_of, has_suffix, last_index, lemma_split_no_sep, lemma_split_nonempty, rfind_char, split, split_ranges,
    string_of_range,
};

verus! {

broadcast use vstd::string::group_string_axioms;

/// `base` joined with the relative path `rel` (`Path::join`): a separator
/// is added unless `base` is empty or already ends with one.
pub open spec fn join_path(base: Seq<char>, rel: Seq<char>) -> Seq<char> {
    if base.len() == 0 || base.last() == '/' {
        base + rel
    } else {
        base + "/"@ + rel
    }
}

/// The home directory, or `/tmp` when it is unknown.
pub open spec fn home_or_tmp(home: Option<Seq<char>>) -> Seq<char> {
    match home {
        Some(h) => h,
        None => "/tmp"@,
    }
}

/// The user's home directory as text (`dirs::home_dir`), if it can be
/// determined.  It depends on the environment, so nothing is promised of
/// the result.
#[verifier::external_body]
fn home_dir_text() -> (r: Option<String>) {
    dirs::home_dir().map(|p| p.to_string_lossy().into_owned())
}

/// `base` joined with the relative path `rel`.
pub fn join_path_text(base: &str, rel: &str) -> (r: String)
    ensures
        r@ == join_path(base@, rel@),
{
    let mut out = base.to_string();
    let v = crate::text::chars_of(base);
    if v.len() > 0 && v[v.len() - 1] != '/' {
        out.append("/");
    }
    out.append(rel);
    out
}

/// The path `rel` under `home`, or under `/tmp` without a home directory.
pub fn home_path(home: Option<&str>, rel: &str) -> (r: String)
    ensures
        r@ == join_path(
            home_or_tmp(
                match home {
                    Some(h) => Some(h@),
                    None => None,
                },
            ),
            rel@,
        ),
{
    match home {
        Some(h) => join_path_text(h, rel),
        None => join_path_text("/tmp", rel),
    }
}

/// Joining with a relative path ends with that path.
pub proof fn lemma_join_ends_with(base: Seq<char>, rel: Seq<char>)
    ensures
        has_suffix(join_path(base, rel), rel),
{
    let j = join_path(base, rel);
    assert(j.subrange(j.len() - rel.len(), j.len() as int) =~= rel);
}

/// `p` is the relative path `rel` under some home directory (or under
/// `/tmp`, without one).
pub open spec fn is_under_home(p: Seq<char>, rel: Seq<char>) -> bool {
    exists|h: Option<Seq<char>>| p == join_path(home_or_tmp(h), rel)
}

fn under_home(rel: &str) -> (r: String)
    ensures
        has_suffix(r@, rel@),
        is_under_home(r@, rel@),
{
    let home = home_dir_text();
    let r = match &home {
        Some(h) => home_path(Some(h.as_str()), rel),
        None => home_path(None, rel),
    };
    proof {
        let h = match home {
            Some(h) => Some(h@),
            None => None,
        };
        lemma_join_ends_with(home_or_tmp(h), rel@);
        assert(r@ == join_path(home_or_tmp(h), rel@));
    }
    r
}

/// Path to the Klassy configuration file.
pub fn klassy_config_path() -> (r: String)
    ensures
        has_suffix(r@, ".config/klassy/klassyrc"@),
        is_under_home(r@, ".config/klassy/klassyrc"@),
{
    under_home(".config/klassy/klassyrc")
}

/// Path to the Klassy presets file.
pub fn klassy_presets_path() -> (r: String)
    ensures
        has_suffix(r@, ".config/klassy/windecopresetsrc"@),
        is_under_home(r@, ".config/klassy/windecopresetsrc"@),
{
    under_home(".config/klassy/windecopresetsrc")
}

/// Path to the Kvantum user configuration directory.
pub fn kvantum_config_dir() -> (r: String)
    ensures
        has_suffix(r@, ".config/Kvantum"@),
        is_under_home(r@, ".config/Kvantum"@),
{
    under_home(".config/Kvantum")
}

/// Path to the Kvantum system themes directory.
pub fn kvantum_system_dir() -> (r: String)
    ensures
        r@ == "/usr/share/Kvantum"@,
{
    "/usr/share/Kvantum".to_string()
}

/// Path to the Kvantum global configuration file.
pub fn kvantum_global_config() -> (r: String)
    ensures
        has_suffix(r@, ".config/Kvantum/kvantum.kvconfig"@),
        is_under_home(r@, ".config/Kvantum/kvantum.kvconfig"@),
{
    under_home(".config/Kvantum/kvantum.kvconfig")
}

/// Path to this editor's settings file.
pub fn keasyditor_settings_path() -> (r: String)
    ensures
        has_suffix(r@, ".config/keasyditor/settings.ini"@),
        is_under_home(r@, ".config/keasyditor/settings.ini"@),
{
    under_home(".config/keasyditor/settings.ini")
}

/// Path to this editor's cache directory.
pub fn keasyditor_cache_dir() -> (r: String)
    ensures
        has_suffix(r@, ".cache/keasyditor"@),
        is_under_home(r@, ".cache/keasyditor"@),
{
    under_home(".cache/keasyditor")
}

/// Path to the recent files list.
pub fn keasyditor_recent_files_path() -> (r: String)
    ensures
        has_suffix(r@, ".cache/keasyditor/recent_files"@),
        is_under_home(r@, ".cache/keasyditor/recent_files"@),
{
    under_home(".cache/keasyditor/recent_files")
}

/// The last name among the pieces `segs` of a path, read from the end:
/// empty pieces and `.` are passed over, and a final `..` names nothing.
pub open spec fn last_name(segs: Seq<Seq<char>>) -> Option<Seq<char>>
    decreases segs.len(),
{
    if segs.len() == 0 {
        None
    } else {
        let c = segs.last();
        if c.len() == 0 || c == "."@ {
            last_name(segs.drop_last())
        } else if c == ".."@ {
            None
        } else {
            Some(c)
        }
    }
}

/// The final component of a `/`-separated path (`Path::file_name`).
pub open spec fn file_name_of(p: Seq<char>) -> Option<Seq<char>> {
    last_name(split(p, '/'))
}

/// The stem of a file name (`Path::file_stem`): the part before the last
/// `.`, or the whole name when it has no `.` but a leading one.
pub open spec fn stem_of(name: Seq<char>) -> Seq<char> {
    let i = last_index(name, '.');
    if i <= 0 {
        name
    } else {
        name.take(i)
    }
}

/// The final component of `path`, if it has one.
pub fn file_name(path: &str) -> (r: Option<String>)
    ensures
        match r {
            Some(n) => file_name_of(path@) == Some(n@),
            None => file_name_of(path@) is None,
        },
{
    let v = chars_of(path);
    let ranges = split_ranges(&v, 0, v.len(), '/');
    let ghost segs = split(v@.subrange(0, v.len() as int), '/');
    assert(v@.subrange(0, v.len() as int) =~= path@);
    let mut k = ranges.len();
    assert(segs.take(k as int) =~= segs);
    while k > 0
        invariant
            k <= ranges.len() == segs.len(),
            segs == split(path@, '/'),
            last_name(segs) == last_name(segs.take(k as int)),
            forall|j: int|
                0 <= j < ranges.len() ==> (#[trigger] ranges[j]).0 <= ranges[j].1 <= v.len()
                    && v@.subrange(ranges[j].0 as int, ranges[j].1 as int) == segs[j],
        decreases k,
    {
        let (a, b) = ranges[k - 1];
        let ghost t = segs.take(k as int);
        assert(t.last() == segs[k - 1]);
        assert(t.drop_last() =~= segs.take(k - 1));
        let ghost seg = v@.subrange(a as int, b as int);
        if b == a {
            assert(seg.len() == 0);
            k -= 1;
        } else if b - a == 1 && v[a] == '.' {
            assert(seg =~= "."@) by {
                reveal_strlit(".");
            }
            k -= 1;
        } else {
            assert(seg != "."@) by {
                reveal_strlit(".");
                if seg == "."@ {
                    assert(seg[0] == '.');
                }
            }
            if b - a == 2 && v[a] == '.' && v[a + 1] == '.' {
                assert(seg =~= ".."@) by {
                    reveal_strlit("..");
                }
                return None;
            }
            assert(seg != ".."@) by {
                reveal_strlit("..");
                if seg == ".."@ {
                    assert(seg[0] == '.' && seg[1] == '.');
                }
            }
            return Some(string_of_range(&v, a, b));
        }
    }
    assert(segs.take(0) =~= Seq::<Seq<char>>::empty());
    None
}

/// The stem of the final component of `path`, if it has one.
pub fn file_stem(path: &str) -> (r: Option<String>)
    ensures
        match r {
            Some(n) => file_name_of(path@) matches Some(f) && n@ == stem_of(f),
            None => file_name_of(path@) is None,
        },
{
    match file_name(path) {
        Some(name) => {
            let v = chars_of(name.as_str());
            assert(v@.subrange(0, v.len() as int) =~= v@);
            match rfind_char(&v, 0, v.len(), '.') {
                Some(i) => {
                    if i == 0 {
                        Some(name)
                    } else {
                        assert(v@.take(i as int) =~= v@.subrange(0, i as int));
                        Some(string_of_range(&v, 0, i))
                    }
                },
                None => Some(name),
            }
        },
        None => None,
    }
}

/// The last piece of `p + q`, where `q` holds no separator, is the last
/// piece of `p` followed by `q`.
proof fn lemma_split_last_append(p: Seq<char>, q: Seq<char>, sep: char)
    requires
        !q.contains(sep),
    ensures
        split(p + q, sep).last() == split(p, sep).last() + q,
    decreases q.len(),
{
    if q.len() == 0 {
        assert(p + q =~= p);
        assert(split(p, sep).last() + q =~= split(p, sep).last());
    } else {
        let q2 = q.drop_last();
        assert(!q2.contains(sep)) by {
            if q2.contains(sep) {
                let i = choose|i: int| 0 <= i < q2.len() && q2[i] == sep;
                assert(q[i] == sep);
            }
        }
        lemma_split_last_append(p, q2, sep);
        let s = p + q;
        assert(s.drop_last() =~= p + q2);
        assert(s.last() == q.last());
        assert(q.last() != sep) by {
            assert(q[q.len() - 1] == q.last());
        }
        lemma_split_nonempty(p + q2, sep);
        assert((split(p, sep).last() + q2).push(q.last()) =~= split(p, sep).last() + q);
    }
}

/// A path whose last character is the separator ends with an empty piece.
proof fn lemma_split_last_sep(p: Seq<char>)
    requires
        p.len() > 0,
        p.last() == '/',
    ensures
        split(p, '/').last() == Seq::<char>::empty(),
{
}

/// A directory joined with a plain name (no `/`, not `.` or `..`) has that
/// name as its final component: a theme opened by its directory is named
/// after it.
pub proof fn lemma_file_name_of_join(base: Seq<char>, name: Seq<char>)
    requires
        name.len() > 0,
        !name.contains('/'),
        name != "."@,
        name != ".."@,
    ensures
        file_name_of(join_path(base, name)) == Some(name),
{
    let j = join_path(base, name);
    if base.len() == 0 {
        assert(j =~= name);
        lemma_split_no_sep(name, '/');
    } else if base.last() == '/' {
        lemma_split_last_sep(base);
        lemma_split_last_append(base, name, '/');
        assert(Seq::<char>::empty() + name =~= name);
    } else {
        let p = base + "/"@;
        reveal_strlit("/");
        assert(p.last() == '/');
        lemma_split_last_sep(p);
        lemma_split_last_append(p, name, '/');
        assert(Seq::<char>::empty() + name =~= name);
    }
    lemma_split_nonempty(j, '/');
}

} // verus!
