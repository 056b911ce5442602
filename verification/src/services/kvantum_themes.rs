//! Kvantum themes on disk: a loaded theme, the document of a new theme,
//! the active-theme setting, and how installed themes are listed.

use vstd::prelude::*;
use crate::ini::{
    doc_get, doc_set, lemma_get_after_set, lemma_set_keeps_others, parse_ini, serialize_ini, DocV,
    IniDocument,
};
use crate::ini::parser::spec_parse_ini;
use crate::ini::round_trip::{
    doc_get_comment, key_reads_back, lemma_parsed_doc_get, lemma_parsed_shape,
    lemma_set_keeps_other_comments, lemma_set_keeps_shape, name_reads_back, value_reads_back,
};
use crate::ini::serializer::doc_text;
use crate::models::kvantum::config::KvantumConfig;
use crate::models::values::{bool_string, bool_text};
use crate::text::{lex_lt, lemma_lex_irrefl, lemma_lex_total, lemma_lex_trans, starts_with, str_eq, str_lt};

verus! {

broadcast use vstd::string::group_string_axioms;

/// A fully loaded Kvantum theme.
#[derive(Clone, Debug)]
pub struct KvantumThemeData {
    /// The parsed configuration from the theme's `.kvconfig` file.
    pub config: KvantumConfig,
    /// Raw SVG content (the theme's `.svg` file), or `None` if the theme has no SVG.
    pub svg_content: Option<String>,
    /// The display name of the theme (derived from the directory name).
    pub theme_name: String,
    /// Absolute path to the theme directory.
    pub dir_path: String,
}

impl KvantumThemeData {
    /// A one-line description: the name and whether there is an SVG.
    pub fn describe(&self) -> (s: String)
        ensures
            s@ == "KvantumThemeData(\""@ + self.theme_name@ + "\", hasSvg="@ + bool_text(
                self.svg_content is Some,
            ) + ")"@,
    {
        let mut out = String::new();
        out.append("KvantumThemeData(\"");
        out.append(self.theme_name.as_str());
        out.append("\", hasSvg=");
        let b = bool_string(self.svg_content.is_some());
        out.append(b.as_str());
        out.append(")");
        out
    }
}

// ---------------------------------------------------------------------------
// New themes
// ---------------------------------------------------------------------------

/// The palette written into the `[GeneralColors]` of a new theme.
pub open spec fn default_general_colors() -> Seq<(Seq<char>, Seq<char>)> {
    seq![
        ("window.color"@, "#3D3D3E"@),
        ("base.color"@, "#2E2E2E"@),
        ("alt.base.color"@, "#383838"@),
        ("button.color"@, "#555555"@),
        ("light.color"@, "#626262"@),
        ("mid.light.color"@, "#555555"@),
        ("dark.color"@, "#171717"@),
        ("mid.color"@, "#3C3C3C"@),
        ("highlight.color"@, "#3F67A5"@),
        ("inactive.highlight.color"@, "#2E4C7A"@),
        ("text.color"@, "#FFFFFF"@),
        ("window.text.color"@, "#FFFFFF"@),
        ("button.text.color"@, "#FFFFFF"@),
        ("disabled.text.color"@, "#A0A0A0"@),
        ("tooltip.text.color"@, "#FFFFFF"@),
        ("highlight.text.color"@, "#FFFFFF"@),
        ("link.color"@, "#2EB8E6"@),
        ("link.visited.color"@, "#FF6666"@),
        ("progress.indicator.text.color"@, "#FFFFFF"@),
    ]
}

/// The palette written into the `[GeneralColors]` of a new theme.
pub fn default_general_colors_list() -> (r: Vec<(&'static str, &'static str)>)
    ensures
        r@.map_values(|p: (&'static str, &'static str)| (p.0@, p.1@)) == default_general_colors(),
{
    let mut r: Vec<(&'static str, &'static str)> = Vec::new();
    r.push(("window.color", "#3D3D3E"));
    r.push(("base.color", "#2E2E2E"));
    r.push(("alt.base.color", "#383838"));
    r.push(("button.color", "#555555"));
    r.push(("light.color", "#626262"));
    r.push(("mid.light.color", "#555555"));
    r.push(("dark.color", "#171717"));
    r.push(("mid.color", "#3C3C3C"));
    r.push(("highlight.color", "#3F67A5"));
    r.push(("inactive.highlight.color", "#2E4C7A"));
    r.push(("text.color", "#FFFFFF"));
    r.push(("window.text.color", "#FFFFFF"));
    r.push(("button.text.color", "#FFFFFF"));
    r.push(("disabled.text.color", "#A0A0A0"));
    r.push(("tooltip.text.color", "#FFFFFF"));
    r.push(("highlight.text.color", "#FFFFFF"));
    r.push(("link.color", "#2EB8E6"));
    r.push(("link.visited.color", "#FF6666"));
    r.push(("progress.indicator.text.color", "#FFFFFF"));
    assert(r@.map_values(|p: (&'static str, &'static str)| (p.0@, p.1@)) =~= default_general_colors());
    r
}

/// `d` with each pair of `p`, in order, set in `section`.
pub open spec fn set_all(d: DocV, section: Seq<char>, p: Seq<(Seq<char>, Seq<char>)>) -> DocV
    decreases p.len(),
{
    if p.len() == 0 {
        d
    } else {
        doc_set(set_all(d, section, p.drop_last()), section, p.last().0, p.last().1)
    }
}

/// An empty document.
pub open spec fn empty_doc() -> DocV {
    DocV { header_lines: Seq::empty(), sections: Seq::empty(), trailing_lines: Seq::empty() }
}

/// The document of a new theme: an empty author, a comment naming this
/// editor, and the default palette.
pub open spec fn new_theme_doc() -> DocV {
    set_all(
        doc_set(
            doc_set(empty_doc(), "%General"@, "author"@, Seq::empty()),
            "%General"@,
            "comment"@,
            "Created by KEasyDitor"@,
        ),
        "GeneralColors"@,
        default_general_colors(),
    )
}

/// The `.kvconfig` document written for a new theme.
pub fn new_theme_document() -> (d: IniDocument)
    ensures
        d@ == new_theme_doc(),
{
    let mut doc = IniDocument::empty();
    assert(doc@.header_lines =~= Seq::<Seq<char>>::empty());
    assert(doc@.sections =~= Seq::<crate::ini::SectionV>::empty());
    assert(doc@.trailing_lines =~= Seq::<Seq<char>>::empty());
    assert(doc@ == empty_doc());
    doc.set_value("%General", "author", String::new());
    doc.set_value("%General", "comment", "Created by KEasyDitor".to_string());
    let ghost d0 = doc@;
    let colors = default_general_colors_list();
    let ghost p = default_general_colors();
    let mut i: usize = 0;
    while i < colors.len()
        invariant
            i <= colors.len(),
            colors@.map_values(|q: (&'static str, &'static str)| (q.0@, q.1@)) == p,
            doc@ == set_all(d0, "GeneralColors"@, p.take(i as int)),
        decreases colors.len() - i,
    {
        let (k, v) = colors[i];
        assert(p[i as int] == (k@, v@));
        assert(p.take(i + 1).drop_last() =~= p.take(i as int));
        doc.set_value("GeneralColors", k, v.to_string());
        i += 1;
    }
    assert(p.take(i as int) =~= p);
    doc
}

// ---------------------------------------------------------------------------
// The active theme
// ---------------------------------------------------------------------------

/// The active theme named by the global `kvantum.kvconfig`: `[General]`
/// (written by `kvantummanager`) first, then the legacy `[%General]`.
pub open spec fn active_theme_spec(d: DocV) -> Option<Seq<char>> {
    match doc_get(d, "General"@, "theme"@) {
        Some(t) => Some(t),
        None => doc_get(d, "%General"@, "theme"@),
    }
}

/// The active theme named by the global Kvantum configuration document.
pub fn active_theme_from_doc(doc: &IniDocument) -> (r: Option<String>)
    ensures
        match r {
            Some(t) => active_theme_spec(doc@) == Some(t@),
            None => active_theme_spec(doc@) is None,
        },
{
    match doc.get_value("General", "theme") {
        Some(t) => Some(t.to_string()),
        None => match doc.get_value("%General", "theme") {
            Some(t) => Some(t.to_string()),
            None => None,
        },
    }
}

/// Record `theme_name` as the active theme in the global configuration
/// document: under `[General]`, which is read first, and under the legacy
/// `[%General]`.  The active theme then reads back as `theme_name`.
pub fn set_active_theme_in(doc: &mut IniDocument, theme_name: &str)
    ensures
        final(doc)@ == doc_set(
            doc_set(old(doc)@, "General"@, "theme"@, theme_name@),
            "%General"@,
            "theme"@,
            theme_name@,
        ),
        active_theme_spec(final(doc)@) == Some(theme_name@),
{
    doc.set_value("General", "theme", theme_name.to_string());
    doc.set_value("%General", "theme", theme_name.to_string());
    proof {
        let d1 = doc_set(old(doc)@, "General"@, "theme"@, theme_name@);
        lemma_get_after_set(old(doc)@, "General"@, "theme"@, theme_name@);
        reveal_strlit("General");
        reveal_strlit("%General");
        assert("General"@ != "%General"@) by {
            assert("General"@.len() != "%General"@.len());
        }
        lemma_set_keeps_others(d1, "%General"@, "theme"@, theme_name@, "General"@, "theme"@);
    }
}

/// The global configuration document before recording the active theme:
/// the current file read as INI, or an empty document when there is none.
pub open spec fn config_doc(current: Option<Seq<char>>) -> DocV {
    match current {
        Some(t) => spec_parse_ini(t),
        None => DocV { header_lines: Seq::empty(), sections: Seq::empty(), trailing_lines: Seq::empty() },
    }
}

/// The text of the current file, if there is one.
pub open spec fn current_text(current: Option<&str>) -> Option<Seq<char>> {
    match current {
        Some(t) => Some(t@),
        None => None,
    }
}

/// The document with `name` recorded as the active theme.
pub open spec fn with_active_theme(d: DocV, name: Seq<char>) -> DocV {
    doc_set(doc_set(d, "General"@, "theme"@, name), "%General"@, "theme"@, name)
}

/// The text of the global configuration after recording `theme_name` as
/// the active theme, from the current text (`None` when there is no file).
pub fn active_theme_config_text(current: Option<&str>, theme_name: &str) -> (s: String)
    ensures
        s@ == doc_text(with_active_theme(config_doc(current_text(current)), theme_name@)),
{
    let mut doc = match current {
        Some(t) => parse_ini(t),
        None => IniDocument::empty(),
    };
    proof {
        if current is None {
            assert(doc@.header_lines =~= Seq::<Seq<char>>::empty());
            assert(doc@.sections =~= Seq::<crate::ini::SectionV>::empty());
            assert(doc@.trailing_lines =~= Seq::<Seq<char>>::empty());
            assert(doc@ == config_doc(current_text(current)));
        }
    }
    set_active_theme_in(&mut doc, theme_name);
    serialize_ini(&doc)
}

/// The active theme reads back through the written configuration: whatever
/// the current file holds (or when there is none), reading the written text
/// again names the theme, for a theme name that reads back as a value (no
/// white space at its ends, no newline, nothing read as an inline comment).
/// An empty name is written before an inline comment kept with a `theme`
/// key, and then reads back as that comment, so it is left out there.
pub proof fn lemma_active_theme_reads_back(current: Option<Seq<char>>, name: Seq<char>)
    requires
        value_reads_back(name),
        name.len() > 0 || (doc_get_comment(config_doc(current), "General"@, "theme"@) is None
            && doc_get_comment(config_doc(current), "%General"@, "theme"@) is None),
    ensures
        active_theme_spec(spec_parse_ini(doc_text(with_active_theme(config_doc(current), name))))
            == Some(name),
{
    let d0 = config_doc(current);
    match current {
        Some(t) => lemma_parsed_shape(t),
        None => {},
    }
    reveal_strlit("General");
    reveal_strlit("%General");
    reveal_strlit("theme");
    assert(name_reads_back("General"@));
    assert(name_reads_back("%General"@));
    assert(key_reads_back("theme"@));
    assert("General"@ != "%General"@) by {
        assert("General"@.len() != "%General"@.len());
    }
    let d1 = doc_set(d0, "General"@, "theme"@, name);
    let d2 = doc_set(d1, "%General"@, "theme"@, name);
    lemma_set_keeps_shape(d0, "General"@, "theme"@, name);
    lemma_set_keeps_other_comments(d0, "General"@, "theme"@, name, "%General"@, "theme"@);
    lemma_set_keeps_shape(d1, "%General"@, "theme"@, name);
    lemma_get_after_set(d0, "General"@, "theme"@, name);
    lemma_set_keeps_others(d1, "%General"@, "theme"@, name, "General"@, "theme"@);
    lemma_parsed_doc_get(d2, "General"@, "theme"@);
}

// ---------------------------------------------------------------------------
// Listing themes
// ---------------------------------------------------------------------------

/// `i` holds the alphabetically first name, the earliest among equal names.
pub open spec fn is_first_alphabetical(names: Seq<Seq<char>>, i: int) -> bool {
    &&& 0 <= i < names.len()
    &&& forall|j: int| 0 <= j < names.len() ==> !lex_lt(#[trigger] names[j], names[i])
    &&& forall|j: int| 0 <= j < i ==> #[trigger] names[j] != names[i]
}

/// Among candidate templates `(theme name, svg path)`, the position of the
/// alphabetically first name (the first found among equal names); `None`
/// when there is no candidate.
pub fn first_alphabetical(candidates: &Vec<(String, String)>) -> (r: Option<usize>)
    ensures
        match r {
            Some(i) => is_first_alphabetical(candidates@.map_values(|c: (String, String)| c.0@), i as int),
            None => candidates.len() == 0,
        },
{
    let ghost names = candidates@.map_values(|c: (String, String)| c.0@);
    if candidates.len() == 0 {
        return None;
    }
    let mut best: usize = 0;
    let mut i: usize = 1;
    proof {
        lemma_lex_irrefl(names[0]);
    }
    while i < candidates.len()
        invariant
            1 <= i <= candidates.len(),
            best < i,
            names == candidates@.map_values(|c: (String, String)| c.0@),
            forall|j: int| 0 <= j < i ==> !lex_lt(#[trigger] names[j], names[best as int]),
            forall|j: int| 0 <= j < best ==> #[trigger] names[j] != names[best as int],
        decreases candidates.len() - i,
    {
        assert(names[i as int] == candidates@[i as int].0@);
        assert(names[best as int] == candidates@[best as int].0@);
        if str_lt(candidates[i].0.as_str(), candidates[best].0.as_str()) {
            let ghost old_best = best;
            proof {
                assert forall|j: int| 0 <= j < i + 1 implies !lex_lt(#[trigger] names[j], names[i as int]) by {
                    if j < i {
                        lemma_lex_total(names[j], names[i as int]);
                        if lex_lt(names[j], names[i as int]) {
                            lemma_lex_trans(names[j], names[i as int], names[old_best as int]);
                        }
                    } else {
                        lemma_lex_irrefl(names[j]);
                    }
                }
                assert forall|j: int| 0 <= j < i implies #[trigger] names[j] != names[i as int] by {
                    if names[j] == names[i as int] {
                        lemma_lex_total(names[j], names[old_best as int]);
                    }
                }
            }
            best = i;
        }
        i += 1;
    }
    Some(best)
}

/// Metadata about a discovered Kvantum theme.
#[derive(Debug, PartialEq)]
pub struct ThemeInfo {
    /// Display name of the theme (the directory name).
    pub name: String,
    /// Absolute path to the theme directory.
    pub path: String,
    /// Whether this is a system-installed theme.
    pub is_system: bool,
}

impl Clone for ThemeInfo {
    fn clone(&self) -> (r: Self)
        ensures
            r == *self,
    {
        ThemeInfo { name: self.name.clone(), path: self.path.clone(), is_system: self.is_system }
    }
}

impl ThemeInfo {
    /// A one-line description: the name and whether it is a system theme.
    pub fn describe(&self) -> (s: String)
        ensures
            s@ == "ThemeInfo(\""@ + self.name@ + "\", system="@ + bool_text(self.is_system) + ")"@,
    {
        let mut out = String::new();
        out.append("ThemeInfo(\"");
        out.append(self.name.as_str());
        out.append("\", system=");
        let b = bool_string(self.is_system);
        out.append(b.as_str());
        out.append(")");
        out
    }
}

/// A directory entry that may be a theme: neither the global configuration
/// file nor a hidden entry.
pub open spec fn may_be_theme(name: Seq<char>) -> bool {
    name != "kvantum.kvconfig"@ && !(name.len() > 0 && name[0] == '.')
}

/// Whether the directory entry `name` may be a theme.
pub fn is_theme_candidate(name: &str) -> (r: bool)
    ensures
        r == may_be_theme(name@),
{
    let v = crate::text::chars_of(name);
    let hidden = v.len() > 0 && v[0] == '.';
    !str_eq(name, "kvantum.kvconfig") && !hidden
}

/// `dst` is `src` ordered by name through the positions `p`: `dst[k]` is
/// `src[p[k]]`, no position is taken twice, the names do not decrease, and
/// themes with equal names keep their order.
pub open spec fn is_stable_sort(p: Seq<int>, src: Seq<ThemeInfo>, dst: Seq<ThemeInfo>) -> bool {
    &&& p.len() == dst.len()
    &&& dst.len() == src.len()
    &&& forall|k: int| 0 <= k < dst.len() ==> 0 <= #[trigger] p[k] < src.len() && dst[k] == src[p[k]]
    &&& forall|a: int, b: int| 0 <= a < b < dst.len() ==> #[trigger] p[a] != #[trigger] p[b]
    &&& forall|a: int, b: int|
        0 <= a < b < dst.len() ==> !lex_lt((#[trigger] dst[b]).name@, (#[trigger] dst[a]).name@)
    &&& forall|a: int, b: int|
        0 <= a < b < dst.len() && (#[trigger] dst[a]).name@ == (#[trigger] dst[b]).name@ ==> p[a] < p[b]
}

/// The themes ordered by name; themes with equal names keep their order.
pub fn sort_themes(themes: Vec<ThemeInfo>) -> (r: Vec<ThemeInfo>)
    ensures
        exists|p: Seq<int>| is_stable_sort(p, themes@, r@),
{
    let mut out: Vec<ThemeInfo> = Vec::new();
    let ghost mut p: Seq<int> = Seq::empty();
    let mut i: usize = 0;
    while i < themes.len()
        invariant
            i <= themes.len(),
            out.len() == i,
            p.len() == i,
            forall|k: int| 0 <= k < i ==> 0 <= #[trigger] p[k] < i && out@[k] == themes@[p[k]],
            forall|a: int, b: int| 0 <= a < b < i ==> #[trigger] p[a] != #[trigger] p[b],
            forall|a: int, b: int| 0 <= a < b < out.len() ==> !lex_lt((#[trigger] out[b]).name@, (#[trigger] out[a]).name@),
            forall|a: int, b: int|
                0 <= a < b < out.len() && (#[trigger] out@[a]).name@ == (#[trigger] out@[b]).name@ ==> p[a] < p[b],
        decreases themes.len() - i,
    {
        let t = themes[i].clone();
        assert(t == themes@[i as int]);
        let ghost o = out@;
        let ghost po = p;
        let mut pos: usize = out.len();
        while pos > 0 && str_lt(t.name.as_str(), out[pos - 1].name.as_str())
            invariant
                pos <= out.len(),
                o == out@,
                forall|a: int| pos <= a < out.len() ==> lex_lt(t.name@, (#[trigger] out[a]).name@),
            decreases pos,
        {
            pos -= 1;
        }
        proof {
            if pos > 0 {
                lemma_lex_total(t.name@, o[pos - 1].name@);
            }
        }
        out.insert(pos, t);
        proof {
            p = po.insert(pos as int, i as int);
        }
        let ghost n = out@;
        assert(n =~= o.insert(pos as int, themes@[i as int]));
        proof {
            assert forall|k: int| 0 <= k < i + 1 implies 0 <= #[trigger] p[k] < i + 1 && n[k] == themes@[p[k]] by {
                if k < pos {
                    assert(p[k] == po[k] && n[k] == o[k]);
                } else if k > pos {
                    assert(p[k] == po[k - 1] && n[k] == o[k - 1]);
                }
            }
            assert forall|a: int, b: int| 0 <= a < b < i + 1 implies #[trigger] p[a] != #[trigger] p[b] by {
                if a < pos && b < pos {
                    assert(p[a] == po[a] && p[b] == po[b]);
                } else if a < pos && b > pos {
                    assert(p[a] == po[a] && p[b] == po[b - 1]);
                } else if a > pos {
                    assert(p[a] == po[a - 1] && p[b] == po[b - 1]);
                } else if a == pos {
                    assert(p[b] == po[b - 1]);
                } else {
                    assert(p[a] == po[a]);
                }
            }
            assert forall|a: int, b: int| 0 <= a < b < n.len() implies !lex_lt((#[trigger] n[b]).name@, (#[trigger] n[a]).name@) by {
                if b < pos {
                    assert(n[a] == o[a] && n[b] == o[b]);
                } else if b == pos {
                    assert(n[a] == o[a]);
                    lemma_lex_total(o[a].name@, o[pos - 1].name@);
                    if lex_lt(t.name@, o[a].name@) && lex_lt(o[a].name@, o[pos - 1].name@) {
                        lemma_lex_trans(t.name@, o[a].name@, o[pos - 1].name@);
                    }
                } else if a == pos {
                    assert(n[b] == o[b - 1]);
                    lemma_lex_total(t.name@, o[b - 1].name@);
                } else if a < pos {
                    assert(n[a] == o[a] && n[b] == o[b - 1]);
                } else {
                    assert(n[a] == o[a - 1] && n[b] == o[b - 1]);
                }
            }
            assert forall|a: int, b: int|
                0 <= a < b < n.len() && (#[trigger] n[a]).name@ == (#[trigger] n[b]).name@ implies p[a] < p[b] by {
                if b < pos {
                    assert(n[a] == o[a] && n[b] == o[b] && p[a] == po[a] && p[b] == po[b]);
                } else if b == pos {
                    assert(n[a] == o[a] && p[a] == po[a]);
                } else if a == pos {
                    assert(n[b] == o[b - 1]);
                    lemma_lex_irrefl(t.name@);
                } else if a < pos {
                    assert(n[a] == o[a] && n[b] == o[b - 1] && p[a] == po[a] && p[b] == po[b - 1]);
                } else {
                    assert(n[a] == o[a - 1] && n[b] == o[b - 1] && p[a] == po[a - 1] && p[b] == po[b - 1]);
                }
            }
        }
        i += 1;
    }
    assert(is_stable_sort(p, themes@, out@));
    out
}

} // verus!
