//! The full Kvantum theme configuration: `[%General]`, `[GeneralColors]`,
//! `[Hacks]` and every widget section, read from and written to an
//! `IniDocument`.

use vstd::prelude::*;
use crate::ini::{IniDocument, SectionV};
use crate::ini::parser::spec_parse_ini;
use crate::ini::round_trip::{
    lemma_ini_doc_round_trip, lemma_map_section_plain, map_reads_back, name_reads_back,
    section_reads_back,
};
use crate::ini::serializer::doc_text;
use crate::ini::maps::{
    add_section, entries_map, entries_to_map, is_map_section, lemma_entries_map_keys,
    lemma_map_section_reads_back, no_empty_keys,
};
use crate::models::kvantum::colors::KvantumColors;
use crate::models::kvantum::general::KvantumGeneral;
use crate::models::kvantum::section::{
    copy_sections, inherits_key, resolve_spec, KvantumSection, SectionModel,
};
use crate::models::values::lookup;
use crate::num::push_nat_decimal;
use crate::strmap::{distinct_keys, has_key, keys_sorted, pairs_map, pairs_of, KeyMap, Pair, StrMap};
use crate::text::{lemma_lex_irrefl, str_eq, strings_eq, texts};
use crate::services::wallpaper::{
    apply_palette_to_kvantum, kvantum_mapping, kvantum_palette_ok, kvantum_with_palette,
};

verus! {

broadcast use vstd::string::group_string_axioms;

/// The abstract content of a configuration.
pub struct ConfigModel {
    pub general: Map<Seq<char>, Seq<char>>,
    pub colors: Map<Seq<char>, Seq<char>>,
    pub hacks: Map<Seq<char>, Seq<char>>,
    pub widgets: Map<Seq<char>, SectionModel>,
    /// Widget section names in file order.
    pub order: Seq<Seq<char>>,
}

// ---------------------------------------------------------------------------
// Reading a document
// ---------------------------------------------------------------------------

/// A configuration with nothing in it.
pub open spec fn empty_model() -> ConfigModel {
    ConfigModel {
        general: Map::empty(),
        colors: Map::empty(),
        hacks: Map::empty(),
        widgets: Map::empty(),
        order: Seq::empty(),
    }
}

/// The configuration read from a sequence of sections: `%General`,
/// `GeneralColors` and `Hacks` replace those parts, every other section is a
/// widget section added under its name.
pub open spec fn from_sections(ss: Seq<SectionV>) -> ConfigModel
    decreases ss.len(),
{
    if ss.len() == 0 {
        empty_model()
    } else {
        let c = from_sections(ss.drop_last());
        let s = ss.last();
        let m = entries_map(s.entries);
        if s.name == "%General"@ {
            ConfigModel { general: m, colors: c.colors, hacks: c.hacks, widgets: c.widgets, order: c.order }
        } else if s.name == "GeneralColors"@ {
            ConfigModel { general: c.general, colors: m, hacks: c.hacks, widgets: c.widgets, order: c.order }
        } else if s.name == "Hacks"@ {
            ConfigModel { general: c.general, colors: c.colors, hacks: m, widgets: c.widgets, order: c.order }
        } else {
            ConfigModel {
                general: c.general,
                colors: c.colors,
                hacks: c.hacks,
                widgets: c.widgets.insert(s.name, SectionModel { name: s.name, values: m }),
                order: c.order.push(s.name),
            }
        }
    }
}

// ---------------------------------------------------------------------------
// Writing a document
// ---------------------------------------------------------------------------

/// The names of `order` that have a widget section, in order.
pub open spec fn present_names(order: Seq<Seq<char>>, ws: Map<Seq<char>, SectionModel>) -> Seq<
    Seq<char>,
>
    decreases order.len(),
{
    if order.len() == 0 {
        Seq::empty()
    } else {
        let prev = present_names(order.drop_last(), ws);
        if ws.contains_key(order.last()) {
            prev.push(order.last())
        } else {
            prev
        }
    }
}

/// `d` is the document written for `c`: `%General`, `GeneralColors` and
/// `Hacks` first, then each widget section of the order that exists, each
/// with its pairs ordered by key.
pub open spec fn is_config_doc(c: ConfigModel, d: crate::ini::DocV) -> bool {
    let pn = present_names(c.order, c.widgets);
    &&& d.header_lines.len() == 0
    &&& d.trailing_lines.len() == 0
    &&& d.sections.len() == 3 + pn.len()
    &&& is_map_section(d.sections[0], "%General"@, c.general)
    &&& is_map_section(d.sections[1], "GeneralColors"@, c.colors)
    &&& is_map_section(d.sections[2], "Hacks"@, c.hacks)
    &&& forall|i: int|
        0 <= i < pn.len() ==> is_map_section(
            #[trigger] d.sections[3 + i],
            pn[i],
            c.widgets[pn[i]].values,
        )
}

// ---------------------------------------------------------------------------
// Inheritance
// ---------------------------------------------------------------------------

/// The section that `s` names as its parent, if it exists.
pub open spec fn parent_of(ws: Map<Seq<char>, SectionModel>, s: SectionModel) -> Option<SectionModel> {
    match lookup(s.values, inherits_key()) {
        Some(p) => if ws.contains_key(p) {
            Some(ws[p])
        } else {
            None
        },
        None => None,
    }
}

/// The inheritance chain from `s` upward: each section followed by its
/// parent, stopping when a name repeats or there is no parent (at most
/// `fuel` sections).
pub open spec fn inherit_chain(
    ws: Map<Seq<char>, SectionModel>,
    s: SectionModel,
    seen: Seq<Seq<char>>,
    fuel: nat,
) -> Seq<SectionModel>
    decreases fuel,
{
    if fuel == 0 || seen.contains(s.name) {
        Seq::empty()
    } else {
        seq![s] + match parent_of(ws, s) {
            Some(p) => inherit_chain(ws, p, seen.push(s.name), (fuel - 1) as nat),
            None => Seq::empty(),
        }
    }
}

/// A chain merged from its root (last) down to its leaf (first).
pub open spec fn merge_chain(c: Seq<SectionModel>) -> SectionModel
    decreases c.len(),
{
    if c.len() <= 1 {
        c[0]
    } else {
        resolve_spec(c[0], merge_chain(c.drop_first()))
    }
}

/// The section `name` with its whole inheritance chain merged in.  No chain
/// holds more sections than there are, so the bound on its length never
/// cuts it short.
pub open spec fn resolved_section(c: ConfigModel, name: Seq<char>) -> Option<SectionModel> {
    if c.widgets.contains_key(name) {
        Some(merge_chain(inherit_chain(c.widgets, c.widgets[name], Seq::empty(), c.widgets.len())))
    } else {
        None
    }
}

/// A chain of at most as many distinct names as there are sections.
proof fn lemma_names_bound(p: Seq<(Seq<char>, SectionModel)>, vis: Seq<Seq<char>>)
    requires
        vis.no_duplicates(),
        forall|i: int| #![trigger vis[i]] 0 <= i < vis.len() ==> exists|j: int| 0 <= j < p.len() && (#[trigger] p[j]).1.name == vis[i],
    ensures
        vis.len() <= p.len(),
{
    let n = p.map_values(|x: (Seq<char>, SectionModel)| x.1.name);
    vis.unique_seq_to_set();
    n.lemma_cardinality_of_set();
    assert(vis.to_set().subset_of(n.to_set())) by {
        assert forall|v: Seq<char>| vis.to_set().contains(v) implies n.to_set().contains(v) by {
            let i = choose|i: int| 0 <= i < vis.len() && vis[i] == v;
            let j = choose|j: int| 0 <= j < p.len() && (#[trigger] p[j]).1.name == vis[i];
            assert(n[j] == v);
        }
    }
    vstd::set_lib::lemma_len_subset(vis.to_set(), n.to_set());
}

// ---------------------------------------------------------------------------
// Round trip
// ---------------------------------------------------------------------------

/// The special section names.
pub open spec fn is_special(n: Seq<char>) -> bool {
    n == "%General"@ || n == "GeneralColors"@ || n == "Hacks"@
}

/// What every configuration read from a document satisfies: no empty keys,
/// each ordered name has a widget section, each widget section is in the
/// order under its own name, and no widget section has a special name.
pub open spec fn read_shape(c: ConfigModel) -> bool {
    &&& no_empty_keys(c.general)
    &&& no_empty_keys(c.colors)
    &&& no_empty_keys(c.hacks)
    &&& forall|i: int|
        0 <= i < c.order.len() ==> c.widgets.contains_key(#[trigger] c.order[i]) && !is_special(
            c.order[i],
        )
    &&& forall|k: Seq<char>| #[trigger]
        c.widgets.contains_key(k) ==> c.order.contains(k) && c.widgets[k].name == k
            && no_empty_keys(c.widgets[k].values)
}

proof fn lemma_special_names_differ()
    ensures
        "%General"@ != "GeneralColors"@,
        "%General"@ != "Hacks"@,
        "GeneralColors"@ != "Hacks"@,
{
    reveal_strlit("%General");
    reveal_strlit("GeneralColors");
    reveal_strlit("Hacks");
    assert("%General"@.len() != "GeneralColors"@.len());
    assert("%General"@.len() != "Hacks"@.len());
    assert("GeneralColors"@.len() != "Hacks"@.len());
}

proof fn lemma_read_shape(ss: Seq<SectionV>)
    ensures
        read_shape(from_sections(ss)),
    decreases ss.len(),
{
    if ss.len() > 0 {
        lemma_read_shape(ss.drop_last());
        lemma_entries_map_keys(ss.last().entries);
        let c = from_sections(ss.drop_last());
        let s = ss.last();
        let d = from_sections(ss);
        if !is_special(s.name) {
            assert forall|i: int| 0 <= i < d.order.len() implies d.widgets.contains_key(
                #[trigger] d.order[i],
            ) && !is_special(d.order[i]) by {
                if i < c.order.len() {
                    assert(d.order[i] == c.order[i]);
                }
            }
            assert forall|k: Seq<char>| #[trigger] d.widgets.contains_key(k) implies d.order.contains(k)
                && d.widgets[k].name == k && no_empty_keys(d.widgets[k].values) by {
                if k == s.name {
                    assert(d.order[d.order.len() - 1] == k);
                } else {
                    let i = choose|i: int| 0 <= i < c.order.len() && c.order[i] == k;
                    assert(d.order[i] == k);
                }
            }
        }
    }
}

proof fn lemma_present_all(order: Seq<Seq<char>>, ws: Map<Seq<char>, SectionModel>)
    requires
        forall|i: int| 0 <= i < order.len() ==> ws.contains_key(#[trigger] order[i]),
    ensures
        present_names(order, ws) == order,
    decreases order.len(),
{
    if order.len() > 0 {
        lemma_present_all(order.drop_last(), ws);
        assert(order.last() == order[order.len() - 1]);
        assert(order.drop_last().push(order.last()) =~= order);
    }
}

proof fn lemma_reread_prefix(c: ConfigModel, d: crate::ini::DocV, j: int)
    requires
        read_shape(c),
        is_config_doc(c, d),
        present_names(c.order, c.widgets) == c.order,
        0 <= j <= c.order.len(),
    ensures
        from_sections(d.sections.take(3 + j)) == (ConfigModel {
            general: c.general,
            colors: c.colors,
            hacks: c.hacks,
            widgets: c.widgets.restrict(c.order.take(j).to_set()),
            order: c.order.take(j),
        }),
    decreases j,
{
    let ss = d.sections.take(3 + j);
    if j == 0 {
        lemma_special_names_differ();
        lemma_map_section_reads_back(d.sections[0], "%General"@, c.general);
        lemma_map_section_reads_back(d.sections[1], "GeneralColors"@, c.colors);
        lemma_map_section_reads_back(d.sections[2], "Hacks"@, c.hacks);
        let t0 = d.sections.take(0);
        let t1 = d.sections.take(1);
        let t2 = d.sections.take(2);
        assert(t1.drop_last() =~= t0);
        assert(t2.drop_last() =~= t1);
        assert(ss.drop_last() =~= t2);
        assert(t1.last() == d.sections[0]);
        assert(t2.last() == d.sections[1]);
        assert(ss.last() == d.sections[2]);
        assert(from_sections(t0) == empty_model());
        assert(from_sections(t1).general == c.general);
        assert(from_sections(t2).colors == c.colors);
        assert(from_sections(t2).general == c.general);
        assert(c.widgets.restrict(c.order.take(0).to_set()) =~= Map::<Seq<char>, SectionModel>::empty());
        assert(c.order.take(0) =~= Seq::<Seq<char>>::empty());
    } else {
        lemma_reread_prefix(c, d, j - 1);
        assert(ss.drop_last() =~= d.sections.take(3 + j - 1));
        let n = c.order[j - 1];
        let s = d.sections[3 + j - 1];
        assert(ss.last() == s);
        assert(is_map_section(s, n, c.widgets[n].values));
        assert(c.widgets.contains_key(n) && !is_special(n));
        lemma_map_section_reads_back(s, n, c.widgets[n].values);
        assert(c.order.take(j) =~= c.order.take(j - 1).push(n));
        assert(c.widgets[n].name == n);
        assert(c.order.take(j).to_set() =~= c.order.take(j - 1).to_set().insert(n)) by {
            assert forall|x: Seq<char>| c.order.take(j).to_set().contains(x) <==> c.order.take(
                j - 1,
            ).to_set().insert(n).contains(x) by {
                if c.order.take(j).contains(x) && x != n {
                    let i = choose|i: int| 0 <= i < j && #[trigger] c.order.take(j)[i] == x;
                    assert(c.order.take(j - 1)[i] == x);
                }
                if c.order.take(j - 1).contains(x) {
                    let i = choose|i: int| 0 <= i < j - 1 && #[trigger] c.order.take(j - 1)[i] == x;
                    assert(c.order.take(j)[i] == x);
                }
                if x == n {
                    assert(c.order.take(j)[j - 1] == n);
                }
            }
        }
        assert(c.widgets.restrict(c.order.take(j).to_set()) =~= c.widgets.restrict(
            c.order.take(j - 1).to_set(),
        ).insert(n, SectionModel { name: n, values: c.widgets[n].values }));
    }
}

/// Writing a configuration of the shape a read gives (see `read_shape`)
/// and reading it back gives the same configuration.
pub proof fn lemma_config_round_trip(c: ConfigModel, d: crate::ini::DocV)
    requires
        read_shape(c),
        is_config_doc(c, d),
    ensures
        from_sections(d.sections) == c,
{
    lemma_present_all(c.order, c.widgets);
    lemma_reread_prefix(c, d, c.order.len() as int);
    assert(d.sections.take(3 + c.order.len() as int) =~= d.sections);
    assert(c.order.take(c.order.len() as int) =~= c.order);
    assert(c.widgets.restrict(c.order.to_set()) =~= c.widgets);
}

/// A configuration read from a document has that shape.
pub proof fn lemma_config_read_is_shaped(ss: Seq<SectionV>)
    ensures
        read_shape(from_sections(ss)),
{
    lemma_read_shape(ss);
}

/// Every section name, key and value of a configuration is plain text
/// that reads back from the written file.
pub open spec fn config_reads_back(c: ConfigModel) -> bool {
    &&& map_reads_back(c.general)
    &&& map_reads_back(c.colors)
    &&& map_reads_back(c.hacks)
    &&& forall|k: Seq<char>| #[trigger]
        c.widgets.contains_key(k) ==> name_reads_back(k) && map_reads_back(c.widgets[k].values)
}

/// Saving a configuration of the shape a read gives, and reading the
/// saved text back, gives the same configuration, provided its names,
/// keys and values are plain text that reads back (see
/// `lemma_ini_doc_round_trip`).
pub proof fn lemma_config_save_load(c: ConfigModel, d: crate::ini::DocV)
    requires
        read_shape(c),
        is_config_doc(c, d),
        config_reads_back(c),
    ensures
        from_sections(spec_parse_ini(doc_text(d)).sections) == c,
{
    lemma_present_all(c.order, c.widgets);
    reveal_strlit("%General");
    reveal_strlit("GeneralColors");
    reveal_strlit("Hacks");
    assert(name_reads_back("%General"@)) by {
        assert forall|j: int| 0 <= j < "%General"@.len() implies "%General"@[j] != ']' && "%General"@[j] != '\n' by {}
    }
    assert(name_reads_back("GeneralColors"@)) by {
        assert forall|j: int| 0 <= j < "GeneralColors"@.len() implies "GeneralColors"@[j] != ']' && "GeneralColors"@[j] != '\n' by {}
    }
    assert(name_reads_back("Hacks"@)) by {
        assert forall|j: int| 0 <= j < "Hacks"@.len() implies "Hacks"@[j] != ']' && "Hacks"@[j] != '\n' by {}
    }
    lemma_map_section_plain(d.sections[0], "%General"@, c.general);
    lemma_map_section_plain(d.sections[1], "GeneralColors"@, c.colors);
    lemma_map_section_plain(d.sections[2], "Hacks"@, c.hacks);
    assert forall|i: int| 0 <= i < d.sections.len() implies section_reads_back(#[trigger] d.sections[i]) by {
        if i >= 3 {
            let j = i - 3;
            let n = c.order[j];
            assert(present_names(c.order, c.widgets)[j] == n);
            assert(is_map_section(d.sections[3 + j], n, c.widgets[n].values));
            assert(c.widgets.contains_key(n));
            lemma_map_section_plain(d.sections[i], n, c.widgets[n].values);
        }
    }
    lemma_ini_doc_round_trip(d);
    lemma_config_round_trip(c, d);
}

/// Complete model for a Kvantum `.kvconfig` file.
#[derive(Clone, Debug, PartialEq)]
pub struct KvantumConfig {
    /// The `[%General]` section.
    pub general: KvantumGeneral,
    /// The `[GeneralColors]` section.
    pub colors: KvantumColors,
    /// The `[Hacks]` section as raw key-value pairs.
    pub hacks: StrMap,
    /// All widget sections keyed by section name.
    /// Does not include `%General`, `GeneralColors`, or `Hacks`.
    pub widget_sections: KeyMap<KvantumSection>,
    /// Section ordering kept for round-trip fidelity.
    section_order: Vec<String>,
}

impl View for KvantumConfig {
    type V = ConfigModel;

    closed spec fn view(&self) -> ConfigModel {
        ConfigModel {
            general: self.general@,
            colors: self.colors@,
            hacks: self.hacks@,
            widgets: self.widget_sections@,
            order: texts(self.section_order@),
        }
    }
}

/// Whether `v` holds the text `s`.
fn contains_text(v: &Vec<String>, s: &str) -> (r: bool)
    ensures
        r == texts(v@).contains(s@),
{
    let mut i: usize = 0;
    while i < v.len()
        invariant
            i <= v.len(),
            forall|j: int| 0 <= j < i ==> texts(v@)[j] != s@,
        decreases v.len() - i,
    {
        if str_eq(v[i].as_str(), s) {
            assert(texts(v@)[i as int] == s@);
            return true;
        }
        i += 1;
    }
    false
}

impl KvantumConfig {
    /// Create a configuration; the sections are ordered as in the map.
    pub fn new(
        general: KvantumGeneral,
        colors: KvantumColors,
        hacks: StrMap,
        widget_sections: KeyMap<KvantumSection>,
    ) -> (c: Self)
        ensures
            c@.general == general@,
            c@.colors == colors@,
            c@.hacks == hacks@,
            c@.widgets == widget_sections@,
            c@.order.no_duplicates(),
            forall|k: Seq<char>| #[trigger] c@.order.contains(k) <==> widget_sections@.contains_key(k),
            c@.order == widget_sections.pairs().map_values(|p: (Seq<char>, SectionModel)| p.0),
    {
        widget_sections.check();
        let section_order = widget_sections.keys();
        let c = KvantumConfig { general, colors, hacks, widget_sections, section_order };
        proof {
            let p = c.widget_sections.pairs();
            let o = texts(c.section_order@);
            assert(o =~= p.map_values(|q: (Seq<char>, SectionModel)| q.0));
            assert forall|i: int, j: int| 0 <= i < o.len() && 0 <= j < o.len() && i != j implies o[i]
                != o[j] by {
                if i < j {
                    assert(p[i].0 != p[j].0);
                } else {
                    assert(p[j].0 != p[i].0);
                }
            }
            assert forall|k: Seq<char>| #[trigger] o.contains(k) <==> c.widget_sections@.contains_key(k) by {
                if o.contains(k) {
                    let i = choose|i: int| 0 <= i < o.len() && o[i] == k;
                    assert(p[i].0 == k);
                }
                if c.widget_sections@.contains_key(k) {
                    let i = choose|i: int| 0 <= i < p.len() && (#[trigger] p[i]).0 == k;
                    assert(o[i] == k);
                }
            }
        }
        c
    }

    /// The widget section `name`, or `None` if not found.
    pub fn get_section(&self, name: &str) -> (r: Option<&KvantumSection>)
        ensures
            r is Some == self@.widgets.contains_key(name@),
            r matches Some(s) ==> s@ == self@.widgets[name@],
    {
        self.widget_sections.get(name)
    }

    /// Resolve a widget section by following its inheritance chain: the
    /// chain from the section up to its root ancestor is merged from the
    /// root down, each section overriding its parent.  A name that repeats
    /// ends the chain, so circular inheritance terminates.  `None` if the
    /// section does not exist.
    pub fn resolve_section(&self, name: &str) -> (r: Option<KvantumSection>)
        ensures
            match r {
                Some(s) => resolved_section(self@, name@) == Some(s@),
                None => resolved_section(self@, name@) is None,
            },
    {
        let ws = &self.widget_sections;
        ws.check();
        let ghost wm = ws@;
        let ghost p = ws.pairs();
        let ghost fuel: nat = wm.len();
        let first = match ws.get(name) {
            Some(s) => s,
            None => {
                return None;
            },
        };
        proof {
            let j = choose|j: int| 0 <= j < p.len() && (#[trigger] p[j]).0 == name@;
        }
        let ghost full = inherit_chain(wm, first@, Seq::empty(), fuel);
        let mut chain: Vec<KvantumSection> = Vec::new();
        let mut visited: Vec<String> = Vec::new();
        let mut current: Option<&KvantumSection> = Some(first);
        assert(texts(visited@) =~= Seq::<Seq<char>>::empty());
        assert(chain@.map_values(|s: KvantumSection| s@) =~= Seq::<SectionModel>::empty());
        loop
            invariant
                wm == ws@,
                p == ws.pairs(),
                fuel == wm.len(),
                fuel == p.len(),
                forall|k: Seq<char>| #[trigger] wm.contains_key(k) <==> has_key(p, k),
                forall|j: int| 0 <= j < p.len() ==> wm[(#[trigger] p[j]).0] == p[j].1,
                full == inherit_chain(wm, first@, Seq::empty(), fuel),
                visited.len() == chain.len(),
                visited.len() <= fuel,
                texts(visited@).no_duplicates(),
                forall|i: int|
                    #![trigger texts(visited@)[i]]
                    0 <= i < visited.len() ==> exists|j: int|
                        0 <= j < p.len() && (#[trigger] p[j]).1.name == texts(visited@)[i],
                current matches Some(s) ==> exists|j: int| 0 <= j < p.len() && (#[trigger] p[j]).1 == s@,
                full == chain@.map_values(|s: KvantumSection| s@) + match current {
                    Some(s) => inherit_chain(wm, s@, texts(visited@), (fuel - visited.len()) as nat),
                    None => Seq::empty(),
                },
                chain.len() >= 1 || current is Some,
            ensures
                full == chain@.map_values(|s: KvantumSection| s@),
                chain.len() >= 1,
            decreases fuel - visited.len(),
        {
            let sec = match current {
                Some(s) => s,
                None => {
                    break;
                },
            };
            let sname = sec.section_name();
            let ghost cv = chain@.map_values(|s: KvantumSection| s@);
            let ghost k = visited.len();
            if contains_text(&visited, sname) {
                assert(inherit_chain(wm, sec@, texts(visited@), (fuel - k) as nat) =~= Seq::<
                    SectionModel,
                >::empty());
                assert(full =~= chain@.map_values(|s: KvantumSection| s@));
                break;
            }
            proof {
                let v2 = texts(visited@).push(sec@.name);
                assert(v2.no_duplicates());
                assert forall|i: int| #![trigger v2[i]] 0 <= i < v2.len() implies exists|j: int|
                    0 <= j < p.len() && (#[trigger] p[j]).1.name == v2[i] by {
                    if i < k {
                        assert(v2[i] == texts(visited@)[i]);
                    }
                }
                lemma_names_bound(p, v2);
            }
            let ghost rest = inherit_chain(wm, sec@, texts(visited@), (fuel - k) as nat);
            let ghost vprev = visited@;
            visited.push(sname.to_string());
            chain.push(sec.copy());
            let next = match sec.inherits() {
                Some(parent_name) => ws.get(parent_name),
                None => None,
            };
            proof {
                assert(texts(visited@) =~= texts(vprev).push(sec@.name));
                assert(chain@.map_values(|s: KvantumSection| s@) =~= cv.push(sec@));
                match next {
                    Some(n) => {
                        let pn = lookup(sec@.values, inherits_key())->0;
                        let j = choose|j: int| 0 <= j < p.len() && (#[trigger] p[j]).0 == pn;
                        assert(p[j].1 == n@);
                    },
                    None => {},
                }
            }
            assert(rest =~= seq![sec@] + match next {
                Some(n) => inherit_chain(wm, n@, texts(visited@), (fuel - visited.len()) as nat),
                None => Seq::<SectionModel>::empty(),
            });
            current = next;
        }
        let n = chain.len();
        let ghost cv = chain@.map_values(|s: KvantumSection| s@);
        let mut resolved = chain[n - 1].copy();
        let mut i: usize = n - 1;
        assert(cv.subrange((n - 1) as int, n as int) =~= seq![cv[n - 1]]);
        while i > 0
            invariant
                0 <= i < n,
                n == chain.len(),
                cv == chain@.map_values(|s: KvantumSection| s@),
                resolved@ == merge_chain(cv.subrange(i as int, n as int)),
            decreases i,
        {
            i -= 1;
            assert(cv.subrange(i as int, n as int).drop_first() =~= cv.subrange(i + 1, n as int));
            resolved = chain[i].resolve_with(&resolved);
        }
        assert(cv.subrange(0, n as int) =~= cv);
        Some(resolved)
    }

    /// All widget section names, in order.
    pub fn section_names(&self) -> (r: Vec<&str>)
        ensures
            r@.map_values(|s: &str| s@) == self@.order,
    {
        let mut r: Vec<&str> = Vec::new();
        let mut i: usize = 0;
        while i < self.section_order.len()
            invariant
                i <= self.section_order.len(),
                r@.map_values(|s: &str| s@) == texts(self.section_order@).take(i as int),
            decreases self.section_order.len() - i,
        {
            let ghost prev = r@;
            r.push(self.section_order[i].as_str());
            assert(r@.map_values(|s: &str| s@) =~= prev.map_values(|s: &str| s@).push(
                self.section_order@[i as int]@,
            ));
            assert(texts(self.section_order@).take(i + 1) =~= texts(self.section_order@).take(
                i as int,
            ).push(self.section_order@[i as int]@));
            i += 1;
        }
        assert(texts(self.section_order@).take(i as int) =~= texts(self.section_order@));
        r
    }

    /// Read a configuration from an INI document.
    pub fn from_ini(doc: &IniDocument) -> (c: Self)
        ensures
            c@ == from_sections(doc@.sections),
    {
        let ghost ss = doc@.sections;
        let mut general_map = StrMap::new();
        let mut colors_map = StrMap::new();
        let mut hacks_map = StrMap::new();
        let mut widgets: KeyMap<KvantumSection> = KeyMap::new();
        let mut order: Vec<String> = Vec::new();
        let mut i: usize = 0;
        assert(texts(order@) =~= Seq::<Seq<char>>::empty());
        assert(ss.take(0) =~= Seq::<SectionV>::empty());
        while i < doc.sections.len()
            invariant
                i <= doc.sections.len(),
                ss == doc@.sections,
                (ConfigModel {
                    general: general_map@,
                    colors: colors_map@,
                    hacks: hacks_map@,
                    widgets: widgets@,
                    order: texts(order@),
                }) == from_sections(ss.take(i as int)),
            decreases doc.sections.len() - i,
        {
            let sec = &doc.sections[i];
            assert(ss.take(i + 1).drop_last() =~= ss.take(i as int));
            assert(ss.take(i + 1).last() == sec@);
            let map = entries_to_map(&sec.entries);
            let name = sec.name.as_str();
            if str_eq(name, "%General") {
                general_map = map;
            } else if str_eq(name, "GeneralColors") {
                colors_map = map;
            } else if str_eq(name, "Hacks") {
                hacks_map = map;
            } else {
                let ghost prev = order@;
                order.push(name.to_string());
                assert(texts(order@) =~= texts(prev).push(name@));
                widgets.insert(name.to_string(), KvantumSection::from_map(name, map));
            }
            i += 1;
        }
        assert(ss.take(i as int) =~= ss);
        KvantumConfig {
            general: KvantumGeneral::from_map(general_map),
            colors: KvantumColors::from_map(colors_map),
            hacks: hacks_map,
            widget_sections: widgets,
            section_order: order,
        }
    }

    /// Write this configuration as an INI document.
    pub fn to_ini(&self) -> (d: IniDocument)
        ensures
            is_config_doc(self@, d@),
            read_shape(self@) ==> from_sections(d@.sections) == self@,
            read_shape(self@) && config_reads_back(self@) ==> from_sections(
                spec_parse_ini(doc_text(d@)).sections,
            ) == self@,
    {
        let mut doc = IniDocument {
            header_lines: Vec::new(),
            sections: Vec::new(),
            trailing_lines: Vec::new(),
        };
        assert(doc@.header_lines =~= Seq::<Seq<char>>::empty());
        assert(doc@.trailing_lines =~= Seq::<Seq<char>>::empty());
        let g = self.general.to_map();
        add_section(&mut doc, "%General", &g);
        let c = self.colors.to_map();
        add_section(&mut doc, "GeneralColors", &c);
        add_section(&mut doc, "Hacks", &self.hacks);
        let ghost o = texts(self.section_order@);
        let ghost ws = self.widget_sections@;
        let mut i: usize = 0;
        while i < self.section_order.len()
            invariant
                i <= self.section_order.len(),
                o == texts(self.section_order@),
                ws == self.widget_sections@,
                doc@.header_lines.len() == 0,
                doc@.trailing_lines.len() == 0,
                doc@.sections.len() == 3 + present_names(o.take(i as int), ws).len(),
                is_map_section(doc@.sections[0], "%General"@, self@.general),
                is_map_section(doc@.sections[1], "GeneralColors"@, self@.colors),
                is_map_section(doc@.sections[2], "Hacks"@, self@.hacks),
                forall|j: int|
                    0 <= j < present_names(o.take(i as int), ws).len() ==> is_map_section(
                        #[trigger] doc@.sections[3 + j],
                        present_names(o.take(i as int), ws)[j],
                        ws[present_names(o.take(i as int), ws)[j]].values,
                    ),
            decreases self.section_order.len() - i,
        {
            let ghost before = doc@.sections;
            let ghost pn = present_names(o.take(i as int), ws);
            assert(o.take(i + 1).drop_last() =~= o.take(i as int));
            assert(o.take(i + 1).last() == self.section_order@[i as int]@);
            let name = self.section_order[i].as_str();
            match self.widget_sections.get(name) {
                Some(sec) => {
                    let m = sec.to_map();
                    add_section(&mut doc, name, &m);
                    assert forall|j: int|
                        0 <= j < pn.len() + 1 implies is_map_section(
                        #[trigger] doc@.sections[3 + j],
                        pn.push(name@)[j],
                        ws[pn.push(name@)[j]].values,
                    ) by {
                        if j < pn.len() {
                            assert(doc@.sections[3 + j] == before[3 + j]);
                        }
                    }
                },
                None => {},
            }
            i += 1;
        }
        assert(o.take(i as int) =~= o);
        proof {
            if read_shape(self@) {
                lemma_config_round_trip(self@, doc@);
                if config_reads_back(self@) {
                    lemma_config_save_load(self@, doc@);
                }
            }
        }
        doc
    }

    /// A copy with replaced colours.
    pub fn copy_with_colors(&self, new_colors: KvantumColors) -> (c: Self)
        ensures
            c@ == (ConfigModel { colors: new_colors@, ..self@ }),
    {
        KvantumConfig {
            general: self.general.copy(),
            colors: new_colors,
            hacks: self.hacks.copy(),
            widget_sections: copy_sections(&self.widget_sections),
            section_order: copy_strings(&self.section_order),
        }
    }

    /// A copy with a replaced `[%General]` section.
    pub fn copy_with_general(&self, new_general: KvantumGeneral) -> (c: Self)
        ensures
            c@ == (ConfigModel { general: new_general@, ..self@ }),
    {
        KvantumConfig {
            general: new_general,
            colors: self.colors.copy(),
            hacks: self.hacks.copy(),
            widget_sections: copy_sections(&self.widget_sections),
            section_order: copy_strings(&self.section_order),
        }
    }

    /// A copy with one widget section added or replaced; a new name goes
    /// last in the order.
    pub fn copy_with_section(&self, name: &str, section: KvantumSection) -> (c: Self)
        ensures
            c@.general == self@.general,
            c@.colors == self@.colors,
            c@.hacks == self@.hacks,
            c@.widgets == self@.widgets.insert(name@, section@),
            c@.order == if self@.widgets.contains_key(name@) {
                self@.order
            } else {
                self@.order.push(name@)
            },
    {
        let mut new_sections = copy_sections(&self.widget_sections);
        let mut new_order = copy_strings(&self.section_order);
        if !new_sections.contains_key(name) {
            let ghost prev = new_order@;
            new_order.push(name.to_string());
            assert(texts(new_order@) =~= texts(prev).push(name@));
        }
        new_sections.insert(name.to_string(), section);
        KvantumConfig {
            general: self.general.copy(),
            colors: self.colors.copy(),
            hacks: self.hacks.copy(),
            widget_sections: new_sections,
            section_order: new_order,
        }
    }

    /// A copy with replaced hacks.
    pub fn copy_with_hacks(&self, new_hacks: StrMap) -> (c: Self)
        ensures
            c@ == (ConfigModel { hacks: new_hacks@, ..self@ }),
    {
        KvantumConfig {
            general: self.general.copy(),
            colors: self.colors.copy(),
            hacks: new_hacks,
            widget_sections: copy_sections(&self.widget_sections),
            section_order: copy_strings(&self.section_order),
        }
    }

    /// A copy of this configuration.
    pub fn copy(&self) -> (c: Self)
        ensures
            c@ == self@,
    {
        self.copy_with_colors(self.colors.copy())
    }

    /// A copy with `key` of `[GeneralColors]` set to `value`.
    pub fn with_color_value(&self, key: &str, value: String) -> (c: Self)
        ensures
            c@ == (ConfigModel { colors: self@.colors.insert(key@, value@), ..self@ }),
    {
        let mut colors = self.colors.copy();
        colors.set_value(key, value);
        self.copy_with_colors(colors)
    }

    /// A copy with `key` of `[%General]` set to `value`.
    pub fn with_general_value(&self, key: &str, value: String) -> (c: Self)
        ensures
            c@ == (ConfigModel { general: self@.general.insert(key@, value@), ..self@ }),
    {
        let mut general = self.general.copy();
        general.set_value(key, value);
        self.copy_with_general(general)
    }

    /// A copy with `key` of `[Hacks]` set to `value`.
    pub fn with_hack_value(&self, key: &str, value: String) -> (c: Self)
        ensures
            c@ == (ConfigModel { hacks: self@.hacks.insert(key@, value@), ..self@ }),
    {
        let mut hacks = self.hacks.copy();
        hacks.insert(key.to_string(), value);
        self.copy_with_hacks(hacks)
    }

    /// Whether two configurations hold the same sections and order.
    pub fn same_as(&self, other: &KvantumConfig) -> (r: bool)
        ensures
            r == (self@ == other@),
    {
        let r = self.general.same_as(&other.general) && self.colors.same_as(&other.colors)
            && self.hacks == other.hacks && self.widget_sections == other.widget_sections
            && strings_eq(&self.section_order, &other.section_order);
        proof {
            if r {
                assert(self@ =~= other@);
            }
        }
        r
    }

    /// Whether the configuration has no widget section.
    pub fn has_no_widget_sections(&self) -> (r: bool)
        ensures
            r == (self@.widgets.len() == 0),
    {
        self.widget_sections.is_empty()
    }

    /// A copy of the `[GeneralColors]` section.
    pub fn colors_copy(&self) -> (c: KvantumColors)
        ensures
            c@ == self@.colors,
    {
        self.colors.copy()
    }

    /// Overwrite the `[GeneralColors]` section with a palette variant's
    /// colours; nothing else changes.
    pub fn apply_palette(&mut self, variant: &StrMap)
        requires
            kvantum_palette_ok(variant@),
        ensures
            final(self)@ == (ConfigModel {
                colors: kvantum_with_palette(old(self)@.colors, kvantum_mapping(), variant@),
                ..old(self)@
            }),
    {
        apply_palette_to_kvantum(&mut self.colors, variant);
    }

    /// This configuration's colours, with everything else taken from
    /// `template`; the hacks are this configuration's own unless it has
    /// none.  A theme without widget sections adopts a full template this
    /// way.
    pub fn adopt_template(&self, template: &KvantumConfig) -> (c: Self)
        ensures
            c@ == (ConfigModel {
                colors: self@.colors,
                hacks: if self@.hacks.len() == 0 {
                    template@.hacks
                } else {
                    self@.hacks
                },
                ..template@
            }),
    {
        let our_colors = self.colors.copy();
        let our_hacks = if self.hacks.is_empty() {
            template.hacks.copy()
        } else {
            self.hacks.copy()
        };
        template.copy_with_colors(our_colors).copy_with_hacks(our_hacks)
    }

    /// A one-line summary of the sizes of the parts.
    pub fn describe(&self) -> (s: String)
        ensures
            s@ == "KvantumConfig(general: "@ + crate::num::nat_to_decimal(self@.general.len())
                + " keys, colors: "@ + crate::num::nat_to_decimal(self@.colors.len())
                + " keys, hacks: "@ + crate::num::nat_to_decimal(self@.hacks.len())
                + " keys, sections: "@ + crate::num::nat_to_decimal(self@.widgets.len()) + ")"@,
    {
        let mut out = String::new();
        out.append("KvantumConfig(general: ");
        let a = self.general.len();
        push_nat_decimal(&mut out, a as u64);
        out.append(" keys, colors: ");
        let b = self.colors.len();
        push_nat_decimal(&mut out, b as u64);
        out.append(" keys, hacks: ");
        let c = self.hacks.len();
        push_nat_decimal(&mut out, c as u64);
        out.append(" keys, sections: ");
        let d = self.widget_sections.len();
        push_nat_decimal(&mut out, d as u64);
        out.append(")");
        out
    }
}

/// A copy of a list of strings.
fn copy_strings(v: &Vec<String>) -> (r: Vec<String>)
    ensures
        texts(r@) == texts(v@),
{
    let mut r: Vec<String> = Vec::new();
    let mut i: usize = 0;
    while i < v.len()
        invariant
            i <= v.len(),
            texts(r@) == texts(v@).take(i as int),
        decreases v.len() - i,
    {
        let ghost prev = r@;
        r.push(v[i].clone());
        assert(texts(r@) =~= texts(prev).push(v@[i as int]@));
        assert(texts(v@).take(i + 1) =~= texts(v@).take(i as int).push(v@[i as int]@));
        i += 1;
    }
    assert(texts(v@).take(i as int) =~= texts(v@));
    r
}

} // verus!
