//! The Klassy main configuration file (`klassyrc`): any section and key,
//! kept as text, with typed accessors for the most used fields.

use vstd::prelude::*;
use vstd::std_specs::cmp::PartialEqSpecImpl;
use crate::color::{klassy_text, spec_try_parse, color_text_checked, color_text_ok, to_klassy_color, try_parse, Rgba};
use crate::ini::{IniDocument, SectionV};
use crate::ini::parser::spec_parse_ini;
use crate::ini::round_trip::{
    lemma_ini_doc_round_trip, lemma_map_section_plain, map_reads_back, name_reads_back,
    section_reads_back,
};
use crate::ini::serializer::doc_text;
use crate::ini::maps::{
    add_section, entries_map, entries_to_map, is_map_section, lemma_entries_map_keys,
    lemma_map_section_reads_back, no_empty_keys,
};
use crate::models::klassy::enums::{
    ButtonBackgroundColors, ButtonIconStyle, ButtonShape, ShadowSize, WindowOutlineStyle,
};
use crate::models::values::{bool_string, bool_text, lookup};
use crate::num::{i64_to_string, int_to_decimal, parse_i64, parse_i64_str};
use crate::strmap::{has_key, pairs_map, KeyMap, StrMap};
use crate::text::{str_eq, strings_eq, texts};

verus! {

broadcast use vstd::string::group_string_axioms;

/// The abstract content of a Klassy configuration.
pub struct KlassyModel {
    /// Section name to its key/value pairs.
    pub sections: Map<Seq<char>, Map<Seq<char>, Seq<char>>>,
    /// Section names in order of first appearance.
    pub order: Seq<Seq<char>>,
}

/// The value of `key` in `section`, if both exist.
pub open spec fn nested(c: KlassyModel, section: Seq<char>, key: Seq<char>) -> Option<Seq<char>> {
    if c.sections.contains_key(section) {
        lookup(c.sections[section], key)
    } else {
        None
    }
}

/// `c` with `key` of `section` set to `value`; a new section is created
/// empty and goes last in the order.
pub open spec fn klassy_set(c: KlassyModel, section: Seq<char>, key: Seq<char>, value: Seq<char>) -> KlassyModel {
    if c.sections.contains_key(section) {
        KlassyModel {
            sections: c.sections.insert(section, c.sections[section].insert(key, value)),
            order: c.order,
        }
    } else {
        KlassyModel {
            sections: c.sections.insert(section, Map::empty().insert(key, value)),
            order: c.order.push(section),
        }
    }
}

/// A text read as an integer.
pub open spec fn opt_int(v: Option<Seq<char>>) -> Option<i64> {
    match v {
        Some(t) => parse_i64(t),
        None => None,
    }
}

/// A text read as a flag: `true` exactly for the text `true`.
pub open spec fn opt_bool(v: Option<Seq<char>>) -> Option<bool> {
    match v {
        Some(t) => Some(t == "true"@),
        None => None,
    }
}

/// A text read as a colour in any notation.
pub open spec fn opt_color(v: Option<Seq<char>>) -> Option<Rgba> {
    match v {
        Some(t) => spec_try_parse(t),
        None => None,
    }
}

/// The value of `key` in `section` can be read as a colour without
/// panicking.
pub open spec fn nested_color_ok(c: KlassyModel, section: Seq<char>, key: Seq<char>) -> bool {
    nested(c, section, key) matches Some(t) ==> color_text_ok(t)
}

/// The configuration read from a sequence of sections: each section's
/// pairs replace any earlier section of the same name, and every section
/// name is appended to the order.
pub open spec fn klassy_from_sections(ss: Seq<SectionV>) -> KlassyModel
    decreases ss.len(),
{
    if ss.len() == 0 {
        KlassyModel { sections: Map::empty(), order: Seq::empty() }
    } else {
        let c = klassy_from_sections(ss.drop_last());
        let s = ss.last();
        KlassyModel {
            sections: c.sections.insert(s.name, entries_map(s.entries)),
            order: c.order.push(s.name),
        }
    }
}

/// The names of `order` that have a section, in order.
pub open spec fn present_sections(
    order: Seq<Seq<char>>,
    ss: Map<Seq<char>, Map<Seq<char>, Seq<char>>>,
) -> Seq<Seq<char>>
    decreases order.len(),
{
    if order.len() == 0 {
        Seq::empty()
    } else {
        let prev = present_sections(order.drop_last(), ss);
        if ss.contains_key(order.last()) {
            prev.push(order.last())
        } else {
            prev
        }
    }
}

/// `d` is the document written for `c`: one section per name of the order
/// that has a section, with its pairs ordered by key.
pub open spec fn is_klassy_doc(c: KlassyModel, d: crate::ini::DocV) -> bool {
    let pn = present_sections(c.order, c.sections);
    &&& d.header_lines.len() == 0
    &&& d.trailing_lines.len() == 0
    &&& d.sections.len() == pn.len()
    &&& forall|i: int|
        0 <= i < pn.len() ==> is_map_section(#[trigger] d.sections[i], pn[i], c.sections[pn[i]])
}

/// A copy of every section map, under the same names.
pub fn copy_section_maps(m: &KeyMap<StrMap>) -> (r: KeyMap<StrMap>)
    ensures
        r@ == m@,
{
    m.check();
    let n = m.len();
    let ghost p = m.pairs();
    let mut out: KeyMap<StrMap> = KeyMap::new();
    let mut i: usize = 0;
    while i < n
        invariant
            i <= n,
            n == p.len(),
            p == m.pairs(),
            out@ == pairs_map(p.take(i as int)),
        decreases n - i,
    {
        let k = m.key_at(i).clone();
        let v = m.value_at(i).copy();
        assert(p.take(i + 1).drop_last() =~= p.take(i as int));
        out.insert(k, v);
        i += 1;
    }
    assert(p.take(n as int) =~= p);
    out
}

impl Clone for KeyMap<StrMap> {
    fn clone(&self) -> (r: Self)
        ensures
            r@ == self@,
    {
        copy_section_maps(self)
    }
}

impl PartialEq for KeyMap<StrMap> {
    fn eq(&self, other: &Self) -> (r: bool) {
        self.check();
        other.check();
        if self.len() != other.len() {
            return false;
        }
        let n = self.len();
        let ghost p = self.pairs();
        let mut i: usize = 0;
        while i < n
            invariant
                i <= n,
                n == p.len(),
                p == self.pairs(),
                self@.len() == other@.len(),
                self@.dom().finite(),
                other@.dom().finite(),
                forall|k: Seq<char>| #[trigger] self@.contains_key(k) <==> has_key(p, k),
                forall|j: int| 0 <= j < p.len() ==> self@[(#[trigger] p[j]).0] == p[j].1,
                forall|j: int|
                    0 <= j < i ==> other@.contains_key((#[trigger] p[j]).0) && other@[p[j].0] == p[j].1,
            decreases n - i,
        {
            let k = self.key_at(i);
            match other.get(k.as_str()) {
                Some(v) => {
                    if !(self.value_at(i) == v) {
                        return false;
                    }
                },
                None => {
                    return false;
                },
            }
            i += 1;
        }
        proof {
            assert(self@.dom().subset_of(other@.dom())) by {
                assert forall|k: Seq<char>| self@.dom().contains(k) implies other@.dom().contains(k) by {
                    assert(self@.contains_key(k));
                    let j = choose|j: int| 0 <= j < p.len() && (#[trigger] p[j]).0 == k;
                }
            }
            vstd::set_lib::lemma_subset_equality(self@.dom(), other@.dom());
            assert forall|k: Seq<char>| self@.contains_key(k) implies self@[k] == other@[k] by {
                let j = choose|j: int| 0 <= j < p.len() && (#[trigger] p[j]).0 == k;
            }
            assert(self@ =~= other@);
        }
        true
    }
}

impl PartialEqSpecImpl for KeyMap<StrMap> {
    open spec fn obeys_eq_spec() -> bool {
        true
    }

    open spec fn eq_spec(&self, other: &KeyMap<StrMap>) -> bool {
        self@ == other@
    }
}

/// A value reads back as set, and setting one value leaves every other
/// value as it was.
pub proof fn lemma_klassy_get_after_set(
    c: KlassyModel,
    section: Seq<char>,
    key: Seq<char>,
    value: Seq<char>,
    s2: Seq<char>,
    k2: Seq<char>,
)
    ensures
        nested(klassy_set(c, section, key, value), section, key) == Some(value),
        s2 != section || k2 != key ==> nested(klassy_set(c, section, key, value), s2, k2) == nested(
            c,
            s2,
            k2,
        ),
{
}

// ---------------------------------------------------------------------------
// Round trip
// ---------------------------------------------------------------------------

/// Every configuration keeps this: every ordered name has a section, and
/// every section is in the order.
pub open spec fn klassy_wf(c: KlassyModel) -> bool {
    &&& forall|i: int| 0 <= i < c.order.len() ==> c.sections.contains_key(#[trigger] c.order[i])
    &&& forall|k: Seq<char>| #[trigger] c.sections.contains_key(k) ==> c.order.contains(k)
}

/// No section has an empty key.
pub open spec fn klassy_no_empty_keys(c: KlassyModel) -> bool {
    forall|k: Seq<char>| #[trigger] c.sections.contains_key(k) ==> no_empty_keys(c.sections[k])
}

/// What every configuration read from a document satisfies: it is
/// well formed and has no empty keys.
pub open spec fn klassy_read_shape(c: KlassyModel) -> bool {
    klassy_wf(c) && klassy_no_empty_keys(c)
}

proof fn lemma_klassy_read_shape(ss: Seq<SectionV>)
    ensures
        klassy_read_shape(klassy_from_sections(ss)),
    decreases ss.len(),
{
    if ss.len() > 0 {
        lemma_klassy_read_shape(ss.drop_last());
        lemma_entries_map_keys(ss.last().entries);
        let c = klassy_from_sections(ss.drop_last());
        let d = klassy_from_sections(ss);
        let s = ss.last();
        assert forall|i: int| 0 <= i < d.order.len() implies d.sections.contains_key(#[trigger] d.order[i]) by {
            if i < c.order.len() {
                assert(d.order[i] == c.order[i]);
            }
        }
        assert forall|k: Seq<char>| #[trigger] d.sections.contains_key(k) implies d.order.contains(k)
            && no_empty_keys(d.sections[k]) by {
            if k == s.name {
                assert(d.order[d.order.len() - 1] == k);
            } else {
                let i = choose|i: int| 0 <= i < c.order.len() && c.order[i] == k;
                assert(d.order[i] == k);
            }
        }
    }
}

proof fn lemma_present_sections_all(order: Seq<Seq<char>>, ss: Map<Seq<char>, Map<Seq<char>, Seq<char>>>)
    requires
        forall|i: int| 0 <= i < order.len() ==> ss.contains_key(#[trigger] order[i]),
    ensures
        present_sections(order, ss) == order,
    decreases order.len(),
{
    if order.len() > 0 {
        lemma_present_sections_all(order.drop_last(), ss);
        assert(order.last() == order[order.len() - 1]);
        assert(order.drop_last().push(order.last()) =~= order);
    }
}

proof fn lemma_klassy_reread_prefix(c: KlassyModel, d: crate::ini::DocV, j: int)
    requires
        klassy_read_shape(c),
        is_klassy_doc(c, d),
        present_sections(c.order, c.sections) == c.order,
        0 <= j <= c.order.len(),
    ensures
        klassy_from_sections(d.sections.take(j)) == (KlassyModel {
            sections: c.sections.restrict(c.order.take(j).to_set()),
            order: c.order.take(j),
        }),
    decreases j,
{
    if j == 0 {
        assert(d.sections.take(0) =~= Seq::<SectionV>::empty());
        assert(c.sections.restrict(c.order.take(0).to_set()) =~= Map::<Seq<char>, Map<Seq<char>, Seq<char>>>::empty());
        assert(c.order.take(0) =~= Seq::<Seq<char>>::empty());
    } else {
        lemma_klassy_reread_prefix(c, d, j - 1);
        let ss = d.sections.take(j);
        assert(ss.drop_last() =~= d.sections.take(j - 1));
        let n = c.order[j - 1];
        let s = d.sections[j - 1];
        assert(ss.last() == s);
        assert(is_map_section(s, n, c.sections[n]));
        assert(c.sections.contains_key(n));
        lemma_map_section_reads_back(s, n, c.sections[n]);
        assert(c.order.take(j) =~= c.order.take(j - 1).push(n));
        assert(c.order.take(j).to_set() =~= c.order.take(j - 1).to_set().insert(n)) by {
            assert forall|x: Seq<char>| c.order.take(j).to_set().contains(x) <==> c.order.take(
                j - 1,
            ).to_set().insert(n).contains(x) by {
                if c.order.take(j).contains(x) && x != n {
                    let i = choose|i: int| 0 <= i < j && #[trigger] c.order.take(j)[i] == x;
                    assert(c.order.take(j - 1)[i] == x);
                }
                if c.order.take(j - 1).contains(x) {
                    let i = choose|i: int| 0 <= i < j - 1 && #[trigger] c.order.take(j - 1)[i] == x;
                    assert(c.order.take(j)[i] == x);
                }
                if x == n {
                    assert(c.order.take(j)[j - 1] == n);
                }
            }
        }
        assert(c.sections.restrict(c.order.take(j).to_set()) =~= c.sections.restrict(
            c.order.take(j - 1).to_set(),
        ).insert(n, c.sections[n]));
    }
}

/// Writing a well-formed configuration without empty keys and reading it
/// back gives the same configuration, section order included.
pub proof fn lemma_klassy_round_trip(c: KlassyModel, d: crate::ini::DocV)
    requires
        klassy_read_shape(c),
        is_klassy_doc(c, d),
    ensures
        klassy_from_sections(d.sections) == c,
{
    lemma_present_sections_all(c.order, c.sections);
    lemma_klassy_reread_prefix(c, d, c.order.len() as int);
    assert(d.sections.take(c.order.len() as int) =~= d.sections);
    assert(c.order.take(c.order.len() as int) =~= c.order);
    assert(c.sections.restrict(c.order.to_set()) =~= c.sections);
}

/// A configuration read from a document has the shape the round trip
/// needs.
pub proof fn lemma_klassy_read_is_shaped(ss: Seq<SectionV>)
    ensures
        klassy_read_shape(klassy_from_sections(ss)),
{
    lemma_klassy_read_shape(ss);
}

/// Every section name, key and value of a configuration is plain text
/// that reads back from the written file.
pub open spec fn klassy_reads_back(c: KlassyModel) -> bool {
    forall|k: Seq<char>| #[trigger]
        c.sections.contains_key(k) ==> name_reads_back(k) && map_reads_back(c.sections[k])
}

/// Saving a well-formed configuration (every configuration is; see
/// `KlassyConfig::to_ini`) and reading the saved text back gives the same
/// configuration, section order included, provided its names, keys and
/// values are plain text that reads back (see `lemma_ini_doc_round_trip`).
pub proof fn lemma_klassy_save_load(c: KlassyModel, d: crate::ini::DocV)
    requires
        klassy_wf(c),
        is_klassy_doc(c, d),
        klassy_reads_back(c),
    ensures
        klassy_from_sections(spec_parse_ini(doc_text(d)).sections) == c,
{
    assert forall|k: Seq<char>| #[trigger] c.sections.contains_key(k) implies no_empty_keys(c.sections[k]) by {
        assert(map_reads_back(c.sections[k]));
        assert forall|x: Seq<char>| #[trigger] c.sections[k].contains_key(x) implies x.len() > 0 by {
            assert(crate::ini::round_trip::key_reads_back(x));
        }
    }
    lemma_present_sections_all(c.order, c.sections);
    assert forall|i: int| 0 <= i < d.sections.len() implies section_reads_back(#[trigger] d.sections[i]) by {
        let n = c.order[i];
        assert(present_sections(c.order, c.sections)[i] == n);
        assert(c.sections.contains_key(n));
        lemma_map_section_plain(d.sections[i], n, c.sections[n]);
    }
    lemma_ini_doc_round_trip(d);
    lemma_klassy_round_trip(c, d);
}

/// Complete model for a Klassy `klassyrc` configuration file.
#[derive(Debug, PartialEq)]
pub struct KlassyConfig {
    sections: KeyMap<StrMap>,
    /// Section ordering kept for round-trip fidelity.
    section_order: Vec<String>,
}

impl View for KlassyConfig {
    type V = KlassyModel;

    closed spec fn view(&self) -> KlassyModel {
        KlassyModel { sections: self.sections@, order: texts(self.section_order@) }
    }
}

impl Clone for KlassyConfig {
    fn clone(&self) -> (r: Self)
        ensures
            r@ == self@,
    {
        self.copy()
    }
}

impl KlassyConfig {
    /// The order and the section map agree.
    #[verifier::type_invariant]
    closed spec fn order_matches(self) -> bool {
        klassy_wf(self@)
    }
}

impl KlassyConfig {
    /// Create from a pre-built sections map; the order is that of its keys.
    pub fn new(sections: KeyMap<StrMap>) -> (c: Self)
        ensures
            c@.sections == sections@,
            c@.order.no_duplicates(),
            forall|k: Seq<char>| #[trigger] c@.order.contains(k) <==> sections@.contains_key(k),
    {
        sections.check();
        let section_order = sections.keys();
        proof {
            let p = sections.pairs();
            let o = texts(section_order@);
            assert forall|i: int, j: int| 0 <= i < o.len() && 0 <= j < o.len() && i != j implies o[i]
                != o[j] by {
                if i < j {
                    assert(p[i].0 != p[j].0);
                } else {
                    assert(p[j].0 != p[i].0);
                }
            }
            assert forall|k: Seq<char>| #[trigger] o.contains(k) <==> sections@.contains_key(k) by {
                if o.contains(k) {
                    let i = choose|i: int| 0 <= i < o.len() && o[i] == k;
                    assert(p[i].0 == k);
                }
                if sections@.contains_key(k) {
                    let i = choose|i: int| 0 <= i < p.len() && (#[trigger] p[i]).0 == k;
                    assert(o[i] == k);
                }
            }
            assert forall|i: int| 0 <= i < o.len() implies sections@.contains_key(#[trigger] o[i]) by {
                assert(o.contains(o[i]));
            }
        }
        KlassyConfig { sections, section_order }
    }

    /// The raw value of `key` in `section`, or `None` if absent.
    pub fn get_value(&self, section: &str, key: &str) -> (r: Option<&str>)
        ensures
            match r {
                Some(v) => nested(self@, section@, key@) == Some(v@),
                None => nested(self@, section@, key@) is None,
            },
    {
        match self.sections.get(section) {
            Some(m) => m.get_str(key),
            None => None,
        }
    }

    /// A configuration with no sections.
    fn empty_config() -> (c: Self)
        ensures
            c@.sections == Map::<Seq<char>, Map<Seq<char>, Seq<char>>>::empty(),
            c@.order == Seq::<Seq<char>>::empty(),
    {
        let c = KlassyConfig { sections: KeyMap::new(), section_order: Vec::new() };
        assert(texts(c.section_order@) =~= Seq::<Seq<char>>::empty());
        c
    }

    /// Set a raw value; the section is created if needed.
    pub fn set_value(&mut self, section: &str, key: &str, value: String)
        ensures
            final(self)@ == klassy_set(old(self)@, section@, key@, value@),
    {
        let mut taken = KlassyConfig::empty_config();
        std::mem::swap(self, &mut taken);
        proof {
            use_type_invariant(&taken);
        }
        let ghost c0 = taken@;
        let KlassyConfig { mut sections, mut section_order } = taken;
        match sections.remove(section) {
            Some(m) => {
                let mut m = m;
                m.set(key, value);
                sections.insert(section.to_string(), m);
                assert(sections@ =~= c0.sections.insert(section@, c0.sections[section@].insert(key@, value@)));
            },
            None => {
                let ghost prev = section_order@;
                section_order.push(section.to_string());
                assert(texts(section_order@) =~= texts(prev).push(section@));
                let mut m = StrMap::new();
                m.set(key, value);
                sections.insert(section.to_string(), m);
                assert(sections@ =~= c0.sections.insert(
                    section@,
                    Map::<Seq<char>, Seq<char>>::empty().insert(key@, value@),
                ));
            },
        }
        let ghost c1 = KlassyModel { sections: sections@, order: texts(section_order@) };
        assert(c1 == klassy_set(c0, section@, key@, value@));
        assert(klassy_wf(c1)) by {
            assert forall|k: Seq<char>| #[trigger] c1.sections.contains_key(k) implies c1.order.contains(k) by {
                if k == section@ {
                    if !c0.sections.contains_key(section@) {
                        assert(c1.order[c1.order.len() - 1] == k);
                    }
                } else {
                    assert(c0.sections.contains_key(k));
                    let i = choose|i: int| 0 <= i < c0.order.len() && c0.order[i] == k;
                    assert(c1.order[i] == k);
                }
            }
        }
        *self = KlassyConfig { sections, section_order };
    }

    /// Remove `key` from `section`; `true` if it existed.
    pub fn remove_value(&mut self, section: &str, key: &str) -> (r: bool)
        ensures
            r == (nested(old(self)@, section@, key@) is Some),
            final(self)@.order == old(self)@.order,
            final(self)@.sections == if old(self)@.sections.contains_key(section@) {
                old(self)@.sections.insert(section@, old(self)@.sections[section@].remove(key@))
            } else {
                old(self)@.sections
            },
    {
        let mut taken = KlassyConfig::empty_config();
        std::mem::swap(self, &mut taken);
        proof {
            use_type_invariant(&taken);
        }
        let ghost c0 = taken@;
        let KlassyConfig { mut sections, section_order } = taken;
        let r = match sections.remove(section) {
            Some(m) => {
                let mut m = m;
                let removed = m.remove(key);
                sections.insert(section.to_string(), m);
                assert(sections@ =~= c0.sections.insert(section@, c0.sections[section@].remove(key@)));
                removed.is_some()
            },
            None => {
                assert(sections@ =~= c0.sections);
                false
            },
        };
        let ghost c1 = KlassyModel { sections: sections@, order: texts(section_order@) };
        assert(klassy_wf(c1)) by {
            assert(c1.sections.dom() =~= c0.sections.dom());
        }
        *self = KlassyConfig { sections, section_order };
        r
    }

    /// A copy of the pairs of `section` (empty when it does not exist).
    pub fn get_section(&self, section: &str) -> (m: StrMap)
        ensures
            m@ == if self@.sections.contains_key(section@) {
                self@.sections[section@]
            } else {
                Map::<Seq<char>, Seq<char>>::empty()
            },
    {
        match self.sections.get(section) {
            Some(m) => m.copy(),
            None => StrMap::new(),
        }
    }

    /// The section names, in order.
    pub fn section_names(&self) -> (r: Vec<&str>)
        ensures
            r@.map_values(|s: &str| s@) == self@.order,
    {
        let mut r: Vec<&str> = Vec::new();
        let mut i: usize = 0;
        while i < self.section_order.len()
            invariant
                i <= self.section_order.len(),
                r@.map_values(|s: &str| s@) == texts(self.section_order@).take(i as int),
            decreases self.section_order.len() - i,
        {
            let ghost prev = r@;
            r.push(self.section_order[i].as_str());
            assert(r@.map_values(|s: &str| s@) =~= prev.map_values(|s: &str| s@).push(
                self.section_order@[i as int]@,
            ));
            assert(texts(self.section_order@).take(i + 1) =~= texts(self.section_order@).take(
                i as int,
            ).push(self.section_order@[i as int]@));
            i += 1;
        }
        assert(texts(self.section_order@).take(i as int) =~= texts(self.section_order@));
        r
    }

    /// Whether `section` exists and holds `key`.
    pub fn has_value(&self, section: &str, key: &str) -> (r: bool)
        ensures
            r == (nested(self@, section@, key@) is Some),
    {
        match self.sections.get(section) {
            Some(m) => m.contains_key(key),
            None => false,
        }
    }

    /// A deep copy of all sections.
    pub fn to_map(&self) -> (m: KeyMap<StrMap>)
        ensures
            m@ == self@.sections,
    {
        copy_section_maps(&self.sections)
    }

    fn get_int(&self, section: &str, key: &str) -> (r: Option<i64>)
        ensures
            r == opt_int(nested(self@, section@, key@)),
    {
        match self.get_value(section, key) {
            Some(v) => parse_i64_str(v),
            None => None,
        }
    }

    fn get_bool(&self, section: &str, key: &str) -> (r: Option<bool>)
        ensures
            r == opt_bool(nested(self@, section@, key@)),
    {
        match self.get_value(section, key) {
            Some(v) => Some(str_eq(v, "true")),
            None => None,
        }
    }

    /// Whether the value of `key` in `section`, if any, can be read as a
    /// colour.
    pub fn color_readable(&self, section: &str, key: &str) -> (r: bool)
        ensures
            r == nested_color_ok(self@, section@, key@),
    {
        match self.get_value(section, key) {
            Some(v) => color_text_checked(v),
            None => true,
        }
    }

    fn get_color(&self, section: &str, key: &str) -> (r: Option<Rgba>)
        requires
            nested_color_ok(self@, section@, key@),
        ensures
            r == opt_color(nested(self@, section@, key@)),
    {
        match self.get_value(section, key) {
            Some(v) => try_parse(v),
            None => None,
        }
    }

    fn set_int(&mut self, section: &str, key: &str, value: i64)
        ensures
            final(self)@ == klassy_set(old(self)@, section@, key@, int_to_decimal(value as int)),
    {
        self.set_value(section, key, i64_to_string(value));
    }

    fn set_bool(&mut self, section: &str, key: &str, value: bool)
        ensures
            final(self)@ == klassy_set(old(self)@, section@, key@, bool_text(value)),
    {
        self.set_value(section, key, bool_string(value));
    }

    fn set_color(&mut self, section: &str, key: &str, value: Rgba)
        ensures
            final(self)@ == klassy_set(old(self)@, section@, key@, klassy_text(value)),
    {
        self.set_value(section, key, to_klassy_color(&value));
    }

    /// Whether two configurations hold the same sections in the same
    /// order.
    pub fn same_as(&self, other: &KlassyConfig) -> (r: bool)
        ensures
            r == (self@ == other@),
    {
        let same_sections = self.sections == other.sections;
        let same_order = strings_eq(&self.section_order, &other.section_order);
        proof {
            if same_sections && same_order {
                assert(self@ =~= other@);
            }
        }
        same_sections && same_order
    }

    /// A copy of this configuration.
    pub fn copy(&self) -> (c: Self)
        ensures
            c@ == self@,
    {
        let mut order: Vec<String> = Vec::new();
        let mut i: usize = 0;
        while i < self.section_order.len()
            invariant
                i <= self.section_order.len(),
                texts(order@) == texts(self.section_order@).take(i as int),
            decreases self.section_order.len() - i,
        {
            let ghost prev = order@;
            order.push(self.section_order[i].clone());
            assert(texts(order@) =~= texts(prev).push(self.section_order@[i as int]@));
            assert(texts(self.section_order@).take(i + 1) =~= texts(self.section_order@).take(
                i as int,
            ).push(self.section_order@[i as int]@));
            i += 1;
        }
        assert(texts(self.section_order@).take(i as int) =~= texts(self.section_order@));
        proof {
            use_type_invariant(self);
        }
        KlassyConfig { sections: copy_section_maps(&self.sections), section_order: order }
    }

    /// Read a configuration from an INI document.
    pub fn from_ini(doc: &IniDocument) -> (c: Self)
        ensures
            c@ == klassy_from_sections(doc@.sections),
    {
        let ghost ss = doc@.sections;
        let mut sections: KeyMap<StrMap> = KeyMap::new();
        let mut order: Vec<String> = Vec::new();
        let mut i: usize = 0;
        assert(texts(order@) =~= Seq::<Seq<char>>::empty());
        assert(ss.take(0) =~= Seq::<SectionV>::empty());
        while i < doc.sections.len()
            invariant
                i <= doc.sections.len(),
                ss == doc@.sections,
                (KlassyModel { sections: sections@, order: texts(order@) }) == klassy_from_sections(
                    ss.take(i as int),
                ),
            decreases doc.sections.len() - i,
        {
            let sec = &doc.sections[i];
            assert(ss.take(i + 1).drop_last() =~= ss.take(i as int));
            assert(ss.take(i + 1).last() == sec@);
            let map = entries_to_map(&sec.entries);
            sections.insert(sec.name.clone(), map);
            let ghost prev = order@;
            order.push(sec.name.clone());
            assert(texts(order@) =~= texts(prev).push(sec@.name));
            i += 1;
        }
        assert(ss.take(i as int) =~= ss);
        proof {
            lemma_klassy_read_shape(ss);
        }
        KlassyConfig { sections, section_order: order }
    }

    /// Write this configuration as an INI document, keys sorted within
    /// each section.
    pub fn to_ini(&self) -> (d: IniDocument)
        ensures
            is_klassy_doc(self@, d@),
            klassy_wf(self@),
            d@.sections.len() == self@.order.len(),
            forall|i: int| 0 <= i < self@.order.len() ==> (#[trigger] d@.sections[i]).name == self@.order[i],
            klassy_no_empty_keys(self@) ==> klassy_from_sections(d@.sections) == self@,
            klassy_reads_back(self@) ==> klassy_from_sections(spec_parse_ini(doc_text(d@)).sections) == self@,
    {
        proof {
            use_type_invariant(self);
        }
        let mut doc = IniDocument {
            header_lines: Vec::new(),
            sections: Vec::new(),
            trailing_lines: Vec::new(),
        };
        assert(doc@.header_lines =~= Seq::<Seq<char>>::empty());
        assert(doc@.trailing_lines =~= Seq::<Seq<char>>::empty());
        let ghost o = texts(self.section_order@);
        let ghost sm = self.sections@;
        let mut i: usize = 0;
        while i < self.section_order.len()
            invariant
                i <= self.section_order.len(),
                o == texts(self.section_order@),
                sm == self.sections@,
                doc@.header_lines.len() == 0,
                doc@.trailing_lines.len() == 0,
                doc@.sections.len() == present_sections(o.take(i as int), sm).len(),
                forall|j: int|
                    0 <= j < present_sections(o.take(i as int), sm).len() ==> is_map_section(
                        #[trigger] doc@.sections[j],
                        present_sections(o.take(i as int), sm)[j],
                        sm[present_sections(o.take(i as int), sm)[j]],
                    ),
            decreases self.section_order.len() - i,
        {
            let ghost before = doc@.sections;
            let ghost pn = present_sections(o.take(i as int), sm);
            assert(o.take(i + 1).drop_last() =~= o.take(i as int));
            assert(o.take(i + 1).last() == self.section_order@[i as int]@);
            let name = self.section_order[i].as_str();
            match self.sections.get(name) {
                Some(m) => {
                    add_section(&mut doc, name, m);
                    assert forall|j: int| 0 <= j < pn.len() + 1 implies is_map_section(
                        #[trigger] doc@.sections[j],
                        pn.push(name@)[j],
                        sm[pn.push(name@)[j]],
                    ) by {
                        if j < pn.len() {
                            assert(doc@.sections[j] == before[j]);
                        }
                    }
                },
                None => {},
            }
            i += 1;
        }
        assert(o.take(i as int) =~= o);
        proof {
            lemma_present_sections_all(self@.order, self@.sections);
            assert forall|i: int| 0 <= i < self@.order.len() implies (#[trigger] doc@.sections[i]).name
                == self@.order[i] by {
                assert(is_map_section(doc@.sections[i], self@.order[i], self@.sections[self@.order[i]]));
            }
            if klassy_no_empty_keys(self@) {
                lemma_klassy_round_trip(self@, doc@);
            }
            if klassy_reads_back(self@) {
                lemma_klassy_save_load(self@, doc@);
            }
        }
        doc
    }

    /// The `ButtonShape` value of `[Windeco]`.
    pub fn button_shape(&self) -> (r: Option<ButtonShape>)
        ensures
            r == (match nested(self@, "Windeco"@, "ButtonShape"@) {
                Some(v) => ButtonShape::parse(v),
                None => None,
            }),
    {
        match self.get_value("Windeco", "ButtonShape") {
            Some(v) => ButtonShape::from_value(v),
            None => None,
        }
    }

    /// Set the `ButtonShape` value of `[Windeco]`.
    pub fn set_button_shape(&mut self, v: ButtonShape)
        ensures
            final(self)@ == klassy_set(old(self)@, "Windeco"@, "ButtonShape"@, v.text()),
    {
        self.set_value("Windeco", "ButtonShape", v.value().to_string());
    }

    /// The `ButtonIconStyle` value of `[Windeco]`.
    pub fn button_icon_style(&self) -> (r: Option<ButtonIconStyle>)
        ensures
            r == (match nested(self@, "Windeco"@, "ButtonIconStyle"@) {
                Some(v) => ButtonIconStyle::parse(v),
                None => None,
            }),
    {
        match self.get_value("Windeco", "ButtonIconStyle") {
            Some(v) => ButtonIconStyle::from_value(v),
            None => None,
        }
    }

    /// Set the `ButtonIconStyle` value of `[Windeco]`.
    pub fn set_button_icon_style(&mut self, v: ButtonIconStyle)
        ensures
            final(self)@ == klassy_set(old(self)@, "Windeco"@, "ButtonIconStyle"@, v.text()),
    {
        self.set_value("Windeco", "ButtonIconStyle", v.value().to_string());
    }

    /// The `WindowCornerRadius` integer of `[Windeco]`.
    pub fn window_corner_radius(&self) -> (r: Option<i64>)
        ensures
            r == opt_int(nested(self@, "Windeco"@, "WindowCornerRadius"@)),
    {
        self.get_int("Windeco", "WindowCornerRadius")
    }

    /// Set the `WindowCornerRadius` integer of `[Windeco]`.
    pub fn set_window_corner_radius(&mut self, v: i64)
        ensures
            final(self)@ == klassy_set(old(self)@, "Windeco"@, "WindowCornerRadius"@, int_to_decimal(v as int)),
    {
        self.set_int("Windeco", "WindowCornerRadius", v);
    }

    /// The `AnimationsSpeedRelativeSystem` integer of `[Windeco]`.
    pub fn animations_speed_relative_system(&self) -> (r: Option<i64>)
        ensures
            r == opt_int(nested(self@, "Windeco"@, "AnimationsSpeedRelativeSystem"@)),
    {
        self.get_int("Windeco", "AnimationsSpeedRelativeSystem")
    }

    /// Set the `AnimationsSpeedRelativeSystem` integer of `[Windeco]`.
    pub fn set_animations_speed_relative_system(&mut self, v: i64)
        ensures
            final(self)@ == klassy_set(old(self)@, "Windeco"@, "AnimationsSpeedRelativeSystem"@, int_to_decimal(v as int)),
    {
        self.set_int("Windeco", "AnimationsSpeedRelativeSystem", v);
    }

    /// The `BlurTransparentTitleBars` flag of `[Windeco]`.
    pub fn blur_transparent_title_bars(&self) -> (r: Option<bool>)
        ensures
            r == opt_bool(nested(self@, "Windeco"@, "BlurTransparentTitleBars"@)),
    {
        self.get_bool("Windeco", "BlurTransparentTitleBars")
    }

    /// Set the `BlurTransparentTitleBars` flag of `[Windeco]`.
    pub fn set_blur_transparent_title_bars(&mut self, v: bool)
        ensures
            final(self)@ == klassy_set(old(self)@, "Windeco"@, "BlurTransparentTitleBars"@, bool_text(v)),
    {
        self.set_bool("Windeco", "BlurTransparentTitleBars", v);
    }

    /// The `DrawTitleBarSeparator` flag of `[Windeco]`.
    pub fn draw_title_bar_separator(&self) -> (r: Option<bool>)
        ensures
            r == opt_bool(nested(self@, "Windeco"@, "DrawTitleBarSeparator"@)),
    {
        self.get_bool("Windeco", "DrawTitleBarSeparator")
    }

    /// Set the `DrawTitleBarSeparator` flag of `[Windeco]`.
    pub fn set_draw_title_bar_separator(&mut self, v: bool)
        ensures
            final(self)@ == klassy_set(old(self)@, "Windeco"@, "DrawTitleBarSeparator"@, bool_text(v)),
    {
        self.set_bool("Windeco", "DrawTitleBarSeparator", v);
    }

    /// The `MatchTitleBarToApplicationColor` flag of `[Windeco]`.
    pub fn match_title_bar_to_application_color(&self) -> (r: Option<bool>)
        ensures
            r == opt_bool(nested(self@, "Windeco"@, "MatchTitleBarToApplicationColor"@)),
    {
        self.get_bool("Windeco", "MatchTitleBarToApplicationColor")
    }

    /// Set the `MatchTitleBarToApplicationColor` flag of `[Windeco]`.
    pub fn set_match_title_bar_to_application_color(&mut self, v: bool)
        ensures
            final(self)@ == klassy_set(old(self)@, "Windeco"@, "MatchTitleBarToApplicationColor"@, bool_text(v)),
    {
        self.set_bool("Windeco", "MatchTitleBarToApplicationColor", v);
    }

    /// The `ColorizeWindowOutlineWithButton` flag of `[Windeco]`.
    pub fn colorize_window_outline_with_button(&self) -> (r: Option<bool>)
        ensures
            r == opt_bool(nested(self@, "Windeco"@, "ColorizeWindowOutlineWithButton"@)),
    {
        self.get_bool("Windeco", "ColorizeWindowOutlineWithButton")
    }

    /// Set the `ColorizeWindowOutlineWithButton` flag of `[Windeco]`.
    pub fn set_colorize_window_outline_with_button(&mut self, v: bool)
        ensures
            final(self)@ == klassy_set(old(self)@, "Windeco"@, "ColorizeWindowOutlineWithButton"@, bool_text(v)),
    {
        self.set_bool("Windeco", "ColorizeWindowOutlineWithButton", v);
    }

    /// The `WindowOutlineStyleActive` value of `[Windeco]`.
    pub fn window_outline_style_active(&self) -> (r: Option<WindowOutlineStyle>)
        ensures
            r == (match nested(self@, "Windeco"@, "WindowOutlineStyleActive"@) {
                Some(v) => WindowOutlineStyle::parse(v),
                None => None,
            }),
    {
        match self.get_value("Windeco", "WindowOutlineStyleActive") {
            Some(v) => WindowOutlineStyle::from_value(v),
            None => None,
        }
    }

    /// Set the `WindowOutlineStyleActive` value of `[Windeco]`.
    pub fn set_window_outline_style_active(&mut self, v: WindowOutlineStyle)
        ensures
            final(self)@ == klassy_set(old(self)@, "Windeco"@, "WindowOutlineStyleActive"@, v.text()),
    {
        self.set_value("Windeco", "WindowOutlineStyleActive", v.value().to_string());
    }

    /// The `WindowOutlineStyleInactive` value of `[Windeco]`.
    pub fn window_outline_style_inactive(&self) -> (r: Option<WindowOutlineStyle>)
        ensures
            r == (match nested(self@, "Windeco"@, "WindowOutlineStyleInactive"@) {
                Some(v) => WindowOutlineStyle::parse(v),
                None => None,
            }),
    {
        match self.get_value("Windeco", "WindowOutlineStyleInactive") {
            Some(v) => WindowOutlineStyle::from_value(v),
            None => None,
        }
    }

    /// Set the `WindowOutlineStyleInactive` value of `[Windeco]`.
    pub fn set_window_outline_style_inactive(&mut self, v: WindowOutlineStyle)
        ensures
            final(self)@ == klassy_set(old(self)@, "Windeco"@, "WindowOutlineStyleInactive"@, v.text()),
    {
        self.set_value("Windeco", "WindowOutlineStyleInactive", v.value().to_string());
    }

    /// The `WindowOutlineCustomColorActive` colour of `[Windeco]`.
    pub fn window_outline_custom_color_active(&self) -> (r: Option<Rgba>)
        requires
            nested_color_ok(self@, "Windeco"@, "WindowOutlineCustomColorActive"@),
        ensures
            r == opt_color(nested(self@, "Windeco"@, "WindowOutlineCustomColorActive"@)),
    {
        self.get_color("Windeco", "WindowOutlineCustomColorActive")
    }

    /// Set the `WindowOutlineCustomColorActive` colour of `[Windeco]` (`R,G,B`).
    pub fn set_window_outline_custom_color_active(&mut self, c: Rgba)
        ensures
            final(self)@ == klassy_set(old(self)@, "Windeco"@, "WindowOutlineCustomColorActive"@, klassy_text(c)),
    {
        self.set_color("Windeco", "WindowOutlineCustomColorActive", c);
    }

    /// The `WindowOutlineCustomColorInactive` colour of `[Windeco]`.
    pub fn window_outline_custom_color_inactive(&self) -> (r: Option<Rgba>)
        requires
            nested_color_ok(self@, "Windeco"@, "WindowOutlineCustomColorInactive"@),
        ensures
            r == opt_color(nested(self@, "Windeco"@, "WindowOutlineCustomColorInactive"@)),
    {
        self.get_color("Windeco", "WindowOutlineCustomColorInactive")
    }

    /// Set the `WindowOutlineCustomColorInactive` colour of `[Windeco]` (`R,G,B`).
    pub fn set_window_outline_custom_color_inactive(&mut self, c: Rgba)
        ensures
            final(self)@ == klassy_set(old(self)@, "Windeco"@, "WindowOutlineCustomColorInactive"@, klassy_text(c)),
    {
        self.set_color("Windeco", "WindowOutlineCustomColorInactive", c);
    }

    /// The `ShadowSize` value of `[ShadowStyle]`.
    pub fn shadow_size(&self) -> (r: Option<ShadowSize>)
        ensures
            r == (match nested(self@, "ShadowStyle"@, "ShadowSize"@) {
                Some(v) => ShadowSize::parse(v),
                None => None,
            }),
    {
        match self.get_value("ShadowStyle", "ShadowSize") {
            Some(v) => ShadowSize::from_value(v),
            None => None,
        }
    }

    /// Set the `ShadowSize` value of `[ShadowStyle]`.
    pub fn set_shadow_size(&mut self, v: ShadowSize)
        ensures
            final(self)@ == klassy_set(old(self)@, "ShadowStyle"@, "ShadowSize"@, v.text()),
    {
        self.set_value("ShadowStyle", "ShadowSize", v.value().to_string());
    }

    /// The `ShadowStrength` integer of `[ShadowStyle]`.
    pub fn shadow_strength(&self) -> (r: Option<i64>)
        ensures
            r == opt_int(nested(self@, "ShadowStyle"@, "ShadowStrength"@)),
    {
        self.get_int("ShadowStyle", "ShadowStrength")
    }

    /// Set the `ShadowStrength` integer of `[ShadowStyle]`.
    pub fn set_shadow_strength(&mut self, v: i64)
        ensures
            final(self)@ == klassy_set(old(self)@, "ShadowStyle"@, "ShadowStrength"@, int_to_decimal(v as int)),
    {
        self.set_int("ShadowStyle", "ShadowStrength", v);
    }

    /// The `ShadowColor` colour of `[ShadowStyle]`.
    pub fn shadow_color(&self) -> (r: Option<Rgba>)
        requires
            nested_color_ok(self@, "ShadowStyle"@, "ShadowColor"@),
        ensures
            r == opt_color(nested(self@, "ShadowStyle"@, "ShadowColor"@)),
    {
        self.get_color("ShadowStyle", "ShadowColor")
    }

    /// Set the `ShadowColor` colour of `[ShadowStyle]` (`R,G,B`).
    pub fn set_shadow_color(&mut self, c: Rgba)
        ensures
            final(self)@ == klassy_set(old(self)@, "ShadowStyle"@, "ShadowColor"@, klassy_text(c)),
    {
        self.set_color("ShadowStyle", "ShadowColor", c);
    }

    /// The `ActiveTitleBarOpacity` integer of `[TitleBarOpacity]`.
    pub fn active_title_bar_opacity(&self) -> (r: Option<i64>)
        ensures
            r == opt_int(nested(self@, "TitleBarOpacity"@, "ActiveTitleBarOpacity"@)),
    {
        self.get_int("TitleBarOpacity", "ActiveTitleBarOpacity")
    }

    /// Set the `ActiveTitleBarOpacity` integer of `[TitleBarOpacity]`.
    pub fn set_active_title_bar_opacity(&mut self, v: i64)
        ensures
            final(self)@ == klassy_set(old(self)@, "TitleBarOpacity"@, "ActiveTitleBarOpacity"@, int_to_decimal(v as int)),
    {
        self.set_int("TitleBarOpacity", "ActiveTitleBarOpacity", v);
    }

    /// The `InactiveTitleBarOpacity` integer of `[TitleBarOpacity]`.
    pub fn inactive_title_bar_opacity(&self) -> (r: Option<i64>)
        ensures
            r == opt_int(nested(self@, "TitleBarOpacity"@, "InactiveTitleBarOpacity"@)),
    {
        self.get_int("TitleBarOpacity", "InactiveTitleBarOpacity")
    }

    /// Set the `InactiveTitleBarOpacity` integer of `[TitleBarOpacity]`.
    pub fn set_inactive_title_bar_opacity(&mut self, v: i64)
        ensures
            final(self)@ == klassy_set(old(self)@, "TitleBarOpacity"@, "InactiveTitleBarOpacity"@, int_to_decimal(v as int)),
    {
        self.set_int("TitleBarOpacity", "InactiveTitleBarOpacity", v);
    }

    /// The `OpaqueMaximizedTitleBars` flag of `[TitleBarOpacity]`.
    pub fn opaque_maximized_title_bars(&self) -> (r: Option<bool>)
        ensures
            r == opt_bool(nested(self@, "TitleBarOpacity"@, "OpaqueMaximizedTitleBars"@)),
    {
        self.get_bool("TitleBarOpacity", "OpaqueMaximizedTitleBars")
    }

    /// Set the `OpaqueMaximizedTitleBars` flag of `[TitleBarOpacity]`.
    pub fn set_opaque_maximized_title_bars(&mut self, v: bool)
        ensures
            final(self)@ == klassy_set(old(self)@, "TitleBarOpacity"@, "OpaqueMaximizedTitleBars"@, bool_text(v)),
    {
        self.set_bool("TitleBarOpacity", "OpaqueMaximizedTitleBars", v);
    }

    /// The `PercentMaximizedTopBottomMargins` integer of `[TitleBarSpacing]`.
    pub fn percent_maximized_top_bottom_margins(&self) -> (r: Option<i64>)
        ensures
            r == opt_int(nested(self@, "TitleBarSpacing"@, "PercentMaximizedTopBottomMargins"@)),
    {
        self.get_int("TitleBarSpacing", "PercentMaximizedTopBottomMargins")
    }

    /// Set the `PercentMaximizedTopBottomMargins` integer of `[TitleBarSpacing]`.
    pub fn set_percent_maximized_top_bottom_margins(&mut self, v: i64)
        ensures
            final(self)@ == klassy_set(old(self)@, "TitleBarSpacing"@, "PercentMaximizedTopBottomMargins"@, int_to_decimal(v as int)),
    {
        self.set_int("TitleBarSpacing", "PercentMaximizedTopBottomMargins", v);
    }

    /// The `ButtonBackgroundColorsActive` value of `[ButtonColors]`.
    pub fn button_background_colors_active(&self) -> (r: Option<ButtonBackgroundColors>)
        ensures
            r == (match nested(self@, "ButtonColors"@, "ButtonBackgroundColorsActive"@) {
                Some(v) => ButtonBackgroundColors::parse(v),
                None => None,
            }),
    {
        match self.get_value("ButtonColors", "ButtonBackgroundColorsActive") {
            Some(v) => ButtonBackgroundColors::from_value(v),
            None => None,
        }
    }

    /// Set the `ButtonBackgroundColorsActive` value of `[ButtonColors]`.
    pub fn set_button_background_colors_active(&mut self, v: ButtonBackgroundColors)
        ensures
            final(self)@ == klassy_set(old(self)@, "ButtonColors"@, "ButtonBackgroundColorsActive"@, v.text()),
    {
        self.set_value("ButtonColors", "ButtonBackgroundColorsActive", v.value().to_string());
    }

    /// The `ButtonBackgroundColorsInactive` value of `[ButtonColors]`.
    pub fn button_background_colors_inactive(&self) -> (r: Option<ButtonBackgroundColors>)
        ensures
            r == (match nested(self@, "ButtonColors"@, "ButtonBackgroundColorsInactive"@) {
                Some(v) => ButtonBackgroundColors::parse(v),
                None => None,
            }),
    {
        match self.get_value("ButtonColors", "ButtonBackgroundColorsInactive") {
            Some(v) => ButtonBackgroundColors::from_value(v),
            None => None,
        }
    }

    /// Set the `ButtonBackgroundColorsInactive` value of `[ButtonColors]`.
    pub fn set_button_background_colors_inactive(&mut self, v: ButtonBackgroundColors)
        ensures
            final(self)@ == klassy_set(old(self)@, "ButtonColors"@, "ButtonBackgroundColorsInactive"@, v.text()),
    {
        self.set_value("ButtonColors", "ButtonBackgroundColorsInactive", v.value().to_string());
    }

    /// The `ButtonBackgroundOpacityActive` integer of `[ButtonColors]`.
    pub fn button_background_opacity_active(&self) -> (r: Option<i64>)
        ensures
            r == opt_int(nested(self@, "ButtonColors"@, "ButtonBackgroundOpacityActive"@)),
    {
        self.get_int("ButtonColors", "ButtonBackgroundOpacityActive")
    }

    /// Set the `ButtonBackgroundOpacityActive` integer of `[ButtonColors]`.
    pub fn set_button_background_opacity_active(&mut self, v: i64)
        ensures
            final(self)@ == klassy_set(old(self)@, "ButtonColors"@, "ButtonBackgroundOpacityActive"@, int_to_decimal(v as int)),
    {
        self.set_int("ButtonColors", "ButtonBackgroundOpacityActive", v);
    }

    /// The `ButtonBackgroundOpacityInactive` integer of `[ButtonColors]`.
    pub fn button_background_opacity_inactive(&self) -> (r: Option<i64>)
        ensures
            r == opt_int(nested(self@, "ButtonColors"@, "ButtonBackgroundOpacityInactive"@)),
    {
        self.get_int("ButtonColors", "ButtonBackgroundOpacityInactive")
    }

    /// Set the `ButtonBackgroundOpacityInactive` integer of `[ButtonColors]`.
    pub fn set_button_background_opacity_inactive(&mut self, v: i64)
        ensures
            final(self)@ == klassy_set(old(self)@, "ButtonColors"@, "ButtonBackgroundOpacityInactive"@, int_to_decimal(v as int)),
    {
        self.set_int("ButtonColors", "ButtonBackgroundOpacityInactive", v);
    }

    /// The `ButtonGradient` flag of `[Style]`.
    pub fn button_gradient(&self) -> (r: Option<bool>)
        ensures
            r == opt_bool(nested(self@, "Style"@, "ButtonGradient"@)),
    {
        self.get_bool("Style", "ButtonGradient")
    }

    /// Set the `ButtonGradient` flag of `[Style]`.
    pub fn set_button_gradient(&mut self, v: bool)
        ensures
            final(self)@ == klassy_set(old(self)@, "Style"@, "ButtonGradient"@, bool_text(v)),
    {
        self.set_bool("Style", "ButtonGradient", v);
    }

    /// The `ScrollBarSeparator` flag of `[Style]`.
    pub fn scroll_bar_separator(&self) -> (r: Option<bool>)
        ensures
            r == opt_bool(nested(self@, "Style"@, "ScrollBarSeparator"@)),
    {
        self.get_bool("Style", "ScrollBarSeparator")
    }

    /// Set the `ScrollBarSeparator` flag of `[Style]`.
    pub fn set_scroll_bar_separator(&mut self, v: bool)
        ensures
            final(self)@ == klassy_set(old(self)@, "Style"@, "ScrollBarSeparator"@, bool_text(v)),
    {
        self.set_bool("Style", "ScrollBarSeparator", v);
    }

}

} // verus!
