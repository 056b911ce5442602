//! INI documents that keep comments, blank lines and ordering, so that a
//! parsed file can be written back faithfully.

use vstd::prelude::*;
use crate::text::{str_eq};

pub mod maps;
pub mod parser;
pub mod round_trip;
pub mod serializer;

pub use parser::parse_ini;
pub use serializer::serialize_ini;

verus! {

broadcast use vstd::string::group_string_axioms;

/// A single key=value entry, optionally with an inline comment.
///
/// An entry with an empty key stands for a comment or blank line kept
/// inside a section; its text is in `comment`.
#[derive(Debug, Clone, PartialEq)]
pub struct IniEntry {
    pub key: String,
    pub value: String,
    /// Inline comment (after value), if any.
    pub comment: Option<String>,
}

/// A named INI section with its entries and surrounding comments/blank lines.
#[derive(Debug, Clone, PartialEq)]
pub struct IniSection {
    /// Section name (e.g. "Windeco", "%General").
    pub name: String,
    /// Key-value entries in order.
    pub entries: Vec<IniEntry>,
    /// Comment/blank lines preceding the `[SectionName]` header.
    pub preceding_lines: Vec<String>,
}

/// A full INI document preserving comments and ordering for round-trip fidelity.
#[derive(Debug, Clone, PartialEq)]
pub struct IniDocument {
    /// Comment/blank lines before the first section header.
    pub header_lines: Vec<String>,
    /// Sections in file order.
    pub sections: Vec<IniSection>,
    /// Trailing lines after the last section.
    pub trailing_lines: Vec<String>,
}

// ---------------------------------------------------------------------------
// Abstract views
// ---------------------------------------------------------------------------

/// The texts of an entry.
pub struct EntryV {
    pub key: Seq<char>,
    pub value: Seq<char>,
    pub comment: Option<Seq<char>>,
}

/// The texts of a section.
pub struct SectionV {
    pub name: Seq<char>,
    pub entries: Seq<EntryV>,
    pub preceding_lines: Seq<Seq<char>>,
}

/// The texts of a document.
pub struct DocV {
    pub header_lines: Seq<Seq<char>>,
    pub sections: Seq<SectionV>,
    pub trailing_lines: Seq<Seq<char>>,
}

/// The texts of a sequence of strings.
pub open spec fn strings_view(v: Seq<String>) -> Seq<Seq<char>> {
    v.map_values(|s: String| s@)
}

/// The text of an optional string.
pub open spec fn opt_view(o: Option<String>) -> Option<Seq<char>> {
    match o {
        Some(s) => Some(s@),
        None => None,
    }
}

impl View for IniEntry {
    type V = EntryV;

    open spec fn view(&self) -> EntryV {
        EntryV { key: self.key@, value: self.value@, comment: opt_view(self.comment) }
    }
}

/// The views of a sequence of entries.
pub open spec fn entries_view(v: Seq<IniEntry>) -> Seq<EntryV> {
    v.map_values(|e: IniEntry| e@)
}

impl View for IniSection {
    type V = SectionV;

    open spec fn view(&self) -> SectionV {
        SectionV {
            name: self.name@,
            entries: entries_view(self.entries@),
            preceding_lines: strings_view(self.preceding_lines@),
        }
    }
}

/// The views of a sequence of sections.
pub open spec fn sections_view(v: Seq<IniSection>) -> Seq<SectionV> {
    v.map_values(|s: IniSection| s@)
}

impl View for IniDocument {
    type V = DocV;

    open spec fn view(&self) -> DocV {
        DocV {
            header_lines: strings_view(self.header_lines@),
            sections: sections_view(self.sections@),
            trailing_lines: strings_view(self.trailing_lines@),
        }
    }
}

// ---------------------------------------------------------------------------
// Lookup and update specifications
// ---------------------------------------------------------------------------

/// `i` is the first section named `name`.
pub open spec fn is_first_section(ss: Seq<SectionV>, name: Seq<char>, i: int) -> bool {
    &&& 0 <= i < ss.len()
    &&& ss[i].name == name
    &&& forall|j: int| 0 <= j < i ==> (#[trigger] ss[j]).name != name
}

/// Index of the first section named `name`, or -1.
pub open spec fn first_section(ss: Seq<SectionV>, name: Seq<char>) -> int {
    if exists|i: int| is_first_section(ss, name, i) {
        choose|i: int| is_first_section(ss, name, i)
    } else {
        -1
    }
}

/// `i` is the first entry with key `key`.
pub open spec fn is_first_entry(es: Seq<EntryV>, key: Seq<char>, i: int) -> bool {
    &&& 0 <= i < es.len()
    &&& es[i].key == key
    &&& forall|j: int| 0 <= j < i ==> (#[trigger] es[j]).key != key
}

/// Index of the first entry with key `key`, or -1.
pub open spec fn first_entry(es: Seq<EntryV>, key: Seq<char>) -> int {
    if exists|i: int| is_first_entry(es, key, i) {
        choose|i: int| is_first_entry(es, key, i)
    } else {
        -1
    }
}

/// The value of `key` in the first section named `section`.
pub open spec fn doc_get(d: DocV, section: Seq<char>, key: Seq<char>) -> Option<Seq<char>> {
    let i = first_section(d.sections, section);
    if i < 0 {
        None
    } else {
        let es = d.sections[i].entries;
        let j = first_entry(es, key);
        if j < 0 {
            None
        } else {
            Some(es[j].value)
        }
    }
}

/// A section with `key` set to `value` (first matching entry replaced,
/// otherwise a new entry appended).
pub open spec fn section_set(s: SectionV, key: Seq<char>, value: Seq<char>) -> SectionV {
    let j = first_entry(s.entries, key);
    if j >= 0 {
        SectionV {
            entries: s.entries.update(j, EntryV { value: value, ..s.entries[j] }),
            ..s
        }
    } else {
        SectionV {
            entries: s.entries.push(EntryV { key: key, value: value, comment: None }),
            ..s
        }
    }
}

/// A fresh section as `set_value` creates it: no entries, one blank line
/// before the header.
pub open spec fn new_section(name: Seq<char>) -> SectionV {
    SectionV { name: name, entries: Seq::empty(), preceding_lines: seq![Seq::<char>::empty()] }
}

/// The document after `set_value(section, key, value)`.
pub open spec fn doc_set(d: DocV, section: Seq<char>, key: Seq<char>, value: Seq<char>) -> DocV {
    let i = first_section(d.sections, section);
    if i >= 0 {
        DocV { sections: d.sections.update(i, section_set(d.sections[i], key, value)), ..d }
    } else {
        DocV { sections: d.sections.push(section_set(new_section(section), key, value)), ..d }
    }
}

/// The entries without those whose key is `key`.
pub open spec fn entries_without(es: Seq<EntryV>, key: Seq<char>) -> Seq<EntryV>
    decreases es.len(),
{
    if es.len() == 0 {
        es
    } else if es.last().key == key {
        entries_without(es.drop_last(), key)
    } else {
        entries_without(es.drop_last(), key).push(es.last())
    }
}

/// Some entry has key `key`.
pub open spec fn has_entry(es: Seq<EntryV>, key: Seq<char>) -> bool {
    exists|j: int| 0 <= j < es.len() && (#[trigger] es[j]).key == key
}

/// The document after `remove_value(section, key)`.
pub open spec fn doc_remove(d: DocV, section: Seq<char>, key: Seq<char>) -> DocV {
    let i = first_section(d.sections, section);
    if i >= 0 {
        DocV {
            sections: d.sections.update(
                i,
                SectionV { entries: entries_without(d.sections[i].entries, key), ..d.sections[i] },
            ),
            ..d
        }
    } else {
        d
    }
}

/// Whether `remove_value(section, key)` finds something to remove.
pub open spec fn doc_remove_found(d: DocV, section: Seq<char>, key: Seq<char>) -> bool {
    let i = first_section(d.sections, section);
    i >= 0 && has_entry(d.sections[i].entries, key)
}

pub proof fn lemma_first_section(ss: Seq<SectionV>, name: Seq<char>)
    ensures
        first_section(ss, name) >= 0 ==> is_first_section(ss, name, first_section(ss, name)),
        first_section(ss, name) < 0 ==> forall|j: int| 0 <= j < ss.len() ==> (#[trigger] ss[j]).name != name,
        forall|i: int| is_first_section(ss, name, i) ==> first_section(ss, name) == i,
{
    if exists|j: int| 0 <= j < ss.len() && (#[trigger] ss[j]).name == name {
        let j = choose|j: int| 0 <= j < ss.len() && (#[trigger] ss[j]).name == name;
        lemma_first_section_exists(ss, name, j);
    }
    if exists|i: int| is_first_section(ss, name, i) {
        let i = first_section(ss, name);
        assert forall|k: int| is_first_section(ss, name, k) implies k == i by {
            if k < i {
                assert(ss[k].name != name);
            }
            if i < k {
                assert(ss[i].name != name);
            }
        }
    }
}

proof fn lemma_first_section_exists(ss: Seq<SectionV>, name: Seq<char>, j: int)
    requires
        0 <= j < ss.len(),
        ss[j].name == name,
    ensures
        exists|i: int| is_first_section(ss, name, i),
    decreases j,
{
    if exists|k: int| 0 <= k < j && (#[trigger] ss[k]).name == name {
        let k = choose|k: int| 0 <= k < j && (#[trigger] ss[k]).name == name;
        lemma_first_section_exists(ss, name, k);
    } else {
        assert(is_first_section(ss, name, j));
    }
}

pub proof fn lemma_first_entry(es: Seq<EntryV>, key: Seq<char>)
    ensures
        first_entry(es, key) >= 0 ==> is_first_entry(es, key, first_entry(es, key)),
        first_entry(es, key) < 0 ==> !has_entry(es, key),
        forall|i: int| is_first_entry(es, key, i) ==> first_entry(es, key) == i,
{
    if has_entry(es, key) {
        let j = choose|j: int| 0 <= j < es.len() && (#[trigger] es[j]).key == key;
        lemma_first_entry_exists(es, key, j);
    }
    if exists|i: int| is_first_entry(es, key, i) {
        let i = first_entry(es, key);
        assert forall|k: int| is_first_entry(es, key, k) implies k == i by {
            if k < i {
                assert(es[k].key != key);
            }
            if i < k {
                assert(es[i].key != key);
            }
        }
    }
}

proof fn lemma_first_entry_exists(es: Seq<EntryV>, key: Seq<char>, j: int)
    requires
        0 <= j < es.len(),
        es[j].key == key,
    ensures
        exists|i: int| is_first_entry(es, key, i),
    decreases j,
{
    if exists|k: int| 0 <= k < j && (#[trigger] es[k]).key == key {
        let k = choose|k: int| 0 <= k < j && (#[trigger] es[k]).key == key;
        lemma_first_entry_exists(es, key, k);
    } else {
        assert(is_first_entry(es, key, j));
    }
}

proof fn lemma_entries_without(es: Seq<EntryV>, key: Seq<char>)
    ensures
        !has_entry(entries_without(es, key), key),
        has_entry(es, key) ==> entries_without(es, key).len() < es.len(),
        !has_entry(es, key) ==> entries_without(es, key) == es,
        forall|k: Seq<char>| k != key ==> ((first_entry(entries_without(es, key), k) >= 0) <==> (
        first_entry(es, k) >= 0)),
        forall|k: Seq<char>|
            k != key && first_entry(es, k) >= 0 ==> entries_without(es, key)[first_entry(
                entries_without(es, key),
                k,
            )].value == es[first_entry(es, k)].value,
    decreases es.len(),
{
    let w = entries_without(es, key);
    if es.len() == 0 {
        lemma_all_first_entry_neg(es);
    } else {
        let p = es.drop_last();
        lemma_entries_without(p, key);
        let wp = entries_without(p, key);
        assert forall|j: int| 0 <= j < p.len() implies p[j] == es[j] by {}
        assert(es.last() == es[es.len() - 1]);
        assert(!has_entry(w, key)) by {
            if has_entry(w, key) {
                let j = choose|j: int| 0 <= j < w.len() && (#[trigger] w[j]).key == key;
                if j < wp.len() {
                    assert(w[j] == wp[j]);
                }
            }
        }
        assert(has_entry(es, key) ==> has_entry(p, key) || es.last().key == key) by {
            if has_entry(es, key) {
                let j = choose|j: int| 0 <= j < es.len() && (#[trigger] es[j]).key == key;
                if j < p.len() {
                    assert(p[j] == es[j]);
                }
            }
        }
        assert(has_entry(p, key) ==> has_entry(es, key)) by {
            if has_entry(p, key) {
                let j = choose|j: int| 0 <= j < p.len() && (#[trigger] p[j]).key == key;
                assert(p[j] == es[j]);
            }
        }
        if !has_entry(es, key) {
            assert(es.last().key != key);
            assert(p.push(es.last()) =~= es);
        }
        assert forall|k: Seq<char>| k != key implies ((first_entry(w, k) >= 0) <==> (first_entry(es, k)
            >= 0)) && (first_entry(es, k) >= 0 ==> w[first_entry(w, k)].value == es[first_entry(
            es,
            k,
        )].value) by {
            lemma_first_entry(p, k);
            lemma_first_entry(wp, k);
            lemma_first_entry(es, k);
            lemma_first_entry(w, k);
            let ip = first_entry(p, k);
            let iwp = first_entry(wp, k);
            if ip >= 0 {
                assert(is_first_entry(es, k, ip)) by {
                    assert(es[ip] == p[ip]);
                    assert forall|j: int| 0 <= j < ip implies (#[trigger] es[j]).key != k by {
                        assert(es[j] == p[j]);
                    }
                }
                assert(iwp >= 0);
                if es.last().key == key {
                    assert(w == wp);
                } else {
                    assert(is_first_entry(w, k, iwp)) by {
                        assert(w[iwp] == wp[iwp]);
                        assert forall|j: int| 0 <= j < iwp implies (#[trigger] w[j]).key != k by {
                            assert(w[j] == wp[j]);
                        }
                    }
                }
            } else {
                assert(iwp < 0);
                if es.last().key == k {
                    assert(is_first_entry(es, k, es.len() - 1)) by {
                        assert forall|j: int| 0 <= j < es.len() - 1 implies (#[trigger] es[j]).key != k by {
                            assert(es[j] == p[j]);
                        }
                    }
                    assert(es.last().key != key);
                    assert(is_first_entry(w, k, wp.len() as int)) by {
                        assert forall|j: int| 0 <= j < wp.len() implies (#[trigger] w[j]).key != k by {
                            assert(w[j] == wp[j]);
                        }
                    }
                } else {
                    assert(!has_entry(es, k)) by {
                        if has_entry(es, k) {
                            let j = choose|j: int| 0 <= j < es.len() && (#[trigger] es[j]).key == k;
                            if j < p.len() {
                                assert(p[j] == es[j]);
                            }
                        }
                    }
                    assert(!has_entry(w, k)) by {
                        if has_entry(w, k) {
                            let j = choose|j: int| 0 <= j < w.len() && (#[trigger] w[j]).key == k;
                            if j < wp.len() {
                                assert(w[j] == wp[j]);
                            }
                        }
                    }
                }
            }
        }
    }
}

proof fn lemma_all_first_entry_neg(es: Seq<EntryV>)
    requires
        es.len() == 0,
    ensures
        forall|k: Seq<char>| first_entry(es, k) < 0,
{
    assert forall|k: Seq<char>| first_entry(es, k) < 0 by {
        lemma_first_entry(es, k);
    }
}

// ---------------------------------------------------------------------------
// Laws
// ---------------------------------------------------------------------------

/// Reading a key right after setting it gives the value that was set.
pub proof fn lemma_get_after_set(d: DocV, section: Seq<char>, key: Seq<char>, value: Seq<char>)
    ensures
        doc_get(doc_set(d, section, key, value), section, key) == Some(value),
{
    lemma_set_reads(d, section, key, value, section, key);
}

/// Setting one key leaves every other (section, key) reading unchanged.
pub proof fn lemma_set_keeps_others(
    d: DocV,
    section: Seq<char>,
    key: Seq<char>,
    value: Seq<char>,
    s2: Seq<char>,
    k2: Seq<char>,
)
    requires
        s2 != section || k2 != key,
    ensures
        doc_get(doc_set(d, section, key, value), s2, k2) == doc_get(d, s2, k2),
{
    lemma_set_reads(d, section, key, value, s2, k2);
}

proof fn lemma_set_reads(
    d: DocV,
    section: Seq<char>,
    key: Seq<char>,
    value: Seq<char>,
    s2: Seq<char>,
    k2: Seq<char>,
)
    ensures
        doc_get(doc_set(d, section, key, value), s2, k2) == (if s2 == section && k2 == key {
            Some(value)
        } else {
            doc_get(d, s2, k2)
        }),
{
    let ss = d.sections;
    let d2 = doc_set(d, section, key, value);
    let ss2 = d2.sections;
    lemma_first_section(ss, section);
    lemma_first_section(ss, s2);
    lemma_first_section(ss2, s2);
    let i = first_section(ss, section);
    let base = if i >= 0 { ss[i] } else { new_section(section) };
    let sec2 = section_set(base, key, value);
    lemma_first_entry(base.entries, key);
    lemma_first_entry(base.entries, k2);
    lemma_first_entry(sec2.entries, k2);
    // where s2 is found in the new document
    let i2 = first_section(ss, s2);
    if i >= 0 {
        assert(ss2 == ss.update(i, sec2));
        if i2 >= 0 {
            assert(is_first_section(ss2, s2, i2)) by {
                assert forall|j: int| 0 <= j < i2 implies (#[trigger] ss2[j]).name != s2 by {
                    assert(ss2[j].name == ss[j].name);
                }
            }
        } else {
            assert forall|j: int| 0 <= j < ss2.len() implies (#[trigger] ss2[j]).name != s2 by {
                assert(ss2[j].name == ss[j].name);
            }
        }
    } else {
        assert(ss2 == ss.push(sec2));
        if i2 >= 0 {
            assert(is_first_section(ss2, s2, i2)) by {
                assert forall|j: int| 0 <= j < i2 implies (#[trigger] ss2[j]).name != s2 by {
                    assert(ss2[j] == ss[j]);
                }
            }
        } else if s2 == section {
            assert(is_first_section(ss2, s2, ss.len() as int)) by {
                assert forall|j: int| 0 <= j < ss.len() implies (#[trigger] ss2[j]).name != s2 by {
                    assert(ss2[j] == ss[j]);
                }
            }
        } else {
            assert forall|j: int| 0 <= j < ss2.len() implies (#[trigger] ss2[j]).name != s2 by {
                if j < ss.len() {
                    assert(ss2[j] == ss[j]);
                }
            }
        }
    }
    if s2 == section {
        // entries of the section that was written
        let es = base.entries;
        let es2 = sec2.entries;
        let j = first_entry(es, key);
        if j >= 0 {
            assert(es2 == es.update(j, EntryV { value: value, ..es[j] }));
            assert(is_first_entry(es2, key, j)) by {
                assert forall|m: int| 0 <= m < j implies (#[trigger] es2[m]).key != key by {
                    assert(es2[m] == es[m]);
                }
            }
            if k2 != key {
                let j2 = first_entry(es, k2);
                if j2 >= 0 {
                    assert(is_first_entry(es2, k2, j2)) by {
                        assert forall|m: int| 0 <= m < j2 implies (#[trigger] es2[m]).key != k2 by {
                            assert(es2[m].key == es[m].key);
                        }
                    }
                } else {
                    assert(!has_entry(es2, k2)) by {
                        if has_entry(es2, k2) {
                            let m = choose|m: int| 0 <= m < es2.len() && (#[trigger] es2[m]).key == k2;
                            assert(es2[m].key == es[m].key);
                        }
                    }
                }
            }
        } else {
            assert(es2 == es.push(EntryV { key: key, value: value, comment: None }));
            assert(is_first_entry(es2, key, es.len() as int)) by {
                assert forall|m: int| 0 <= m < es.len() implies (#[trigger] es2[m]).key != key by {
                    assert(es2[m] == es[m]);
                }
            }
            if k2 != key {
                let j2 = first_entry(es, k2);
                if j2 >= 0 {
                    assert(is_first_entry(es2, k2, j2)) by {
                        assert forall|m: int| 0 <= m < j2 implies (#[trigger] es2[m]).key != k2 by {
                            assert(es2[m] == es[m]);
                        }
                    }
                } else {
                    assert(!has_entry(es2, k2)) by {
                        if has_entry(es2, k2) {
                            let m = choose|m: int| 0 <= m < es2.len() && (#[trigger] es2[m]).key == k2;
                            if m < es.len() {
                                assert(es2[m] == es[m]);
                            }
                        }
                    }
                }
            }
        }
        if i < 0 && k2 != key {
            assert(doc_get(d, s2, k2) == None::<Seq<char>>);
        }
    }
}

/// After removing a key, reading it finds nothing, and every other key of
/// every section reads as before.
pub proof fn lemma_remove_reads(d: DocV, section: Seq<char>, key: Seq<char>, s2: Seq<char>, k2: Seq<char>)
    ensures
        doc_get(doc_remove(d, section, key), s2, k2) == (if s2 == section && k2 == key {
            None
        } else {
            doc_get(d, s2, k2)
        }),
{
    let ss = d.sections;
    let d2 = doc_remove(d, section, key);
    let ss2 = d2.sections;
    lemma_first_section(ss, section);
    lemma_first_section(ss, s2);
    lemma_first_section(ss2, s2);
    let i = first_section(ss, section);
    if i >= 0 {
        let es = ss[i].entries;
        let w = entries_without(es, key);
        lemma_entries_without(es, key);
        let i2 = first_section(ss, s2);
        if i2 >= 0 {
            assert(is_first_section(ss2, s2, i2)) by {
                assert forall|j: int| 0 <= j < i2 implies (#[trigger] ss2[j]).name != s2 by {
                    assert(ss2[j].name == ss[j].name);
                }
            }
        } else {
            assert forall|j: int| 0 <= j < ss2.len() implies (#[trigger] ss2[j]).name != s2 by {
                assert(ss2[j].name == ss[j].name);
            }
        }
        if s2 == section {
            lemma_first_entry(w, key);
            lemma_first_entry(w, k2);
            lemma_first_entry(es, k2);
        }
    }
}

// ---------------------------------------------------------------------------
// Executable operations
// ---------------------------------------------------------------------------

impl IniDocument {
    /// An empty document.
    pub fn empty() -> (d: Self)
        ensures
            d@.header_lines.len() == 0,
            d@.sections.len() == 0,
            d@.trailing_lines.len() == 0,
    {
        IniDocument { header_lines: Vec::new(), sections: Vec::new(), trailing_lines: Vec::new() }
    }

    /// Position of the first section named `section`.
    fn find_section(&self, section: &str) -> (r: Option<usize>)
        ensures
            match r {
                Some(i) => i < self.sections.len() && first_section(self@.sections, section@) == i,
                None => first_section(self@.sections, section@) < 0,
            },
    {
        proof {
            lemma_first_section(self@.sections, section@);
        }
        let mut i: usize = 0;
        while i < self.sections.len()
            invariant
                i <= self.sections.len(),
                forall|j: int| 0 <= j < i ==> (#[trigger] self@.sections[j]).name != section@,
            decreases self.sections.len() - i,
        {
            assert(self@.sections[i as int] == self.sections@[i as int]@);
            if str_eq(self.sections[i].name.as_str(), section) {
                assert(is_first_section(self@.sections, section@, i as int));
                return Some(i);
            }
            i += 1;
        }
        None
    }

    /// Look up a value by section name and key.
    pub fn get_value(&self, section: &str, key: &str) -> (r: Option<&str>)
        ensures
            match r {
                Some(v) => doc_get(self@, section@, key@) == Some(v@),
                None => doc_get(self@, section@, key@) is None,
            },
    {
        match self.find_section(section) {
            None => None,
            Some(i) => {
                let sec = &self.sections[i];
                assert(self@.sections[i as int] == sec@);
                match find_entry(&sec.entries, key) {
                    None => None,
                    Some(j) => {
                        assert(sec@.entries[j as int] == sec.entries@[j as int]@);
                        Some(sec.entries[j].value.as_str())
                    },
                }
            },
        }
    }

    /// Set a value in a section. Creates the section/entry if it doesn't exist.
    pub fn set_value(&mut self, section: &str, key: &str, value: String)
        ensures
            final(self)@ == doc_set(old(self)@, section@, key@, value@),
    {
        let ghost d = self@;
        let mut sections: Vec<IniSection> = Vec::new();
        std::mem::swap(&mut sections, &mut self.sections);
        let ghost ss = sections_view(sections@);
        assert(ss == d.sections);
        let found = self.find_section_in(&sections, section);
        match found {
            Some(i) => {
                let mut sec = sections.remove(i);
                let ghost s0 = sec@;
                assert(s0 == ss[i as int]);
                set_in_section(&mut sec, key, value);
                sections.insert(i, sec);
                assert(sections_view(sections@) =~= ss.update(i as int, section_set(s0, key@, value@)));
            },
            None => {
                let mut sec = IniSection {
                    name: section.to_string(),
                    entries: Vec::new(),
                    preceding_lines: vec![String::new()],
                };
                assert(sec@.entries =~= Seq::<EntryV>::empty());
                assert(sec@.preceding_lines =~= seq![Seq::<char>::empty()]);
                assert(sec@ == new_section(section@));
                set_in_section(&mut sec, key, value);
                sections.push(sec);
                assert(sections_view(sections@) =~= ss.push(section_set(new_section(section@), key@, value@)));
            },
        }
        self.sections = sections;
    }

    fn find_section_in(&self, sections: &Vec<IniSection>, section: &str) -> (r: Option<usize>)
        ensures
            match r {
                Some(i) => i < sections.len() && first_section(sections_view(sections@), section@) == i,
                None => first_section(sections_view(sections@), section@) < 0,
            },
    {
        let ghost ss = sections_view(sections@);
        proof {
            lemma_first_section(ss, section@);
        }
        let mut i: usize = 0;
        while i < sections.len()
            invariant
                i <= sections.len(),
                ss == sections_view(sections@),
                forall|j: int| 0 <= j < i ==> (#[trigger] ss[j]).name != section@,
            decreases sections.len() - i,
        {
            assert(ss[i as int] == sections@[i as int]@);
            if str_eq(sections[i].name.as_str(), section) {
                assert(is_first_section(ss, section@, i as int));
                return Some(i);
            }
            i += 1;
        }
        None
    }

    /// Remove a key from a section. Returns true if found and removed.
    pub fn remove_value(&mut self, section: &str, key: &str) -> (r: bool)
        ensures
            final(self)@ == doc_remove(old(self)@, section@, key@),
            r == doc_remove_found(old(self)@, section@, key@),
    {
        let ghost d = self@;
        match self.find_section(section) {
            None => false,
            Some(i) => {
                let mut sections: Vec<IniSection> = Vec::new();
                std::mem::swap(&mut sections, &mut self.sections);
                let ghost ss = sections_view(sections@);
                let mut sec = sections.remove(i);
                let ghost s0 = sec@;
                assert(s0 == ss[i as int]);
                let mut entries: Vec<IniEntry> = Vec::new();
                std::mem::swap(&mut entries, &mut sec.entries);
                let before = entries.len();
                let kept = retain_without_key(entries, key);
                let after = kept.len();
                sec.entries = kept;
                proof {
                    lemma_entries_without(s0.entries, key@);
                }
                assert(sec@ == SectionV { entries: entries_without(s0.entries, key@), ..s0 });
                sections.insert(i, sec);
                assert(sections_view(sections@) =~= ss.update(
                    i as int,
                    SectionV { entries: entries_without(s0.entries, key@), ..s0 },
                ));
                self.sections = sections;
                after < before
            },
        }
    }

    /// Get all section names.
    pub fn section_names(&self) -> (r: Vec<&str>)
        ensures
            r.len() == self@.sections.len(),
            forall|i: int| 0 <= i < r.len() ==> (#[trigger] r[i])@ == self@.sections[i].name,
    {
        let mut out: Vec<&str> = Vec::new();
        let mut i: usize = 0;
        while i < self.sections.len()
            invariant
                i <= self.sections.len(),
                out.len() == i,
                forall|j: int| 0 <= j < i ==> (#[trigger] out[j])@ == self@.sections[j].name,
            decreases self.sections.len() - i,
        {
            assert(self@.sections[i as int] == self.sections@[i as int]@);
            out.push(self.sections[i].name.as_str());
            i += 1;
        }
        out
    }
}

/// Position of the first entry with key `key`.
pub fn find_entry(entries: &Vec<IniEntry>, key: &str) -> (r: Option<usize>)
    ensures
        match r {
            Some(j) => j < entries.len() && first_entry(entries_view(entries@), key@) == j,
            None => first_entry(entries_view(entries@), key@) < 0,
        },
{
    let ghost es = entries_view(entries@);
    proof {
        lemma_first_entry(es, key@);
    }
    let mut j: usize = 0;
    while j < entries.len()
        invariant
            j <= entries.len(),
            es == entries_view(entries@),
            forall|m: int| 0 <= m < j ==> (#[trigger] es[m]).key != key@,
        decreases entries.len() - j,
    {
        assert(es[j as int] == entries@[j as int]@);
        if str_eq(entries[j].key.as_str(), key) {
            assert(is_first_entry(es, key@, j as int));
            return Some(j);
        }
        j += 1;
    }
    None
}

fn set_in_section(sec: &mut IniSection, key: &str, value: String)
    ensures
        final(sec)@ == section_set(old(sec)@, key@, value@),
{
    let ghost s0 = sec@;
    let mut entries: Vec<IniEntry> = Vec::new();
    std::mem::swap(&mut entries, &mut sec.entries);
    let ghost es = entries_view(entries@);
    match find_entry(&entries, key) {
        Some(j) => {
            let mut e = entries.remove(j);
            let ghost e0 = e@;
            assert(e0 == es[j as int]);
            e.value = value;
            entries.insert(j, e);
            assert(entries_view(entries@) =~= es.update(j as int, EntryV { value: value@, ..e0 }));
        },
        None => {
            entries.push(IniEntry { key: key.to_string(), value, comment: None });
            assert(entries_view(entries@) =~= es.push(EntryV { key: key@, value: value@, comment: None }));
        },
    }
    sec.entries = entries;
}

fn retain_without_key(entries: Vec<IniEntry>, key: &str) -> (r: Vec<IniEntry>)
    ensures
        entries_view(r@) == entries_without(entries_view(entries@), key@),
{
    let ghost es = entries_view(entries@);
    let ghost total = es.len();
    let mut out: Vec<IniEntry> = Vec::new();
    let mut rest = entries;
    assert(entries_view(out@) =~= entries_without(es.take(0), key@)) by {
        assert(es.take(0) =~= Seq::<EntryV>::empty());
    }
    assert(entries_view(rest@) =~= es.skip(0));
    while rest.len() > 0
        invariant
            rest.len() <= total,
            es.len() == total,
            entries_view(rest@) == es.skip(total - rest.len()),
            entries_view(out@) == entries_without(es.take(total - rest.len()), key@),
        decreases rest.len(),
    {
        let ghost k = total - rest.len();
        let ghost prest = rest@;
        let e = rest.remove(0);
        assert(e@ == entries_view(prest)[0]);
        assert(e@ == es[k]);
        assert(rest@ =~= prest.subrange(1, prest.len() as int));
        assert forall|m: int| 0 <= m < rest@.len() implies (#[trigger] entries_view(rest@)[m]) == es.skip(k + 1)[m] by {
            assert(entries_view(rest@)[m] == rest@[m]@);
            assert(rest@[m] == prest[m + 1]);
            assert(entries_view(prest)[m + 1] == prest[m + 1]@);
        }
        assert(entries_view(rest@) =~= es.skip(k + 1));
        assert(es.take(k + 1).drop_last() =~= es.take(k));
        assert(es.take(k + 1).last() == es[k]);
        if !str_eq(e.key.as_str(), key) {
            let ghost prev = out@;
            out.push(e);
            assert(entries_view(out@) =~= entries_view(prev).push(es[k]));
        }
    }
    assert(es.take(total as int) =~= es);
    out
}

} // verus!
