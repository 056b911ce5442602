//! INI sections read as, and written from, key/value maps.

use vstd::prelude::*;
use crate::ini::{entries_view, EntryV, IniDocument, IniEntry, IniSection, SectionV};
use crate::strmap::{keys_sorted, pairs_map, pairs_of, Pair, StrMap};

verus! {

broadcast use vstd::string::group_string_axioms;

/// The key/value pairs of a section's entries; comment lines (empty key) are
/// skipped and a later key wins.
pub open spec fn entries_map(es: Seq<EntryV>) -> Map<Seq<char>, Seq<char>>
    decreases es.len(),
{
    if es.len() == 0 {
        Map::empty()
    } else {
        let m = entries_map(es.drop_last());
        if es.last().key.len() == 0 {
            m
        } else {
            m.insert(es.last().key, es.last().value)
        }
    }
}


/// The key/value pairs of a sequence of entries.
pub open spec fn entry_pairs(es: Seq<EntryV>) -> Seq<Pair> {
    es.map_values(|e: EntryV| (e.key, e.value))
}

/// `s` is the section `name` holding exactly the pairs of `m`, ordered by
/// key, without comments.
pub open spec fn is_map_section(s: SectionV, name: Seq<char>, m: Map<Seq<char>, Seq<char>>) -> bool {
    &&& s.name == name
    &&& s.preceding_lines.len() == 0
    &&& forall|i: int| 0 <= i < s.entries.len() ==> (#[trigger] s.entries[i]).comment is None
    &&& keys_sorted(entry_pairs(s.entries))
    &&& pairs_map(entry_pairs(s.entries)) == m
}


/// A map with no empty key.
pub open spec fn no_empty_keys<W>(m: Map<Seq<char>, W>) -> bool {
    forall|k: Seq<char>| #[trigger] m.contains_key(k) ==> k.len() > 0
}


pub proof fn lemma_entries_map_keys(es: Seq<EntryV>)
    ensures
        no_empty_keys(entries_map(es)),
    decreases es.len(),
{
    if es.len() > 0 {
        lemma_entries_map_keys(es.drop_last());
    }
}


pub proof fn lemma_pairs_map_has_keys(p: Seq<Pair>)
    ensures
        forall|i: int| 0 <= i < p.len() ==> pairs_map(p).contains_key(#[trigger] p[i].0),
    decreases p.len(),
{
    if p.len() > 0 {
        lemma_pairs_map_has_keys(p.drop_last());
        assert forall|i: int| 0 <= i < p.len() implies pairs_map(p).contains_key(#[trigger] p[i].0) by {
            if i < p.len() - 1 {
                assert(p.drop_last()[i] == p[i]);
            }
        }
    }
}

pub proof fn lemma_entries_map_pairs(es: Seq<EntryV>)
    requires
        forall|i: int| 0 <= i < es.len() ==> (#[trigger] es[i]).key.len() > 0,
    ensures
        entries_map(es) == pairs_map(entry_pairs(es)),
    decreases es.len(),
{
    if es.len() > 0 {
        assert(entry_pairs(es).drop_last() =~= entry_pairs(es.drop_last()));
        assert(es.last() == es[es.len() - 1]);
        lemma_entries_map_pairs(es.drop_last());
    }
}

/// A section written from a map without empty keys reads back as that map.
pub proof fn lemma_map_section_reads_back(s: SectionV, name: Seq<char>, m: Map<Seq<char>, Seq<char>>)
    requires
        is_map_section(s, name, m),
        no_empty_keys(m),
    ensures
        entries_map(s.entries) == m,
{
    let p = entry_pairs(s.entries);
    lemma_pairs_map_has_keys(p);
    assert forall|i: int| 0 <= i < s.entries.len() implies (#[trigger] s.entries[i]).key.len() > 0 by {
        assert(p[i].0 == s.entries[i].key);
    }
    lemma_entries_map_pairs(s.entries);
}


/// The pairs of a section's entries.
pub fn entries_to_map(entries: &Vec<IniEntry>) -> (m: StrMap)
    ensures
        m@ == entries_map(entries_view(entries@)),
{
    let ghost es = entries_view(entries@);
    let mut m = StrMap::new();
    let mut i: usize = 0;
    while i < entries.len()
        invariant
            i <= entries.len(),
            es == entries_view(entries@),
            m@ == entries_map(es.take(i as int)),
        decreases entries.len() - i,
    {
        assert(es.take(i + 1).drop_last() =~= es.take(i as int));
        assert(es.take(i + 1).last() == entries@[i as int]@);
        if !entries[i].key.as_str().is_empty() {
            m.insert(entries[i].key.clone(), entries[i].value.clone());
        }
        i += 1;
    }
    assert(es.take(i as int) =~= es);
    m
}

/// Append the section `name` holding the pairs of `map`, ordered by key.
pub fn add_section(doc: &mut IniDocument, name: &str, map: &StrMap)
    ensures
        final(doc)@.header_lines == old(doc)@.header_lines,
        final(doc)@.trailing_lines == old(doc)@.trailing_lines,
        final(doc)@.sections.len() == old(doc)@.sections.len() + 1,
        forall|i: int|
            0 <= i < old(doc)@.sections.len() ==> #[trigger] final(doc)@.sections[i] == old(
                doc,
            )@.sections[i],
        is_map_section(final(doc)@.sections.last(), name@, map@),
{
    let pairs = map.sorted_pairs();
    let mut entries: Vec<IniEntry> = Vec::new();
    let mut i: usize = 0;
    while i < pairs.len()
        invariant
            i <= pairs.len(),
            entries.len() == i,
            forall|j: int|
                0 <= j < i ==> (#[trigger] entries@[j])@ == (EntryV {
                    key: pairs_of(pairs@)[j].0,
                    value: pairs_of(pairs@)[j].1,
                    comment: None,
                }),
        decreases pairs.len() - i,
    {
        let k = pairs[i].0.clone();
        let v = pairs[i].1.clone();
        assert(pairs_of(pairs@)[i as int] == (pairs@[i as int].0@, pairs@[i as int].1@));
        entries.push(IniEntry { key: k, value: v, comment: None });
        i += 1;
    }
    let ghost ev = entries_view(entries@);
    assert(entry_pairs(ev) =~= pairs_of(pairs@));
    let sec = IniSection { name: name.to_string(), entries, preceding_lines: Vec::new() };
    assert(sec@.preceding_lines =~= Seq::<Seq<char>>::empty());
    doc.sections.push(sec);
}

} // verus!
