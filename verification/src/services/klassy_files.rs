//! Single Klassy presets exchanged as `.klpw` files: a header section and
//! one `[Windeco Preset <name>]` section holding the preset's pairs.

use vstd::prelude::*;
use crate::ini::{IniDocument, IniEntry, IniSection, SectionV, EntryV, DocV};
use crate::ini::maps::{
    add_section, entries_map, entries_to_map, is_map_section, lemma_map_section_reads_back,
    no_empty_keys,
};
use crate::models::klassy::preset::{KlassyPreset, PresetModel};
use crate::ini::parser::{comment_starts_at, spec_parse_ini};
use crate::ini::round_trip::{
    doc_reads_back, entry_reads_back, key_reads_back, lemma_ini_doc_round_trip, lemma_map_section_plain,
    map_reads_back, name_reads_back, section_reads_back,
};
use crate::ini::serializer::doc_text;
use crate::text::{chars_of, has_prefix, starts_with, str_eq, string_of_range};

verus! {

broadcast use vstd::string::group_string_axioms;

/// The name of the header section of `.klpw` files.
pub open spec fn klpw_header() -> Seq<char> {
    "Klassy Window Decoration Preset File"@
}

/// What the name of the preset section starts with.
pub open spec fn preset_prefix() -> Seq<char> {
    "Windeco Preset "@
}

/// A section that holds a preset.
pub open spec fn is_preset_section(s: SectionV) -> bool {
    s.name != klpw_header() && has_prefix(s.name, preset_prefix())
}

/// `i` is the first section that holds a preset.
pub open spec fn is_first_preset_section(ss: Seq<SectionV>, i: int) -> bool {
    &&& 0 <= i < ss.len()
    &&& is_preset_section(ss[i])
    &&& forall|j: int| 0 <= j < i ==> !is_preset_section(#[trigger] ss[j])
}

/// The preset held by a preset section: its name after the prefix, and its
/// pairs.
pub open spec fn preset_of_section(s: SectionV) -> PresetModel {
    PresetModel { name: s.name.skip(preset_prefix().len() as int), values: entries_map(s.entries) }
}

/// The preset a `.klpw` document holds: that of its first preset section.
pub fn preset_from_klpw(doc: &IniDocument) -> (r: Option<KlassyPreset>)
    ensures
        match r {
            Some(p) => exists|i: int|
                is_first_preset_section(doc@.sections, i) && p@ == preset_of_section(
                    doc@.sections[i],
                ),
            None => forall|i: int|
                0 <= i < doc@.sections.len() ==> !is_preset_section(#[trigger] doc@.sections[i]),
        },
{
    let ghost ss = doc@.sections;
    let mut i: usize = 0;
    while i < doc.sections.len()
        invariant
            i <= doc.sections.len(),
            ss == doc@.sections,
            forall|j: int| 0 <= j < i ==> !is_preset_section(#[trigger] ss[j]),
        decreases doc.sections.len() - i,
    {
        let sec = &doc.sections[i];
        assert(ss[i as int] == sec@);
        let name = sec.name.as_str();
        if !str_eq(name, "Klassy Window Decoration Preset File") && starts_with(name, "Windeco Preset ") {
            assert(is_first_preset_section(ss, i as int));
            let v = chars_of(name);
            let p = chars_of("Windeco Preset ");
            let preset_name = string_of_range(&v, p.len(), v.len());
            assert(v@.subrange(p.len() as int, v.len() as int) =~= sec@.name.skip(preset_prefix().len() as int));
            let values = entries_to_map(&sec.entries);
            return Some(KlassyPreset::new(preset_name, values));
        }
        i += 1;
    }
    None
}

/// `d` is the `.klpw` document of `p`: the header section with
/// `Version=1`, then the section `Windeco Preset <name>` with the pairs
/// ordered by key.
pub open spec fn is_klpw_doc(p: PresetModel, d: DocV) -> bool {
    &&& d.header_lines.len() == 0
    &&& d.trailing_lines.len() == 0
    &&& d.sections.len() == 2
    &&& d.sections[0].name == klpw_header()
    &&& d.sections[0].preceding_lines.len() == 0
    &&& d.sections[0].entries == seq![EntryV { key: "Version"@, value: "1"@, comment: None }]
    &&& is_map_section(d.sections[1], preset_prefix() + p.name, p.values)
}

/// The `.klpw` document for a preset.
pub fn klpw_document(preset: &KlassyPreset) -> (d: IniDocument)
    ensures
        is_klpw_doc(preset@, d@),
{
    let mut doc = IniDocument {
        header_lines: Vec::new(),
        sections: Vec::new(),
        trailing_lines: Vec::new(),
    };
    let mut entries: Vec<IniEntry> = Vec::new();
    entries.push(IniEntry { key: "Version".to_string(), value: "1".to_string(), comment: None });
    let header = IniSection {
        name: "Klassy Window Decoration Preset File".to_string(),
        entries,
        preceding_lines: Vec::new(),
    };
    assert(header@.entries =~= seq![EntryV { key: "Version"@, value: "1"@, comment: None }]);
    assert(header@.preceding_lines =~= Seq::<Seq<char>>::empty());
    doc.sections.push(header);
    let mut name = "Windeco Preset ".to_string();
    name.append(preset.preset_name());
    let map = preset.to_map();
    add_section(&mut doc, name.as_str(), &map);
    assert(doc@.header_lines =~= Seq::<Seq<char>>::empty());
    assert(doc@.trailing_lines =~= Seq::<Seq<char>>::empty());
    doc
}

/// A preset exported to a `.klpw` document and imported back is the same
/// preset, provided it has no empty key (an empty key would read back as a
/// comment line).
pub proof fn lemma_klpw_round_trip(p: PresetModel, d: DocV)
    requires
        is_klpw_doc(p, d),
        no_empty_keys(p.values),
    ensures
        !is_preset_section(d.sections[0]),
        is_first_preset_section(d.sections, 1),
        preset_of_section(d.sections[1]) == p,
{
    let n = d.sections[1].name;
    assert(n.take(preset_prefix().len() as int) =~= preset_prefix());
    assert(n.skip(preset_prefix().len() as int) =~= p.name);
    reveal_strlit("Klassy Window Decoration Preset File");
    reveal_strlit("Windeco Preset ");
    assert(n[0] == preset_prefix()[0]);
    assert(n != klpw_header()) by {
        if n == klpw_header() {
            assert(n[0] == klpw_header()[0]);
        }
    }
    lemma_map_section_reads_back(d.sections[1], n, p.values);
}

/// A preset exported to `.klpw` text and imported back from that text is
/// the same preset, provided its name and pairs are plain text that reads
/// back (see `lemma_ini_doc_round_trip`): the text read back has a preset
/// section, and its first one holds `p`.
pub proof fn lemma_klpw_text_round_trip(p: PresetModel, d: DocV)
    requires
        is_klpw_doc(p, d),
        name_reads_back(p.name),
        map_reads_back(p.values),
    ensures
        exists|i: int| is_first_preset_section(spec_parse_ini(doc_text(d)).sections, i),
        forall|i: int|
            is_first_preset_section(spec_parse_ini(doc_text(d)).sections, i) ==> preset_of_section(
                spec_parse_ini(doc_text(d)).sections[i],
            ) == p,
{
    reveal_strlit("Klassy Window Decoration Preset File");
    reveal_strlit("Windeco Preset ");
    reveal_strlit("Version");
    reveal_strlit("1");
    let h = d.sections[0];
    assert(name_reads_back(klpw_header())) by {
        assert forall|j: int| 0 <= j < klpw_header().len() implies klpw_header()[j] != ']' && klpw_header()[j] != '\n' by {}
    }
    let n = preset_prefix() + p.name;
    assert(name_reads_back(n)) by {
        assert forall|j: int| 0 <= j < n.len() implies n[j] != ']' && n[j] != '\n' by {
            if j >= preset_prefix().len() {
                assert(n[j] == p.name[j - preset_prefix().len()]);
            }
        }
        if n.contains(']') {
            let j = choose|j: int| 0 <= j < n.len() && n[j] == ']';
        }
        if n.contains('\n') {
            let j = choose|j: int| 0 <= j < n.len() && n[j] == '\n';
        }
    }
    let e = h.entries[0];
    assert(entry_reads_back(e)) by {
        assert(e.key == "Version"@ && e.value == "1"@);
        assert(!e.key.contains('\n') && !e.key.contains('=')) by {
            if e.key.contains('\n') || e.key.contains('=') {
                let j = choose|j: int| 0 <= j < e.key.len() && (e.key[j] == '\n' || e.key[j] == '=');
            }
        }
        assert(!e.value.contains('\n')) by {
            if e.value.contains('\n') {
                let j = choose|j: int| 0 <= j < e.value.len() && e.value[j] == '\n';
            }
        }
        assert forall|i: int| !comment_starts_at(e.value, i) by {}
    }
    assert(section_reads_back(h));
    lemma_map_section_plain(d.sections[1], n, p.values);
    assert(doc_reads_back(d)) by {
        assert forall|i: int| 0 <= i < d.sections.len() implies section_reads_back(#[trigger] d.sections[i]) by {
            if i == 0 {
            } else {
                assert(i == 1);
            }
        }
    }
    lemma_ini_doc_round_trip(d);
    assert(no_empty_keys(p.values)) by {
        assert forall|x: Seq<char>| #[trigger] p.values.contains_key(x) implies x.len() > 0 by {
            assert(key_reads_back(x));
        }
    }
    lemma_klpw_round_trip(p, d);
    let ss = d.sections;
    assert forall|i: int| is_first_preset_section(ss, i) implies preset_of_section(ss[i]) == p by {
        if i == 0 {
        } else if i > 1 {
            assert(is_preset_section(ss[1]));
        }
    }
}

/// The error reported when a `.klpw` file holds no preset section.
pub fn klpw_missing_section_error(klpw_path: &str) -> (r: String)
    ensures
        r@ == "Invalid .klpw file: no [Windeco Preset <name>] section found in \""@ + klpw_path@ + "\""@,
{
    let mut r = "Invalid .klpw file: no [Windeco Preset <name>] section found in \"".to_string();
    r.append(klpw_path);
    r.append("\"");
    r
}

} // verus!
