//! Writing an `IniDocument` back to text.

use vstd::prelude::*;
use vstd::string::StringExecFns;
use super::{
    entries_view, sections_view, strings_view, DocV, EntryV, IniDocument, IniEntry, IniSection,
    SectionV,
};
use crate::text::push_char;

verus! {

broadcast use vstd::string::group_string_axioms;

/// Each line followed by a newline.
pub open spec fn lines_text(ls: Seq<Seq<char>>) -> Seq<char>
    decreases ls.len(),
{
    if ls.len() == 0 {
        Seq::empty()
    } else {
        lines_text(ls.drop_last()) + ls.last() + seq!['\n']
    }
}

/// The text of one entry: a kept comment line, or `key=value` with an
/// optional ` comment`.
pub open spec fn entry_text(e: EntryV) -> Seq<char> {
    if e.key.len() == 0 {
        match e.comment {
            Some(c) => c + seq!['\n'],
            None => seq!['\n'],
        }
    } else {
        match e.comment {
            Some(c) => e.key + seq!['='] + e.value + seq![' '] + c + seq!['\n'],
            None => e.key + seq!['='] + e.value + seq!['\n'],
        }
    }
}

/// The texts of a sequence of entries, one after the other.
pub open spec fn entries_text(es: Seq<EntryV>) -> Seq<char>
    decreases es.len(),
{
    if es.len() == 0 {
        Seq::empty()
    } else {
        entries_text(es.drop_last()) + entry_text(es.last())
    }
}

/// The text of a section: its preceding lines, `[name]`, then its entries.
pub open spec fn section_text(s: SectionV) -> Seq<char> {
    lines_text(s.preceding_lines) + seq!['['] + s.name + seq![']', '\n'] + entries_text(s.entries)
}

/// The texts of a sequence of sections, one after the other.
pub open spec fn sections_text(ss: Seq<SectionV>) -> Seq<char>
    decreases ss.len(),
{
    if ss.len() == 0 {
        Seq::empty()
    } else {
        sections_text(ss.drop_last()) + section_text(ss.last())
    }
}

/// The text of a document.
pub open spec fn doc_text(d: DocV) -> Seq<char> {
    lines_text(d.header_lines) + sections_text(d.sections) + lines_text(d.trailing_lines)
}

fn push_lines(out: &mut String, ls: &Vec<String>)
    ensures
        final(out)@ == old(out)@ + lines_text(strings_view(ls@)),
{
    let ghost v = strings_view(ls@);
    let mut i: usize = 0;
    while i < ls.len()
        invariant
            i <= ls.len(),
            v == strings_view(ls@),
            out@ == old(out)@ + lines_text(v.take(i as int)),
        decreases ls.len() - i,
    {
        assert(v.take(i + 1).drop_last() =~= v.take(i as int));
        assert(v.take(i + 1).last() == ls@[i as int]@);
        out.append(ls[i].as_str());
        push_char(out, '\n');
        assert(out@ =~= old(out)@ + lines_text(v.take(i + 1)));
        i += 1;
    }
    assert(v.take(ls.len() as int) =~= v);
}

fn push_entry(out: &mut String, e: &IniEntry)
    ensures
        final(out)@ == old(out)@ + entry_text(e@),
{
    if e.key.as_str().is_empty() {
        if let Some(c) = &e.comment {
            out.append(c.as_str());
        }
        push_char(out, '\n');
    } else {
        out.append(e.key.as_str());
        push_char(out, '=');
        out.append(e.value.as_str());
        if let Some(c) = &e.comment {
            push_char(out, ' ');
            out.append(c.as_str());
        }
        push_char(out, '\n');
    }
    assert(final(out)@ =~= old(out)@ + entry_text(e@));
}

fn push_section(out: &mut String, s: &IniSection)
    ensures
        final(out)@ == old(out)@ + section_text(s@),
{
    push_lines(out, &s.preceding_lines);
    push_char(out, '[');
    out.append(s.name.as_str());
    push_char(out, ']');
    push_char(out, '\n');
    let ghost es = entries_view(s.entries@);
    let ghost mid = out@;
    let mut i: usize = 0;
    while i < s.entries.len()
        invariant
            i <= s.entries.len(),
            es == entries_view(s.entries@),
            out@ == mid + entries_text(es.take(i as int)),
        decreases s.entries.len() - i,
    {
        assert(es.take(i + 1).drop_last() =~= es.take(i as int));
        assert(es.take(i + 1).last() == s.entries@[i as int]@);
        push_entry(out, &s.entries[i]);
        assert(out@ =~= mid + entries_text(es.take(i + 1)));
        i += 1;
    }
    assert(es.take(s.entries.len() as int) =~= es);
    assert(final(out)@ =~= old(out)@ + section_text(s@));
}

/// Serialize an `IniDocument` back to a string, preserving comments, blank lines,
/// and ordering for round-trip fidelity.
pub fn serialize_ini(doc: &IniDocument) -> (s: String)
    ensures
        s@ == doc_text(doc@),
{
    let mut out = String::new();
    push_lines(&mut out, &doc.header_lines);
    let ghost ss = sections_view(doc.sections@);
    let ghost mid = out@;
    let mut i: usize = 0;
    while i < doc.sections.len()
        invariant
            i <= doc.sections.len(),
            ss == sections_view(doc.sections@),
            out@ == mid + sections_text(ss.take(i as int)),
        decreases doc.sections.len() - i,
    {
        assert(ss.take(i + 1).drop_last() =~= ss.take(i as int));
        assert(ss.take(i + 1).last() == doc.sections@[i as int]@);
        push_section(&mut out, &doc.sections[i]);
        assert(out@ =~= mid + sections_text(ss.take(i + 1)));
        i += 1;
    }
    assert(ss.take(doc.sections.len() as int) =~= ss);
    push_lines(&mut out, &doc.trailing_lines);
    assert(out@ =~= doc_text(doc@));
    out
}

} // verus!
