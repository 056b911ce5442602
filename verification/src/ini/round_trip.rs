//! Writing back what was read: on text in the writer's own layout,
//! `serialize_ini(&parse_ini(text))` gives `text` again.  Reading back what
//! was written: a document the parser made, changed by `set_value`, is
//! read back from its text with the same sections and keyed values.

use vstd::prelude::*;
use super::parser::{
    closed_sections, comment_entry, comment_starts_at, hex_run, is_hex_char, header_name, is_first_comment,
    is_header_line, kv_entry, parse_lines, parse_step, spec_parse_ini, split_comment, ParseState,
};
use super::serializer::{
    doc_text, entries_text, entry_text, lines_text, section_text, sections_text,
};
use super::{
    doc_get, doc_set, first_entry, first_section, is_first_entry, is_first_section, lemma_first_entry,
    lemma_first_section, new_section, section_set, DocV, EntryV, SectionV,
};
use super::maps::{entry_pairs, is_map_section};
use crate::strmap::{distinct_keys, has_key, lemma_pairs_map};
use crate::text::{
    first_index, is_first_index, is_ws, join, lemma_first_index, lemma_join_split, lemma_lex_irrefl,
    lemma_split_pieces_plain, lex_lt, lines, split, strip_cr, trim, trim_end, trim_start,
};

verus! {

/// A line as `str::lines` hands it out: no newline in it and no carriage
/// return at its end.
pub open spec fn is_bare_line(l: Seq<char>) -> bool {
    !l.contains('\n') && !(l.len() > 0 && l.last() == '\r')
}

/// Some line before position `i` opens a section.
pub open spec fn opens_before(ls: Seq<Seq<char>>, i: int) -> bool {
    exists|j: int| 0 <= j < i && is_header_line(#[trigger] trim(ls[j]))
}

/// Line `l` is written back as it was read: a section header must be
/// exactly `[name]`, and a `key=value` line read inside a section must be
/// exactly what the writer makes of its entry.  Every other line is kept
/// verbatim.
pub open spec fn line_written_back(l: Seq<char>, in_section: bool) -> bool {
    let t = trim(l);
    if is_header_line(t) {
        l == seq!['['] + header_name(t) + seq![']']
    } else if in_section && !(t.len() == 0 || t[0] == '#' || t[0] == ';') && t.contains('=') {
        entry_text(kv_entry(t)) == l.push('\n')
    } else {
        true
    }
}

/// Every line of `ls` is a bare line that is written back as it was read.
pub open spec fn lines_written_back(ls: Seq<Seq<char>>) -> bool {
    forall|i: int|
        0 <= i < ls.len() ==> is_bare_line(#[trigger] ls[i]) && line_written_back(
            ls[i],
            opens_before(ls, i),
        )
}

/// The text that the parser's state stands for.
spec fn state_text(st: ParseState) -> Seq<char> {
    lines_text(st.header) + sections_text(st.sections) + match st.current {
        Some(c) => section_text(c),
        None => Seq::empty(),
    } + lines_text(st.pending)
}

/// Before the first section nothing is pending and nothing is closed.
spec fn state_shape(st: ParseState) -> bool {
    st.current is None ==> st.sections.len() == 0 && st.pending.len() == 0
}

proof fn lemma_entries_text_append(a: Seq<EntryV>, b: Seq<EntryV>)
    ensures
        entries_text(a + b) == entries_text(a) + entries_text(b),
    decreases b.len(),
{
    if b.len() == 0 {
        assert(a + b =~= a);
        assert(entries_text(a) + entries_text(b) =~= entries_text(a));
    } else {
        lemma_entries_text_append(a, b.drop_last());
        assert((a + b).drop_last() =~= a + b.drop_last());
        assert((a + b).last() == b.last());
        assert(entries_text(a + b) =~= entries_text(a) + entries_text(b));
    }
}

proof fn lemma_comment_entries_text(p: Seq<Seq<char>>)
    ensures
        entries_text(p.map_values(|l: Seq<char>| comment_entry(l))) == lines_text(p),
    decreases p.len(),
{
    if p.len() > 0 {
        let m = p.map_values(|l: Seq<char>| comment_entry(l));
        lemma_comment_entries_text(p.drop_last());
        assert(m.drop_last() =~= p.drop_last().map_values(|l: Seq<char>| comment_entry(l)));
        assert(m.last() == comment_entry(p.last()));
    }
}

proof fn lemma_sections_text_push(ss: Seq<SectionV>, s: SectionV)
    ensures
        sections_text(ss.push(s)) == sections_text(ss) + section_text(s),
{
    assert(ss.push(s).drop_last() =~= ss);
}

proof fn lemma_lines_text_push(ls: Seq<Seq<char>>, l: Seq<char>)
    ensures
        lines_text(ls.push(l)) == lines_text(ls) + l + seq!['\n'],
{
    assert(ls.push(l).drop_last() =~= ls);
}

/// One more line adds its own text to the text of the parser's state.
proof fn lemma_step_text(st: ParseState, l: Seq<char>)
    requires
        state_shape(st),
        line_written_back(l, st.current is Some),
    ensures
        state_shape(parse_step(st, l)),
        state_text(parse_step(st, l)) == state_text(st) + l + seq!['\n'],
        parse_step(st, l).current is Some <==> (st.current is Some || is_header_line(trim(l))),
{
    let t = trim(l);
    if is_header_line(t) {
        lemma_step_header(st, l);
    } else if st.current is None {
        lemma_lines_text_push(st.header, l);
        assert(state_text(st) =~= lines_text(st.header));
        assert(state_text(parse_step(st, l)) =~= state_text(st) + l + seq!['\n']);
    } else if t.len() == 0 || t[0] == '#' || t[0] == ';' {
        lemma_lines_text_push(st.pending, l);
        assert(state_text(parse_step(st, l)) =~= state_text(st) + l + seq!['\n']);
    } else if t.contains('=') {
        lemma_step_entry(st, l);
    } else {
        lemma_lines_text_push(st.pending, l);
        assert(state_text(parse_step(st, l)) =~= state_text(st) + l + seq!['\n']);
    }
}

proof fn lemma_step_header(st: ParseState, l: Seq<char>)
    requires
        is_header_line(trim(l)),
        l == seq!['['] + header_name(trim(l)) + seq![']'],
    ensures
        state_text(parse_step(st, l)) == state_text(st) + l + seq!['\n'],
        parse_step(st, l).current is Some,
        parse_step(st, l).pending.len() == 0,
{
    let st2 = parse_step(st, l);
    let name = header_name(trim(l));
    let c2 = SectionV { name: name, entries: Seq::empty(), preceding_lines: st.pending };
    let cur_text = match st.current {
        Some(c) => section_text(c),
        None => Seq::<char>::empty(),
    };
    if st.current is Some {
        lemma_sections_text_push(st.sections, st.current->0);
    }
    assert(sections_text(closed_sections(st)) == sections_text(st.sections) + cur_text);
    assert(entries_text(Seq::<EntryV>::empty()) =~= Seq::<char>::empty());
    assert(section_text(c2) =~= lines_text(st.pending) + seq!['['] + name + seq![']', '\n']);
    assert(st2.current == Some(c2));
    assert(lines_text(st2.pending) =~= Seq::<char>::empty());
    assert(state_text(st2) =~= state_text(st) + l + seq!['\n']);
}

proof fn lemma_step_entry(st: ParseState, l: Seq<char>)
    requires
        st.current is Some,
        !is_header_line(trim(l)),
        !(trim(l).len() == 0 || trim(l)[0] == '#' || trim(l)[0] == ';'),
        trim(l).contains('='),
        entry_text(kv_entry(trim(l))) == l.push('\n'),
    ensures
        state_text(parse_step(st, l)) == state_text(st) + l + seq!['\n'],
        parse_step(st, l).current is Some,
        parse_step(st, l).sections == st.sections,
{
    let t = trim(l);
    let st2 = parse_step(st, l);
    let c = st.current->0;
    let com = st.pending.map_values(|x: Seq<char>| comment_entry(x));
    lemma_entries_text_append(c.entries, com.push(kv_entry(t)));
    lemma_entries_text_append(com, seq![kv_entry(t)]);
    assert(com + seq![kv_entry(t)] =~= com.push(kv_entry(t)));
    assert(seq![kv_entry(t)].drop_last() =~= Seq::<EntryV>::empty());
    assert(entries_text(Seq::<EntryV>::empty()) =~= Seq::<char>::empty());
    assert(seq![kv_entry(t)].last() == kv_entry(t));
    assert(entries_text(seq![kv_entry(t)]) =~= entry_text(kv_entry(t)));
    lemma_comment_entries_text(st.pending);
    let c2 = st2.current->0;
    assert(c2.entries == c.entries + com.push(kv_entry(t)));
    assert(section_text(c2) =~= section_text(c) + lines_text(st.pending) + l + seq!['\n']);
    assert(lines_text(st2.pending) =~= Seq::<char>::empty());
    assert(state_text(st2) =~= state_text(st) + l + seq!['\n']);
}

proof fn lemma_opens_before_prefix(ls: Seq<Seq<char>>, i: int)
    requires
        0 <= i < ls.len(),
    ensures
        opens_before(ls.drop_last(), i) <==> opens_before(ls, i),
{
    let prev = ls.drop_last();
    if opens_before(ls, i) {
        let j = choose|j: int| 0 <= j < i && is_header_line(#[trigger] trim(ls[j]));
        assert(prev[j] == ls[j]);
    }
    if opens_before(prev, i) {
        let j = choose|j: int| 0 <= j < i && is_header_line(#[trigger] trim(prev[j]));
        assert(prev[j] == ls[j]);
    }
}

/// The parser's state after the lines of `ls` stands for their text.
proof fn lemma_state_text(ls: Seq<Seq<char>>)
    requires
        forall|i: int|
            0 <= i < ls.len() ==> line_written_back(#[trigger] ls[i], opens_before(ls, i)),
    ensures
        state_shape(parse_lines(ls)),
        state_text(parse_lines(ls)) == lines_text(ls),
        parse_lines(ls).current is Some <==> opens_before(ls, ls.len() as int),
    decreases ls.len(),
{
    if ls.len() == 0 {
        let st = parse_lines(ls);
        assert(state_text(st) =~= Seq::<char>::empty());
    } else {
        let prev = ls.drop_last();
        let n = prev.len() as int;
        let l = ls.last();
        assert forall|i: int| 0 <= i < prev.len() implies line_written_back(
            #[trigger] prev[i],
            opens_before(prev, i),
        ) by {
            assert(prev[i] == ls[i]);
            lemma_opens_before_prefix(ls, i);
        }
        lemma_state_text(prev);
        let st = parse_lines(prev);
        assert(l == ls[n]);
        lemma_opens_before_prefix(ls, n);
        lemma_step_text(st, l);
        lemma_lines_text_push(prev, l);
        assert(ls =~= prev.push(l));
        if is_header_line(trim(l)) {
            assert(opens_before(ls, ls.len() as int)) by {
                assert(is_header_line(trim(ls[n])));
            }
        } else if opens_before(ls, ls.len() as int) {
            let j = choose|j: int| 0 <= j < ls.len() && is_header_line(#[trigger] trim(ls[j]));
            assert(j != n);
            assert(opens_before(ls, n));
        }
    }
}

proof fn lemma_split_nonempty(s: Seq<char>, sep: char)
    ensures
        split(s, sep).len() >= 1,
    decreases s.len(),
{
    if s.len() > 0 {
        lemma_split_nonempty(s.drop_last(), sep);
    }
}

proof fn lemma_split_append(s: Seq<char>, l: Seq<char>, sep: char)
    requires
        !l.contains(sep),
    ensures
        split(s + l, sep) == split(s, sep).update(
            split(s, sep).len() - 1,
            split(s, sep).last() + l,
        ),
    decreases l.len(),
{
    lemma_split_nonempty(s, sep);
    let ps = split(s, sep);
    if l.len() == 0 {
        assert(s + l =~= s);
        assert(ps.last() + l =~= ps.last());
        assert(ps.update(ps.len() - 1, ps.last() + l) =~= ps);
    } else {
        let l0 = l.drop_last();
        assert(!l0.contains(sep)) by {
            assert forall|k: int| 0 <= k < l0.len() implies l0[k] != sep by {
                assert(l0[k] == l[k]);
            }
        }
        lemma_split_append(s, l0, sep);
        assert((s + l).drop_last() =~= s + l0);
        assert((s + l).last() == l.last());
        assert(l.last() != sep) by {
            assert(l[l.len() - 1] == l.last());
        }
        assert((ps.last() + l0).push(l.last()) =~= ps.last() + l);
        assert(split(s + l, sep) =~= ps.update(ps.len() - 1, ps.last() + l));
    }
}

proof fn lemma_split_lines_text(ls: Seq<Seq<char>>)
    requires
        forall|i: int| 0 <= i < ls.len() ==> !(#[trigger] ls[i]).contains('\n'),
    ensures
        split(lines_text(ls), '\n') == ls.push(Seq::<char>::empty()),
    decreases ls.len(),
{
    if ls.len() == 0 {
        assert(split(lines_text(ls), '\n') =~= ls.push(Seq::<char>::empty()));
    } else {
        let prev = ls.drop_last();
        let l = ls.last();
        assert forall|i: int| 0 <= i < prev.len() implies !(#[trigger] prev[i]).contains('\n') by {
            assert(prev[i] == ls[i]);
        }
        lemma_split_lines_text(prev);
        assert(!l.contains('\n')) by {
            assert(l == ls[ls.len() - 1]);
        }
        let body = lines_text(prev) + l;
        lemma_split_append(lines_text(prev), l, '\n');
        assert(lines_text(ls) == body + seq!['\n']);
        assert((body + seq!['\n']).drop_last() =~= body);
        assert((body + seq!['\n']).last() == '\n');
        assert(Seq::<char>::empty() + l =~= l);
        assert(split(body, '\n') =~= ls);
        assert(split(lines_text(ls), '\n') =~= ls.push(Seq::<char>::empty()));
    }
}

/// Splitting the text of bare lines gives the same lines back.
pub proof fn lemma_lines_of_text(ls: Seq<Seq<char>>)
    requires
        forall|i: int| 0 <= i < ls.len() ==> is_bare_line(#[trigger] ls[i]),
    ensures
        lines(lines_text(ls)) == ls,
{
    assert forall|i: int| 0 <= i < ls.len() implies !(#[trigger] ls[i]).contains('\n') by {
        assert(is_bare_line(ls[i]));
    }
    lemma_split_lines_text(ls);
    let ps = split(lines_text(ls), '\n');
    let n = ps.len() as int;
    assert(ps.take(n - 1) =~= ls);
    assert(ls.map_values(|p: Seq<char>| strip_cr(p)) =~= ls) by {
        assert forall|i: int| 0 <= i < ls.len() implies strip_cr(ls[i]) == ls[i] by {
            assert(is_bare_line(ls[i]));
        }
    }
    assert(lines(lines_text(ls)) =~= ls);
}

/// Reading INI text and writing the document back gives the same text, for
/// any text made of whole bare lines, each ended by a newline, in which
/// every section header is written `[name]` and every `key=value` line
/// inside a section is written as the writer writes its entry.  Comments,
/// blank lines and lines before the first section come back verbatim.
pub proof fn lemma_ini_text_round_trip(ls: Seq<Seq<char>>)
    requires
        lines_written_back(ls),
    ensures
        doc_text(spec_parse_ini(lines_text(ls))) == lines_text(ls),
{
    lemma_lines_of_text(ls);
    assert forall|i: int| 0 <= i < ls.len() implies line_written_back(
        #[trigger] ls[i],
        opens_before(ls, i),
    ) by {
        assert(is_bare_line(ls[i]));
    }
    lemma_state_text(ls);
    let st = parse_lines(ls);
    if st.current is Some {
        lemma_sections_text_push(st.sections, st.current->0);
    }
    assert(doc_text(spec_parse_ini(lines_text(ls))) =~= state_text(st));
}

/// The text is its lines put back together, each ended by a newline (so
/// it is empty or ends with one, and holds no carriage return before a
/// newline), and each line is one the writer writes back.
pub open spec fn text_written_back(s: Seq<char>) -> bool {
    &&& lines_text(lines(s)) == s
    &&& lines_written_back(lines(s))
}

/// `serialize_ini(&parse_ini(s)) == s` for such a text: comments, blank
/// lines, and the order of sections and keys survive.
pub proof fn lemma_ini_string_round_trip(s: Seq<char>)
    requires
        text_written_back(s),
    ensures
        doc_text(spec_parse_ini(s)) == s,
{
    lemma_ini_text_round_trip(lines(s));
}

// ---------------------------------------------------------------------------
// Writing then reading
// ---------------------------------------------------------------------------

/// A section name that reads back from its `[name]` line: no newline and
/// no `]`.
pub open spec fn name_reads_back(n: Seq<char>) -> bool {
    !n.contains('\n') && !n.contains(']')
}

/// A key that reads back from its `key=value` line: not empty, without
/// white space at either end, without newline or `=`, and not starting
/// like a section header or a comment.
pub open spec fn key_reads_back(k: Seq<char>) -> bool {
    &&& k.len() > 0
    &&& !is_ws(k[0])
    &&& !is_ws(k.last())
    &&& !k.contains('\n')
    &&& !k.contains('=')
    &&& k[0] != '['
    &&& k[0] != '#'
    &&& k[0] != ';'
}

/// A value that reads back from its `key=value` line: without white space
/// at either end, without newline, and without anything read as an inline
/// comment.
pub open spec fn value_reads_back(v: Seq<char>) -> bool {
    &&& (v.len() > 0 ==> !is_ws(v[0]) && !is_ws(v.last()))
    &&& !v.contains('\n')
    &&& forall|i: int| !comment_starts_at(v, i)
}

/// An entry written as a plain `key=value` line that reads back.
pub open spec fn entry_reads_back(e: EntryV) -> bool {
    e.comment is None && key_reads_back(e.key) && value_reads_back(e.value)
}

/// A section written as its header and plain entries that reads back.
pub open spec fn section_reads_back(s: SectionV) -> bool {
    &&& s.preceding_lines.len() == 0
    &&& name_reads_back(s.name)
    &&& forall|j: int| 0 <= j < s.entries.len() ==> entry_reads_back(#[trigger] s.entries[j])
}

/// A document of sections only, each of which reads back.
pub open spec fn doc_reads_back(d: DocV) -> bool {
    &&& d.header_lines.len() == 0
    &&& d.trailing_lines.len() == 0
    &&& forall|i: int| 0 <= i < d.sections.len() ==> section_reads_back(#[trigger] d.sections[i])
}

/// The line of a plain entry.
spec fn entry_line(e: EntryV) -> Seq<char> {
    e.key + seq!['='] + e.value
}

/// The header line of a section.
spec fn header_line(n: Seq<char>) -> Seq<char> {
    seq!['['] + n + seq![']']
}

/// The lines of a section: its header, then its entries.
spec fn section_lines(s: SectionV) -> Seq<Seq<char>> {
    seq![header_line(s.name)] + s.entries.map_values(|e: EntryV| entry_line(e))
}

/// The lines of a sequence of sections.
spec fn sections_lines(ss: Seq<SectionV>) -> Seq<Seq<char>>
    decreases ss.len(),
{
    if ss.len() == 0 {
        Seq::empty()
    } else {
        sections_lines(ss.drop_last()) + section_lines(ss.last())
    }
}

proof fn lemma_trim_plain(s: Seq<char>)
    requires
        s.len() == 0 || (!is_ws(s[0]) && !is_ws(s.last())),
    ensures
        trim(s) == s,
{
    if s.len() > 0 {
        assert(trim_start(s) == s);
        assert(trim_end(s) == s);
    } else {
        assert(trim_start(s) == s);
        assert(trim_end(s) == s);
    }
}

proof fn lemma_lines_text_append(a: Seq<Seq<char>>, b: Seq<Seq<char>>)
    ensures
        lines_text(a + b) == lines_text(a) + lines_text(b),
    decreases b.len(),
{
    if b.len() == 0 {
        assert(a + b =~= a);
        assert(lines_text(a) + lines_text(b) =~= lines_text(a));
    } else {
        lemma_lines_text_append(a, b.drop_last());
        assert((a + b).drop_last() =~= a + b.drop_last());
        assert((a + b).last() == b.last());
        assert(lines_text(a + b) =~= lines_text(a) + lines_text(b));
    }
}

proof fn lemma_entries_lines(es: Seq<EntryV>)
    requires
        forall|j: int| 0 <= j < es.len() ==> entry_reads_back(#[trigger] es[j]),
    ensures
        entries_text(es) == lines_text(es.map_values(|e: EntryV| entry_line(e))),
    decreases es.len(),
{
    if es.len() > 0 {
        let m = es.map_values(|e: EntryV| entry_line(e));
        assert forall|j: int| 0 <= j < es.drop_last().len() implies entry_reads_back(
            #[trigger] es.drop_last()[j],
        ) by {
            assert(es.drop_last()[j] == es[j]);
        }
        lemma_entries_lines(es.drop_last());
        assert(m.drop_last() =~= es.drop_last().map_values(|e: EntryV| entry_line(e)));
        let e = es.last();
        assert(entry_reads_back(es[es.len() - 1]));
        assert(entry_text(e) =~= entry_line(e) + seq!['\n']);
    }
}

proof fn lemma_sections_lines_text(ss: Seq<SectionV>)
    requires
        forall|i: int| 0 <= i < ss.len() ==> section_reads_back(#[trigger] ss[i]),
    ensures
        lines_text(sections_lines(ss)) == sections_text(ss),
    decreases ss.len(),
{
    if ss.len() > 0 {
        let s = ss.last();
        assert(section_reads_back(ss[ss.len() - 1]));
        assert forall|i: int| 0 <= i < ss.drop_last().len() implies section_reads_back(
            #[trigger] ss.drop_last()[i],
        ) by {
            assert(ss.drop_last()[i] == ss[i]);
        }
        lemma_sections_lines_text(ss.drop_last());
        let hl = seq![header_line(s.name)];
        let el = s.entries.map_values(|e: EntryV| entry_line(e));
        lemma_lines_text_append(sections_lines(ss.drop_last()), section_lines(s));
        lemma_lines_text_append(hl, el);
        lemma_entries_lines(s.entries);
        assert(hl.drop_last() =~= Seq::<Seq<char>>::empty());
        assert(lines_text(Seq::<Seq<char>>::empty()) =~= Seq::<char>::empty());
        assert(hl.last() == header_line(s.name));
        assert(lines_text(hl) =~= header_line(s.name) + seq!['\n']);
        assert(lines_text(s.preceding_lines) =~= Seq::<char>::empty());
        assert(section_text(s) =~= lines_text(section_lines(s)));
    }
}

/// The lines of sections that read back are bare lines.
proof fn lemma_sections_lines_bare(ss: Seq<SectionV>)
    requires
        forall|i: int| 0 <= i < ss.len() ==> section_reads_back(#[trigger] ss[i]),
    ensures
        forall|k: int| 0 <= k < sections_lines(ss).len() ==> is_bare_line(#[trigger] sections_lines(ss)[k]),
    decreases ss.len(),
{
    if ss.len() > 0 {
        let s = ss.last();
        assert(section_reads_back(ss[ss.len() - 1]));
        assert forall|i: int| 0 <= i < ss.drop_last().len() implies section_reads_back(
            #[trigger] ss.drop_last()[i],
        ) by {
            assert(ss.drop_last()[i] == ss[i]);
        }
        lemma_sections_lines_bare(ss.drop_last());
        let prev = sections_lines(ss.drop_last());
        let sl = section_lines(s);
        assert forall|k: int| 0 <= k < sl.len() implies is_bare_line(#[trigger] sl[k]) by {
            if k == 0 {
                let h = header_line(s.name);
                assert(sl[0] == h);
                assert(!h.contains('\n')) by {
                    if h.contains('\n') {
                        let j = choose|j: int| 0 <= j < h.len() && h[j] == '\n';
                        assert(s.name[j - 1] == '\n');
                    }
                }
                assert(h.last() == ']');
            } else {
                let e = s.entries[k - 1];
                assert(entry_reads_back(s.entries[k - 1]));
                let l = entry_line(e);
                assert(sl[k] == l);
                assert(!l.contains('\n')) by {
                    if l.contains('\n') {
                        let j = choose|j: int| 0 <= j < l.len() && l[j] == '\n';
                        if j < e.key.len() {
                            assert(e.key[j] == '\n');
                        } else if j > e.key.len() {
                            assert(e.value[j - e.key.len() - 1] == '\n');
                        }
                    }
                }
                if e.value.len() > 0 {
                    assert(l.last() == e.value.last());
                } else {
                    assert(l.last() == '=');
                }
            }
        }
        assert forall|k: int| 0 <= k < sections_lines(ss).len() implies is_bare_line(
            #[trigger] sections_lines(ss)[k],
        ) by {
            if k < prev.len() {
                assert(sections_lines(ss)[k] == prev[k]);
            } else {
                assert(sections_lines(ss)[k] == sl[k - prev.len()]);
            }
        }
    }
}

proof fn lemma_parse_push(ls: Seq<Seq<char>>, l: Seq<char>)
    ensures
        parse_lines(ls.push(l)) == parse_step(parse_lines(ls), l),
{
    assert(ls.push(l).drop_last() =~= ls);
}

/// A header line that reads back opens its section.
proof fn lemma_step_header_line(st: ParseState, n: Seq<char>)
    requires
        name_reads_back(n),
        st.pending.len() == 0,
    ensures
        parse_step(st, header_line(n)) == (ParseState {
            header: st.header,
            sections: closed_sections(st),
            pending: Seq::empty(),
            current: Some(SectionV { name: n, entries: Seq::empty(), preceding_lines: Seq::empty() }),
        }),
{
    let h = header_line(n);
    lemma_trim_plain(h);
    crate::text::lemma_first_index(h, ']');
    assert(is_first_index(h, ']', n.len() + 1int)) by {
        assert forall|j: int| 0 <= j < n.len() + 1 implies h[j] != ']' by {
            if j > 0 {
                assert(h[j] == n[j - 1]);
            }
        }
    }
    assert(h.contains(']')) by {
        assert(h[n.len() + 1int] == ']');
    }
    assert(header_name(h) =~= n);
    assert(st.pending =~= Seq::<Seq<char>>::empty());
    assert(h.len() > 0 && h[0] == '[');
    assert(is_header_line(trim(h)));
}

/// A plain entry line read inside a section appends its entry.
proof fn lemma_step_entry_line(st: ParseState, e: EntryV)
    requires
        entry_reads_back(e),
        st.current is Some,
        st.pending.len() == 0,
    ensures
        parse_step(st, entry_line(e)) == (ParseState {
            current: Some(SectionV { entries: st.current->0.entries.push(e), ..st.current->0 }),
            ..st
        }),
{
    let l = entry_line(e);
    let k = e.key;
    let v = e.value;
    assert(l[0] == k[0]);
    if v.len() > 0 {
        assert(l.last() == v.last());
    } else {
        assert(l.last() == '=');
    }
    lemma_trim_plain(l);
    assert(trim(l) == l);
    assert(!is_header_line(l));
    assert(l.contains('=')) by {
        assert(l[k.len() as int] == '=');
    }
    crate::text::lemma_first_index(l, '=');
    assert(is_first_index(l, '=', k.len() as int)) by {
        assert forall|j: int| 0 <= j < k.len() implies l[j] != '=' by {
            assert(l[j] == k[j]);
        }
    }
    assert(l.take(k.len() as int) =~= k);
    assert(l.skip(k.len() + 1int) =~= v);
    lemma_trim_plain(k);
    lemma_trim_plain(v);
    assert(!(exists|i: int| is_first_comment(v, i)));
    assert(split_comment(v) == (v, Option::<Seq<char>>::None));
    assert(kv_entry(l) == e);
    let c = st.current->0;
    assert(st.pending.map_values(|x: Seq<char>| comment_entry(x)) =~= Seq::<EntryV>::empty());
    assert(c.entries + Seq::<EntryV>::empty().push(e) =~= c.entries.push(e));
    assert(st.pending =~= Seq::<Seq<char>>::empty());
    assert(!(l.len() == 0 || l[0] == '#' || l[0] == ';'));
}

/// Reading the lines of a section that reads back, after any state with
/// nothing pending.
proof fn lemma_parse_section(ls: Seq<Seq<char>>, s: SectionV, k: int)
    requires
        section_reads_back(s),
        parse_lines(ls).pending.len() == 0,
        0 <= k <= s.entries.len(),
    ensures
        parse_lines(ls + section_lines(s).take(k + 1)) == (ParseState {
            header: parse_lines(ls).header,
            sections: closed_sections(parse_lines(ls)),
            pending: Seq::empty(),
            current: Some(SectionV { entries: s.entries.take(k), ..s }),
        }),
    decreases k,
{
    let sl = section_lines(s);
    if k == 0 {
        assert(ls + sl.take(1) =~= ls.push(header_line(s.name)));
        lemma_parse_push(ls, header_line(s.name));
        lemma_step_header_line(parse_lines(ls), s.name);
        assert(s.entries.take(0) =~= Seq::<EntryV>::empty());
        assert(s.preceding_lines =~= Seq::<Seq<char>>::empty());
    } else {
        lemma_parse_section(ls, s, k - 1);
        let e = s.entries[k - 1];
        assert(entry_reads_back(s.entries[k - 1]));
        assert(sl[k] == entry_line(e));
        assert(ls + sl.take(k + 1) =~= (ls + sl.take(k)).push(entry_line(e)));
        lemma_parse_push(ls + sl.take(k), entry_line(e));
        lemma_step_entry_line(parse_lines(ls + sl.take(k)), e);
        assert(s.entries.take(k - 1).push(e) =~= s.entries.take(k));
    }
}

/// Reading the lines of sections that read back gives them back.
proof fn lemma_parse_sections(ss: Seq<SectionV>)
    requires
        forall|i: int| 0 <= i < ss.len() ==> section_reads_back(#[trigger] ss[i]),
    ensures
        parse_lines(sections_lines(ss)).header.len() == 0,
        parse_lines(sections_lines(ss)).pending.len() == 0,
        closed_sections(parse_lines(sections_lines(ss))) == ss,
    decreases ss.len(),
{
    if ss.len() == 0 {
        assert(sections_lines(ss) =~= Seq::<Seq<char>>::empty());
    } else {
        let prev = ss.drop_last();
        let s = ss.last();
        assert(section_reads_back(ss[ss.len() - 1]));
        assert forall|i: int| 0 <= i < prev.len() implies section_reads_back(#[trigger] prev[i]) by {
            assert(prev[i] == ss[i]);
        }
        lemma_parse_sections(prev);
        let sl = section_lines(s);
        let n = s.entries.len() as int;
        lemma_parse_section(sections_lines(prev), s, n);
        assert(sl.take(n + 1) =~= sl);
        assert(s.entries.take(n) =~= s.entries);
        assert(sections_lines(ss) == sections_lines(prev) + sl);
        assert(closed_sections(parse_lines(sections_lines(ss))) =~= prev.push(s));
        assert(prev.push(s) =~= ss);
    }
}

/// Writing a document and reading the text back gives the same document,
/// when the document holds only sections whose names, keys and values are
/// written so that they read back: a name without newline or `]`; a key
/// that is not empty, has no white space at its ends, no newline or `=`,
/// and does not start with `[`, `#` or `;`; a value with no white space at
/// its ends, no newline and nothing read as an inline comment.
pub proof fn lemma_ini_doc_round_trip(d: DocV)
    requires
        doc_reads_back(d),
    ensures
        spec_parse_ini(doc_text(d)) == d,
{
    let ss = d.sections;
    lemma_sections_lines_text(ss);
    lemma_sections_lines_bare(ss);
    lemma_lines_of_text(sections_lines(ss));
    assert(lines_text(d.header_lines) =~= Seq::<char>::empty());
    assert(lines_text(d.trailing_lines) =~= Seq::<char>::empty());
    assert(doc_text(d) =~= lines_text(sections_lines(ss)));
    lemma_parse_sections(ss);
    assert(d.header_lines =~= Seq::<Seq<char>>::empty());
    assert(d.trailing_lines =~= Seq::<Seq<char>>::empty());
    let st = parse_lines(sections_lines(ss));
    assert(st.header =~= Seq::<Seq<char>>::empty());
    assert(st.pending =~= Seq::<Seq<char>>::empty());
}

/// Every key and value of a map reads back.
pub open spec fn map_reads_back(m: Map<Seq<char>, Seq<char>>) -> bool {
    forall|k: Seq<char>| #[trigger] m.contains_key(k) ==> key_reads_back(k) && value_reads_back(m[k])
}

/// A section written from a map whose name, keys and values read back
/// reads back.
pub proof fn lemma_map_section_plain(s: SectionV, name: Seq<char>, m: Map<Seq<char>, Seq<char>>)
    requires
        is_map_section(s, name, m),
        name_reads_back(name),
        map_reads_back(m),
    ensures
        section_reads_back(s),
{
    let p = entry_pairs(s.entries);
    assert(distinct_keys(p)) by {
        assert forall|i: int, j: int| 0 <= i < j < p.len() implies (#[trigger] p[i]).0 != (
        #[trigger] p[j]).0 by {
            assert(lex_lt(p[i].0, p[j].0));
            lemma_lex_irrefl(p[i].0);
        }
    }
    lemma_pairs_map(p);
    assert forall|j: int| 0 <= j < s.entries.len() implies entry_reads_back(#[trigger] s.entries[j]) by {
        let e = s.entries[j];
        assert(p[j] == (e.key, e.value));
        assert(has_key(p, e.key));
        assert(m.contains_key(e.key));
        assert(m[e.key] == e.value);
    }
}

// ---------------------------------------------------------------------------
// Plain INI text
// ---------------------------------------------------------------------------

/// A section header `[name]` whose name holds no `]`.
pub open spec fn plain_header_line(l: Seq<char>) -> bool {
    exists|n: Seq<char>| l == seq!['['] + n + seq![']'] && !n.contains(']')
}

/// A blank line or a comment line (`#` or `;` after any white space).
pub open spec fn plain_comment_line(l: Seq<char>) -> bool {
    let t = trim(l);
    t.len() == 0 || t[0] == '#' || t[0] == ';'
}

/// Key and value of a `key=value` line as the writer writes it: the key is
/// not empty, has no white space at either end, holds no `=` and does not
/// start with `[`; the value has no white space at either end and nothing
/// in it is read as an inline comment.
pub open spec fn plain_entry_parts(k: Seq<char>, v: Seq<char>) -> bool {
    &&& k.len() > 0
    &&& !is_ws(k[0])
    &&& !is_ws(k.last())
    &&& !k.contains('=')
    &&& k[0] != '['
    &&& (v.len() > 0 ==> !is_ws(v[0]) && !is_ws(v.last()))
    &&& forall|i: int| !comment_starts_at(v, i)
}

/// A `key=value` line as the writer writes it.
pub open spec fn plain_entry_line(l: Seq<char>) -> bool {
    exists|k: Seq<char>, v: Seq<char>| l == k + seq!['='] + v && plain_entry_parts(k, v)
}

/// A line of plain INI text: a `[name]` header, a blank or comment line,
/// a line with neither `=` nor `]`, or a `key=value` line.
pub open spec fn plain_ini_line(l: Seq<char>) -> bool {
    ||| plain_header_line(l)
    ||| plain_comment_line(l)
    ||| (!l.contains('=') && !l.contains(']'))
    ||| plain_entry_line(l)
}

proof fn lemma_trim_start_avoids(s: Seq<char>, c: char)
    requires
        !s.contains(c),
    ensures
        !trim_start(s).contains(c),
    decreases s.len(),
{
    if s.len() > 0 && is_ws(s[0]) {
        let d = s.drop_first();
        assert(!d.contains(c)) by {
            if d.contains(c) {
                let i = choose|i: int| 0 <= i < d.len() && d[i] == c;
                assert(s[i + 1] == c);
            }
        }
        lemma_trim_start_avoids(d, c);
    }
}

proof fn lemma_trim_end_avoids(s: Seq<char>, c: char)
    requires
        !s.contains(c),
    ensures
        !trim_end(s).contains(c),
    decreases s.len(),
{
    if s.len() > 0 && is_ws(s.last()) {
        let d = s.drop_last();
        assert(!d.contains(c)) by {
            if d.contains(c) {
                let i = choose|i: int| 0 <= i < d.len() && d[i] == c;
                assert(s[i] == c);
            }
        }
        lemma_trim_end_avoids(d, c);
    }
}

proof fn lemma_trim_avoids(s: Seq<char>, c: char)
    requires
        !s.contains(c),
    ensures
        !trim(s).contains(c),
{
    lemma_trim_start_avoids(s, c);
    lemma_trim_end_avoids(trim_start(s), c);
}

/// A plain line is written back as it was read, inside a section or not.
proof fn lemma_plain_line_written_back(l: Seq<char>, in_section: bool)
    requires
        plain_ini_line(l),
    ensures
        line_written_back(l, in_section),
{
    if plain_header_line(l) {
        let n = choose|n: Seq<char>| l == seq!['['] + n + seq![']'] && !n.contains(']');
        assert(l[0] == '[');
        assert(l.last() == ']');
        lemma_trim_plain(l);
        let i = l.len() - 1;
        assert(is_first_index(l, ']', i)) by {
            assert forall|j: int| 0 <= j < i implies l[j] != ']' by {
                if j > 0 {
                    assert(l[j] == n[j - 1]);
                }
            }
        }
        lemma_first_index(l, ']');
        assert(l.contains(']')) by {
            assert(l[i] == ']');
        }
        assert(header_name(l) =~= n);
    } else if plain_comment_line(l) {
    } else if !l.contains('=') && !l.contains(']') {
        lemma_trim_avoids(l, ']');
        lemma_trim_avoids(l, '=');
    } else {
        let (k, v) = choose|k: Seq<char>, v: Seq<char>|
            l == k + seq!['='] + v && plain_entry_parts(k, v);
        assert(l[0] == k[0]);
        if v.len() > 0 {
            assert(l.last() == v.last());
        } else {
            assert(l.last() == '=');
        }
        lemma_trim_plain(l);
        let e = k.len() as int;
        assert(is_first_index(l, '=', e)) by {
            assert(l[e] == '=');
            assert forall|j: int| 0 <= j < e implies l[j] != '=' by {
                assert(l[j] == k[j]);
            }
        }
        lemma_first_index(l, '=');
        assert(l.take(e) =~= k);
        assert(l.skip(e + 1) =~= v);
        lemma_trim_plain(k);
        lemma_trim_plain(v);
        assert(!exists|i: int| is_first_comment(v, i));
        assert(kv_entry(l) == EntryV { key: k, value: v, comment: None });
        assert(entry_text(kv_entry(l)) =~= l.push('\n'));
    }
}

proof fn lemma_split_pieces_avoid(s: Seq<char>, sep: char, c: char)
    requires
        !s.contains(c),
    ensures
        forall|i: int| 0 <= i < split(s, sep).len() ==> !(#[trigger] split(s, sep)[i]).contains(c),
    decreases s.len(),
{
    lemma_split_nonempty(s, sep);
    if s.len() > 0 {
        let t = s.drop_last();
        assert(!t.contains(c)) by {
            if t.contains(c) {
                let j = choose|j: int| 0 <= j < t.len() && t[j] == c;
                assert(s[j] == c);
            }
        }
        lemma_split_pieces_avoid(t, sep, c);
        lemma_split_nonempty(t, sep);
        let prev = split(t, sep);
        let ps = split(s, sep);
        assert(s.last() != c) by {
            assert(s[s.len() - 1] == s.last());
        }
        assert forall|i: int| 0 <= i < ps.len() implies !(#[trigger] ps[i]).contains(c) by {
            if s.last() == sep {
                if i < prev.len() {
                    assert(ps[i] == prev[i]);
                } else {
                    assert(ps[i] == Seq::<char>::empty());
                }
            } else if i < prev.len() - 1 {
                assert(ps[i] == prev[i]);
            } else {
                let p = prev.last().push(s.last());
                assert(ps[i] == p);
                assert(!prev[prev.len() - 1].contains(c));
                if p.contains(c) {
                    let j = choose|j: int| 0 <= j < p.len() && p[j] == c;
                    if j < p.len() - 1 {
                        assert(prev.last()[j] == c);
                    }
                }
            }
        }
    }
}

proof fn lemma_lines_text_join(v: Seq<Seq<char>>)
    requires
        v.len() > 0,
    ensures
        lines_text(v) == join(v, seq!['\n']) + seq!['\n'],
    decreases v.len(),
{
    if v.len() == 1 {
        assert(v.drop_last() =~= Seq::<Seq<char>>::empty());
        assert(lines_text(v.drop_last()) == Seq::<char>::empty());
        assert(v.last() == v[0]);
        assert(lines_text(v) =~= v[0] + seq!['\n']);
    } else {
        lemma_lines_text_join(v.drop_last());
        assert(lines_text(v) =~= join(v, seq!['\n']) + seq!['\n']);
    }
}

/// `serialize_ini(&parse_ini(s)) == s` for plain INI text: text without
/// carriage returns, empty or ending with a newline, each of whose lines
/// is a `[name]` header, a blank or comment line, a line with neither `=`
/// nor `]`, or a `key=value` line as the writer writes it.  Comments,
/// blank lines, and the order of sections and keys survive.
pub proof fn lemma_plain_ini_round_trip(s: Seq<char>)
    requires
        !s.contains('\r'),
        s.len() == 0 || s.last() == '\n',
        forall|i: int| 0 <= i < lines(s).len() ==> plain_ini_line(#[trigger] lines(s)[i]),
    ensures
        text_written_back(s),
        doc_text(spec_parse_ini(s)) == s,
{
    if s.len() == 0 {
        assert(split(s, '\n') == seq![Seq::<char>::empty()]);
        assert(lines(s) =~= Seq::<Seq<char>>::empty());
        assert(lines_text(lines(s)) == s);
    } else {
        let t = s.drop_last();
        assert(!t.contains('\r')) by {
            if t.contains('\r') {
                let j = choose|j: int| 0 <= j < t.len() && t[j] == '\r';
                assert(s[j] == '\r');
            }
        }
        lemma_split_nonempty(t, '\n');
        let v = split(t, '\n');
        assert(split(s, '\n') == v.push(Seq::<char>::empty()));
        lemma_split_pieces_avoid(t, '\n', '\r');
        lemma_split_pieces_plain(t, '\n');
        assert(v.map_values(|p: Seq<char>| strip_cr(p)) =~= v) by {
            assert forall|i: int| 0 <= i < v.len() implies strip_cr(v[i]) == v[i] by {
                if v[i].len() > 0 {
                    assert(v[i][v[i].len() - 1] == v[i].last());
                }
            }
        }
        assert(v.push(Seq::<char>::empty()).take(v.len() as int) =~= v);
        assert(lines(s) =~= v);
        lemma_lines_text_join(v);
        lemma_join_split(t, '\n');
        assert(t + seq!['\n'] =~= s);
        assert forall|i: int| 0 <= i < v.len() implies is_bare_line(#[trigger] v[i])
            && line_written_back(v[i], opens_before(v, i)) by {
            lemma_plain_line_written_back(v[i], opens_before(v, i));
        }
        assert(lines_text(v) == s);
        assert(lines_written_back(v));
    }
    assert(text_written_back(s));
    lemma_ini_string_round_trip(s);
}

// ---------------------------------------------------------------------------
// Documents as the parser reads them
// ---------------------------------------------------------------------------

/// A header line that reads back opens its section, taking the pending
/// lines as the lines before it.
proof fn lemma_step_header_pending(st: ParseState, n: Seq<char>)
    requires
        name_reads_back(n),
    ensures
        parse_step(st, header_line(n)) == (ParseState {
            header: st.header,
            sections: closed_sections(st),
            pending: Seq::empty(),
            current: Some(SectionV { name: n, entries: Seq::empty(), preceding_lines: st.pending }),
        }),
{
    let h = header_line(n);
    lemma_trim_plain(h);
    crate::text::lemma_first_index(h, ']');
    assert(is_first_index(h, ']', n.len() + 1int)) by {
        assert forall|j: int| 0 <= j < n.len() + 1 implies h[j] != ']' by {
            if j > 0 {
                assert(h[j] == n[j - 1]);
            }
        }
    }
    assert(h.contains(']')) by {
        assert(h[n.len() + 1int] == ']');
    }
    assert(header_name(h) =~= n);
    assert(h.len() > 0 && h[0] == '[');
    assert(is_header_line(trim(h)));
}

/// Lines before the first section stay in the header.
proof fn lemma_parse_header_lines(hl: Seq<Seq<char>>)
    requires
        forall|i: int| 0 <= i < hl.len() ==> !is_header_line(trim(#[trigger] hl[i])),
    ensures
        parse_lines(hl) == (ParseState {
            header: hl,
            sections: Seq::empty(),
            pending: Seq::empty(),
            current: None,
        }),
    decreases hl.len(),
{
    if hl.len() == 0 {
        assert(parse_lines(hl).header =~= hl);
    } else {
        let p = hl.drop_last();
        assert forall|i: int| 0 <= i < p.len() implies !is_header_line(trim(#[trigger] p[i])) by {
            assert(p[i] == hl[i]);
        }
        lemma_parse_header_lines(p);
        assert(!is_header_line(trim(hl[hl.len() - 1])));
        assert(p.push(hl.last()) =~= hl);
    }
}

proof fn lemma_trim_start_shape(x: Seq<char>)
    ensures
        trim_start(x).len() > 0 ==> !is_ws(trim_start(x)[0]),
        (x.len() > 0 && !is_ws(x[0])) ==> trim_start(x) == x,
    decreases x.len(),
{
    if x.len() > 0 && is_ws(x[0]) {
        lemma_trim_start_shape(x.drop_first());
    }
}

proof fn lemma_trim_end_shape(y: Seq<char>)
    ensures
        trim_end(y).len() <= y.len(),
        trim_end(y) == y.take(trim_end(y).len() as int),
        trim_end(y).len() > 0 ==> !is_ws(trim_end(y).last()),
        (y.len() > 0 && !is_ws(y[0])) ==> trim_end(y).len() > 0,
    decreases y.len(),
{
    if y.len() > 0 && is_ws(y.last()) {
        let z = y.drop_last();
        lemma_trim_end_shape(z);
        assert(z.take(trim_end(z).len() as int) =~= y.take(trim_end(z).len() as int));
        if y.len() > 0 && !is_ws(y[0]) {
            assert(z.len() > 0) by {
                if z.len() == 0 {
                    assert(y[0] == y.last());
                }
            }
            assert(z[0] == y[0]);
        }
    } else {
        assert(y.take(y.len() as int) =~= y);
    }
}

proof fn lemma_trim_shape(x: Seq<char>)
    ensures
        trim(x).len() > 0 ==> !is_ws(trim(x)[0]) && !is_ws(trim(x).last()),
        (x.len() > 0 && !is_ws(x[0])) ==> trim(x).len() > 0 && trim(x)[0] == x[0],
{
    let y = trim_start(x);
    lemma_trim_start_shape(x);
    lemma_trim_end_shape(y);
    if trim(x).len() > 0 {
        assert(trim(x)[0] == y[0]);
    }
}

proof fn lemma_hex_run_stop(a: Seq<char>, b: Seq<char>)
    requires
        b.len() > 0,
        !is_hex_char(b[0]),
    ensures
        hex_run(a + b) == hex_run(a),
    decreases a.len(),
{
    if a.len() == 0 {
        assert(a + b =~= b);
    } else {
        assert((a + b)[0] == a[0]);
        if is_hex_char(a[0]) {
            assert((a + b).drop_first() =~= a.drop_first() + b);
            lemma_hex_run_stop(a.drop_first(), b);
        }
    }
}

/// Where a value ends before white space, its inline comments are those
/// of the longer text.
proof fn lemma_comment_prefix(v: Seq<char>, b: Seq<char>, j: int)
    requires
        b.len() > 0,
        is_ws(b[0]),
        0 <= j < v.len(),
    ensures
        comment_starts_at(v + b, j) == comment_starts_at(v, j),
{
    let r = v + b;
    assert(!is_hex_char(b[0]));
    lemma_hex_run_stop(v.skip(j + 1), b);
    assert(r.skip(j + 1) =~= v.skip(j + 1) + b);
    assert(r[j] == v[j]);
    if j > 0 {
        assert(r[j - 1] == v[j - 1]);
    }
}

proof fn lemma_no_char_sub(s: Seq<char>, c: char, a: int, b: int)
    requires
        !s.contains(c),
        0 <= a <= b <= s.len(),
    ensures
        !s.subrange(a, b).contains(c),
{
    if s.subrange(a, b).contains(c) {
        let j = choose|j: int| 0 <= j < s.subrange(a, b).len() && s.subrange(a, b)[j] == c;
        assert(s[a + j] == c);
    }
}

/// The parts of a `key=value` line as the writer writes an entry: a key
/// with no white space at its ends, no `=` and no newline, not starting
/// like a comment; a value with no white space at its ends, no newline
/// and no inline comment; an inline comment starting with `#`, not read
/// as a colour, with no white space at its end and no newline, only after
/// a value that is not empty.
pub open spec fn kv_parts_reread(k: Seq<char>, v: Seq<char>, c: Option<Seq<char>>) -> bool {
    &&& k.len() > 0
    &&& !is_ws(k[0])
    &&& !is_ws(k.last())
    &&& !k.contains('=')
    &&& !k.contains('\n')
    &&& k[0] != '#'
    &&& k[0] != ';'
    &&& value_reads_back(v)
    &&& match c {
        Some(x) => {
            &&& v.len() > 0
            &&& x.len() > 0
            &&& x[0] == '#'
            &&& !is_ws(x.last())
            &&& !x.contains('\n')
            &&& hex_run(x.skip(1)) != 6
            &&& hex_run(x.skip(1)) != 8
        },
        None => true,
    }
}

/// The line (without its newline) an entry is written as.
pub open spec fn written_line(e: EntryV) -> Seq<char> {
    if e.key.len() == 0 {
        match e.comment {
            Some(c) => c,
            None => Seq::empty(),
        }
    } else {
        match e.comment {
            Some(c) => e.key + seq!['='] + e.value + seq![' '] + c,
            None => e.key + seq!['='] + e.value,
        }
    }
}

/// Reading back the line of an entry whose parts read back.
#[verifier::spinoff_prover]
#[verifier::rlimit(40)]
proof fn lemma_kv_line_rereads(e: EntryV)
    requires
        kv_parts_reread(e.key, e.value, e.comment),
    ensures
        ({
            let l = written_line(e);
            &&& trim(l) == l
            &&& !l.contains('\n')
            &&& !(l.len() == 0 || l[0] == '#' || l[0] == ';')
            &&& l.contains('=')
            &&& kv_entry(l) == e
        }),
{
    let k = e.key;
    let v = e.value;
    let l = written_line(e);
    let kl = k.len() as int;
    assert(l[0] == k[0]);
    assert(l[kl] == '=');
    assert(l.take(kl) =~= k);
    let rest = l.skip(kl + 1);
    match e.comment {
        Some(c) => {
            assert(l.last() == c.last());
            assert(rest =~= v + seq![' '] + c);
        },
        None => {
            if v.len() > 0 {
                assert(l.last() == v.last());
            } else {
                assert(l.last() == '=');
            }
            assert(rest =~= v);
        },
    }
    lemma_trim_plain(l);
    assert(!l.contains('\n')) by {
        if l.contains('\n') {
            let j = choose|j: int| 0 <= j < l.len() && l[j] == '\n';
            if j < kl {
                assert(k[j] == '\n');
            } else if j > kl {
                if j < kl + 1 + v.len() {
                    assert(v[j - kl - 1] == '\n');
                } else if j > kl + 1 + v.len() {
                    let c = e.comment->0;
                    assert(c[j - kl - 2 - v.len()] == '\n');
                }
            }
        }
    }
    crate::text::lemma_first_index(l, '=');
    assert(is_first_index(l, '=', kl)) by {
        assert forall|j: int| 0 <= j < kl implies l[j] != '=' by {
            assert(l[j] == k[j]);
        }
    }
    lemma_trim_plain(k);
    match e.comment {
        Some(c) => {
            let vl = v.len() as int;
            assert(rest[0] == v[0]);
            assert(rest.last() == c.last());
            lemma_trim_plain(rest);
            assert(comment_starts_at(rest, vl + 1)) by {
                assert(rest[vl + 1] == '#');
                assert(rest[vl] == ' ');
                assert(rest.skip(vl + 2) =~= c.skip(1));
            }
            assert forall|j: int| 0 <= j < vl + 1 implies !comment_starts_at(rest, j) by {
                if j < vl {
                    lemma_comment_prefix(v, seq![' '] + c, j);
                    assert(v + (seq![' '] + c) =~= rest);
                }
            }
            assert(is_first_comment(rest, vl + 1));
            let i = choose|i: int| is_first_comment(rest, i);
            crate::ini::parser::lemma_first_comment_unique(rest, i, vl + 1);
            assert(rest.take(vl + 1) =~= v.push(' '));
            assert(trim_end(v.push(' ')) == trim_end(v)) by {
                assert(v.push(' ').drop_last() =~= v);
            }
            lemma_trim_plain(v);
            assert(trim_end(v) == v) by {
                assert(trim_start(v) == v);
            }
            assert(rest.skip(vl + 1) =~= c);
            lemma_trim_plain(c);
            assert(split_comment(rest) == (v, Some(c)));
        },
        None => {
            lemma_trim_plain(v);
            assert(!(exists|i: int| is_first_comment(v, i)));
            assert(split_comment(v) == (v, Option::<Seq<char>>::None));
        },
    }
    assert(kv_entry(l) == e);
}

/// A line with no newline that opens no section and is read as no entry
/// inside a section: blank, a comment, or without `=`.
pub open spec fn loose_line(l: Seq<char>) -> bool {
    let t = trim(l);
    &&& !l.contains('\n')
    &&& !is_header_line(t)
    &&& (t.len() == 0 || t[0] == '#' || t[0] == ';' || !t.contains('='))
}

/// An entry as the parser makes it: one with a key is written as a
/// `key=value` line that reads back as the same entry; one without a key
/// is written as a loose line.
pub open spec fn entry_rereads(e: EntryV) -> bool {
    let l = written_line(e);
    if e.key.len() == 0 {
        loose_line(l)
    } else {
        &&& trim(l) == l
        &&& !l.contains('\n')
        &&& !is_header_line(l)
        &&& !(l.len() == 0 || l[0] == '#' || l[0] == ';')
        &&& l.contains('=')
        &&& kv_entry(l) == e
    }
}

proof fn lemma_no_char_concat(a: Seq<char>, b: Seq<char>, c: char)
    requires
        !a.contains(c),
        !b.contains(c),
    ensures
        !(a + b).contains(c),
{
    if (a + b).contains(c) {
        let j = choose|j: int| 0 <= j < (a + b).len() && (a + b)[j] == c;
        if j < a.len() {
            assert(a[j] == c);
        } else {
            assert(b[j - a.len()] == c);
        }
    }
}

proof fn lemma_trim_end_dropped(y: Seq<char>)
    ensures
        forall|j: int| trim_end(y).len() <= j < y.len() ==> is_ws(#[trigger] y[j]),
    decreases y.len(),
{
    if y.len() > 0 && is_ws(y.last()) {
        let z = y.drop_last();
        lemma_trim_end_dropped(z);
        assert forall|j: int| trim_end(y).len() <= j < y.len() implies is_ws(#[trigger] y[j]) by {
            if j < z.len() {
                assert(y[j] == z[j]);
            }
        }
    }
}

/// The value and inline comment that the parser splits off a trimmed
/// text read back from the written line.
proof fn lemma_parsed_comment(r: Seq<char>, i: int)
    requires
        r.len() > 0,
        !is_ws(r[0]),
        !is_ws(r.last()),
        !r.contains('\n'),
        is_first_comment(r, i),
    ensures
        ({
            let v = trim_end(r.take(i));
            let c = trim(r.skip(i));
            &&& v.len() > 0
            &&& value_reads_back(v)
            &&& c.len() > 0
            &&& c[0] == '#'
            &&& !is_ws(c.last())
            &&& !c.contains('\n')
            &&& hex_run(c.skip(1)) != 6
            &&& hex_run(c.skip(1)) != 8
            &&& !r.contains(']') ==> !v.contains(']') && !c.contains(']')
        }),
{
    let x = r.take(i);
    let v = trim_end(x);
    let c0 = r.skip(i);
    assert(c0[0] == '#');
    assert(c0.last() == r.last());
    lemma_trim_plain(c0);
    let c = trim(c0);
    assert(c.skip(1) =~= r.skip(i + 1));
    lemma_trim_end_shape(x);
    lemma_trim_end_dropped(x);
    assert(x[0] == r[0]);
    assert(x.last() == ' ');
    assert(v.len() < i) by {
        assert(x.drop_last().len() == i - 1);
        lemma_trim_end_shape(x.drop_last());
    }
    assert(v[0] == r[0]) by {
        assert(v == x.take(v.len() as int));
    }
    let b = r.skip(v.len() as int);
    assert(b[0] == x[v.len() as int]);
    assert(is_ws(b[0]));
    assert(v + b =~= r) by {
        assert(v == x.take(v.len() as int));
    }
    assert forall|j: int| !comment_starts_at(v, j) by {
        if 0 <= j < v.len() {
            lemma_comment_prefix(v, b, j);
            assert(!comment_starts_at(r, j));
        }
    }
    assert(v == r.subrange(0, v.len() as int)) by {
        assert(v == x.take(v.len() as int));
    }
    lemma_no_char_sub(r, '\n', 0, v.len() as int);
    lemma_no_char_sub(r, '\n', i, r.len() as int);
    assert(c0 =~= r.subrange(i, r.len() as int));
    if !r.contains(']') {
        lemma_no_char_sub(r, ']', 0, v.len() as int);
        lemma_no_char_sub(r, ']', i, r.len() as int);
    }
}

/// Every entry the parser reads from a `key=value` line rereads.
proof fn lemma_parsed_kv_entry(l: Seq<char>)
    requires
        !l.contains('\n'),
        !is_header_line(trim(l)),
        !(trim(l).len() == 0 || trim(l)[0] == '#' || trim(l)[0] == ';'),
        trim(l).contains('='),
    ensures
        entry_rereads(kv_entry(trim(l))),
{
    let t = trim(l);
    let e = kv_entry(t);
    lemma_trim_avoids(l, '\n');
    lemma_trim_shape(l);
    crate::text::lemma_first_index(t, '=');
    let eq = first_index(t, '=');
    let kt = t.take(eq);
    let rest = t.skip(eq + 1);
    let r = trim(rest);
    lemma_no_char_sub(t, '\n', eq + 1, t.len() as int);
    assert(rest =~= t.subrange(eq + 1, t.len() as int));
    lemma_trim_avoids(rest, '\n');
    lemma_trim_shape(rest);
    if !t.contains(']') {
        lemma_no_char_sub(t, ']', eq + 1, t.len() as int);
        lemma_trim_avoids(rest, ']');
    }
    if exists|i: int| is_first_comment(r, i) {
        let i = choose|i: int| is_first_comment(r, i);
        assert(r.len() > 0);
        lemma_parsed_comment(r, i);
    } else {
        assert forall|i: int| !comment_starts_at(r, i) by {
            if comment_starts_at(r, i) {
                crate::ini::parser::lemma_first_comment(r, i);
            }
        }
    }
    if e.key.len() == 0 {
        match e.comment {
            Some(c) => {
                lemma_trim_plain(c);
                assert(trim(c) == c);
            },
            None => {
                assert(trim(Seq::<char>::empty()) =~= Seq::<char>::empty());
            },
        }
    } else {
        assert(eq > 0) by {
            if eq == 0 {
                assert(kt =~= Seq::<char>::empty());
                assert(trim(kt) =~= Seq::<char>::empty());
            }
        }
        assert(kt[0] == t[0]);
        lemma_trim_shape(kt);
        assert(!kt.contains('=')) by {
            if kt.contains('=') {
                let j = choose|j: int| 0 <= j < kt.len() && kt[j] == '=';
                assert(t[j] == '=');
            }
        }
        lemma_no_char_sub(t, '\n', 0, eq);
        assert(kt =~= t.subrange(0, eq));
        lemma_trim_avoids(kt, '=');
        lemma_trim_avoids(kt, '\n');
        assert(kv_parts_reread(e.key, e.value, e.comment));
        lemma_kv_line_rereads(e);
        let w = written_line(e);
        assert(w[0] == e.key[0]);
        if t[0] == '[' {
            assert(!t.contains(']'));
            lemma_no_char_sub(t, ']', 0, eq);
            lemma_trim_avoids(kt, ']');
            let eqs = seq!['='];
            assert(!eqs.contains(']')) by {
                if eqs.contains(']') {
                    assert(eqs[0] == '=');
                }
            }
            lemma_no_char_concat(e.key, eqs, ']');
            lemma_no_char_concat(e.key + eqs, e.value, ']');
            match e.comment {
                Some(c) => {
                    let sp = seq![' '];
                    assert(!sp.contains(']')) by {
                        if sp.contains(']') {
                            assert(sp[0] == ' ');
                        }
                    }
                    lemma_no_char_concat(e.key + eqs + e.value, sp, ']');
                    lemma_no_char_concat(e.key + eqs + e.value + sp, c, ']');
                },
                None => {},
            }
        }
    }
}

/// A section as the parser makes it: a name that reads back, loose lines
/// before it, entries that reread.
pub open spec fn parsed_shape_section(s: SectionV) -> bool {
    &&& name_reads_back(s.name)
    &&& forall|i: int| 0 <= i < s.preceding_lines.len() ==> loose_line(#[trigger] s.preceding_lines[i])
    &&& forall|j: int| 0 <= j < s.entries.len() ==> entry_rereads(#[trigger] s.entries[j])
}

/// A document as the parser makes it.
pub open spec fn parsed_shape_doc(d: DocV) -> bool {
    &&& forall|i: int|
        0 <= i < d.header_lines.len() ==> !(#[trigger] d.header_lines[i]).contains('\n')
            && !is_header_line(trim(d.header_lines[i]))
    &&& forall|i: int| 0 <= i < d.sections.len() ==> parsed_shape_section(#[trigger] d.sections[i])
    &&& forall|i: int| 0 <= i < d.trailing_lines.len() ==> loose_line(#[trigger] d.trailing_lines[i])
}

spec fn shape_state(st: ParseState) -> bool {
    &&& forall|i: int|
        0 <= i < st.header.len() ==> !(#[trigger] st.header[i]).contains('\n') && !is_header_line(
            trim(st.header[i]),
        )
    &&& forall|i: int| 0 <= i < st.sections.len() ==> parsed_shape_section(#[trigger] st.sections[i])
    &&& st.current is Some ==> parsed_shape_section(st.current->0)
    &&& forall|i: int| 0 <= i < st.pending.len() ==> loose_line(#[trigger] st.pending[i])
    &&& st.current is None ==> st.sections.len() == 0
}

proof fn lemma_step_shape(st: ParseState, l: Seq<char>)
    requires
        shape_state(st),
        !l.contains('\n'),
    ensures
        shape_state(parse_step(st, l)),
{
    let t = trim(l);
    let st2 = parse_step(st, l);
    lemma_trim_avoids(l, '\n');
    if is_header_line(t) {
        crate::text::lemma_first_index(t, ']');
        let n = header_name(t);
        assert(!n.contains(']')) by {
            if n.contains(']') {
                let j = choose|j: int| 0 <= j < n.len() && n[j] == ']';
                assert(t[j + 1] == ']');
            }
        }
        assert(!n.contains('\n')) by {
            if n.contains('\n') {
                let j = choose|j: int| 0 <= j < n.len() && n[j] == '\n';
                assert(t[j + 1] == '\n');
            }
        }
        let cs = closed_sections(st);
        assert forall|i: int| 0 <= i < cs.len() implies parsed_shape_section(#[trigger] cs[i]) by {
            if i < st.sections.len() {
                assert(cs[i] == st.sections[i]);
            }
        }
    } else if st.current is None {
        if st.sections.len() == 0 {
            assert forall|i: int| 0 <= i < st2.header.len() implies !(#[trigger] st2.header[i]).contains('\n')
                && !is_header_line(trim(st2.header[i])) by {
                if i < st.header.len() {
                    assert(st2.header[i] == st.header[i]);
                }
            }
        }
    } else if t.len() == 0 || t[0] == '#' || t[0] == ';' || !t.contains('=') {
        assert(loose_line(l));
        assert forall|i: int| 0 <= i < st2.pending.len() implies loose_line(#[trigger] st2.pending[i]) by {
            if i < st.pending.len() {
                assert(st2.pending[i] == st.pending[i]);
            }
        }
    } else {
        lemma_parsed_kv_entry(l);
        let c = st.current->0;
        let com = st.pending.map_values(|x: Seq<char>| comment_entry(x));
        let es = c.entries + com.push(kv_entry(t));
        assert(st2.current->0.entries == es);
        assert forall|j: int| 0 <= j < es.len() implies entry_rereads(#[trigger] es[j]) by {
            if j < c.entries.len() {
                assert(es[j] == c.entries[j]);
            } else if j < c.entries.len() + com.len() {
                let x = st.pending[j - c.entries.len()];
                assert(es[j] == comment_entry(x));
                assert(loose_line(x));
                assert(written_line(comment_entry(x)) == x);
            } else {
                assert(es[j] == kv_entry(t));
            }
        }
    }
}

proof fn lemma_parse_shape(ls: Seq<Seq<char>>)
    requires
        forall|i: int| 0 <= i < ls.len() ==> !(#[trigger] ls[i]).contains('\n'),
    ensures
        shape_state(parse_lines(ls)),
    decreases ls.len(),
{
    if ls.len() > 0 {
        let p = ls.drop_last();
        assert forall|i: int| 0 <= i < p.len() implies !(#[trigger] p[i]).contains('\n') by {
            assert(p[i] == ls[i]);
        }
        lemma_parse_shape(p);
        assert(!ls[ls.len() - 1].contains('\n'));
        lemma_step_shape(parse_lines(p), ls.last());
    }
}

proof fn lemma_lines_no_newline(s: Seq<char>)
    ensures
        forall|i: int| 0 <= i < lines(s).len() ==> !(#[trigger] lines(s)[i]).contains('\n'),
{
    let ps = split(s, '\n');
    lemma_split_nonempty(s, '\n');
    lemma_split_pieces_plain(s, '\n');
    let n = ps.len() as int;
    assert forall|i: int| 0 <= i < lines(s).len() implies !(#[trigger] lines(s)[i]).contains('\n') by {
        if i < n - 1 {
            let p = ps[i];
            assert(lines(s)[i] == strip_cr(p));
            assert(!p.contains('\n'));
            if p.len() > 0 && p.last() == '\r' {
                lemma_no_char_sub(p, '\n', 0, p.len() - 1);
                assert(p.drop_last() =~= p.subrange(0, p.len() - 1));
            }
        } else {
            assert(lines(s)[i] == ps[n - 1]);
        }
    }
}

/// The parser makes documents of its own shape.
pub proof fn lemma_parsed_shape(s: Seq<char>)
    ensures
        parsed_shape_doc(spec_parse_ini(s)),
{
    lemma_lines_no_newline(s);
    lemma_parse_shape(lines(s));
    let st = parse_lines(lines(s));
    let cs = closed_sections(st);
    assert forall|i: int| 0 <= i < cs.len() implies parsed_shape_section(#[trigger] cs[i]) by {
        if i < st.sections.len() {
            assert(cs[i] == st.sections[i]);
        }
    }
}

/// The entries that have a key, in order.
pub open spec fn keyed_entries(es: Seq<EntryV>) -> Seq<EntryV>
    decreases es.len(),
{
    if es.len() == 0 {
        es
    } else if es.last().key.len() == 0 {
        keyed_entries(es.drop_last())
    } else {
        keyed_entries(es.drop_last()).push(es.last())
    }
}

/// The same sections, by name and keyed entries, in the same order.
pub open spec fn same_keyed_sections(a: Seq<SectionV>, b: Seq<SectionV>) -> bool {
    &&& a.len() == b.len()
    &&& forall|i: int|
        0 <= i < a.len() ==> (#[trigger] a[i]).name == b[i].name && keyed_entries(a[i].entries)
            == keyed_entries(b[i].entries)
}

proof fn lemma_keyed_append(a: Seq<EntryV>, b: Seq<EntryV>)
    ensures
        keyed_entries(a + b) == keyed_entries(a) + keyed_entries(b),
    decreases b.len(),
{
    if b.len() == 0 {
        assert(a + b =~= a);
        assert(keyed_entries(a) + keyed_entries(b) =~= keyed_entries(a));
    } else {
        lemma_keyed_append(a, b.drop_last());
        assert((a + b).drop_last() =~= a + b.drop_last());
        assert((a + b).last() == b.last());
        assert(keyed_entries(a + b) =~= keyed_entries(a) + keyed_entries(b));
    }
}

proof fn lemma_keyed_comments(p: Seq<Seq<char>>)
    ensures
        keyed_entries(p.map_values(|x: Seq<char>| comment_entry(x))) == Seq::<EntryV>::empty(),
    decreases p.len(),
{
    let m = p.map_values(|x: Seq<char>| comment_entry(x));
    if p.len() > 0 {
        lemma_keyed_comments(p.drop_last());
        assert(m.drop_last() =~= p.drop_last().map_values(|x: Seq<char>| comment_entry(x)));
        assert(m.last().key =~= Seq::<char>::empty());
    } else {
        assert(m =~= Seq::<EntryV>::empty());
    }
}

proof fn lemma_trim_start_push_ws(m: Seq<char>, x: char)
    requires
        is_ws(x),
    ensures
        trim_start(m.push(x)) == (if trim_start(m).len() > 0 {
            trim_start(m).push(x)
        } else {
            Seq::<char>::empty()
        }),
    decreases m.len(),
{
    if m.len() == 0 {
        let e = Seq::<char>::empty();
        assert(m.push(x).drop_first() =~= e);
        assert(trim_start(e) == e);
        assert(m.push(x)[0] == x);
        assert(trim_start(m.push(x)) == trim_start(m.push(x).drop_first()));
        assert(trim_start(m) == e);
    } else {
        assert(m.push(x)[0] == m[0]);
        if is_ws(m[0]) {
            assert(m.push(x).drop_first() =~= m.drop_first().push(x));
            lemma_trim_start_push_ws(m.drop_first(), x);
        }
    }
}

/// Dropping a final carriage return leaves the trimmed line alone.
proof fn lemma_trim_strip_cr(l: Seq<char>)
    ensures
        trim(strip_cr(l)) == trim(l),
        !l.contains('\n') ==> !strip_cr(l).contains('\n'),
{
    if l.len() > 0 && l.last() == '\r' {
        let m = l.drop_last();
        assert(m.push('\r') =~= l);
        lemma_trim_start_push_ws(m, '\r');
        let y = trim_start(m);
        if y.len() > 0 {
            assert(y.push('\r').drop_last() =~= y);
        }
        if !l.contains('\n') {
            lemma_no_char_sub(l, '\n', 0, l.len() - 1);
            assert(m =~= l.subrange(0, l.len() - 1));
        }
    }
}

/// A loose line changes neither the sections nor the open one.
proof fn lemma_step_loose(st: ParseState, l: Seq<char>)
    requires
        loose_line(l),
    ensures
        parse_step(st, l).sections == st.sections,
        parse_step(st, l).current == st.current,
{
}

proof fn lemma_parse_loose(ls: Seq<Seq<char>>, pre: Seq<Seq<char>>)
    requires
        forall|i: int| 0 <= i < pre.len() ==> loose_line(#[trigger] pre[i]),
    ensures
        parse_lines(ls + pre).sections == parse_lines(ls).sections,
        parse_lines(ls + pre).current == parse_lines(ls).current,
    decreases pre.len(),
{
    if pre.len() == 0 {
        assert(ls + pre =~= ls);
    } else {
        let q = pre.drop_last();
        assert forall|i: int| 0 <= i < q.len() implies loose_line(#[trigger] q[i]) by {
            assert(q[i] == pre[i]);
        }
        lemma_parse_loose(ls, q);
        assert(loose_line(pre[pre.len() - 1]));
        assert(ls + pre =~= (ls + q).push(pre.last()));
        lemma_parse_push(ls + q, pre.last());
        lemma_step_loose(parse_lines(ls + q), pre.last());
    }
}

/// The lines an entry is read back from.
spec fn reread_lines(es: Seq<EntryV>) -> Seq<Seq<char>> {
    es.map_values(|e: EntryV| strip_cr(written_line(e)))
}

proof fn lemma_reread_entry_line(e: EntryV)
    requires
        entry_rereads(e),
    ensures
        e.key.len() == 0 ==> loose_line(strip_cr(written_line(e))),
        e.key.len() > 0 ==> strip_cr(written_line(e)) == written_line(e),
{
    let l = written_line(e);
    lemma_trim_strip_cr(l);
    if e.key.len() > 0 {
        lemma_trim_shape(l);
    }
}

proof fn lemma_reread_entries(ls: Seq<Seq<char>>, s: SectionV, k: int)
    requires
        parsed_shape_section(s),
        0 <= k <= s.entries.len(),
        parse_lines(ls).current is Some,
    ensures
        ({
            let st = parse_lines(ls);
            let st2 = parse_lines(ls + reread_lines(s.entries.take(k)));
            &&& st2.current is Some
            &&& st2.current->0.name == st.current->0.name
            &&& keyed_entries(st2.current->0.entries) == keyed_entries(st.current->0.entries)
                + keyed_entries(s.entries.take(k))
            &&& st2.sections == st.sections
        }),
    decreases k,
{
    let st = parse_lines(ls);
    if k == 0 {
        assert(reread_lines(s.entries.take(0)) =~= Seq::<Seq<char>>::empty());
        assert(ls + reread_lines(s.entries.take(0)) =~= ls);
        assert(s.entries.take(0) =~= Seq::<EntryV>::empty());
        assert(keyed_entries(st.current->0.entries) + keyed_entries(Seq::<EntryV>::empty())
            =~= keyed_entries(st.current->0.entries));
    } else {
        lemma_reread_entries(ls, s, k - 1);
        let p = s.entries.take(k - 1);
        let es = s.entries.take(k);
        let e = s.entries[k - 1];
        assert(es =~= p.push(e));
        assert(es.drop_last() =~= p);
        assert(es.last() == e);
        let l = strip_cr(written_line(e));
        assert(reread_lines(es) =~= reread_lines(p).push(l));
        let ls1 = ls + reread_lines(p);
        assert(ls + reread_lines(es) =~= ls1.push(l));
        lemma_parse_push(ls1, l);
        let st1 = parse_lines(ls1);
        assert(entry_rereads(s.entries[k - 1]));
        lemma_reread_entry_line(e);
        if e.key.len() == 0 {
            lemma_step_loose(st1, l);
        } else {
            let w = written_line(e);
            let c = st1.current->0;
            let com = st1.pending.map_values(|x: Seq<char>| comment_entry(x));
            assert(parse_step(st1, w).current->0.entries == c.entries + com.push(e));
            lemma_keyed_append(c.entries, com.push(e));
            lemma_keyed_comments(st1.pending);
            assert(com.push(e).drop_last() =~= com);
            assert(keyed_entries(com.push(e)) =~= seq![e]);
            assert(keyed_entries(st.current->0.entries) + keyed_entries(p).push(e) =~= keyed_entries(
                st.current->0.entries,
            ) + keyed_entries(es));
        }
    }
}

spec fn reread_section_lines(s: SectionV) -> Seq<Seq<char>> {
    s.preceding_lines.map_values(|l: Seq<char>| strip_cr(l)) + seq![header_line(s.name)] + reread_lines(
        s.entries,
    )
}

proof fn lemma_reread_section(ls: Seq<Seq<char>>, s: SectionV)
    requires
        parsed_shape_section(s),
    ensures
        ({
            let st = parse_lines(ls);
            let st2 = parse_lines(ls + reread_section_lines(s));
            &&& st2.current is Some
            &&& st2.current->0.name == s.name
            &&& keyed_entries(st2.current->0.entries) == keyed_entries(s.entries)
            &&& st2.sections == closed_sections(st)
        }),
{
    let st = parse_lines(ls);
    let pre = s.preceding_lines.map_values(|l: Seq<char>| strip_cr(l));
    let h = header_line(s.name);
    assert forall|i: int| 0 <= i < pre.len() implies loose_line(#[trigger] pre[i]) by {
        let l = s.preceding_lines[i];
        assert(loose_line(l));
        lemma_trim_strip_cr(l);
    }
    lemma_parse_loose(ls, pre);
    let st1 = parse_lines(ls + pre);
    assert(closed_sections(st1) == closed_sections(st));
    lemma_parse_push(ls + pre, h);
    lemma_step_header_pending(st1, s.name);
    let ls2 = (ls + pre).push(h);
    let n = s.entries.len() as int;
    lemma_reread_entries(ls2, s, n);
    assert(s.entries.take(n) =~= s.entries);
    assert(ls + reread_section_lines(s) =~= ls2 + reread_lines(s.entries));
    assert(keyed_entries(Seq::<EntryV>::empty()) + keyed_entries(s.entries) =~= keyed_entries(s.entries));
}

spec fn reread_sections_lines(ss: Seq<SectionV>) -> Seq<Seq<char>>
    decreases ss.len(),
{
    if ss.len() == 0 {
        Seq::empty()
    } else {
        reread_sections_lines(ss.drop_last()) + reread_section_lines(ss.last())
    }
}

proof fn lemma_reread_sections(hl: Seq<Seq<char>>, ss: Seq<SectionV>)
    requires
        forall|i: int| 0 <= i < hl.len() ==> !is_header_line(trim(#[trigger] hl[i])),
        forall|i: int| 0 <= i < ss.len() ==> parsed_shape_section(#[trigger] ss[i]),
    ensures
        same_keyed_sections(closed_sections(parse_lines(hl + reread_sections_lines(ss))), ss),
    decreases ss.len(),
{
    if ss.len() == 0 {
        assert(hl + reread_sections_lines(ss) =~= hl);
        lemma_parse_header_lines(hl);
    } else {
        let p = ss.drop_last();
        let s = ss.last();
        assert forall|i: int| 0 <= i < p.len() implies parsed_shape_section(#[trigger] p[i]) by {
            assert(p[i] == ss[i]);
        }
        assert(parsed_shape_section(ss[ss.len() - 1]));
        lemma_reread_sections(hl, p);
        let ls = hl + reread_sections_lines(p);
        lemma_reread_section(ls, s);
        assert(hl + reread_sections_lines(ss) =~= ls + reread_section_lines(s));
        let st = parse_lines(ls);
        let st2 = parse_lines(ls + reread_section_lines(s));
        let cs = closed_sections(st2);
        assert(cs == closed_sections(st).push(st2.current->0));
        assert forall|i: int| 0 <= i < cs.len() implies (#[trigger] cs[i]).name == ss[i].name
            && keyed_entries(cs[i].entries) == keyed_entries(ss[i].entries) by {
            if i < p.len() {
                assert(cs[i] == closed_sections(st)[i]);
                assert(ss[i] == p[i]);
            }
        }
    }
}

spec fn written_section_lines(s: SectionV) -> Seq<Seq<char>> {
    s.preceding_lines + seq![header_line(s.name)] + s.entries.map_values(|e: EntryV| written_line(e))
}

spec fn written_sections_lines(ss: Seq<SectionV>) -> Seq<Seq<char>>
    decreases ss.len(),
{
    if ss.len() == 0 {
        Seq::empty()
    } else {
        written_sections_lines(ss.drop_last()) + written_section_lines(ss.last())
    }
}

proof fn lemma_written_entries_text(es: Seq<EntryV>)
    ensures
        entries_text(es) == lines_text(es.map_values(|e: EntryV| written_line(e))),
    decreases es.len(),
{
    if es.len() > 0 {
        let m = es.map_values(|e: EntryV| written_line(e));
        lemma_written_entries_text(es.drop_last());
        assert(m.drop_last() =~= es.drop_last().map_values(|e: EntryV| written_line(e)));
        let e = es.last();
        assert(entry_text(e) =~= written_line(e) + seq!['\n']);
    }
}

proof fn lemma_written_sections(ss: Seq<SectionV>)
    requires
        forall|i: int| 0 <= i < ss.len() ==> parsed_shape_section(#[trigger] ss[i]),
    ensures
        lines_text(written_sections_lines(ss)) == sections_text(ss),
        written_sections_lines(ss).map_values(|l: Seq<char>| strip_cr(l)) == reread_sections_lines(ss),
        forall|k: int| 0 <= k < written_sections_lines(ss).len() ==> !(#[trigger] written_sections_lines(ss)[k]).contains('\n'),
    decreases ss.len(),
{
    if ss.len() > 0 {
        let s = ss.last();
        let p = ss.drop_last();
        assert(parsed_shape_section(ss[ss.len() - 1]));
        assert forall|i: int| 0 <= i < p.len() implies parsed_shape_section(#[trigger] p[i]) by {
            assert(p[i] == ss[i]);
        }
        lemma_written_sections(p);
        let h = header_line(s.name);
        let hl = seq![h];
        let el = s.entries.map_values(|e: EntryV| written_line(e));
        let wl = written_section_lines(s);
        lemma_lines_text_append(written_sections_lines(p), wl);
        lemma_lines_text_append(s.preceding_lines + hl, el);
        lemma_lines_text_append(s.preceding_lines, hl);
        lemma_written_entries_text(s.entries);
        assert(hl.drop_last() =~= Seq::<Seq<char>>::empty());
        assert(lines_text(Seq::<Seq<char>>::empty()) =~= Seq::<char>::empty());
        assert(hl.last() == h);
        assert(lines_text(hl) =~= h + seq!['\n']);
        assert(section_text(s) =~= lines_text(wl));
        assert(h.last() == ']');
        assert(strip_cr(h) == h);
        assert(wl.map_values(|l: Seq<char>| strip_cr(l)) =~= reread_section_lines(s));
        let wp = written_sections_lines(p);
        assert(written_sections_lines(ss) == wp + wl);
        assert((wp + wl).map_values(|l: Seq<char>| strip_cr(l)) =~= wp.map_values(|l: Seq<char>| strip_cr(l))
            + wl.map_values(|l: Seq<char>| strip_cr(l)));
        assert(!h.contains('\n')) by {
            if h.contains('\n') {
                let j = choose|j: int| 0 <= j < h.len() && h[j] == '\n';
                assert(s.name[j - 1] == '\n');
            }
        }
        assert forall|k: int| 0 <= k < wl.len() implies !(#[trigger] wl[k]).contains('\n') by {
            let np = s.preceding_lines.len() as int;
            if k < np {
                assert(wl[k] == s.preceding_lines[k]);
                assert(loose_line(s.preceding_lines[k]));
            } else if k == np {
                assert(wl[k] == h);
            } else {
                let e = s.entries[k - np - 1];
                assert(wl[k] == written_line(e));
                assert(entry_rereads(s.entries[k - np - 1]));
            }
        }
        assert forall|k: int| 0 <= k < (wp + wl).len() implies !(#[trigger] (wp + wl)[k]).contains('\n') by {
            if k < wp.len() {
                assert((wp + wl)[k] == wp[k]);
            } else {
                assert((wp + wl)[k] == wl[k - wp.len()]);
            }
        }
    } else {
        assert(written_sections_lines(ss).map_values(|l: Seq<char>| strip_cr(l)) =~= reread_sections_lines(ss));
    }
}

proof fn lemma_lines_of_text_cr(ls: Seq<Seq<char>>)
    requires
        forall|i: int| 0 <= i < ls.len() ==> !(#[trigger] ls[i]).contains('\n'),
    ensures
        lines(lines_text(ls)) == ls.map_values(|l: Seq<char>| strip_cr(l)),
{
    lemma_split_lines_text(ls);
    let ps = split(lines_text(ls), '\n');
    let n = ps.len() as int;
    assert(ps.take(n - 1) =~= ls);
    assert(lines(lines_text(ls)) =~= ls.map_values(|l: Seq<char>| strip_cr(l)));
}

/// Writing a document of the parser's shape and reading the text back
/// gives its sections again: the same names, in order, with the same
/// entries that have a key.
pub proof fn lemma_parsed_doc_sections(d: DocV)
    requires
        parsed_shape_doc(d),
    ensures
        same_keyed_sections(spec_parse_ini(doc_text(d)).sections, d.sections),
{
    let hl = d.header_lines;
    let ss = d.sections;
    let tl = d.trailing_lines;
    let ws = written_sections_lines(ss);
    lemma_written_sections(ss);
    let all = hl + ws + tl;
    lemma_lines_text_append(hl, ws);
    lemma_lines_text_append(hl + ws, tl);
    assert(lines_text(all) == doc_text(d));
    assert forall|k: int| 0 <= k < all.len() implies !(#[trigger] all[k]).contains('\n') by {
        if k < hl.len() {
            assert(all[k] == hl[k]);
        } else if k < hl.len() + ws.len() {
            assert(all[k] == ws[k - hl.len()]);
        } else {
            assert(all[k] == tl[k - hl.len() - ws.len()]);
            assert(loose_line(tl[k - hl.len() - ws.len()]));
        }
    }
    lemma_lines_of_text_cr(all);
    let hl2 = hl.map_values(|l: Seq<char>| strip_cr(l));
    let tl2 = tl.map_values(|l: Seq<char>| strip_cr(l));
    let rs = reread_sections_lines(ss);
    assert(all.map_values(|l: Seq<char>| strip_cr(l)) =~= hl2 + rs + tl2);
    assert forall|i: int| 0 <= i < hl2.len() implies !is_header_line(trim(#[trigger] hl2[i])) by {
        lemma_trim_strip_cr(hl[i]);
    }
    lemma_reread_sections(hl2, ss);
    assert forall|i: int| 0 <= i < tl2.len() implies loose_line(#[trigger] tl2[i]) by {
        assert(loose_line(tl[i]));
        lemma_trim_strip_cr(tl[i]);
    }
    lemma_parse_loose(hl2 + rs, tl2);
    let st = parse_lines(hl2 + rs);
    let st2 = parse_lines(hl2 + rs + tl2);
    assert(closed_sections(st2) == closed_sections(st));
}

/// The value of the first entry with `key`.
spec fn entry_value(es: Seq<EntryV>, key: Seq<char>) -> Option<Seq<char>> {
    let j = first_entry(es, key);
    if j < 0 {
        None
    } else {
        Some(es[j].value)
    }
}

proof fn lemma_entry_value_push(p: Seq<EntryV>, e: EntryV, key: Seq<char>)
    ensures
        entry_value(p.push(e), key) == (if entry_value(p, key) is Some {
            entry_value(p, key)
        } else if e.key == key {
            Some(e.value)
        } else {
            None
        }),
{
    let q = p.push(e);
    lemma_first_entry(p, key);
    lemma_first_entry(q, key);
    let j = first_entry(p, key);
    if j >= 0 {
        assert(is_first_entry(q, key, j)) by {
            assert forall|k: int| 0 <= k < j implies (#[trigger] q[k]).key != key by {
                assert(q[k] == p[k]);
            }
        }
    } else if e.key == key {
        assert(is_first_entry(q, key, p.len() as int)) by {
            assert forall|k: int| 0 <= k < p.len() implies (#[trigger] q[k]).key != key by {
                assert(q[k] == p[k]);
            }
        }
    } else {
        let i = first_entry(q, key);
        if i >= 0 {
            if i < p.len() {
                assert(q[i] == p[i]);
            }
        }
    }
}

proof fn lemma_entry_value_keyed(es: Seq<EntryV>, key: Seq<char>)
    requires
        key.len() > 0,
    ensures
        entry_value(keyed_entries(es), key) == entry_value(es, key),
    decreases es.len(),
{
    if es.len() == 0 {
        lemma_first_entry(es, key);
    } else {
        let p = es.drop_last();
        let e = es.last();
        lemma_entry_value_keyed(p, key);
        assert(p.push(e) =~= es);
        lemma_entry_value_push(p, e, key);
        if e.key.len() > 0 {
            lemma_entry_value_push(keyed_entries(p), e, key);
        }
    }
}

/// Two documents with the same sections by name and keyed entries read the
/// same value for every key.
pub proof fn lemma_same_keyed_get(a: DocV, b: DocV, section: Seq<char>, key: Seq<char>)
    requires
        same_keyed_sections(a.sections, b.sections),
        key.len() > 0,
    ensures
        doc_get(a, section, key) == doc_get(b, section, key),
{
    lemma_first_section(a.sections, section);
    lemma_first_section(b.sections, section);
    let i = first_section(a.sections, section);
    let j = first_section(b.sections, section);
    if i >= 0 {
        assert(a.sections[i].name == b.sections[i].name);
        assert(is_first_section(b.sections, section, i)) by {
            assert forall|k: int| 0 <= k < i implies (#[trigger] b.sections[k]).name != section by {
                assert(a.sections[k].name == b.sections[k].name);
            }
        }
        lemma_entry_value_keyed(a.sections[i].entries, key);
        lemma_entry_value_keyed(b.sections[i].entries, key);
    } else if j >= 0 {
        assert(a.sections[j].name == b.sections[j].name);
    }
}

/// The inline comment kept with `key` in the first section named
/// `section`, if there is one.
pub open spec fn doc_get_comment(d: DocV, section: Seq<char>, key: Seq<char>) -> Option<Seq<char>> {
    let i = first_section(d.sections, section);
    if i < 0 {
        None
    } else {
        let es = d.sections[i].entries;
        let j = first_entry(es, key);
        if j < 0 {
            None
        } else {
            es[j].comment
        }
    }
}

/// The inline comment of an entry that rereads is one the writer can
/// write after any value that is not empty.
proof fn lemma_rereads_comment(e: EntryV)
    requires
        entry_rereads(e),
        e.key.len() > 0,
        e.comment is Some,
    ensures
        ({
            let c = e.comment->0;
            &&& c.len() > 0
            &&& c[0] == '#'
            &&& !is_ws(c.last())
            &&& !c.contains('\n')
            &&& hex_run(c.skip(1)) != 6
            &&& hex_run(c.skip(1)) != 8
        }),
{
    let l = written_line(e);
    crate::text::lemma_first_index(l, '=');
    let eq = first_index(l, '=');
    let rest = l.skip(eq + 1);
    let r = trim(rest);
    lemma_no_char_sub(l, '\n', eq + 1, l.len() as int);
    assert(rest =~= l.subrange(eq + 1, l.len() as int));
    lemma_trim_avoids(rest, '\n');
    lemma_trim_shape(rest);
    assert(exists|i: int| is_first_comment(r, i));
    let i = choose|i: int| is_first_comment(r, i);
    lemma_parsed_comment(r, i);
}

/// Setting a value that reads back keeps a document in the parser's shape,
/// unless an empty value would be written before a kept inline comment.
pub proof fn lemma_set_keeps_shape(d: DocV, section: Seq<char>, key: Seq<char>, value: Seq<char>)
    requires
        parsed_shape_doc(d),
        name_reads_back(section),
        key_reads_back(key),
        value_reads_back(value),
        value.len() > 0 || doc_get_comment(d, section, key) is None,
    ensures
        parsed_shape_doc(doc_set(d, section, key, value)),
{
    let d2 = doc_set(d, section, key, value);
    lemma_first_section(d.sections, section);
    let i = first_section(d.sections, section);
    let ne = EntryV { key: key, value: value, comment: None };
    assert(kv_parts_reread(key, value, None));
    lemma_kv_line_rereads(ne);
    assert(written_line(ne)[0] == key[0]);
    assert(entry_rereads(ne));
    if i >= 0 {
        let s = d.sections[i];
        assert(parsed_shape_section(d.sections[i]));
        lemma_first_entry(s.entries, key);
        let j = first_entry(s.entries, key);
        let s2 = section_set(s, key, value);
        if j >= 0 {
            let e = s.entries[j];
            assert(entry_rereads(s.entries[j]));
            let e2 = EntryV { value: value, ..e };
            if e.comment is Some {
                lemma_rereads_comment(e);
            }
            assert(kv_parts_reread(e2.key, e2.value, e2.comment));
            lemma_kv_line_rereads(e2);
            assert(written_line(e2)[0] == key[0]);
            assert(entry_rereads(e2));
        }
        assert(parsed_shape_section(s2)) by {
            assert forall|k: int| 0 <= k < s2.entries.len() implies entry_rereads(#[trigger] s2.entries[k]) by {
                if j < 0 && k == s.entries.len() {
                } else if k != j {
                    assert(s2.entries[k] == s.entries[k]);
                }
            }
        }
        assert forall|k: int| 0 <= k < d2.sections.len() implies parsed_shape_section(#[trigger] d2.sections[k]) by {
            if k != i {
                assert(d2.sections[k] == d.sections[k]);
            }
        }
    } else {
        let s2 = section_set(new_section(section), key, value);
        lemma_first_entry(new_section(section).entries, key);
        assert(s2.entries =~= seq![ne]);
        assert(loose_line(Seq::<char>::empty())) by {
            assert(trim(Seq::<char>::empty()) =~= Seq::<char>::empty());
        }
        assert(parsed_shape_section(s2));
        assert forall|k: int| 0 <= k < d2.sections.len() implies parsed_shape_section(#[trigger] d2.sections[k]) by {
            if k < d.sections.len() {
                assert(d2.sections[k] == d.sections[k]);
            }
        }
    }
}

/// Writing a document of the parser's shape and reading the text back
/// reads every key as the document held it.
pub proof fn lemma_parsed_doc_get(d: DocV, section: Seq<char>, key: Seq<char>)
    requires
        parsed_shape_doc(d),
        key.len() > 0,
    ensures
        doc_get(spec_parse_ini(doc_text(d)), section, key) == doc_get(d, section, key),
{
    lemma_parsed_doc_sections(d);
    lemma_same_keyed_get(spec_parse_ini(doc_text(d)), d, section, key);
}

/// Setting a key in one section leaves the kept comments of every other
/// section alone.
pub proof fn lemma_set_keeps_other_comments(
    d: DocV,
    section: Seq<char>,
    key: Seq<char>,
    value: Seq<char>,
    s2: Seq<char>,
    k2: Seq<char>,
)
    requires
        section != s2,
    ensures
        doc_get_comment(doc_set(d, section, key, value), s2, k2) == doc_get_comment(d, s2, k2),
{
    let d2 = doc_set(d, section, key, value);
    let i = first_section(d.sections, section);
    lemma_first_section(d.sections, section);
    lemma_first_section(d.sections, s2);
    lemma_first_section(d2.sections, s2);
    let j = first_section(d.sections, s2);
    let j2 = first_section(d2.sections, s2);
    assert forall|k: int| 0 <= k < d.sections.len() implies (#[trigger] d2.sections[k]).name == d.sections[k].name by {
        if i >= 0 && k == i {
            assert(d2.sections[k] == section_set(d.sections[i], key, value));
        }
    }
    if j >= 0 {
        assert(is_first_section(d2.sections, s2, j)) by {
            assert forall|k: int| 0 <= k < j implies (#[trigger] d2.sections[k]).name != s2 by {
                assert(d2.sections[k].name == d.sections[k].name);
            }
            assert(d2.sections[j].name == d.sections[j].name);
        }
        assert(j != i);
        assert(d2.sections[j] == d.sections[j]);
    } else if j2 >= 0 {
        if j2 < d.sections.len() {
            assert(d2.sections[j2].name == d.sections[j2].name);
        } else {
            assert(d2.sections[j2].name == section);
        }
    }
}

/// Loading any text, writing the document and loading the written text
/// again reads every key with the value that the first load read.
pub proof fn lemma_reload_reads_same(s: Seq<char>, section: Seq<char>, key: Seq<char>)
    requires
        key.len() > 0,
    ensures
        doc_get(spec_parse_ini(doc_text(spec_parse_ini(s))), section, key) == doc_get(
            spec_parse_ini(s),
            section,
            key,
        ),
{
    lemma_parsed_shape(s);
    lemma_parsed_doc_get(spec_parse_ini(s), section, key);
}

} // verus!
