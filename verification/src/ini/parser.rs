//! Reading INI text into an `IniDocument`.
//!
//! Handles Kvantum quirks: `[%General]` section names, dotted keys like
//! `text.focus.color`, and inline `#` comments.

use vstd::prelude::*;
use super::{
    entries_view, sections_view, strings_view, DocV, EntryV, IniDocument, IniEntry, IniSection,
    SectionV,
};
use crate::text::{
    chars_of, find_char, first_index, line_ranges, lines, string_of_range, trim, trim_bounds,
    trim_end, trim_end_bound,
};

verus! {

broadcast use vstd::string::group_string_axioms;

// ---------------------------------------------------------------------------
// Specification
// ---------------------------------------------------------------------------

/// An ASCII hexadecimal digit.
pub open spec fn is_hex_char(c: char) -> bool {
    ('0' <= c && c <= '9') || ('a' <= c && c <= 'f') || ('A' <= c && c <= 'F')
}

/// Number of leading hexadecimal digits.
pub open spec fn hex_run(s: Seq<char>) -> nat
    decreases s.len(),
{
    if s.len() > 0 && is_hex_char(s[0]) {
        1 + hex_run(s.drop_first())
    } else {
        0
    }
}

/// An inline comment starts at `i`: a `#` after a space that does not
/// begin a `#RRGGBB` / `#RRGGBBAA` colour.
pub open spec fn comment_starts_at(r: Seq<char>, i: int) -> bool {
    &&& 0 < i < r.len()
    &&& r[i] == '#'
    &&& r[i - 1] == ' '
    &&& hex_run(r.skip(i + 1)) != 6
    &&& hex_run(r.skip(i + 1)) != 8
}

/// `i` is the first place an inline comment starts.
pub open spec fn is_first_comment(r: Seq<char>, i: int) -> bool {
    comment_starts_at(r, i) && forall|j: int| 0 <= j < i ==> !comment_starts_at(r, j)
}

/// Value and inline comment of the text after `=`.
pub open spec fn split_comment(r: Seq<char>) -> (Seq<char>, Option<Seq<char>>) {
    if exists|i: int| is_first_comment(r, i) {
        let i = choose|i: int| is_first_comment(r, i);
        (trim_end(r.take(i)), Some(trim(r.skip(i))))
    } else {
        (r, None)
    }
}

/// A trimmed line that opens a section: `[`, then a `]` somewhere.
pub open spec fn is_header_line(t: Seq<char>) -> bool {
    t.len() > 0 && t[0] == '[' && t.contains(']')
}

/// The name between `[` and the first `]`.
pub open spec fn header_name(t: Seq<char>) -> Seq<char> {
    t.subrange(1, first_index(t, ']'))
}

/// A kept comment or blank line inside a section.
pub open spec fn comment_entry(l: Seq<char>) -> EntryV {
    EntryV { key: Seq::empty(), value: Seq::empty(), comment: Some(l) }
}

/// The entry of a trimmed `key=value` line.
pub open spec fn kv_entry(t: Seq<char>) -> EntryV {
    let eq = first_index(t, '=');
    let (v, c) = split_comment(trim(t.skip(eq + 1)));
    EntryV { key: trim(t.take(eq)), value: v, comment: c }
}

/// Parser state between lines.
pub struct ParseState {
    pub header: Seq<Seq<char>>,
    pub sections: Seq<SectionV>,
    pub pending: Seq<Seq<char>>,
    pub current: Option<SectionV>,
}

/// The sections with the open one (if any) closed.
pub open spec fn closed_sections(st: ParseState) -> Seq<SectionV> {
    match st.current {
        Some(c) => st.sections.push(c),
        None => st.sections,
    }
}

/// The state after one more line.
pub open spec fn parse_step(st: ParseState, line: Seq<char>) -> ParseState {
    let t = trim(line);
    if is_header_line(t) {
        ParseState {
            header: st.header,
            sections: closed_sections(st),
            pending: Seq::empty(),
            current: Some(
                SectionV { name: header_name(t), entries: Seq::empty(), preceding_lines: st.pending },
            ),
        }
    } else if st.current is None {
        if st.sections.len() == 0 {
            ParseState { header: st.header.push(line), ..st }
        } else {
            ParseState { pending: st.pending.push(line), ..st }
        }
    } else if t.len() == 0 || t[0] == '#' || t[0] == ';' {
        ParseState { pending: st.pending.push(line), ..st }
    } else if t.contains('=') {
        let c = st.current->0;
        ParseState {
            current: Some(
                SectionV {
                    entries: c.entries + st.pending.map_values(|l: Seq<char>| comment_entry(l)).push(
                        kv_entry(t),
                    ),
                    ..c
                },
            ),
            pending: Seq::empty(),
            ..st
        }
    } else {
        ParseState { pending: st.pending.push(line), ..st }
    }
}

/// The state after a sequence of lines.
pub open spec fn parse_lines(ls: Seq<Seq<char>>) -> ParseState
    decreases ls.len(),
{
    if ls.len() == 0 {
        ParseState { header: Seq::empty(), sections: Seq::empty(), pending: Seq::empty(), current: None }
    } else {
        parse_step(parse_lines(ls.drop_last()), ls.last())
    }
}

/// The document that `parse_ini` builds from `s`.
pub open spec fn spec_parse_ini(s: Seq<char>) -> DocV {
    let st = parse_lines(lines(s));
    DocV { header_lines: st.header, sections: closed_sections(st), trailing_lines: st.pending }
}

/// Where an inline comment starts, a first one starts.
pub proof fn lemma_first_comment(r: Seq<char>, i: int)
    requires
        comment_starts_at(r, i),
    ensures
        exists|k: int| is_first_comment(r, k),
    decreases i,
{
    if exists|j: int| 0 <= j < i && comment_starts_at(r, j) {
        let j = choose|j: int| 0 <= j < i && comment_starts_at(r, j);
        lemma_first_comment(r, j);
    } else {
        assert(is_first_comment(r, i));
    }
}

/// There is one first place an inline comment starts.
pub proof fn lemma_first_comment_unique(r: Seq<char>, i: int, k: int)
    requires
        is_first_comment(r, i),
        is_first_comment(r, k),
    ensures
        i == k,
{
    if i < k {
        assert(!comment_starts_at(r, i));
    }
    if k < i {
        assert(!comment_starts_at(r, k));
    }
}

// ---------------------------------------------------------------------------
// Executable parser
// ---------------------------------------------------------------------------

/// Whether `c` is an ASCII hexadecimal digit.
fn hex_char(c: char) -> (r: bool)
    ensures
        r == is_hex_char(c),
{
    ('0' <= c && c <= '9') || ('a' <= c && c <= 'f') || ('A' <= c && c <= 'F')
}

/// Number of leading hexadecimal digits of `v[lo..hi]`.
fn count_hex(v: &Vec<char>, lo: usize, hi: usize) -> (n: usize)
    requires
        lo <= hi <= v.len(),
    ensures
        n == hex_run(v@.subrange(lo as int, hi as int)),
{
    let mut j = lo;
    while j < hi && hex_char(v[j])
        invariant
            lo <= j <= hi <= v.len(),
            hex_run(v@.subrange(lo as int, hi as int)) == (j - lo) + hex_run(
                v@.subrange(j as int, hi as int),
            ),
        decreases hi - j,
    {
        assert(v@.subrange(j as int, hi as int).drop_first() =~= v@.subrange(j + 1, hi as int));
        j += 1;
    }
    j - lo
}

/// Split `v[lo..hi]` (the trimmed text after `=`) into value and inline
/// comment.
fn split_inline_comment(v: &Vec<char>, lo: usize, hi: usize) -> (r: (String, Option<String>))
    requires
        lo <= hi <= v.len(),
    ensures
        ({
            let (sv, sc) = split_comment(v@.subrange(lo as int, hi as int));
            r.0@ == sv && match r.1 {
                Some(c) => sc == Some(c@),
                None => sc is None,
            }
        }),
{
    let ghost r = v@.subrange(lo as int, hi as int);
    let mut i = lo;
    while i < hi
        invariant
            lo <= i <= hi <= v.len(),
            r == v@.subrange(lo as int, hi as int),
            forall|j: int| 0 <= j < i - lo ==> !comment_starts_at(r, j),
        decreases hi - i,
    {
        if v[i] == '#' && i > lo && v[i - 1] == ' ' {
            let h = count_hex(v, i + 1, hi);
            assert(r.skip(i - lo + 1) =~= v@.subrange(i + 1, hi as int));
            if h != 6 && h != 8 {
                let ghost k = i - lo;
                assert(comment_starts_at(r, k));
                assert(is_first_comment(r, k));
                proof {
                    assert forall|m: int| is_first_comment(r, m) implies m == k by {
                        lemma_first_comment_unique(r, m, k);
                    }
                }
                let e = trim_end_bound(v, lo, i);
                let (ca, cb) = trim_bounds(v, i, hi);
                assert(r.take(k) =~= v@.subrange(lo as int, i as int));
                assert(r.skip(k) =~= v@.subrange(i as int, hi as int));
                let value = string_of_range(v, lo, e);
                let comment = string_of_range(v, ca, cb);
                return (value, Some(comment));
            }
        }
        assert(!comment_starts_at(r, i - lo));
        i += 1;
    }
    assert(!exists|k: int| is_first_comment(r, k)) by {
        if exists|k: int| is_first_comment(r, k) {
            let k = choose|k: int| is_first_comment(r, k);
            assert(!comment_starts_at(r, k));
        }
    }
    (string_of_range(v, lo, hi), None)
}

/// The abstract state of the parser's variables.
pub open spec fn state_of(
    header: Seq<String>,
    sections: Seq<IniSection>,
    pending: Seq<String>,
    current: Option<IniSection>,
) -> ParseState {
    ParseState {
        header: strings_view(header),
        sections: sections_view(sections),
        pending: strings_view(pending),
        current: match current {
            Some(c) => Some(c@),
            None => None,
        },
    }
}

/// Parse an INI string into an `IniDocument`, preserving comments, blank lines,
/// and section/key ordering for round-trip fidelity.
pub fn parse_ini(input: &str) -> (d: IniDocument)
    ensures
        d@ == spec_parse_ini(input@),
{
    let v = chars_of(input);
    let lr = line_ranges(&v);
    let ghost ls = lines(v@);
    let mut header_lines: Vec<String> = Vec::new();
    let mut sections: Vec<IniSection> = Vec::new();
    let mut pending_lines: Vec<String> = Vec::new();
    let mut current_section: Option<IniSection> = None;
    let mut k: usize = 0;
    assert(ls.take(0) =~= Seq::<Seq<char>>::empty());
    assert(strings_view(header_lines@) =~= Seq::<Seq<char>>::empty());
    assert(strings_view(pending_lines@) =~= Seq::<Seq<char>>::empty());
    assert(sections_view(sections@) =~= Seq::<SectionV>::empty());
    while k < lr.len()
        invariant
            k <= lr.len(),
            ls == lines(v@),
            lr.len() == ls.len(),
            forall|j: int|
                0 <= j < lr.len() ==> (#[trigger] lr[j]).0 <= lr[j].1 <= v.len() && v@.subrange(
                    lr[j].0 as int,
                    lr[j].1 as int,
                ) == ls[j],
            state_of(header_lines@, sections@, pending_lines@, current_section) == parse_lines(
                ls.take(k as int),
            ),
        decreases lr.len() - k,
    {
        let ghost st = parse_lines(ls.take(k as int));
        assert(ls.take(k + 1).drop_last() =~= ls.take(k as int));
        assert(ls.take(k + 1).last() == ls[k as int]);
        let (a, b) = lr[k];
        let line = string_of_range(&v, a, b);
        let (ta, tb) = trim_bounds(&v, a, b);
        let ghost t = v@.subrange(ta as int, tb as int);
        assert(t == trim(line@));
        let mut handled = false;
        if ta < tb && v[ta] == '[' {
            assert(t[0] == '[');
            match find_char(&v, ta, tb, ']') {
                Some(e) => {
                    assert(t.contains(']'));
                    let name = string_of_range(&v, ta + 1, ta + e);
                    assert(name@ =~= header_name(t));
                    let mut pl: Vec<String> = Vec::new();
                    std::mem::swap(&mut pl, &mut pending_lines);
                    let ghost closed = closed_sections(st);
                    match current_section {
                        Some(sec) => {
                            sections.push(sec);
                        },
                        None => {},
                    }
                    assert(sections_view(sections@) =~= closed);
                    let new_sec = IniSection { name, entries: Vec::new(), preceding_lines: pl };
                    assert(new_sec@.entries =~= Seq::<EntryV>::empty());
                    current_section = Some(new_sec);
                    assert(strings_view(pending_lines@) =~= Seq::<Seq<char>>::empty());
                    handled = true;
                },
                None => {
                    assert(!t.contains(']'));
                },
            }
        }
        if !handled {
            assert(!is_header_line(t));
            if current_section.is_none() {
                if sections.len() == 0 {
                    let ghost prev = header_lines@;
                    header_lines.push(line);
                    assert(strings_view(header_lines@) =~= strings_view(prev).push(line@));
                } else {
                    let ghost prev = pending_lines@;
                    pending_lines.push(line);
                    assert(strings_view(pending_lines@) =~= strings_view(prev).push(line@));
                }
            } else if ta == tb || v[ta] == '#' || v[ta] == ';' {
                let ghost prev = pending_lines@;
                pending_lines.push(line);
                assert(strings_view(pending_lines@) =~= strings_view(prev).push(line@));
            } else {
                assert(t.len() > 0 && t[0] == v@[ta as int]);
                match find_char(&v, ta, tb, '=') {
                    Some(eq) => {
                        let (ka, kb) = trim_bounds(&v, ta, ta + eq);
                        let (ra, rb) = trim_bounds(&v, ta + eq + 1, tb);
                        assert(t.take(eq as int) =~= v@.subrange(ta as int, ta + eq));
                        assert(t.skip(eq + 1) =~= v@.subrange(ta + eq + 1, tb as int));
                        let key = string_of_range(&v, ka, kb);
                        let (value, comment) = split_inline_comment(&v, ra, rb);
                        let entry = IniEntry { key, value, comment };
                        assert(entry@ == kv_entry(t));
                        let mut sec = current_section.unwrap();
                        let ghost c0 = sec@;
                        let ghost pend = strings_view(pending_lines@);
                        let mut entries: Vec<IniEntry> = Vec::new();
                        std::mem::swap(&mut entries, &mut sec.entries);
                        let ghost e0 = entries_view(entries@);
                        let mut p: usize = 0;
                        while p < pending_lines.len()
                            invariant
                                p <= pending_lines.len(),
                                pend == strings_view(pending_lines@),
                                entries_view(entries@) == e0 + pend.take(p as int).map_values(
                                    |l: Seq<char>| comment_entry(l),
                                ),
                            decreases pending_lines.len() - p,
                        {
                            let ghost prev = entries@;
                            let c = pending_lines[p].clone();
                            entries.push(
                                IniEntry { key: String::new(), value: String::new(), comment: Some(c) },
                            );
                            assert(pend[p as int] == pending_lines@[p as int]@);
                            assert(pend.take(p + 1).map_values(|l: Seq<char>| comment_entry(l))
                                =~= pend.take(p as int).map_values(|l: Seq<char>| comment_entry(l)).push(
                                comment_entry(pend[p as int]),
                            ));
                            assert(entries_view(entries@) =~= entries_view(prev).push(
                                comment_entry(pend[p as int]),
                            ));
                            p += 1;
                        }
                        assert(pend.take(p as int) =~= pend);
                        let ghost before_kv = entries@;
                        entries.push(entry);
                        assert(entries_view(entries@) =~= entries_view(before_kv).push(kv_entry(t)));
                        sec.entries = entries;
                        current_section = Some(sec);
                        pending_lines = Vec::new();
                        assert(strings_view(pending_lines@) =~= Seq::<Seq<char>>::empty());
                        assert(sec@.entries =~= c0.entries + pend.map_values(
                            |l: Seq<char>| comment_entry(l),
                        ).push(kv_entry(t)));
                    },
                    None => {
                        let ghost prev = pending_lines@;
                        pending_lines.push(line);
                        assert(strings_view(pending_lines@) =~= strings_view(prev).push(line@));
                    },
                }
            }
        }
        k += 1;
    }
    assert(ls.take(lr.len() as int) =~= ls);
    let ghost st = parse_lines(ls);
    match current_section {
        Some(sec) => {
            sections.push(sec);
        },
        None => {},
    }
    assert(sections_view(sections@) =~= closed_sections(st));
    IniDocument { header_lines, sections, trailing_lines: pending_lines }
}

} // verus!
