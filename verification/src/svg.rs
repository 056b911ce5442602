//! Reading and changing the colours of the named elements of a Kvantum
//! theme's SVG, and grouping the element ids by widget and state.

use vstd::prelude::*;
use quick_xml::events::Event;
use quick_xml::reader::Reader;
use crate::strmap::{has_key, pairs_map, pairs_of, KeyMap, StrMap};
use crate::text::{
    chars_of, first_index, has_prefix, has_suffix, join, lex_lt, lemma_lex_irrefl, lemma_lex_total,
    lemma_lex_trans, rfind_char, find_char, split, str_eq, str_lt, string_of, string_of_range,
    texts, trim, trim_bounds, split_ranges, last_index,
};

verus! {

broadcast use vstd::string::group_string_axioms;

// ---------------------------------------------------------------------------
// Reading the XML
// ---------------------------------------------------------------------------

/// One event of reading XML: a start or empty tag with each of its
/// attributes (`None` where an attribute is not well formed), or any
/// other event.
pub enum XmlEvent {
    Tag(Vec<Option<(String, String)>>),
    Other,
}

/// An event of reading XML, as plain values.
pub enum XmlEventV {
    Tag(Seq<Option<(Seq<char>, Seq<char>)>>),
    Other,
}

pub open spec fn attr_view(a: Option<(String, String)>) -> Option<(Seq<char>, Seq<char>)> {
    match a {
        Some(p) => Some((p.0@, p.1@)),
        None => None,
    }
}

pub open spec fn event_view(e: XmlEvent) -> XmlEventV {
    match e {
        XmlEvent::Tag(a) => XmlEventV::Tag(a@.map_values(|x: Option<(String, String)>| attr_view(x))),
        XmlEvent::Other => XmlEventV::Other,
    }
}

pub open spec fn events_view(v: Seq<XmlEvent>) -> Seq<XmlEventV> {
    v.map_values(|e: XmlEvent| event_view(e))
}

/// The events `quick_xml`'s `Reader` reads from an XML text, up to the end
/// of the text or the first syntax error.
pub uninterp spec fn xml_events(svg: Seq<char>) -> Seq<XmlEventV>;

/// The well-formed attributes, in order.
pub open spec fn present_attrs(a: Seq<Option<(Seq<char>, Seq<char>)>>) -> Seq<(Seq<char>, Seq<char>)>
    decreases a.len(),
{
    if a.len() == 0 {
        Seq::empty()
    } else {
        match a.last() {
            Some(x) => present_attrs(a.drop_last()).push(x),
            None => present_attrs(a.drop_last()),
        }
    }
}

/// The attributes of each tag among the events, in order.
pub open spec fn tags_of(ev: Seq<XmlEventV>) -> Seq<Seq<(Seq<char>, Seq<char>)>>
    decreases ev.len(),
{
    if ev.len() == 0 {
        Seq::empty()
    } else {
        match ev.last() {
            XmlEventV::Tag(a) => tags_of(ev.drop_last()).push(present_attrs(a)),
            XmlEventV::Other => tags_of(ev.drop_last()),
        }
    }
}

/// The well-formed attributes `(name, value)` of each start or empty tag
/// of an XML text, in document order, up to the end of the text or the
/// first syntax error.
pub open spec fn xml_tags(svg: Seq<char>) -> Seq<Seq<(Seq<char>, Seq<char>)>> {
    tags_of(xml_events(svg))
}

/// The texts of the tags read from a document.
pub open spec fn tags_view(v: Seq<Vec<(String, String)>>) -> Seq<Seq<(Seq<char>, Seq<char>)>> {
    v.map_values(|t: Vec<(String, String)>| pairs_of(t@))
}

/// The events of an SVG document as `quick_xml`'s `Reader` reads them,
/// one for each event until `Eof` or an error: each `Start` and `Empty`
/// tag with every attribute (name and raw value, or `None` where it is
/// not well formed), every other event as `Other`.  The result depends on
/// the text alone and is named `xml_events`.
#[verifier::external_body]
fn read_events(svg: &str) -> (r: Vec<XmlEvent>)
    ensures
        events_view(r@) == xml_events(svg@),
{
    let mut reader = Reader::from_str(svg);
    let mut events = Vec::new();
    loop {
        match reader.read_event() {
            Ok(Event::Start(t)) | Ok(Event::Empty(t)) => events.push(XmlEvent::Tag(
                t.attributes().map(|a| a.ok().map(|a| (a.key.as_ref().to_string(), a.value.into_owned()))).collect(),
            )),
            Ok(Event::Eof) | Err(_) => return events,
            Ok(_) => events.push(XmlEvent::Other),
        }
    }
}

/// The well-formed attributes of one tag.
fn tag_attrs(a: &Vec<Option<(String, String)>>) -> (r: Vec<(String, String)>)
    ensures
        pairs_of(r@) == present_attrs(a@.map_values(|x: Option<(String, String)>| attr_view(x))),
{
    let ghost av = a@.map_values(|x: Option<(String, String)>| attr_view(x));
    let mut r: Vec<(String, String)> = Vec::new();
    let mut i: usize = 0;
    while i < a.len()
        invariant
            i <= a.len(),
            av == a@.map_values(|x: Option<(String, String)>| attr_view(x)),
            pairs_of(r@) == present_attrs(av.take(i as int)),
        decreases a.len() - i,
    {
        assert(av.take(i + 1).drop_last() =~= av.take(i as int));
        assert(av.take(i + 1).last() == attr_view(a@[i as int]));
        match &a[i] {
            Some(p) => {
                let q = (p.0.clone(), p.1.clone());
                r.push(q);
                assert(pairs_of(r@) =~= present_attrs(av.take(i as int)).push((p.0@, p.1@)));
            },
            None => {},
        }
        i += 1;
    }
    assert(av.take(i as int) =~= av);
    r
}

/// The attributes of each start or empty tag, in document order.
fn read_tags(svg: &str) -> (r: Vec<Vec<(String, String)>>)
    ensures
        tags_view(r@) == xml_tags(svg@),
{
    let events = read_events(svg);
    let ghost ev = events_view(events@);
    let mut r: Vec<Vec<(String, String)>> = Vec::new();
    let mut i: usize = 0;
    while i < events.len()
        invariant
            i <= events.len(),
            ev == events_view(events@),
            tags_view(r@) == tags_of(ev.take(i as int)),
        decreases events.len() - i,
    {
        assert(ev.take(i + 1).drop_last() =~= ev.take(i as int));
        assert(ev.take(i + 1).last() == event_view(events@[i as int]));
        match &events[i] {
            XmlEvent::Tag(a) => {
                let t = tag_attrs(a);
                r.push(t);
                assert(tags_view(r@) =~= tags_of(ev.take(i as int)).push(pairs_of(t@)));
            },
            XmlEvent::Other => {},
        }
        i += 1;
    }
    assert(ev.take(i as int) =~= ev);
    r
}

/// The tag holds the attribute `id="<id>"`.
pub open spec fn has_id(tag: Seq<(Seq<char>, Seq<char>)>, id: Seq<char>) -> bool {
    exists|j: int| 0 <= j < tag.len() && (#[trigger] tag[j]) == ("id"@, id)
}

/// `i` is the first tag with `id="<id>"`.
pub open spec fn is_first_with_id(tags: Seq<Seq<(Seq<char>, Seq<char>)>>, id: Seq<char>, i: int) -> bool {
    &&& 0 <= i < tags.len()
    &&& has_id(tags[i], id)
    &&& forall|j: int| 0 <= j < i ==> !has_id(#[trigger] tags[j], id)
}

/// The attributes of the first element with `id="<id>"` (a repeated
/// attribute keeps its last value).
pub open spec fn element_attrs(svg: Seq<char>, id: Seq<char>) -> Option<Map<Seq<char>, Seq<char>>> {
    let tags = xml_tags(svg);
    if exists|i: int| is_first_with_id(tags, id, i) {
        Some(pairs_map(tags[choose|i: int| is_first_with_id(tags, id, i)]))
    } else {
        None
    }
}

proof fn lemma_first_with_id_unique(tags: Seq<Seq<(Seq<char>, Seq<char>)>>, id: Seq<char>, i: int, k: int)
    requires
        is_first_with_id(tags, id, i),
        is_first_with_id(tags, id, k),
    ensures
        i == k,
{
    if i < k {
        assert(!has_id(tags[i], id));
    }
    if k < i {
        assert(!has_id(tags[k], id));
    }
}

/// The attributes of a tag as a map.
fn tag_map(tag: &Vec<(String, String)>) -> (m: StrMap)
    ensures
        m@ == pairs_map(pairs_of(tag@)),
{
    let ghost p = pairs_of(tag@);
    let mut m = StrMap::new();
    let mut i: usize = 0;
    while i < tag.len()
        invariant
            i <= tag.len(),
            p == pairs_of(tag@),
            m@ == pairs_map(p.take(i as int)),
        decreases tag.len() - i,
    {
        assert(p.take(i + 1).drop_last() =~= p.take(i as int));
        assert(p[i as int] == (tag@[i as int].0@, tag@[i as int].1@));
        m.insert(tag[i].0.clone(), tag[i].1.clone());
        i += 1;
    }
    assert(p.take(i as int) =~= p);
    m
}

/// Whether a tag holds `id="<id>"`.
fn tag_has_id(tag: &Vec<(String, String)>, id: &str) -> (r: bool)
    ensures
        r == has_id(pairs_of(tag@), id@),
{
    let ghost p = pairs_of(tag@);
    let mut i: usize = 0;
    while i < tag.len()
        invariant
            i <= tag.len(),
            p == pairs_of(tag@),
            forall|j: int| 0 <= j < i ==> (#[trigger] p[j]) != ("id"@, id@),
        decreases tag.len() - i,
    {
        assert(p[i as int] == (tag@[i as int].0@, tag@[i as int].1@));
        if str_eq(tag[i].0.as_str(), "id") && str_eq(tag[i].1.as_str(), id) {
            return true;
        }
        i += 1;
    }
    false
}

/// The attributes of the first element with `id="<id>"`.
fn find_element_attrs(svg: &str, id: &str) -> (r: Option<StrMap>)
    ensures
        match r {
            Some(m) => element_attrs(svg@, id@) == Some(m@),
            None => element_attrs(svg@, id@) is None,
        },
{
    let tags = read_tags(svg);
    let ghost tv = xml_tags(svg@);
    let mut i: usize = 0;
    while i < tags.len()
        invariant
            i <= tags.len(),
            tv == xml_tags(svg@),
            tags_view(tags@) == tv,
            forall|j: int| 0 <= j < i ==> !has_id(#[trigger] tv[j], id@),
        decreases tags.len() - i,
    {
        assert(tv[i as int] == pairs_of(tags@[i as int]@));
        if tag_has_id(&tags[i], id) {
            assert(is_first_with_id(tv, id@, i as int));
            proof {
                let k = choose|k: int| is_first_with_id(tv, id@, k);
                lemma_first_with_id_unique(tv, id@, i as int, k);
            }
            return Some(tag_map(&tags[i]));
        }
        i += 1;
    }
    None
}

// ---------------------------------------------------------------------------
// CSS style attributes
// ---------------------------------------------------------------------------

/// The properties of a CSS style text: each `;`-separated part that holds a
/// `:` gives a trimmed name and value (a later name wins; empty parts and
/// parts without `:` are skipped).
pub open spec fn style_props(parts: Seq<Seq<char>>) -> Map<Seq<char>, Seq<char>>
    decreases parts.len(),
{
    if parts.len() == 0 {
        Map::empty()
    } else {
        let m = style_props(parts.drop_last());
        let t = trim(parts.last());
        if t.len() == 0 || !t.contains(':') {
            m
        } else {
            let i = first_index(t, ':');
            m.insert(trim(t.take(i)), trim(t.skip(i + 1)))
        }
    }
}

/// The properties of a CSS style text.
pub open spec fn parse_style_spec(style: Seq<char>) -> Map<Seq<char>, Seq<char>> {
    style_props(split(style, ';'))
}

/// Parse a CSS style text into its properties.
pub fn parse_style(style: &str) -> (m: StrMap)
    ensures
        m@ == parse_style_spec(style@),
{
    let v = chars_of(style);
    let parts = split_ranges(&v, 0, v.len(), ';');
    assert(v@.subrange(0, v@.len() as int) =~= v@);
    let ghost ps = split(style@, ';');
    let mut m = StrMap::new();
    let mut k: usize = 0;
    while k < parts.len()
        invariant
            k <= parts.len(),
            v@ == style@,
            ps == split(style@, ';'),
            parts.len() == ps.len(),
            forall|j: int|
                0 <= j < parts.len() ==> (#[trigger] parts[j]).0 <= parts[j].1 <= v.len()
                    && v@.subrange(parts[j].0 as int, parts[j].1 as int) == ps[j],
            m@ == style_props(ps.take(k as int)),
        decreases parts.len() - k,
    {
        assert(ps.take(k + 1).drop_last() =~= ps.take(k as int));
        assert(ps.take(k + 1).last() == ps[k as int]);
        let (lo, hi) = parts[k];
        let (a, b) = trim_bounds(&v, lo, hi);
        let ghost t = trim(ps[k as int]);
        assert(v@.subrange(a as int, b as int) == t);
        if a < b {
            match find_char(&v, a, b, ':') {
                Some(i) => {
                    proof {
                        crate::text::lemma_first_index(t, ':');
                        assert(t[i as int] == ':');
                    }
                    let c = a + i;
                    let (kl, kh) = trim_bounds(&v, a, c);
                    let (vl, vh) = trim_bounds(&v, c + 1, b);
                    assert(v@.subrange(a as int, c as int) =~= t.take(i as int));
                    assert(v@.subrange(c + 1, b as int) =~= t.skip(i + 1));
                    let key = string_of_range(&v, kl, kh);
                    let value = string_of_range(&v, vl, vh);
                    m.insert(key, value);
                },
                None => {},
            }
        }
        k += 1;
    }
    assert(ps.take(k as int) =~= ps);
    m
}

/// `name:value` for each property.
pub open spec fn prop_texts(p: Seq<(Seq<char>, Seq<char>)>) -> Seq<Seq<char>> {
    p.map_values(|q: (Seq<char>, Seq<char>)| q.0 + ":"@ + q.1)
}

/// `s` holds the same texts as `t`, each as often, strictly sorted.
pub open spec fn sorted_texts(s: Seq<Seq<char>>) -> bool {
    forall|i: int, j: int| 0 <= i < j < s.len() ==> !lex_lt((#[trigger] s[j]), (#[trigger] s[i]))
}

/// Insert `x` into the sorted `v`, after every text not after it.
fn insert_sorted(v: &mut Vec<String>, x: String)
    requires
        sorted_texts(texts(old(v)@)),
    ensures
        sorted_texts(texts(final(v)@)),
        texts(final(v)@).to_multiset() == texts(old(v)@).to_multiset().insert(x@),
{
    let ghost o = texts(v@);
    let mut pos: usize = v.len();
    while pos > 0 && str_lt(x.as_str(), v[pos - 1].as_str())
        invariant
            pos <= v.len(),
            o == texts(v@),
            forall|a: int| pos <= a < v.len() ==> lex_lt(x@, (#[trigger] o[a])),
        decreases pos,
    {
        assert(o[pos - 1] == v@[pos - 1]@);
        pos -= 1;
    }
    proof {
        if pos > 0 {
            assert(o[pos - 1] == v@[pos - 1]@);
            lemma_lex_total(x@, o[pos - 1]);
        }
    }
    let ghost xv = x@;
    v.insert(pos, x);
    let ghost n = texts(v@);
    assert(n =~= o.insert(pos as int, xv));
    proof {
        assert forall|a: int, b: int| 0 <= a < b < n.len() implies !lex_lt((#[trigger] n[b]), (#[trigger] n[a])) by {
            if b < pos {
                assert(n[a] == o[a] && n[b] == o[b]);
            } else if b == pos {
                assert(n[a] == o[a]);
                lemma_lex_total(o[a], o[pos - 1]);
                if lex_lt(xv, o[a]) && lex_lt(o[a], o[pos - 1]) {
                    lemma_lex_trans(xv, o[a], o[pos - 1]);
                }
            } else if a == pos {
                assert(n[b] == o[b - 1]);
                lemma_lex_total(xv, o[b - 1]);
            } else if a < pos {
                assert(n[a] == o[a] && n[b] == o[b - 1]);
            } else {
                assert(n[a] == o[a - 1] && n[b] == o[b - 1]);
            }
        }
        vstd::seq_lib::to_multiset_insert(o, pos as int, xv);
    }
}

/// `ns` is the style text of the properties `m`: their `name:value`
/// texts, sorted, joined with `;`.
pub open spec fn is_style_text(ns: Seq<char>, m: Map<Seq<char>, Seq<char>>) -> bool {
    exists|q: Seq<(Seq<char>, Seq<char>)>, parts: Seq<Seq<char>>|
        #![trigger pairs_map(q), join(parts, ";"@)]
        crate::strmap::distinct_keys(q) && pairs_map(q) == m && sorted_texts(parts)
            && parts.to_multiset() == prop_texts(q).to_multiset() && ns == join(parts, ";"@)
}

/// The properties as `name:value` texts, sorted and joined with `;`.
pub fn serialize_style(props: &StrMap) -> (s: String)
    ensures
        is_style_text(s@, props@),
{
    props.check();
    let ghost p = props.pairs();
    let n = props.len();
    let mut parts: Vec<String> = Vec::new();
    let mut i: usize = 0;
    assert(texts(parts@) =~= Seq::<Seq<char>>::empty());
    assert(prop_texts(p.take(0)) =~= Seq::<Seq<char>>::empty());
    while i < n
        invariant
            i <= n,
            n == p.len(),
            p == props.pairs(),
            sorted_texts(texts(parts@)),
            texts(parts@).to_multiset() == prop_texts(p.take(i as int)).to_multiset(),
        decreases n - i,
    {
        let mut part = props.key_at(i).clone();
        part.append(":");
        part.append(props.value_at(i).as_str());
        let ghost pv = part@;
        insert_sorted(&mut parts, part);
        proof {
            assert(prop_texts(p.take(i + 1)) =~= prop_texts(p.take(i as int)).push(pv));
            vstd::seq_lib::to_multiset_build(prop_texts(p.take(i as int)), pv);
        }
        i += 1;
    }
    assert(p.take(i as int) =~= p);
    let sl = parts.as_slice();
    assert(sl@ == parts@);
    let s = crate::text::join_strings(sl, ";");
    assert(pairs_map(p) == props@);
    assert(join(texts(parts@), ";"@) == s@);
    s
}

// ---------------------------------------------------------------------------
// Colours of elements
// ---------------------------------------------------------------------------

/// The colour property `name` of the element with `id="<id>"`: its own
/// attribute when present and not empty, otherwise the property of its
/// `style` attribute.
pub open spec fn element_color(svg: Seq<char>, id: Seq<char>, name: Seq<char>) -> Option<Seq<char>> {
    match element_attrs(svg, id) {
        None => None,
        Some(attrs) => if attrs.contains_key(name) && attrs[name].len() > 0 {
            Some(attrs[name])
        } else if attrs.contains_key("style"@) && parse_style_spec(attrs["style"@]).contains_key(name) {
            Some(parse_style_spec(attrs["style"@])[name])
        } else {
            None
        },
    }
}

fn get_element_color_attr(svg_content: &str, element_id: &str, attr_name: &str) -> (r: Option<String>)
    ensures
        match r {
            Some(c) => element_color(svg_content@, element_id@, attr_name@) == Some(c@),
            None => element_color(svg_content@, element_id@, attr_name@) is None,
        },
{
    let info = match find_element_attrs(svg_content, element_id) {
        Some(m) => m,
        None => {
            return None;
        },
    };
    match info.get_str(attr_name) {
        Some(v) => {
            if !v.is_empty() {
                return Some(v.to_string());
            }
        },
        None => {},
    }
    match info.get_str("style") {
        Some(style) => {
            let props = parse_style(style);
            match props.get_str(attr_name) {
                Some(v) => Some(v.to_string()),
                None => None,
            }
        },
        None => None,
    }
}

/// The fill colour of an element: its `fill` attribute, or the `fill:`
/// property of its `style`.
pub fn get_fill_color(svg_content: &str, element_id: &str) -> (r: Option<String>)
    ensures
        match r {
            Some(c) => element_color(svg_content@, element_id@, "fill"@) == Some(c@),
            None => element_color(svg_content@, element_id@, "fill"@) is None,
        },
{
    get_element_color_attr(svg_content, element_id, "fill")
}

/// The stroke colour of an element.
pub fn get_stroke_color(svg_content: &str, element_id: &str) -> (r: Option<String>)
    ensures
        match r {
            Some(c) => element_color(svg_content@, element_id@, "stroke"@) == Some(c@),
            None => element_color(svg_content@, element_id@, "stroke"@) is None,
        },
{
    get_element_color_attr(svg_content, element_id, "stroke")
}

// ---------------------------------------------------------------------------
// Changing colours
// ---------------------------------------------------------------------------

/// `p` occurs in `s` at `i`.
pub open spec fn matches_at(s: Seq<char>, p: Seq<char>, i: int) -> bool {
    0 <= i && i + p.len() <= s.len() && s.subrange(i, i + p.len()) == p
}

/// `i` is the first occurrence of `p` in `s`.
pub open spec fn is_first_match(s: Seq<char>, p: Seq<char>, i: int) -> bool {
    matches_at(s, p, i) && forall|j: int| 0 <= j < i ==> !#[trigger] matches_at(s, p, j)
}

/// The first occurrence of `p` in `s`, or -1 (`str::find`).
pub open spec fn first_match(s: Seq<char>, p: Seq<char>) -> int {
    if exists|i: int| is_first_match(s, p, i) {
        choose|i: int| is_first_match(s, p, i)
    } else {
        -1
    }
}

/// `s` with every occurrence of `p`, scanning left to right without
/// overlap, replaced by `t` (`str::replace` with a non-empty pattern).
pub open spec fn replace_all(s: Seq<char>, p: Seq<char>, t: Seq<char>) -> Seq<char>
    decreases s.len(),
{
    if p.len() == 0 || s.len() < p.len() {
        s
    } else if s.take(p.len() as int) == p {
        t + replace_all(s.skip(p.len() as int), p, t)
    } else {
        seq![s[0]] + replace_all(s.drop_first(), p, t)
    }
}

/// `name="value"`.
pub open spec fn attr_text(name: Seq<char>, value: Seq<char>) -> Seq<char> {
    name + "=\""@ + value + "\""@
}

/// The SVG with the colour property `name` of the element `id` set to
/// `color`, by rewriting the text of its tag (the span from the `<` before
/// the first `id="<id>"` to the next `>`): a property of its `style` is
/// rewritten there (the new style text being `new_style`), else its own
/// attribute, else the attribute is added after the id.  Unchanged when the
/// element or its tag is not found.
pub open spec fn set_color_spec(
    svg: Seq<char>,
    id: Seq<char>,
    name: Seq<char>,
    color: Seq<char>,
    new_style: Seq<char>,
) -> Seq<char> {
    match element_attrs(svg, id) {
        None => svg,
        Some(attrs) => {
            let pat = attr_text("id"@, id);
            let ip = first_match(svg, pat);
            if ip < 0 {
                svg
            } else {
                let ts = last_index(svg.take(ip), '<');
                let after = ip + pat.len();
                let te_rel = first_index(svg.skip(after), '>');
                if ts < 0 || te_rel < 0 {
                    svg
                } else {
                    let te = after + te_rel;
                    let tag = svg.subrange(ts, te + 1);
                    let new_tag = if attrs.contains_key("style"@) && parse_style_spec(
                        attrs["style"@],
                    ).contains_key(name) {
                        replace_all(
                            tag,
                            attr_text("style"@, attrs["style"@]),
                            attr_text("style"@, new_style),
                        )
                    } else if attrs.contains_key(name) {
                        replace_all(tag, attr_text(name, attrs[name]), attr_text(name, color))
                    } else {
                        replace_all(tag, pat, pat + " "@ + attr_text(name, color))
                    };
                    svg.take(ts) + new_tag + svg.skip(te + 1)
                }
            }
        },
    }
}

/// The style text that setting `name` to `color` in the element's style
/// gives, where the element is found.
pub open spec fn new_style_ok(svg: Seq<char>, id: Seq<char>, name: Seq<char>, color: Seq<char>, ns: Seq<char>) -> bool {
    match element_attrs(svg, id) {
        Some(attrs) => attrs.contains_key("style"@) ==> is_style_text(
            ns,
            parse_style_spec(attrs["style"@]).insert(name, color),
        ),
        None => true,
    }
}

/// The first occurrence of `p` in `s`.
fn find_text(s: &Vec<char>, p: &Vec<char>) -> (r: Option<usize>)
    ensures
        match r {
            Some(i) => is_first_match(s@, p@, i as int) && first_match(s@, p@) == i,
            None => first_match(s@, p@) == -1,
        },
{
    let mut i: usize = 0;
    if p.len() > s.len() {
        assert forall|j: int| !is_first_match(s@, p@, j) by {}
        return None;
    }
    let last = s.len() - p.len();
    loop
        invariant
            p.len() <= s.len(),
            last == s.len() - p.len(),
            i <= last,
            forall|j: int| 0 <= j < i ==> !#[trigger] matches_at(s@, p@, j),
        ensures
            forall|j: int| 0 <= j <= last ==> !#[trigger] matches_at(s@, p@, j),
        decreases last - i,
    {
        if crate::text::range_eq(s, i, i + p.len(), p, 0, p.len()) {
            assert(p@.subrange(0, p@.len() as int) =~= p@);
            assert(is_first_match(s@, p@, i as int));
            proof {
                let k = choose|k: int| is_first_match(s@, p@, k);
                if k < i {
                    assert(!matches_at(s@, p@, k));
                }
                if i < k {
                    assert(!matches_at(s@, p@, i as int));
                }
            }
            return Some(i);
        }
        assert(p@.subrange(0, p@.len() as int) =~= p@);
        if i == last {
            break;
        }
        i += 1;
    }
    assert forall|j: int| !is_first_match(s@, p@, j) by {
        if is_first_match(s@, p@, j) {
            assert(matches_at(s@, p@, j));
        }
    }
    None
}

/// `s[lo..hi]` with every occurrence of `p` replaced by `t`.
fn replace_text(s: &Vec<char>, lo: usize, hi: usize, p: &Vec<char>, t: &str) -> (r: String)
    requires
        lo <= hi <= s.len(),
    ensures
        r@ == replace_all(s@.subrange(lo as int, hi as int), p@, t@),
{
    let mut out = String::new();
    let mut i = lo;
    let ghost whole = s@.subrange(lo as int, hi as int);
    assert(p@.subrange(0, p@.len() as int) =~= p@);
    while i < hi
        invariant
            lo <= i <= hi <= s.len(),
            whole == s@.subrange(lo as int, hi as int),
            p@.subrange(0, p@.len() as int) == p@,
            out@ + replace_all(s@.subrange(i as int, hi as int), p@, t@) == replace_all(whole, p@, t@),
        decreases hi - i,
    {
        let ghost rest = s@.subrange(i as int, hi as int);
        if p.len() == 0 || hi - i < p.len() {
            let tail = string_of_range(s, i, hi);
            out.append(tail.as_str());
            assert(out@ == replace_all(whole, p@, t@));
            return out;
        }
        if crate::text::range_eq(s, i, i + p.len(), p, 0, p.len()) {
            assert(rest.take(p@.len() as int) =~= s@.subrange(i as int, i + p.len()));
            assert(rest.skip(p@.len() as int) =~= s@.subrange(i + p.len(), hi as int));
            out.append(t);
            i += p.len();
        } else {
            assert(rest.take(p@.len() as int) =~= s@.subrange(i as int, i + p.len()));
            assert(rest.drop_first() =~= s@.subrange(i + 1, hi as int));
            crate::text::push_char(&mut out, s[i]);
            i += 1;
        }
    }
    assert(s@.subrange(i as int, hi as int) =~= Seq::<char>::empty());
    out
}

fn quoted_attr(name: &str, value: &str) -> (r: String)
    ensures
        r@ == attr_text(name@, value@),
{
    let mut r = name.to_string();
    r.append("=\"");
    r.append(value);
    r.append("\"");
    r
}

fn set_element_color_attr(svg_content: &str, element_id: &str, attr_name: &str, color: &str) -> (r: String)
    ensures
        exists|ns: Seq<char>|
            #![trigger set_color_spec(svg_content@, element_id@, attr_name@, color@, ns)]
            new_style_ok(svg_content@, element_id@, attr_name@, color@, ns)
                && r@ == set_color_spec(svg_content@, element_id@, attr_name@, color@, ns),
{
    let info = match find_element_attrs(svg_content, element_id) {
        Some(m) => m,
        None => {
            let r = svg_content.to_string();
            assert(new_style_ok(svg_content@, element_id@, attr_name@, color@, r@));
            assert(r@ == set_color_spec(svg_content@, element_id@, attr_name@, color@, r@));
            return r;
        },
    };
    let ghost attrs = info@;
    let (has_style_prop, new_style) = match info.get_str("style") {
        Some(style) => {
            let mut props = parse_style(style);
            let has = props.contains_key(attr_name);
            props.set(attr_name, color.to_string());
            (has, serialize_style(&props))
        },
        None => (false, String::new()),
    };
    let ns = new_style.as_str();
    assert(new_style_ok(svg_content@, element_id@, attr_name@, color@, ns@));
    let id_pattern = quoted_attr("id", element_id);
    let v = chars_of(svg_content);
    let pv = chars_of(id_pattern.as_str());
    let ip = match find_text(&v, &pv) {
        Some(i) => i,
        None => {
            let r = svg_content.to_string();
            assert(r@ == set_color_spec(svg_content@, element_id@, attr_name@, color@, ns@));
            return r;
        },
    };
    let ts = match rfind_char(&v, 0, ip, '<') {
        Some(t) => t,
        None => {
            let r = svg_content.to_string();
            assert(v@.subrange(0, ip as int) =~= v@.take(ip as int));
            assert(r@ == set_color_spec(svg_content@, element_id@, attr_name@, color@, ns@));
            return r;
        },
    };
    assert(v@.subrange(0, ip as int) =~= v@.take(ip as int));
    assert(matches_at(v@, pv@, ip as int));
    assert(ip + pv.len() <= v.len());
    let after = ip + pv.len();
    let te = match find_char(&v, after, v.len(), '>') {
        Some(t) => t + after,
        None => {
            let r = svg_content.to_string();
            assert(v@.subrange(after as int, v@.len() as int) =~= v@.skip(after as int));
            assert(r@ == set_color_spec(svg_content@, element_id@, attr_name@, color@, ns@));
            return r;
        },
    };
    assert(v@.subrange(after as int, v@.len() as int) =~= v@.skip(after as int));
    let new_tag = if has_style_prop {
        let old_style = info.get_str("style").unwrap();
        let old_attr = chars_of(quoted_attr("style", old_style).as_str());
        let new_attr = quoted_attr("style", ns);
        replace_text(&v, ts, te + 1, &old_attr, new_attr.as_str())
    } else if info.contains_key(attr_name) {
        let old_val = info.get_str(attr_name).unwrap();
        let old_attr = chars_of(quoted_attr(attr_name, old_val).as_str());
        let new_attr = quoted_attr(attr_name, color);
        replace_text(&v, ts, te + 1, &old_attr, new_attr.as_str())
    } else {
        let mut with_attr = id_pattern.clone();
        with_attr.append(" ");
        with_attr.append(quoted_attr(attr_name, color).as_str());
        replace_text(&v, ts, te + 1, &pv, with_attr.as_str())
    };
    let mut out = string_of_range(&v, 0, ts);
    out.append(new_tag.as_str());
    let tail = string_of_range(&v, te + 1, v.len());
    out.append(tail.as_str());
    assert(v@.subrange(0, ts as int) =~= v@.take(ts as int));
    assert(v@.subrange(te + 1, v@.len() as int) =~= v@.skip(te + 1));
    assert(out@ == set_color_spec(svg_content@, element_id@, attr_name@, color@, ns@));
    out
}

/// Set the fill colour of an element; the SVG unchanged when the element
/// is not found.
pub fn set_fill_color(svg_content: &str, element_id: &str, color: &str) -> (r: String)
    ensures
        exists|ns: Seq<char>|
            #![trigger set_color_spec(svg_content@, element_id@, "fill"@, color@, ns)]
            new_style_ok(svg_content@, element_id@, "fill"@, color@, ns)
                && r@ == set_color_spec(svg_content@, element_id@, "fill"@, color@, ns),
{
    set_element_color_attr(svg_content, element_id, "fill", color)
}

/// Set the stroke colour of an element; the SVG unchanged when the element
/// is not found.
pub fn set_stroke_color(svg_content: &str, element_id: &str, color: &str) -> (r: String)
    ensures
        exists|ns: Seq<char>|
            #![trigger set_color_spec(svg_content@, element_id@, "stroke"@, color@, ns)]
            new_style_ok(svg_content@, element_id@, "stroke"@, color@, ns)
                && r@ == set_color_spec(svg_content@, element_id@, "stroke"@, color@, ns),
{
    set_element_color_attr(svg_content, element_id, "stroke", color)
}

// ---------------------------------------------------------------------------
// Element ids
// ---------------------------------------------------------------------------

/// The non-empty `id` values of the attributes of a tag, in order.
pub open spec fn tag_ids(tag: Seq<(Seq<char>, Seq<char>)>) -> Seq<Seq<char>>
    decreases tag.len(),
{
    if tag.len() == 0 {
        Seq::empty()
    } else {
        let prev = tag_ids(tag.drop_last());
        if tag.last().0 == "id"@ && tag.last().1.len() > 0 {
            prev.push(tag.last().1)
        } else {
            prev
        }
    }
}

/// The non-empty `id` values of all tags, in document order.
pub open spec fn all_ids(tags: Seq<Seq<(Seq<char>, Seq<char>)>>) -> Seq<Seq<char>>
    decreases tags.len(),
{
    if tags.len() == 0 {
        Seq::empty()
    } else {
        all_ids(tags.drop_last()) + tag_ids(tags.last())
    }
}

/// All element ids found in the SVG, in document order.
pub fn get_all_element_ids(svg_content: &str) -> (r: Vec<String>)
    ensures
        texts(r@) == all_ids(xml_tags(svg_content@)),
{
    let tags = read_tags(svg_content);
    let ghost tv = xml_tags(svg_content@);
    let mut ids: Vec<String> = Vec::new();
    let mut i: usize = 0;
    assert(texts(ids@) =~= all_ids(tv.take(0)));
    while i < tags.len()
        invariant
            i <= tags.len(),
            tv == xml_tags(svg_content@),
            tags_view(tags@) == tv,
            texts(ids@) == all_ids(tv.take(i as int)),
        decreases tags.len() - i,
    {
        let tag = &tags[i];
        let ghost t = pairs_of(tag@);
        assert(tv[i as int] == t);
        assert(tv.take(i + 1).drop_last() =~= tv.take(i as int));
        let ghost base = texts(ids@);
        let mut j: usize = 0;
        assert(base + tag_ids(t.take(0)) =~= base);
        while j < tag.len()
            invariant
                j <= tag.len(),
                t == pairs_of(tag@),
                texts(ids@) == base + tag_ids(t.take(j as int)),
            decreases tag.len() - j,
        {
            assert(t.take(j + 1).drop_last() =~= t.take(j as int));
            assert(t[j as int] == (tag@[j as int].0@, tag@[j as int].1@));
            if str_eq(tag[j].0.as_str(), "id") && !tag[j].1.as_str().is_empty() {
                let ghost prev = ids@;
                ids.push(tag[j].1.clone());
                assert(texts(ids@) =~= texts(prev).push(tag@[j as int].1@));
            }
            j += 1;
        }
        assert(t.take(j as int) =~= t);
        i += 1;
    }
    assert(tv.take(i as int) =~= tv);
    ids
}

// ---------------------------------------------------------------------------
// Widgets and states
// ---------------------------------------------------------------------------

/// Position suffixes dropped when grouping by widget.
pub open spec fn position_suffixes() -> Seq<Seq<char>> {
    seq![
        "-bottomright"@,
        "-bottomleft"@,
        "-topright"@,
        "-topleft"@,
        "-bottom"@,
        "-right"@,
        "-left"@,
        "-top"@,
    ]
}

/// Widget names made of several words, tried first.
pub open spec fn compound_prefixes() -> Seq<Seq<char>> {
    seq![
        "flat-button"@,
        "expand-button"@,
        "border-button"@,
        "item-button"@,
        "menu-item"@,
        "menu-indicator"@,
        "menu-separator"@,
        "mdi-button"@,
        "mdi-close"@,
        "mdi-maximize"@,
        "mdi-minimize"@,
        "mdi-restore"@,
        "dial-handle"@,
    ]
}

/// `id` without the first of the suffixes `ss` that ends it.
pub open spec fn strip_first_suffix(id: Seq<char>, ss: Seq<Seq<char>>) -> Seq<char>
    decreases ss.len(),
{
    if ss.len() == 0 {
        id
    } else if has_suffix(id, ss[0]) {
        id.take(id.len() - ss[0].len())
    } else {
        strip_first_suffix(id, ss.drop_first())
    }
}

/// The split by the first compound widget name of `ps` that `id` is or
/// starts with (followed by `-` and a state).
pub open spec fn split_compound(id: Seq<char>, ps: Seq<Seq<char>>) -> Option<(Seq<char>, Seq<char>)>
    decreases ps.len(),
{
    if ps.len() == 0 {
        None
    } else {
        let p = ps[0];
        let wd = p + "-"@;
        if has_prefix(id, wd) && id.len() > wd.len() {
            Some((p, id.skip(wd.len() as int)))
        } else if id == p {
            Some((p, "default"@))
        } else {
            split_compound(id, ps.drop_first())
        }
    }
}

/// The widget and state of an element id (after position suffixes are
/// dropped): a compound widget name first, else everything before the last
/// `-` is the widget; a state `default` when there is none.
pub open spec fn widget_state(id: Seq<char>) -> (Seq<char>, Seq<char>) {
    match split_compound(id, compound_prefixes()) {
        Some(x) => x,
        None => {
            let pos = last_index(id, '-');
            if pos > 0 && pos < id.len() - 1 {
                (id.take(pos), id.skip(pos + 1))
            } else {
                (id, "default"@)
            }
        },
    }
}

fn position_suffix_list() -> (r: Vec<&'static str>)
    ensures
        r@.map_values(|s: &str| s@) == position_suffixes(),
{
    let mut r: Vec<&'static str> = Vec::new();
    r.push("-bottomright");
    r.push("-bottomleft");
    r.push("-topright");
    r.push("-topleft");
    r.push("-bottom");
    r.push("-right");
    r.push("-left");
    r.push("-top");
    assert(r@.map_values(|s: &str| s@) =~= position_suffixes());
    r
}

fn compound_prefix_list() -> (r: Vec<&'static str>)
    ensures
        r@.map_values(|s: &str| s@) == compound_prefixes(),
{
    let mut r: Vec<&'static str> = Vec::new();
    r.push("flat-button");
    r.push("expand-button");
    r.push("border-button");
    r.push("item-button");
    r.push("menu-item");
    r.push("menu-indicator");
    r.push("menu-separator");
    r.push("mdi-button");
    r.push("mdi-close");
    r.push("mdi-maximize");
    r.push("mdi-minimize");
    r.push("mdi-restore");
    r.push("dial-handle");
    assert(r@.map_values(|s: &str| s@) =~= compound_prefixes());
    r
}

/// The id without its position suffix.
fn strip_position(id: &str) -> (r: String)
    ensures
        r@ == strip_first_suffix(id@, position_suffixes()),
{
    let list = position_suffix_list();
    let ghost ss = position_suffixes();
    let v = chars_of(id);
    let mut k: usize = 0;
    assert(ss.skip(0) =~= ss);
    while k < list.len()
        invariant
            k <= list.len(),
            v@ == id@,
            list@.map_values(|s: &str| s@) == ss,
            ss == position_suffixes(),
            strip_first_suffix(id@, ss) == strip_first_suffix(id@, ss.skip(k as int)),
        decreases list.len() - k,
    {
        let suf = list[k];
        assert(ss[k as int] == suf@);
        assert(ss.skip(k as int)[0] == suf@);
        assert(ss.skip(k as int).len() > 0);
        assert(ss.skip(k as int).drop_first() =~= ss.skip(k + 1));
        if crate::text::ends_with(id, suf) {
            let n = chars_of(suf).len();
            let r = string_of_range(&v, 0, v.len() - n);
            assert(v@.subrange(0, v.len() - n) =~= id@.take(id@.len() - suf@.len()));
            assert(strip_first_suffix(id@, ss.skip(k as int)) == id@.take(id@.len() - suf@.len()));
            return r;
        }
        k += 1;
    }
    assert(ss.skip(k as int) =~= Seq::<Seq<char>>::empty());
    id.to_string()
}

/// Split an element id (after position suffixes are dropped) into its
/// widget and state.
pub fn split_widget_state(id: &str) -> (r: Option<(String, String)>)
    ensures
        r matches Some((w, st)) && (w@, st@) == widget_state(id@),
{
    let list = compound_prefix_list();
    let ghost ps = compound_prefixes();
    let v = chars_of(id);
    let mut k: usize = 0;
    assert(ps.skip(0) =~= ps);
    while k < list.len()
        invariant
            k <= list.len(),
            v@ == id@,
            list@.map_values(|s: &str| s@) == ps,
            ps == compound_prefixes(),
            split_compound(id@, ps) == split_compound(id@, ps.skip(k as int)),
        decreases list.len() - k,
    {
        let p = list[k];
        assert(ps[k as int] == p@);
        assert(ps.skip(k as int)[0] == p@);
        assert(ps.skip(k as int).len() > 0);
        assert(ps.skip(k as int).drop_first() =~= ps.skip(k + 1));
        let mut with_dash = p.to_string();
        with_dash.append("-");
        let wn = chars_of(with_dash.as_str()).len();
        if crate::text::starts_with(id, with_dash.as_str()) && v.len() > wn {
            let state = string_of_range(&v, wn, v.len());
            assert(v@.subrange(wn as int, v.len() as int) =~= id@.skip(wn as int));
            assert(split_compound(id@, ps.skip(k as int)) == Some((p@, id@.skip(wn as int))));
            return Some((p.to_string(), state));
        }
        if str_eq(id, p) {
            assert(split_compound(id@, ps.skip(k as int)) == Some((p@, "default"@)));
            return Some((p.to_string(), "default".to_string()));
        }
        k += 1;
    }
    assert(ps.skip(k as int) =~= Seq::<Seq<char>>::empty());
    match rfind_char(&v, 0, v.len(), '-') {
        Some(pos) => {
            assert(v@.subrange(0, v.len() as int) =~= v@);
            if pos > 0 && pos < v.len() - 1 {
                let w = string_of_range(&v, 0, pos);
                let st = string_of_range(&v, pos + 1, v.len());
                assert(v@.subrange(0, pos as int) =~= id@.take(pos as int));
                assert(v@.subrange(pos + 1, v.len() as int) =~= id@.skip(pos + 1));
                return Some((w, st));
            }
            Some((id.to_string(), "default".to_string()))
        },
        None => {
            assert(v@.subrange(0, v.len() as int) =~= v@);
            Some((id.to_string(), "default".to_string()))
        },
    }
}

/// The words that name where a piece of a widget sits.
pub open spec fn is_position_word(w: Seq<char>) -> bool {
    ||| w == "bottomright"@
    ||| w == "bottomleft"@
    ||| w == "topright"@
    ||| w == "topleft"@
    ||| w == "bottom"@
    ||| w == "right"@
    ||| w == "left"@
    ||| w == "top"@
}

proof fn lemma_strip_at(id: Seq<char>, ss: Seq<Seq<char>>, k: int)
    requires
        0 <= k < ss.len(),
        forall|i: int| 0 <= i < k ==> !has_suffix(id, #[trigger] ss[i]),
        has_suffix(id, ss[k]),
    ensures
        strip_first_suffix(id, ss) == id.take(id.len() - ss[k].len()),
    decreases k,
{
    if k > 0 {
        let rest = ss.drop_first();
        assert(!has_suffix(id, ss[0]));
        assert forall|i: int| 0 <= i < k - 1 implies !has_suffix(id, #[trigger] rest[i]) by {
            assert(rest[i] == ss[i + 1]);
        }
        assert(rest[k - 1] == ss[k]);
        lemma_strip_at(id, rest, k - 1);
    }
}

proof fn lemma_strip_none(id: Seq<char>, ss: Seq<Seq<char>>)
    requires
        forall|i: int| 0 <= i < ss.len() ==> !has_suffix(id, #[trigger] ss[i]),
    ensures
        strip_first_suffix(id, ss) == id,
    decreases ss.len(),
{
    if ss.len() > 0 {
        let rest = ss.drop_first();
        assert(!has_suffix(id, ss[0]));
        assert forall|i: int| 0 <= i < rest.len() implies !has_suffix(id, #[trigger] rest[i]) by {
            assert(rest[i] == ss[i + 1]);
        }
        lemma_strip_none(id, rest);
    }
}

proof fn lemma_suffix_of_concat(b: Seq<char>, t: Seq<char>)
    ensures
        has_suffix(b + t, t),
        (b + t).take((b + t).len() - t.len()) == b,
{
    assert((b + t).skip((b + t).len() - t.len()) =~= t);
    assert((b + t).take((b + t).len() - t.len()) =~= b);
}

/// A text ending in `t` does not end in `s` when the two differ `j` places
/// from their ends.
proof fn lemma_not_suffix_of_concat(b: Seq<char>, t: Seq<char>, s: Seq<char>, j: int)
    requires
        0 <= j < t.len(),
        j < s.len(),
        t[t.len() - 1 - j] != s[s.len() - 1 - j],
    ensures
        !has_suffix(b + t, s),
{
    let id = b + t;
    if has_suffix(id, s) {
        let k = s.len() - 1 - j;
        assert(id.skip(id.len() - s.len())[k] == s[k]);
        assert(id[id.len() - 1 - j] == t[t.len() - 1 - j]);
    }
}

/// An element id made of another id, `-` and a position word (such as
/// `scrollbar-normal-bottom`) is catalogued exactly as the id without the
/// position: the position names where a piece sits, not a state.
pub proof fn lemma_position_dropped(ids: Seq<Seq<char>>, base: Seq<char>, w: Seq<char>)
    requires
        is_position_word(w),
        forall|q: Seq<char>| is_position_word(q) ==> !has_suffix(base, "-"@ + q),
    ensures
        catalog_of(ids.push(base + "-"@ + w)) == catalog_of(ids.push(base)),
{
    let ps = position_suffixes();
    let x = base + "-"@ + w;
    reveal_strlit("bottomright");
    reveal_strlit("bottomleft");
    reveal_strlit("topright");
    reveal_strlit("topleft");
    reveal_strlit("bottom");
    reveal_strlit("right");
    reveal_strlit("left");
    reveal_strlit("top");
    reveal_strlit("-bottomright");
    reveal_strlit("-bottomleft");
    reveal_strlit("-topright");
    reveal_strlit("-topleft");
    reveal_strlit("-bottom");
    reveal_strlit("-right");
    reveal_strlit("-left");
    reveal_strlit("-top");
    reveal_strlit("-");
    assert(ps[0] =~= "-"@ + "bottomright"@);
    assert(is_position_word("bottomright"@));
    assert(!has_suffix(base, "-"@ + "bottomright"@));
    assert(ps[1] =~= "-"@ + "bottomleft"@);
    assert(is_position_word("bottomleft"@));
    assert(!has_suffix(base, "-"@ + "bottomleft"@));
    assert(ps[2] =~= "-"@ + "topright"@);
    assert(is_position_word("topright"@));
    assert(!has_suffix(base, "-"@ + "topright"@));
    assert(ps[3] =~= "-"@ + "topleft"@);
    assert(is_position_word("topleft"@));
    assert(!has_suffix(base, "-"@ + "topleft"@));
    assert(ps[4] =~= "-"@ + "bottom"@);
    assert(is_position_word("bottom"@));
    assert(!has_suffix(base, "-"@ + "bottom"@));
    assert(ps[5] =~= "-"@ + "right"@);
    assert(is_position_word("right"@));
    assert(!has_suffix(base, "-"@ + "right"@));
    assert(ps[6] =~= "-"@ + "left"@);
    assert(is_position_word("left"@));
    assert(!has_suffix(base, "-"@ + "left"@));
    assert(ps[7] =~= "-"@ + "top"@);
    assert(is_position_word("top"@));
    assert(!has_suffix(base, "-"@ + "top"@));
    lemma_strip_none(base, ps);
    assert(strip_first_suffix(x, ps) == base) by {
        if w == "bottomright"@ {
            assert(x =~= base + "-bottomright"@);
            lemma_suffix_of_concat(base, "-bottomright"@);
            lemma_strip_at(base + "-bottomright"@, ps, 0);
        }
        if w == "bottomleft"@ {
            assert(x =~= base + "-bottomleft"@);
            lemma_not_suffix_of_concat(base, "-bottomleft"@, ps[0], 1);
            lemma_suffix_of_concat(base, "-bottomleft"@);
            lemma_strip_at(base + "-bottomleft"@, ps, 1);
        }
        if w == "topright"@ {
            assert(x =~= base + "-topright"@);
            lemma_not_suffix_of_concat(base, "-topright"@, ps[0], 5);
            lemma_not_suffix_of_concat(base, "-topright"@, ps[1], 1);
            lemma_suffix_of_concat(base, "-topright"@);
            lemma_strip_at(base + "-topright"@, ps, 2);
        }
        if w == "topleft"@ {
            assert(x =~= base + "-topleft"@);
            lemma_not_suffix_of_concat(base, "-topleft"@, ps[0], 1);
            lemma_not_suffix_of_concat(base, "-topleft"@, ps[1], 4);
            lemma_not_suffix_of_concat(base, "-topleft"@, ps[2], 1);
            lemma_suffix_of_concat(base, "-topleft"@);
            lemma_strip_at(base + "-topleft"@, ps, 3);
        }
        if w == "bottom"@ {
            assert(x =~= base + "-bottom"@);
            lemma_not_suffix_of_concat(base, "-bottom"@, ps[0], 0);
            lemma_not_suffix_of_concat(base, "-bottom"@, ps[1], 0);
            lemma_not_suffix_of_concat(base, "-bottom"@, ps[2], 0);
            lemma_not_suffix_of_concat(base, "-bottom"@, ps[3], 0);
            lemma_suffix_of_concat(base, "-bottom"@);
            lemma_strip_at(base + "-bottom"@, ps, 4);
        }
        if w == "right"@ {
            assert(x =~= base + "-right"@);
            lemma_not_suffix_of_concat(base, "-right"@, ps[0], 5);
            lemma_not_suffix_of_concat(base, "-right"@, ps[1], 1);
            lemma_not_suffix_of_concat(base, "-right"@, ps[2], 5);
            lemma_not_suffix_of_concat(base, "-right"@, ps[3], 1);
            lemma_not_suffix_of_concat(base, "-right"@, ps[4], 0);
            lemma_suffix_of_concat(base, "-right"@);
            lemma_strip_at(base + "-right"@, ps, 5);
        }
        if w == "left"@ {
            assert(x =~= base + "-left"@);
            lemma_not_suffix_of_concat(base, "-left"@, ps[0], 1);
            lemma_not_suffix_of_concat(base, "-left"@, ps[1], 4);
            lemma_not_suffix_of_concat(base, "-left"@, ps[2], 1);
            lemma_not_suffix_of_concat(base, "-left"@, ps[3], 4);
            lemma_not_suffix_of_concat(base, "-left"@, ps[4], 0);
            lemma_not_suffix_of_concat(base, "-left"@, ps[5], 1);
            lemma_suffix_of_concat(base, "-left"@);
            lemma_strip_at(base + "-left"@, ps, 6);
        }
        if w == "top"@ {
            assert(x =~= base + "-top"@);
            lemma_not_suffix_of_concat(base, "-top"@, ps[0], 0);
            lemma_not_suffix_of_concat(base, "-top"@, ps[1], 0);
            lemma_not_suffix_of_concat(base, "-top"@, ps[2], 0);
            lemma_not_suffix_of_concat(base, "-top"@, ps[3], 0);
            lemma_not_suffix_of_concat(base, "-top"@, ps[4], 0);
            lemma_not_suffix_of_concat(base, "-top"@, ps[5], 0);
            lemma_not_suffix_of_concat(base, "-top"@, ps[6], 0);
            lemma_suffix_of_concat(base, "-top"@);
            lemma_strip_at(base + "-top"@, ps, 7);
        }
    }
    assert(ids.push(x).drop_last() =~= ids);
    assert(ids.push(base).drop_last() =~= ids);
}

/// The states of each widget named by the ids: the widget and state of
/// each id with its position suffix dropped.
pub open spec fn catalog_of(ids: Seq<Seq<char>>) -> Map<Seq<char>, Set<Seq<char>>>
    decreases ids.len(),
{
    if ids.len() == 0 {
        Map::empty()
    } else {
        let m = catalog_of(ids.drop_last());
        let ws = widget_state(strip_first_suffix(ids.last(), position_suffixes()));
        let prev = if m.contains_key(ws.0) {
            m[ws.0]
        } else {
            Set::empty()
        };
        m.insert(ws.0, prev.insert(ws.1))
    }
}

/// The texts are strictly increasing.
pub open spec fn strictly_sorted(s: Seq<Seq<char>>) -> bool {
    forall|i: int, j: int| 0 <= i < j < s.len() ==> lex_lt((#[trigger] s[i]), (#[trigger] s[j]))
}

/// Insert `x` into the strictly sorted `v` unless it is there.
fn insert_unique_sorted(v: &mut Vec<String>, x: String)
    requires
        strictly_sorted(texts(old(v)@)),
    ensures
        strictly_sorted(texts(final(v)@)),
        texts(final(v)@).to_set() == texts(old(v)@).to_set().insert(x@),
{
    let ghost o = texts(v@);
    let mut pos: usize = 0;
    while pos < v.len() && str_lt(v[pos].as_str(), x.as_str())
        invariant
            pos <= v.len(),
            o == texts(v@),
            forall|a: int| 0 <= a < pos ==> lex_lt((#[trigger] o[a]), x@),
        decreases v.len() - pos,
    {
        assert(o[pos as int] == v@[pos as int]@);
        pos += 1;
    }
    if pos < v.len() && str_eq(v[pos].as_str(), x.as_str()) {
        assert(o[pos as int] == x@);
        assert(o.to_set().insert(x@) =~= o.to_set());
        return;
    }
    proof {
        if pos < v.len() {
            assert(o[pos as int] == v@[pos as int]@);
            lemma_lex_total(o[pos as int], x@);
        }
    }
    let ghost xv = x@;
    v.insert(pos, x);
    let ghost n = texts(v@);
    assert(n =~= o.insert(pos as int, xv));
    proof {
        assert forall|a: int, b: int| 0 <= a < b < n.len() implies lex_lt((#[trigger] n[a]), (#[trigger] n[b])) by {
            if b < pos {
                assert(n[a] == o[a] && n[b] == o[b]);
            } else if b == pos {
                assert(n[a] == o[a]);
            } else if a == pos {
                assert(n[b] == o[b - 1]);
                if b - 1 > pos {
                    lemma_lex_trans(xv, o[pos as int], o[b - 1]);
                }
            } else if a < pos {
                assert(n[a] == o[a] && n[b] == o[b - 1]);
                lemma_lex_trans(o[a], xv, o[pos as int]);
                if b - 1 > pos {
                    lemma_lex_trans(o[a], o[pos as int], o[b - 1]);
                }
            } else {
                assert(n[a] == o[a - 1] && n[b] == o[b - 1]);
            }
        }
        assert forall|y: Seq<char>| n.to_set().contains(y) <==> o.to_set().insert(xv).contains(y) by {
            if n.contains(y) {
                let k = choose|k: int| 0 <= k < n.len() && n[k] == y;
                if k < pos {
                    assert(o[k] == y);
                } else if k > pos {
                    assert(o[k - 1] == y);
                }
            }
            if o.contains(y) {
                let k = choose|k: int| 0 <= k < o.len() && o[k] == y;
                if k < pos {
                    assert(n[k] == y);
                } else {
                    assert(n[k + 1] == y);
                }
            }
            if y == xv {
                assert(n[pos as int] == y);
            }
        }
        assert(n.to_set() =~= o.to_set().insert(xv));
    }
}

/// Catalog the named elements of the SVG by widget: each widget maps to
/// its states, sorted and without repeats.
pub fn catalog_elements(svg_content: &str) -> (r: KeyMap<Vec<String>>)
    ensures
        forall|w: Seq<char>|
            #[trigger] r@.contains_key(w) <==> catalog_of(all_ids(xml_tags(svg_content@))).contains_key(w),
        forall|w: Seq<char>|
            #[trigger] r@.contains_key(w) ==> strictly_sorted(texts(r@[w])) && texts(r@[w]).to_set()
                == catalog_of(all_ids(xml_tags(svg_content@)))[w],
{
    let ids = get_all_element_ids(svg_content);
    let ghost iv = texts(ids@);
    let mut catalog: KeyMap<Vec<String>> = KeyMap::new();
    let mut i: usize = 0;
    assert(iv.take(0) =~= Seq::<Seq<char>>::empty());
    while i < ids.len()
        invariant
            i <= ids.len(),
            iv == texts(ids@),
            forall|w: Seq<char>| #[trigger] catalog@.contains_key(w) <==> catalog_of(iv.take(i as int)).contains_key(w),
            forall|w: Seq<char>|
                #[trigger] catalog@.contains_key(w) ==> strictly_sorted(texts(catalog@[w])) && texts(catalog@[w]).to_set()
                    == catalog_of(iv.take(i as int))[w],
        decreases ids.len() - i,
    {
        assert(iv.take(i + 1).drop_last() =~= iv.take(i as int));
        assert(iv.take(i + 1).last() == ids@[i as int]@);
        let normalized = strip_position(ids[i].as_str());
        match split_widget_state(normalized.as_str()) {
            Some((widget, state)) => {
                let ghost before = catalog@;
                let mut states = match catalog.remove(widget.as_str()) {
                    Some(s) => s,
                    None => {
                        let e: Vec<String> = Vec::new();
                        assert(texts(e@) =~= Seq::<Seq<char>>::empty());
                        assert(texts(e@).to_set() =~= Set::<Seq<char>>::empty());
                        e
                    },
                };
                insert_unique_sorted(&mut states, state);
                catalog.insert(widget, states);
            },
            None => {},
        }
        i += 1;
    }
    assert(iv.take(i as int) =~= iv);
    catalog
}

} // verus!
