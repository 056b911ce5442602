//! Material You palettes extracted from a wallpaper, and reading the
//! window background colour of the KDE colour settings.

use vstd::prelude::*;
use crate::services::json::{field, get_member, json_text, parse_json, lemma_object_contents, member, members_contents, JsonV, JsonValue};
use crate::strmap::{pairs_map, StrMap};
use crate::text::{
    chars_of, has_prefix, line_ranges, lines, range_eq, split, split_ranges, string_of_range,
    trim, trim_bounds,
};

verus! {

broadcast use vstd::string::group_string_axioms;

/// The subset of palette colours most useful for theming.
pub open spec fn key_colors() -> Seq<Seq<char>> {
    seq![
        "source_color"@,
        "primary"@,
        "on_primary"@,
        "primary_container"@,
        "secondary"@,
        "on_secondary"@,
        "secondary_container"@,
        "tertiary"@,
        "on_tertiary"@,
        "tertiary_container"@,
        "surface"@,
        "on_surface"@,
        "surface_variant"@,
        "on_surface_variant"@,
        "background"@,
        "on_background"@,
        "outline"@,
        "error"@,
    ]
}

/// One colour of an extracted palette: its name and its dark and light
/// variants, where present.
#[derive(Clone, Debug)]
pub struct PaletteColor {
    pub name: String,
    pub dark: Option<String>,
    pub light: Option<String>,
}

/// The pairs (name, variant) of the colours that have the chosen variant.
pub open spec fn variant_pairs(cs: Seq<PaletteColor>, dark: bool) -> Seq<(Seq<char>, Seq<char>)>
    decreases cs.len(),
{
    if cs.len() == 0 {
        Seq::empty()
    } else {
        let prev = variant_pairs(cs.drop_last(), dark);
        let c = cs.last();
        match if dark { c.dark } else { c.light } {
            Some(v) => prev.push((c.name@, v@)),
            None => prev,
        }
    }
}

/// A Material You colour palette extracted from an image.
#[derive(Clone, Debug, PartialEq)]
pub struct MatugenPalette {
    /// Path to the source image.
    pub image_path: String,
    /// Dark-mode colours: colour name to hex text (e.g. `#1a1110`).
    pub dark: StrMap,
    /// Light-mode colours.
    pub light: StrMap,
}

impl MatugenPalette {
    /// The subset of colours most useful for theming.
    pub fn key_colors() -> (r: Vec<&'static str>)
        ensures
            r@.map_values(|s: &str| s@) == key_colors(),
    {
        let mut r: Vec<&'static str> = Vec::new();
        r.push("source_color");
        r.push("primary");
        r.push("on_primary");
        r.push("primary_container");
        r.push("secondary");
        r.push("on_secondary");
        r.push("secondary_container");
        r.push("tertiary");
        r.push("on_tertiary");
        r.push("tertiary_container");
        r.push("surface");
        r.push("on_surface");
        r.push("surface_variant");
        r.push("on_surface_variant");
        r.push("background");
        r.push("on_background");
        r.push("outline");
        r.push("error");
        assert(r@.map_values(|s: &str| s@) =~= key_colors());
        r
    }

    /// The palette of the given colours: each colour's dark variant in
    /// `dark` and its light variant in `light`, where present (a later
    /// colour of the same name wins).
    pub fn from_colors(image_path: &str, colors: &Vec<PaletteColor>) -> (p: Self)
        ensures
            p.image_path@ == image_path@,
            p.dark@ == pairs_map(variant_pairs(colors@, true)),
            p.light@ == pairs_map(variant_pairs(colors@, false)),
    {
        let mut dark = StrMap::new();
        let mut light = StrMap::new();
        let mut i: usize = 0;
        while i < colors.len()
            invariant
                i <= colors.len(),
                dark@ == pairs_map(variant_pairs(colors@.take(i as int), true)),
                light@ == pairs_map(variant_pairs(colors@.take(i as int), false)),
            decreases colors.len() - i,
        {
            let c = &colors[i];
            assert(colors@.take(i + 1).drop_last() =~= colors@.take(i as int));
            assert(colors@.take(i + 1).last() == *c);
            let ghost vd = variant_pairs(colors@.take(i as int), true);
            let ghost vl = variant_pairs(colors@.take(i as int), false);
            match &c.dark {
                Some(v) => {
                    assert(vd.push((c.name@, v@)).drop_last() =~= vd);
                    dark.insert(c.name.clone(), v.clone());
                },
                None => {},
            }
            match &c.light {
                Some(v) => {
                    assert(vl.push((c.name@, v@)).drop_last() =~= vl);
                    light.insert(c.name.clone(), v.clone());
                },
                None => {},
            }
            i += 1;
        }
        assert(colors@.take(i as int) =~= colors@);
        MatugenPalette { image_path: image_path.to_string(), dark, light }
    }
}

// ---------------------------------------------------------------------------
// Palettes read from `matugen --json hex`
// ---------------------------------------------------------------------------

/// The `color` text of the `which` variant (`dark` or `light`) of a
/// colour's entry, when the entry, the variant and the text are there.
pub open spec fn variant_color(entry: JsonV, which: Seq<char>) -> Option<Seq<char>> {
    match field(entry, which) {
        Some(v) => match v {
            JsonV::Object(ms) => match member(ms, "color"@) {
                Some(c) => match c {
                    JsonV::Text(t) => Some(t),
                    _ => None,
                },
                None => None,
            },
            _ => None,
        },
        None => None,
    }
}

/// The pairs (name, colour) of the `which` variant of the colours in
/// `colors`, in order.
pub open spec fn json_variant_pairs(colors: Seq<(Seq<char>, JsonV)>, which: Seq<char>) -> Seq<(Seq<char>, Seq<char>)>
    decreases colors.len(),
{
    if colors.len() == 0 {
        Seq::empty()
    } else {
        let prev = json_variant_pairs(colors.drop_last(), which);
        match variant_color(colors.last().1, which) {
            Some(c) => prev.push((colors.last().0, c)),
            None => prev,
        }
    }
}

/// The colours of a `matugen` document: the members of its `colors`
/// object, or `None` when there is no such object.
pub open spec fn matugen_colors(doc: JsonV) -> Option<Seq<(Seq<char>, JsonV)>> {
    match field(doc, "colors"@) {
        Some(v) => match v {
            JsonV::Object(ms) => Some(ms),
            _ => None,
        },
        None => None,
    }
}

/// The `color` text of the `which` variant of a colour's entry.
fn variant_color_of(entry: &JsonValue, which: &str) -> (r: Option<String>)
    ensures
        match r {
            Some(t) => variant_color(entry.contents(), which@) == Some(t@),
            None => variant_color(entry.contents(), which@) is None,
        },
{
    match entry {
        JsonValue::Object(ms) => {
            proof {
                lemma_object_contents(*ms);
            }
            match get_member(ms, which) {
                Some(v) => match v {
                    JsonValue::Object(inner) => {
                        proof {
                            lemma_object_contents(*inner);
                        }
                        match get_member(inner, "color") {
                            Some(c) => match c {
                                JsonValue::Text(t) => Some(t.clone()),
                                _ => None,
                            },
                            None => None,
                        }
                    },
                    _ => None,
                },
                None => None,
            }
        },
        _ => None,
    }
}

/// The palette of a `matugen --json hex` document: for each colour under
/// `colors`, its `dark.color` and `light.color`; `None` when the document
/// has no `colors` object.
pub fn palette_from_json(doc: &JsonValue, image_path: &str) -> (r: Option<MatugenPalette>)
    ensures
        match matugen_colors(doc.contents()) {
            Some(colors) => r matches Some(p) && {
                &&& p.image_path@ == image_path@
                &&& p.dark@ == pairs_map(json_variant_pairs(colors, "dark"@))
                &&& p.light@ == pairs_map(json_variant_pairs(colors, "light"@))
            },
            None => r is None,
        },
{
    let top = match doc {
        JsonValue::Object(top) => top,
        _ => return None,
    };
    proof {
        lemma_object_contents(*top);
    }
    let colors = match get_member(top, "colors") {
        Some(JsonValue::Object(colors)) => colors,
        _ => return None,
    };
    proof {
        lemma_object_contents(*colors);
    }
    let ghost es = members_contents(colors@);
    let mut list: Vec<PaletteColor> = Vec::new();
    let mut i: usize = 0;
    while i < colors.len()
        invariant
            i <= colors.len(),
            es == members_contents(colors@),
            variant_pairs(list@, true) == json_variant_pairs(es.take(i as int), "dark"@),
            variant_pairs(list@, false) == json_variant_pairs(es.take(i as int), "light"@),
        decreases colors.len() - i,
    {
        let (name, entry) = (&colors[i].0, &colors[i].1);
        assert(es.take(i + 1).drop_last() =~= es.take(i as int));
        assert(es.take(i + 1).last() == (name@, entry.contents()));
        let is_object = match entry {
            JsonValue::Object(_) => true,
            _ => false,
        };
        if is_object {
            let dark = variant_color_of(entry, "dark");
            let light = variant_color_of(entry, "light");
            let ghost before = list@;
            list.push(PaletteColor { name: name.clone(), dark, light });
            assert(list@.drop_last() =~= before);
        } else {
            assert(field(entry.contents(), "dark"@) is None);
            assert(field(entry.contents(), "light"@) is None);
        }
        i += 1;
    }
    assert(es.take(i as int) =~= es);
    Some(MatugenPalette::from_colors(image_path, &list))
}

/// Read `matugen --json hex` output: for each colour under `colors`, its
/// `dark.color` and `light.color` texts; `None` when the text is not JSON
/// or has no `colors` object.
pub fn parse_matugen_json(json: &str, image_path: &str) -> (r: Option<MatugenPalette>)
    ensures
        match json_text(json@) {
            Some(doc) => match matugen_colors(doc) {
                Some(colors) => r matches Some(p) && {
                    &&& p.image_path@ == image_path@
                    &&& p.dark@ == pairs_map(json_variant_pairs(colors, "dark"@))
                    &&& p.light@ == pairs_map(json_variant_pairs(colors, "light"@))
                },
                None => r is None,
            },
            None => r is None,
        },
{
    match parse_json(json) {
        Some(doc) => palette_from_json(&doc, image_path),
        None => None,
    }
}

// ---------------------------------------------------------------------------
// KDE colour settings
// ---------------------------------------------------------------------------

/// The three comma-separated parts of the first `BackgroundNormal=` value
/// (trimmed) found in `[Colors:Window]`, scanning `ls` with `in_window`
/// telling whether the scan is inside that section.  A value with fewer
/// than three parts is passed over.
pub open spec fn window_background(ls: Seq<Seq<char>>, in_window: bool) -> Option<
    (Seq<char>, Seq<char>, Seq<char>),
>
    decreases ls.len(),
{
    if ls.len() == 0 {
        None
    } else {
        let t = trim(ls[0]);
        if t.len() > 0 && t[0] == '[' {
            window_background(ls.drop_first(), t == "[Colors:Window]"@)
        } else if in_window && has_prefix(t, "BackgroundNormal="@) && split(
            t.skip(17),
            ',',
        ).len() >= 3 {
            let p = split(t.skip(17), ',');
            Some((trim(p[0]), trim(p[1]), trim(p[2])))
        } else {
            window_background(ls.drop_first(), in_window)
        }
    }
}

/// The red, green and blue parts (as text) of the window background in a
/// `kdeglobals` file: `[Colors:Window]` → `BackgroundNormal=R,G,B`.
pub fn window_background_parts(content: &str) -> (r: Option<(String, String, String)>)
    ensures
        match r {
            Some((a, b, c)) => window_background(lines(content@), false) == Some((a@, b@, c@)),
            None => window_background(lines(content@), false) is None,
        },
{
    let v = chars_of(content);
    let ranges = line_ranges(&v);
    let ghost ls = lines(content@);
    let header = chars_of("[Colors:Window]");
    let key = chars_of("BackgroundNormal=");
    proof {
        reveal_strlit("BackgroundNormal=");
    }
    assert(key@.len() == 17);
    let mut in_window = false;
    let mut k: usize = 0;
    assert(ls.skip(0) =~= ls);
    while k < ranges.len()
        invariant
            k <= ranges.len(),
            v@ == content@,
            header@ == "[Colors:Window]"@,
            key@ == "BackgroundNormal="@,
            key@.len() == 17,
            ls == lines(content@),
            ranges.len() == ls.len(),
            forall|j: int|
                0 <= j < ranges.len() ==> (#[trigger] ranges[j]).0 <= ranges[j].1 <= v.len()
                    && v@.subrange(ranges[j].0 as int, ranges[j].1 as int) == ls[j],
            window_background(ls, false) == window_background(ls.skip(k as int), in_window),
        decreases ranges.len() - k,
    {
        let (lo, hi) = ranges[k];
        let (a, b) = trim_bounds(&v, lo, hi);
        let ghost t = trim(ls[k as int]);
        assert(v@.subrange(a as int, b as int) == t);
        let ghost rest = ls.skip(k as int);
        assert(rest[0] == ls[k as int]);
        assert(rest.drop_first() =~= ls.skip(k + 1));
        if a < b && v[a] == '[' {
            in_window = range_eq(&v, a, b, &header, 0, header.len());
            assert(header@.subrange(0, header@.len() as int) =~= header@);
        } else {
            let is_key = b - a >= key.len() && range_eq(&v, a, a + key.len(), &key, 0, key.len());
            proof {
                assert(key@.subrange(0, key@.len() as int) =~= key@);
                if b - a >= 17 {
                    assert(v@.subrange(a as int, a + 17) =~= t.take(17));
                }
            }
            if in_window && is_key {
                let parts = split_ranges(&v, a + key.len(), b, ',');
                assert(v@.subrange(a + 17, b as int) =~= t.skip(17));
                if parts.len() >= 3 {
                    let (p0, q0) = parts[0];
                    let (p1, q1) = parts[1];
                    let (p2, q2) = parts[2];
                    let (x0, y0) = trim_bounds(&v, p0, q0);
                    let (x1, y1) = trim_bounds(&v, p1, q1);
                    let (x2, y2) = trim_bounds(&v, p2, q2);
                    let r0 = string_of_range(&v, x0, y0);
                    let r1 = string_of_range(&v, x1, y1);
                    let r2 = string_of_range(&v, x2, y2);
                    return Some((r0, r1, r2));
                }
            }
        }
        k += 1;
    }
    None
}

// ---------------------------------------------------------------------------
// The wallpaper named in KDE's settings
// ---------------------------------------------------------------------------

/// The image path an `Image=<path>` line names: the text after `Image=`
/// (at least one character), trimmed, without a leading `file://`.
pub open spec fn image_of_line(l: Seq<char>) -> Option<Seq<char>> {
    if has_prefix(l, "Image="@) && l.len() > 6 {
        let raw = trim(l.skip(6));
        Some(
            if has_prefix(raw, "file://"@) {
                raw.skip(7)
            } else {
                raw
            },
        )
    } else {
        None
    }
}

/// The image paths named by the lines of `ls`, in order.
pub open spec fn images_of_lines(ls: Seq<Seq<char>>) -> Seq<Seq<char>>
    decreases ls.len(),
{
    if ls.len() == 0 {
        Seq::empty()
    } else {
        let prev = images_of_lines(ls.drop_last());
        match image_of_line(ls.last()) {
            Some(p) => prev.push(p),
            None => prev,
        }
    }
}

/// The image paths that `Image=` lines of a KDE settings file name, in
/// order (`(?m)^Image=(.+)$`, trimmed, `file://` dropped).  The first one
/// that exists on disk is the wallpaper.
pub fn wallpaper_image_candidates(content: &str) -> (r: Vec<String>)
    ensures
        r@.map_values(|s: String| s@) == images_of_lines(split(content@, '\n')),
{
    let v = chars_of(content);
    let ranges = split_ranges(&v, 0, v.len(), '\n');
    let ghost ls = split(content@, '\n');
    assert(v@.subrange(0, v@.len() as int) =~= v@);
    let key = chars_of("Image=");
    let scheme = chars_of("file://");
    proof {
        reveal_strlit("Image=");
        reveal_strlit("file://");
    }
    assert(key@.len() == 6);
    assert(scheme@.len() == 7);
    let mut out: Vec<String> = Vec::new();
    let mut k: usize = 0;
    assert(ls.take(0) =~= Seq::<Seq<char>>::empty());
    while k < ranges.len()
        invariant
            k <= ranges.len(),
            ranges.len() == ls.len(),
            ls == split(v@, '\n'),
            v@ == content@,
            key@ == "Image="@,
            scheme@ == "file://"@,
            key@.len() == 6,
            scheme@.len() == 7,
            forall|j: int|
                0 <= j < ranges.len() ==> (#[trigger] ranges[j]).0 <= ranges[j].1 <= v.len()
                    && v@.subrange(ranges[j].0 as int, ranges[j].1 as int) == ls[j],
            out@.map_values(|s: String| s@) == images_of_lines(ls.take(k as int)),
        decreases ranges.len() - k,
    {
        let (lo, hi) = ranges[k];
        let ghost l = ls[k as int];
        assert(v@.subrange(lo as int, hi as int) == l);
        assert(ls.take(k + 1).drop_last() =~= ls.take(k as int));
        assert(ls.take(k + 1).last() == l);
        let is_image = hi - lo > 6 && range_eq(&v, lo, lo + 6, &key, 0, 6);
        proof {
            assert(key@.subrange(0, 6) =~= key@);
            if hi - lo > 6 {
                assert(l.take(6) =~= v@.subrange(lo as int, lo + 6));
            }
        }
        if is_image {
            let (a, b) = trim_bounds(&v, lo + 6, hi);
            assert(v@.subrange(lo + 6, hi as int) =~= l.skip(6));
            let ghost raw = l.skip(6);
            let has_scheme = b - a >= 7 && range_eq(&v, a, a + 7, &scheme, 0, 7);
            proof {
                assert(scheme@.subrange(0, 7) =~= scheme@);
                if b - a >= 7 {
                    assert(trim(raw).take(7) =~= v@.subrange(a as int, a + 7));
                }
            }
            let p = if has_scheme {
                assert(v@.subrange(a + 7, b as int) =~= trim(raw).skip(7));
                string_of_range(&v, a + 7, b)
            } else {
                string_of_range(&v, a, b)
            };
            assert(image_of_line(l) == Some(p@));
            out.push(p);
            assert(out@.map_values(|s: String| s@) =~= images_of_lines(ls.take(k + 1)));
        } else {
            assert(image_of_line(l) is None);
        }
        k += 1;
    }
    assert(ls.take(k as int) =~= ls);
    out
}

} // verus!
