//! Applying a wallpaper palette to Klassy and Kvantum: which palette
//! colour goes where, hex colour literals, and the names and digests used
//! for the derived Plasma colour scheme.

use vstd::prelude::*;
use sha1::Digest;
use crate::color::{color_text_ok, kvantum_text, klassy_text, opaque, to_klassy_color, Rgba};
use crate::models::klassy::config::{klassy_set, KlassyConfig, KlassyModel};
use crate::models::kvantum::colors::KvantumColors;
use crate::models::values::{color_at, color_ok, color_readable, get_color};
use crate::num::{hex2, push_hex2};
use crate::strmap::StrMap;
use crate::text::{all_ascii, has_prefix, has_suffix, push_char};

verus! {

broadcast use vstd::string::group_string_axioms;

// ---------------------------------------------------------------------------
// Palette colour → setting
// ---------------------------------------------------------------------------

/// Klassy `(section, key)` and the palette colour written there.
pub open spec fn klassy_mapping() -> Seq<(Seq<char>, Seq<char>, Seq<char>)> {
    seq![
        ("ShadowStyle"@, "ShadowColor"@, "shadow"@),
        ("Windeco"@, "WindowOutlineCustomColorActive"@, "primary"@),
        ("Windeco"@, "WindowOutlineCustomColorInactive"@, "outline"@),
    ]
}

/// Kvantum `[GeneralColors]` key and the palette colour written there.
pub open spec fn kvantum_mapping() -> Seq<(Seq<char>, Seq<char>)> {
    seq![
        ("window.color"@, "surface"@),
        ("base.color"@, "background"@),
        ("alt.base.color"@, "surface_variant"@),
        ("button.color"@, "surface_variant"@),
        ("light.color"@, "on_surface"@),
        ("mid.light.color"@, "on_surface_variant"@),
        ("dark.color"@, "outline"@),
        ("mid.color"@, "outline"@),
        ("highlight.color"@, "primary"@),
        ("inactive.highlight.color"@, "primary_container"@),
        ("text.color"@, "on_surface"@),
        ("window.text.color"@, "on_surface"@),
        ("button.text.color"@, "on_surface"@),
        ("disabled.text.color"@, "on_surface_variant"@),
        ("tooltip.text.color"@, "on_surface"@),
        ("highlight.text.color"@, "on_primary"@),
        ("link.color"@, "primary"@),
        ("link.visited.color"@, "tertiary"@),
        ("progress.indicator.text.color"@, "on_primary"@),
    ]
}

/// What the palette colours are for: every Kvantum text colour is taken
/// from a colour for content drawn on a surface (an `on_…` colour), and the
/// text on the window and on the highlight uses the `on_` colour of the
/// window's and the highlight's own palette colour, so text stays
/// readable on its background.
pub proof fn lemma_kvantum_mapping_roles()
    ensures
        forall|i: int|
            0 <= i < kvantum_mapping().len() && has_suffix(#[trigger] kvantum_mapping()[i].0, "text.color"@)
                ==> has_prefix(kvantum_mapping()[i].1, "on_"@),
        forall|i: int, j: int| 0 <= i < kvantum_mapping().len() && 0 <= j < kvantum_mapping().len() && kvantum_mapping()[i].0 == "window.color"@ && kvantum_mapping()[j].0 == "text.color"@ ==> kvantum_mapping()[j].1 == "on_"@ + kvantum_mapping()[i].1,
        forall|i: int, j: int| 0 <= i < kvantum_mapping().len() && 0 <= j < kvantum_mapping().len() && kvantum_mapping()[i].0 == "window.color"@ && kvantum_mapping()[j].0 == "window.text.color"@ ==> kvantum_mapping()[j].1 == "on_"@ + kvantum_mapping()[i].1,
        forall|i: int, j: int| 0 <= i < kvantum_mapping().len() && 0 <= j < kvantum_mapping().len() && kvantum_mapping()[i].0 == "highlight.color"@ && kvantum_mapping()[j].0 == "highlight.text.color"@ ==> kvantum_mapping()[j].1 == "on_"@ + kvantum_mapping()[i].1,
{
    let m = kvantum_mapping();
    reveal_strlit("alt.base.color");
    reveal_strlit("background");
    reveal_strlit("base.color");
    reveal_strlit("button.color");
    reveal_strlit("button.text.color");
    reveal_strlit("dark.color");
    reveal_strlit("disabled.text.color");
    reveal_strlit("highlight.color");
    reveal_strlit("highlight.text.color");
    reveal_strlit("inactive.highlight.color");
    reveal_strlit("light.color");
    reveal_strlit("link.color");
    reveal_strlit("link.visited.color");
    reveal_strlit("mid.color");
    reveal_strlit("mid.light.color");
    reveal_strlit("on_");
    reveal_strlit("on_primary");
    reveal_strlit("on_surface");
    reveal_strlit("on_surface_variant");
    reveal_strlit("outline");
    reveal_strlit("primary");
    reveal_strlit("primary_container");
    reveal_strlit("progress.indicator.text.color");
    reveal_strlit("surface");
    reveal_strlit("surface_variant");
    reveal_strlit("tertiary");
    reveal_strlit("text.color");
    reveal_strlit("tooltip.text.color");
    reveal_strlit("window.color");
    reveal_strlit("window.text.color");
    assert forall|i: int| 0 <= i < m.len() && has_suffix(#[trigger] m[i].0, "text.color"@) implies has_prefix(m[i].1, "on_"@) by {
            if i == 0 { assert("window.color"@.skip(2)[0] != "text.color"@[0]); }
            if i == 1 { assert("base.color"@.skip(0)[0] != "text.color"@[0]); }
            if i == 2 { assert("alt.base.color"@.skip(4)[0] != "text.color"@[0]); }
            if i == 3 { assert("button.color"@.skip(2)[1] != "text.color"@[1]); }
            if i == 4 { assert("light.color"@.skip(1)[0] != "text.color"@[0]); }
            if i == 5 { assert("mid.light.color"@.skip(5)[0] != "text.color"@[0]); }
            if i == 6 { assert("dark.color"@.skip(0)[0] != "text.color"@[0]); }
            if i == 7 { assert(!has_suffix("mid.color"@, "text.color"@)); }
            if i == 8 { assert("highlight.color"@.skip(5)[0] != "text.color"@[0]); }
            if i == 9 { assert("inactive.highlight.color"@.skip(14)[0] != "text.color"@[0]); }
            if i == 10 { assert("text.color"@.skip(0) =~= "text.color"@); assert("on_surface"@.take(3) =~= "on_"@); }
            if i == 11 { assert("window.text.color"@.skip(7) =~= "text.color"@); assert("on_surface"@.take(3) =~= "on_"@); }
            if i == 12 { assert("button.text.color"@.skip(7) =~= "text.color"@); assert("on_surface"@.take(3) =~= "on_"@); }
            if i == 13 { assert("disabled.text.color"@.skip(9) =~= "text.color"@); assert("on_surface_variant"@.take(3) =~= "on_"@); }
            if i == 14 { assert("tooltip.text.color"@.skip(8) =~= "text.color"@); assert("on_surface"@.take(3) =~= "on_"@); }
            if i == 15 { assert("highlight.text.color"@.skip(10) =~= "text.color"@); assert("on_primary"@.take(3) =~= "on_"@); }
            if i == 16 { assert("link.color"@.skip(0)[0] != "text.color"@[0]); }
            if i == 17 { assert("link.visited.color"@.skip(8)[0] != "text.color"@[0]); }
            if i == 18 { assert("progress.indicator.text.color"@.skip(19) =~= "text.color"@); assert("on_primary"@.take(3) =~= "on_"@); }
    }
    assert forall|i: int| 0 <= i < m.len() && m[i].0 == "window.color"@ implies i == 0 by {
            if i == 1 { assert("base.color"@[0] != "window.color"@[0]); }
            if i == 2 { assert("alt.base.color"@[0] != "window.color"@[0]); }
            if i == 3 { assert("button.color"@[0] != "window.color"@[0]); }
            if i == 4 { assert("light.color"@[0] != "window.color"@[0]); }
            if i == 5 { assert("mid.light.color"@[0] != "window.color"@[0]); }
            if i == 6 { assert("dark.color"@[0] != "window.color"@[0]); }
            if i == 7 { assert("mid.color"@[0] != "window.color"@[0]); }
            if i == 8 { assert("highlight.color"@[0] != "window.color"@[0]); }
            if i == 9 { assert("inactive.highlight.color"@[0] != "window.color"@[0]); }
            if i == 10 { assert("text.color"@[0] != "window.color"@[0]); }
            if i == 11 { assert("window.text.color"@[7] != "window.color"@[7]); }
            if i == 12 { assert("button.text.color"@[0] != "window.color"@[0]); }
            if i == 13 { assert("disabled.text.color"@[0] != "window.color"@[0]); }
            if i == 14 { assert("tooltip.text.color"@[0] != "window.color"@[0]); }
            if i == 15 { assert("highlight.text.color"@[0] != "window.color"@[0]); }
            if i == 16 { assert("link.color"@[0] != "window.color"@[0]); }
            if i == 17 { assert("link.visited.color"@[0] != "window.color"@[0]); }
            if i == 18 { assert("progress.indicator.text.color"@[0] != "window.color"@[0]); }
    }
    assert forall|i: int| 0 <= i < m.len() && m[i].0 == "text.color"@ implies i == 10 by {
            if i == 0 { assert("window.color"@[0] != "text.color"@[0]); }
            if i == 1 { assert("base.color"@[0] != "text.color"@[0]); }
            if i == 2 { assert("alt.base.color"@[0] != "text.color"@[0]); }
            if i == 3 { assert("button.color"@[0] != "text.color"@[0]); }
            if i == 4 { assert("light.color"@[0] != "text.color"@[0]); }
            if i == 5 { assert("mid.light.color"@[0] != "text.color"@[0]); }
            if i == 6 { assert("dark.color"@[0] != "text.color"@[0]); }
            if i == 7 { assert("mid.color"@[0] != "text.color"@[0]); }
            if i == 8 { assert("highlight.color"@[0] != "text.color"@[0]); }
            if i == 9 { assert("inactive.highlight.color"@[0] != "text.color"@[0]); }
            if i == 11 { assert("window.text.color"@[0] != "text.color"@[0]); }
            if i == 12 { assert("button.text.color"@[0] != "text.color"@[0]); }
            if i == 13 { assert("disabled.text.color"@[0] != "text.color"@[0]); }
            if i == 14 { assert("tooltip.text.color"@[1] != "text.color"@[1]); }
            if i == 15 { assert("highlight.text.color"@[0] != "text.color"@[0]); }
            if i == 16 { assert("link.color"@[0] != "text.color"@[0]); }
            if i == 17 { assert("link.visited.color"@[0] != "text.color"@[0]); }
            if i == 18 { assert("progress.indicator.text.color"@[0] != "text.color"@[0]); }
    }
    assert("on_surface"@ =~= "on_"@ + "surface"@);
    assert forall|i: int| 0 <= i < m.len() && m[i].0 == "window.color"@ implies i == 0 by {
            if i == 1 { assert("base.color"@[0] != "window.color"@[0]); }
            if i == 2 { assert("alt.base.color"@[0] != "window.color"@[0]); }
            if i == 3 { assert("button.color"@[0] != "window.color"@[0]); }
            if i == 4 { assert("light.color"@[0] != "window.color"@[0]); }
            if i == 5 { assert("mid.light.color"@[0] != "window.color"@[0]); }
            if i == 6 { assert("dark.color"@[0] != "window.color"@[0]); }
            if i == 7 { assert("mid.color"@[0] != "window.color"@[0]); }
            if i == 8 { assert("highlight.color"@[0] != "window.color"@[0]); }
            if i == 9 { assert("inactive.highlight.color"@[0] != "window.color"@[0]); }
            if i == 10 { assert("text.color"@[0] != "window.color"@[0]); }
            if i == 11 { assert("window.text.color"@[7] != "window.color"@[7]); }
            if i == 12 { assert("button.text.color"@[0] != "window.color"@[0]); }
            if i == 13 { assert("disabled.text.color"@[0] != "window.color"@[0]); }
            if i == 14 { assert("tooltip.text.color"@[0] != "window.color"@[0]); }
            if i == 15 { assert("highlight.text.color"@[0] != "window.color"@[0]); }
            if i == 16 { assert("link.color"@[0] != "window.color"@[0]); }
            if i == 17 { assert("link.visited.color"@[0] != "window.color"@[0]); }
            if i == 18 { assert("progress.indicator.text.color"@[0] != "window.color"@[0]); }
    }
    assert forall|i: int| 0 <= i < m.len() && m[i].0 == "window.text.color"@ implies i == 11 by {
            if i == 0 { assert("window.color"@[7] != "window.text.color"@[7]); }
            if i == 1 { assert("base.color"@[0] != "window.text.color"@[0]); }
            if i == 2 { assert("alt.base.color"@[0] != "window.text.color"@[0]); }
            if i == 3 { assert("button.color"@[0] != "window.text.color"@[0]); }
            if i == 4 { assert("light.color"@[0] != "window.text.color"@[0]); }
            if i == 5 { assert("mid.light.color"@[0] != "window.text.color"@[0]); }
            if i == 6 { assert("dark.color"@[0] != "window.text.color"@[0]); }
            if i == 7 { assert("mid.color"@[0] != "window.text.color"@[0]); }
            if i == 8 { assert("highlight.color"@[0] != "window.text.color"@[0]); }
            if i == 9 { assert("inactive.highlight.color"@[0] != "window.text.color"@[0]); }
            if i == 10 { assert("text.color"@[0] != "window.text.color"@[0]); }
            if i == 12 { assert("button.text.color"@[0] != "window.text.color"@[0]); }
            if i == 13 { assert("disabled.text.color"@[0] != "window.text.color"@[0]); }
            if i == 14 { assert("tooltip.text.color"@[0] != "window.text.color"@[0]); }
            if i == 15 { assert("highlight.text.color"@[0] != "window.text.color"@[0]); }
            if i == 16 { assert("link.color"@[0] != "window.text.color"@[0]); }
            if i == 17 { assert("link.visited.color"@[0] != "window.text.color"@[0]); }
            if i == 18 { assert("progress.indicator.text.color"@[0] != "window.text.color"@[0]); }
    }
    assert("on_surface"@ =~= "on_"@ + "surface"@);
    assert forall|i: int| 0 <= i < m.len() && m[i].0 == "highlight.color"@ implies i == 8 by {
            if i == 0 { assert("window.color"@[0] != "highlight.color"@[0]); }
            if i == 1 { assert("base.color"@[0] != "highlight.color"@[0]); }
            if i == 2 { assert("alt.base.color"@[0] != "highlight.color"@[0]); }
            if i == 3 { assert("button.color"@[0] != "highlight.color"@[0]); }
            if i == 4 { assert("light.color"@[0] != "highlight.color"@[0]); }
            if i == 5 { assert("mid.light.color"@[0] != "highlight.color"@[0]); }
            if i == 6 { assert("dark.color"@[0] != "highlight.color"@[0]); }
            if i == 7 { assert("mid.color"@[0] != "highlight.color"@[0]); }
            if i == 9 { assert("inactive.highlight.color"@[0] != "highlight.color"@[0]); }
            if i == 10 { assert("text.color"@[0] != "highlight.color"@[0]); }
            if i == 11 { assert("window.text.color"@[0] != "highlight.color"@[0]); }
            if i == 12 { assert("button.text.color"@[0] != "highlight.color"@[0]); }
            if i == 13 { assert("disabled.text.color"@[0] != "highlight.color"@[0]); }
            if i == 14 { assert("tooltip.text.color"@[0] != "highlight.color"@[0]); }
            if i == 15 { assert("highlight.text.color"@[10] != "highlight.color"@[10]); }
            if i == 16 { assert("link.color"@[0] != "highlight.color"@[0]); }
            if i == 17 { assert("link.visited.color"@[0] != "highlight.color"@[0]); }
            if i == 18 { assert("progress.indicator.text.color"@[0] != "highlight.color"@[0]); }
    }
    assert forall|i: int| 0 <= i < m.len() && m[i].0 == "highlight.text.color"@ implies i == 15 by {
            if i == 0 { assert("window.color"@[0] != "highlight.text.color"@[0]); }
            if i == 1 { assert("base.color"@[0] != "highlight.text.color"@[0]); }
            if i == 2 { assert("alt.base.color"@[0] != "highlight.text.color"@[0]); }
            if i == 3 { assert("button.color"@[0] != "highlight.text.color"@[0]); }
            if i == 4 { assert("light.color"@[0] != "highlight.text.color"@[0]); }
            if i == 5 { assert("mid.light.color"@[0] != "highlight.text.color"@[0]); }
            if i == 6 { assert("dark.color"@[0] != "highlight.text.color"@[0]); }
            if i == 7 { assert("mid.color"@[0] != "highlight.text.color"@[0]); }
            if i == 8 { assert("highlight.color"@[10] != "highlight.text.color"@[10]); }
            if i == 9 { assert("inactive.highlight.color"@[0] != "highlight.text.color"@[0]); }
            if i == 10 { assert("text.color"@[0] != "highlight.text.color"@[0]); }
            if i == 11 { assert("window.text.color"@[0] != "highlight.text.color"@[0]); }
            if i == 12 { assert("button.text.color"@[0] != "highlight.text.color"@[0]); }
            if i == 13 { assert("disabled.text.color"@[0] != "highlight.text.color"@[0]); }
            if i == 14 { assert("tooltip.text.color"@[0] != "highlight.text.color"@[0]); }
            if i == 16 { assert("link.color"@[0] != "highlight.text.color"@[0]); }
            if i == 17 { assert("link.visited.color"@[0] != "highlight.text.color"@[0]); }
            if i == 18 { assert("progress.indicator.text.color"@[0] != "highlight.text.color"@[0]); }
    }
    assert("on_primary"@ =~= "on_"@ + "primary"@);
}

/// Mapping from Klassy `(section, key)` to a palette colour name.
pub fn klassy_color_mapping() -> (r: Vec<(&'static str, &'static str, &'static str)>)
    ensures
        r@.map_values(|t: (&'static str, &'static str, &'static str)| (t.0@, t.1@, t.2@))
            == klassy_mapping(),
{
    let mut r: Vec<(&'static str, &'static str, &'static str)> = Vec::new();
    r.push(("ShadowStyle", "ShadowColor", "shadow"));
    r.push(("Windeco", "WindowOutlineCustomColorActive", "primary"));
    r.push(("Windeco", "WindowOutlineCustomColorInactive", "outline"));
    assert(r@.map_values(|t: (&'static str, &'static str, &'static str)| (t.0@, t.1@, t.2@))
        =~= klassy_mapping());
    r
}

/// Mapping from a Kvantum `[GeneralColors]` key to a palette colour name.
pub fn kvantum_color_mapping() -> (r: Vec<(&'static str, &'static str)>)
    ensures
        r@.map_values(|t: (&'static str, &'static str)| (t.0@, t.1@)) == kvantum_mapping(),
{
    let mut r: Vec<(&'static str, &'static str)> = Vec::new();
    r.push(("window.color", "surface"));
    r.push(("base.color", "background"));
    r.push(("alt.base.color", "surface_variant"));
    r.push(("button.color", "surface_variant"));
    r.push(("light.color", "on_surface"));
    r.push(("mid.light.color", "on_surface_variant"));
    r.push(("dark.color", "outline"));
    r.push(("mid.color", "outline"));
    r.push(("highlight.color", "primary"));
    r.push(("inactive.highlight.color", "primary_container"));
    r.push(("text.color", "on_surface"));
    r.push(("window.text.color", "on_surface"));
    r.push(("button.text.color", "on_surface"));
    r.push(("disabled.text.color", "on_surface_variant"));
    r.push(("tooltip.text.color", "on_surface"));
    r.push(("highlight.text.color", "on_primary"));
    r.push(("link.color", "primary"));
    r.push(("link.visited.color", "tertiary"));
    r.push(("progress.indicator.text.color", "on_primary"));
    assert(r@.map_values(|t: (&'static str, &'static str)| (t.0@, t.1@)) =~= kvantum_mapping());
    r
}

/// Every palette colour that the Kvantum mapping reads can be read without
/// panicking.
pub open spec fn kvantum_palette_ok(variant: Map<Seq<char>, Seq<char>>) -> bool {
    forall|i: int| 0 <= i < kvantum_mapping().len() ==> color_ok(variant, (#[trigger] kvantum_mapping()[i]).1)
}

/// Every palette colour that the Klassy mapping reads can be read without
/// panicking.
pub open spec fn klassy_palette_ok(variant: Map<Seq<char>, Seq<char>>) -> bool {
    forall|i: int| 0 <= i < klassy_mapping().len() ==> color_ok(variant, (#[trigger] klassy_mapping()[i]).2)
}

/// Whether every palette colour that the Kvantum mapping reads can be read.
pub fn kvantum_palette_readable(variant: &StrMap) -> (r: bool)
    ensures
        r == kvantum_palette_ok(variant@),
{
    let mapping = kvantum_color_mapping();
    let ghost m = kvantum_mapping();
    let mut i: usize = 0;
    while i < mapping.len()
        invariant
            i <= mapping.len(),
            mapping@.map_values(|t: (&'static str, &'static str)| (t.0@, t.1@)) == m,
            m == kvantum_mapping(),
            forall|j: int| 0 <= j < i ==> color_ok(variant@, (#[trigger] m[j]).1),
        decreases mapping.len() - i,
    {
        let (_, name) = mapping[i];
        assert(m[i as int] == (mapping@[i as int].0@, name@));
        if !color_readable(variant, name) {
            assert(!color_ok(variant@, kvantum_mapping()[i as int].1));
            return false;
        }
        i += 1;
    }
    true
}

/// Whether every palette colour that the Klassy mapping reads can be read.
pub fn klassy_palette_readable(variant: &StrMap) -> (r: bool)
    ensures
        r == klassy_palette_ok(variant@),
{
    let mapping = klassy_color_mapping();
    let ghost m = klassy_mapping();
    let mut i: usize = 0;
    while i < mapping.len()
        invariant
            i <= mapping.len(),
            mapping@.map_values(|t: (&'static str, &'static str, &'static str)| (t.0@, t.1@, t.2@)) == m,
            m == klassy_mapping(),
            forall|j: int| 0 <= j < i ==> color_ok(variant@, (#[trigger] m[j]).2),
        decreases mapping.len() - i,
    {
        let (_, _, name) = mapping[i];
        assert(m[i as int] == (mapping@[i as int].0@, mapping@[i as int].1@, name@));
        if !color_readable(variant, name) {
            assert(!color_ok(variant@, klassy_mapping()[i as int].2));
            return false;
        }
        i += 1;
    }
    true
}

/// The Kvantum colours with each mapped key, in order, set to its palette
/// colour when the palette has a readable one.
pub open spec fn kvantum_with_palette(
    c: Map<Seq<char>, Seq<char>>,
    m: Seq<(Seq<char>, Seq<char>)>,
    variant: Map<Seq<char>, Seq<char>>,
) -> Map<Seq<char>, Seq<char>>
    decreases m.len(),
{
    if m.len() == 0 {
        c
    } else {
        let prev = kvantum_with_palette(c, m.drop_last(), variant);
        match color_at(variant, m.last().1) {
            Some(col) => prev.insert(m.last().0, kvantum_text(col)),
            None => prev,
        }
    }
}

/// The Klassy configuration with each mapped setting, in order, set to its
/// palette colour when the palette has a readable one.
pub open spec fn klassy_with_palette(
    c: KlassyModel,
    m: Seq<(Seq<char>, Seq<char>, Seq<char>)>,
    variant: Map<Seq<char>, Seq<char>>,
) -> KlassyModel
    decreases m.len(),
{
    if m.len() == 0 {
        c
    } else {
        let prev = klassy_with_palette(c, m.drop_last(), variant);
        match color_at(variant, m.last().2) {
            Some(col) => klassy_set(prev, m.last().0, m.last().1, klassy_text(col)),
            None => prev,
        }
    }
}

/// Overwrite the Kvantum colours with the palette variant's colours.
pub fn apply_palette_to_kvantum(colors: &mut KvantumColors, variant: &StrMap)
    requires
        kvantum_palette_ok(variant@),
    ensures
        final(colors)@ == kvantum_with_palette(old(colors)@, kvantum_mapping(), variant@),
{
    let mapping = kvantum_color_mapping();
    let ghost m = kvantum_mapping();
    let mut i: usize = 0;
    while i < mapping.len()
        invariant
            i <= mapping.len(),
            mapping@.map_values(|t: (&'static str, &'static str)| (t.0@, t.1@)) == m,
            m == kvantum_mapping(),
            kvantum_palette_ok(variant@),
            colors@ == kvantum_with_palette(old(colors)@, m.take(i as int), variant@),
        decreases mapping.len() - i,
    {
        let (key, name) = mapping[i];
        assert(m[i as int] == (key@, name@));
        assert(m.take(i + 1).drop_last() =~= m.take(i as int));
        match get_color(variant, name) {
            Some(c) => colors.set_color(key, c),
            None => {},
        }
        i += 1;
    }
    assert(m.take(i as int) =~= m);
}

/// Overwrite the Klassy colour settings with the palette variant's colours.
pub fn apply_palette_to_klassy(config: &mut KlassyConfig, variant: &StrMap)
    requires
        klassy_palette_ok(variant@),
    ensures
        final(config)@ == klassy_with_palette(old(config)@, klassy_mapping(), variant@),
{
    let mapping = klassy_color_mapping();
    let ghost m = klassy_mapping();
    let mut i: usize = 0;
    while i < mapping.len()
        invariant
            i <= mapping.len(),
            mapping@.map_values(|t: (&'static str, &'static str, &'static str)| (t.0@, t.1@, t.2@)) == m,
            m == klassy_mapping(),
            klassy_palette_ok(variant@),
            config@ == klassy_with_palette(old(config)@, m.take(i as int), variant@),
        decreases mapping.len() - i,
    {
        let (section, key, name) = mapping[i];
        assert(m[i as int] == (section@, key@, name@));
        assert(m.take(i + 1).drop_last() =~= m.take(i as int));
        match get_color(variant, name) {
            Some(c) => config.set_value(section, key, to_klassy_color(&c)),
            None => {},
        }
        i += 1;
    }
    assert(m.take(i as int) =~= m);
}

// ---------------------------------------------------------------------------
// Hex colour literals
// ---------------------------------------------------------------------------

/// The value of a hexadecimal digit byte.
pub open spec fn hex_nibble(b: u8) -> Option<u8> {
    if 48 <= b <= 57 {
        Some((b - 48) as u8)
    } else if 97 <= b <= 102 {
        Some((b - 87) as u8)
    } else if 65 <= b <= 70 {
        Some((b - 55) as u8)
    } else {
        None
    }
}

/// `u8::from_str_radix` on two ASCII bytes in base 16 (an optional `+`
/// then digits).
pub open spec fn hex_pair(b1: u8, b2: u8) -> Option<u8> {
    if b1 == 43 {
        hex_nibble(b2)
    } else {
        match (hex_nibble(b1), hex_nibble(b2)) {
            (Some(h), Some(l)) => Some((h * 16 + l) as u8),
            _ => None,
        }
    }
}

/// A byte that continues a multi-byte UTF-8 character.
pub open spec fn continues(b: u8) -> bool {
    128 <= b < 192
}

/// The colour of a `#RGB` literal (each digit doubled), given as UTF-8
/// bytes.
pub open spec fn spec_three_hex(bs: Seq<u8>) -> Option<Rgba> {
    if bs.len() == 4 && bs[0] == 35 {
        match (hex_nibble(bs[1]), hex_nibble(bs[2]), hex_nibble(bs[3])) {
            (Some(r), Some(g), Some(b)) => Some(opaque((r * 17) as u8, (g * 17) as u8, (b * 17) as u8)),
            _ => None,
        }
    } else {
        None
    }
}

/// The colour of a `#RRGGBB` literal, given as UTF-8 bytes.
pub open spec fn spec_six_hex(bs: Seq<u8>) -> Option<Rgba> {
    if bs.len() == 7 && bs[0] == 35 {
        match (hex_pair(bs[1], bs[2]), hex_pair(bs[3], bs[4]), hex_pair(bs[5], bs[6])) {
            (Some(r), Some(g), Some(b)) => Some(opaque(r, g, b)),
            _ => None,
        }
    } else {
        None
    }
}

fn nibble(b: u8) -> (r: Option<u8>)
    ensures
        r == hex_nibble(b),
{
    if 48 <= b && b <= 57 {
        Some(b - 48)
    } else if 97 <= b && b <= 102 {
        Some(b - 87)
    } else if 65 <= b && b <= 70 {
        Some(b - 55)
    } else {
        None
    }
}

fn pair(b1: u8, b2: u8) -> (r: Option<u8>)
    ensures
        r == hex_pair(b1, b2),
{
    if b1 == 43 {
        nibble(b2)
    } else {
        match (nibble(b1), nibble(b2)) {
            (Some(h), Some(l)) => Some(h * 16 + l),
            _ => None,
        }
    }
}

/// Parse a `#RGB` shorthand literal by doubling each digit: `#abc` is
/// `(0xaa, 0xbb, 0xcc)`.  `None` for anything else.
pub fn parse_three_hex(s: &str) -> (r: Option<Rgba>)
    requires
        ({
            let bs = vstd::utf8::encode_utf8(s@);
            bs.len() == 4 && bs[0] == 35 ==> !continues(bs[1]) && !continues(bs[2]) && !continues(bs[3])
        }),
    ensures
        r == spec_three_hex(vstd::utf8::encode_utf8(s@)),
{
    let bs = s.as_bytes();
    if bs.len() != 4 || bs[0] != 35 {
        return None;
    }
    match (nibble(bs[1]), nibble(bs[2]), nibble(bs[3])) {
        (Some(r), Some(g), Some(b)) => Some(Rgba::rgb(r * 17, g * 17, b * 17)),
        _ => None,
    }
}

/// Parse an exact `#RRGGBB` literal (no shorthand, no alpha).
pub fn parse_six_hex(s: &str) -> (r: Option<Rgba>)
    requires
        ({
            let bs = vstd::utf8::encode_utf8(s@);
            bs.len() == 7 && bs[0] == 35 ==> !continues(bs[1]) && !continues(bs[3]) && !continues(bs[5])
        }),
    ensures
        r == spec_six_hex(vstd::utf8::encode_utf8(s@)),
{
    let bs = s.as_bytes();
    if bs.len() != 7 || bs[0] != 35 {
        return None;
    }
    match (pair(bs[1], bs[2]), pair(bs[3], bs[4]), pair(bs[5], bs[6])) {
        (Some(r), Some(g), Some(b)) => Some(Rgba::rgb(r, g, b)),
        _ => None,
    }
}

// ---------------------------------------------------------------------------
// The derived Plasma colour scheme
// ---------------------------------------------------------------------------

/// Whether a character is alphabetic or numeric in Unicode
/// (`char::is_alphanumeric`).
pub uninterp spec fn alphanumeric(c: char) -> bool;

/// `char::is_alphanumeric`: its result depends on the character alone and
/// is named `alphanumeric`; on ASCII it holds exactly for the digits and
/// the letters.  Its Unicode tables beyond ASCII are not restated here.
#[verifier::external_body]
fn is_alphanumeric(c: char) -> (r: bool)
    ensures
        r == alphanumeric(c),
        c < '\u{80}' ==> (r <==> ('0' <= c && c <= '9') || ('a' <= c && c <= 'z') || ('A' <= c && c <= 'Z')),
{
    c.is_alphanumeric()
}

/// The name with every character that is not alphanumeric replaced by `-`.
pub open spec fn sanitized(name: Seq<char>) -> Seq<char> {
    name.map_values(|c: char| if alphanumeric(c) { c } else { '-' })
}

/// An ASCII digit or letter.
pub open spec fn ascii_alphanumeric(c: char) -> bool {
    ('0' <= c && c <= '9') || ('a' <= c && c <= 'z') || ('A' <= c && c <= 'Z')
}

/// The name with every character that is not an ASCII digit or letter
/// replaced by `-`.
pub open spec fn ascii_sanitized(name: Seq<char>) -> Seq<char> {
    name.map_values(|c: char| if ascii_alphanumeric(c) { c } else { '-' })
}

/// The Plasma colour scheme name installed for a Kvantum theme; for an
/// ASCII name, every character other than a digit or a letter becomes `-`.
pub fn plasma_scheme_name_for_kvantum(theme_name: &str) -> (r: String)
    ensures
        r@ == "Kvantum-"@ + sanitized(theme_name@),
        all_ascii(theme_name@) ==> r@ == "Kvantum-"@ + ascii_sanitized(theme_name@),
{
    let v = crate::text::chars_of(theme_name);
    let mut out = "Kvantum-".to_string();
    let ghost base = out@;
    let mut i: usize = 0;
    while i < v.len()
        invariant
            i <= v.len(),
            v@ == theme_name@,
            base == "Kvantum-"@,
            out@ == base + sanitized(v@.take(i as int)),
            forall|j: int| 0 <= j < i && v@[j] < '\u{80}' ==> (alphanumeric(#[trigger] v@[j]) <==> ascii_alphanumeric(v@[j])),
        decreases v.len() - i,
    {
        let c = v[i];
        let d = if is_alphanumeric(c) {
            c
        } else {
            '-'
        };
        push_char(&mut out, d);
        assert(sanitized(v@.take(i + 1)) =~= sanitized(v@.take(i as int)).push(d));
        i += 1;
    }
    assert(v@.take(i as int) =~= v@);
    proof {
        if all_ascii(theme_name@) {
            assert(sanitized(v@) =~= ascii_sanitized(v@)) by {
                assert forall|j: int| 0 <= j < v@.len() implies sanitized(v@)[j] == ascii_sanitized(v@)[j] by {
                    assert(v@[j] < '\u{80}');
                }
            }
        }
    }
    out
}

/// The SHA-1 digest of a byte sequence.
pub uninterp spec fn sha1_of(data: Seq<u8>) -> Seq<u8>;

/// `Sha1::digest` (the `sha1` crate): the 20-byte SHA-1 digest of `data`,
/// a function of the data alone, named `sha1_of`.
#[verifier::external_body]
fn sha1_digest(data: &[u8]) -> (r: Vec<u8>)
    ensures
        r@ == sha1_of(data@),
        r@.len() == 20,
{
    sha1::Sha1::digest(data).to_vec()
}

/// Lowercase hexadecimal text of a byte sequence.
pub open spec fn hex_text(bs: Seq<u8>) -> Seq<char>
    decreases bs.len(),
{
    if bs.len() == 0 {
        Seq::empty()
    } else {
        hex_text(bs.drop_last()) + hex2(bs.last())
    }
}

/// Lowercase hexadecimal SHA-1 of the given bytes.
pub fn sha1_hex(data: &[u8]) -> (r: String)
    ensures
        r@ == hex_text(sha1_of(data@)),
        r@.len() == 40,
{
    let digest = sha1_digest(data);
    let mut out = String::new();
    let mut i: usize = 0;
    while i < digest.len()
        invariant
            i <= digest.len(),
            digest@.len() == 20,
            out@ == hex_text(digest@.take(i as int)),
            out@.len() == 2 * i,
        decreases digest.len() - i,
    {
        assert(digest@.take(i + 1).drop_last() =~= digest@.take(i as int));
        push_hex2(&mut out, digest[i]);
        i += 1;
    }
    assert(digest@.take(i as int) =~= digest@);
    out
}

} // verus!
