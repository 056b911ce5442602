//! Klassy window decoration presets (`windecopresetsrc`): named sets of
//! key/value pairs, and where each key belongs in the main configuration.

use vstd::prelude::*;
use crate::ini::{IniDocument, SectionV};
use crate::ini::parser::spec_parse_ini;
use crate::ini::round_trip::{
    lemma_ini_doc_round_trip, lemma_map_section_plain, map_reads_back, name_reads_back,
    section_reads_back,
};
use crate::ini::serializer::doc_text;
use crate::ini::maps::{
    add_section, entries_map, entries_to_map, is_map_section, lemma_entries_map_keys,
    lemma_map_section_reads_back, no_empty_keys,
};
use crate::models::klassy::config::{klassy_set, nested, KlassyConfig, KlassyModel};
use crate::models::values::lookup;
use crate::num::push_nat_decimal;
use crate::strmap::{has_key, pairs_map, Pair, StrMap};
use crate::text::{has_prefix, starts_with, str_eq, texts};

verus! {

broadcast use vstd::string::group_string_axioms;

/// The keys kept in `[ShadowStyle]`.
pub open spec fn in_shadow_style(k: Seq<char>) -> bool {
    k == "ShadowColor"@
    || k == "ShadowSize"@
    || k == "ShadowStrength"@
}

fn in_shadow_style_key(key: &str) -> (r: bool)
    ensures
        r == in_shadow_style(key@),
{
    str_eq(key, "ShadowColor")
        || str_eq(key, "ShadowSize")
        || str_eq(key, "ShadowStrength")
}

/// The keys kept in `[ButtonColors]`.
pub open spec fn in_button_colors(k: Seq<char>) -> bool {
    has_prefix(k, "ButtonBackgroundColors"@)
    || has_prefix(k, "ButtonBackgroundOpacity"@)
    || k == "LockButtonColorsActiveInactive"@
    || k == "ButtonColorsInactiveSameHoverPress"@
    || has_prefix(k, "ButtonIconColors"@)
    || has_prefix(k, "ButtonIconOpacity"@)
    || has_prefix(k, "ButtonOverrideColors"@)
    || has_prefix(k, "CloseButtonIconColor"@)
    || has_prefix(k, "CloseButtonCustomIconColor"@)
    || has_prefix(k, "MaximizeButtonIconColor"@)
    || has_prefix(k, "MaximizeButtonCustomIconColor"@)
    || has_prefix(k, "MinimizeButtonIconColor"@)
    || has_prefix(k, "MinimizeButtonCustomIconColor"@)
    || has_prefix(k, "NegativeCloseBackground"@)
    || has_prefix(k, "ShowBackground"@)
    || has_prefix(k, "ShowCloseBackground"@)
    || has_prefix(k, "ShowCloseIcon"@)
    || has_prefix(k, "ShowCloseOutline"@)
    || has_prefix(k, "ShowIcon"@)
    || has_prefix(k, "ShowOutline"@)
    || has_prefix(k, "VaryColor"@)
    || has_prefix(k, "UseHoverAccent"@)
}

fn in_button_colors_key(key: &str) -> (r: bool)
    ensures
        r == in_button_colors(key@),
{
    starts_with(key, "ButtonBackgroundColors")
        || starts_with(key, "ButtonBackgroundOpacity")
        || str_eq(key, "LockButtonColorsActiveInactive")
        || str_eq(key, "ButtonColorsInactiveSameHoverPress")
        || starts_with(key, "ButtonIconColors")
        || starts_with(key, "ButtonIconOpacity")
        || starts_with(key, "ButtonOverrideColors")
        || starts_with(key, "CloseButtonIconColor")
        || starts_with(key, "CloseButtonCustomIconColor")
        || starts_with(key, "MaximizeButtonIconColor")
        || starts_with(key, "MaximizeButtonCustomIconColor")
        || starts_with(key, "MinimizeButtonIconColor")
        || starts_with(key, "MinimizeButtonCustomIconColor")
        || starts_with(key, "NegativeCloseBackground")
        || starts_with(key, "ShowBackground")
        || starts_with(key, "ShowCloseBackground")
        || starts_with(key, "ShowCloseIcon")
        || starts_with(key, "ShowCloseOutline")
        || starts_with(key, "ShowIcon")
        || starts_with(key, "ShowOutline")
        || starts_with(key, "VaryColor")
        || starts_with(key, "UseHoverAccent")
}

/// The keys kept in `[TitleBarOpacity]`.
pub open spec fn in_title_bar_opacity(k: Seq<char>) -> bool {
    k == "ActiveTitleBarOpacity"@
    || k == "InactiveTitleBarOpacity"@
    || k == "OpaqueMaximizedTitleBars"@
    || k == "OverrideActiveTitleBarOpacity"@
    || k == "OverrideInactiveTitleBarOpacity"@
    || k == "ApplyOpacityToHeader"@
}

fn in_title_bar_opacity_key(key: &str) -> (r: bool)
    ensures
        r == in_title_bar_opacity(key@),
{
    str_eq(key, "ActiveTitleBarOpacity")
        || str_eq(key, "InactiveTitleBarOpacity")
        || str_eq(key, "OpaqueMaximizedTitleBars")
        || str_eq(key, "OverrideActiveTitleBarOpacity")
        || str_eq(key, "OverrideInactiveTitleBarOpacity")
        || str_eq(key, "ApplyOpacityToHeader")
}

/// The keys kept in `[TitleBarSpacing]`.
pub open spec fn in_title_bar_spacing(k: Seq<char>) -> bool {
    k == "TitleBarTopMargin"@
    || k == "TitleBarBottomMargin"@
    || k == "TitleBarLeftMargin"@
    || k == "TitleBarRightMargin"@
    || k == "PercentMaximizedTopBottomMargins"@
    || has_prefix(k, "LockTitleBar"@)
}

fn in_title_bar_spacing_key(key: &str) -> (r: bool)
    ensures
        r == in_title_bar_spacing(key@),
{
    str_eq(key, "TitleBarTopMargin")
        || str_eq(key, "TitleBarBottomMargin")
        || str_eq(key, "TitleBarLeftMargin")
        || str_eq(key, "TitleBarRightMargin")
        || str_eq(key, "PercentMaximizedTopBottomMargins")
        || starts_with(key, "LockTitleBar")
}

/// The keys kept in `[WindowOutlineStyle]`.
pub open spec fn in_window_outline_style(k: Seq<char>) -> bool {
    has_prefix(k, "WindowOutlineStyle"@)
    || has_prefix(k, "WindowOutlineCustomColor"@)
    || k == "WindowOutlineOverlap"@
    || has_prefix(k, "LockWindowOutline"@)
    || has_prefix(k, "WindowOutlineAccentColor"@)
    || has_prefix(k, "WindowOutlineAccentWithContrast"@)
    || has_prefix(k, "WindowOutlineContrastOpacity"@)
    || has_prefix(k, "WindowOutlineCustomWithContrast"@)
    || k == "WindowOutlineShadowColorOpacity"@
    || k == "WindowOutlineSnapToWholePixel"@
    || k == "WindowOutlineThickness"@
}

fn in_window_outline_style_key(key: &str) -> (r: bool)
    ensures
        r == in_window_outline_style(key@),
{
    starts_with(key, "WindowOutlineStyle")
        || starts_with(key, "WindowOutlineCustomColor")
        || str_eq(key, "WindowOutlineOverlap")
        || starts_with(key, "LockWindowOutline")
        || starts_with(key, "WindowOutlineAccentColor")
        || starts_with(key, "WindowOutlineAccentWithContrast")
        || starts_with(key, "WindowOutlineContrastOpacity")
        || starts_with(key, "WindowOutlineCustomWithContrast")
        || str_eq(key, "WindowOutlineShadowColorOpacity")
        || str_eq(key, "WindowOutlineSnapToWholePixel")
        || str_eq(key, "WindowOutlineThickness")
}

/// The keys kept in `[Style]`.
pub open spec fn in_style(k: Seq<char>) -> bool {
    k == "ButtonGradient"@
    || k == "ScrollBarSeparator"@
    || k == "DrawBackgroundGradient"@
}

fn in_style_key(key: &str) -> (r: bool)
    ensures
        r == in_style(key@),
{
    str_eq(key, "ButtonGradient")
        || str_eq(key, "ScrollBarSeparator")
        || str_eq(key, "DrawBackgroundGradient")
}

/// The configuration section a preset key belongs in: keys are routed by
/// name or prefix, and anything unknown goes to `[Windeco]`.
pub open spec fn section_for(k: Seq<char>) -> Seq<char> {
    if in_shadow_style(k) {
        "ShadowStyle"@
    } else if in_button_colors(k) {
        "ButtonColors"@
    } else if in_title_bar_opacity(k) {
        "TitleBarOpacity"@
    } else if in_title_bar_spacing(k) {
        "TitleBarSpacing"@
    } else if in_window_outline_style(k) {
        "WindowOutlineStyle"@
    } else if in_style(k) {
        "Style"@
    } else {
        "Windeco"@
    }
}

/// Determine the configuration section a preset key belongs in.
pub fn section_for_key(key: &str) -> (r: &'static str)
    ensures
        r@ == section_for(key@),
{
    if in_shadow_style_key(key) {
        "ShadowStyle"
    } else if in_button_colors_key(key) {
        "ButtonColors"
    } else if in_title_bar_opacity_key(key) {
        "TitleBarOpacity"
    } else if in_title_bar_spacing_key(key) {
        "TitleBarSpacing"
    } else if in_window_outline_style_key(key) {
        "WindowOutlineStyle"
    } else if in_style_key(key) {
        "Style"
    } else {
        "Windeco"
    }
}

/// The abstract content of a preset: its name and its pairs.
pub struct PresetModel {
    pub name: Seq<char>,
    pub values: Map<Seq<char>, Seq<char>>,
}

/// `c` with each pair of `p`, in order, written into its section.
pub open spec fn apply_pairs(c: KlassyModel, p: Seq<Pair>) -> KlassyModel
    decreases p.len(),
{
    if p.len() == 0 {
        c
    } else {
        let prev = apply_pairs(c, p.drop_last());
        klassy_set(prev, section_for(p.last().0), p.last().0, p.last().1)
    }
}

/// The preset is marked as bundled with Klassy.
pub open spec fn bundled(m: Map<Seq<char>, Seq<char>>) -> bool {
    lookup(m, "BundledPreset"@) == Some("true"@)
}

/// A single named preset from `windecopresetsrc`.
#[derive(Clone, Debug, PartialEq)]
pub struct KlassyPreset {
    /// Display name of the preset (the INI section name).
    pub name: String,
    /// All key-value pairs for this preset.
    values: StrMap,
}

impl View for KlassyPreset {
    type V = PresetModel;

    closed spec fn view(&self) -> PresetModel {
        PresetModel { name: self.name@, values: self.values@ }
    }
}

impl KlassyPreset {
    /// The pairs in the order they are applied.
    pub closed spec fn pairs(&self) -> Seq<Pair> {
        self.values.pairs()
    }

    /// Create a preset with the given name and values.
    pub fn new(name: String, values: StrMap) -> (p: Self)
        ensures
            p@ == (PresetModel { name: name@, values: values@ }),
    {
        KlassyPreset { name, values }
    }

    /// The preset's name.
    pub fn preset_name(&self) -> (r: &str)
        ensures
            r@ == self@.name,
    {
        self.name.as_str()
    }

    /// A copy with the same name and pairs.
    pub fn copy(&self) -> (p: Self)
        ensures
            p@ == self@,
    {
        KlassyPreset { name: self.name.clone(), values: self.values.copy() }
    }

    /// Whether this is a bundled (read-only) preset shipped with Klassy.
    pub fn is_bundled(&self) -> (r: bool)
        ensures
            r == bundled(self@.values),
    {
        match self.values.get_str("BundledPreset") {
            Some(v) => str_eq(v, "true"),
            None => false,
        }
    }

    /// The raw value for `key`, or `None` if absent.
    pub fn get_value(&self, key: &str) -> (r: Option<&str>)
        ensures
            match r {
                Some(v) => lookup(self@.values, key@) == Some(v@),
                None => lookup(self@.values, key@) is None,
            },
    {
        self.values.get_str(key)
    }

    /// Set a raw value.
    pub fn set_value(&mut self, key: &str, value: String)
        ensures
            final(self)@ == (PresetModel { name: old(self)@.name, values: old(self)@.values.insert(key@, value@) }),
    {
        self.values.set(key, value);
    }

    /// Remove a key; `true` if it existed.
    pub fn remove_value(&mut self, key: &str) -> (r: bool)
        ensures
            r == old(self)@.values.contains_key(key@),
            final(self)@ == (PresetModel { name: old(self)@.name, values: old(self)@.values.remove(key@) }),
    {
        self.values.remove(key).is_some()
    }

    /// The number of key-value pairs.
    pub fn len(&self) -> (n: usize)
        ensures
            n == self@.values.len(),
    {
        self.values.len()
    }

    /// Whether the preset is empty.
    pub fn is_empty(&self) -> (r: bool)
        ensures
            r == (self@.values.len() == 0),
    {
        self.values.is_empty()
    }

    /// All keys of this preset, each once.
    pub fn keys(&self) -> (r: Vec<String>)
        ensures
            texts(r@).no_duplicates(),
            forall|k: Seq<char>| #[trigger] texts(r@).contains(k) <==> self@.values.contains_key(k),
    {
        self.values.check();
        let r = self.values.keys();
        proof {
            let p = self.values.pairs();
            let o = texts(r@);
            assert forall|i: int, j: int| 0 <= i < o.len() && 0 <= j < o.len() && i != j implies o[i]
                != o[j] by {
                if i < j {
                    assert(p[i].0 != p[j].0);
                } else {
                    assert(p[j].0 != p[i].0);
                }
            }
            assert forall|k: Seq<char>| #[trigger] o.contains(k) <==> self.values@.contains_key(k) by {
                if o.contains(k) {
                    let i = choose|i: int| 0 <= i < o.len() && o[i] == k;
                    assert(p[i].0 == k);
                }
                if self.values@.contains_key(k) {
                    let i = choose|i: int| 0 <= i < p.len() && (#[trigger] p[i]).0 == k;
                    assert(o[i] == k);
                }
            }
        }
        r
    }

    /// A copy of all key-value pairs.
    pub fn to_map(&self) -> (m: StrMap)
        ensures
            m@ == self@.values,
    {
        self.values.copy()
    }

    /// Apply this preset's values to a configuration, writing every key
    /// into its section.
    pub fn apply_to_config(&self, config: &KlassyConfig) -> (r: KlassyConfig)
        ensures
            r@ == apply_pairs(config@, self.pairs()),
            forall|s: Seq<char>, k: Seq<char>|
                self@.values.contains_key(k) && s == section_for(k) ==> #[trigger] nested(r@, s, k)
                    == Some(self@.values[k]),
            forall|s: Seq<char>, k: Seq<char>|
                !(self@.values.contains_key(k) && s == section_for(k)) ==> #[trigger] nested(r@, s, k)
                    == nested(config@, s, k),
    {
        let mut result = config.copy();
        self.values.check();
        let n = self.values.len();
        let ghost p = self.values.pairs();
        let mut i: usize = 0;
        while i < n
            invariant
                i <= n,
                n == p.len(),
                p == self.values.pairs(),
                result@ == apply_pairs(config@, p.take(i as int)),
            decreases n - i,
        {
            let key = self.values.key_at(i);
            let value = self.values.value_at(i).clone();
            assert(p.take(i + 1).drop_last() =~= p.take(i as int));
            let section = section_for_key(key.as_str());
            result.set_value(section, key.as_str(), value);
            i += 1;
        }
        assert(p.take(n as int) =~= p);
        proof {
            crate::strmap::lemma_pairs_map(p);
            assert forall|s: Seq<char>, k: Seq<char>|
                self@.values.contains_key(k) && s == section_for(k) implies #[trigger] nested(result@, s, k)
                    == Some(self@.values[k]) by {
                lemma_apply_pairs(config@, p, s, k);
            }
            assert forall|s: Seq<char>, k: Seq<char>|
                !(self@.values.contains_key(k) && s == section_for(k)) implies #[trigger] nested(result@, s, k)
                    == nested(config@, s, k) by {
                lemma_apply_pairs(config@, p, s, k);
            }
        }
        result
    }

    /// A one-line description: the name, the number of keys and whether
    /// the preset is bundled.
    pub fn describe(&self) -> (s: String)
        ensures
            s@ == "KlassyPreset(\""@ + self@.name + "\", "@ + crate::num::nat_to_decimal(self@.values.len())
                + " keys, bundled="@ + crate::models::values::bool_text(bundled(self@.values)) + ")"@,
    {
        let mut out = String::new();
        out.append("KlassyPreset(\"");
        out.append(self.name.as_str());
        out.append("\", ");
        let n = self.values.len();
        push_nat_decimal(&mut out, n as u64);
        out.append(" keys, bundled=");
        let b = self.is_bundled();
        out.append(crate::models::values::bool_string(b).as_str());
        out.append(")");
        out
    }
}

/// Applying pairs with distinct keys leaves each key of them in its
/// section with its value, and every other value as it was.
pub proof fn lemma_apply_pairs(c: KlassyModel, p: Seq<Pair>, s: Seq<char>, k: Seq<char>)
    requires
        crate::strmap::distinct_keys(p),
    ensures
        has_key(p, k) && s == section_for(k) ==> nested(apply_pairs(c, p), s, k) == Some(
            pairs_map(p)[k],
        ),
        !(has_key(p, k) && s == section_for(k)) ==> nested(apply_pairs(c, p), s, k) == nested(
            c,
            s,
            k,
        ),
    decreases p.len(),
{
    if p.len() > 0 {
        let q = p.drop_last();
        assert(crate::strmap::distinct_keys(q)) by {
            assert forall|i: int, j: int| 0 <= i < j < q.len() implies (#[trigger] q[i]).0 != (
            #[trigger] q[j]).0 by {
                assert(q[i] == p[i] && q[j] == p[j]);
            }
        }
        lemma_apply_pairs(c, q, s, k);
        let last = p.last();
        assert(p[p.len() - 1] == last);
        if has_key(q, k) {
            let i = choose|i: int| 0 <= i < q.len() && (#[trigger] q[i]).0 == k;
            assert(p[i] == q[i]);
            assert(k != last.0);
        }
        if has_key(p, k) && k != last.0 {
            let i = choose|i: int| 0 <= i < p.len() && (#[trigger] p[i]).0 == k;
            assert(q[i] == p[i]);
        }
    }
}

// ---------------------------------------------------------------------------
// Collections
// ---------------------------------------------------------------------------

/// The presets read from a sequence of sections, one per section.
pub open spec fn presets_from_sections(ss: Seq<SectionV>) -> Seq<PresetModel> {
    ss.map_values(|s: SectionV| PresetModel { name: s.name, values: entries_map(s.entries) })
}

/// `d` is the document written for the presets `ps`: one section per
/// preset, in order, with its pairs ordered by key.
pub open spec fn is_presets_doc(ps: Seq<PresetModel>, d: crate::ini::DocV) -> bool {
    &&& d.header_lines.len() == 0
    &&& d.trailing_lines.len() == 0
    &&& d.sections.len() == ps.len()
    &&& forall|i: int| 0 <= i < ps.len() ==> is_map_section(#[trigger] d.sections[i], ps[i].name, ps[i].values)
}

/// `i` is the first preset named `name`.
pub open spec fn is_first_named(ps: Seq<PresetModel>, name: Seq<char>, i: int) -> bool {
    &&& 0 <= i < ps.len()
    &&& ps[i].name == name
    &&& forall|j: int| 0 <= j < i ==> (#[trigger] ps[j]).name != name
}

/// Collection of all presets from `windecopresetsrc`.
#[derive(Clone, Debug, PartialEq)]
pub struct KlassyPresetCollection {
    pub presets: Vec<KlassyPreset>,
}

impl View for KlassyPresetCollection {
    type V = Seq<PresetModel>;

    open spec fn view(&self) -> Seq<PresetModel> {
        self.presets@.map_values(|p: KlassyPreset| p@)
    }
}

impl KlassyPresetCollection {
    /// Create a collection.
    pub fn new(presets: Vec<KlassyPreset>) -> (c: Self)
        ensures
            c.presets@ == presets@,
    {
        KlassyPresetCollection { presets }
    }

    /// Read all presets from a `windecopresetsrc` document, one per section.
    pub fn from_ini(doc: &IniDocument) -> (c: Self)
        ensures
            c@ == presets_from_sections(doc@.sections),
    {
        let ghost ss = doc@.sections;
        let mut presets: Vec<KlassyPreset> = Vec::new();
        let mut i: usize = 0;
        while i < doc.sections.len()
            invariant
                i <= doc.sections.len(),
                ss == doc@.sections,
                presets@.map_values(|p: KlassyPreset| p@) == presets_from_sections(ss.take(i as int)),
            decreases doc.sections.len() - i,
        {
            let sec = &doc.sections[i];
            let values = entries_to_map(&sec.entries);
            let ghost prev = presets@;
            presets.push(KlassyPreset { name: sec.name.clone(), values });
            assert(presets@.map_values(|p: KlassyPreset| p@) =~= prev.map_values(|p: KlassyPreset| p@).push(
                PresetModel { name: sec@.name, values: entries_map(sec@.entries) },
            ));
            assert(presets_from_sections(ss.take(i + 1)) =~= presets_from_sections(ss.take(i as int)).push(
                PresetModel { name: sec@.name, values: entries_map(sec@.entries) },
            ));
            i += 1;
        }
        assert(ss.take(i as int) =~= ss);
        KlassyPresetCollection { presets }
    }

    /// Write all presets as an INI document, one section per preset.
    pub fn to_ini(&self) -> (d: IniDocument)
        ensures
            is_presets_doc(self@, d@),
            presets_no_empty_keys(self@) ==> presets_from_sections(d@.sections) == self@,
            presets_read_back(self@) ==> presets_from_sections(spec_parse_ini(doc_text(d@)).sections) == self@,
    {
        let mut doc = IniDocument {
            header_lines: Vec::new(),
            sections: Vec::new(),
            trailing_lines: Vec::new(),
        };
        assert(doc@.header_lines =~= Seq::<Seq<char>>::empty());
        assert(doc@.trailing_lines =~= Seq::<Seq<char>>::empty());
        let mut i: usize = 0;
        while i < self.presets.len()
            invariant
                i <= self.presets.len(),
                doc@.header_lines.len() == 0,
                doc@.trailing_lines.len() == 0,
                doc@.sections.len() == i,
                forall|j: int|
                    0 <= j < i ==> is_map_section(#[trigger] doc@.sections[j], self@[j].name, self@[j].values),
            decreases self.presets.len() - i,
        {
            let ghost before = doc@.sections;
            let p = &self.presets[i];
            let m = p.to_map();
            add_section(&mut doc, p.preset_name(), &m);
            assert forall|j: int| 0 <= j < i + 1 implies is_map_section(
                #[trigger] doc@.sections[j],
                self@[j].name,
                self@[j].values,
            ) by {
                if j < i {
                    assert(doc@.sections[j] == before[j]);
                }
            }
            i += 1;
        }
        proof {
            if presets_no_empty_keys(self@) {
                lemma_presets_round_trip(self@, doc@);
            }
            if presets_read_back(self@) {
                lemma_presets_save_load(self@, doc@);
            }
        }
        doc
    }

    /// The first preset named `name`, or `None` if there is none.
    pub fn get_preset(&self, name: &str) -> (r: Option<&KlassyPreset>)
        ensures
            match r {
                Some(p) => exists|i: int| is_first_named(self@, name@, i) && p@ == self@[i],
                None => forall|i: int| 0 <= i < self@.len() ==> (#[trigger] self@[i]).name != name@,
            },
    {
        let mut i: usize = 0;
        while i < self.presets.len()
            invariant
                i <= self.presets.len(),
                forall|j: int| 0 <= j < i ==> (#[trigger] self@[j]).name != name@,
            decreases self.presets.len() - i,
        {
            if str_eq(self.presets[i].preset_name(), name) {
                assert(is_first_named(self@, name@, i as int));
                return Some(&self.presets[i]);
            }
            i += 1;
        }
        None
    }

    /// All preset names, in order.
    pub fn names(&self) -> (r: Vec<&str>)
        ensures
            r@.map_values(|s: &str| s@) == self@.map_values(|p: PresetModel| p.name),
    {
        let mut r: Vec<&str> = Vec::new();
        let mut i: usize = 0;
        while i < self.presets.len()
            invariant
                i <= self.presets.len(),
                r@.map_values(|s: &str| s@) == self@.map_values(|p: PresetModel| p.name).take(i as int),
            decreases self.presets.len() - i,
        {
            let ghost prev = r@;
            r.push(self.presets[i].preset_name());
            assert(r@.map_values(|s: &str| s@) =~= prev.map_values(|s: &str| s@).push(self@[i as int].name));
            assert(self@.map_values(|p: PresetModel| p.name).take(i + 1) =~= self@.map_values(
                |p: PresetModel| p.name,
            ).take(i as int).push(self@[i as int].name));
            i += 1;
        }
        assert(self@.map_values(|p: PresetModel| p.name).take(i as int) =~= self@.map_values(
            |p: PresetModel| p.name,
        ));
        r
    }

    /// Number of presets.
    pub fn len(&self) -> (n: usize)
        ensures
            n == self@.len(),
    {
        self.presets.len()
    }

    /// Whether the collection is empty.
    pub fn is_empty(&self) -> (r: bool)
        ensures
            r == (self@.len() == 0),
    {
        self.presets.len() == 0
    }

    /// A one-line description with the number of presets.
    pub fn describe(&self) -> (s: String)
        ensures
            s@ == "KlassyPresetCollection("@ + crate::num::nat_to_decimal(self@.len()) + " presets)"@,
    {
        let mut out = String::new();
        out.append("KlassyPresetCollection(");
        let n = self.presets.len();
        push_nat_decimal(&mut out, n as u64);
        out.append(" presets)");
        out
    }
}

/// No preset has an empty key.
pub open spec fn presets_no_empty_keys(ps: Seq<PresetModel>) -> bool {
    forall|i: int| 0 <= i < ps.len() ==> no_empty_keys(#[trigger] ps[i].values)
}

/// Every preset name, key and value is plain text that reads back from
/// the written file.
pub open spec fn presets_read_back(ps: Seq<PresetModel>) -> bool {
    forall|i: int| 0 <= i < ps.len() ==> name_reads_back((#[trigger] ps[i]).name) && map_reads_back(ps[i].values)
}

/// Writing presets without empty keys and reading them back gives the
/// same presets, in the same order.
pub proof fn lemma_presets_round_trip(ps: Seq<PresetModel>, d: crate::ini::DocV)
    requires
        presets_no_empty_keys(ps),
        is_presets_doc(ps, d),
    ensures
        presets_from_sections(d.sections) == ps,
{
    assert forall|i: int| 0 <= i < ps.len() implies #[trigger] presets_from_sections(d.sections)[i] == ps[i] by {
        lemma_map_section_reads_back(d.sections[i], ps[i].name, ps[i].values);
    }
    assert(presets_from_sections(d.sections) =~= ps);
}

/// Saving a preset collection and reading the saved text back gives the
/// same presets, provided their names, keys and values are plain text that
/// reads back (see `lemma_ini_doc_round_trip`).
pub proof fn lemma_presets_save_load(ps: Seq<PresetModel>, d: crate::ini::DocV)
    requires
        is_presets_doc(ps, d),
        presets_read_back(ps),
    ensures
        presets_from_sections(spec_parse_ini(doc_text(d)).sections) == ps,
{
    assert forall|i: int| 0 <= i < d.sections.len() implies section_reads_back(#[trigger] d.sections[i]) by {
        assert(is_map_section(d.sections[i], ps[i].name, ps[i].values));
        lemma_map_section_plain(d.sections[i], ps[i].name, ps[i].values);
    }
    assert forall|i: int| 0 <= i < ps.len() implies no_empty_keys(#[trigger] ps[i].values) by {
        assert(map_reads_back(ps[i].values));
        assert forall|x: Seq<char>| #[trigger] ps[i].values.contains_key(x) implies x.len() > 0 by {
            assert(crate::ini::round_trip::key_reads_back(x));
        }
    }
    lemma_ini_doc_round_trip(d);
    lemma_presets_round_trip(ps, d);
}

} // verus!
