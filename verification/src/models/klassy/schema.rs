//! The type of each known Klassy preset key, so that an editor can pick
//! a suitable control for it.

use vstd::prelude::*;
use crate::text::str_eq;

verus! {

broadcast use vstd::string::group_string_axioms;

/// The data type of a configuration field.
#[derive(Clone, Copy, Debug, PartialEq, Eq, Hash, Structural)]
pub enum FieldType {
    /// `true` / `false`
    Boolean,
    /// Whole number (e.g. `8`, `160`)
    Integer,
    /// Floating-point number (e.g. `4.5`)
    Double,
    /// Free-form string
    String,
    /// Klassy-format RGB colour (`R,G,B`)
    Color,
    /// One of a fixed set of string constants
    EnumType,
}

/// The known preset keys and their types.
pub open spec fn field_types() -> Seq<(Seq<char>, FieldType)> {
    seq![
        ("ActiveTitleBarOpacity"@, FieldType::Integer),
        ("InactiveTitleBarOpacity"@, FieldType::Integer),
        ("OpaqueMaximizedTitleBars"@, FieldType::Boolean),
        ("OverrideActiveTitleBarOpacity"@, FieldType::Integer),
        ("OverrideInactiveTitleBarOpacity"@, FieldType::Integer),
        ("ApplyOpacityToHeader"@, FieldType::Boolean),
        ("BlurTransparentTitleBars"@, FieldType::Boolean),
        ("MatchTitleBarToApplicationColor"@, FieldType::Boolean),
        ("DrawTitleBarSeparator"@, FieldType::Boolean),
        ("UseTitleBarColorForAllBorders"@, FieldType::Boolean),
        ("TitleBarTopMargin"@, FieldType::Double),
        ("TitleBarBottomMargin"@, FieldType::Double),
        ("TitleBarLeftMargin"@, FieldType::Double),
        ("TitleBarRightMargin"@, FieldType::Double),
        ("PercentMaximizedTopBottomMargins"@, FieldType::Integer),
        ("LockTitleBarTopBottomMargins"@, FieldType::Boolean),
        ("LockTitleBarLeftRightMargins"@, FieldType::Boolean),
        ("TitleAlignment"@, FieldType::EnumType),
        ("TitleSidePadding"@, FieldType::Integer),
        ("BoldTitle"@, FieldType::Boolean),
        ("UnderlineTitle"@, FieldType::Boolean),
        ("ButtonShape"@, FieldType::EnumType),
        ("ButtonIconStyle"@, FieldType::EnumType),
        ("BoldButtonIcons"@, FieldType::EnumType),
        ("ButtonCornerRadius"@, FieldType::EnumType),
        ("ButtonCustomCornerRadius"@, FieldType::Double),
        ("ScaleBackgroundPercent"@, FieldType::Integer),
        ("ButtonBackgroundColorsActive"@, FieldType::EnumType),
        ("ButtonBackgroundColorsInactive"@, FieldType::EnumType),
        ("ButtonBackgroundOpacityActive"@, FieldType::Integer),
        ("ButtonBackgroundOpacityInactive"@, FieldType::Integer),
        ("LockButtonColorsActiveInactive"@, FieldType::Boolean),
        ("ButtonIconColorsActive"@, FieldType::EnumType),
        ("ButtonIconColorsInactive"@, FieldType::EnumType),
        ("ShadowSize"@, FieldType::EnumType),
        ("ShadowStrength"@, FieldType::Integer),
        ("ShadowColor"@, FieldType::Color),
        ("WindowOutlineStyleActive"@, FieldType::EnumType),
        ("WindowOutlineStyleInactive"@, FieldType::EnumType),
        ("WindowOutlineCustomColorActive"@, FieldType::Color),
        ("WindowOutlineCustomColorInactive"@, FieldType::Color),
        ("WindowOutlineOverlap"@, FieldType::Boolean),
        ("WindowOutlineThickness"@, FieldType::Double),
        ("ColorizeWindowOutlineWithButton"@, FieldType::Boolean),
        ("WindowCornerRadius"@, FieldType::Integer),
        ("KwinBorderSize"@, FieldType::EnumType),
        ("AnimationsEnabled"@, FieldType::Boolean),
        ("AnimationsSpeedRelativeSystem"@, FieldType::Integer),
        ("IconSize"@, FieldType::EnumType),
        ("SystemIconSize"@, FieldType::EnumType),
        ("ButtonGradient"@, FieldType::Boolean),
        ("ScrollBarSeparator"@, FieldType::Boolean),
        ("DrawBackgroundGradient"@, FieldType::Boolean),
        ("OnPoorIconContrastActive"@, FieldType::EnumType),
        ("OnPoorIconContrastInactive"@, FieldType::EnumType),
        ("VaryColorBackgroundActive"@, FieldType::EnumType),
        ("VaryColorBackgroundInactive"@, FieldType::EnumType),
        ("ButtonStateCheckedActive"@, FieldType::EnumType),
        ("ButtonStateCheckedInactive"@, FieldType::EnumType),
        ("BundledPreset"@, FieldType::Boolean),
    ]
}

/// The type of the first entry for `key` in `fs`, if any.
pub open spec fn type_in(fs: Seq<(Seq<char>, FieldType)>, key: Seq<char>) -> Option<FieldType>
    decreases fs.len(),
{
    if fs.len() == 0 {
        None
    } else if fs[0].0 == key {
        Some(fs[0].1)
    } else {
        type_in(fs.drop_first(), key)
    }
}

/// The type of a key: its known type, or free-form text when unknown.
pub open spec fn key_type(key: Seq<char>) -> FieldType {
    match type_in(field_types(), key) {
        Some(t) => t,
        None => FieldType::String,
    }
}

/// Registry of the known Klassy preset keys.
pub struct KlassySchema;

impl KlassySchema {
    /// The known keys and their types, in registry order.
    pub fn field_type_list() -> (r: Vec<(&'static str, FieldType)>)
        ensures
            r@.map_values(|p: (&'static str, FieldType)| (p.0@, p.1)) == field_types(),
    {
        let mut r: Vec<(&'static str, FieldType)> = Vec::new();
        r.push(("ActiveTitleBarOpacity", FieldType::Integer));
        r.push(("InactiveTitleBarOpacity", FieldType::Integer));
        r.push(("OpaqueMaximizedTitleBars", FieldType::Boolean));
        r.push(("OverrideActiveTitleBarOpacity", FieldType::Integer));
        r.push(("OverrideInactiveTitleBarOpacity", FieldType::Integer));
        r.push(("ApplyOpacityToHeader", FieldType::Boolean));
        r.push(("BlurTransparentTitleBars", FieldType::Boolean));
        r.push(("MatchTitleBarToApplicationColor", FieldType::Boolean));
        r.push(("DrawTitleBarSeparator", FieldType::Boolean));
        r.push(("UseTitleBarColorForAllBorders", FieldType::Boolean));
        r.push(("TitleBarTopMargin", FieldType::Double));
        r.push(("TitleBarBottomMargin", FieldType::Double));
        r.push(("TitleBarLeftMargin", FieldType::Double));
        r.push(("TitleBarRightMargin", FieldType::Double));
        r.push(("PercentMaximizedTopBottomMargins", FieldType::Integer));
        r.push(("LockTitleBarTopBottomMargins", FieldType::Boolean));
        r.push(("LockTitleBarLeftRightMargins", FieldType::Boolean));
        r.push(("TitleAlignment", FieldType::EnumType));
        r.push(("TitleSidePadding", FieldType::Integer));
        r.push(("BoldTitle", FieldType::Boolean));
        r.push(("UnderlineTitle", FieldType::Boolean));
        r.push(("ButtonShape", FieldType::EnumType));
        r.push(("ButtonIconStyle", FieldType::EnumType));
        r.push(("BoldButtonIcons", FieldType::EnumType));
        r.push(("ButtonCornerRadius", FieldType::EnumType));
        r.push(("ButtonCustomCornerRadius", FieldType::Double));
        r.push(("ScaleBackgroundPercent", FieldType::Integer));
        r.push(("ButtonBackgroundColorsActive", FieldType::EnumType));
        r.push(("ButtonBackgroundColorsInactive", FieldType::EnumType));
        r.push(("ButtonBackgroundOpacityActive", FieldType::Integer));
        r.push(("ButtonBackgroundOpacityInactive", FieldType::Integer));
        r.push(("LockButtonColorsActiveInactive", FieldType::Boolean));
        r.push(("ButtonIconColorsActive", FieldType::EnumType));
        r.push(("ButtonIconColorsInactive", FieldType::EnumType));
        r.push(("ShadowSize", FieldType::EnumType));
        r.push(("ShadowStrength", FieldType::Integer));
        r.push(("ShadowColor", FieldType::Color));
        r.push(("WindowOutlineStyleActive", FieldType::EnumType));
        r.push(("WindowOutlineStyleInactive", FieldType::EnumType));
        r.push(("WindowOutlineCustomColorActive", FieldType::Color));
        r.push(("WindowOutlineCustomColorInactive", FieldType::Color));
        r.push(("WindowOutlineOverlap", FieldType::Boolean));
        r.push(("WindowOutlineThickness", FieldType::Double));
        r.push(("ColorizeWindowOutlineWithButton", FieldType::Boolean));
        r.push(("WindowCornerRadius", FieldType::Integer));
        r.push(("KwinBorderSize", FieldType::EnumType));
        r.push(("AnimationsEnabled", FieldType::Boolean));
        r.push(("AnimationsSpeedRelativeSystem", FieldType::Integer));
        r.push(("IconSize", FieldType::EnumType));
        r.push(("SystemIconSize", FieldType::EnumType));
        r.push(("ButtonGradient", FieldType::Boolean));
        r.push(("ScrollBarSeparator", FieldType::Boolean));
        r.push(("DrawBackgroundGradient", FieldType::Boolean));
        r.push(("OnPoorIconContrastActive", FieldType::EnumType));
        r.push(("OnPoorIconContrastInactive", FieldType::EnumType));
        r.push(("VaryColorBackgroundActive", FieldType::EnumType));
        r.push(("VaryColorBackgroundInactive", FieldType::EnumType));
        r.push(("ButtonStateCheckedActive", FieldType::EnumType));
        r.push(("ButtonStateCheckedInactive", FieldType::EnumType));
        r.push(("BundledPreset", FieldType::Boolean));
        assert(r@.map_values(|p: (&'static str, FieldType)| (p.0@, p.1)) =~= field_types());
        r
    }

    /// The `FieldType` of a key, `FieldType::String` when the key is unknown.
    pub fn get_key_type(key: &str) -> (t: FieldType)
        ensures
            t == key_type(key@),
    {
        let list = Self::field_type_list();
        let ghost fs = field_types();
        let mut i: usize = 0;
        assert(fs.skip(0) =~= fs);
        while i < list.len()
            invariant
                i <= list.len(),
                fs == field_types(),
                list@.map_values(|p: (&'static str, FieldType)| (p.0@, p.1)) == fs,
                type_in(fs, key@) == type_in(fs.skip(i as int), key@),
            decreases list.len() - i,
        {
            let (k, t) = list[i];
            assert(fs[i as int] == (k@, t));
            assert(fs.skip(i as int).len() > 0);
            assert(fs.skip(i as int)[0] == fs[i as int]);
            assert(fs.skip(i as int).drop_first() =~= fs.skip(i + 1));
            if str_eq(k, key) {
                return t;
            }
            i += 1;
        }
        assert(fs.skip(i as int) =~= Seq::<(Seq<char>, FieldType)>::empty());
        FieldType::String
    }
}

} // verus!
