//! Which setting each editor control writes.  A control is named by a key
//! such as `klassy.corner_radius` or `kvantum.widget.Tab.frame.top`; what
//! it holds (text, a number, a colour, a flag) becomes a setting of the
//! Klassy or the Kvantum configuration.

use vstd::prelude::*;
use crate::color::{color_text_ok, klassy_text, kvantum_text, spec_try_parse, to_klassy_color, to_kvantum_color, try_parse};
use crate::models::values::{bool_string, bool_text};
use crate::num::{i64_to_string, int_to_decimal, parse_i64, parse_i64_str};
use crate::text::{chars_of, ends_with, first_index, has_prefix, has_suffix, starts_with, str_eq, string_of_range, texts};

verus! {

broadcast use vstd::string::group_string_axioms;

/// What a control writes.
#[derive(Clone, Debug)]
pub enum Binding {
    /// Nothing (an unknown control, or a value that does not read).
    Nothing,
    /// The value at each Klassy (section, key).
    Klassy(Vec<(String, String)>, String),
    /// A Klassy value that is a decimal number (section, key, the text
    /// typed); reading and writing the number is done by the caller.
    KlassyDecimal(String, String, String),
    /// A `[%General]` value of the Kvantum theme (key, value).
    KvantumGeneral(String, String),
    /// A `[Hacks]` value of the Kvantum theme (key, value).
    KvantumHack(String, String),
    /// A `[GeneralColors]` value of the Kvantum theme (key, value).
    KvantumColor(String, String),
    /// A value of a Kvantum widget section (section, key, value); `None`
    /// removes the key.  A missing section is created.
    KvantumWidget(String, String, Option<String>),
}

/// What a control writes, as texts.
pub enum BindingModel {
    Nothing,
    Klassy(Seq<(Seq<char>, Seq<char>)>, Seq<char>),
    KlassyDecimal(Seq<char>, Seq<char>, Seq<char>),
    KvantumGeneral(Seq<char>, Seq<char>),
    KvantumHack(Seq<char>, Seq<char>),
    KvantumColor(Seq<char>, Seq<char>),
    KvantumWidget(Seq<char>, Seq<char>, Option<Seq<char>>),
}

/// The texts of a list of (section, key) pairs.
pub open spec fn target_texts(v: Seq<(String, String)>) -> Seq<(Seq<char>, Seq<char>)> {
    v.map_values(|p: (String, String)| (p.0@, p.1@))
}

impl View for Binding {
    type V = BindingModel;

    open spec fn view(&self) -> BindingModel {
        match self {
            Binding::Nothing => BindingModel::Nothing,
            Binding::Klassy(t, v) => BindingModel::Klassy(target_texts(t@), v@),
            Binding::KlassyDecimal(s, k, v) => BindingModel::KlassyDecimal(s@, k@, v@),
            Binding::KvantumGeneral(k, v) => BindingModel::KvantumGeneral(k@, v@),
            Binding::KvantumHack(k, v) => BindingModel::KvantumHack(k@, v@),
            Binding::KvantumColor(k, v) => BindingModel::KvantumColor(k@, v@),
            Binding::KvantumWidget(s, k, v) => BindingModel::KvantumWidget(
                s@,
                k@,
                match v {
                    Some(t) => Some(t@),
                    None => None,
                },
            ),
        }
    }
}

/// One Klassy target holding `value`.
pub open spec fn klassy_one(section: Seq<char>, key: Seq<char>, value: Seq<char>) -> BindingModel {
    BindingModel::Klassy(seq![(section, key)], value)
}

/// A Klassy whole number: written back as read, or nothing when the text
/// is not a whole number.
pub open spec fn klassy_int(section: Seq<char>, key: Seq<char>, value: Seq<char>) -> BindingModel {
    match parse_i64(value) {
        Some(v) => klassy_one(section, key, int_to_decimal(v as int)),
        None => BindingModel::Nothing,
    }
}

/// A Kvantum `[%General]` whole number.
pub open spec fn general_int(key: Seq<char>, value: Seq<char>) -> BindingModel {
    match parse_i64(value) {
        Some(v) => BindingModel::KvantumGeneral(key, int_to_decimal(v as int)),
        None => BindingModel::Nothing,
    }
}

/// A Klassy colour written in Klassy notation at each target, or nothing
/// when the text is not a colour.
pub open spec fn klassy_color(targets: Seq<(Seq<char>, Seq<char>)>, value: Seq<char>) -> BindingModel {
    match spec_try_parse(value) {
        Some(c) => BindingModel::Klassy(targets, klassy_text(c)),
        None => BindingModel::Nothing,
    }
}

/// The colour controls of the Klassy editor and where each colour goes.
pub open spec fn klassy_color_targets(key: Seq<char>) -> Option<Seq<(Seq<char>, Seq<char>)>> {
    if key == "color.klassy.shadow_color.hex"@ {
        Some(seq![("ShadowStyle"@, "ShadowColor"@)])
    } else if key == "color.klassy.outline_color_active.hex"@ {
        Some(seq![
            ("Windeco"@, "WindowOutlineCustomColorActive"@),
            ("WindowOutlineStyle"@, "WindowOutlineCustomColorActive"@),
        ])
    } else if key == "color.klassy.outline_color_inactive.hex"@ {
        Some(seq![
            ("Windeco"@, "WindowOutlineCustomColorInactive"@),
            ("WindowOutlineStyle"@, "WindowOutlineCustomColorInactive"@),
        ])
    } else if key == "color.klassy.close_icon_color.hex"@ {
        Some(seq![
            ("ButtonColors"@, "CloseButtonCustomIconColorActive"@),
            ("ButtonColors"@, "CloseButtonCustomIconColorInactive"@),
            ("Windeco"@, "CloseButtonCustomIconColorActive"@),
            ("Windeco"@, "CloseButtonCustomIconColorInactive"@),
        ])
    } else if key == "color.klassy.minimize_icon_color.hex"@ {
        Some(seq![
            ("ButtonColors"@, "MinimizeButtonCustomIconColorActive"@),
            ("ButtonColors"@, "MinimizeButtonCustomIconColorInactive"@),
        ])
    } else if key == "color.klassy.maximize_icon_color.hex"@ {
        Some(seq![
            ("ButtonColors"@, "MaximizeButtonCustomIconColorActive"@),
            ("ButtonColors"@, "MaximizeButtonCustomIconColorInactive"@),
        ])
    } else {
        None
    }
}

/// Whether a control's value is read as a colour.
pub open spec fn is_color_control(key: Seq<char>) -> bool {
    klassy_color_targets(key) is Some || (has_prefix(key, "color.kvantum.color."@) && has_suffix(
        key,
        ".hex"@,
    ))
}

/// The widget-section control `kvantum.widget.<section>.<key>`: the
/// section and key (split at the first dot after the prefix), both
/// non-empty.
pub open spec fn widget_parts(key: Seq<char>) -> Option<(Seq<char>, Seq<char>)> {
    let rest = key.skip(15);
    if has_prefix(key, "kvantum.widget."@) && rest.contains('.') {
        let dot = first_index(rest, '.');
        let section = rest.take(dot);
        let property = rest.skip(dot + 1);
        if section.len() > 0 && property.len() > 0 {
            Some((section, property))
        } else {
            None
        }
    } else {
        None
    }
}

/// The colour key of a `color.kvantum.color.<key>.hex` control.
pub open spec fn kvantum_color_key(key: Seq<char>) -> Seq<char> {
    let rest = key.skip(20);
    if has_suffix(rest, ".hex"@) {
        rest.take(rest.len() - 4)
    } else {
        Seq::empty()
    }
}

/// What a control holding the text `value` writes.
pub open spec fn text_binding(key: Seq<char>, value: Seq<char>) -> BindingModel {
    if key == "klassy.corner_radius"@ {
        klassy_int("Windeco"@, "WindowCornerRadius"@, value)
    } else if key == "klassy.shadow_strength"@ {
        klassy_int("ShadowStyle"@, "ShadowStrength"@, value)
    } else if key == "klassy.titlebar_opacity"@ {
        klassy_int("TitleBarOpacity"@, "ActiveTitleBarOpacity"@, value)
    } else if key == "klassy.titlebar_opacity_inactive"@ {
        klassy_int("TitleBarOpacity"@, "InactiveTitleBarOpacity"@, value)
    } else if key == "klassy.bg_opacity_active"@ {
        klassy_int("ButtonColors"@, "ButtonBackgroundOpacityActive"@, value)
    } else if key == "klassy.bg_opacity_inactive"@ {
        klassy_int("ButtonColors"@, "ButtonBackgroundOpacityInactive"@, value)
    } else if key == "klassy.titlebar_side_padding"@ {
        klassy_one("TitleBarSpacing"@, "TitleBarSidePadding"@, value)
    } else if key == "klassy.titlebar_top_margin"@ {
        BindingModel::KlassyDecimal("TitleBarSpacing"@, "TitleBarTopMargin"@, value)
    } else if key == "klassy.titlebar_bottom_margin"@ {
        BindingModel::KlassyDecimal("TitleBarSpacing"@, "TitleBarBottomMargin"@, value)
    } else if key == "klassy.anim_duration"@ {
        klassy_int("Windeco"@, "AnimationsSpeedRelativeSystem"@, value)
    } else if key == "klassy.shadow_size"@ {
        klassy_one("ShadowStyle"@, "ShadowSize"@, value)
    } else if key == "klassy.button_spacing_left"@ {
        klassy_one("Windeco"@, "ButtonSpacingLeft"@, value)
    } else if key == "klassy.button_spacing_right"@ {
        klassy_one("Windeco"@, "ButtonSpacingRight"@, value)
    } else if key == "klassy.hover_opacity"@ {
        klassy_one("Windeco"@, "HoverHighlightOpacity"@, value)
    } else if key == "klassy.button_shape"@ {
        klassy_one("Windeco"@, "ButtonShape"@, "Shape"@ + value)
    } else if key == "klassy.button_icon_style"@ {
        klassy_one("Windeco"@, "ButtonIconStyle"@, "Style"@ + value)
    } else if key == "klassy.bg_colors_active"@ {
        klassy_one("ButtonColors"@, "ButtonBackgroundColorsActive"@, value)
    } else if key == "klassy.bg_colors_inactive"@ {
        klassy_one("ButtonColors"@, "ButtonBackgroundColorsInactive"@, value)
    } else if key == "klassy.outline_active"@ {
        klassy_one("Windeco"@, "WindowOutlineStyleActive"@, value)
    } else if key == "klassy.outline_inactive"@ {
        klassy_one("Windeco"@, "WindowOutlineStyleInactive"@, value)
    } else if key == "kvantum.window_opacity_reduction"@ {
        general_int("reduce_window_opacity"@, value)
    } else if key == "kvantum.reduce_opacity"@ {
        general_int("reduce_menu_opacity"@, value)
    } else if key == "kvantum.scrollbar_width"@ {
        general_int("slider_width"@, value)
    } else if key == "kvantum.scroll_arrow_size"@ {
        general_int("scroll_min_extent"@, value)
    } else if klassy_color_targets(key) is Some {
        klassy_color(klassy_color_targets(key).unwrap(), value)
    } else if has_prefix(key, "kvantum.widget."@) {
        match widget_parts(key) {
            Some((section, property)) => if property == "inherits"@ && value == "(none)"@ {
                BindingModel::KvantumWidget(section, property, None)
            } else {
                BindingModel::KvantumWidget(section, property, Some(value))
            },
            None => BindingModel::Nothing,
        }
    } else if has_prefix(key, "kvantum.general."@) {
        BindingModel::KvantumGeneral(key.skip(16), value)
    } else if has_prefix(key, "kvantum.hacks."@) && !has_suffix(key, ".search"@) {
        if key.len() > 14 {
            BindingModel::KvantumHack(key.skip(14), value)
        } else {
            BindingModel::Nothing
        }
    } else if has_prefix(key, "color.kvantum.color."@) && has_suffix(key, ".hex"@) {
        match spec_try_parse(value) {
            Some(c) => if kvantum_color_key(key).len() > 0 {
                BindingModel::KvantumColor(kvantum_color_key(key), kvantum_text(c))
            } else {
                BindingModel::Nothing
            },
            None => BindingModel::Nothing,
        }
    } else {
        BindingModel::Nothing
    }
}

/// The legacy toggles of `[Hacks]` and the keys they write.
pub open spec fn legacy_hack(key: Seq<char>) -> Option<Seq<char>> {
    if key == "kvantum.transparent_dolphin"@ {
        Some("transparent_dolphin_view"@)
    } else if key == "kvantum.transparent_ktitle"@ {
        Some("transparent_ktitle_label"@)
    } else if key == "kvantum.blur_translucent"@ {
        Some("blur_translucent"@)
    } else if key == "kvantum.respect_de_colors"@ {
        Some("respect_darkness"@)
    } else {
        None
    }
}

/// What a toggle set to `value` writes.
pub open spec fn toggle_binding(key: Seq<char>, value: bool) -> BindingModel {
    let v = bool_text(value);
    if key == "klassy.titlebar_separator"@ {
        klassy_one("Windeco"@, "DrawTitleBarSeparator"@, v)
    } else if key == "klassy.border_maximized"@ {
        klassy_one("Windeco"@, "DrawBorderOnMaximizedWindows"@, v)
    } else if key == "klassy.active_highlight"@ {
        klassy_one("Windeco"@, "DrawHighlightOnActiveWindow"@, v)
    } else if key == "klassy.custom_outline"@ {
        klassy_one("Windeco"@, "ColorizeWindowOutlineWithButton"@, v)
    } else if has_prefix(key, "kvantum.general."@) {
        BindingModel::KvantumGeneral(key.skip(16), v)
    } else if key == "kvantum.animate_states"@ || key == "kvantum.composite"@ {
        BindingModel::KvantumGeneral(key.skip(8), v)
    } else if has_prefix(key, "kvantum.hacks."@) {
        BindingModel::KvantumHack(key.skip(14), v)
    } else {
        match legacy_hack(key) {
            Some(h) => BindingModel::KvantumHack(h, v),
            None => BindingModel::Nothing,
        }
    }
}

fn klassy_targets(pairs: &[(&str, &str)]) -> (r: Vec<(String, String)>)
    ensures
        target_texts(r@) == pairs@.map_values(|p: (&str, &str)| (p.0@, p.1@)),
{
    let mut r: Vec<(String, String)> = Vec::new();
    let ghost want = pairs@.map_values(|p: (&str, &str)| (p.0@, p.1@));
    let mut i: usize = 0;
    while i < pairs.len()
        invariant
            i <= pairs.len(),
            want == pairs@.map_values(|p: (&str, &str)| (p.0@, p.1@)),
            target_texts(r@) == want.take(i as int),
        decreases pairs.len() - i,
    {
        let (s, k) = pairs[i];
        assert(want[i as int] == (s@, k@));
        let ghost before = target_texts(r@);
        r.push((s.to_string(), k.to_string()));
        assert(target_texts(r@) =~= before.push((s@, k@)));
        assert(target_texts(r@) =~= want.take(i + 1));
        i += 1;
    }
    assert(want.take(i as int) =~= want);
    r
}

fn one(section: &str, key: &str, value: String) -> (b: Binding)
    ensures
        b@ == klassy_one(section@, key@, value@),
{
    let mut t: Vec<(String, String)> = Vec::new();
    t.push((section.to_string(), key.to_string()));
    assert(target_texts(t@) =~= seq![(section@, key@)]);
    Binding::Klassy(t, value)
}

fn int_value(section: &str, key: &str, value: &str) -> (b: Binding)
    ensures
        b@ == klassy_int(section@, key@, value@),
{
    match parse_i64_str(value) {
        Some(v) => one(section, key, i64_to_string(v)),
        None => Binding::Nothing,
    }
}

fn general_value(key: &str, value: &str) -> (b: Binding)
    ensures
        b@ == general_int(key@, value@),
{
    match parse_i64_str(value) {
        Some(v) => Binding::KvantumGeneral(key.to_string(), i64_to_string(v)),
        None => Binding::Nothing,
    }
}

/// The Klassy colour targets of a control, as a list.
fn color_targets(key: &str) -> (r: Option<Vec<(String, String)>>)
    ensures
        match klassy_color_targets(key@) {
            Some(t) => r matches Some(v) && target_texts(v@) == t,
            None => r is None,
        },
{
    if str_eq(key, "color.klassy.shadow_color.hex") {
        let r = klassy_targets(&[("ShadowStyle", "ShadowColor")]);
        Some(r)
    } else if str_eq(key, "color.klassy.outline_color_active.hex") {
        let r = klassy_targets(
            &[
                ("Windeco", "WindowOutlineCustomColorActive"),
                ("WindowOutlineStyle", "WindowOutlineCustomColorActive"),
            ],
        );
        Some(r)
    } else if str_eq(key, "color.klassy.outline_color_inactive.hex") {
        let r = klassy_targets(
            &[
                ("Windeco", "WindowOutlineCustomColorInactive"),
                ("WindowOutlineStyle", "WindowOutlineCustomColorInactive"),
            ],
        );
        Some(r)
    } else if str_eq(key, "color.klassy.close_icon_color.hex") {
        let r = klassy_targets(
            &[
                ("ButtonColors", "CloseButtonCustomIconColorActive"),
                ("ButtonColors", "CloseButtonCustomIconColorInactive"),
                ("Windeco", "CloseButtonCustomIconColorActive"),
                ("Windeco", "CloseButtonCustomIconColorInactive"),
            ],
        );
        Some(r)
    } else if str_eq(key, "color.klassy.minimize_icon_color.hex") {
        let r = klassy_targets(
            &[
                ("ButtonColors", "MinimizeButtonCustomIconColorActive"),
                ("ButtonColors", "MinimizeButtonCustomIconColorInactive"),
            ],
        );
        Some(r)
    } else if str_eq(key, "color.klassy.maximize_icon_color.hex") {
        let r = klassy_targets(
            &[
                ("ButtonColors", "MaximizeButtonCustomIconColorActive"),
                ("ButtonColors", "MaximizeButtonCustomIconColorInactive"),
            ],
        );
        Some(r)
    } else {
        None
    }
}

/// The widget section and key of a `kvantum.widget.<section>.<key>`
/// control.
fn widget_parts_of(key: &str) -> (r: Option<(String, String)>)
    requires
        has_prefix(key@, "kvantum.widget."@),
    ensures
        match widget_parts(key@) {
            Some((a, b)) => r matches Some((x, y)) && x@ == a && y@ == b,
            None => r is None,
        },
{
    proof {
        reveal_strlit("kvantum.widget.");
    }
    let v = chars_of(key);
    let ghost rest = key@.skip(15);
    let found = crate::text::find_char(&v, 15, v.len(), '.');
    assert(v@.subrange(15, v@.len() as int) =~= rest);
    match found {
        Some(d) => {
            let dot = 15 + d;
            let section = string_of_range(&v, 15, dot);
            let property = string_of_range(&v, dot + 1, v.len());
            assert(section@ =~= rest.take(d as int));
            assert(property@ =~= rest.skip(d + 1));
            if dot > 15 && dot + 1 < v.len() {
                Some((section, property))
            } else {
                None
            }
        },
        None => None,
    }
}

/// What a control holding the text `value` writes.
pub fn ui_value_binding(key: &str, value: &str) -> (b: Binding)
    requires
        is_color_control(key@) ==> color_text_ok(value@),
    ensures
        b@ == text_binding(key@, value@),
{
    if str_eq(key, "klassy.corner_radius") {
        int_value("Windeco", "WindowCornerRadius", value)
    } else if str_eq(key, "klassy.shadow_strength") {
        int_value("ShadowStyle", "ShadowStrength", value)
    } else if str_eq(key, "klassy.titlebar_opacity") {
        int_value("TitleBarOpacity", "ActiveTitleBarOpacity", value)
    } else if str_eq(key, "klassy.titlebar_opacity_inactive") {
        int_value("TitleBarOpacity", "InactiveTitleBarOpacity", value)
    } else if str_eq(key, "klassy.bg_opacity_active") {
        int_value("ButtonColors", "ButtonBackgroundOpacityActive", value)
    } else if str_eq(key, "klassy.bg_opacity_inactive") {
        int_value("ButtonColors", "ButtonBackgroundOpacityInactive", value)
    } else if str_eq(key, "klassy.titlebar_side_padding") {
        one("TitleBarSpacing", "TitleBarSidePadding", value.to_string())
    } else if str_eq(key, "klassy.titlebar_top_margin") {
        Binding::KlassyDecimal("TitleBarSpacing".to_string(), "TitleBarTopMargin".to_string(), value.to_string())
    } else if str_eq(key, "klassy.titlebar_bottom_margin") {
        Binding::KlassyDecimal("TitleBarSpacing".to_string(), "TitleBarBottomMargin".to_string(), value.to_string())
    } else if str_eq(key, "klassy.anim_duration") {
        int_value("Windeco", "AnimationsSpeedRelativeSystem", value)
    } else if str_eq(key, "klassy.shadow_size") {
        one("ShadowStyle", "ShadowSize", value.to_string())
    } else if str_eq(key, "klassy.button_spacing_left") {
        one("Windeco", "ButtonSpacingLeft", value.to_string())
    } else if str_eq(key, "klassy.button_spacing_right") {
        one("Windeco", "ButtonSpacingRight", value.to_string())
    } else if str_eq(key, "klassy.hover_opacity") {
        one("Windeco", "HoverHighlightOpacity", value.to_string())
    } else if str_eq(key, "klassy.button_shape") {
        let mut t = "Shape".to_string();
        t.append(value);
        one("Windeco", "ButtonShape", t)
    } else if str_eq(key, "klassy.button_icon_style") {
        let mut t = "Style".to_string();
        t.append(value);
        one("Windeco", "ButtonIconStyle", t)
    } else if str_eq(key, "klassy.bg_colors_active") {
        one("ButtonColors", "ButtonBackgroundColorsActive", value.to_string())
    } else if str_eq(key, "klassy.bg_colors_inactive") {
        one("ButtonColors", "ButtonBackgroundColorsInactive", value.to_string())
    } else if str_eq(key, "klassy.outline_active") {
        one("Windeco", "WindowOutlineStyleActive", value.to_string())
    } else if str_eq(key, "klassy.outline_inactive") {
        one("Windeco", "WindowOutlineStyleInactive", value.to_string())
    } else if str_eq(key, "kvantum.window_opacity_reduction") {
        general_value("reduce_window_opacity", value)
    } else if str_eq(key, "kvantum.reduce_opacity") {
        general_value("reduce_menu_opacity", value)
    } else if str_eq(key, "kvantum.scrollbar_width") {
        general_value("slider_width", value)
    } else if str_eq(key, "kvantum.scroll_arrow_size") {
        general_value("scroll_min_extent", value)
    } else {
        other_value_binding(key, value)
    }
}

/// The controls matched by their prefix.
fn other_value_binding(key: &str, value: &str) -> (b: Binding)
    requires
        is_color_control(key@) ==> color_text_ok(value@),
        key@ != "klassy.corner_radius"@,
        key@ != "klassy.shadow_strength"@,
        key@ != "klassy.titlebar_opacity"@,
        key@ != "klassy.titlebar_opacity_inactive"@,
        key@ != "klassy.bg_opacity_active"@,
        key@ != "klassy.bg_opacity_inactive"@,
        key@ != "klassy.titlebar_side_padding"@,
        key@ != "klassy.titlebar_top_margin"@,
        key@ != "klassy.titlebar_bottom_margin"@,
        key@ != "klassy.anim_duration"@,
        key@ != "klassy.shadow_size"@,
        key@ != "klassy.button_spacing_left"@,
        key@ != "klassy.button_spacing_right"@,
        key@ != "klassy.hover_opacity"@,
        key@ != "klassy.button_shape"@,
        key@ != "klassy.button_icon_style"@,
        key@ != "klassy.bg_colors_active"@,
        key@ != "klassy.bg_colors_inactive"@,
        key@ != "klassy.outline_active"@,
        key@ != "klassy.outline_inactive"@,
        key@ != "kvantum.window_opacity_reduction"@,
        key@ != "kvantum.reduce_opacity"@,
        key@ != "kvantum.scrollbar_width"@,
        key@ != "kvantum.scroll_arrow_size"@,
    ensures
        b@ == text_binding(key@, value@),
{
    proof {
        reveal_strlit("kvantum.general.");
        reveal_strlit("kvantum.hacks.");
        reveal_strlit("color.kvantum.color.");
        reveal_strlit(".hex");
    }
    match color_targets(key) {
        Some(t) => {
            return match try_parse(value) {
                Some(c) => Binding::Klassy(t, to_klassy_color(&c)),
                None => Binding::Nothing,
            };
        },
        None => {},
    }
    if starts_with(key, "kvantum.widget.") {
        match widget_parts_of(key) {
            Some((section, property)) => {
                if str_eq(property.as_str(), "inherits") && str_eq(value, "(none)") {
                    Binding::KvantumWidget(section, property, None)
                } else {
                    Binding::KvantumWidget(section, property, Some(value.to_string()))
                }
            },
            None => Binding::Nothing,
        }
    } else if starts_with(key, "kvantum.general.") {
        let v = chars_of(key);
        let k = string_of_range(&v, 16, v.len());
        assert(k@ =~= key@.skip(16));
        Binding::KvantumGeneral(k, value.to_string())
    } else if starts_with(key, "kvantum.hacks.") && !ends_with(key, ".search") {
        let v = chars_of(key);
        if v.len() > 14 {
            let k = string_of_range(&v, 14, v.len());
            assert(k@ =~= key@.skip(14));
            Binding::KvantumHack(k, value.to_string())
        } else {
            Binding::Nothing
        }
    } else if starts_with(key, "color.kvantum.color.") && ends_with(key, ".hex") {
        match try_parse(value) {
            Some(c) => {
                let v = chars_of(key);
                let ghost rest = key@.skip(20);
                if v.len() > 24 {
                    assert(has_suffix(rest, ".hex"@)) by {
                        assert(rest.skip(rest.len() - 4) =~= key@.skip(key@.len() - 4));
                    }
                }
                if v.len() > 24 {
                    let k = string_of_range(&v, 20, v.len() - 4);
                    assert(k@ =~= kvantum_color_key(key@));
                    Binding::KvantumColor(k, to_kvantum_color(&c))
                } else {
                    assert(kvantum_color_key(key@).len() == 0);
                    Binding::Nothing
                }
            },
            None => Binding::Nothing,
        }
    } else {
        Binding::Nothing
    }
}

/// What a toggle set to `value` writes.
pub fn ui_toggle_binding(key: &str, value: bool) -> (b: Binding)
    ensures
        b@ == toggle_binding(key@, value),
{
    proof {
        reveal_strlit("kvantum.general.");
        reveal_strlit("kvantum.hacks.");
        reveal_strlit("kvantum.animate_states");
        reveal_strlit("kvantum.composite");
    }
    let t = bool_string(value);
    if str_eq(key, "klassy.titlebar_separator") {
        one("Windeco", "DrawTitleBarSeparator", t)
    } else if str_eq(key, "klassy.border_maximized") {
        one("Windeco", "DrawBorderOnMaximizedWindows", t)
    } else if str_eq(key, "klassy.active_highlight") {
        one("Windeco", "DrawHighlightOnActiveWindow", t)
    } else if str_eq(key, "klassy.custom_outline") {
        one("Windeco", "ColorizeWindowOutlineWithButton", t)
    } else if starts_with(key, "kvantum.general.") {
        let v = chars_of(key);
        let k = string_of_range(&v, 16, v.len());
        assert(k@ =~= key@.skip(16));
        Binding::KvantumGeneral(k, t)
    } else if str_eq(key, "kvantum.animate_states") || str_eq(key, "kvantum.composite") {
        let v = chars_of(key);
        let k = string_of_range(&v, 8, v.len());
        assert(k@ =~= key@.skip(8));
        Binding::KvantumGeneral(k, t)
    } else if starts_with(key, "kvantum.hacks.") {
        let v = chars_of(key);
        let k = string_of_range(&v, 14, v.len());
        assert(k@ =~= key@.skip(14));
        Binding::KvantumHack(k, t)
    } else if str_eq(key, "kvantum.transparent_dolphin") {
        Binding::KvantumHack("transparent_dolphin_view".to_string(), t)
    } else if str_eq(key, "kvantum.transparent_ktitle") {
        Binding::KvantumHack("transparent_ktitle_label".to_string(), t)
    } else if str_eq(key, "kvantum.blur_translucent") {
        Binding::KvantumHack("blur_translucent".to_string(), t)
    } else if str_eq(key, "kvantum.respect_de_colors") {
        Binding::KvantumHack("respect_darkness".to_string(), t)
    } else {
        Binding::Nothing
    }
}

/// Whether a control's value is read as a colour (and so must be a
/// readable colour text).
pub fn is_color_control_key(key: &str) -> (r: bool)
    ensures
        r == is_color_control(key@),
{
    color_targets(key).is_some() || (starts_with(key, "color.kvantum.color.") && ends_with(key, ".hex"))
}

} // verus!
