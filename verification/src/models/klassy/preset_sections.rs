//! Where applying a preset writes each of Klassy's keys.

use vstd::prelude::*;
use crate::models::klassy::config::{nested, KlassyModel};
use crate::models::klassy::preset::{
    apply_pairs, in_button_colors, in_shadow_style, in_style, in_title_bar_opacity,
    in_title_bar_spacing, in_window_outline_style, lemma_apply_pairs, section_for,
};
use crate::strmap::{has_key, pairs_map, Pair};

verus! {

/// Applying a preset writes each key into the section Klassy keeps it in:
/// `ShadowColor`, `ShadowSize` and `ShadowStrength` into `[ShadowStyle]`,
/// the button colour keys into `[ButtonColors]`, the title bar opacity and
/// spacing keys into `[TitleBarOpacity]` and `[TitleBarSpacing]`, the
/// outline keys into `[WindowOutlineStyle]`, the gradient and separator
/// keys into `[Style]`, and the general decoration keys into `[Windeco]`.
pub proof fn lemma_preset_sections(c: KlassyModel, p: Seq<Pair>, k: Seq<char>)
    requires
        crate::strmap::distinct_keys(p),
        has_key(p, k),
    ensures
        (k == "ShadowColor"@ || k == "ShadowSize"@ || k == "ShadowStrength"@) ==> nested(apply_pairs(c, p), "ShadowStyle"@, k) == Some(pairs_map(p)[k]),
        (k == "ButtonBackgroundColorsActive"@ || k == "ButtonBackgroundColorsInactive"@ || k == "ButtonBackgroundOpacityActive"@ || k == "ButtonBackgroundOpacityInactive"@ || k == "ButtonIconColorsActive"@ || k == "LockButtonColorsActiveInactive"@ || k == "ButtonColorsInactiveSameHoverPress"@) ==> nested(apply_pairs(c, p), "ButtonColors"@, k) == Some(pairs_map(p)[k]),
        (k == "ActiveTitleBarOpacity"@ || k == "InactiveTitleBarOpacity"@ || k == "OpaqueMaximizedTitleBars"@ || k == "OverrideActiveTitleBarOpacity"@ || k == "OverrideInactiveTitleBarOpacity"@ || k == "ApplyOpacityToHeader"@) ==> nested(apply_pairs(c, p), "TitleBarOpacity"@, k) == Some(pairs_map(p)[k]),
        (k == "TitleBarTopMargin"@ || k == "TitleBarBottomMargin"@ || k == "TitleBarLeftMargin"@ || k == "TitleBarRightMargin"@ || k == "PercentMaximizedTopBottomMargins"@) ==> nested(apply_pairs(c, p), "TitleBarSpacing"@, k) == Some(pairs_map(p)[k]),
        (k == "WindowOutlineStyleActive"@ || k == "WindowOutlineCustomColorActive"@ || k == "WindowOutlineOverlap"@ || k == "WindowOutlineThickness"@ || k == "WindowOutlineSnapToWholePixel"@) ==> nested(apply_pairs(c, p), "WindowOutlineStyle"@, k) == Some(pairs_map(p)[k]),
        (k == "ButtonGradient"@ || k == "ScrollBarSeparator"@ || k == "DrawBackgroundGradient"@) ==> nested(apply_pairs(c, p), "Style"@, k) == Some(pairs_map(p)[k]),
        (k == "ButtonShape"@ || k == "ButtonIconStyle"@ || k == "AnimationsSpeedRelativeSystem"@ || k == "BlurTransparentTitleBars"@ || k == "ColorizeWindowOutlineWithButton"@ || k == "DrawTitleBarSeparator"@ || k == "MatchTitleBarToApplicationColor"@ || k == "WindowCornerRadius"@) ==> nested(apply_pairs(c, p), "Windeco"@, k) == Some(pairs_map(p)[k]),
{
    if k == "ShadowColor"@ {
        lemma_section_for_shadow_color();
        lemma_apply_pairs(c, p, "ShadowStyle"@, k);
    }
    if k == "ShadowSize"@ {
        lemma_section_for_shadow_size();
        lemma_apply_pairs(c, p, "ShadowStyle"@, k);
    }
    if k == "ShadowStrength"@ {
        lemma_section_for_shadow_strength();
        lemma_apply_pairs(c, p, "ShadowStyle"@, k);
    }
    if k == "ButtonBackgroundColorsActive"@ {
        lemma_section_for_button_background_colors_active();
        lemma_apply_pairs(c, p, "ButtonColors"@, k);
    }
    if k == "ButtonBackgroundColorsInactive"@ {
        lemma_section_for_button_background_colors_inactive();
        lemma_apply_pairs(c, p, "ButtonColors"@, k);
    }
    if k == "ButtonBackgroundOpacityActive"@ {
        lemma_section_for_button_background_opacity_active();
        lemma_apply_pairs(c, p, "ButtonColors"@, k);
    }
    if k == "ButtonBackgroundOpacityInactive"@ {
        lemma_section_for_button_background_opacity_inactive();
        lemma_apply_pairs(c, p, "ButtonColors"@, k);
    }
    if k == "ButtonIconColorsActive"@ {
        lemma_section_for_button_icon_colors_active();
        lemma_apply_pairs(c, p, "ButtonColors"@, k);
    }
    if k == "LockButtonColorsActiveInactive"@ {
        lemma_section_for_lock_button_colors_active_inactive();
        lemma_apply_pairs(c, p, "ButtonColors"@, k);
    }
    if k == "ButtonColorsInactiveSameHoverPress"@ {
        lemma_section_for_button_colors_inactive_same_hover_press();
        lemma_apply_pairs(c, p, "ButtonColors"@, k);
    }
    if k == "ActiveTitleBarOpacity"@ {
        lemma_section_for_active_title_bar_opacity();
        lemma_apply_pairs(c, p, "TitleBarOpacity"@, k);
    }
    if k == "InactiveTitleBarOpacity"@ {
        lemma_section_for_inactive_title_bar_opacity();
        lemma_apply_pairs(c, p, "TitleBarOpacity"@, k);
    }
    if k == "OpaqueMaximizedTitleBars"@ {
        lemma_section_for_opaque_maximized_title_bars();
        lemma_apply_pairs(c, p, "TitleBarOpacity"@, k);
    }
    if k == "OverrideActiveTitleBarOpacity"@ {
        lemma_section_for_override_active_title_bar_opacity();
        lemma_apply_pairs(c, p, "TitleBarOpacity"@, k);
    }
    if k == "OverrideInactiveTitleBarOpacity"@ {
        lemma_section_for_override_inactive_title_bar_opacity();
        lemma_apply_pairs(c, p, "TitleBarOpacity"@, k);
    }
    if k == "ApplyOpacityToHeader"@ {
        lemma_section_for_apply_opacity_to_header();
        lemma_apply_pairs(c, p, "TitleBarOpacity"@, k);
    }
    if k == "TitleBarTopMargin"@ {
        lemma_section_for_title_bar_top_margin();
        lemma_apply_pairs(c, p, "TitleBarSpacing"@, k);
    }
    if k == "TitleBarBottomMargin"@ {
        lemma_section_for_title_bar_bottom_margin();
        lemma_apply_pairs(c, p, "TitleBarSpacing"@, k);
    }
    if k == "TitleBarLeftMargin"@ {
        lemma_section_for_title_bar_left_margin();
        lemma_apply_pairs(c, p, "TitleBarSpacing"@, k);
    }
    if k == "TitleBarRightMargin"@ {
        lemma_section_for_title_bar_right_margin();
        lemma_apply_pairs(c, p, "TitleBarSpacing"@, k);
    }
    if k == "PercentMaximizedTopBottomMargins"@ {
        lemma_section_for_percent_maximized_top_bottom_margins();
        lemma_apply_pairs(c, p, "TitleBarSpacing"@, k);
    }
    if k == "WindowOutlineStyleActive"@ {
        lemma_section_for_window_outline_style_active();
        lemma_apply_pairs(c, p, "WindowOutlineStyle"@, k);
    }
    if k == "WindowOutlineCustomColorActive"@ {
        lemma_section_for_window_outline_custom_color_active();
        lemma_apply_pairs(c, p, "WindowOutlineStyle"@, k);
    }
    if k == "WindowOutlineOverlap"@ {
        lemma_section_for_window_outline_overlap();
        lemma_apply_pairs(c, p, "WindowOutlineStyle"@, k);
    }
    if k == "WindowOutlineThickness"@ {
        lemma_section_for_window_outline_thickness();
        lemma_apply_pairs(c, p, "WindowOutlineStyle"@, k);
    }
    if k == "WindowOutlineSnapToWholePixel"@ {
        lemma_section_for_window_outline_snap_to_whole_pixel();
        lemma_apply_pairs(c, p, "WindowOutlineStyle"@, k);
    }
    if k == "ButtonGradient"@ {
        lemma_section_for_button_gradient();
        lemma_apply_pairs(c, p, "Style"@, k);
    }
    if k == "ScrollBarSeparator"@ {
        lemma_section_for_scroll_bar_separator();
        lemma_apply_pairs(c, p, "Style"@, k);
    }
    if k == "DrawBackgroundGradient"@ {
        lemma_section_for_draw_background_gradient();
        lemma_apply_pairs(c, p, "Style"@, k);
    }
    if k == "ButtonShape"@ {
        lemma_section_for_button_shape();
        lemma_apply_pairs(c, p, "Windeco"@, k);
    }
    if k == "ButtonIconStyle"@ {
        lemma_section_for_button_icon_style();
        lemma_apply_pairs(c, p, "Windeco"@, k);
    }
    if k == "AnimationsSpeedRelativeSystem"@ {
        lemma_section_for_animations_speed_relative_system();
        lemma_apply_pairs(c, p, "Windeco"@, k);
    }
    if k == "BlurTransparentTitleBars"@ {
        lemma_section_for_blur_transparent_title_bars();
        lemma_apply_pairs(c, p, "Windeco"@, k);
    }
    if k == "ColorizeWindowOutlineWithButton"@ {
        lemma_section_for_colorize_window_outline_with_button();
        lemma_apply_pairs(c, p, "Windeco"@, k);
    }
    if k == "DrawTitleBarSeparator"@ {
        lemma_section_for_draw_title_bar_separator();
        lemma_apply_pairs(c, p, "Windeco"@, k);
    }
    if k == "MatchTitleBarToApplicationColor"@ {
        lemma_section_for_match_title_bar_to_application_color();
        lemma_apply_pairs(c, p, "Windeco"@, k);
    }
    if k == "WindowCornerRadius"@ {
        lemma_section_for_window_corner_radius();
        lemma_apply_pairs(c, p, "Windeco"@, k);
    }
}

proof fn lemma_section_for_shadow_color()
    ensures
        section_for("ShadowColor"@) == "ShadowStyle"@,
{
    reveal_strlit("ShadowColor");
    reveal_strlit("ShadowColor");
    reveal_strlit("ShadowSize");
    reveal_strlit("ShadowStrength");
    assert(in_shadow_style("ShadowColor"@));
}

proof fn lemma_section_for_shadow_size()
    ensures
        section_for("ShadowSize"@) == "ShadowStyle"@,
{
    reveal_strlit("ShadowSize");
    reveal_strlit("ShadowColor");
    reveal_strlit("ShadowSize");
    reveal_strlit("ShadowStrength");
    assert(in_shadow_style("ShadowSize"@));
}

proof fn lemma_section_for_shadow_strength()
    ensures
        section_for("ShadowStrength"@) == "ShadowStyle"@,
{
    reveal_strlit("ShadowStrength");
    reveal_strlit("ShadowColor");
    reveal_strlit("ShadowSize");
    reveal_strlit("ShadowStrength");
    assert(in_shadow_style("ShadowStrength"@));
}

proof fn lemma_section_for_button_background_colors_active()
    ensures
        section_for("ButtonBackgroundColorsActive"@) == "ButtonColors"@,
{
    reveal_strlit("ButtonBackgroundColorsActive");
    reveal_strlit("ShadowColor");
    reveal_strlit("ShadowSize");
    reveal_strlit("ShadowStrength");
    assert("ButtonBackgroundColorsActive"@[0] != "ShadowColor"@[0]);
    assert("ButtonBackgroundColorsActive"@[0] != "ShadowSize"@[0]);
    assert("ButtonBackgroundColorsActive"@[0] != "ShadowStrength"@[0]);
    assert(!in_shadow_style("ButtonBackgroundColorsActive"@));
    reveal_strlit("ButtonBackgroundColors");
    reveal_strlit("ButtonBackgroundOpacity");
    reveal_strlit("LockButtonColorsActiveInactive");
    reveal_strlit("ButtonColorsInactiveSameHoverPress");
    reveal_strlit("ButtonIconColors");
    reveal_strlit("ButtonIconOpacity");
    reveal_strlit("ButtonOverrideColors");
    reveal_strlit("CloseButtonIconColor");
    reveal_strlit("CloseButtonCustomIconColor");
    reveal_strlit("MaximizeButtonIconColor");
    reveal_strlit("MaximizeButtonCustomIconColor");
    reveal_strlit("MinimizeButtonIconColor");
    reveal_strlit("MinimizeButtonCustomIconColor");
    reveal_strlit("NegativeCloseBackground");
    reveal_strlit("ShowBackground");
    reveal_strlit("ShowCloseBackground");
    reveal_strlit("ShowCloseIcon");
    reveal_strlit("ShowCloseOutline");
    reveal_strlit("ShowIcon");
    reveal_strlit("ShowOutline");
    reveal_strlit("VaryColor");
    reveal_strlit("UseHoverAccent");
    assert("ButtonBackgroundColorsActive"@.take(22) =~= "ButtonBackgroundColors"@);
    assert(in_button_colors("ButtonBackgroundColorsActive"@));
}

proof fn lemma_section_for_button_background_colors_inactive()
    ensures
        section_for("ButtonBackgroundColorsInactive"@) == "ButtonColors"@,
{
    reveal_strlit("ButtonBackgroundColorsInactive");
    reveal_strlit("ShadowColor");
    reveal_strlit("ShadowSize");
    reveal_strlit("ShadowStrength");
    assert("ButtonBackgroundColorsInactive"@[0] != "ShadowColor"@[0]);
    assert("ButtonBackgroundColorsInactive"@[0] != "ShadowSize"@[0]);
    assert("ButtonBackgroundColorsInactive"@[0] != "ShadowStrength"@[0]);
    assert(!in_shadow_style("ButtonBackgroundColorsInactive"@));
    reveal_strlit("ButtonBackgroundColors");
    reveal_strlit("ButtonBackgroundOpacity");
    reveal_strlit("LockButtonColorsActiveInactive");
    reveal_strlit("ButtonColorsInactiveSameHoverPress");
    reveal_strlit("ButtonIconColors");
    reveal_strlit("ButtonIconOpacity");
    reveal_strlit("ButtonOverrideColors");
    reveal_strlit("CloseButtonIconColor");
    reveal_strlit("CloseButtonCustomIconColor");
    reveal_strlit("MaximizeButtonIconColor");
    reveal_strlit("MaximizeButtonCustomIconColor");
    reveal_strlit("MinimizeButtonIconColor");
    reveal_strlit("MinimizeButtonCustomIconColor");
    reveal_strlit("NegativeCloseBackground");
    reveal_strlit("ShowBackground");
    reveal_strlit("ShowCloseBackground");
    reveal_strlit("ShowCloseIcon");
    reveal_strlit("ShowCloseOutline");
    reveal_strlit("ShowIcon");
    reveal_strlit("ShowOutline");
    reveal_strlit("VaryColor");
    reveal_strlit("UseHoverAccent");
    assert("ButtonBackgroundColorsInactive"@.take(22) =~= "ButtonBackgroundColors"@);
    assert(in_button_colors("ButtonBackgroundColorsInactive"@));
}

proof fn lemma_section_for_button_background_opacity_active()
    ensures
        section_for("ButtonBackgroundOpacityActive"@) == "ButtonColors"@,
{
    reveal_strlit("ButtonBackgroundOpacityActive");
    reveal_strlit("ShadowColor");
    reveal_strlit("ShadowSize");
    reveal_strlit("ShadowStrength");
    assert("ButtonBackgroundOpacityActive"@[0] != "ShadowColor"@[0]);
    assert("ButtonBackgroundOpacityActive"@[0] != "ShadowSize"@[0]);
    assert("ButtonBackgroundOpacityActive"@[0] != "ShadowStrength"@[0]);
    assert(!in_shadow_style("ButtonBackgroundOpacityActive"@));
    reveal_strlit("ButtonBackgroundColors");
    reveal_strlit("ButtonBackgroundOpacity");
    reveal_strlit("LockButtonColorsActiveInactive");
    reveal_strlit("ButtonColorsInactiveSameHoverPress");
    reveal_strlit("ButtonIconColors");
    reveal_strlit("ButtonIconOpacity");
    reveal_strlit("ButtonOverrideColors");
    reveal_strlit("CloseButtonIconColor");
    reveal_strlit("CloseButtonCustomIconColor");
    reveal_strlit("MaximizeButtonIconColor");
    reveal_strlit("MaximizeButtonCustomIconColor");
    reveal_strlit("MinimizeButtonIconColor");
    reveal_strlit("MinimizeButtonCustomIconColor");
    reveal_strlit("NegativeCloseBackground");
    reveal_strlit("ShowBackground");
    reveal_strlit("ShowCloseBackground");
    reveal_strlit("ShowCloseIcon");
    reveal_strlit("ShowCloseOutline");
    reveal_strlit("ShowIcon");
    reveal_strlit("ShowOutline");
    reveal_strlit("VaryColor");
    reveal_strlit("UseHoverAccent");
    assert("ButtonBackgroundOpacityActive"@.take(23) =~= "ButtonBackgroundOpacity"@);
    assert(in_button_colors("ButtonBackgroundOpacityActive"@));
}

proof fn lemma_section_for_button_background_opacity_inactive()
    ensures
        section_for("ButtonBackgroundOpacityInactive"@) == "ButtonColors"@,
{
    reveal_strlit("ButtonBackgroundOpacityInactive");
    reveal_strlit("ShadowColor");
    reveal_strlit("ShadowSize");
    reveal_strlit("ShadowStrength");
    assert("ButtonBackgroundOpacityInactive"@[0] != "ShadowColor"@[0]);
    assert("ButtonBackgroundOpacityInactive"@[0] != "ShadowSize"@[0]);
    assert("ButtonBackgroundOpacityInactive"@[0] != "ShadowStrength"@[0]);
    assert(!in_shadow_style("ButtonBackgroundOpacityInactive"@));
    reveal_strlit("ButtonBackgroundColors");
    reveal_strlit("ButtonBackgroundOpacity");
    reveal_strlit("LockButtonColorsActiveInactive");
    reveal_strlit("ButtonColorsInactiveSameHoverPress");
    reveal_strlit("ButtonIconColors");
    reveal_strlit("ButtonIconOpacity");
    reveal_strlit("ButtonOverrideColors");
    reveal_strlit("CloseButtonIconColor");
    reveal_strlit("CloseButtonCustomIconColor");
    reveal_strlit("MaximizeButtonIconColor");
    reveal_strlit("MaximizeButtonCustomIconColor");
    reveal_strlit("MinimizeButtonIconColor");
    reveal_strlit("MinimizeButtonCustomIconColor");
    reveal_strlit("NegativeCloseBackground");
    reveal_strlit("ShowBackground");
    reveal_strlit("ShowCloseBackground");
    reveal_strlit("ShowCloseIcon");
    reveal_strlit("ShowCloseOutline");
    reveal_strlit("ShowIcon");
    reveal_strlit("ShowOutline");
    reveal_strlit("VaryColor");
    reveal_strlit("UseHoverAccent");
    assert("ButtonBackgroundOpacityInactive"@.take(23) =~= "ButtonBackgroundOpacity"@);
    assert(in_button_colors("ButtonBackgroundOpacityInactive"@));
}

proof fn lemma_section_for_button_icon_colors_active()
    ensures
        section_for("ButtonIconColorsActive"@) == "ButtonColors"@,
{
    reveal_strlit("ButtonIconColorsActive");
    reveal_strlit("ShadowColor");
    reveal_strlit("ShadowSize");
    reveal_strlit("ShadowStrength");
    assert("ButtonIconColorsActive"@[0] != "ShadowColor"@[0]);
    assert("ButtonIconColorsActive"@[0] != "ShadowSize"@[0]);
    assert("ButtonIconColorsActive"@[0] != "ShadowStrength"@[0]);
    assert(!in_shadow_style("ButtonIconColorsActive"@));
    reveal_strlit("ButtonBackgroundColors");
    reveal_strlit("ButtonBackgroundOpacity");
    reveal_strlit("LockButtonColorsActiveInactive");
    reveal_strlit("ButtonColorsInactiveSameHoverPress");
    reveal_strlit("ButtonIconColors");
    reveal_strlit("ButtonIconOpacity");
    reveal_strlit("ButtonOverrideColors");
    reveal_strlit("CloseButtonIconColor");
    reveal_strlit("CloseButtonCustomIconColor");
    reveal_strlit("MaximizeButtonIconColor");
    reveal_strlit("MaximizeButtonCustomIconColor");
    reveal_strlit("MinimizeButtonIconColor");
    reveal_strlit("MinimizeButtonCustomIconColor");
    reveal_strlit("NegativeCloseBackground");
    reveal_strlit("ShowBackground");
    reveal_strlit("ShowCloseBackground");
    reveal_strlit("ShowCloseIcon");
    reveal_strlit("ShowCloseOutline");
    reveal_strlit("ShowIcon");
    reveal_strlit("ShowOutline");
    reveal_strlit("VaryColor");
    reveal_strlit("UseHoverAccent");
    assert("ButtonIconColorsActive"@.take(16) =~= "ButtonIconColors"@);
    assert(in_button_colors("ButtonIconColorsActive"@));
}

proof fn lemma_section_for_lock_button_colors_active_inactive()
    ensures
        section_for("LockButtonColorsActiveInactive"@) == "ButtonColors"@,
{
    reveal_strlit("LockButtonColorsActiveInactive");
    reveal_strlit("ShadowColor");
    reveal_strlit("ShadowSize");
    reveal_strlit("ShadowStrength");
    assert("LockButtonColorsActiveInactive"@[0] != "ShadowColor"@[0]);
    assert("LockButtonColorsActiveInactive"@[0] != "ShadowSize"@[0]);
    assert("LockButtonColorsActiveInactive"@[0] != "ShadowStrength"@[0]);
    assert(!in_shadow_style("LockButtonColorsActiveInactive"@));
    reveal_strlit("ButtonBackgroundColors");
    reveal_strlit("ButtonBackgroundOpacity");
    reveal_strlit("LockButtonColorsActiveInactive");
    reveal_strlit("ButtonColorsInactiveSameHoverPress");
    reveal_strlit("ButtonIconColors");
    reveal_strlit("ButtonIconOpacity");
    reveal_strlit("ButtonOverrideColors");
    reveal_strlit("CloseButtonIconColor");
    reveal_strlit("CloseButtonCustomIconColor");
    reveal_strlit("MaximizeButtonIconColor");
    reveal_strlit("MaximizeButtonCustomIconColor");
    reveal_strlit("MinimizeButtonIconColor");
    reveal_strlit("MinimizeButtonCustomIconColor");
    reveal_strlit("NegativeCloseBackground");
    reveal_strlit("ShowBackground");
    reveal_strlit("ShowCloseBackground");
    reveal_strlit("ShowCloseIcon");
    reveal_strlit("ShowCloseOutline");
    reveal_strlit("ShowIcon");
    reveal_strlit("ShowOutline");
    reveal_strlit("VaryColor");
    reveal_strlit("UseHoverAccent");
    assert(in_button_colors("LockButtonColorsActiveInactive"@));
}

proof fn lemma_section_for_button_colors_inactive_same_hover_press()
    ensures
        section_for("ButtonColorsInactiveSameHoverPress"@) == "ButtonColors"@,
{
    reveal_strlit("ButtonColorsInactiveSameHoverPress");
    reveal_strlit("ShadowColor");
    reveal_strlit("ShadowSize");
    reveal_strlit("ShadowStrength");
    assert("ButtonColorsInactiveSameHoverPress"@[0] != "ShadowColor"@[0]);
    assert("ButtonColorsInactiveSameHoverPress"@[0] != "ShadowSize"@[0]);
    assert("ButtonColorsInactiveSameHoverPress"@[0] != "ShadowStrength"@[0]);
    assert(!in_shadow_style("ButtonColorsInactiveSameHoverPress"@));
    reveal_strlit("ButtonBackgroundColors");
    reveal_strlit("ButtonBackgroundOpacity");
    reveal_strlit("LockButtonColorsActiveInactive");
    reveal_strlit("ButtonColorsInactiveSameHoverPress");
    reveal_strlit("ButtonIconColors");
    reveal_strlit("ButtonIconOpacity");
    reveal_strlit("ButtonOverrideColors");
    reveal_strlit("CloseButtonIconColor");
    reveal_strlit("CloseButtonCustomIconColor");
    reveal_strlit("MaximizeButtonIconColor");
    reveal_strlit("MaximizeButtonCustomIconColor");
    reveal_strlit("MinimizeButtonIconColor");
    reveal_strlit("MinimizeButtonCustomIconColor");
    reveal_strlit("NegativeCloseBackground");
    reveal_strlit("ShowBackground");
    reveal_strlit("ShowCloseBackground");
    reveal_strlit("ShowCloseIcon");
    reveal_strlit("ShowCloseOutline");
    reveal_strlit("ShowIcon");
    reveal_strlit("ShowOutline");
    reveal_strlit("VaryColor");
    reveal_strlit("UseHoverAccent");
    assert(in_button_colors("ButtonColorsInactiveSameHoverPress"@));
}

proof fn lemma_section_for_active_title_bar_opacity()
    ensures
        section_for("ActiveTitleBarOpacity"@) == "TitleBarOpacity"@,
{
    reveal_strlit("ActiveTitleBarOpacity");
    reveal_strlit("ShadowColor");
    reveal_strlit("ShadowSize");
    reveal_strlit("ShadowStrength");
    assert("ActiveTitleBarOpacity"@[0] != "ShadowColor"@[0]);
    assert("ActiveTitleBarOpacity"@[0] != "ShadowSize"@[0]);
    assert("ActiveTitleBarOpacity"@[0] != "ShadowStrength"@[0]);
    assert(!in_shadow_style("ActiveTitleBarOpacity"@));
    reveal_strlit("ButtonBackgroundColors");
    reveal_strlit("ButtonBackgroundOpacity");
    reveal_strlit("LockButtonColorsActiveInactive");
    reveal_strlit("ButtonColorsInactiveSameHoverPress");
    reveal_strlit("ButtonIconColors");
    reveal_strlit("ButtonIconOpacity");
    reveal_strlit("ButtonOverrideColors");
    reveal_strlit("CloseButtonIconColor");
    reveal_strlit("CloseButtonCustomIconColor");
    reveal_strlit("MaximizeButtonIconColor");
    reveal_strlit("MaximizeButtonCustomIconColor");
    reveal_strlit("MinimizeButtonIconColor");
    reveal_strlit("MinimizeButtonCustomIconColor");
    reveal_strlit("NegativeCloseBackground");
    reveal_strlit("ShowBackground");
    reveal_strlit("ShowCloseBackground");
    reveal_strlit("ShowCloseIcon");
    reveal_strlit("ShowCloseOutline");
    reveal_strlit("ShowIcon");
    reveal_strlit("ShowOutline");
    reveal_strlit("VaryColor");
    reveal_strlit("UseHoverAccent");
    assert("ActiveTitleBarOpacity"@.take(16)[0] != "ButtonIconColors"@[0]);
    assert("ActiveTitleBarOpacity"@.take(17)[0] != "ButtonIconOpacity"@[0]);
    assert("ActiveTitleBarOpacity"@.take(20)[0] != "ButtonOverrideColors"@[0]);
    assert("ActiveTitleBarOpacity"@.take(20)[0] != "CloseButtonIconColor"@[0]);
    assert("ActiveTitleBarOpacity"@.take(14)[0] != "ShowBackground"@[0]);
    assert("ActiveTitleBarOpacity"@.take(19)[0] != "ShowCloseBackground"@[0]);
    assert("ActiveTitleBarOpacity"@.take(13)[0] != "ShowCloseIcon"@[0]);
    assert("ActiveTitleBarOpacity"@.take(16)[0] != "ShowCloseOutline"@[0]);
    assert("ActiveTitleBarOpacity"@.take(8)[0] != "ShowIcon"@[0]);
    assert("ActiveTitleBarOpacity"@.take(11)[0] != "ShowOutline"@[0]);
    assert("ActiveTitleBarOpacity"@.take(9)[0] != "VaryColor"@[0]);
    assert("ActiveTitleBarOpacity"@.take(14)[0] != "UseHoverAccent"@[0]);
    assert("ActiveTitleBarOpacity"@[0] != "LockButtonColorsActiveInactive"@[0]);
    assert("ActiveTitleBarOpacity"@[0] != "ButtonColorsInactiveSameHoverPress"@[0]);
    assert(!in_button_colors("ActiveTitleBarOpacity"@));
    reveal_strlit("ActiveTitleBarOpacity");
    reveal_strlit("InactiveTitleBarOpacity");
    reveal_strlit("OpaqueMaximizedTitleBars");
    reveal_strlit("OverrideActiveTitleBarOpacity");
    reveal_strlit("OverrideInactiveTitleBarOpacity");
    reveal_strlit("ApplyOpacityToHeader");
    assert(in_title_bar_opacity("ActiveTitleBarOpacity"@));
}

proof fn lemma_section_for_inactive_title_bar_opacity()
    ensures
        section_for("InactiveTitleBarOpacity"@) == "TitleBarOpacity"@,
{
    reveal_strlit("InactiveTitleBarOpacity");
    reveal_strlit("ShadowColor");
    reveal_strlit("ShadowSize");
    reveal_strlit("ShadowStrength");
    assert("InactiveTitleBarOpacity"@[0] != "ShadowColor"@[0]);
    assert("InactiveTitleBarOpacity"@[0] != "ShadowSize"@[0]);
    assert("InactiveTitleBarOpacity"@[0] != "ShadowStrength"@[0]);
    assert(!in_shadow_style("InactiveTitleBarOpacity"@));
    reveal_strlit("ButtonBackgroundColors");
    reveal_strlit("ButtonBackgroundOpacity");
    reveal_strlit("LockButtonColorsActiveInactive");
    reveal_strlit("ButtonColorsInactiveSameHoverPress");
    reveal_strlit("ButtonIconColors");
    reveal_strlit("ButtonIconOpacity");
    reveal_strlit("ButtonOverrideColors");
    reveal_strlit("CloseButtonIconColor");
    reveal_strlit("CloseButtonCustomIconColor");
    reveal_strlit("MaximizeButtonIconColor");
    reveal_strlit("MaximizeButtonCustomIconColor");
    reveal_strlit("MinimizeButtonIconColor");
    reveal_strlit("MinimizeButtonCustomIconColor");
    reveal_strlit("NegativeCloseBackground");
    reveal_strlit("ShowBackground");
    reveal_strlit("ShowCloseBackground");
    reveal_strlit("ShowCloseIcon");
    reveal_strlit("ShowCloseOutline");
    reveal_strlit("ShowIcon");
    reveal_strlit("ShowOutline");
    reveal_strlit("VaryColor");
    reveal_strlit("UseHoverAccent");
    assert("InactiveTitleBarOpacity"@.take(22)[0] != "ButtonBackgroundColors"@[0]);
    assert("InactiveTitleBarOpacity"@.take(23)[0] != "ButtonBackgroundOpacity"@[0]);
    assert("InactiveTitleBarOpacity"@.take(16)[0] != "ButtonIconColors"@[0]);
    assert("InactiveTitleBarOpacity"@.take(17)[0] != "ButtonIconOpacity"@[0]);
    assert("InactiveTitleBarOpacity"@.take(20)[0] != "ButtonOverrideColors"@[0]);
    assert("InactiveTitleBarOpacity"@.take(20)[0] != "CloseButtonIconColor"@[0]);
    assert("InactiveTitleBarOpacity"@.take(23)[0] != "MaximizeButtonIconColor"@[0]);
    assert("InactiveTitleBarOpacity"@.take(23)[0] != "MinimizeButtonIconColor"@[0]);
    assert("InactiveTitleBarOpacity"@.take(23)[0] != "NegativeCloseBackground"@[0]);
    assert("InactiveTitleBarOpacity"@.take(14)[0] != "ShowBackground"@[0]);
    assert("InactiveTitleBarOpacity"@.take(19)[0] != "ShowCloseBackground"@[0]);
    assert("InactiveTitleBarOpacity"@.take(13)[0] != "ShowCloseIcon"@[0]);
    assert("InactiveTitleBarOpacity"@.take(16)[0] != "ShowCloseOutline"@[0]);
    assert("InactiveTitleBarOpacity"@.take(8)[0] != "ShowIcon"@[0]);
    assert("InactiveTitleBarOpacity"@.take(11)[0] != "ShowOutline"@[0]);
    assert("InactiveTitleBarOpacity"@.take(9)[0] != "VaryColor"@[0]);
    assert("InactiveTitleBarOpacity"@.take(14)[0] != "UseHoverAccent"@[0]);
    assert("InactiveTitleBarOpacity"@[0] != "LockButtonColorsActiveInactive"@[0]);
    assert("InactiveTitleBarOpacity"@[0] != "ButtonColorsInactiveSameHoverPress"@[0]);
    assert(!in_button_colors("InactiveTitleBarOpacity"@));
    reveal_strlit("ActiveTitleBarOpacity");
    reveal_strlit("InactiveTitleBarOpacity");
    reveal_strlit("OpaqueMaximizedTitleBars");
    reveal_strlit("OverrideActiveTitleBarOpacity");
    reveal_strlit("OverrideInactiveTitleBarOpacity");
    reveal_strlit("ApplyOpacityToHeader");
    assert(in_title_bar_opacity("InactiveTitleBarOpacity"@));
}

proof fn lemma_section_for_opaque_maximized_title_bars()
    ensures
        section_for("OpaqueMaximizedTitleBars"@) == "TitleBarOpacity"@,
{
    reveal_strlit("OpaqueMaximizedTitleBars");
    reveal_strlit("ShadowColor");
    reveal_strlit("ShadowSize");
    reveal_strlit("ShadowStrength");
    assert("OpaqueMaximizedTitleBars"@[0] != "ShadowColor"@[0]);
    assert("OpaqueMaximizedTitleBars"@[0] != "ShadowSize"@[0]);
    assert("OpaqueMaximizedTitleBars"@[0] != "ShadowStrength"@[0]);
    assert(!in_shadow_style("OpaqueMaximizedTitleBars"@));
    reveal_strlit("ButtonBackgroundColors");
    reveal_strlit("ButtonBackgroundOpacity");
    reveal_strlit("LockButtonColorsActiveInactive");
    reveal_strlit("ButtonColorsInactiveSameHoverPress");
    reveal_strlit("ButtonIconColors");
    reveal_strlit("ButtonIconOpacity");
    reveal_strlit("ButtonOverrideColors");
    reveal_strlit("CloseButtonIconColor");
    reveal_strlit("CloseButtonCustomIconColor");
    reveal_strlit("MaximizeButtonIconColor");
    reveal_strlit("MaximizeButtonCustomIconColor");
    reveal_strlit("MinimizeButtonIconColor");
    reveal_strlit("MinimizeButtonCustomIconColor");
    reveal_strlit("NegativeCloseBackground");
    reveal_strlit("ShowBackground");
    reveal_strlit("ShowCloseBackground");
    reveal_strlit("ShowCloseIcon");
    reveal_strlit("ShowCloseOutline");
    reveal_strlit("ShowIcon");
    reveal_strlit("ShowOutline");
    reveal_strlit("VaryColor");
    reveal_strlit("UseHoverAccent");
    assert("OpaqueMaximizedTitleBars"@.take(22)[0] != "ButtonBackgroundColors"@[0]);
    assert("OpaqueMaximizedTitleBars"@.take(23)[0] != "ButtonBackgroundOpacity"@[0]);
    assert("OpaqueMaximizedTitleBars"@.take(16)[0] != "ButtonIconColors"@[0]);
    assert("OpaqueMaximizedTitleBars"@.take(17)[0] != "ButtonIconOpacity"@[0]);
    assert("OpaqueMaximizedTitleBars"@.take(20)[0] != "ButtonOverrideColors"@[0]);
    assert("OpaqueMaximizedTitleBars"@.take(20)[0] != "CloseButtonIconColor"@[0]);
    assert("OpaqueMaximizedTitleBars"@.take(23)[0] != "MaximizeButtonIconColor"@[0]);
    assert("OpaqueMaximizedTitleBars"@.take(23)[0] != "MinimizeButtonIconColor"@[0]);
    assert("OpaqueMaximizedTitleBars"@.take(23)[0] != "NegativeCloseBackground"@[0]);
    assert("OpaqueMaximizedTitleBars"@.take(14)[0] != "ShowBackground"@[0]);
    assert("OpaqueMaximizedTitleBars"@.take(19)[0] != "ShowCloseBackground"@[0]);
    assert("OpaqueMaximizedTitleBars"@.take(13)[0] != "ShowCloseIcon"@[0]);
    assert("OpaqueMaximizedTitleBars"@.take(16)[0] != "ShowCloseOutline"@[0]);
    assert("OpaqueMaximizedTitleBars"@.take(8)[0] != "ShowIcon"@[0]);
    assert("OpaqueMaximizedTitleBars"@.take(11)[0] != "ShowOutline"@[0]);
    assert("OpaqueMaximizedTitleBars"@.take(9)[0] != "VaryColor"@[0]);
    assert("OpaqueMaximizedTitleBars"@.take(14)[0] != "UseHoverAccent"@[0]);
    assert("OpaqueMaximizedTitleBars"@[0] != "LockButtonColorsActiveInactive"@[0]);
    assert("OpaqueMaximizedTitleBars"@[0] != "ButtonColorsInactiveSameHoverPress"@[0]);
    assert(!in_button_colors("OpaqueMaximizedTitleBars"@));
    reveal_strlit("ActiveTitleBarOpacity");
    reveal_strlit("InactiveTitleBarOpacity");
    reveal_strlit("OpaqueMaximizedTitleBars");
    reveal_strlit("OverrideActiveTitleBarOpacity");
    reveal_strlit("OverrideInactiveTitleBarOpacity");
    reveal_strlit("ApplyOpacityToHeader");
    assert(in_title_bar_opacity("OpaqueMaximizedTitleBars"@));
}

proof fn lemma_section_for_override_active_title_bar_opacity()
    ensures
        section_for("OverrideActiveTitleBarOpacity"@) == "TitleBarOpacity"@,
{
    reveal_strlit("OverrideActiveTitleBarOpacity");
    reveal_strlit("ShadowColor");
    reveal_strlit("ShadowSize");
    reveal_strlit("ShadowStrength");
    assert("OverrideActiveTitleBarOpacity"@[0] != "ShadowColor"@[0]);
    assert("OverrideActiveTitleBarOpacity"@[0] != "ShadowSize"@[0]);
    assert("OverrideActiveTitleBarOpacity"@[0] != "ShadowStrength"@[0]);
    assert(!in_shadow_style("OverrideActiveTitleBarOpacity"@));
    reveal_strlit("ButtonBackgroundColors");
    reveal_strlit("ButtonBackgroundOpacity");
    reveal_strlit("LockButtonColorsActiveInactive");
    reveal_strlit("ButtonColorsInactiveSameHoverPress");
    reveal_strlit("ButtonIconColors");
    reveal_strlit("ButtonIconOpacity");
    reveal_strlit("ButtonOverrideColors");
    reveal_strlit("CloseButtonIconColor");
    reveal_strlit("CloseButtonCustomIconColor");
    reveal_strlit("MaximizeButtonIconColor");
    reveal_strlit("MaximizeButtonCustomIconColor");
    reveal_strlit("MinimizeButtonIconColor");
    reveal_strlit("MinimizeButtonCustomIconColor");
    reveal_strlit("NegativeCloseBackground");
    reveal_strlit("ShowBackground");
    reveal_strlit("ShowCloseBackground");
    reveal_strlit("ShowCloseIcon");
    reveal_strlit("ShowCloseOutline");
    reveal_strlit("ShowIcon");
    reveal_strlit("ShowOutline");
    reveal_strlit("VaryColor");
    reveal_strlit("UseHoverAccent");
    assert("OverrideActiveTitleBarOpacity"@.take(22)[0] != "ButtonBackgroundColors"@[0]);
    assert("OverrideActiveTitleBarOpacity"@.take(23)[0] != "ButtonBackgroundOpacity"@[0]);
    assert("OverrideActiveTitleBarOpacity"@.take(16)[0] != "ButtonIconColors"@[0]);
    assert("OverrideActiveTitleBarOpacity"@.take(17)[0] != "ButtonIconOpacity"@[0]);
    assert("OverrideActiveTitleBarOpacity"@.take(20)[0] != "ButtonOverrideColors"@[0]);
    assert("OverrideActiveTitleBarOpacity"@.take(20)[0] != "CloseButtonIconColor"@[0]);
    assert("OverrideActiveTitleBarOpacity"@.take(26)[0] != "CloseButtonCustomIconColor"@[0]);
    assert("OverrideActiveTitleBarOpacity"@.take(23)[0] != "MaximizeButtonIconColor"@[0]);
    assert("OverrideActiveTitleBarOpacity"@.take(29)[0] != "MaximizeButtonCustomIconColor"@[0]);
    assert("OverrideActiveTitleBarOpacity"@.take(23)[0] != "MinimizeButtonIconColor"@[0]);
    assert("OverrideActiveTitleBarOpacity"@.take(29)[0] != "MinimizeButtonCustomIconColor"@[0]);
    assert("OverrideActiveTitleBarOpacity"@.take(23)[0] != "NegativeCloseBackground"@[0]);
    assert("OverrideActiveTitleBarOpacity"@.take(14)[0] != "ShowBackground"@[0]);
    assert("OverrideActiveTitleBarOpacity"@.take(19)[0] != "ShowCloseBackground"@[0]);
    assert("OverrideActiveTitleBarOpacity"@.take(13)[0] != "ShowCloseIcon"@[0]);
    assert("OverrideActiveTitleBarOpacity"@.take(16)[0] != "ShowCloseOutline"@[0]);
    assert("OverrideActiveTitleBarOpacity"@.take(8)[0] != "ShowIcon"@[0]);
    assert("OverrideActiveTitleBarOpacity"@.take(11)[0] != "ShowOutline"@[0]);
    assert("OverrideActiveTitleBarOpacity"@.take(9)[0] != "VaryColor"@[0]);
    assert("OverrideActiveTitleBarOpacity"@.take(14)[0] != "UseHoverAccent"@[0]);
    assert("OverrideActiveTitleBarOpacity"@[0] != "LockButtonColorsActiveInactive"@[0]);
    assert("OverrideActiveTitleBarOpacity"@[0] != "ButtonColorsInactiveSameHoverPress"@[0]);
    assert(!in_button_colors("OverrideActiveTitleBarOpacity"@));
    reveal_strlit("ActiveTitleBarOpacity");
    reveal_strlit("InactiveTitleBarOpacity");
    reveal_strlit("OpaqueMaximizedTitleBars");
    reveal_strlit("OverrideActiveTitleBarOpacity");
    reveal_strlit("OverrideInactiveTitleBarOpacity");
    reveal_strlit("ApplyOpacityToHeader");
    assert(in_title_bar_opacity("OverrideActiveTitleBarOpacity"@));
}

proof fn lemma_section_for_override_inactive_title_bar_opacity()
    ensures
        section_for("OverrideInactiveTitleBarOpacity"@) == "TitleBarOpacity"@,
{
    reveal_strlit("OverrideInactiveTitleBarOpacity");
    reveal_strlit("ShadowColor");
    reveal_strlit("ShadowSize");
    reveal_strlit("ShadowStrength");
    assert("OverrideInactiveTitleBarOpacity"@[0] != "ShadowColor"@[0]);
    assert("OverrideInactiveTitleBarOpacity"@[0] != "ShadowSize"@[0]);
    assert("OverrideInactiveTitleBarOpacity"@[0] != "ShadowStrength"@[0]);
    assert(!in_shadow_style("OverrideInactiveTitleBarOpacity"@));
    reveal_strlit("ButtonBackgroundColors");
    reveal_strlit("ButtonBackgroundOpacity");
    reveal_strlit("LockButtonColorsActiveInactive");
    reveal_strlit("ButtonColorsInactiveSameHoverPress");
    reveal_strlit("ButtonIconColors");
    reveal_strlit("ButtonIconOpacity");
    reveal_strlit("ButtonOverrideColors");
    reveal_strlit("CloseButtonIconColor");
    reveal_strlit("CloseButtonCustomIconColor");
    reveal_strlit("MaximizeButtonIconColor");
    reveal_strlit("MaximizeButtonCustomIconColor");
    reveal_strlit("MinimizeButtonIconColor");
    reveal_strlit("MinimizeButtonCustomIconColor");
    reveal_strlit("NegativeCloseBackground");
    reveal_strlit("ShowBackground");
    reveal_strlit("ShowCloseBackground");
    reveal_strlit("ShowCloseIcon");
    reveal_strlit("ShowCloseOutline");
    reveal_strlit("ShowIcon");
    reveal_strlit("ShowOutline");
    reveal_strlit("VaryColor");
    reveal_strlit("UseHoverAccent");
    assert("OverrideInactiveTitleBarOpacity"@.take(22)[0] != "ButtonBackgroundColors"@[0]);
    assert("OverrideInactiveTitleBarOpacity"@.take(23)[0] != "ButtonBackgroundOpacity"@[0]);
    assert("OverrideInactiveTitleBarOpacity"@.take(16)[0] != "ButtonIconColors"@[0]);
    assert("OverrideInactiveTitleBarOpacity"@.take(17)[0] != "ButtonIconOpacity"@[0]);
    assert("OverrideInactiveTitleBarOpacity"@.take(20)[0] != "ButtonOverrideColors"@[0]);
    assert("OverrideInactiveTitleBarOpacity"@.take(20)[0] != "CloseButtonIconColor"@[0]);
    assert("OverrideInactiveTitleBarOpacity"@.take(26)[0] != "CloseButtonCustomIconColor"@[0]);
    assert("OverrideInactiveTitleBarOpacity"@.take(23)[0] != "MaximizeButtonIconColor"@[0]);
    assert("OverrideInactiveTitleBarOpacity"@.take(29)[0] != "MaximizeButtonCustomIconColor"@[0]);
    assert("OverrideInactiveTitleBarOpacity"@.take(23)[0] != "MinimizeButtonIconColor"@[0]);
    assert("OverrideInactiveTitleBarOpacity"@.take(29)[0] != "MinimizeButtonCustomIconColor"@[0]);
    assert("OverrideInactiveTitleBarOpacity"@.take(23)[0] != "NegativeCloseBackground"@[0]);
    assert("OverrideInactiveTitleBarOpacity"@.take(14)[0] != "ShowBackground"@[0]);
    assert("OverrideInactiveTitleBarOpacity"@.take(19)[0] != "ShowCloseBackground"@[0]);
    assert("OverrideInactiveTitleBarOpacity"@.take(13)[0] != "ShowCloseIcon"@[0]);
    assert("OverrideInactiveTitleBarOpacity"@.take(16)[0] != "ShowCloseOutline"@[0]);
    assert("OverrideInactiveTitleBarOpacity"@.take(8)[0] != "ShowIcon"@[0]);
    assert("OverrideInactiveTitleBarOpacity"@.take(11)[0] != "ShowOutline"@[0]);
    assert("OverrideInactiveTitleBarOpacity"@.take(9)[0] != "VaryColor"@[0]);
    assert("OverrideInactiveTitleBarOpacity"@.take(14)[0] != "UseHoverAccent"@[0]);
    assert("OverrideInactiveTitleBarOpacity"@[0] != "LockButtonColorsActiveInactive"@[0]);
    assert("OverrideInactiveTitleBarOpacity"@[0] != "ButtonColorsInactiveSameHoverPress"@[0]);
    assert(!in_button_colors("OverrideInactiveTitleBarOpacity"@));
    reveal_strlit("ActiveTitleBarOpacity");
    reveal_strlit("InactiveTitleBarOpacity");
    reveal_strlit("OpaqueMaximizedTitleBars");
    reveal_strlit("OverrideActiveTitleBarOpacity");
    reveal_strlit("OverrideInactiveTitleBarOpacity");
    reveal_strlit("ApplyOpacityToHeader");
    assert(in_title_bar_opacity("OverrideInactiveTitleBarOpacity"@));
}

proof fn lemma_section_for_apply_opacity_to_header()
    ensures
        section_for("ApplyOpacityToHeader"@) == "TitleBarOpacity"@,
{
    reveal_strlit("ApplyOpacityToHeader");
    reveal_strlit("ShadowColor");
    reveal_strlit("ShadowSize");
    reveal_strlit("ShadowStrength");
    assert("ApplyOpacityToHeader"@[0] != "ShadowColor"@[0]);
    assert("ApplyOpacityToHeader"@[0] != "ShadowSize"@[0]);
    assert("ApplyOpacityToHeader"@[0] != "ShadowStrength"@[0]);
    assert(!in_shadow_style("ApplyOpacityToHeader"@));
    reveal_strlit("ButtonBackgroundColors");
    reveal_strlit("ButtonBackgroundOpacity");
    reveal_strlit("LockButtonColorsActiveInactive");
    reveal_strlit("ButtonColorsInactiveSameHoverPress");
    reveal_strlit("ButtonIconColors");
    reveal_strlit("ButtonIconOpacity");
    reveal_strlit("ButtonOverrideColors");
    reveal_strlit("CloseButtonIconColor");
    reveal_strlit("CloseButtonCustomIconColor");
    reveal_strlit("MaximizeButtonIconColor");
    reveal_strlit("MaximizeButtonCustomIconColor");
    reveal_strlit("MinimizeButtonIconColor");
    reveal_strlit("MinimizeButtonCustomIconColor");
    reveal_strlit("NegativeCloseBackground");
    reveal_strlit("ShowBackground");
    reveal_strlit("ShowCloseBackground");
    reveal_strlit("ShowCloseIcon");
    reveal_strlit("ShowCloseOutline");
    reveal_strlit("ShowIcon");
    reveal_strlit("ShowOutline");
    reveal_strlit("VaryColor");
    reveal_strlit("UseHoverAccent");
    assert("ApplyOpacityToHeader"@.take(16)[0] != "ButtonIconColors"@[0]);
    assert("ApplyOpacityToHeader"@.take(17)[0] != "ButtonIconOpacity"@[0]);
    assert("ApplyOpacityToHeader"@.take(20)[0] != "ButtonOverrideColors"@[0]);
    assert("ApplyOpacityToHeader"@.take(20)[0] != "CloseButtonIconColor"@[0]);
    assert("ApplyOpacityToHeader"@.take(14)[0] != "ShowBackground"@[0]);
    assert("ApplyOpacityToHeader"@.take(19)[0] != "ShowCloseBackground"@[0]);
    assert("ApplyOpacityToHeader"@.take(13)[0] != "ShowCloseIcon"@[0]);
    assert("ApplyOpacityToHeader"@.take(16)[0] != "ShowCloseOutline"@[0]);
    assert("ApplyOpacityToHeader"@.take(8)[0] != "ShowIcon"@[0]);
    assert("ApplyOpacityToHeader"@.take(11)[0] != "ShowOutline"@[0]);
    assert("ApplyOpacityToHeader"@.take(9)[0] != "VaryColor"@[0]);
    assert("ApplyOpacityToHeader"@.take(14)[0] != "UseHoverAccent"@[0]);
    assert("ApplyOpacityToHeader"@[0] != "LockButtonColorsActiveInactive"@[0]);
    assert("ApplyOpacityToHeader"@[0] != "ButtonColorsInactiveSameHoverPress"@[0]);
    assert(!in_button_colors("ApplyOpacityToHeader"@));
    reveal_strlit("ActiveTitleBarOpacity");
    reveal_strlit("InactiveTitleBarOpacity");
    reveal_strlit("OpaqueMaximizedTitleBars");
    reveal_strlit("OverrideActiveTitleBarOpacity");
    reveal_strlit("OverrideInactiveTitleBarOpacity");
    reveal_strlit("ApplyOpacityToHeader");
    assert(in_title_bar_opacity("ApplyOpacityToHeader"@));
}

proof fn lemma_section_for_title_bar_top_margin()
    ensures
        section_for("TitleBarTopMargin"@) == "TitleBarSpacing"@,
{
    reveal_strlit("TitleBarTopMargin");
    reveal_strlit("ShadowColor");
    reveal_strlit("ShadowSize");
    reveal_strlit("ShadowStrength");
    assert("TitleBarTopMargin"@[0] != "ShadowColor"@[0]);
    assert("TitleBarTopMargin"@[0] != "ShadowSize"@[0]);
    assert("TitleBarTopMargin"@[0] != "ShadowStrength"@[0]);
    assert(!in_shadow_style("TitleBarTopMargin"@));
    reveal_strlit("ButtonBackgroundColors");
    reveal_strlit("ButtonBackgroundOpacity");
    reveal_strlit("LockButtonColorsActiveInactive");
    reveal_strlit("ButtonColorsInactiveSameHoverPress");
    reveal_strlit("ButtonIconColors");
    reveal_strlit("ButtonIconOpacity");
    reveal_strlit("ButtonOverrideColors");
    reveal_strlit("CloseButtonIconColor");
    reveal_strlit("CloseButtonCustomIconColor");
    reveal_strlit("MaximizeButtonIconColor");
    reveal_strlit("MaximizeButtonCustomIconColor");
    reveal_strlit("MinimizeButtonIconColor");
    reveal_strlit("MinimizeButtonCustomIconColor");
    reveal_strlit("NegativeCloseBackground");
    reveal_strlit("ShowBackground");
    reveal_strlit("ShowCloseBackground");
    reveal_strlit("ShowCloseIcon");
    reveal_strlit("ShowCloseOutline");
    reveal_strlit("ShowIcon");
    reveal_strlit("ShowOutline");
    reveal_strlit("VaryColor");
    reveal_strlit("UseHoverAccent");
    assert("TitleBarTopMargin"@.take(16)[0] != "ButtonIconColors"@[0]);
    assert("TitleBarTopMargin"@.take(17)[0] != "ButtonIconOpacity"@[0]);
    assert("TitleBarTopMargin"@.take(14)[0] != "ShowBackground"@[0]);
    assert("TitleBarTopMargin"@.take(13)[0] != "ShowCloseIcon"@[0]);
    assert("TitleBarTopMargin"@.take(16)[0] != "ShowCloseOutline"@[0]);
    assert("TitleBarTopMargin"@.take(8)[0] != "ShowIcon"@[0]);
    assert("TitleBarTopMargin"@.take(11)[0] != "ShowOutline"@[0]);
    assert("TitleBarTopMargin"@.take(9)[0] != "VaryColor"@[0]);
    assert("TitleBarTopMargin"@.take(14)[0] != "UseHoverAccent"@[0]);
    assert("TitleBarTopMargin"@[0] != "LockButtonColorsActiveInactive"@[0]);
    assert("TitleBarTopMargin"@[0] != "ButtonColorsInactiveSameHoverPress"@[0]);
    assert(!in_button_colors("TitleBarTopMargin"@));
    reveal_strlit("ActiveTitleBarOpacity");
    reveal_strlit("InactiveTitleBarOpacity");
    reveal_strlit("OpaqueMaximizedTitleBars");
    reveal_strlit("OverrideActiveTitleBarOpacity");
    reveal_strlit("OverrideInactiveTitleBarOpacity");
    reveal_strlit("ApplyOpacityToHeader");
    assert("TitleBarTopMargin"@[0] != "ActiveTitleBarOpacity"@[0]);
    assert("TitleBarTopMargin"@[0] != "InactiveTitleBarOpacity"@[0]);
    assert("TitleBarTopMargin"@[0] != "OpaqueMaximizedTitleBars"@[0]);
    assert("TitleBarTopMargin"@[0] != "OverrideActiveTitleBarOpacity"@[0]);
    assert("TitleBarTopMargin"@[0] != "OverrideInactiveTitleBarOpacity"@[0]);
    assert("TitleBarTopMargin"@[0] != "ApplyOpacityToHeader"@[0]);
    assert(!in_title_bar_opacity("TitleBarTopMargin"@));
    reveal_strlit("TitleBarTopMargin");
    reveal_strlit("TitleBarBottomMargin");
    reveal_strlit("TitleBarLeftMargin");
    reveal_strlit("TitleBarRightMargin");
    reveal_strlit("PercentMaximizedTopBottomMargins");
    reveal_strlit("LockTitleBar");
    assert(in_title_bar_spacing("TitleBarTopMargin"@));
}

proof fn lemma_section_for_title_bar_bottom_margin()
    ensures
        section_for("TitleBarBottomMargin"@) == "TitleBarSpacing"@,
{
    reveal_strlit("TitleBarBottomMargin");
    reveal_strlit("ShadowColor");
    reveal_strlit("ShadowSize");
    reveal_strlit("ShadowStrength");
    assert("TitleBarBottomMargin"@[0] != "ShadowColor"@[0]);
    assert("TitleBarBottomMargin"@[0] != "ShadowSize"@[0]);
    assert("TitleBarBottomMargin"@[0] != "ShadowStrength"@[0]);
    assert(!in_shadow_style("TitleBarBottomMargin"@));
    reveal_strlit("ButtonBackgroundColors");
    reveal_strlit("ButtonBackgroundOpacity");
    reveal_strlit("LockButtonColorsActiveInactive");
    reveal_strlit("ButtonColorsInactiveSameHoverPress");
    reveal_strlit("ButtonIconColors");
    reveal_strlit("ButtonIconOpacity");
    reveal_strlit("ButtonOverrideColors");
    reveal_strlit("CloseButtonIconColor");
    reveal_strlit("CloseButtonCustomIconColor");
    reveal_strlit("MaximizeButtonIconColor");
    reveal_strlit("MaximizeButtonCustomIconColor");
    reveal_strlit("MinimizeButtonIconColor");
    reveal_strlit("MinimizeButtonCustomIconColor");
    reveal_strlit("NegativeCloseBackground");
    reveal_strlit("ShowBackground");
    reveal_strlit("ShowCloseBackground");
    reveal_strlit("ShowCloseIcon");
    reveal_strlit("ShowCloseOutline");
    reveal_strlit("ShowIcon");
    reveal_strlit("ShowOutline");
    reveal_strlit("VaryColor");
    reveal_strlit("UseHoverAccent");
    assert("TitleBarBottomMargin"@.take(16)[0] != "ButtonIconColors"@[0]);
    assert("TitleBarBottomMargin"@.take(17)[0] != "ButtonIconOpacity"@[0]);
    assert("TitleBarBottomMargin"@.take(20)[0] != "ButtonOverrideColors"@[0]);
    assert("TitleBarBottomMargin"@.take(20)[0] != "CloseButtonIconColor"@[0]);
    assert("TitleBarBottomMargin"@.take(14)[0] != "ShowBackground"@[0]);
    assert("TitleBarBottomMargin"@.take(19)[0] != "ShowCloseBackground"@[0]);
    assert("TitleBarBottomMargin"@.take(13)[0] != "ShowCloseIcon"@[0]);
    assert("TitleBarBottomMargin"@.take(16)[0] != "ShowCloseOutline"@[0]);
    assert("TitleBarBottomMargin"@.take(8)[0] != "ShowIcon"@[0]);
    assert("TitleBarBottomMargin"@.take(11)[0] != "ShowOutline"@[0]);
    assert("TitleBarBottomMargin"@.take(9)[0] != "VaryColor"@[0]);
    assert("TitleBarBottomMargin"@.take(14)[0] != "UseHoverAccent"@[0]);
    assert("TitleBarBottomMargin"@[0] != "LockButtonColorsActiveInactive"@[0]);
    assert("TitleBarBottomMargin"@[0] != "ButtonColorsInactiveSameHoverPress"@[0]);
    assert(!in_button_colors("TitleBarBottomMargin"@));
    reveal_strlit("ActiveTitleBarOpacity");
    reveal_strlit("InactiveTitleBarOpacity");
    reveal_strlit("OpaqueMaximizedTitleBars");
    reveal_strlit("OverrideActiveTitleBarOpacity");
    reveal_strlit("OverrideInactiveTitleBarOpacity");
    reveal_strlit("ApplyOpacityToHeader");
    assert("TitleBarBottomMargin"@[0] != "ApplyOpacityToHeader"@[0]);
    assert("TitleBarBottomMargin"@[0] != "ActiveTitleBarOpacity"@[0]);
    assert("TitleBarBottomMargin"@[0] != "InactiveTitleBarOpacity"@[0]);
    assert("TitleBarBottomMargin"@[0] != "OpaqueMaximizedTitleBars"@[0]);
    assert("TitleBarBottomMargin"@[0] != "OverrideActiveTitleBarOpacity"@[0]);
    assert("TitleBarBottomMargin"@[0] != "OverrideInactiveTitleBarOpacity"@[0]);
    assert("TitleBarBottomMargin"@[0] != "ApplyOpacityToHeader"@[0]);
    assert(!in_title_bar_opacity("TitleBarBottomMargin"@));
    reveal_strlit("TitleBarTopMargin");
    reveal_strlit("TitleBarBottomMargin");
    reveal_strlit("TitleBarLeftMargin");
    reveal_strlit("TitleBarRightMargin");
    reveal_strlit("PercentMaximizedTopBottomMargins");
    reveal_strlit("LockTitleBar");
    assert(in_title_bar_spacing("TitleBarBottomMargin"@));
}

proof fn lemma_section_for_title_bar_left_margin()
    ensures
        section_for("TitleBarLeftMargin"@) == "TitleBarSpacing"@,
{
    reveal_strlit("TitleBarLeftMargin");
    reveal_strlit("ShadowColor");
    reveal_strlit("ShadowSize");
    reveal_strlit("ShadowStrength");
    assert("TitleBarLeftMargin"@[0] != "ShadowColor"@[0]);
    assert("TitleBarLeftMargin"@[0] != "ShadowSize"@[0]);
    assert("TitleBarLeftMargin"@[0] != "ShadowStrength"@[0]);
    assert(!in_shadow_style("TitleBarLeftMargin"@));
    reveal_strlit("ButtonBackgroundColors");
    reveal_strlit("ButtonBackgroundOpacity");
    reveal_strlit("LockButtonColorsActiveInactive");
    reveal_strlit("ButtonColorsInactiveSameHoverPress");
    reveal_strlit("ButtonIconColors");
    reveal_strlit("ButtonIconOpacity");
    reveal_strlit("ButtonOverrideColors");
    reveal_strlit("CloseButtonIconColor");
    reveal_strlit("CloseButtonCustomIconColor");
    reveal_strlit("MaximizeButtonIconColor");
    reveal_strlit("MaximizeButtonCustomIconColor");
    reveal_strlit("MinimizeButtonIconColor");
    reveal_strlit("MinimizeButtonCustomIconColor");
    reveal_strlit("NegativeCloseBackground");
    reveal_strlit("ShowBackground");
    reveal_strlit("ShowCloseBackground");
    reveal_strlit("ShowCloseIcon");
    reveal_strlit("ShowCloseOutline");
    reveal_strlit("ShowIcon");
    reveal_strlit("ShowOutline");
    reveal_strlit("VaryColor");
    reveal_strlit("UseHoverAccent");
    assert("TitleBarLeftMargin"@.take(16)[0] != "ButtonIconColors"@[0]);
    assert("TitleBarLeftMargin"@.take(17)[0] != "ButtonIconOpacity"@[0]);
    assert("TitleBarLeftMargin"@.take(14)[0] != "ShowBackground"@[0]);
    assert("TitleBarLeftMargin"@.take(13)[0] != "ShowCloseIcon"@[0]);
    assert("TitleBarLeftMargin"@.take(16)[0] != "ShowCloseOutline"@[0]);
    assert("TitleBarLeftMargin"@.take(8)[0] != "ShowIcon"@[0]);
    assert("TitleBarLeftMargin"@.take(11)[0] != "ShowOutline"@[0]);
    assert("TitleBarLeftMargin"@.take(9)[0] != "VaryColor"@[0]);
    assert("TitleBarLeftMargin"@.take(14)[0] != "UseHoverAccent"@[0]);
    assert("TitleBarLeftMargin"@[0] != "LockButtonColorsActiveInactive"@[0]);
    assert("TitleBarLeftMargin"@[0] != "ButtonColorsInactiveSameHoverPress"@[0]);
    assert(!in_button_colors("TitleBarLeftMargin"@));
    reveal_strlit("ActiveTitleBarOpacity");
    reveal_strlit("InactiveTitleBarOpacity");
    reveal_strlit("OpaqueMaximizedTitleBars");
    reveal_strlit("OverrideActiveTitleBarOpacity");
    reveal_strlit("OverrideInactiveTitleBarOpacity");
    reveal_strlit("ApplyOpacityToHeader");
    assert("TitleBarLeftMargin"@[0] != "ActiveTitleBarOpacity"@[0]);
    assert("TitleBarLeftMargin"@[0] != "InactiveTitleBarOpacity"@[0]);
    assert("TitleBarLeftMargin"@[0] != "OpaqueMaximizedTitleBars"@[0]);
    assert("TitleBarLeftMargin"@[0] != "OverrideActiveTitleBarOpacity"@[0]);
    assert("TitleBarLeftMargin"@[0] != "OverrideInactiveTitleBarOpacity"@[0]);
    assert("TitleBarLeftMargin"@[0] != "ApplyOpacityToHeader"@[0]);
    assert(!in_title_bar_opacity("TitleBarLeftMargin"@));
    reveal_strlit("TitleBarTopMargin");
    reveal_strlit("TitleBarBottomMargin");
    reveal_strlit("TitleBarLeftMargin");
    reveal_strlit("TitleBarRightMargin");
    reveal_strlit("PercentMaximizedTopBottomMargins");
    reveal_strlit("LockTitleBar");
    assert(in_title_bar_spacing("TitleBarLeftMargin"@));
}

proof fn lemma_section_for_title_bar_right_margin()
    ensures
        section_for("TitleBarRightMargin"@) == "TitleBarSpacing"@,
{
    reveal_strlit("TitleBarRightMargin");
    reveal_strlit("ShadowColor");
    reveal_strlit("ShadowSize");
    reveal_strlit("ShadowStrength");
    assert("TitleBarRightMargin"@[0] != "ShadowColor"@[0]);
    assert("TitleBarRightMargin"@[0] != "ShadowSize"@[0]);
    assert("TitleBarRightMargin"@[0] != "ShadowStrength"@[0]);
    assert(!in_shadow_style("TitleBarRightMargin"@));
    reveal_strlit("ButtonBackgroundColors");
    reveal_strlit("ButtonBackgroundOpacity");
    reveal_strlit("LockButtonColorsActiveInactive");
    reveal_strlit("ButtonColorsInactiveSameHoverPress");
    reveal_strlit("ButtonIconColors");
    reveal_strlit("ButtonIconOpacity");
    reveal_strlit("ButtonOverrideColors");
    reveal_strlit("CloseButtonIconColor");
    reveal_strlit("CloseButtonCustomIconColor");
    reveal_strlit("MaximizeButtonIconColor");
    reveal_strlit("MaximizeButtonCustomIconColor");
    reveal_strlit("MinimizeButtonIconColor");
    reveal_strlit("MinimizeButtonCustomIconColor");
    reveal_strlit("NegativeCloseBackground");
    reveal_strlit("ShowBackground");
    reveal_strlit("ShowCloseBackground");
    reveal_strlit("ShowCloseIcon");
    reveal_strlit("ShowCloseOutline");
    reveal_strlit("ShowIcon");
    reveal_strlit("ShowOutline");
    reveal_strlit("VaryColor");
    reveal_strlit("UseHoverAccent");
    assert("TitleBarRightMargin"@.take(16)[0] != "ButtonIconColors"@[0]);
    assert("TitleBarRightMargin"@.take(17)[0] != "ButtonIconOpacity"@[0]);
    assert("TitleBarRightMargin"@.take(14)[0] != "ShowBackground"@[0]);
    assert("TitleBarRightMargin"@.take(19)[0] != "ShowCloseBackground"@[0]);
    assert("TitleBarRightMargin"@.take(13)[0] != "ShowCloseIcon"@[0]);
    assert("TitleBarRightMargin"@.take(16)[0] != "ShowCloseOutline"@[0]);
    assert("TitleBarRightMargin"@.take(8)[0] != "ShowIcon"@[0]);
    assert("TitleBarRightMargin"@.take(11)[0] != "ShowOutline"@[0]);
    assert("TitleBarRightMargin"@.take(9)[0] != "VaryColor"@[0]);
    assert("TitleBarRightMargin"@.take(14)[0] != "UseHoverAccent"@[0]);
    assert("TitleBarRightMargin"@[0] != "LockButtonColorsActiveInactive"@[0]);
    assert("TitleBarRightMargin"@[0] != "ButtonColorsInactiveSameHoverPress"@[0]);
    assert(!in_button_colors("TitleBarRightMargin"@));
    reveal_strlit("ActiveTitleBarOpacity");
    reveal_strlit("InactiveTitleBarOpacity");
    reveal_strlit("OpaqueMaximizedTitleBars");
    reveal_strlit("OverrideActiveTitleBarOpacity");
    reveal_strlit("OverrideInactiveTitleBarOpacity");
    reveal_strlit("ApplyOpacityToHeader");
    assert("TitleBarRightMargin"@[0] != "ActiveTitleBarOpacity"@[0]);
    assert("TitleBarRightMargin"@[0] != "InactiveTitleBarOpacity"@[0]);
    assert("TitleBarRightMargin"@[0] != "OpaqueMaximizedTitleBars"@[0]);
    assert("TitleBarRightMargin"@[0] != "OverrideActiveTitleBarOpacity"@[0]);
    assert("TitleBarRightMargin"@[0] != "OverrideInactiveTitleBarOpacity"@[0]);
    assert("TitleBarRightMargin"@[0] != "ApplyOpacityToHeader"@[0]);
    assert(!in_title_bar_opacity("TitleBarRightMargin"@));
    reveal_strlit("TitleBarTopMargin");
    reveal_strlit("TitleBarBottomMargin");
    reveal_strlit("TitleBarLeftMargin");
    reveal_strlit("TitleBarRightMargin");
    reveal_strlit("PercentMaximizedTopBottomMargins");
    reveal_strlit("LockTitleBar");
    assert(in_title_bar_spacing("TitleBarRightMargin"@));
}

proof fn lemma_section_for_percent_maximized_top_bottom_margins()
    ensures
        section_for("PercentMaximizedTopBottomMargins"@) == "TitleBarSpacing"@,
{
    reveal_strlit("PercentMaximizedTopBottomMargins");
    reveal_strlit("ShadowColor");
    reveal_strlit("ShadowSize");
    reveal_strlit("ShadowStrength");
    assert("PercentMaximizedTopBottomMargins"@[0] != "ShadowColor"@[0]);
    assert("PercentMaximizedTopBottomMargins"@[0] != "ShadowSize"@[0]);
    assert("PercentMaximizedTopBottomMargins"@[0] != "ShadowStrength"@[0]);
    assert(!in_shadow_style("PercentMaximizedTopBottomMargins"@));
    reveal_strlit("ButtonBackgroundColors");
    reveal_strlit("ButtonBackgroundOpacity");
    reveal_strlit("LockButtonColorsActiveInactive");
    reveal_strlit("ButtonColorsInactiveSameHoverPress");
    reveal_strlit("ButtonIconColors");
    reveal_strlit("ButtonIconOpacity");
    reveal_strlit("ButtonOverrideColors");
    reveal_strlit("CloseButtonIconColor");
    reveal_strlit("CloseButtonCustomIconColor");
    reveal_strlit("MaximizeButtonIconColor");
    reveal_strlit("MaximizeButtonCustomIconColor");
    reveal_strlit("MinimizeButtonIconColor");
    reveal_strlit("MinimizeButtonCustomIconColor");
    reveal_strlit("NegativeCloseBackground");
    reveal_strlit("ShowBackground");
    reveal_strlit("ShowCloseBackground");
    reveal_strlit("ShowCloseIcon");
    reveal_strlit("ShowCloseOutline");
    reveal_strlit("ShowIcon");
    reveal_strlit("ShowOutline");
    reveal_strlit("VaryColor");
    reveal_strlit("UseHoverAccent");
    assert("PercentMaximizedTopBottomMargins"@.take(22)[0] != "ButtonBackgroundColors"@[0]);
    assert("PercentMaximizedTopBottomMargins"@.take(23)[0] != "ButtonBackgroundOpacity"@[0]);
    assert("PercentMaximizedTopBottomMargins"@.take(16)[0] != "ButtonIconColors"@[0]);
    assert("PercentMaximizedTopBottomMargins"@.take(17)[0] != "ButtonIconOpacity"@[0]);
    assert("PercentMaximizedTopBottomMargins"@.take(20)[0] != "ButtonOverrideColors"@[0]);
    assert("PercentMaximizedTopBottomMargins"@.take(20)[0] != "CloseButtonIconColor"@[0]);
    assert("PercentMaximizedTopBottomMargins"@.take(26)[0] != "CloseButtonCustomIconColor"@[0]);
    assert("PercentMaximizedTopBottomMargins"@.take(23)[0] != "MaximizeButtonIconColor"@[0]);
    assert("PercentMaximizedTopBottomMargins"@.take(29)[0] != "MaximizeButtonCustomIconColor"@[0]);
    assert("PercentMaximizedTopBottomMargins"@.take(23)[0] != "MinimizeButtonIconColor"@[0]);
    assert("PercentMaximizedTopBottomMargins"@.take(29)[0] != "MinimizeButtonCustomIconColor"@[0]);
    assert("PercentMaximizedTopBottomMargins"@.take(23)[0] != "NegativeCloseBackground"@[0]);
    assert("PercentMaximizedTopBottomMargins"@.take(14)[0] != "ShowBackground"@[0]);
    assert("PercentMaximizedTopBottomMargins"@.take(19)[0] != "ShowCloseBackground"@[0]);
    assert("PercentMaximizedTopBottomMargins"@.take(13)[0] != "ShowCloseIcon"@[0]);
    assert("PercentMaximizedTopBottomMargins"@.take(16)[0] != "ShowCloseOutline"@[0]);
    assert("PercentMaximizedTopBottomMargins"@.take(8)[0] != "ShowIcon"@[0]);
    assert("PercentMaximizedTopBottomMargins"@.take(11)[0] != "ShowOutline"@[0]);
    assert("PercentMaximizedTopBottomMargins"@.take(9)[0] != "VaryColor"@[0]);
    assert("PercentMaximizedTopBottomMargins"@.take(14)[0] != "UseHoverAccent"@[0]);
    assert("PercentMaximizedTopBottomMargins"@[0] != "LockButtonColorsActiveInactive"@[0]);
    assert("PercentMaximizedTopBottomMargins"@[0] != "ButtonColorsInactiveSameHoverPress"@[0]);
    assert(!in_button_colors("PercentMaximizedTopBottomMargins"@));
    reveal_strlit("ActiveTitleBarOpacity");
    reveal_strlit("InactiveTitleBarOpacity");
    reveal_strlit("OpaqueMaximizedTitleBars");
    reveal_strlit("OverrideActiveTitleBarOpacity");
    reveal_strlit("OverrideInactiveTitleBarOpacity");
    reveal_strlit("ApplyOpacityToHeader");
    assert("PercentMaximizedTopBottomMargins"@[0] != "ActiveTitleBarOpacity"@[0]);
    assert("PercentMaximizedTopBottomMargins"@[0] != "InactiveTitleBarOpacity"@[0]);
    assert("PercentMaximizedTopBottomMargins"@[0] != "OpaqueMaximizedTitleBars"@[0]);
    assert("PercentMaximizedTopBottomMargins"@[0] != "OverrideActiveTitleBarOpacity"@[0]);
    assert("PercentMaximizedTopBottomMargins"@[0] != "OverrideInactiveTitleBarOpacity"@[0]);
    assert("PercentMaximizedTopBottomMargins"@[0] != "ApplyOpacityToHeader"@[0]);
    assert(!in_title_bar_opacity("PercentMaximizedTopBottomMargins"@));
    reveal_strlit("TitleBarTopMargin");
    reveal_strlit("TitleBarBottomMargin");
    reveal_strlit("TitleBarLeftMargin");
    reveal_strlit("TitleBarRightMargin");
    reveal_strlit("PercentMaximizedTopBottomMargins");
    reveal_strlit("LockTitleBar");
    assert(in_title_bar_spacing("PercentMaximizedTopBottomMargins"@));
}

proof fn lemma_section_for_window_outline_style_active()
    ensures
        section_for("WindowOutlineStyleActive"@) == "WindowOutlineStyle"@,
{
    reveal_strlit("WindowOutlineStyleActive");
    reveal_strlit("ShadowColor");
    reveal_strlit("ShadowSize");
    reveal_strlit("ShadowStrength");
    assert("WindowOutlineStyleActive"@[0] != "ShadowColor"@[0]);
    assert("WindowOutlineStyleActive"@[0] != "ShadowSize"@[0]);
    assert("WindowOutlineStyleActive"@[0] != "ShadowStrength"@[0]);
    assert(!in_shadow_style("WindowOutlineStyleActive"@));
    reveal_strlit("ButtonBackgroundColors");
    reveal_strlit("ButtonBackgroundOpacity");
    reveal_strlit("LockButtonColorsActiveInactive");
    reveal_strlit("ButtonColorsInactiveSameHoverPress");
    reveal_strlit("ButtonIconColors");
    reveal_strlit("ButtonIconOpacity");
    reveal_strlit("ButtonOverrideColors");
    reveal_strlit("CloseButtonIconColor");
    reveal_strlit("CloseButtonCustomIconColor");
    reveal_strlit("MaximizeButtonIconColor");
    reveal_strlit("MaximizeButtonCustomIconColor");
    reveal_strlit("MinimizeButtonIconColor");
    reveal_strlit("MinimizeButtonCustomIconColor");
    reveal_strlit("NegativeCloseBackground");
    reveal_strlit("ShowBackground");
    reveal_strlit("ShowCloseBackground");
    reveal_strlit("ShowCloseIcon");
    reveal_strlit("ShowCloseOutline");
    reveal_strlit("ShowIcon");
    reveal_strlit("ShowOutline");
    reveal_strlit("VaryColor");
    reveal_strlit("UseHoverAccent");
    assert("WindowOutlineStyleActive"@.take(22)[0] != "ButtonBackgroundColors"@[0]);
    assert("WindowOutlineStyleActive"@.take(23)[0] != "ButtonBackgroundOpacity"@[0]);
    assert("WindowOutlineStyleActive"@.take(16)[0] != "ButtonIconColors"@[0]);
    assert("WindowOutlineStyleActive"@.take(17)[0] != "ButtonIconOpacity"@[0]);
    assert("WindowOutlineStyleActive"@.take(20)[0] != "ButtonOverrideColors"@[0]);
    assert("WindowOutlineStyleActive"@.take(20)[0] != "CloseButtonIconColor"@[0]);
    assert("WindowOutlineStyleActive"@.take(23)[0] != "MaximizeButtonIconColor"@[0]);
    assert("WindowOutlineStyleActive"@.take(23)[0] != "MinimizeButtonIconColor"@[0]);
    assert("WindowOutlineStyleActive"@.take(23)[0] != "NegativeCloseBackground"@[0]);
    assert("WindowOutlineStyleActive"@.take(14)[0] != "ShowBackground"@[0]);
    assert("WindowOutlineStyleActive"@.take(19)[0] != "ShowCloseBackground"@[0]);
    assert("WindowOutlineStyleActive"@.take(13)[0] != "ShowCloseIcon"@[0]);
    assert("WindowOutlineStyleActive"@.take(16)[0] != "ShowCloseOutline"@[0]);
    assert("WindowOutlineStyleActive"@.take(8)[0] != "ShowIcon"@[0]);
    assert("WindowOutlineStyleActive"@.take(11)[0] != "ShowOutline"@[0]);
    assert("WindowOutlineStyleActive"@.take(9)[0] != "VaryColor"@[0]);
    assert("WindowOutlineStyleActive"@.take(14)[0] != "UseHoverAccent"@[0]);
    assert("WindowOutlineStyleActive"@[0] != "LockButtonColorsActiveInactive"@[0]);
    assert("WindowOutlineStyleActive"@[0] != "ButtonColorsInactiveSameHoverPress"@[0]);
    assert(!in_button_colors("WindowOutlineStyleActive"@));
    reveal_strlit("ActiveTitleBarOpacity");
    reveal_strlit("InactiveTitleBarOpacity");
    reveal_strlit("OpaqueMaximizedTitleBars");
    reveal_strlit("OverrideActiveTitleBarOpacity");
    reveal_strlit("OverrideInactiveTitleBarOpacity");
    reveal_strlit("ApplyOpacityToHeader");
    assert("WindowOutlineStyleActive"@[0] != "OpaqueMaximizedTitleBars"@[0]);
    assert("WindowOutlineStyleActive"@[0] != "ActiveTitleBarOpacity"@[0]);
    assert("WindowOutlineStyleActive"@[0] != "InactiveTitleBarOpacity"@[0]);
    assert("WindowOutlineStyleActive"@[0] != "OpaqueMaximizedTitleBars"@[0]);
    assert("WindowOutlineStyleActive"@[0] != "OverrideActiveTitleBarOpacity"@[0]);
    assert("WindowOutlineStyleActive"@[0] != "OverrideInactiveTitleBarOpacity"@[0]);
    assert("WindowOutlineStyleActive"@[0] != "ApplyOpacityToHeader"@[0]);
    assert(!in_title_bar_opacity("WindowOutlineStyleActive"@));
    reveal_strlit("TitleBarTopMargin");
    reveal_strlit("TitleBarBottomMargin");
    reveal_strlit("TitleBarLeftMargin");
    reveal_strlit("TitleBarRightMargin");
    reveal_strlit("PercentMaximizedTopBottomMargins");
    reveal_strlit("LockTitleBar");
    assert("WindowOutlineStyleActive"@.take(12)[0] != "LockTitleBar"@[0]);
    assert("WindowOutlineStyleActive"@[0] != "TitleBarTopMargin"@[0]);
    assert("WindowOutlineStyleActive"@[0] != "TitleBarBottomMargin"@[0]);
    assert("WindowOutlineStyleActive"@[0] != "TitleBarLeftMargin"@[0]);
    assert("WindowOutlineStyleActive"@[0] != "TitleBarRightMargin"@[0]);
    assert("WindowOutlineStyleActive"@[0] != "PercentMaximizedTopBottomMargins"@[0]);
    assert(!in_title_bar_spacing("WindowOutlineStyleActive"@));
    reveal_strlit("WindowOutlineStyle");
    reveal_strlit("WindowOutlineCustomColor");
    reveal_strlit("WindowOutlineOverlap");
    reveal_strlit("LockWindowOutline");
    reveal_strlit("WindowOutlineAccentColor");
    reveal_strlit("WindowOutlineAccentWithContrast");
    reveal_strlit("WindowOutlineContrastOpacity");
    reveal_strlit("WindowOutlineCustomWithContrast");
    reveal_strlit("WindowOutlineShadowColorOpacity");
    reveal_strlit("WindowOutlineSnapToWholePixel");
    reveal_strlit("WindowOutlineThickness");
    assert("WindowOutlineStyleActive"@.take(18) =~= "WindowOutlineStyle"@);
    assert(in_window_outline_style("WindowOutlineStyleActive"@));
}

proof fn lemma_section_for_window_outline_custom_color_active()
    ensures
        section_for("WindowOutlineCustomColorActive"@) == "WindowOutlineStyle"@,
{
    reveal_strlit("WindowOutlineCustomColorActive");
    reveal_strlit("ShadowColor");
    reveal_strlit("ShadowSize");
    reveal_strlit("ShadowStrength");
    assert("WindowOutlineCustomColorActive"@[0] != "ShadowColor"@[0]);
    assert("WindowOutlineCustomColorActive"@[0] != "ShadowSize"@[0]);
    assert("WindowOutlineCustomColorActive"@[0] != "ShadowStrength"@[0]);
    assert(!in_shadow_style("WindowOutlineCustomColorActive"@));
    reveal_strlit("ButtonBackgroundColors");
    reveal_strlit("ButtonBackgroundOpacity");
    reveal_strlit("LockButtonColorsActiveInactive");
    reveal_strlit("ButtonColorsInactiveSameHoverPress");
    reveal_strlit("ButtonIconColors");
    reveal_strlit("ButtonIconOpacity");
    reveal_strlit("ButtonOverrideColors");
    reveal_strlit("CloseButtonIconColor");
    reveal_strlit("CloseButtonCustomIconColor");
    reveal_strlit("MaximizeButtonIconColor");
    reveal_strlit("MaximizeButtonCustomIconColor");
    reveal_strlit("MinimizeButtonIconColor");
    reveal_strlit("MinimizeButtonCustomIconColor");
    reveal_strlit("NegativeCloseBackground");
    reveal_strlit("ShowBackground");
    reveal_strlit("ShowCloseBackground");
    reveal_strlit("ShowCloseIcon");
    reveal_strlit("ShowCloseOutline");
    reveal_strlit("ShowIcon");
    reveal_strlit("ShowOutline");
    reveal_strlit("VaryColor");
    reveal_strlit("UseHoverAccent");
    assert("WindowOutlineCustomColorActive"@.take(22)[0] != "ButtonBackgroundColors"@[0]);
    assert("WindowOutlineCustomColorActive"@.take(23)[0] != "ButtonBackgroundOpacity"@[0]);
    assert("WindowOutlineCustomColorActive"@[0] != "LockButtonColorsActiveInactive"@[0]);
    assert("WindowOutlineCustomColorActive"@.take(16)[0] != "ButtonIconColors"@[0]);
    assert("WindowOutlineCustomColorActive"@.take(17)[0] != "ButtonIconOpacity"@[0]);
    assert("WindowOutlineCustomColorActive"@.take(20)[0] != "ButtonOverrideColors"@[0]);
    assert("WindowOutlineCustomColorActive"@.take(20)[0] != "CloseButtonIconColor"@[0]);
    assert("WindowOutlineCustomColorActive"@.take(26)[0] != "CloseButtonCustomIconColor"@[0]);
    assert("WindowOutlineCustomColorActive"@.take(23)[0] != "MaximizeButtonIconColor"@[0]);
    assert("WindowOutlineCustomColorActive"@.take(29)[0] != "MaximizeButtonCustomIconColor"@[0]);
    assert("WindowOutlineCustomColorActive"@.take(23)[0] != "MinimizeButtonIconColor"@[0]);
    assert("WindowOutlineCustomColorActive"@.take(29)[0] != "MinimizeButtonCustomIconColor"@[0]);
    assert("WindowOutlineCustomColorActive"@.take(23)[0] != "NegativeCloseBackground"@[0]);
    assert("WindowOutlineCustomColorActive"@.take(14)[0] != "ShowBackground"@[0]);
    assert("WindowOutlineCustomColorActive"@.take(19)[0] != "ShowCloseBackground"@[0]);
    assert("WindowOutlineCustomColorActive"@.take(13)[0] != "ShowCloseIcon"@[0]);
    assert("WindowOutlineCustomColorActive"@.take(16)[0] != "ShowCloseOutline"@[0]);
    assert("WindowOutlineCustomColorActive"@.take(8)[0] != "ShowIcon"@[0]);
    assert("WindowOutlineCustomColorActive"@.take(11)[0] != "ShowOutline"@[0]);
    assert("WindowOutlineCustomColorActive"@.take(9)[0] != "VaryColor"@[0]);
    assert("WindowOutlineCustomColorActive"@.take(14)[0] != "UseHoverAccent"@[0]);
    assert("WindowOutlineCustomColorActive"@[0] != "LockButtonColorsActiveInactive"@[0]);
    assert("WindowOutlineCustomColorActive"@[0] != "ButtonColorsInactiveSameHoverPress"@[0]);
    assert(!in_button_colors("WindowOutlineCustomColorActive"@));
    reveal_strlit("ActiveTitleBarOpacity");
    reveal_strlit("InactiveTitleBarOpacity");
    reveal_strlit("OpaqueMaximizedTitleBars");
    reveal_strlit("OverrideActiveTitleBarOpacity");
    reveal_strlit("OverrideInactiveTitleBarOpacity");
    reveal_strlit("ApplyOpacityToHeader");
    assert("WindowOutlineCustomColorActive"@[0] != "ActiveTitleBarOpacity"@[0]);
    assert("WindowOutlineCustomColorActive"@[0] != "InactiveTitleBarOpacity"@[0]);
    assert("WindowOutlineCustomColorActive"@[0] != "OpaqueMaximizedTitleBars"@[0]);
    assert("WindowOutlineCustomColorActive"@[0] != "OverrideActiveTitleBarOpacity"@[0]);
    assert("WindowOutlineCustomColorActive"@[0] != "OverrideInactiveTitleBarOpacity"@[0]);
    assert("WindowOutlineCustomColorActive"@[0] != "ApplyOpacityToHeader"@[0]);
    assert(!in_title_bar_opacity("WindowOutlineCustomColorActive"@));
    reveal_strlit("TitleBarTopMargin");
    reveal_strlit("TitleBarBottomMargin");
    reveal_strlit("TitleBarLeftMargin");
    reveal_strlit("TitleBarRightMargin");
    reveal_strlit("PercentMaximizedTopBottomMargins");
    reveal_strlit("LockTitleBar");
    assert("WindowOutlineCustomColorActive"@.take(12)[0] != "LockTitleBar"@[0]);
    assert("WindowOutlineCustomColorActive"@[0] != "TitleBarTopMargin"@[0]);
    assert("WindowOutlineCustomColorActive"@[0] != "TitleBarBottomMargin"@[0]);
    assert("WindowOutlineCustomColorActive"@[0] != "TitleBarLeftMargin"@[0]);
    assert("WindowOutlineCustomColorActive"@[0] != "TitleBarRightMargin"@[0]);
    assert("WindowOutlineCustomColorActive"@[0] != "PercentMaximizedTopBottomMargins"@[0]);
    assert(!in_title_bar_spacing("WindowOutlineCustomColorActive"@));
    reveal_strlit("WindowOutlineStyle");
    reveal_strlit("WindowOutlineCustomColor");
    reveal_strlit("WindowOutlineOverlap");
    reveal_strlit("LockWindowOutline");
    reveal_strlit("WindowOutlineAccentColor");
    reveal_strlit("WindowOutlineAccentWithContrast");
    reveal_strlit("WindowOutlineContrastOpacity");
    reveal_strlit("WindowOutlineCustomWithContrast");
    reveal_strlit("WindowOutlineShadowColorOpacity");
    reveal_strlit("WindowOutlineSnapToWholePixel");
    reveal_strlit("WindowOutlineThickness");
    assert("WindowOutlineCustomColorActive"@.take(24) =~= "WindowOutlineCustomColor"@);
    assert(in_window_outline_style("WindowOutlineCustomColorActive"@));
}

proof fn lemma_section_for_window_outline_overlap()
    ensures
        section_for("WindowOutlineOverlap"@) == "WindowOutlineStyle"@,
{
    reveal_strlit("WindowOutlineOverlap");
    reveal_strlit("ShadowColor");
    reveal_strlit("ShadowSize");
    reveal_strlit("ShadowStrength");
    assert("WindowOutlineOverlap"@[0] != "ShadowColor"@[0]);
    assert("WindowOutlineOverlap"@[0] != "ShadowSize"@[0]);
    assert("WindowOutlineOverlap"@[0] != "ShadowStrength"@[0]);
    assert(!in_shadow_style("WindowOutlineOverlap"@));
    reveal_strlit("ButtonBackgroundColors");
    reveal_strlit("ButtonBackgroundOpacity");
    reveal_strlit("LockButtonColorsActiveInactive");
    reveal_strlit("ButtonColorsInactiveSameHoverPress");
    reveal_strlit("ButtonIconColors");
    reveal_strlit("ButtonIconOpacity");
    reveal_strlit("ButtonOverrideColors");
    reveal_strlit("CloseButtonIconColor");
    reveal_strlit("CloseButtonCustomIconColor");
    reveal_strlit("MaximizeButtonIconColor");
    reveal_strlit("MaximizeButtonCustomIconColor");
    reveal_strlit("MinimizeButtonIconColor");
    reveal_strlit("MinimizeButtonCustomIconColor");
    reveal_strlit("NegativeCloseBackground");
    reveal_strlit("ShowBackground");
    reveal_strlit("ShowCloseBackground");
    reveal_strlit("ShowCloseIcon");
    reveal_strlit("ShowCloseOutline");
    reveal_strlit("ShowIcon");
    reveal_strlit("ShowOutline");
    reveal_strlit("VaryColor");
    reveal_strlit("UseHoverAccent");
    assert("WindowOutlineOverlap"@.take(16)[0] != "ButtonIconColors"@[0]);
    assert("WindowOutlineOverlap"@.take(17)[0] != "ButtonIconOpacity"@[0]);
    assert("WindowOutlineOverlap"@.take(20)[0] != "ButtonOverrideColors"@[0]);
    assert("WindowOutlineOverlap"@.take(20)[0] != "CloseButtonIconColor"@[0]);
    assert("WindowOutlineOverlap"@.take(14)[0] != "ShowBackground"@[0]);
    assert("WindowOutlineOverlap"@.take(19)[0] != "ShowCloseBackground"@[0]);
    assert("WindowOutlineOverlap"@.take(13)[0] != "ShowCloseIcon"@[0]);
    assert("WindowOutlineOverlap"@.take(16)[0] != "ShowCloseOutline"@[0]);
    assert("WindowOutlineOverlap"@.take(8)[0] != "ShowIcon"@[0]);
    assert("WindowOutlineOverlap"@.take(11)[0] != "ShowOutline"@[0]);
    assert("WindowOutlineOverlap"@.take(9)[0] != "VaryColor"@[0]);
    assert("WindowOutlineOverlap"@.take(14)[0] != "UseHoverAccent"@[0]);
    assert("WindowOutlineOverlap"@[0] != "LockButtonColorsActiveInactive"@[0]);
    assert("WindowOutlineOverlap"@[0] != "ButtonColorsInactiveSameHoverPress"@[0]);
    assert(!in_button_colors("WindowOutlineOverlap"@));
    reveal_strlit("ActiveTitleBarOpacity");
    reveal_strlit("InactiveTitleBarOpacity");
    reveal_strlit("OpaqueMaximizedTitleBars");
    reveal_strlit("OverrideActiveTitleBarOpacity");
    reveal_strlit("OverrideInactiveTitleBarOpacity");
    reveal_strlit("ApplyOpacityToHeader");
    assert("WindowOutlineOverlap"@[0] != "ApplyOpacityToHeader"@[0]);
    assert("WindowOutlineOverlap"@[0] != "ActiveTitleBarOpacity"@[0]);
    assert("WindowOutlineOverlap"@[0] != "InactiveTitleBarOpacity"@[0]);
    assert("WindowOutlineOverlap"@[0] != "OpaqueMaximizedTitleBars"@[0]);
    assert("WindowOutlineOverlap"@[0] != "OverrideActiveTitleBarOpacity"@[0]);
    assert("WindowOutlineOverlap"@[0] != "OverrideInactiveTitleBarOpacity"@[0]);
    assert("WindowOutlineOverlap"@[0] != "ApplyOpacityToHeader"@[0]);
    assert(!in_title_bar_opacity("WindowOutlineOverlap"@));
    reveal_strlit("TitleBarTopMargin");
    reveal_strlit("TitleBarBottomMargin");
    reveal_strlit("TitleBarLeftMargin");
    reveal_strlit("TitleBarRightMargin");
    reveal_strlit("PercentMaximizedTopBottomMargins");
    reveal_strlit("LockTitleBar");
    assert("WindowOutlineOverlap"@[0] != "TitleBarBottomMargin"@[0]);
    assert("WindowOutlineOverlap"@.take(12)[0] != "LockTitleBar"@[0]);
    assert("WindowOutlineOverlap"@[0] != "TitleBarTopMargin"@[0]);
    assert("WindowOutlineOverlap"@[0] != "TitleBarBottomMargin"@[0]);
    assert("WindowOutlineOverlap"@[0] != "TitleBarLeftMargin"@[0]);
    assert("WindowOutlineOverlap"@[0] != "TitleBarRightMargin"@[0]);
    assert("WindowOutlineOverlap"@[0] != "PercentMaximizedTopBottomMargins"@[0]);
    assert(!in_title_bar_spacing("WindowOutlineOverlap"@));
    reveal_strlit("WindowOutlineStyle");
    reveal_strlit("WindowOutlineCustomColor");
    reveal_strlit("WindowOutlineOverlap");
    reveal_strlit("LockWindowOutline");
    reveal_strlit("WindowOutlineAccentColor");
    reveal_strlit("WindowOutlineAccentWithContrast");
    reveal_strlit("WindowOutlineContrastOpacity");
    reveal_strlit("WindowOutlineCustomWithContrast");
    reveal_strlit("WindowOutlineShadowColorOpacity");
    reveal_strlit("WindowOutlineSnapToWholePixel");
    reveal_strlit("WindowOutlineThickness");
    assert(in_window_outline_style("WindowOutlineOverlap"@));
}

proof fn lemma_section_for_window_outline_thickness()
    ensures
        section_for("WindowOutlineThickness"@) == "WindowOutlineStyle"@,
{
    reveal_strlit("WindowOutlineThickness");
    reveal_strlit("ShadowColor");
    reveal_strlit("ShadowSize");
    reveal_strlit("ShadowStrength");
    assert("WindowOutlineThickness"@[0] != "ShadowColor"@[0]);
    assert("WindowOutlineThickness"@[0] != "ShadowSize"@[0]);
    assert("WindowOutlineThickness"@[0] != "ShadowStrength"@[0]);
    assert(!in_shadow_style("WindowOutlineThickness"@));
    reveal_strlit("ButtonBackgroundColors");
    reveal_strlit("ButtonBackgroundOpacity");
    reveal_strlit("LockButtonColorsActiveInactive");
    reveal_strlit("ButtonColorsInactiveSameHoverPress");
    reveal_strlit("ButtonIconColors");
    reveal_strlit("ButtonIconOpacity");
    reveal_strlit("ButtonOverrideColors");
    reveal_strlit("CloseButtonIconColor");
    reveal_strlit("CloseButtonCustomIconColor");
    reveal_strlit("MaximizeButtonIconColor");
    reveal_strlit("MaximizeButtonCustomIconColor");
    reveal_strlit("MinimizeButtonIconColor");
    reveal_strlit("MinimizeButtonCustomIconColor");
    reveal_strlit("NegativeCloseBackground");
    reveal_strlit("ShowBackground");
    reveal_strlit("ShowCloseBackground");
    reveal_strlit("ShowCloseIcon");
    reveal_strlit("ShowCloseOutline");
    reveal_strlit("ShowIcon");
    reveal_strlit("ShowOutline");
    reveal_strlit("VaryColor");
    reveal_strlit("UseHoverAccent");
    assert("WindowOutlineThickness"@.take(22)[0] != "ButtonBackgroundColors"@[0]);
    assert("WindowOutlineThickness"@.take(16)[0] != "ButtonIconColors"@[0]);
    assert("WindowOutlineThickness"@.take(17)[0] != "ButtonIconOpacity"@[0]);
    assert("WindowOutlineThickness"@.take(20)[0] != "ButtonOverrideColors"@[0]);
    assert("WindowOutlineThickness"@.take(20)[0] != "CloseButtonIconColor"@[0]);
    assert("WindowOutlineThickness"@.take(14)[0] != "ShowBackground"@[0]);
    assert("WindowOutlineThickness"@.take(19)[0] != "ShowCloseBackground"@[0]);
    assert("WindowOutlineThickness"@.take(13)[0] != "ShowCloseIcon"@[0]);
    assert("WindowOutlineThickness"@.take(16)[0] != "ShowCloseOutline"@[0]);
    assert("WindowOutlineThickness"@.take(8)[0] != "ShowIcon"@[0]);
    assert("WindowOutlineThickness"@.take(11)[0] != "ShowOutline"@[0]);
    assert("WindowOutlineThickness"@.take(9)[0] != "VaryColor"@[0]);
    assert("WindowOutlineThickness"@.take(14)[0] != "UseHoverAccent"@[0]);
    assert("WindowOutlineThickness"@[0] != "LockButtonColorsActiveInactive"@[0]);
    assert("WindowOutlineThickness"@[0] != "ButtonColorsInactiveSameHoverPress"@[0]);
    assert(!in_button_colors("WindowOutlineThickness"@));
    reveal_strlit("ActiveTitleBarOpacity");
    reveal_strlit("InactiveTitleBarOpacity");
    reveal_strlit("OpaqueMaximizedTitleBars");
    reveal_strlit("OverrideActiveTitleBarOpacity");
    reveal_strlit("OverrideInactiveTitleBarOpacity");
    reveal_strlit("ApplyOpacityToHeader");
    assert("WindowOutlineThickness"@[0] != "ActiveTitleBarOpacity"@[0]);
    assert("WindowOutlineThickness"@[0] != "InactiveTitleBarOpacity"@[0]);
    assert("WindowOutlineThickness"@[0] != "OpaqueMaximizedTitleBars"@[0]);
    assert("WindowOutlineThickness"@[0] != "OverrideActiveTitleBarOpacity"@[0]);
    assert("WindowOutlineThickness"@[0] != "OverrideInactiveTitleBarOpacity"@[0]);
    assert("WindowOutlineThickness"@[0] != "ApplyOpacityToHeader"@[0]);
    assert(!in_title_bar_opacity("WindowOutlineThickness"@));
    reveal_strlit("TitleBarTopMargin");
    reveal_strlit("TitleBarBottomMargin");
    reveal_strlit("TitleBarLeftMargin");
    reveal_strlit("TitleBarRightMargin");
    reveal_strlit("PercentMaximizedTopBottomMargins");
    reveal_strlit("LockTitleBar");
    assert("WindowOutlineThickness"@.take(12)[0] != "LockTitleBar"@[0]);
    assert("WindowOutlineThickness"@[0] != "TitleBarTopMargin"@[0]);
    assert("WindowOutlineThickness"@[0] != "TitleBarBottomMargin"@[0]);
    assert("WindowOutlineThickness"@[0] != "TitleBarLeftMargin"@[0]);
    assert("WindowOutlineThickness"@[0] != "TitleBarRightMargin"@[0]);
    assert("WindowOutlineThickness"@[0] != "PercentMaximizedTopBottomMargins"@[0]);
    assert(!in_title_bar_spacing("WindowOutlineThickness"@));
    reveal_strlit("WindowOutlineStyle");
    reveal_strlit("WindowOutlineCustomColor");
    reveal_strlit("WindowOutlineOverlap");
    reveal_strlit("LockWindowOutline");
    reveal_strlit("WindowOutlineAccentColor");
    reveal_strlit("WindowOutlineAccentWithContrast");
    reveal_strlit("WindowOutlineContrastOpacity");
    reveal_strlit("WindowOutlineCustomWithContrast");
    reveal_strlit("WindowOutlineShadowColorOpacity");
    reveal_strlit("WindowOutlineSnapToWholePixel");
    reveal_strlit("WindowOutlineThickness");
    assert(in_window_outline_style("WindowOutlineThickness"@));
}

proof fn lemma_section_for_window_outline_snap_to_whole_pixel()
    ensures
        section_for("WindowOutlineSnapToWholePixel"@) == "WindowOutlineStyle"@,
{
    reveal_strlit("WindowOutlineSnapToWholePixel");
    reveal_strlit("ShadowColor");
    reveal_strlit("ShadowSize");
    reveal_strlit("ShadowStrength");
    assert("WindowOutlineSnapToWholePixel"@[0] != "ShadowColor"@[0]);
    assert("WindowOutlineSnapToWholePixel"@[0] != "ShadowSize"@[0]);
    assert("WindowOutlineSnapToWholePixel"@[0] != "ShadowStrength"@[0]);
    assert(!in_shadow_style("WindowOutlineSnapToWholePixel"@));
    reveal_strlit("ButtonBackgroundColors");
    reveal_strlit("ButtonBackgroundOpacity");
    reveal_strlit("LockButtonColorsActiveInactive");
    reveal_strlit("ButtonColorsInactiveSameHoverPress");
    reveal_strlit("ButtonIconColors");
    reveal_strlit("ButtonIconOpacity");
    reveal_strlit("ButtonOverrideColors");
    reveal_strlit("CloseButtonIconColor");
    reveal_strlit("CloseButtonCustomIconColor");
    reveal_strlit("MaximizeButtonIconColor");
    reveal_strlit("MaximizeButtonCustomIconColor");
    reveal_strlit("MinimizeButtonIconColor");
    reveal_strlit("MinimizeButtonCustomIconColor");
    reveal_strlit("NegativeCloseBackground");
    reveal_strlit("ShowBackground");
    reveal_strlit("ShowCloseBackground");
    reveal_strlit("ShowCloseIcon");
    reveal_strlit("ShowCloseOutline");
    reveal_strlit("ShowIcon");
    reveal_strlit("ShowOutline");
    reveal_strlit("VaryColor");
    reveal_strlit("UseHoverAccent");
    assert("WindowOutlineSnapToWholePixel"@.take(22)[0] != "ButtonBackgroundColors"@[0]);
    assert("WindowOutlineSnapToWholePixel"@.take(23)[0] != "ButtonBackgroundOpacity"@[0]);
    assert("WindowOutlineSnapToWholePixel"@.take(16)[0] != "ButtonIconColors"@[0]);
    assert("WindowOutlineSnapToWholePixel"@.take(17)[0] != "ButtonIconOpacity"@[0]);
    assert("WindowOutlineSnapToWholePixel"@.take(20)[0] != "ButtonOverrideColors"@[0]);
    assert("WindowOutlineSnapToWholePixel"@.take(20)[0] != "CloseButtonIconColor"@[0]);
    assert("WindowOutlineSnapToWholePixel"@.take(26)[0] != "CloseButtonCustomIconColor"@[0]);
    assert("WindowOutlineSnapToWholePixel"@.take(23)[0] != "MaximizeButtonIconColor"@[0]);
    assert("WindowOutlineSnapToWholePixel"@.take(29)[0] != "MaximizeButtonCustomIconColor"@[0]);
    assert("WindowOutlineSnapToWholePixel"@.take(23)[0] != "MinimizeButtonIconColor"@[0]);
    assert("WindowOutlineSnapToWholePixel"@.take(29)[0] != "MinimizeButtonCustomIconColor"@[0]);
    assert("WindowOutlineSnapToWholePixel"@.take(23)[0] != "NegativeCloseBackground"@[0]);
    assert("WindowOutlineSnapToWholePixel"@.take(14)[0] != "ShowBackground"@[0]);
    assert("WindowOutlineSnapToWholePixel"@.take(19)[0] != "ShowCloseBackground"@[0]);
    assert("WindowOutlineSnapToWholePixel"@.take(13)[0] != "ShowCloseIcon"@[0]);
    assert("WindowOutlineSnapToWholePixel"@.take(16)[0] != "ShowCloseOutline"@[0]);
    assert("WindowOutlineSnapToWholePixel"@.take(8)[0] != "ShowIcon"@[0]);
    assert("WindowOutlineSnapToWholePixel"@.take(11)[0] != "ShowOutline"@[0]);
    assert("WindowOutlineSnapToWholePixel"@.take(9)[0] != "VaryColor"@[0]);
    assert("WindowOutlineSnapToWholePixel"@.take(14)[0] != "UseHoverAccent"@[0]);
    assert("WindowOutlineSnapToWholePixel"@[0] != "LockButtonColorsActiveInactive"@[0]);
    assert("WindowOutlineSnapToWholePixel"@[0] != "ButtonColorsInactiveSameHoverPress"@[0]);
    assert(!in_button_colors("WindowOutlineSnapToWholePixel"@));
    reveal_strlit("ActiveTitleBarOpacity");
    reveal_strlit("InactiveTitleBarOpacity");
    reveal_strlit("OpaqueMaximizedTitleBars");
    reveal_strlit("OverrideActiveTitleBarOpacity");
    reveal_strlit("OverrideInactiveTitleBarOpacity");
    reveal_strlit("ApplyOpacityToHeader");
    assert("WindowOutlineSnapToWholePixel"@[0] != "OverrideActiveTitleBarOpacity"@[0]);
    assert("WindowOutlineSnapToWholePixel"@[0] != "ActiveTitleBarOpacity"@[0]);
    assert("WindowOutlineSnapToWholePixel"@[0] != "InactiveTitleBarOpacity"@[0]);
    assert("WindowOutlineSnapToWholePixel"@[0] != "OpaqueMaximizedTitleBars"@[0]);
    assert("WindowOutlineSnapToWholePixel"@[0] != "OverrideActiveTitleBarOpacity"@[0]);
    assert("WindowOutlineSnapToWholePixel"@[0] != "OverrideInactiveTitleBarOpacity"@[0]);
    assert("WindowOutlineSnapToWholePixel"@[0] != "ApplyOpacityToHeader"@[0]);
    assert(!in_title_bar_opacity("WindowOutlineSnapToWholePixel"@));
    reveal_strlit("TitleBarTopMargin");
    reveal_strlit("TitleBarBottomMargin");
    reveal_strlit("TitleBarLeftMargin");
    reveal_strlit("TitleBarRightMargin");
    reveal_strlit("PercentMaximizedTopBottomMargins");
    reveal_strlit("LockTitleBar");
    assert("WindowOutlineSnapToWholePixel"@.take(12)[0] != "LockTitleBar"@[0]);
    assert("WindowOutlineSnapToWholePixel"@[0] != "TitleBarTopMargin"@[0]);
    assert("WindowOutlineSnapToWholePixel"@[0] != "TitleBarBottomMargin"@[0]);
    assert("WindowOutlineSnapToWholePixel"@[0] != "TitleBarLeftMargin"@[0]);
    assert("WindowOutlineSnapToWholePixel"@[0] != "TitleBarRightMargin"@[0]);
    assert("WindowOutlineSnapToWholePixel"@[0] != "PercentMaximizedTopBottomMargins"@[0]);
    assert(!in_title_bar_spacing("WindowOutlineSnapToWholePixel"@));
    reveal_strlit("WindowOutlineStyle");
    reveal_strlit("WindowOutlineCustomColor");
    reveal_strlit("WindowOutlineOverlap");
    reveal_strlit("LockWindowOutline");
    reveal_strlit("WindowOutlineAccentColor");
    reveal_strlit("WindowOutlineAccentWithContrast");
    reveal_strlit("WindowOutlineContrastOpacity");
    reveal_strlit("WindowOutlineCustomWithContrast");
    reveal_strlit("WindowOutlineShadowColorOpacity");
    reveal_strlit("WindowOutlineSnapToWholePixel");
    reveal_strlit("WindowOutlineThickness");
    assert(in_window_outline_style("WindowOutlineSnapToWholePixel"@));
}

proof fn lemma_section_for_button_gradient()
    ensures
        section_for("ButtonGradient"@) == "Style"@,
{
    reveal_strlit("ButtonGradient");
    reveal_strlit("ShadowColor");
    reveal_strlit("ShadowSize");
    reveal_strlit("ShadowStrength");
    assert("ButtonGradient"@[0] != "ShadowStrength"@[0]);
    assert("ButtonGradient"@[0] != "ShadowColor"@[0]);
    assert("ButtonGradient"@[0] != "ShadowSize"@[0]);
    assert("ButtonGradient"@[0] != "ShadowStrength"@[0]);
    assert(!in_shadow_style("ButtonGradient"@));
    reveal_strlit("ButtonBackgroundColors");
    reveal_strlit("ButtonBackgroundOpacity");
    reveal_strlit("LockButtonColorsActiveInactive");
    reveal_strlit("ButtonColorsInactiveSameHoverPress");
    reveal_strlit("ButtonIconColors");
    reveal_strlit("ButtonIconOpacity");
    reveal_strlit("ButtonOverrideColors");
    reveal_strlit("CloseButtonIconColor");
    reveal_strlit("CloseButtonCustomIconColor");
    reveal_strlit("MaximizeButtonIconColor");
    reveal_strlit("MaximizeButtonCustomIconColor");
    reveal_strlit("MinimizeButtonIconColor");
    reveal_strlit("MinimizeButtonCustomIconColor");
    reveal_strlit("NegativeCloseBackground");
    reveal_strlit("ShowBackground");
    reveal_strlit("ShowCloseBackground");
    reveal_strlit("ShowCloseIcon");
    reveal_strlit("ShowCloseOutline");
    reveal_strlit("ShowIcon");
    reveal_strlit("ShowOutline");
    reveal_strlit("VaryColor");
    reveal_strlit("UseHoverAccent");
    assert("ButtonGradient"@.take(14)[0] != "ShowBackground"@[0]);
    assert("ButtonGradient"@.take(13)[0] != "ShowCloseIcon"@[0]);
    assert("ButtonGradient"@.take(8)[0] != "ShowIcon"@[0]);
    assert("ButtonGradient"@.take(11)[0] != "ShowOutline"@[0]);
    assert("ButtonGradient"@.take(9)[0] != "VaryColor"@[0]);
    assert("ButtonGradient"@.take(14)[0] != "UseHoverAccent"@[0]);
    assert("ButtonGradient"@[0] != "LockButtonColorsActiveInactive"@[0]);
    assert("ButtonGradient"@[6] != "ButtonColorsInactiveSameHoverPress"@[6]);
    assert(!in_button_colors("ButtonGradient"@));
    reveal_strlit("ActiveTitleBarOpacity");
    reveal_strlit("InactiveTitleBarOpacity");
    reveal_strlit("OpaqueMaximizedTitleBars");
    reveal_strlit("OverrideActiveTitleBarOpacity");
    reveal_strlit("OverrideInactiveTitleBarOpacity");
    reveal_strlit("ApplyOpacityToHeader");
    assert("ButtonGradient"@[0] != "ActiveTitleBarOpacity"@[0]);
    assert("ButtonGradient"@[0] != "InactiveTitleBarOpacity"@[0]);
    assert("ButtonGradient"@[0] != "OpaqueMaximizedTitleBars"@[0]);
    assert("ButtonGradient"@[0] != "OverrideActiveTitleBarOpacity"@[0]);
    assert("ButtonGradient"@[0] != "OverrideInactiveTitleBarOpacity"@[0]);
    assert("ButtonGradient"@[0] != "ApplyOpacityToHeader"@[0]);
    assert(!in_title_bar_opacity("ButtonGradient"@));
    reveal_strlit("TitleBarTopMargin");
    reveal_strlit("TitleBarBottomMargin");
    reveal_strlit("TitleBarLeftMargin");
    reveal_strlit("TitleBarRightMargin");
    reveal_strlit("PercentMaximizedTopBottomMargins");
    reveal_strlit("LockTitleBar");
    assert("ButtonGradient"@.take(12)[0] != "LockTitleBar"@[0]);
    assert("ButtonGradient"@[0] != "TitleBarTopMargin"@[0]);
    assert("ButtonGradient"@[0] != "TitleBarBottomMargin"@[0]);
    assert("ButtonGradient"@[0] != "TitleBarLeftMargin"@[0]);
    assert("ButtonGradient"@[0] != "TitleBarRightMargin"@[0]);
    assert("ButtonGradient"@[0] != "PercentMaximizedTopBottomMargins"@[0]);
    assert(!in_title_bar_spacing("ButtonGradient"@));
    reveal_strlit("WindowOutlineStyle");
    reveal_strlit("WindowOutlineCustomColor");
    reveal_strlit("WindowOutlineOverlap");
    reveal_strlit("LockWindowOutline");
    reveal_strlit("WindowOutlineAccentColor");
    reveal_strlit("WindowOutlineAccentWithContrast");
    reveal_strlit("WindowOutlineContrastOpacity");
    reveal_strlit("WindowOutlineCustomWithContrast");
    reveal_strlit("WindowOutlineShadowColorOpacity");
    reveal_strlit("WindowOutlineSnapToWholePixel");
    reveal_strlit("WindowOutlineThickness");
    assert("ButtonGradient"@[0] != "WindowOutlineOverlap"@[0]);
    assert("ButtonGradient"@[0] != "WindowOutlineShadowColorOpacity"@[0]);
    assert("ButtonGradient"@[0] != "WindowOutlineSnapToWholePixel"@[0]);
    assert("ButtonGradient"@[0] != "WindowOutlineThickness"@[0]);
    assert(!in_window_outline_style("ButtonGradient"@));
    reveal_strlit("ButtonGradient");
    reveal_strlit("ScrollBarSeparator");
    reveal_strlit("DrawBackgroundGradient");
    assert(in_style("ButtonGradient"@));
}

proof fn lemma_section_for_scroll_bar_separator()
    ensures
        section_for("ScrollBarSeparator"@) == "Style"@,
{
    reveal_strlit("ScrollBarSeparator");
    reveal_strlit("ShadowColor");
    reveal_strlit("ShadowSize");
    reveal_strlit("ShadowStrength");
    assert("ScrollBarSeparator"@[1] != "ShadowColor"@[1]);
    assert("ScrollBarSeparator"@[1] != "ShadowSize"@[1]);
    assert("ScrollBarSeparator"@[1] != "ShadowStrength"@[1]);
    assert(!in_shadow_style("ScrollBarSeparator"@));
    reveal_strlit("ButtonBackgroundColors");
    reveal_strlit("ButtonBackgroundOpacity");
    reveal_strlit("LockButtonColorsActiveInactive");
    reveal_strlit("ButtonColorsInactiveSameHoverPress");
    reveal_strlit("ButtonIconColors");
    reveal_strlit("ButtonIconOpacity");
    reveal_strlit("ButtonOverrideColors");
    reveal_strlit("CloseButtonIconColor");
    reveal_strlit("CloseButtonCustomIconColor");
    reveal_strlit("MaximizeButtonIconColor");
    reveal_strlit("MaximizeButtonCustomIconColor");
    reveal_strlit("MinimizeButtonIconColor");
    reveal_strlit("MinimizeButtonCustomIconColor");
    reveal_strlit("NegativeCloseBackground");
    reveal_strlit("ShowBackground");
    reveal_strlit("ShowCloseBackground");
    reveal_strlit("ShowCloseIcon");
    reveal_strlit("ShowCloseOutline");
    reveal_strlit("ShowIcon");
    reveal_strlit("ShowOutline");
    reveal_strlit("VaryColor");
    reveal_strlit("UseHoverAccent");
    assert("ScrollBarSeparator"@.take(16)[0] != "ButtonIconColors"@[0]);
    assert("ScrollBarSeparator"@.take(17)[0] != "ButtonIconOpacity"@[0]);
    assert("ScrollBarSeparator"@.take(14)[1] != "ShowBackground"@[1]);
    assert("ScrollBarSeparator"@.take(13)[1] != "ShowCloseIcon"@[1]);
    assert("ScrollBarSeparator"@.take(16)[1] != "ShowCloseOutline"@[1]);
    assert("ScrollBarSeparator"@.take(8)[1] != "ShowIcon"@[1]);
    assert("ScrollBarSeparator"@.take(11)[1] != "ShowOutline"@[1]);
    assert("ScrollBarSeparator"@.take(9)[0] != "VaryColor"@[0]);
    assert("ScrollBarSeparator"@.take(14)[0] != "UseHoverAccent"@[0]);
    assert("ScrollBarSeparator"@[0] != "LockButtonColorsActiveInactive"@[0]);
    assert("ScrollBarSeparator"@[0] != "ButtonColorsInactiveSameHoverPress"@[0]);
    assert(!in_button_colors("ScrollBarSeparator"@));
    reveal_strlit("ActiveTitleBarOpacity");
    reveal_strlit("InactiveTitleBarOpacity");
    reveal_strlit("OpaqueMaximizedTitleBars");
    reveal_strlit("OverrideActiveTitleBarOpacity");
    reveal_strlit("OverrideInactiveTitleBarOpacity");
    reveal_strlit("ApplyOpacityToHeader");
    assert("ScrollBarSeparator"@[0] != "ActiveTitleBarOpacity"@[0]);
    assert("ScrollBarSeparator"@[0] != "InactiveTitleBarOpacity"@[0]);
    assert("ScrollBarSeparator"@[0] != "OpaqueMaximizedTitleBars"@[0]);
    assert("ScrollBarSeparator"@[0] != "OverrideActiveTitleBarOpacity"@[0]);
    assert("ScrollBarSeparator"@[0] != "OverrideInactiveTitleBarOpacity"@[0]);
    assert("ScrollBarSeparator"@[0] != "ApplyOpacityToHeader"@[0]);
    assert(!in_title_bar_opacity("ScrollBarSeparator"@));
    reveal_strlit("TitleBarTopMargin");
    reveal_strlit("TitleBarBottomMargin");
    reveal_strlit("TitleBarLeftMargin");
    reveal_strlit("TitleBarRightMargin");
    reveal_strlit("PercentMaximizedTopBottomMargins");
    reveal_strlit("LockTitleBar");
    assert("ScrollBarSeparator"@[0] != "TitleBarLeftMargin"@[0]);
    assert("ScrollBarSeparator"@.take(12)[0] != "LockTitleBar"@[0]);
    assert("ScrollBarSeparator"@[0] != "TitleBarTopMargin"@[0]);
    assert("ScrollBarSeparator"@[0] != "TitleBarBottomMargin"@[0]);
    assert("ScrollBarSeparator"@[0] != "TitleBarLeftMargin"@[0]);
    assert("ScrollBarSeparator"@[0] != "TitleBarRightMargin"@[0]);
    assert("ScrollBarSeparator"@[0] != "PercentMaximizedTopBottomMargins"@[0]);
    assert(!in_title_bar_spacing("ScrollBarSeparator"@));
    reveal_strlit("WindowOutlineStyle");
    reveal_strlit("WindowOutlineCustomColor");
    reveal_strlit("WindowOutlineOverlap");
    reveal_strlit("LockWindowOutline");
    reveal_strlit("WindowOutlineAccentColor");
    reveal_strlit("WindowOutlineAccentWithContrast");
    reveal_strlit("WindowOutlineContrastOpacity");
    reveal_strlit("WindowOutlineCustomWithContrast");
    reveal_strlit("WindowOutlineShadowColorOpacity");
    reveal_strlit("WindowOutlineSnapToWholePixel");
    reveal_strlit("WindowOutlineThickness");
    assert("ScrollBarSeparator"@.take(18)[0] != "WindowOutlineStyle"@[0]);
    assert("ScrollBarSeparator"@.take(17)[0] != "LockWindowOutline"@[0]);
    assert("ScrollBarSeparator"@[0] != "WindowOutlineOverlap"@[0]);
    assert("ScrollBarSeparator"@[0] != "WindowOutlineShadowColorOpacity"@[0]);
    assert("ScrollBarSeparator"@[0] != "WindowOutlineSnapToWholePixel"@[0]);
    assert("ScrollBarSeparator"@[0] != "WindowOutlineThickness"@[0]);
    assert(!in_window_outline_style("ScrollBarSeparator"@));
    reveal_strlit("ButtonGradient");
    reveal_strlit("ScrollBarSeparator");
    reveal_strlit("DrawBackgroundGradient");
    assert(in_style("ScrollBarSeparator"@));
}

proof fn lemma_section_for_draw_background_gradient()
    ensures
        section_for("DrawBackgroundGradient"@) == "Style"@,
{
    reveal_strlit("DrawBackgroundGradient");
    reveal_strlit("ShadowColor");
    reveal_strlit("ShadowSize");
    reveal_strlit("ShadowStrength");
    assert("DrawBackgroundGradient"@[0] != "ShadowColor"@[0]);
    assert("DrawBackgroundGradient"@[0] != "ShadowSize"@[0]);
    assert("DrawBackgroundGradient"@[0] != "ShadowStrength"@[0]);
    assert(!in_shadow_style("DrawBackgroundGradient"@));
    reveal_strlit("ButtonBackgroundColors");
    reveal_strlit("ButtonBackgroundOpacity");
    reveal_strlit("LockButtonColorsActiveInactive");
    reveal_strlit("ButtonColorsInactiveSameHoverPress");
    reveal_strlit("ButtonIconColors");
    reveal_strlit("ButtonIconOpacity");
    reveal_strlit("ButtonOverrideColors");
    reveal_strlit("CloseButtonIconColor");
    reveal_strlit("CloseButtonCustomIconColor");
    reveal_strlit("MaximizeButtonIconColor");
    reveal_strlit("MaximizeButtonCustomIconColor");
    reveal_strlit("MinimizeButtonIconColor");
    reveal_strlit("MinimizeButtonCustomIconColor");
    reveal_strlit("NegativeCloseBackground");
    reveal_strlit("ShowBackground");
    reveal_strlit("ShowCloseBackground");
    reveal_strlit("ShowCloseIcon");
    reveal_strlit("ShowCloseOutline");
    reveal_strlit("ShowIcon");
    reveal_strlit("ShowOutline");
    reveal_strlit("VaryColor");
    reveal_strlit("UseHoverAccent");
    assert("DrawBackgroundGradient"@.take(22)[0] != "ButtonBackgroundColors"@[0]);
    assert("DrawBackgroundGradient"@.take(16)[0] != "ButtonIconColors"@[0]);
    assert("DrawBackgroundGradient"@.take(17)[0] != "ButtonIconOpacity"@[0]);
    assert("DrawBackgroundGradient"@.take(20)[0] != "ButtonOverrideColors"@[0]);
    assert("DrawBackgroundGradient"@.take(20)[0] != "CloseButtonIconColor"@[0]);
    assert("DrawBackgroundGradient"@.take(14)[0] != "ShowBackground"@[0]);
    assert("DrawBackgroundGradient"@.take(19)[0] != "ShowCloseBackground"@[0]);
    assert("DrawBackgroundGradient"@.take(13)[0] != "ShowCloseIcon"@[0]);
    assert("DrawBackgroundGradient"@.take(16)[0] != "ShowCloseOutline"@[0]);
    assert("DrawBackgroundGradient"@.take(8)[0] != "ShowIcon"@[0]);
    assert("DrawBackgroundGradient"@.take(11)[0] != "ShowOutline"@[0]);
    assert("DrawBackgroundGradient"@.take(9)[0] != "VaryColor"@[0]);
    assert("DrawBackgroundGradient"@.take(14)[0] != "UseHoverAccent"@[0]);
    assert("DrawBackgroundGradient"@[0] != "LockButtonColorsActiveInactive"@[0]);
    assert("DrawBackgroundGradient"@[0] != "ButtonColorsInactiveSameHoverPress"@[0]);
    assert(!in_button_colors("DrawBackgroundGradient"@));
    reveal_strlit("ActiveTitleBarOpacity");
    reveal_strlit("InactiveTitleBarOpacity");
    reveal_strlit("OpaqueMaximizedTitleBars");
    reveal_strlit("OverrideActiveTitleBarOpacity");
    reveal_strlit("OverrideInactiveTitleBarOpacity");
    reveal_strlit("ApplyOpacityToHeader");
    assert("DrawBackgroundGradient"@[0] != "ActiveTitleBarOpacity"@[0]);
    assert("DrawBackgroundGradient"@[0] != "InactiveTitleBarOpacity"@[0]);
    assert("DrawBackgroundGradient"@[0] != "OpaqueMaximizedTitleBars"@[0]);
    assert("DrawBackgroundGradient"@[0] != "OverrideActiveTitleBarOpacity"@[0]);
    assert("DrawBackgroundGradient"@[0] != "OverrideInactiveTitleBarOpacity"@[0]);
    assert("DrawBackgroundGradient"@[0] != "ApplyOpacityToHeader"@[0]);
    assert(!in_title_bar_opacity("DrawBackgroundGradient"@));
    reveal_strlit("TitleBarTopMargin");
    reveal_strlit("TitleBarBottomMargin");
    reveal_strlit("TitleBarLeftMargin");
    reveal_strlit("TitleBarRightMargin");
    reveal_strlit("PercentMaximizedTopBottomMargins");
    reveal_strlit("LockTitleBar");
    assert("DrawBackgroundGradient"@.take(12)[0] != "LockTitleBar"@[0]);
    assert("DrawBackgroundGradient"@[0] != "TitleBarTopMargin"@[0]);
    assert("DrawBackgroundGradient"@[0] != "TitleBarBottomMargin"@[0]);
    assert("DrawBackgroundGradient"@[0] != "TitleBarLeftMargin"@[0]);
    assert("DrawBackgroundGradient"@[0] != "TitleBarRightMargin"@[0]);
    assert("DrawBackgroundGradient"@[0] != "PercentMaximizedTopBottomMargins"@[0]);
    assert(!in_title_bar_spacing("DrawBackgroundGradient"@));
    reveal_strlit("WindowOutlineStyle");
    reveal_strlit("WindowOutlineCustomColor");
    reveal_strlit("WindowOutlineOverlap");
    reveal_strlit("LockWindowOutline");
    reveal_strlit("WindowOutlineAccentColor");
    reveal_strlit("WindowOutlineAccentWithContrast");
    reveal_strlit("WindowOutlineContrastOpacity");
    reveal_strlit("WindowOutlineCustomWithContrast");
    reveal_strlit("WindowOutlineShadowColorOpacity");
    reveal_strlit("WindowOutlineSnapToWholePixel");
    reveal_strlit("WindowOutlineThickness");
    assert("DrawBackgroundGradient"@.take(18)[0] != "WindowOutlineStyle"@[0]);
    assert("DrawBackgroundGradient"@.take(17)[0] != "LockWindowOutline"@[0]);
    assert("DrawBackgroundGradient"@[0] != "WindowOutlineThickness"@[0]);
    assert("DrawBackgroundGradient"@[0] != "WindowOutlineOverlap"@[0]);
    assert("DrawBackgroundGradient"@[0] != "WindowOutlineShadowColorOpacity"@[0]);
    assert("DrawBackgroundGradient"@[0] != "WindowOutlineSnapToWholePixel"@[0]);
    assert("DrawBackgroundGradient"@[0] != "WindowOutlineThickness"@[0]);
    assert(!in_window_outline_style("DrawBackgroundGradient"@));
    reveal_strlit("ButtonGradient");
    reveal_strlit("ScrollBarSeparator");
    reveal_strlit("DrawBackgroundGradient");
    assert(in_style("DrawBackgroundGradient"@));
}

proof fn lemma_section_for_button_shape()
    ensures
        section_for("ButtonShape"@) == "Windeco"@,
{
    reveal_strlit("ButtonShape");
    reveal_strlit("ShadowColor");
    reveal_strlit("ShadowSize");
    reveal_strlit("ShadowStrength");
    assert("ButtonShape"@[0] != "ShadowColor"@[0]);
    assert("ButtonShape"@[0] != "ShadowColor"@[0]);
    assert("ButtonShape"@[0] != "ShadowSize"@[0]);
    assert("ButtonShape"@[0] != "ShadowStrength"@[0]);
    assert(!in_shadow_style("ButtonShape"@));
    reveal_strlit("ButtonBackgroundColors");
    reveal_strlit("ButtonBackgroundOpacity");
    reveal_strlit("LockButtonColorsActiveInactive");
    reveal_strlit("ButtonColorsInactiveSameHoverPress");
    reveal_strlit("ButtonIconColors");
    reveal_strlit("ButtonIconOpacity");
    reveal_strlit("ButtonOverrideColors");
    reveal_strlit("CloseButtonIconColor");
    reveal_strlit("CloseButtonCustomIconColor");
    reveal_strlit("MaximizeButtonIconColor");
    reveal_strlit("MaximizeButtonCustomIconColor");
    reveal_strlit("MinimizeButtonIconColor");
    reveal_strlit("MinimizeButtonCustomIconColor");
    reveal_strlit("NegativeCloseBackground");
    reveal_strlit("ShowBackground");
    reveal_strlit("ShowCloseBackground");
    reveal_strlit("ShowCloseIcon");
    reveal_strlit("ShowCloseOutline");
    reveal_strlit("ShowIcon");
    reveal_strlit("ShowOutline");
    reveal_strlit("VaryColor");
    reveal_strlit("UseHoverAccent");
    assert("ButtonShape"@.take(8)[0] != "ShowIcon"@[0]);
    assert("ButtonShape"@.take(11)[0] != "ShowOutline"@[0]);
    assert("ButtonShape"@.take(9)[0] != "VaryColor"@[0]);
    assert("ButtonShape"@[0] != "LockButtonColorsActiveInactive"@[0]);
    assert("ButtonShape"@[6] != "ButtonColorsInactiveSameHoverPress"@[6]);
    assert(!in_button_colors("ButtonShape"@));
    reveal_strlit("ActiveTitleBarOpacity");
    reveal_strlit("InactiveTitleBarOpacity");
    reveal_strlit("OpaqueMaximizedTitleBars");
    reveal_strlit("OverrideActiveTitleBarOpacity");
    reveal_strlit("OverrideInactiveTitleBarOpacity");
    reveal_strlit("ApplyOpacityToHeader");
    assert("ButtonShape"@[0] != "ActiveTitleBarOpacity"@[0]);
    assert("ButtonShape"@[0] != "InactiveTitleBarOpacity"@[0]);
    assert("ButtonShape"@[0] != "OpaqueMaximizedTitleBars"@[0]);
    assert("ButtonShape"@[0] != "OverrideActiveTitleBarOpacity"@[0]);
    assert("ButtonShape"@[0] != "OverrideInactiveTitleBarOpacity"@[0]);
    assert("ButtonShape"@[0] != "ApplyOpacityToHeader"@[0]);
    assert(!in_title_bar_opacity("ButtonShape"@));
    reveal_strlit("TitleBarTopMargin");
    reveal_strlit("TitleBarBottomMargin");
    reveal_strlit("TitleBarLeftMargin");
    reveal_strlit("TitleBarRightMargin");
    reveal_strlit("PercentMaximizedTopBottomMargins");
    reveal_strlit("LockTitleBar");
    assert("ButtonShape"@[0] != "TitleBarTopMargin"@[0]);
    assert("ButtonShape"@[0] != "TitleBarBottomMargin"@[0]);
    assert("ButtonShape"@[0] != "TitleBarLeftMargin"@[0]);
    assert("ButtonShape"@[0] != "TitleBarRightMargin"@[0]);
    assert("ButtonShape"@[0] != "PercentMaximizedTopBottomMargins"@[0]);
    assert(!in_title_bar_spacing("ButtonShape"@));
    reveal_strlit("WindowOutlineStyle");
    reveal_strlit("WindowOutlineCustomColor");
    reveal_strlit("WindowOutlineOverlap");
    reveal_strlit("LockWindowOutline");
    reveal_strlit("WindowOutlineAccentColor");
    reveal_strlit("WindowOutlineAccentWithContrast");
    reveal_strlit("WindowOutlineContrastOpacity");
    reveal_strlit("WindowOutlineCustomWithContrast");
    reveal_strlit("WindowOutlineShadowColorOpacity");
    reveal_strlit("WindowOutlineSnapToWholePixel");
    reveal_strlit("WindowOutlineThickness");
    assert("ButtonShape"@[0] != "WindowOutlineOverlap"@[0]);
    assert("ButtonShape"@[0] != "WindowOutlineShadowColorOpacity"@[0]);
    assert("ButtonShape"@[0] != "WindowOutlineSnapToWholePixel"@[0]);
    assert("ButtonShape"@[0] != "WindowOutlineThickness"@[0]);
    assert(!in_window_outline_style("ButtonShape"@));
    reveal_strlit("ButtonGradient");
    reveal_strlit("ScrollBarSeparator");
    reveal_strlit("DrawBackgroundGradient");
    assert("ButtonShape"@[6] != "ButtonGradient"@[6]);
    assert("ButtonShape"@[0] != "ScrollBarSeparator"@[0]);
    assert("ButtonShape"@[0] != "DrawBackgroundGradient"@[0]);
    assert(!in_style("ButtonShape"@));
}

proof fn lemma_section_for_button_icon_style()
    ensures
        section_for("ButtonIconStyle"@) == "Windeco"@,
{
    reveal_strlit("ButtonIconStyle");
    reveal_strlit("ShadowColor");
    reveal_strlit("ShadowSize");
    reveal_strlit("ShadowStrength");
    assert("ButtonIconStyle"@[0] != "ShadowColor"@[0]);
    assert("ButtonIconStyle"@[0] != "ShadowSize"@[0]);
    assert("ButtonIconStyle"@[0] != "ShadowStrength"@[0]);
    assert(!in_shadow_style("ButtonIconStyle"@));
    reveal_strlit("ButtonBackgroundColors");
    reveal_strlit("ButtonBackgroundOpacity");
    reveal_strlit("LockButtonColorsActiveInactive");
    reveal_strlit("ButtonColorsInactiveSameHoverPress");
    reveal_strlit("ButtonIconColors");
    reveal_strlit("ButtonIconOpacity");
    reveal_strlit("ButtonOverrideColors");
    reveal_strlit("CloseButtonIconColor");
    reveal_strlit("CloseButtonCustomIconColor");
    reveal_strlit("MaximizeButtonIconColor");
    reveal_strlit("MaximizeButtonCustomIconColor");
    reveal_strlit("MinimizeButtonIconColor");
    reveal_strlit("MinimizeButtonCustomIconColor");
    reveal_strlit("NegativeCloseBackground");
    reveal_strlit("ShowBackground");
    reveal_strlit("ShowCloseBackground");
    reveal_strlit("ShowCloseIcon");
    reveal_strlit("ShowCloseOutline");
    reveal_strlit("ShowIcon");
    reveal_strlit("ShowOutline");
    reveal_strlit("VaryColor");
    reveal_strlit("UseHoverAccent");
    assert("ButtonIconStyle"@.take(14)[0] != "ShowBackground"@[0]);
    assert("ButtonIconStyle"@.take(13)[0] != "ShowCloseIcon"@[0]);
    assert("ButtonIconStyle"@.take(8)[0] != "ShowIcon"@[0]);
    assert("ButtonIconStyle"@.take(11)[0] != "ShowOutline"@[0]);
    assert("ButtonIconStyle"@.take(9)[0] != "VaryColor"@[0]);
    assert("ButtonIconStyle"@.take(14)[0] != "UseHoverAccent"@[0]);
    assert("ButtonIconStyle"@[0] != "LockButtonColorsActiveInactive"@[0]);
    assert("ButtonIconStyle"@[6] != "ButtonColorsInactiveSameHoverPress"@[6]);
    assert(!in_button_colors("ButtonIconStyle"@));
    reveal_strlit("ActiveTitleBarOpacity");
    reveal_strlit("InactiveTitleBarOpacity");
    reveal_strlit("OpaqueMaximizedTitleBars");
    reveal_strlit("OverrideActiveTitleBarOpacity");
    reveal_strlit("OverrideInactiveTitleBarOpacity");
    reveal_strlit("ApplyOpacityToHeader");
    assert("ButtonIconStyle"@[0] != "ActiveTitleBarOpacity"@[0]);
    assert("ButtonIconStyle"@[0] != "InactiveTitleBarOpacity"@[0]);
    assert("ButtonIconStyle"@[0] != "OpaqueMaximizedTitleBars"@[0]);
    assert("ButtonIconStyle"@[0] != "OverrideActiveTitleBarOpacity"@[0]);
    assert("ButtonIconStyle"@[0] != "OverrideInactiveTitleBarOpacity"@[0]);
    assert("ButtonIconStyle"@[0] != "ApplyOpacityToHeader"@[0]);
    assert(!in_title_bar_opacity("ButtonIconStyle"@));
    reveal_strlit("TitleBarTopMargin");
    reveal_strlit("TitleBarBottomMargin");
    reveal_strlit("TitleBarLeftMargin");
    reveal_strlit("TitleBarRightMargin");
    reveal_strlit("PercentMaximizedTopBottomMargins");
    reveal_strlit("LockTitleBar");
    assert("ButtonIconStyle"@.take(12)[0] != "LockTitleBar"@[0]);
    assert("ButtonIconStyle"@[0] != "TitleBarTopMargin"@[0]);
    assert("ButtonIconStyle"@[0] != "TitleBarBottomMargin"@[0]);
    assert("ButtonIconStyle"@[0] != "TitleBarLeftMargin"@[0]);
    assert("ButtonIconStyle"@[0] != "TitleBarRightMargin"@[0]);
    assert("ButtonIconStyle"@[0] != "PercentMaximizedTopBottomMargins"@[0]);
    assert(!in_title_bar_spacing("ButtonIconStyle"@));
    reveal_strlit("WindowOutlineStyle");
    reveal_strlit("WindowOutlineCustomColor");
    reveal_strlit("WindowOutlineOverlap");
    reveal_strlit("LockWindowOutline");
    reveal_strlit("WindowOutlineAccentColor");
    reveal_strlit("WindowOutlineAccentWithContrast");
    reveal_strlit("WindowOutlineContrastOpacity");
    reveal_strlit("WindowOutlineCustomWithContrast");
    reveal_strlit("WindowOutlineShadowColorOpacity");
    reveal_strlit("WindowOutlineSnapToWholePixel");
    reveal_strlit("WindowOutlineThickness");
    assert("ButtonIconStyle"@[0] != "WindowOutlineOverlap"@[0]);
    assert("ButtonIconStyle"@[0] != "WindowOutlineShadowColorOpacity"@[0]);
    assert("ButtonIconStyle"@[0] != "WindowOutlineSnapToWholePixel"@[0]);
    assert("ButtonIconStyle"@[0] != "WindowOutlineThickness"@[0]);
    assert(!in_window_outline_style("ButtonIconStyle"@));
    reveal_strlit("ButtonGradient");
    reveal_strlit("ScrollBarSeparator");
    reveal_strlit("DrawBackgroundGradient");
    assert("ButtonIconStyle"@[6] != "ButtonGradient"@[6]);
    assert("ButtonIconStyle"@[0] != "ScrollBarSeparator"@[0]);
    assert("ButtonIconStyle"@[0] != "DrawBackgroundGradient"@[0]);
    assert(!in_style("ButtonIconStyle"@));
}

proof fn lemma_section_for_animations_speed_relative_system()
    ensures
        section_for("AnimationsSpeedRelativeSystem"@) == "Windeco"@,
{
    reveal_strlit("AnimationsSpeedRelativeSystem");
    reveal_strlit("ShadowColor");
    reveal_strlit("ShadowSize");
    reveal_strlit("ShadowStrength");
    assert("AnimationsSpeedRelativeSystem"@[0] != "ShadowColor"@[0]);
    assert("AnimationsSpeedRelativeSystem"@[0] != "ShadowSize"@[0]);
    assert("AnimationsSpeedRelativeSystem"@[0] != "ShadowStrength"@[0]);
    assert(!in_shadow_style("AnimationsSpeedRelativeSystem"@));
    reveal_strlit("ButtonBackgroundColors");
    reveal_strlit("ButtonBackgroundOpacity");
    reveal_strlit("LockButtonColorsActiveInactive");
    reveal_strlit("ButtonColorsInactiveSameHoverPress");
    reveal_strlit("ButtonIconColors");
    reveal_strlit("ButtonIconOpacity");
    reveal_strlit("ButtonOverrideColors");
    reveal_strlit("CloseButtonIconColor");
    reveal_strlit("CloseButtonCustomIconColor");
    reveal_strlit("MaximizeButtonIconColor");
    reveal_strlit("MaximizeButtonCustomIconColor");
    reveal_strlit("MinimizeButtonIconColor");
    reveal_strlit("MinimizeButtonCustomIconColor");
    reveal_strlit("NegativeCloseBackground");
    reveal_strlit("ShowBackground");
    reveal_strlit("ShowCloseBackground");
    reveal_strlit("ShowCloseIcon");
    reveal_strlit("ShowCloseOutline");
    reveal_strlit("ShowIcon");
    reveal_strlit("ShowOutline");
    reveal_strlit("VaryColor");
    reveal_strlit("UseHoverAccent");
    assert("AnimationsSpeedRelativeSystem"@.take(22)[0] != "ButtonBackgroundColors"@[0]);
    assert("AnimationsSpeedRelativeSystem"@.take(23)[0] != "ButtonBackgroundOpacity"@[0]);
    assert("AnimationsSpeedRelativeSystem"@.take(16)[0] != "ButtonIconColors"@[0]);
    assert("AnimationsSpeedRelativeSystem"@.take(17)[0] != "ButtonIconOpacity"@[0]);
    assert("AnimationsSpeedRelativeSystem"@.take(20)[0] != "ButtonOverrideColors"@[0]);
    assert("AnimationsSpeedRelativeSystem"@.take(20)[0] != "CloseButtonIconColor"@[0]);
    assert("AnimationsSpeedRelativeSystem"@.take(26)[0] != "CloseButtonCustomIconColor"@[0]);
    assert("AnimationsSpeedRelativeSystem"@.take(23)[0] != "MaximizeButtonIconColor"@[0]);
    assert("AnimationsSpeedRelativeSystem"@.take(29)[0] != "MaximizeButtonCustomIconColor"@[0]);
    assert("AnimationsSpeedRelativeSystem"@.take(23)[0] != "MinimizeButtonIconColor"@[0]);
    assert("AnimationsSpeedRelativeSystem"@.take(29)[0] != "MinimizeButtonCustomIconColor"@[0]);
    assert("AnimationsSpeedRelativeSystem"@.take(23)[0] != "NegativeCloseBackground"@[0]);
    assert("AnimationsSpeedRelativeSystem"@.take(14)[0] != "ShowBackground"@[0]);
    assert("AnimationsSpeedRelativeSystem"@.take(19)[0] != "ShowCloseBackground"@[0]);
    assert("AnimationsSpeedRelativeSystem"@.take(13)[0] != "ShowCloseIcon"@[0]);
    assert("AnimationsSpeedRelativeSystem"@.take(16)[0] != "ShowCloseOutline"@[0]);
    assert("AnimationsSpeedRelativeSystem"@.take(8)[0] != "ShowIcon"@[0]);
    assert("AnimationsSpeedRelativeSystem"@.take(11)[0] != "ShowOutline"@[0]);
    assert("AnimationsSpeedRelativeSystem"@.take(9)[0] != "VaryColor"@[0]);
    assert("AnimationsSpeedRelativeSystem"@.take(14)[0] != "UseHoverAccent"@[0]);
    assert("AnimationsSpeedRelativeSystem"@[0] != "LockButtonColorsActiveInactive"@[0]);
    assert("AnimationsSpeedRelativeSystem"@[0] != "ButtonColorsInactiveSameHoverPress"@[0]);
    assert(!in_button_colors("AnimationsSpeedRelativeSystem"@));
    reveal_strlit("ActiveTitleBarOpacity");
    reveal_strlit("InactiveTitleBarOpacity");
    reveal_strlit("OpaqueMaximizedTitleBars");
    reveal_strlit("OverrideActiveTitleBarOpacity");
    reveal_strlit("OverrideInactiveTitleBarOpacity");
    reveal_strlit("ApplyOpacityToHeader");
    assert("AnimationsSpeedRelativeSystem"@[0] != "OverrideActiveTitleBarOpacity"@[0]);
    assert("AnimationsSpeedRelativeSystem"@[1] != "ActiveTitleBarOpacity"@[1]);
    assert("AnimationsSpeedRelativeSystem"@[0] != "InactiveTitleBarOpacity"@[0]);
    assert("AnimationsSpeedRelativeSystem"@[0] != "OpaqueMaximizedTitleBars"@[0]);
    assert("AnimationsSpeedRelativeSystem"@[0] != "OverrideActiveTitleBarOpacity"@[0]);
    assert("AnimationsSpeedRelativeSystem"@[0] != "OverrideInactiveTitleBarOpacity"@[0]);
    assert("AnimationsSpeedRelativeSystem"@[1] != "ApplyOpacityToHeader"@[1]);
    assert(!in_title_bar_opacity("AnimationsSpeedRelativeSystem"@));
    reveal_strlit("TitleBarTopMargin");
    reveal_strlit("TitleBarBottomMargin");
    reveal_strlit("TitleBarLeftMargin");
    reveal_strlit("TitleBarRightMargin");
    reveal_strlit("PercentMaximizedTopBottomMargins");
    reveal_strlit("LockTitleBar");
    assert("AnimationsSpeedRelativeSystem"@.take(12)[0] != "LockTitleBar"@[0]);
    assert("AnimationsSpeedRelativeSystem"@[0] != "TitleBarTopMargin"@[0]);
    assert("AnimationsSpeedRelativeSystem"@[0] != "TitleBarBottomMargin"@[0]);
    assert("AnimationsSpeedRelativeSystem"@[0] != "TitleBarLeftMargin"@[0]);
    assert("AnimationsSpeedRelativeSystem"@[0] != "TitleBarRightMargin"@[0]);
    assert("AnimationsSpeedRelativeSystem"@[0] != "PercentMaximizedTopBottomMargins"@[0]);
    assert(!in_title_bar_spacing("AnimationsSpeedRelativeSystem"@));
    reveal_strlit("WindowOutlineStyle");
    reveal_strlit("WindowOutlineCustomColor");
    reveal_strlit("WindowOutlineOverlap");
    reveal_strlit("LockWindowOutline");
    reveal_strlit("WindowOutlineAccentColor");
    reveal_strlit("WindowOutlineAccentWithContrast");
    reveal_strlit("WindowOutlineContrastOpacity");
    reveal_strlit("WindowOutlineCustomWithContrast");
    reveal_strlit("WindowOutlineShadowColorOpacity");
    reveal_strlit("WindowOutlineSnapToWholePixel");
    reveal_strlit("WindowOutlineThickness");
    assert("AnimationsSpeedRelativeSystem"@.take(18)[0] != "WindowOutlineStyle"@[0]);
    assert("AnimationsSpeedRelativeSystem"@.take(24)[0] != "WindowOutlineCustomColor"@[0]);
    assert("AnimationsSpeedRelativeSystem"@.take(17)[0] != "LockWindowOutline"@[0]);
    assert("AnimationsSpeedRelativeSystem"@.take(24)[0] != "WindowOutlineAccentColor"@[0]);
    assert("AnimationsSpeedRelativeSystem"@.take(28)[0] != "WindowOutlineContrastOpacity"@[0]);
    assert("AnimationsSpeedRelativeSystem"@[0] != "WindowOutlineSnapToWholePixel"@[0]);
    assert("AnimationsSpeedRelativeSystem"@[0] != "WindowOutlineOverlap"@[0]);
    assert("AnimationsSpeedRelativeSystem"@[0] != "WindowOutlineShadowColorOpacity"@[0]);
    assert("AnimationsSpeedRelativeSystem"@[0] != "WindowOutlineSnapToWholePixel"@[0]);
    assert("AnimationsSpeedRelativeSystem"@[0] != "WindowOutlineThickness"@[0]);
    assert(!in_window_outline_style("AnimationsSpeedRelativeSystem"@));
    reveal_strlit("ButtonGradient");
    reveal_strlit("ScrollBarSeparator");
    reveal_strlit("DrawBackgroundGradient");
    assert("AnimationsSpeedRelativeSystem"@[0] != "ButtonGradient"@[0]);
    assert("AnimationsSpeedRelativeSystem"@[0] != "ScrollBarSeparator"@[0]);
    assert("AnimationsSpeedRelativeSystem"@[0] != "DrawBackgroundGradient"@[0]);
    assert(!in_style("AnimationsSpeedRelativeSystem"@));
}

proof fn lemma_section_for_blur_transparent_title_bars()
    ensures
        section_for("BlurTransparentTitleBars"@) == "Windeco"@,
{
    reveal_strlit("BlurTransparentTitleBars");
    reveal_strlit("ShadowColor");
    reveal_strlit("ShadowSize");
    reveal_strlit("ShadowStrength");
    assert("BlurTransparentTitleBars"@[0] != "ShadowColor"@[0]);
    assert("BlurTransparentTitleBars"@[0] != "ShadowSize"@[0]);
    assert("BlurTransparentTitleBars"@[0] != "ShadowStrength"@[0]);
    assert(!in_shadow_style("BlurTransparentTitleBars"@));
    reveal_strlit("ButtonBackgroundColors");
    reveal_strlit("ButtonBackgroundOpacity");
    reveal_strlit("LockButtonColorsActiveInactive");
    reveal_strlit("ButtonColorsInactiveSameHoverPress");
    reveal_strlit("ButtonIconColors");
    reveal_strlit("ButtonIconOpacity");
    reveal_strlit("ButtonOverrideColors");
    reveal_strlit("CloseButtonIconColor");
    reveal_strlit("CloseButtonCustomIconColor");
    reveal_strlit("MaximizeButtonIconColor");
    reveal_strlit("MaximizeButtonCustomIconColor");
    reveal_strlit("MinimizeButtonIconColor");
    reveal_strlit("MinimizeButtonCustomIconColor");
    reveal_strlit("NegativeCloseBackground");
    reveal_strlit("ShowBackground");
    reveal_strlit("ShowCloseBackground");
    reveal_strlit("ShowCloseIcon");
    reveal_strlit("ShowCloseOutline");
    reveal_strlit("ShowIcon");
    reveal_strlit("ShowOutline");
    reveal_strlit("VaryColor");
    reveal_strlit("UseHoverAccent");
    assert("BlurTransparentTitleBars"@.take(22)[1] != "ButtonBackgroundColors"@[1]);
    assert("BlurTransparentTitleBars"@.take(23)[1] != "ButtonBackgroundOpacity"@[1]);
    assert("BlurTransparentTitleBars"@.take(16)[1] != "ButtonIconColors"@[1]);
    assert("BlurTransparentTitleBars"@.take(17)[1] != "ButtonIconOpacity"@[1]);
    assert("BlurTransparentTitleBars"@.take(20)[1] != "ButtonOverrideColors"@[1]);
    assert("BlurTransparentTitleBars"@.take(20)[0] != "CloseButtonIconColor"@[0]);
    assert("BlurTransparentTitleBars"@.take(23)[0] != "MaximizeButtonIconColor"@[0]);
    assert("BlurTransparentTitleBars"@.take(23)[0] != "MinimizeButtonIconColor"@[0]);
    assert("BlurTransparentTitleBars"@.take(23)[0] != "NegativeCloseBackground"@[0]);
    assert("BlurTransparentTitleBars"@.take(14)[0] != "ShowBackground"@[0]);
    assert("BlurTransparentTitleBars"@.take(19)[0] != "ShowCloseBackground"@[0]);
    assert("BlurTransparentTitleBars"@.take(13)[0] != "ShowCloseIcon"@[0]);
    assert("BlurTransparentTitleBars"@.take(16)[0] != "ShowCloseOutline"@[0]);
    assert("BlurTransparentTitleBars"@.take(8)[0] != "ShowIcon"@[0]);
    assert("BlurTransparentTitleBars"@.take(11)[0] != "ShowOutline"@[0]);
    assert("BlurTransparentTitleBars"@.take(9)[0] != "VaryColor"@[0]);
    assert("BlurTransparentTitleBars"@.take(14)[0] != "UseHoverAccent"@[0]);
    assert("BlurTransparentTitleBars"@[0] != "LockButtonColorsActiveInactive"@[0]);
    assert("BlurTransparentTitleBars"@[1] != "ButtonColorsInactiveSameHoverPress"@[1]);
    assert(!in_button_colors("BlurTransparentTitleBars"@));
    reveal_strlit("ActiveTitleBarOpacity");
    reveal_strlit("InactiveTitleBarOpacity");
    reveal_strlit("OpaqueMaximizedTitleBars");
    reveal_strlit("OverrideActiveTitleBarOpacity");
    reveal_strlit("OverrideInactiveTitleBarOpacity");
    reveal_strlit("ApplyOpacityToHeader");
    assert("BlurTransparentTitleBars"@[0] != "OpaqueMaximizedTitleBars"@[0]);
    assert("BlurTransparentTitleBars"@[0] != "ActiveTitleBarOpacity"@[0]);
    assert("BlurTransparentTitleBars"@[0] != "InactiveTitleBarOpacity"@[0]);
    assert("BlurTransparentTitleBars"@[0] != "OpaqueMaximizedTitleBars"@[0]);
    assert("BlurTransparentTitleBars"@[0] != "OverrideActiveTitleBarOpacity"@[0]);
    assert("BlurTransparentTitleBars"@[0] != "OverrideInactiveTitleBarOpacity"@[0]);
    assert("BlurTransparentTitleBars"@[0] != "ApplyOpacityToHeader"@[0]);
    assert(!in_title_bar_opacity("BlurTransparentTitleBars"@));
    reveal_strlit("TitleBarTopMargin");
    reveal_strlit("TitleBarBottomMargin");
    reveal_strlit("TitleBarLeftMargin");
    reveal_strlit("TitleBarRightMargin");
    reveal_strlit("PercentMaximizedTopBottomMargins");
    reveal_strlit("LockTitleBar");
    assert("BlurTransparentTitleBars"@.take(12)[0] != "LockTitleBar"@[0]);
    assert("BlurTransparentTitleBars"@[0] != "TitleBarTopMargin"@[0]);
    assert("BlurTransparentTitleBars"@[0] != "TitleBarBottomMargin"@[0]);
    assert("BlurTransparentTitleBars"@[0] != "TitleBarLeftMargin"@[0]);
    assert("BlurTransparentTitleBars"@[0] != "TitleBarRightMargin"@[0]);
    assert("BlurTransparentTitleBars"@[0] != "PercentMaximizedTopBottomMargins"@[0]);
    assert(!in_title_bar_spacing("BlurTransparentTitleBars"@));
    reveal_strlit("WindowOutlineStyle");
    reveal_strlit("WindowOutlineCustomColor");
    reveal_strlit("WindowOutlineOverlap");
    reveal_strlit("LockWindowOutline");
    reveal_strlit("WindowOutlineAccentColor");
    reveal_strlit("WindowOutlineAccentWithContrast");
    reveal_strlit("WindowOutlineContrastOpacity");
    reveal_strlit("WindowOutlineCustomWithContrast");
    reveal_strlit("WindowOutlineShadowColorOpacity");
    reveal_strlit("WindowOutlineSnapToWholePixel");
    reveal_strlit("WindowOutlineThickness");
    assert("BlurTransparentTitleBars"@.take(18)[0] != "WindowOutlineStyle"@[0]);
    assert("BlurTransparentTitleBars"@.take(24)[0] != "WindowOutlineCustomColor"@[0]);
    assert("BlurTransparentTitleBars"@.take(17)[0] != "LockWindowOutline"@[0]);
    assert("BlurTransparentTitleBars"@.take(24)[0] != "WindowOutlineAccentColor"@[0]);
    assert("BlurTransparentTitleBars"@[0] != "WindowOutlineOverlap"@[0]);
    assert("BlurTransparentTitleBars"@[0] != "WindowOutlineShadowColorOpacity"@[0]);
    assert("BlurTransparentTitleBars"@[0] != "WindowOutlineSnapToWholePixel"@[0]);
    assert("BlurTransparentTitleBars"@[0] != "WindowOutlineThickness"@[0]);
    assert(!in_window_outline_style("BlurTransparentTitleBars"@));
    reveal_strlit("ButtonGradient");
    reveal_strlit("ScrollBarSeparator");
    reveal_strlit("DrawBackgroundGradient");
    assert("BlurTransparentTitleBars"@[1] != "ButtonGradient"@[1]);
    assert("BlurTransparentTitleBars"@[0] != "ScrollBarSeparator"@[0]);
    assert("BlurTransparentTitleBars"@[0] != "DrawBackgroundGradient"@[0]);
    assert(!in_style("BlurTransparentTitleBars"@));
}

proof fn lemma_section_for_colorize_window_outline_with_button()
    ensures
        section_for("ColorizeWindowOutlineWithButton"@) == "Windeco"@,
{
    reveal_strlit("ColorizeWindowOutlineWithButton");
    reveal_strlit("ShadowColor");
    reveal_strlit("ShadowSize");
    reveal_strlit("ShadowStrength");
    assert("ColorizeWindowOutlineWithButton"@[0] != "ShadowColor"@[0]);
    assert("ColorizeWindowOutlineWithButton"@[0] != "ShadowSize"@[0]);
    assert("ColorizeWindowOutlineWithButton"@[0] != "ShadowStrength"@[0]);
    assert(!in_shadow_style("ColorizeWindowOutlineWithButton"@));
    reveal_strlit("ButtonBackgroundColors");
    reveal_strlit("ButtonBackgroundOpacity");
    reveal_strlit("LockButtonColorsActiveInactive");
    reveal_strlit("ButtonColorsInactiveSameHoverPress");
    reveal_strlit("ButtonIconColors");
    reveal_strlit("ButtonIconOpacity");
    reveal_strlit("ButtonOverrideColors");
    reveal_strlit("CloseButtonIconColor");
    reveal_strlit("CloseButtonCustomIconColor");
    reveal_strlit("MaximizeButtonIconColor");
    reveal_strlit("MaximizeButtonCustomIconColor");
    reveal_strlit("MinimizeButtonIconColor");
    reveal_strlit("MinimizeButtonCustomIconColor");
    reveal_strlit("NegativeCloseBackground");
    reveal_strlit("ShowBackground");
    reveal_strlit("ShowCloseBackground");
    reveal_strlit("ShowCloseIcon");
    reveal_strlit("ShowCloseOutline");
    reveal_strlit("ShowIcon");
    reveal_strlit("ShowOutline");
    reveal_strlit("VaryColor");
    reveal_strlit("UseHoverAccent");
    assert("ColorizeWindowOutlineWithButton"@.take(22)[0] != "ButtonBackgroundColors"@[0]);
    assert("ColorizeWindowOutlineWithButton"@.take(23)[0] != "ButtonBackgroundOpacity"@[0]);
    assert("ColorizeWindowOutlineWithButton"@.take(16)[0] != "ButtonIconColors"@[0]);
    assert("ColorizeWindowOutlineWithButton"@.take(17)[0] != "ButtonIconOpacity"@[0]);
    assert("ColorizeWindowOutlineWithButton"@.take(20)[0] != "ButtonOverrideColors"@[0]);
    assert("ColorizeWindowOutlineWithButton"@.take(20)[1] != "CloseButtonIconColor"@[1]);
    assert("ColorizeWindowOutlineWithButton"@.take(26)[1] != "CloseButtonCustomIconColor"@[1]);
    assert("ColorizeWindowOutlineWithButton"@.take(23)[0] != "MaximizeButtonIconColor"@[0]);
    assert("ColorizeWindowOutlineWithButton"@.take(29)[0] != "MaximizeButtonCustomIconColor"@[0]);
    assert("ColorizeWindowOutlineWithButton"@.take(23)[0] != "MinimizeButtonIconColor"@[0]);
    assert("ColorizeWindowOutlineWithButton"@.take(29)[0] != "MinimizeButtonCustomIconColor"@[0]);
    assert("ColorizeWindowOutlineWithButton"@.take(23)[0] != "NegativeCloseBackground"@[0]);
    assert("ColorizeWindowOutlineWithButton"@.take(14)[0] != "ShowBackground"@[0]);
    assert("ColorizeWindowOutlineWithButton"@.take(19)[0] != "ShowCloseBackground"@[0]);
    assert("ColorizeWindowOutlineWithButton"@.take(13)[0] != "ShowCloseIcon"@[0]);
    assert("ColorizeWindowOutlineWithButton"@.take(16)[0] != "ShowCloseOutline"@[0]);
    assert("ColorizeWindowOutlineWithButton"@.take(8)[0] != "ShowIcon"@[0]);
    assert("ColorizeWindowOutlineWithButton"@.take(11)[0] != "ShowOutline"@[0]);
    assert("ColorizeWindowOutlineWithButton"@.take(9)[0] != "VaryColor"@[0]);
    assert("ColorizeWindowOutlineWithButton"@.take(14)[0] != "UseHoverAccent"@[0]);
    assert("ColorizeWindowOutlineWithButton"@[0] != "LockButtonColorsActiveInactive"@[0]);
    assert("ColorizeWindowOutlineWithButton"@[0] != "ButtonColorsInactiveSameHoverPress"@[0]);
    assert(!in_button_colors("ColorizeWindowOutlineWithButton"@));
    reveal_strlit("ActiveTitleBarOpacity");
    reveal_strlit("InactiveTitleBarOpacity");
    reveal_strlit("OpaqueMaximizedTitleBars");
    reveal_strlit("OverrideActiveTitleBarOpacity");
    reveal_strlit("OverrideInactiveTitleBarOpacity");
    reveal_strlit("ApplyOpacityToHeader");
    assert("ColorizeWindowOutlineWithButton"@[0] != "OverrideInactiveTitleBarOpacity"@[0]);
    assert("ColorizeWindowOutlineWithButton"@[0] != "ActiveTitleBarOpacity"@[0]);
    assert("ColorizeWindowOutlineWithButton"@[0] != "InactiveTitleBarOpacity"@[0]);
    assert("ColorizeWindowOutlineWithButton"@[0] != "OpaqueMaximizedTitleBars"@[0]);
    assert("ColorizeWindowOutlineWithButton"@[0] != "OverrideActiveTitleBarOpacity"@[0]);
    assert("ColorizeWindowOutlineWithButton"@[0] != "OverrideInactiveTitleBarOpacity"@[0]);
    assert("ColorizeWindowOutlineWithButton"@[0] != "ApplyOpacityToHeader"@[0]);
    assert(!in_title_bar_opacity("ColorizeWindowOutlineWithButton"@));
    reveal_strlit("TitleBarTopMargin");
    reveal_strlit("TitleBarBottomMargin");
    reveal_strlit("TitleBarLeftMargin");
    reveal_strlit("TitleBarRightMargin");
    reveal_strlit("PercentMaximizedTopBottomMargins");
    reveal_strlit("LockTitleBar");
    assert("ColorizeWindowOutlineWithButton"@.take(12)[0] != "LockTitleBar"@[0]);
    assert("ColorizeWindowOutlineWithButton"@[0] != "TitleBarTopMargin"@[0]);
    assert("ColorizeWindowOutlineWithButton"@[0] != "TitleBarBottomMargin"@[0]);
    assert("ColorizeWindowOutlineWithButton"@[0] != "TitleBarLeftMargin"@[0]);
    assert("ColorizeWindowOutlineWithButton"@[0] != "TitleBarRightMargin"@[0]);
    assert("ColorizeWindowOutlineWithButton"@[0] != "PercentMaximizedTopBottomMargins"@[0]);
    assert(!in_title_bar_spacing("ColorizeWindowOutlineWithButton"@));
    reveal_strlit("WindowOutlineStyle");
    reveal_strlit("WindowOutlineCustomColor");
    reveal_strlit("WindowOutlineOverlap");
    reveal_strlit("LockWindowOutline");
    reveal_strlit("WindowOutlineAccentColor");
    reveal_strlit("WindowOutlineAccentWithContrast");
    reveal_strlit("WindowOutlineContrastOpacity");
    reveal_strlit("WindowOutlineCustomWithContrast");
    reveal_strlit("WindowOutlineShadowColorOpacity");
    reveal_strlit("WindowOutlineSnapToWholePixel");
    reveal_strlit("WindowOutlineThickness");
    assert("ColorizeWindowOutlineWithButton"@.take(18)[0] != "WindowOutlineStyle"@[0]);
    assert("ColorizeWindowOutlineWithButton"@.take(24)[0] != "WindowOutlineCustomColor"@[0]);
    assert("ColorizeWindowOutlineWithButton"@.take(17)[0] != "LockWindowOutline"@[0]);
    assert("ColorizeWindowOutlineWithButton"@.take(24)[0] != "WindowOutlineAccentColor"@[0]);
    assert("ColorizeWindowOutlineWithButton"@.take(31)[0] != "WindowOutlineAccentWithContrast"@[0]);
    assert("ColorizeWindowOutlineWithButton"@.take(28)[0] != "WindowOutlineContrastOpacity"@[0]);
    assert("ColorizeWindowOutlineWithButton"@.take(31)[0] != "WindowOutlineCustomWithContrast"@[0]);
    assert("ColorizeWindowOutlineWithButton"@[0] != "WindowOutlineShadowColorOpacity"@[0]);
    assert("ColorizeWindowOutlineWithButton"@[0] != "WindowOutlineOverlap"@[0]);
    assert("ColorizeWindowOutlineWithButton"@[0] != "WindowOutlineShadowColorOpacity"@[0]);
    assert("ColorizeWindowOutlineWithButton"@[0] != "WindowOutlineSnapToWholePixel"@[0]);
    assert("ColorizeWindowOutlineWithButton"@[0] != "WindowOutlineThickness"@[0]);
    assert(!in_window_outline_style("ColorizeWindowOutlineWithButton"@));
    reveal_strlit("ButtonGradient");
    reveal_strlit("ScrollBarSeparator");
    reveal_strlit("DrawBackgroundGradient");
    assert("ColorizeWindowOutlineWithButton"@[0] != "ButtonGradient"@[0]);
    assert("ColorizeWindowOutlineWithButton"@[0] != "ScrollBarSeparator"@[0]);
    assert("ColorizeWindowOutlineWithButton"@[0] != "DrawBackgroundGradient"@[0]);
    assert(!in_style("ColorizeWindowOutlineWithButton"@));
}

proof fn lemma_section_for_draw_title_bar_separator()
    ensures
        section_for("DrawTitleBarSeparator"@) == "Windeco"@,
{
    reveal_strlit("DrawTitleBarSeparator");
    reveal_strlit("ShadowColor");
    reveal_strlit("ShadowSize");
    reveal_strlit("ShadowStrength");
    assert("DrawTitleBarSeparator"@[0] != "ShadowColor"@[0]);
    assert("DrawTitleBarSeparator"@[0] != "ShadowSize"@[0]);
    assert("DrawTitleBarSeparator"@[0] != "ShadowStrength"@[0]);
    assert(!in_shadow_style("DrawTitleBarSeparator"@));
    reveal_strlit("ButtonBackgroundColors");
    reveal_strlit("ButtonBackgroundOpacity");
    reveal_strlit("LockButtonColorsActiveInactive");
    reveal_strlit("ButtonColorsInactiveSameHoverPress");
    reveal_strlit("ButtonIconColors");
    reveal_strlit("ButtonIconOpacity");
    reveal_strlit("ButtonOverrideColors");
    reveal_strlit("CloseButtonIconColor");
    reveal_strlit("CloseButtonCustomIconColor");
    reveal_strlit("MaximizeButtonIconColor");
    reveal_strlit("MaximizeButtonCustomIconColor");
    reveal_strlit("MinimizeButtonIconColor");
    reveal_strlit("MinimizeButtonCustomIconColor");
    reveal_strlit("NegativeCloseBackground");
    reveal_strlit("ShowBackground");
    reveal_strlit("ShowCloseBackground");
    reveal_strlit("ShowCloseIcon");
    reveal_strlit("ShowCloseOutline");
    reveal_strlit("ShowIcon");
    reveal_strlit("ShowOutline");
    reveal_strlit("VaryColor");
    reveal_strlit("UseHoverAccent");
    assert("DrawTitleBarSeparator"@.take(16)[0] != "ButtonIconColors"@[0]);
    assert("DrawTitleBarSeparator"@.take(17)[0] != "ButtonIconOpacity"@[0]);
    assert("DrawTitleBarSeparator"@.take(20)[0] != "ButtonOverrideColors"@[0]);
    assert("DrawTitleBarSeparator"@.take(20)[0] != "CloseButtonIconColor"@[0]);
    assert("DrawTitleBarSeparator"@.take(14)[0] != "ShowBackground"@[0]);
    assert("DrawTitleBarSeparator"@.take(19)[0] != "ShowCloseBackground"@[0]);
    assert("DrawTitleBarSeparator"@.take(13)[0] != "ShowCloseIcon"@[0]);
    assert("DrawTitleBarSeparator"@.take(16)[0] != "ShowCloseOutline"@[0]);
    assert("DrawTitleBarSeparator"@.take(8)[0] != "ShowIcon"@[0]);
    assert("DrawTitleBarSeparator"@.take(11)[0] != "ShowOutline"@[0]);
    assert("DrawTitleBarSeparator"@.take(9)[0] != "VaryColor"@[0]);
    assert("DrawTitleBarSeparator"@.take(14)[0] != "UseHoverAccent"@[0]);
    assert("DrawTitleBarSeparator"@[0] != "LockButtonColorsActiveInactive"@[0]);
    assert("DrawTitleBarSeparator"@[0] != "ButtonColorsInactiveSameHoverPress"@[0]);
    assert(!in_button_colors("DrawTitleBarSeparator"@));
    reveal_strlit("ActiveTitleBarOpacity");
    reveal_strlit("InactiveTitleBarOpacity");
    reveal_strlit("OpaqueMaximizedTitleBars");
    reveal_strlit("OverrideActiveTitleBarOpacity");
    reveal_strlit("OverrideInactiveTitleBarOpacity");
    reveal_strlit("ApplyOpacityToHeader");
    assert("DrawTitleBarSeparator"@[0] != "ActiveTitleBarOpacity"@[0]);
    assert("DrawTitleBarSeparator"@[0] != "ActiveTitleBarOpacity"@[0]);
    assert("DrawTitleBarSeparator"@[0] != "InactiveTitleBarOpacity"@[0]);
    assert("DrawTitleBarSeparator"@[0] != "OpaqueMaximizedTitleBars"@[0]);
    assert("DrawTitleBarSeparator"@[0] != "OverrideActiveTitleBarOpacity"@[0]);
    assert("DrawTitleBarSeparator"@[0] != "OverrideInactiveTitleBarOpacity"@[0]);
    assert("DrawTitleBarSeparator"@[0] != "ApplyOpacityToHeader"@[0]);
    assert(!in_title_bar_opacity("DrawTitleBarSeparator"@));
    reveal_strlit("TitleBarTopMargin");
    reveal_strlit("TitleBarBottomMargin");
    reveal_strlit("TitleBarLeftMargin");
    reveal_strlit("TitleBarRightMargin");
    reveal_strlit("PercentMaximizedTopBottomMargins");
    reveal_strlit("LockTitleBar");
    assert("DrawTitleBarSeparator"@.take(12)[0] != "LockTitleBar"@[0]);
    assert("DrawTitleBarSeparator"@[0] != "TitleBarTopMargin"@[0]);
    assert("DrawTitleBarSeparator"@[0] != "TitleBarBottomMargin"@[0]);
    assert("DrawTitleBarSeparator"@[0] != "TitleBarLeftMargin"@[0]);
    assert("DrawTitleBarSeparator"@[0] != "TitleBarRightMargin"@[0]);
    assert("DrawTitleBarSeparator"@[0] != "PercentMaximizedTopBottomMargins"@[0]);
    assert(!in_title_bar_spacing("DrawTitleBarSeparator"@));
    reveal_strlit("WindowOutlineStyle");
    reveal_strlit("WindowOutlineCustomColor");
    reveal_strlit("WindowOutlineOverlap");
    reveal_strlit("LockWindowOutline");
    reveal_strlit("WindowOutlineAccentColor");
    reveal_strlit("WindowOutlineAccentWithContrast");
    reveal_strlit("WindowOutlineContrastOpacity");
    reveal_strlit("WindowOutlineCustomWithContrast");
    reveal_strlit("WindowOutlineShadowColorOpacity");
    reveal_strlit("WindowOutlineSnapToWholePixel");
    reveal_strlit("WindowOutlineThickness");
    assert("DrawTitleBarSeparator"@.take(18)[0] != "WindowOutlineStyle"@[0]);
    assert("DrawTitleBarSeparator"@.take(17)[0] != "LockWindowOutline"@[0]);
    assert("DrawTitleBarSeparator"@[0] != "WindowOutlineOverlap"@[0]);
    assert("DrawTitleBarSeparator"@[0] != "WindowOutlineShadowColorOpacity"@[0]);
    assert("DrawTitleBarSeparator"@[0] != "WindowOutlineSnapToWholePixel"@[0]);
    assert("DrawTitleBarSeparator"@[0] != "WindowOutlineThickness"@[0]);
    assert(!in_window_outline_style("DrawTitleBarSeparator"@));
    reveal_strlit("ButtonGradient");
    reveal_strlit("ScrollBarSeparator");
    reveal_strlit("DrawBackgroundGradient");
    assert("DrawTitleBarSeparator"@[0] != "ButtonGradient"@[0]);
    assert("DrawTitleBarSeparator"@[0] != "ScrollBarSeparator"@[0]);
    assert("DrawTitleBarSeparator"@[4] != "DrawBackgroundGradient"@[4]);
    assert(!in_style("DrawTitleBarSeparator"@));
}

proof fn lemma_section_for_match_title_bar_to_application_color()
    ensures
        section_for("MatchTitleBarToApplicationColor"@) == "Windeco"@,
{
    reveal_strlit("MatchTitleBarToApplicationColor");
    reveal_strlit("ShadowColor");
    reveal_strlit("ShadowSize");
    reveal_strlit("ShadowStrength");
    assert("MatchTitleBarToApplicationColor"@[0] != "ShadowColor"@[0]);
    assert("MatchTitleBarToApplicationColor"@[0] != "ShadowSize"@[0]);
    assert("MatchTitleBarToApplicationColor"@[0] != "ShadowStrength"@[0]);
    assert(!in_shadow_style("MatchTitleBarToApplicationColor"@));
    reveal_strlit("ButtonBackgroundColors");
    reveal_strlit("ButtonBackgroundOpacity");
    reveal_strlit("LockButtonColorsActiveInactive");
    reveal_strlit("ButtonColorsInactiveSameHoverPress");
    reveal_strlit("ButtonIconColors");
    reveal_strlit("ButtonIconOpacity");
    reveal_strlit("ButtonOverrideColors");
    reveal_strlit("CloseButtonIconColor");
    reveal_strlit("CloseButtonCustomIconColor");
    reveal_strlit("MaximizeButtonIconColor");
    reveal_strlit("MaximizeButtonCustomIconColor");
    reveal_strlit("MinimizeButtonIconColor");
    reveal_strlit("MinimizeButtonCustomIconColor");
    reveal_strlit("NegativeCloseBackground");
    reveal_strlit("ShowBackground");
    reveal_strlit("ShowCloseBackground");
    reveal_strlit("ShowCloseIcon");
    reveal_strlit("ShowCloseOutline");
    reveal_strlit("ShowIcon");
    reveal_strlit("ShowOutline");
    reveal_strlit("VaryColor");
    reveal_strlit("UseHoverAccent");
    assert("MatchTitleBarToApplicationColor"@.take(22)[0] != "ButtonBackgroundColors"@[0]);
    assert("MatchTitleBarToApplicationColor"@.take(23)[0] != "ButtonBackgroundOpacity"@[0]);
    assert("MatchTitleBarToApplicationColor"@.take(16)[0] != "ButtonIconColors"@[0]);
    assert("MatchTitleBarToApplicationColor"@.take(17)[0] != "ButtonIconOpacity"@[0]);
    assert("MatchTitleBarToApplicationColor"@.take(20)[0] != "ButtonOverrideColors"@[0]);
    assert("MatchTitleBarToApplicationColor"@.take(20)[0] != "CloseButtonIconColor"@[0]);
    assert("MatchTitleBarToApplicationColor"@.take(26)[0] != "CloseButtonCustomIconColor"@[0]);
    assert("MatchTitleBarToApplicationColor"@.take(23)[2] != "MaximizeButtonIconColor"@[2]);
    assert("MatchTitleBarToApplicationColor"@.take(29)[2] != "MaximizeButtonCustomIconColor"@[2]);
    assert("MatchTitleBarToApplicationColor"@.take(23)[1] != "MinimizeButtonIconColor"@[1]);
    assert("MatchTitleBarToApplicationColor"@.take(29)[1] != "MinimizeButtonCustomIconColor"@[1]);
    assert("MatchTitleBarToApplicationColor"@.take(23)[0] != "NegativeCloseBackground"@[0]);
    assert("MatchTitleBarToApplicationColor"@.take(14)[0] != "ShowBackground"@[0]);
    assert("MatchTitleBarToApplicationColor"@.take(19)[0] != "ShowCloseBackground"@[0]);
    assert("MatchTitleBarToApplicationColor"@.take(13)[0] != "ShowCloseIcon"@[0]);
    assert("MatchTitleBarToApplicationColor"@.take(16)[0] != "ShowCloseOutline"@[0]);
    assert("MatchTitleBarToApplicationColor"@.take(8)[0] != "ShowIcon"@[0]);
    assert("MatchTitleBarToApplicationColor"@.take(11)[0] != "ShowOutline"@[0]);
    assert("MatchTitleBarToApplicationColor"@.take(9)[0] != "VaryColor"@[0]);
    assert("MatchTitleBarToApplicationColor"@.take(14)[0] != "UseHoverAccent"@[0]);
    assert("MatchTitleBarToApplicationColor"@[0] != "LockButtonColorsActiveInactive"@[0]);
    assert("MatchTitleBarToApplicationColor"@[0] != "ButtonColorsInactiveSameHoverPress"@[0]);
    assert(!in_button_colors("MatchTitleBarToApplicationColor"@));
    reveal_strlit("ActiveTitleBarOpacity");
    reveal_strlit("InactiveTitleBarOpacity");
    reveal_strlit("OpaqueMaximizedTitleBars");
    reveal_strlit("OverrideActiveTitleBarOpacity");
    reveal_strlit("OverrideInactiveTitleBarOpacity");
    reveal_strlit("ApplyOpacityToHeader");
    assert("MatchTitleBarToApplicationColor"@[0] != "OverrideInactiveTitleBarOpacity"@[0]);
    assert("MatchTitleBarToApplicationColor"@[0] != "ActiveTitleBarOpacity"@[0]);
    assert("MatchTitleBarToApplicationColor"@[0] != "InactiveTitleBarOpacity"@[0]);
    assert("MatchTitleBarToApplicationColor"@[0] != "OpaqueMaximizedTitleBars"@[0]);
    assert("MatchTitleBarToApplicationColor"@[0] != "OverrideActiveTitleBarOpacity"@[0]);
    assert("MatchTitleBarToApplicationColor"@[0] != "OverrideInactiveTitleBarOpacity"@[0]);
    assert("MatchTitleBarToApplicationColor"@[0] != "ApplyOpacityToHeader"@[0]);
    assert(!in_title_bar_opacity("MatchTitleBarToApplicationColor"@));
    reveal_strlit("TitleBarTopMargin");
    reveal_strlit("TitleBarBottomMargin");
    reveal_strlit("TitleBarLeftMargin");
    reveal_strlit("TitleBarRightMargin");
    reveal_strlit("PercentMaximizedTopBottomMargins");
    reveal_strlit("LockTitleBar");
    assert("MatchTitleBarToApplicationColor"@.take(12)[0] != "LockTitleBar"@[0]);
    assert("MatchTitleBarToApplicationColor"@[0] != "TitleBarTopMargin"@[0]);
    assert("MatchTitleBarToApplicationColor"@[0] != "TitleBarBottomMargin"@[0]);
    assert("MatchTitleBarToApplicationColor"@[0] != "TitleBarLeftMargin"@[0]);
    assert("MatchTitleBarToApplicationColor"@[0] != "TitleBarRightMargin"@[0]);
    assert("MatchTitleBarToApplicationColor"@[0] != "PercentMaximizedTopBottomMargins"@[0]);
    assert(!in_title_bar_spacing("MatchTitleBarToApplicationColor"@));
    reveal_strlit("WindowOutlineStyle");
    reveal_strlit("WindowOutlineCustomColor");
    reveal_strlit("WindowOutlineOverlap");
    reveal_strlit("LockWindowOutline");
    reveal_strlit("WindowOutlineAccentColor");
    reveal_strlit("WindowOutlineAccentWithContrast");
    reveal_strlit("WindowOutlineContrastOpacity");
    reveal_strlit("WindowOutlineCustomWithContrast");
    reveal_strlit("WindowOutlineShadowColorOpacity");
    reveal_strlit("WindowOutlineSnapToWholePixel");
    reveal_strlit("WindowOutlineThickness");
    assert("MatchTitleBarToApplicationColor"@.take(18)[0] != "WindowOutlineStyle"@[0]);
    assert("MatchTitleBarToApplicationColor"@.take(24)[0] != "WindowOutlineCustomColor"@[0]);
    assert("MatchTitleBarToApplicationColor"@.take(17)[0] != "LockWindowOutline"@[0]);
    assert("MatchTitleBarToApplicationColor"@.take(24)[0] != "WindowOutlineAccentColor"@[0]);
    assert("MatchTitleBarToApplicationColor"@.take(31)[0] != "WindowOutlineAccentWithContrast"@[0]);
    assert("MatchTitleBarToApplicationColor"@.take(28)[0] != "WindowOutlineContrastOpacity"@[0]);
    assert("MatchTitleBarToApplicationColor"@.take(31)[0] != "WindowOutlineCustomWithContrast"@[0]);
    assert("MatchTitleBarToApplicationColor"@[0] != "WindowOutlineShadowColorOpacity"@[0]);
    assert("MatchTitleBarToApplicationColor"@[0] != "WindowOutlineOverlap"@[0]);
    assert("MatchTitleBarToApplicationColor"@[0] != "WindowOutlineShadowColorOpacity"@[0]);
    assert("MatchTitleBarToApplicationColor"@[0] != "WindowOutlineSnapToWholePixel"@[0]);
    assert("MatchTitleBarToApplicationColor"@[0] != "WindowOutlineThickness"@[0]);
    assert(!in_window_outline_style("MatchTitleBarToApplicationColor"@));
    reveal_strlit("ButtonGradient");
    reveal_strlit("ScrollBarSeparator");
    reveal_strlit("DrawBackgroundGradient");
    assert("MatchTitleBarToApplicationColor"@[0] != "ButtonGradient"@[0]);
    assert("MatchTitleBarToApplicationColor"@[0] != "ScrollBarSeparator"@[0]);
    assert("MatchTitleBarToApplicationColor"@[0] != "DrawBackgroundGradient"@[0]);
    assert(!in_style("MatchTitleBarToApplicationColor"@));
}

proof fn lemma_section_for_window_corner_radius()
    ensures
        section_for("WindowCornerRadius"@) == "Windeco"@,
{
    reveal_strlit("WindowCornerRadius");
    reveal_strlit("ShadowColor");
    reveal_strlit("ShadowSize");
    reveal_strlit("ShadowStrength");
    assert("WindowCornerRadius"@[0] != "ShadowColor"@[0]);
    assert("WindowCornerRadius"@[0] != "ShadowSize"@[0]);
    assert("WindowCornerRadius"@[0] != "ShadowStrength"@[0]);
    assert(!in_shadow_style("WindowCornerRadius"@));
    reveal_strlit("ButtonBackgroundColors");
    reveal_strlit("ButtonBackgroundOpacity");
    reveal_strlit("LockButtonColorsActiveInactive");
    reveal_strlit("ButtonColorsInactiveSameHoverPress");
    reveal_strlit("ButtonIconColors");
    reveal_strlit("ButtonIconOpacity");
    reveal_strlit("ButtonOverrideColors");
    reveal_strlit("CloseButtonIconColor");
    reveal_strlit("CloseButtonCustomIconColor");
    reveal_strlit("MaximizeButtonIconColor");
    reveal_strlit("MaximizeButtonCustomIconColor");
    reveal_strlit("MinimizeButtonIconColor");
    reveal_strlit("MinimizeButtonCustomIconColor");
    reveal_strlit("NegativeCloseBackground");
    reveal_strlit("ShowBackground");
    reveal_strlit("ShowCloseBackground");
    reveal_strlit("ShowCloseIcon");
    reveal_strlit("ShowCloseOutline");
    reveal_strlit("ShowIcon");
    reveal_strlit("ShowOutline");
    reveal_strlit("VaryColor");
    reveal_strlit("UseHoverAccent");
    assert("WindowCornerRadius"@.take(16)[0] != "ButtonIconColors"@[0]);
    assert("WindowCornerRadius"@.take(17)[0] != "ButtonIconOpacity"@[0]);
    assert("WindowCornerRadius"@.take(14)[0] != "ShowBackground"@[0]);
    assert("WindowCornerRadius"@.take(13)[0] != "ShowCloseIcon"@[0]);
    assert("WindowCornerRadius"@.take(16)[0] != "ShowCloseOutline"@[0]);
    assert("WindowCornerRadius"@.take(8)[0] != "ShowIcon"@[0]);
    assert("WindowCornerRadius"@.take(11)[0] != "ShowOutline"@[0]);
    assert("WindowCornerRadius"@.take(9)[0] != "VaryColor"@[0]);
    assert("WindowCornerRadius"@.take(14)[0] != "UseHoverAccent"@[0]);
    assert("WindowCornerRadius"@[0] != "LockButtonColorsActiveInactive"@[0]);
    assert("WindowCornerRadius"@[0] != "ButtonColorsInactiveSameHoverPress"@[0]);
    assert(!in_button_colors("WindowCornerRadius"@));
    reveal_strlit("ActiveTitleBarOpacity");
    reveal_strlit("InactiveTitleBarOpacity");
    reveal_strlit("OpaqueMaximizedTitleBars");
    reveal_strlit("OverrideActiveTitleBarOpacity");
    reveal_strlit("OverrideInactiveTitleBarOpacity");
    reveal_strlit("ApplyOpacityToHeader");
    assert("WindowCornerRadius"@[0] != "ActiveTitleBarOpacity"@[0]);
    assert("WindowCornerRadius"@[0] != "InactiveTitleBarOpacity"@[0]);
    assert("WindowCornerRadius"@[0] != "OpaqueMaximizedTitleBars"@[0]);
    assert("WindowCornerRadius"@[0] != "OverrideActiveTitleBarOpacity"@[0]);
    assert("WindowCornerRadius"@[0] != "OverrideInactiveTitleBarOpacity"@[0]);
    assert("WindowCornerRadius"@[0] != "ApplyOpacityToHeader"@[0]);
    assert(!in_title_bar_opacity("WindowCornerRadius"@));
    reveal_strlit("TitleBarTopMargin");
    reveal_strlit("TitleBarBottomMargin");
    reveal_strlit("TitleBarLeftMargin");
    reveal_strlit("TitleBarRightMargin");
    reveal_strlit("PercentMaximizedTopBottomMargins");
    reveal_strlit("LockTitleBar");
    assert("WindowCornerRadius"@[0] != "TitleBarLeftMargin"@[0]);
    assert("WindowCornerRadius"@.take(12)[0] != "LockTitleBar"@[0]);
    assert("WindowCornerRadius"@[0] != "TitleBarTopMargin"@[0]);
    assert("WindowCornerRadius"@[0] != "TitleBarBottomMargin"@[0]);
    assert("WindowCornerRadius"@[0] != "TitleBarLeftMargin"@[0]);
    assert("WindowCornerRadius"@[0] != "TitleBarRightMargin"@[0]);
    assert("WindowCornerRadius"@[0] != "PercentMaximizedTopBottomMargins"@[0]);
    assert(!in_title_bar_spacing("WindowCornerRadius"@));
    reveal_strlit("WindowOutlineStyle");
    reveal_strlit("WindowOutlineCustomColor");
    reveal_strlit("WindowOutlineOverlap");
    reveal_strlit("LockWindowOutline");
    reveal_strlit("WindowOutlineAccentColor");
    reveal_strlit("WindowOutlineAccentWithContrast");
    reveal_strlit("WindowOutlineContrastOpacity");
    reveal_strlit("WindowOutlineCustomWithContrast");
    reveal_strlit("WindowOutlineShadowColorOpacity");
    reveal_strlit("WindowOutlineSnapToWholePixel");
    reveal_strlit("WindowOutlineThickness");
    assert("WindowCornerRadius"@.take(18)[6] != "WindowOutlineStyle"@[6]);
    assert("WindowCornerRadius"@.take(17)[0] != "LockWindowOutline"@[0]);
    assert("WindowCornerRadius"@[6] != "WindowOutlineOverlap"@[6]);
    assert("WindowCornerRadius"@[6] != "WindowOutlineShadowColorOpacity"@[6]);
    assert("WindowCornerRadius"@[6] != "WindowOutlineSnapToWholePixel"@[6]);
    assert("WindowCornerRadius"@[6] != "WindowOutlineThickness"@[6]);
    assert(!in_window_outline_style("WindowCornerRadius"@));
    reveal_strlit("ButtonGradient");
    reveal_strlit("ScrollBarSeparator");
    reveal_strlit("DrawBackgroundGradient");
    assert("WindowCornerRadius"@[0] != "ScrollBarSeparator"@[0]);
    assert("WindowCornerRadius"@[0] != "ButtonGradient"@[0]);
    assert("WindowCornerRadius"@[0] != "ScrollBarSeparator"@[0]);
    assert("WindowCornerRadius"@[0] != "DrawBackgroundGradient"@[0]);
    assert(!in_style("WindowCornerRadius"@));
}

} // verus!
