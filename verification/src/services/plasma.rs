//! The Plasma colour scheme (`.colors` file) derived from a Kvantum
//! theme's `[GeneralColors]`.
//!
//! Kvantum's `[GeneralColors]` keys are Qt `QPalette` roles: the
//! `light`/`mid.light`/`mid`/`dark` colours are 3D shading roles, so only
//! the surface colours (`window`, `base`, `alt.base`, `button`) become
//! section backgrounds.  The blended surfaces (a header or tooltip tinted a
//! few percent toward the text colour) are mixed by the caller and handed
//! in as `SchemeBlends`.

use vstd::prelude::*;
use crate::color::{klassy_text, opaque, to_klassy_color, Rgba};
use crate::models::kvantum::colors::{color_or_black, KvantumColors};
use crate::models::values::color_ok;

verus! {

broadcast use vstd::string::group_string_axioms;

/// The palette colours a Plasma scheme is written from.
#[derive(Clone, Copy, Debug)]
pub struct SchemePalette {
    pub window: Rgba,
    pub window_fg: Rgba,
    pub base: Rgba,
    pub alt_base: Rgba,
    pub text_fg: Rgba,
    pub button: Rgba,
    pub button_fg: Rgba,
    pub highlight: Rgba,
    pub highlight_fg: Rgba,
    pub tooltip_fg: Rgba,
    pub disabled_fg: Rgba,
    pub link: Rgba,
    pub visited: Rgba,
    pub inactive_selection: Rgba,
}

/// The blended surfaces of a Plasma scheme: each a background moved a
/// little toward a foreground.
#[derive(Clone, Copy, Debug)]
pub struct SchemeBlends {
    /// Window toward window text by 8 %.
    pub header_bg: Rgba,
    /// Window toward window text by 15 %.
    pub tooltip_bg: Rgba,
    /// Window toward window text by 4 %.
    pub complementary_bg: Rgba,
    /// Window toward window text by 4 %.
    pub window_alt: Rgba,
    /// Button toward button text by 4 %.
    pub button_alt: Rgba,
    /// Window toward disabled text by 25 %.
    pub wm_inactive_bg: Rgba,
}

/// The `[GeneralColors]` keys a scheme reads.
pub open spec fn scheme_keys() -> Seq<Seq<char>> {
    seq![
        "window.color"@,
        "window.text.color"@,
        "base.color"@,
        "alt.base.color"@,
        "text.color"@,
        "button.color"@,
        "button.text.color"@,
        "highlight.color"@,
        "highlight.text.color"@,
        "tooltip.text.color"@,
        "disabled.text.color"@,
        "link.color"@,
        "link.visited.color"@,
        "inactive.highlight.color"@,
    ]
}

/// The palette read from `[GeneralColors]`; absent or unreadable colours
/// are opaque black.
pub open spec fn spec_scheme_palette(m: Map<Seq<char>, Seq<char>>) -> SchemePalette {
    SchemePalette {
        window: color_or_black(m, "window.color"@),
        window_fg: color_or_black(m, "window.text.color"@),
        base: color_or_black(m, "base.color"@),
        alt_base: color_or_black(m, "alt.base.color"@),
        text_fg: color_or_black(m, "text.color"@),
        button: color_or_black(m, "button.color"@),
        button_fg: color_or_black(m, "button.text.color"@),
        highlight: color_or_black(m, "highlight.color"@),
        highlight_fg: color_or_black(m, "highlight.text.color"@),
        tooltip_fg: color_or_black(m, "tooltip.text.color"@),
        disabled_fg: color_or_black(m, "disabled.text.color"@),
        link: color_or_black(m, "link.color"@),
        visited: color_or_black(m, "link.visited.color"@),
        inactive_selection: color_or_black(m, "inactive.highlight.color"@),
    }
}

/// One `[Colors:*]` section with its twelve keys.
pub open spec fn colors_section(
    name: Seq<char>,
    bg: Rgba,
    alt_bg: Rgba,
    fg: Rgba,
    p: SchemePalette,
) -> Seq<char> {
    "["@ + name + "]\nBackgroundNormal="@ + klassy_text(bg) + "\nBackgroundAlternate="@
        + klassy_text(alt_bg) + "\nForegroundNormal="@ + klassy_text(fg) + "\nForegroundActive="@
        + klassy_text(p.highlight) + "\nForegroundInactive="@ + klassy_text(p.disabled_fg)
        + "\nForegroundLink="@ + klassy_text(p.link) + "\nForegroundVisited="@ + klassy_text(
        p.visited,
    ) + "\nForegroundNegative=237,21,21\nForegroundNeutral=246,116,0\nForegroundPositive=39,174,96\nDecorationFocus="@
        + klassy_text(p.highlight) + "\nDecorationHover="@ + klassy_text(p.highlight) + "\n\n"@
}

/// The fixed colour effect sections that open every scheme.
pub open spec fn effects_text() -> Seq<char> {
    "[ColorEffects:Disabled]\n"@
        + "Color=56,56,56\nColorAmount=0\nColorEffect=0\nContrastAmount=0.65\nContrastEffect=1\nIntensityAmount=0.1\nIntensityEffect=2\n\n"@
        + "[ColorEffects:Inactive]\n"@
        + "ChangeSelectionColor=true\nColor=112,111,110\nColorAmount=0.025\nColorEffect=2\nContrastAmount=0.1\nContrastEffect=2\nEnable=false\nIntensityAmount=0\nIntensityEffect=0\n\n"@
}

/// The seven `[Colors:*]` sections.
pub open spec fn color_sections_text(p: SchemePalette, b: SchemeBlends) -> Seq<char> {
    colors_section("Colors:Window"@, p.window, b.window_alt, p.window_fg, p) + colors_section(
        "Colors:Button"@,
        p.button,
        b.button_alt,
        p.button_fg,
        p,
    ) + colors_section("Colors:View"@, p.base, p.alt_base, p.text_fg, p) + colors_section(
        "Colors:Selection"@,
        p.highlight,
        p.inactive_selection,
        p.highlight_fg,
        p,
    ) + colors_section("Colors:Tooltip"@, b.tooltip_bg, b.window_alt, p.tooltip_fg, p)
        + colors_section("Colors:Complementary"@, b.complementary_bg, b.window_alt, p.window_fg, p)
        + colors_section("Colors:Header"@, b.header_bg, b.window_alt, p.window_fg, p)
}

/// The closing `[General]`, `[KDE]` and `[WM]` sections.
pub open spec fn closing_text(scheme_name: Seq<char>, p: SchemePalette, b: SchemeBlends) -> Seq<
    char,
> {
    "[General]\nName="@ + scheme_name + "\nshadeSortColumn=true\n\n"@ + "[KDE]\ncontrast=4\n\n"@
        + "[WM]\nactiveBackground="@ + klassy_text(b.header_bg) + "\nactiveForeground="@
        + klassy_text(p.window_fg) + "\ninactiveBackground="@ + klassy_text(b.wm_inactive_bg)
        + "\ninactiveForeground="@ + klassy_text(p.disabled_fg) + "\n"@
}

/// The whole `.colors` file.
pub open spec fn scheme_text(scheme_name: Seq<char>, p: SchemePalette, b: SchemeBlends) -> Seq<
    char,
> {
    effects_text() + color_sections_text(p, b) + closing_text(scheme_name, p, b)
}

/// The colour under `key`, or opaque black.
fn color_or_black_of(colors: &KvantumColors, key: &str) -> (r: Rgba)
    requires
        color_ok(colors@, key@),
    ensures
        r == color_or_black(colors@, key@),
{
    match colors.get_color(key) {
        Some(c) => c,
        None => Rgba::rgb(0, 0, 0),
    }
}

/// Whether every colour a scheme reads can be read.
pub open spec fn scheme_colors_ok(m: Map<Seq<char>, Seq<char>>) -> bool {
    forall|i: int| 0 <= i < scheme_keys().len() ==> color_ok(m, #[trigger] scheme_keys()[i])
}

/// When every colour a scheme reads can be read, each of them can.
proof fn lemma_scheme_keys_ok(m: Map<Seq<char>, Seq<char>>)
    requires
        scheme_colors_ok(m),
    ensures
        color_ok(m, "window.color"@),
        color_ok(m, "window.text.color"@),
        color_ok(m, "base.color"@),
        color_ok(m, "alt.base.color"@),
        color_ok(m, "text.color"@),
        color_ok(m, "button.color"@),
        color_ok(m, "button.text.color"@),
        color_ok(m, "highlight.color"@),
        color_ok(m, "highlight.text.color"@),
        color_ok(m, "tooltip.text.color"@),
        color_ok(m, "disabled.text.color"@),
        color_ok(m, "link.color"@),
        color_ok(m, "link.visited.color"@),
        color_ok(m, "inactive.highlight.color"@),
{
    let k = scheme_keys();
    assert(color_ok(m, k[0]) && color_ok(m, k[1]) && color_ok(m, k[2]) && color_ok(m, k[3]) && color_ok(m, k[4])
        && color_ok(m, k[5]) && color_ok(m, k[6]) && color_ok(m, k[7]) && color_ok(m, k[8]) && color_ok(m, k[9])
        && color_ok(m, k[10]) && color_ok(m, k[11]) && color_ok(m, k[12]) && color_ok(m, k[13]));
}

/// Whether every colour a scheme reads can be read.
pub fn scheme_colors_readable(colors: &KvantumColors) -> (r: bool)
    ensures
        r == scheme_colors_ok(colors@),
{
    let ok = colors.color_readable("window.color") && colors.color_readable("window.text.color")
        && colors.color_readable("base.color") && colors.color_readable("alt.base.color")
        && colors.color_readable("text.color") && colors.color_readable("button.color")
        && colors.color_readable("button.text.color") && colors.color_readable("highlight.color")
        && colors.color_readable("highlight.text.color") && colors.color_readable(
        "tooltip.text.color",
    ) && colors.color_readable("disabled.text.color") && colors.color_readable("link.color")
        && colors.color_readable("link.visited.color") && colors.color_readable(
        "inactive.highlight.color",
    );
    proof {
        let m = colors@;
        if ok {
            assert forall|i: int| 0 <= i < scheme_keys().len() implies color_ok(
                m,
                #[trigger] scheme_keys()[i],
            ) by {}
        } else {
            if scheme_colors_ok(m) {
                lemma_scheme_keys_ok(m);
            }
        }
    }
    ok
}

/// The palette a scheme is written from, read from `[GeneralColors]`.
pub fn scheme_palette(colors: &KvantumColors) -> (p: SchemePalette)
    requires
        scheme_colors_ok(colors@),
    ensures
        p == spec_scheme_palette(colors@),
{
    proof {
        lemma_scheme_keys_ok(colors@);
    }
    SchemePalette {
        window: color_or_black_of(colors, "window.color"),
        window_fg: color_or_black_of(colors, "window.text.color"),
        base: color_or_black_of(colors, "base.color"),
        alt_base: color_or_black_of(colors, "alt.base.color"),
        text_fg: color_or_black_of(colors, "text.color"),
        button: color_or_black_of(colors, "button.color"),
        button_fg: color_or_black_of(colors, "button.text.color"),
        highlight: color_or_black_of(colors, "highlight.color"),
        highlight_fg: color_or_black_of(colors, "highlight.text.color"),
        tooltip_fg: color_or_black_of(colors, "tooltip.text.color"),
        disabled_fg: color_or_black_of(colors, "disabled.text.color"),
        link: color_or_black_of(colors, "link.color"),
        visited: color_or_black_of(colors, "link.visited.color"),
        inactive_selection: color_or_black_of(colors, "inactive.highlight.color"),
    }
}

fn push_rgb(out: &mut String, c: Rgba)
    ensures
        final(out)@ == old(out)@ + klassy_text(c),
{
    let t = to_klassy_color(&c);
    out.append(t.as_str());
}

#[verifier::spinoff_prover]
#[verifier::rlimit(40)]
fn push_colors_section(out: &mut String, name: &str, bg: Rgba, alt_bg: Rgba, fg: Rgba, p: &SchemePalette)
    ensures
        final(out)@ == old(out)@ + colors_section(name@, bg, alt_bg, fg, *p),
{
    out.append("[");
    out.append(name);
    out.append("]\nBackgroundNormal=");
    push_rgb(out, bg);
    out.append("\nBackgroundAlternate=");
    push_rgb(out, alt_bg);
    out.append("\nForegroundNormal=");
    push_rgb(out, fg);
    out.append("\nForegroundActive=");
    push_rgb(out, p.highlight);
    out.append("\nForegroundInactive=");
    push_rgb(out, p.disabled_fg);
    out.append("\nForegroundLink=");
    push_rgb(out, p.link);
    out.append("\nForegroundVisited=");
    push_rgb(out, p.visited);
    out.append(
        "\nForegroundNegative=237,21,21\nForegroundNeutral=246,116,0\nForegroundPositive=39,174,96\nDecorationFocus=",
    );
    push_rgb(out, p.highlight);
    out.append("\nDecorationHover=");
    push_rgb(out, p.highlight);
    out.append("\n\n");
    assert(final(out)@ =~= old(out)@ + colors_section(name@, bg, alt_bg, fg, *p));
}

#[verifier::spinoff_prover]
#[verifier::rlimit(40)]
fn push_color_sections(out: &mut String, p: &SchemePalette, b: &SchemeBlends)
    ensures
        final(out)@ == old(out)@ + color_sections_text(*p, *b),
{
    let ghost start = out@;
    push_colors_section(out, "Colors:Window", p.window, b.window_alt, p.window_fg, p);
    push_colors_section(out, "Colors:Button", p.button, b.button_alt, p.button_fg, p);
    push_colors_section(out, "Colors:View", p.base, p.alt_base, p.text_fg, p);
    push_colors_section(out, "Colors:Selection", p.highlight, p.inactive_selection, p.highlight_fg, p);
    push_colors_section(out, "Colors:Tooltip", b.tooltip_bg, b.window_alt, p.tooltip_fg, p);
    push_colors_section(out, "Colors:Complementary", b.complementary_bg, b.window_alt, p.window_fg, p);
    push_colors_section(out, "Colors:Header", b.header_bg, b.window_alt, p.window_fg, p);
    assert(out@ =~= start + color_sections_text(*p, *b));
}

fn push_effects(out: &mut String)
    ensures
        final(out)@ == old(out)@ + effects_text(),
{
    out.append("[ColorEffects:Disabled]\n");
    out.append(
        "Color=56,56,56\nColorAmount=0\nColorEffect=0\nContrastAmount=0.65\nContrastEffect=1\nIntensityAmount=0.1\nIntensityEffect=2\n\n",
    );
    out.append("[ColorEffects:Inactive]\n");
    out.append(
        "ChangeSelectionColor=true\nColor=112,111,110\nColorAmount=0.025\nColorEffect=2\nContrastAmount=0.1\nContrastEffect=2\nEnable=false\nIntensityAmount=0\nIntensityEffect=0\n\n",
    );
    assert(final(out)@ =~= old(out)@ + effects_text());
}

fn push_closing(out: &mut String, scheme_name: &str, p: &SchemePalette, b: &SchemeBlends)
    ensures
        final(out)@ == old(out)@ + closing_text(scheme_name@, *p, *b),
{
    out.append("[General]\nName=");
    out.append(scheme_name);
    out.append("\nshadeSortColumn=true\n\n");
    out.append("[KDE]\ncontrast=4\n\n");
    out.append("[WM]\nactiveBackground=");
    push_rgb(out, b.header_bg);
    out.append("\nactiveForeground=");
    push_rgb(out, p.window_fg);
    out.append("\ninactiveBackground=");
    push_rgb(out, b.wm_inactive_bg);
    out.append("\ninactiveForeground=");
    push_rgb(out, p.disabled_fg);
    out.append("\n");
    assert(final(out)@ =~= old(out)@ + closing_text(scheme_name@, *p, *b));
}

/// The text of the Plasma `.colors` file named `scheme_name`, written from
/// the palette `p` and the blended surfaces `b`.
pub fn plasma_scheme_text(scheme_name: &str, p: &SchemePalette, b: &SchemeBlends) -> (r: String)
    ensures
        r@ == scheme_text(scheme_name@, *p, *b),
{
    let mut out = String::new();
    push_effects(&mut out);
    push_color_sections(&mut out, p, b);
    push_closing(&mut out, scheme_name, p, b);
    assert(out@ =~= scheme_text(scheme_name@, *p, *b));
    out
}

} // verus!
