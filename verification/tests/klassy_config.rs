use keasyditor_core::color::Rgba;
use keasyditor_core::ini::parse_ini;
use keasyditor_core::models::klassy::config::KlassyConfig;
use keasyditor_core::models::klassy::enums::{ButtonBackgroundColors, ButtonIconStyle, ButtonShape, ShadowSize};
use keasyditor_core::strmap::{KeyMap, StrMap};

fn empty_config() -> KlassyConfig {
    KlassyConfig::new(KeyMap::<StrMap>::new())
}

#[test]
fn from_ini_basic() {
    let input = "[Windeco]\nButtonShape=ShapeSmallCircle\nWindowCornerRadius=8\n";
    let doc = parse_ini(input);
    let config = KlassyConfig::from_ini(&doc);

    assert_eq!(config.button_shape(), Some(ButtonShape::SmallCircle));
    assert_eq!(config.window_corner_radius(), Some(8));
}

#[test]
fn config_set_and_get() {
    let mut config = empty_config();
    config.set_button_shape(ButtonShape::FullHeightRectangle);
    assert_eq!(config.button_shape(), Some(ButtonShape::FullHeightRectangle));
    assert_eq!(config.get_value("Windeco", "ButtonShape"), Some("ShapeFullHeightRectangle"));
}

#[test]
fn typed_getters() {
    let input = "[Windeco]\nButtonShape=ShapeFullHeightRectangle\nButtonIconStyle=StyleSuessigKite\nWindowCornerRadius=8\nBlurTransparentTitleBars=true\nDrawTitleBarSeparator=false\n[ShadowStyle]\nShadowSize=ShadowMedium\nShadowStrength=160\nShadowColor=255,255,255\n[TitleBarOpacity]\nActiveTitleBarOpacity=0\n[TitleBarSpacing]\nTitleBarTopMargin=4.5\n[ButtonColors]\nButtonBackgroundColorsActive=AccentTrafficLights\nButtonBackgroundOpacityActive=15\n[Style]\nButtonGradient=false\nScrollBarSeparator=true\n";
    let doc = parse_ini(input);
    let config = KlassyConfig::from_ini(&doc);

    assert_eq!(config.button_shape(), Some(ButtonShape::FullHeightRectangle));
    assert_eq!(config.button_icon_style(), Some(ButtonIconStyle::SuessigKite));
    assert_eq!(config.window_corner_radius(), Some(8));
    assert_eq!(config.blur_transparent_title_bars(), Some(true));
    assert_eq!(config.draw_title_bar_separator(), Some(false));
    assert_eq!(config.shadow_size(), Some(ShadowSize::Medium));
    assert_eq!(config.shadow_strength(), Some(160));
    assert_eq!(config.shadow_color(), Some(Rgba::rgb(255, 255, 255)));
    assert_eq!(config.active_title_bar_opacity(), Some(0));
    let top: Option<f64> = config
        .get_value("TitleBarSpacing", "TitleBarTopMargin")
        .and_then(|v| v.parse().ok());
    assert_eq!(top, Some(4.5));
    assert_eq!(
        config.button_background_colors_active(),
        Some(ButtonBackgroundColors::AccentTrafficLights)
    );
    assert_eq!(config.button_background_opacity_active(), Some(15));
    assert_eq!(config.button_gradient(), Some(false));
    assert_eq!(config.scroll_bar_separator(), Some(true));
}

#[test]
fn round_trip_via_ini() {
    let input = "[Windeco]\nButtonShape=ShapeSmallCircle\nWindowCornerRadius=8\n";
    let doc = parse_ini(input);
    let config = KlassyConfig::from_ini(&doc);
    let doc2 = config.to_ini();

    assert_eq!(doc2.get_value("Windeco", "ButtonShape"), Some("ShapeSmallCircle"));
    assert_eq!(doc2.get_value("Windeco", "WindowCornerRadius"), Some("8"));
}

#[test]
fn config_remove_value() {
    let mut config = empty_config();
    config.set_value("Windeco", "Test", "123".to_string());
    assert!(config.has_value("Windeco", "Test"));
    assert!(config.remove_value("Windeco", "Test"));
    assert!(!config.has_value("Windeco", "Test"));
    assert!(!config.remove_value("Windeco", "Test"));
}

const SAMPLE_KLASSYRC: &str = "[ButtonColors]\nButtonBackgroundColorsActive=AccentTrafficLights\nButtonBackgroundOpacityActive=15\n\n[ShadowStyle]\nShadowSize=ShadowMedium\nShadowStrength=160\n\n[Style]\nButtonGradient=false\nScrollBarSeparator=true\n\n[TitleBarOpacity]\nActiveTitleBarOpacity=0\nOpaqueMaximizedTitleBars=false\n\n[Windeco]\nButtonShape=ShapeFullHeightRectangle\nMatchTitleBarToApplicationColor=true\nWindowCornerRadius=8\n";

#[test]
fn fixture_round_trip() {
    let doc = parse_ini(SAMPLE_KLASSYRC);
    let config = KlassyConfig::from_ini(&doc);

    assert_eq!(
        config.button_background_colors_active(),
        Some(ButtonBackgroundColors::AccentTrafficLights)
    );
    assert_eq!(config.button_background_opacity_active(), Some(15));
    assert_eq!(config.shadow_size(), Some(ShadowSize::Medium));
    assert_eq!(config.shadow_strength(), Some(160));
    assert_eq!(config.button_shape(), Some(ButtonShape::FullHeightRectangle));
    assert_eq!(config.window_corner_radius(), Some(8));
    assert_eq!(config.active_title_bar_opacity(), Some(0));
    assert_eq!(config.opaque_maximized_title_bars(), Some(false));
    assert_eq!(config.button_gradient(), Some(false));
    assert_eq!(config.scroll_bar_separator(), Some(true));
    assert_eq!(config.match_title_bar_to_application_color(), Some(true));

    let doc2 = config.to_ini();
    let config2 = KlassyConfig::from_ini(&doc2);
    assert_eq!(config, config2);
}

#[test]
fn set_value_creates_section_last() {
    let mut config = KlassyConfig::from_ini(&parse_ini("[A]\nx=1\n"));
    config.set_value("B", "y", "2".to_string());
    assert_eq!(config.section_names(), vec!["A", "B"]);
    config.set_value("A", "z", "3".to_string());
    assert_eq!(config.section_names(), vec!["A", "B"]);
    assert_eq!(config.get_value("A", "x"), Some("1"));
    assert_eq!(config.get_value("A", "z"), Some("3"));
    assert_eq!(config.get_section("B").get("y"), Some(&"2".to_string()));
    assert!(config.get_section("C").is_empty());
}

#[test]
fn setters_write_klassy_texts() {
    let mut config = empty_config();
    config.set_shadow_color(Rgba::rgb(1, 2, 3));
    config.set_window_corner_radius(-4);
    config.set_button_gradient(true);
    assert_eq!(config.get_value("ShadowStyle", "ShadowColor"), Some("1,2,3"));
    assert_eq!(config.get_value("Windeco", "WindowCornerRadius"), Some("-4"));
    assert_eq!(config.get_value("Style", "ButtonGradient"), Some("true"));
    assert_eq!(config.shadow_color(), Some(Rgba::rgb(1, 2, 3)));
}

#[test]
fn unparseable_values_read_as_none() {
    let config = KlassyConfig::from_ini(&parse_ini("[Windeco]\nWindowCornerRadius=eight\nButtonShape=Round\n"));
    assert_eq!(config.window_corner_radius(), None);
    assert_eq!(config.button_shape(), None);
    assert_eq!(config.blur_transparent_title_bars(), None);
}
