use keasyditor_core::color::Rgba;
use keasyditor_core::models::kvantum::colors::KvantumColors;
use keasyditor_core::models::kvantum::general::KvantumGeneral;
use keasyditor_core::models::kvantum::section::KvantumSection;
use keasyditor_core::strmap::StrMap;

fn map(pairs: &[(&str, &str)]) -> StrMap {
    let mut m = StrMap::new();
    for (k, v) in pairs {
        m.insert(k.to_string(), v.to_string());
    }
    m
}

/// The `contrast` value as a number, 1.0 when absent or unreadable.
fn contrast(g: &KvantumGeneral) -> f64 {
    g.get_value("contrast").and_then(|v| v.parse().ok()).unwrap_or(1.0)
}

#[test]
fn from_map_and_accessors() {
    let m = map(&[
        ("window.color", "#1a1111"),
        ("text.color", "#f1dedd"),
        ("progress.indicator.text.color", "white"),
    ]);
    let colors = KvantumColors::from_map(m);
    assert_eq!(colors.window_color(), Rgba::rgb(0x1a, 0x11, 0x11));
    assert_eq!(colors.text_color(), Rgba::rgb(0xf1, 0xde, 0xdd));
    assert_eq!(colors.progress_indicator_text_color(), Rgba::rgb(255, 255, 255));
}

#[test]
fn set_color_uses_kvantum_format() {
    let mut colors = KvantumColors::empty();
    colors.set_window_color(Rgba::rgb(0x1a, 0x11, 0x11));
    assert_eq!(colors.get_value("window.color"), Some("#1a1111"));
}

#[test]
fn missing_color_returns_black() {
    let colors = KvantumColors::empty();
    assert_eq!(colors.window_color(), Rgba::rgb(0, 0, 0));
}

#[test]
fn all_keys_count() {
    assert_eq!(KvantumColors::all_keys().len(), 19);
}

#[test]
fn unreadable_colour_returns_black() {
    let colors = KvantumColors::from_map(map(&[("base.color", "not a colour")]));
    assert_eq!(colors.base_color(), Rgba::rgb(0, 0, 0));
    assert_eq!(colors.get_color("base.color"), None);
    assert_eq!(colors.describe(), "KvantumColors(1 keys)");
}

#[test]
fn defaults() {
    let g = KvantumGeneral::empty();
    assert!(g.composite());
    assert_eq!(g.progressbar_thickness(), 6);
    assert!((contrast(&g) - 1.0).abs() < f64::EPSILON);
    assert_eq!(g.x11drag(), "all");
    assert!(g.opaque_apps().is_empty());
}

#[test]
fn from_map() {
    let m = map(&[
        ("author", "Custom"),
        ("composite", "true"),
        ("progressbar_thickness", "8"),
        ("contrast", "1.00"),
    ]);
    let g = KvantumGeneral::from_map(m);
    assert_eq!(g.author(), "Custom");
    assert!(g.composite());
    assert_eq!(g.progressbar_thickness(), 8);
    assert!((contrast(&g) - 1.0).abs() < f64::EPSILON);
}

#[test]
fn general_set_and_get() {
    let mut g = KvantumGeneral::empty();
    g.set_author("Test");
    assert_eq!(g.author(), "Test");
    g.set_composite(false);
    assert!(!g.composite());
    g.set_progressbar_thickness(10);
    assert_eq!(g.progressbar_thickness(), 10);
}

#[test]
fn opaque_apps() {
    let mut g = KvantumGeneral::empty();
    g.set_opaque_apps(&["vlc".to_string(), "kaffeine".to_string()]);
    assert_eq!(g.opaque_apps(), vec!["vlc", "kaffeine"]);
}

#[test]
fn opaque_apps_are_trimmed_and_empty_is_none() {
    let mut g = KvantumGeneral::from_map(map(&[("opaque", " a , b,c ")]));
    assert_eq!(g.opaque_apps(), vec!["a", "b", "c"]);
    g.set_value("opaque", String::new());
    assert!(g.opaque_apps().is_empty());
    g.set_opaque_apps(&[]);
    assert_eq!(g.get_value("opaque"), Some(""));
}

#[test]
fn general_defaults_for_flags_and_numbers() {
    let mut g = KvantumGeneral::from_map(map(&[("tooltip_delay", "x"), ("blurring", "yes")]));
    assert_eq!(g.tooltip_delay(), -1);
    assert!(!g.blurring());
    assert!(g.respect_de());
    g.set_respect_de(false);
    assert_eq!(g.get_value("respect_DE"), Some("false"));
    assert_eq!(g.submenu_delay(), 250);
    assert_eq!(g.describe(), "KvantumGeneral(3 keys)");
}

#[test]
fn from_map_basic() {
    let m = map(&[
        ("frame", "true"),
        ("frame.top", "3"),
        ("text.normal.color", "#cccccc"),
    ]);
    let section = KvantumSection::from_map("PanelButtonCommand", m);
    assert_eq!(section.frame(), Some(true));
    assert_eq!(section.frame_top(), Some(3));
    assert_eq!(section.text_normal_color(), Some("#cccccc"));
    assert!(!section.has_inheritance());
}

#[test]
fn inheritance() {
    let parent = KvantumSection::from_map(
        "PanelButtonCommand",
        map(&[("frame", "true"), ("frame.top", "3"), ("text.normal.color", "#aaaaaa")]),
    );
    let child = KvantumSection::from_map(
        "ToolbarButton",
        map(&[("inherits", "PanelButtonCommand"), ("text.normal.color", "#ffffff")]),
    );

    assert!(child.has_inheritance());
    assert_eq!(child.inherits(), Some("PanelButtonCommand"));

    let resolved = child.resolve_with(&parent);
    assert_eq!(resolved.frame(), Some(true));
    assert_eq!(resolved.frame_top(), Some(3));
    assert_eq!(resolved.text_normal_color(), Some("#ffffff"));
    assert!(!resolved.has_inheritance());
}

#[test]
fn empty_section() {
    let section = KvantumSection::empty("Test");
    assert_eq!(section.name, "Test");
    assert!(section.is_empty());
    assert_eq!(section.frame(), None);
}

#[test]
fn set_and_remove() {
    let mut section = KvantumSection::empty("Test");
    section.set_frame(Some(true));
    assert_eq!(section.frame(), Some(true));
    section.set_frame(None);
    assert_eq!(section.frame(), None);
}

#[test]
fn section_description_and_typed_setters() {
    let mut s = KvantumSection::from_map("Tab", map(&[("inherits", "PanelButtonCommand")]));
    s.set_text_margin_left(Some(6));
    s.set_min_width(Some("+3font".to_string()));
    assert_eq!(s.text_margin_left(), Some(6));
    assert_eq!(s.get_value("text.margin.left"), Some("6"));
    assert_eq!(s.min_width(), Some("+3font"));
    assert_eq!(s.len(), 3);
    assert_eq!(s.describe(), "KvantumSection(Tab inherits=PanelButtonCommand), 3 keys)");
    s.remove_key("inherits");
    assert_eq!(s.describe(), "KvantumSection(Tab), 2 keys)");
}

#[test]
fn opaque_apps_read_back_as_written() {
    let mut g = KvantumGeneral::from_map(map(&[("opaque", "old")]));
    let apps = vec!["kaffeine".to_string(), "vlc".to_string(), "dragon player".to_string()];
    g.set_opaque_apps(&apps);
    assert_eq!(g.opaque_apps(), apps);
    assert_eq!(g.get_value("opaque"), Some("kaffeine,vlc,dragon player"));
}
