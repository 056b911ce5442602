use keasyditor_core::color::Rgba;
use keasyditor_core::ini::{parse_ini, serialize_ini};
use keasyditor_core::models::kvantum::colors::KvantumColors;
use keasyditor_core::models::kvantum::config::KvantumConfig;
use keasyditor_core::models::kvantum::general::KvantumGeneral;
use keasyditor_core::models::kvantum::section::KvantumSection;
use keasyditor_core::strmap::{KeyMap, StrMap};

const MINIMAL: &str = "[%General]\nauthor=Test\ncomment=Minimal theme\ncomposite=true\n\n[GeneralColors]\nwindow.color=#000000\ntext.color=#ffffff\n\n[PanelButtonCommand]\nframe=true\ntext.normal.color=#cccccc\n";

const TETO_NOIR: &str = "# A dark theme\n[%General]\nauthor=Custom\ncomment=Teto Noir\ncomposite=true\ntranslucent_windows=true\nblurring=true\nprogressbar_thickness=8\nreduce_window_opacity=67\n\n[GeneralColors]\nwindow.color=#1a1111\nhighlight.color=#733330\nhighlight.text.color=#ffffff\n\n[Hacks]\nrespect_darkness=true\ntransparent_dolphin_view=true\n\n[PanelButtonCommand]\nframe=true\nframe.element=button\nframe.top=3\nframe.bottom=3\ntext.normal.color=#d4d4d8\ntext.focus.color=#e05555\ntext.margin.left=2\n\n[PanelButtonTool]\ninherits=PanelButtonCommand\n\n[LineEdit]\ninherits=PanelButtonCommand\nframe.top=4\nframe.element=lineedit\n\n[ComboBox]\ninherits=LineEdit\ntext.margin.left=6\ntext.margin.right=6\n\n[ToolbarButton]\ninherits=PanelButtonCommand\nframe.element=toolbarbutton\n\n[RadioButton]\ninherits=PanelButtonCommand\nframe.element=radiobutton\n\n[CheckBox]\ninherits=PanelButtonCommand\nframe.element=checkbox\n\n[Focus]\ninherits=PanelButtonCommand\nframe.element=focus\n\n[GenericFrame]\ninherits=PanelButtonCommand\nframe.element=genericframe\n\n[TabFrame]\ninherits=PanelButtonCommand\nframe.element=tabframe\n\n[GroupBox]\ninherits=PanelButtonCommand\nframe.element=groupbox\n\n[TabBarFrame]\ninherits=PanelButtonCommand\nframe.element=tabbarframe\n\n[ToolTip]\ninherits=PanelButtonCommand\nframe.element=tooltip\n\n[IndicatorSpinBox]\ninherits=PanelButtonCommand\nframe.element=indicatorspinbox\n\n[Slider]\ninherits=PanelButtonCommand\nframe.element=slider\n\n[SliderCursor]\ninherits=PanelButtonCommand\nframe.element=slidercursor\n\n[Progressbar]\ninherits=PanelButtonCommand\nframe.element=progressbar\n\n[ProgressbarContents]\ninherits=PanelButtonCommand\nframe.element=progressbarcontents\n\n[ItemView]\ninherits=PanelButtonCommand\nframe.element=itemview\n\n[Header]\ninherits=PanelButtonCommand\nframe.element=header\n\n[Menu]\ninherits=PanelButtonCommand\nframe.element=menu\n\n[MenuItem]\ninherits=PanelButtonCommand\nframe.element=menuitem\n\n[MenuBar]\ninherits=PanelButtonCommand\nframe.element=menubar\n\n[MenuBarItem]\ninherits=PanelButtonCommand\nframe.element=menubaritem\n\n[Window]\ninherits=PanelButtonCommand\nframe.element=window\n\n";

fn config_of(text: &str) -> KvantumConfig {
    KvantumConfig::from_ini(&parse_ini(text))
}

#[test]
fn from_ini_minimal() {
    let config = config_of(MINIMAL);

    assert_eq!(config.general.author(), "Test");
    assert!(config.general.composite());
    assert_eq!(config.colors.window_color(), Rgba::rgb(0, 0, 0));
    assert_eq!(config.colors.text_color(), Rgba::rgb(0xff, 0xff, 0xff));
    assert_eq!(config.widget_sections.len(), 1);
    assert!(config.widget_sections.contains_key("PanelButtonCommand"));

    let pbc = config.get_section("PanelButtonCommand").unwrap();
    assert_eq!(pbc.frame(), Some(true));
    assert_eq!(pbc.text_normal_color(), Some("#cccccc"));
}

#[test]
fn from_ini_tetonoir() {
    let config = config_of(TETO_NOIR);

    assert_eq!(config.general.author(), "Custom");
    assert!(config.general.composite());
    assert!(config.general.translucent_windows());
    assert!(config.general.blurring());
    assert_eq!(config.general.progressbar_thickness(), 8);
    assert_eq!(config.general.reduce_window_opacity(), 67);

    assert_eq!(config.colors.window_color(), Rgba::rgb(0x1a, 0x11, 0x11));
    assert_eq!(config.colors.highlight_color(), Rgba::rgb(0x73, 0x33, 0x30));
    assert_eq!(config.colors.highlight_text_color(), Rgba::rgb(0xff, 0xff, 0xff));

    assert_eq!(config.hacks.get("respect_darkness"), Some(&"true".to_string()));
    assert_eq!(config.hacks.get("transparent_dolphin_view"), Some(&"true".to_string()));

    assert!(config.widget_sections.len() > 20);
    let pbc = config.get_section("PanelButtonCommand").unwrap();
    assert_eq!(pbc.frame(), Some(true));
    assert_eq!(pbc.frame_top(), Some(3));
    assert_eq!(pbc.text_normal_color(), Some("#d4d4d8"));
    assert_eq!(pbc.text_focus_color(), Some("#e05555"));

    let pbt = config.get_section("PanelButtonTool").unwrap();
    assert_eq!(pbt.inherits(), Some("PanelButtonCommand"));
}

#[test]
fn resolve_section_basic() {
    let config = config_of(TETO_NOIR);
    let resolved = config.resolve_section("PanelButtonTool").unwrap();
    assert_eq!(resolved.frame(), Some(true));
    assert_eq!(resolved.frame_top(), Some(3));
    assert_eq!(resolved.text_normal_color(), Some("#d4d4d8"));
    assert!(resolved.inherits().is_none());
}

#[test]
fn resolve_section_chain() {
    let config = config_of(TETO_NOIR);
    let resolved = config.resolve_section("ComboBox").unwrap();
    assert_eq!(resolved.frame(), Some(true));
    assert_eq!(resolved.text_margin_left(), Some(6));
    assert_eq!(resolved.text_margin_right(), Some(6));
    assert_eq!(resolved.frame_top(), Some(4));
}

#[test]
fn resolve_section_circular_protection() {
    let mut widgets: KeyMap<KvantumSection> = KeyMap::new();
    let mut a_map = StrMap::new();
    a_map.insert("inherits".to_string(), "B".to_string());
    a_map.insert("x".to_string(), "1".to_string());
    widgets.insert("A".to_string(), KvantumSection::from_map("A", a_map));

    let mut b_map = StrMap::new();
    b_map.insert("inherits".to_string(), "A".to_string());
    b_map.insert("y".to_string(), "2".to_string());
    widgets.insert("B".to_string(), KvantumSection::from_map("B", b_map));

    let config = KvantumConfig::new(
        KvantumGeneral::empty(),
        KvantumColors::empty(),
        StrMap::new(),
        widgets,
    );

    let resolved = config.resolve_section("A").unwrap();
    assert_eq!(resolved.get_value("x"), Some("1"));
}

#[test]
fn round_trip_minimal() {
    let config = config_of(MINIMAL);
    let doc2 = config.to_ini();
    let config2 = KvantumConfig::from_ini(&doc2);

    assert_eq!(config.general, config2.general);
    assert_eq!(config.colors, config2.colors);
    assert_eq!(config.hacks, config2.hacks);
    assert_eq!(config.widget_sections, config2.widget_sections);
}

#[test]
fn round_trip_tetonoir() {
    let config = config_of(TETO_NOIR);
    let doc2 = config.to_ini();
    let config2 = KvantumConfig::from_ini(&doc2);

    assert_eq!(config.general, config2.general);
    assert_eq!(config.colors, config2.colors);
    assert_eq!(config.hacks, config2.hacks);
    assert_eq!(config.widget_sections.len(), config2.widget_sections.len());
    for name in config.section_names() {
        let sec = config.widget_sections.get(name).unwrap();
        let sec2 = config2.widget_sections.get(name).unwrap();
        assert_eq!(sec, sec2, "Section mismatch: {}", name);
    }
}

#[test]
fn round_trip_serialized_reparseable() {
    let config = config_of(TETO_NOIR);
    let doc2 = config.to_ini();
    let serialized = serialize_ini(&doc2);

    let doc3 = parse_ini(&serialized);
    let config3 = KvantumConfig::from_ini(&doc3);

    assert_eq!(config.general, config3.general);
    assert_eq!(config.colors, config3.colors);
}

#[test]
fn copy_with_methods() {
    let config = config_of(MINIMAL);

    let mut new_colors = config.colors.clone();
    new_colors.set_window_color(Rgba::rgb(0xff, 0x00, 0x00));
    let config2 = config.copy_with_colors(new_colors);
    assert_eq!(config2.colors.window_color(), Rgba::rgb(0xff, 0x00, 0x00));
    assert_eq!(config2.general, config.general);

    let mut new_general = config.general.clone();
    new_general.set_author("NewAuthor");
    let config3 = config.copy_with_general(new_general);
    assert_eq!(config3.general.author(), "NewAuthor");

    let mut new_hacks = StrMap::new();
    new_hacks.insert("test".to_string(), "true".to_string());
    let config4 = config.copy_with_hacks(new_hacks);
    assert_eq!(config4.hacks.get("test"), Some(&"true".to_string()));
}

#[test]
fn to_ini_writes_sorted_sections_in_order() {
    let config = config_of(MINIMAL);
    let text = serialize_ini(&config.to_ini());
    assert_eq!(
        text,
        "[%General]\nauthor=Test\ncomment=Minimal theme\ncomposite=true\n[GeneralColors]\ntext.color=#ffffff\nwindow.color=#000000\n[Hacks]\n[PanelButtonCommand]\nframe=true\ntext.normal.color=#cccccc\n"
    );
}

#[test]
fn copy_with_section_appends_new_names() {
    let config = config_of(MINIMAL);
    let c2 = config.copy_with_section("Tab", KvantumSection::empty("Tab"));
    assert_eq!(c2.section_names(), vec!["PanelButtonCommand", "Tab"]);
    let c3 = c2.copy_with_section("Tab", KvantumSection::empty("Tab"));
    assert_eq!(c3.section_names(), vec!["PanelButtonCommand", "Tab"]);
    assert!(config.resolve_section("Missing").is_none());
    assert_eq!(
        config.describe(),
        "KvantumConfig(general: 3 keys, colors: 2 keys, hacks: 0 keys, sections: 1)"
    );
}

#[test]
fn missing_parent_keeps_inherits_key() {
    let config = config_of("[A]\ninherits=Nowhere\nx=1\n");
    let r = config.resolve_section("A").unwrap();
    assert_eq!(r.inherits(), Some("Nowhere"));
    assert_eq!(r.get_value("x"), Some("1"));
}

#[test]
fn adopt_template_keeps_colours_and_own_hacks() {
    let ours = config_of("[GeneralColors]\nwindow.color=#010203\n[Hacks]\nh=1\n");
    let tpl = config_of(TETO_NOIR);
    let merged = ours.adopt_template(&tpl);
    assert_eq!(merged.colors.window_color(), Rgba::rgb(1, 2, 3));
    assert_eq!(merged.hacks.get("h"), Some(&"1".to_string()));
    assert_eq!(merged.general.author(), "Custom");
    assert!(merged.widget_sections.len() > 20);
    let bare = config_of("[GeneralColors]\nwindow.color=#010203\n");
    assert!(bare.has_no_widget_sections());
    let merged2 = bare.adopt_template(&tpl);
    assert_eq!(merged2.hacks.get("respect_darkness"), Some(&"true".to_string()));
}
