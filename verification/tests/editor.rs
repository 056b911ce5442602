use keasyditor_core::editor::{load_on_open, no_active_theme_error, KlassyEditor, KvantumEditor, Page, PageLoad};
use keasyditor_core::ini::parse_ini;
use keasyditor_core::models::kvantum::config::KvantumConfig;
use keasyditor_core::services::kvantum_themes::KvantumThemeData;
use keasyditor_core::settings::{
    add_recent_file, applied_status, auto_apply_setting, pairs_to_map, palette_pairs,
    recent_files_from_text, recent_files_text, reload_klassy_report, reload_kvantum_report,
    run_text_result, settings_text, system_theme_result,
};
use keasyditor_core::services::process::ProcessResult;
use keasyditor_core::strmap::StrMap;
use keasyditor_core::ui_bindings::{is_color_control_key, ui_toggle_binding, ui_value_binding, Binding};

fn loaded_klassy(content: &str) -> KlassyEditor {
    let mut e = KlassyEditor::new();
    e.load_file("/tmp/klassyrc".to_string());
    assert!(e.session.loading);
    let recent = e.config_loaded(Ok(content.to_string()), "/default/klassyrc");
    assert_eq!(recent, Some("/tmp/klassyrc".to_string()));
    e
}

#[test]
fn klassy_load_edit_undo_redo_save() {
    let mut e = loaded_klassy("[Windeco]\nWindowCornerRadius=8\n");
    assert!(!e.session.loading);
    assert!(!e.session.is_dirty());
    assert!(!e.session.can_undo() && !e.session.can_redo());

    e.update_key("Windeco", "WindowCornerRadius", "12".to_string());
    assert!(e.session.is_dirty());
    assert!(e.session.can_undo());
    assert_eq!(e.session.config.as_ref().unwrap().get_value("Windeco", "WindowCornerRadius"), Some("12"));

    assert!(e.session.undo());
    assert_eq!(e.session.config.as_ref().unwrap().get_value("Windeco", "WindowCornerRadius"), Some("8"));
    assert!(!e.session.is_dirty());
    assert!(e.session.redo());
    assert_eq!(e.session.config.as_ref().unwrap().get_value("Windeco", "WindowCornerRadius"), Some("8"));

    e.update_key("Windeco", "WindowCornerRadius", "3".to_string());
    let (path, content) = e.save_request().unwrap();
    assert_eq!(path, "/tmp/klassyrc");
    assert_eq!(content, "[Windeco]\nWindowCornerRadius=3\n");
    assert!(e.session.saved(Ok(()), true));
    assert!(!e.session.is_dirty());
    assert!(!e.session.saved(Err("disk full".to_string()), true));
    assert_eq!(e.session.error, Some("Save failed: disk full".to_string()));
    e.session.applied(Err("no kwin".to_string()));
    assert_eq!(e.session.error, Some("Apply failed: no kwin".to_string()));
}

#[test]
fn klassy_two_edits_then_undo_returns_to_loaded() {
    let mut e = loaded_klassy("[Windeco]\nWindowCornerRadius=8\n");
    e.update_key("Windeco", "WindowCornerRadius", "9".to_string());
    e.update_key("Windeco", "WindowCornerRadius", "10".to_string());
    assert!(e.session.undo());
    assert_eq!(e.session.config.as_ref().unwrap().get_value("Windeco", "WindowCornerRadius"), Some("8"));
}

#[test]
fn klassy_default_path_and_errors() {
    let mut e = KlassyEditor::new();
    e.load_default(false);
    assert_eq!(e.session.error, Some("Klassy config file not found at default path.".to_string()));
    assert!(!e.session.loading);
    e.load_default(true);
    assert!(e.session.loading && e.session.error.is_none());
    let recent = e.config_loaded(Ok("[A]\nb=1\n".to_string()), "/d/klassyrc");
    assert_eq!(recent, Some("/d/klassyrc".to_string()));
    assert_eq!(e.file_path, Some("/d/klassyrc".to_string()));
    let mut f = KlassyEditor::new();
    assert_eq!(f.config_loaded(Err("denied".to_string()), "/d/klassyrc"), None);
    assert_eq!(f.session.error, Some("denied".to_string()));
    assert!(f.save_request().is_none());
}

#[test]
fn klassy_bindings_apply() {
    let mut e = loaded_klassy("[Windeco]\nWindowCornerRadius=8\n");
    e.apply_binding(&ui_value_binding("klassy.corner_radius", "+14"));
    assert_eq!(e.session.config.as_ref().unwrap().get_value("Windeco", "WindowCornerRadius"), Some("14"));
    e.apply_binding(&ui_value_binding("color.klassy.close_icon_color.hex", "#ff0000"));
    let c = e.session.config.as_ref().unwrap();
    assert_eq!(c.get_value("ButtonColors", "CloseButtonCustomIconColorActive"), Some("255,0,0"));
    assert_eq!(c.get_value("Windeco", "CloseButtonCustomIconColorInactive"), Some("255,0,0"));
    e.apply_binding(&ui_toggle_binding("klassy.titlebar_separator", false));
    assert_eq!(e.session.config.as_ref().unwrap().get_value("Windeco", "DrawTitleBarSeparator"), Some("false"));
    let before = e.session.config.as_ref().unwrap().get_value("Windeco", "WindowCornerRadius").map(|s| s.to_string());
    e.apply_binding(&ui_value_binding("klassy.corner_radius", "wide"));
    assert_eq!(e.session.config.as_ref().unwrap().get_value("Windeco", "WindowCornerRadius").map(|s| s.to_string()), before);
}

#[test]
fn value_bindings_table() {
    assert!(matches!(ui_value_binding("klassy.button_shape", "SmallCircle"),
        Binding::Klassy(ref t, ref v) if t == &vec![("Windeco".to_string(), "ButtonShape".to_string())] && v == "ShapeSmallCircle"));
    assert!(matches!(ui_value_binding("klassy.titlebar_top_margin", "4.50"),
        Binding::KlassyDecimal(ref s, ref k, ref v) if s == "TitleBarSpacing" && k == "TitleBarTopMargin" && v == "4.50"));
    assert!(matches!(ui_value_binding("kvantum.scrollbar_width", "12"),
        Binding::KvantumGeneral(ref k, ref v) if k == "slider_width" && v == "12"));
    assert!(matches!(ui_value_binding("kvantum.highlight_opacity", "12"), Binding::Nothing));
    assert!(matches!(ui_value_binding("kvantum.widget.Tab.inherits", "(none)"),
        Binding::KvantumWidget(ref s, ref k, None) if s == "Tab" && k == "inherits"));
    assert!(matches!(ui_value_binding("kvantum.widget.Tab.frame.top", "2"),
        Binding::KvantumWidget(ref s, ref k, Some(ref v)) if s == "Tab" && k == "frame.top" && v == "2"));
    assert!(matches!(ui_value_binding("kvantum.widget..x", "2"), Binding::Nothing));
    assert!(matches!(ui_value_binding("kvantum.general.author", "Me"),
        Binding::KvantumGeneral(ref k, ref v) if k == "author" && v == "Me"));
    assert!(matches!(ui_value_binding("kvantum.hacks.search", "x"), Binding::Nothing));
    assert!(matches!(ui_value_binding("kvantum.hacks.", "x"), Binding::Nothing));
    assert!(matches!(ui_value_binding("color.kvantum.color.window.color.hex", "10,20,30"),
        Binding::KvantumColor(ref k, ref v) if k == "window.color" && v == "#0a141e"));
    assert!(matches!(ui_value_binding("color.kvantum.color.hex", "#000000"), Binding::Nothing));
    assert!(matches!(ui_value_binding("unknown.key", "x"), Binding::Nothing));
}

#[test]
fn toggle_bindings_table() {
    assert!(matches!(ui_toggle_binding("kvantum.composite", true),
        Binding::KvantumGeneral(ref k, ref v) if k == "composite" && v == "true"));
    assert!(matches!(ui_toggle_binding("kvantum.general.left_tabs", false),
        Binding::KvantumGeneral(ref k, ref v) if k == "left_tabs" && v == "false"));
    assert!(matches!(ui_toggle_binding("kvantum.transparent_dolphin", true),
        Binding::KvantumHack(ref k, ref v) if k == "transparent_dolphin_view" && v == "true"));
    assert!(matches!(ui_toggle_binding("kvantum.hacks.x", true),
        Binding::KvantumHack(ref k, _) if k == "x"));
    assert!(matches!(ui_toggle_binding("klassy.nothing", true), Binding::Nothing));
}

fn theme(content: &str, svg: Option<&str>) -> KvantumThemeData {
    KvantumThemeData {
        config: KvantumConfig::from_ini(&parse_ini(content)),
        svg_content: svg.map(|s| s.to_string()),
        theme_name: "T".to_string(),
        dir_path: "/k/T".to_string(),
    }
}

#[test]
fn kvantum_session_edits_and_save() {
    let mut e = KvantumEditor::new();
    e.session.begin_load();
    let recent = e.theme_loaded("/k/T".to_string(), "T".to_string(),
        Ok(theme("[%General]\nauthor=a\n[GeneralColors]\nwindow.color=#000000\n[Tab]\nframe=true\n", Some("<svg/>"))));
    assert_eq!(recent, Some("/k/T".to_string()));
    assert!(!e.session.is_dirty());
    e.update_color("window.color", "#111111".to_string());
    e.update_general("author", "b".to_string());
    e.update_section("Hacks", "blur_translucent", "true".to_string());
    e.update_section("Tab", "frame", "false".to_string());
    e.update_section("Missing", "k", "v".to_string());
    let c = e.session.config.as_ref().unwrap();
    assert_eq!(c.colors.get_value("window.color"), Some("#111111"));
    assert_eq!(c.general.get_value("author"), Some("b"));
    assert_eq!(c.hacks.get_str("blur_translucent"), Some("true"));
    assert_eq!(c.get_section("Tab").unwrap().get_value("frame"), Some("false"));
    assert!(c.get_section("Missing").is_none());
    let save = e.save_request().unwrap();
    assert_eq!(save.kvconfig_path, "/k/T/T.kvconfig");
    assert_eq!(save.svg, Some(("/k/T/T.svg".to_string(), "<svg/>".to_string())));
    assert!(save.content.contains("[Tab]\nframe=false\n"));
    assert_eq!(e.apply_target(), Ok("T".to_string()));
    e.update_fill("nope", "#fff");
    assert_eq!(e.svg_content, Some("<svg/>".to_string()));
    e.svg_imported(Some("<svg id=\"a\"/>".to_string()));
    assert_eq!(e.svg_content, Some("<svg id=\"a\"/>".to_string()));
}

#[test]
fn kvantum_bindings_record_edited_state() {
    let mut e = KvantumEditor::new();
    e.theme_loaded("/k/T".to_string(), "T".to_string(), Ok(theme("[%General]\nauthor=a\n", None)));
    e.apply_binding(&ui_value_binding("kvantum.widget.Tab.inherits", "PanelButtonCommand"));
    assert_eq!(e.session.config.as_ref().unwrap().get_section("Tab").unwrap().get_value("inherits"), Some("PanelButtonCommand"));
    e.apply_binding(&ui_value_binding("kvantum.widget.Tab.inherits", "(none)"));
    assert_eq!(e.session.config.as_ref().unwrap().get_section("Tab").unwrap().get_value("inherits"), None);
    e.apply_binding(&ui_toggle_binding("kvantum.composite", true));
    assert!(e.session.config.as_ref().unwrap().general.composite());
    assert!(e.session.undo());
    assert_eq!(e.session.config.as_ref().unwrap().general.get_value("composite"), None);
    let none = KvantumEditor::new();
    assert_eq!(none.apply_target(), Err("No theme name to apply.".to_string()));
    assert_eq!(no_active_theme_error(), "No active Kvantum theme found.");
    assert_eq!(Page::Home, Page::Home);
    let mut failed = KvantumEditor::new();
    assert_eq!(failed.theme_loaded("/x".to_string(), "x".to_string(), Err("gone".to_string())), None);
    assert_eq!(failed.session.error, Some("gone".to_string()));
}

#[test]
fn settings_file_and_recent_files() {
    assert_eq!(auto_apply_setting("[settings]\nauto_apply=true\n"), Some(true));
    assert_eq!(auto_apply_setting("auto_apply=true\nauto_apply=no\n"), Some(false));
    assert_eq!(auto_apply_setting("[settings]\n"), None);
    assert_eq!(settings_text(true), "[settings]\nauto_apply=true\n");
    let mut list: Vec<String> = (0..10).map(|i| format!("/f{}", i)).collect();
    add_recent_file(&mut list, "/f5".to_string());
    assert_eq!(list[0], "/f5");
    assert_eq!(list.len(), 10);
    add_recent_file(&mut list, "/new".to_string());
    assert_eq!(list.len(), 10);
    assert_eq!(list[0], "/new");
    assert_eq!(list[1], "/f5");
    assert!(!list.contains(&"/f9".to_string()));
    assert_eq!(recent_files_text(&vec!["/a".to_string(), "/b".to_string()]), "/a\n/b");
    assert_eq!(recent_files_from_text("/a\n\n/b\n"), vec!["/a".to_string(), "/b".to_string()]);
}

#[test]
fn palettes_and_reports() {
    let mut m = StrMap::new();
    m.insert("primary".to_string(), "#111111".to_string());
    m.insert("zzz".to_string(), "#222222".to_string());
    m.insert("source_color".to_string(), "#333333".to_string());
    assert_eq!(palette_pairs(&m), vec![
        ("source_color".to_string(), "#333333".to_string()),
        ("primary".to_string(), "#111111".to_string()),
    ]);
    let map = pairs_to_map(&Some(vec![("a".to_string(), "1".to_string()), ("a".to_string(), "2".to_string())]));
    assert_eq!(map.get_str("a"), Some("2"));
    assert!(pairs_to_map(&None).is_empty());
    let ok = ProcessResult { exit_code: 0, stdout: "out".to_string(), stderr: String::new() };
    let bad = ProcessResult { exit_code: 1, stdout: String::new(), stderr: "err".to_string() };
    assert_eq!(run_text_result(Ok(ok.clone())), Ok("out".to_string()));
    assert_eq!(run_text_result(Ok(bad.clone())), Err("err".to_string()));
    assert_eq!(reload_klassy_report(&Ok(ok.clone())), "Klassy reloaded successfully.");
    assert_eq!(reload_klassy_report(&Err("x".to_string())), "Error: x");
    assert_eq!(reload_kvantum_report(&None), "Error: No active Kvantum theme to reload.");
    assert_eq!(reload_kvantum_report(&Some(Ok(bad.clone()))), "Error: err");
    assert_eq!(system_theme_result("T", &Ok(ok)), Ok("T".to_string()));
    assert_eq!(system_theme_result("T", &Ok(bad)), Err("Failed: err".to_string()));
    assert_eq!(applied_status("T"), "Applied: T");
}

#[test]
fn color_controls_are_known() {
    assert!(is_color_control_key("color.klassy.shadow_color.hex"));
    assert!(!is_color_control_key("color.klassy.other.hex"));
    assert!(is_color_control_key("color.kvantum.color.link.color.hex"));
    assert!(!is_color_control_key("klassy.corner_radius"));
}

#[test]
fn opening_pages_loads_once() {
    let k = KlassyEditor::new();
    let v = KvantumEditor::new();
    assert_eq!(load_on_open(Page::Klassy, &k, &v), PageLoad::KlassyDefault);
    assert_eq!(load_on_open(Page::Kvantum, &k, &v), PageLoad::ActiveKvantumTheme);
    assert_eq!(load_on_open(Page::Home, &k, &v), PageLoad::Nothing);
    let loaded = loaded_klassy("[A]\nb=1\n");
    assert_eq!(load_on_open(Page::Klassy, &loaded, &v), PageLoad::Nothing);
    let mut busy = KvantumEditor::new();
    busy.session.begin_load();
    assert_eq!(load_on_open(Page::Kvantum, &k, &busy), PageLoad::Nothing);
}
