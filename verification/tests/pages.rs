use keasyditor_core::ini::parse_ini;
use keasyditor_core::kvantum_page::{
    split_theme_info, theme_info_text, KvantumAction, KvantumMessage, KvantumPage, SvgMessage,
};
use keasyditor_core::models::kvantum::config::KvantumConfig;
use keasyditor_core::editor::Page;
use keasyditor_core::pages::{shortcut_command, KlassyAction, KlassyEnv, KlassyMessage, KlassyPage, PageCommand, Shortcut};
use keasyditor_core::paths::{file_name, file_stem, join_path_text};
use keasyditor_core::services::kvantum_themes::KvantumThemeData;
use keasyditor_core::settings_page::{SettingsAction, SettingsEnv, SettingsMessage, SettingsPage};

fn klassy_env(auto_apply: bool) -> KlassyEnv {
    KlassyEnv { default_path: "/home/u/.config/klassy/klassyrc".to_string(), default_exists: true, auto_apply }
}

#[test]
fn klassy_page_load_edit_save_apply() {
    let env = klassy_env(false);
    let mut p = KlassyPage::new();
    let a = p.update(KlassyMessage::LoadDefault, &env);
    assert!(matches!(a.as_slice(), [KlassyAction::ReadFile(f)] if f == "/home/u/.config/klassy/klassyrc"));
    assert!(p.editor.session.loading);
    let a = p.update(KlassyMessage::ConfigLoaded(Ok("[Windeco]\nButtonShape=ShapeFullHeightRectangle\n".to_string())), &env);
    assert!(matches!(a.as_slice(), [KlassyAction::RecordRecent(f)] if f == "/home/u/.config/klassy/klassyrc"));
    assert!(!p.editor.session.loading);
    let a = p.update(
        KlassyMessage::UpdateKey { section: "Windeco".into(), key: "ButtonShape".into(), value: "ShapeSmallCircle".into() },
        &env,
    );
    assert!(a.is_empty());
    assert!(p.editor.session.is_dirty());
    let a = p.update(KlassyMessage::SaveAndApply, &env);
    match a.as_slice() {
        [KlassyAction::WriteFile { path, content, then_apply }] => {
            assert_eq!(path, "/home/u/.config/klassy/klassyrc");
            assert_eq!(content, "[Windeco]\nButtonShape=ShapeSmallCircle\n");
            assert!(*then_apply);
        }
        _ => panic!("expected one write"),
    }
    let a = p.update(KlassyMessage::SavedThenApply(Ok(())), &env);
    assert!(matches!(a.as_slice(), [KlassyAction::FlashSaved, KlassyAction::ReconfigureKwin]));
    assert!(!p.editor.session.is_dirty());
    let a = p.update(KlassyMessage::Applied(Err("no kwin".into())), &env);
    assert!(a.is_empty());
    assert_eq!(p.editor.session.error, Some("Apply failed: no kwin".to_string()));
}

#[test]
fn klassy_page_missing_default_and_presets() {
    let env = KlassyEnv { default_path: "/x".into(), default_exists: false, auto_apply: true };
    let mut p = KlassyPage::new();
    assert!(p.update(KlassyMessage::LoadDefault, &env).is_empty());
    assert_eq!(p.editor.session.error, Some("Klassy config file not found at default path.".to_string()));
    assert!(p.update(KlassyMessage::Save, &env).is_empty());
    let a = p.update(KlassyMessage::ShowPresetPicker, &env);
    assert!(matches!(a.as_slice(), [KlassyAction::DiscoverPresets]));
    assert!(p.show_presets);
    p.update(KlassyMessage::PresetsLoaded(vec!["A".into()]), &env);
    assert!(p.update(KlassyMessage::ShowPresetPicker, &env).is_empty());
    let a = p.update(KlassyMessage::ApplyPreset("A".into()), &env);
    assert!(matches!(a.as_slice(), [KlassyAction::RunPreset(n)] if n == "A"));
    assert!(!p.show_presets);
    p.update(KlassyMessage::TabChanged(3), &env);
    assert_eq!(p.tab, 3);
    let a = p.update(KlassyMessage::Saved(Ok(())), &env);
    assert!(matches!(a.as_slice(), [KlassyAction::FlashSaved, KlassyAction::ReconfigureKwin]));
    p.update(KlassyMessage::Saved(Err("disk".into())), &env);
    assert_eq!(p.editor.session.error, Some("Save failed: disk".to_string()));
}

#[test]
fn theme_info_splits_at_first_separator() {
    assert_eq!(theme_info_text("/k/T", "T"), "/k/T|||T");
    assert_eq!(split_theme_info("/k/T|||T"), Some(("/k/T".to_string(), "T".to_string())));
    assert_eq!(split_theme_info("a|||b|||c"), Some(("a".to_string(), "b|||c".to_string())));
    assert_eq!(split_theme_info("a||b"), None);
    assert_eq!(split_theme_info("|||"), Some((String::new(), String::new())));
}

#[test]
fn file_names_and_stems() {
    assert_eq!(file_name("/home/u/.config/Kvantum/MyTheme"), Some("MyTheme".to_string()));
    assert_eq!(file_name("/a/b/"), Some("b".to_string()));
    assert_eq!(file_name("/a/b/."), Some("b".to_string()));
    assert_eq!(file_name("/a/.."), None);
    assert_eq!(file_name("/"), None);
    assert_eq!(file_name(""), None);
    assert_eq!(file_stem("/x/MyTheme.kvconfig"), Some("MyTheme".to_string()));
    assert_eq!(file_stem("/x/a.tar.gz"), Some("a.tar".to_string()));
    assert_eq!(file_stem("/x/.hidden"), Some(".hidden".to_string()));
    assert_eq!(file_stem("/x/plain"), Some("plain".to_string()));
    assert_eq!(file_stem("/"), None);
    for base in ["", "/", "/k", "/k/"] {
        assert_eq!(file_name(&join_path_text(base, "Theme")), Some("Theme".to_string()));
    }
}

fn theme_data(content: &str) -> KvantumThemeData {
    KvantumThemeData {
        config: KvantumConfig::from_ini(&parse_ini(content)),
        svg_content: Some("<svg><rect id=\"a\" style=\"fill:#000000\"/></svg>".to_string()),
        theme_name: "T".to_string(),
        dir_path: "/k/T".to_string(),
    }
}

#[test]
fn kvantum_page_load_edit_save() {
    let mut p = KvantumPage::new();
    let a = p.update(KvantumMessage::LoadTheme("/k/T".into()), false);
    assert!(matches!(a.as_slice(), [KvantumAction::ReadTheme { dir, name }] if dir == "/k/T" && name == "T"));
    assert!(p.editor.session.loading);
    let a = p.update(
        KvantumMessage::ThemeRead {
            dir: "/k/T".into(),
            name: "T".into(),
            result: Ok(theme_data("[%General]\nauthor=a\n[GeneralColors]\nwindow.color=#000000\n")),
        },
        false,
    );
    assert!(matches!(a.as_slice(), [KvantumAction::RecordRecent(d)] if d == "/k/T"));
    assert!(!p.editor.session.loading);
    p.update(KvantumMessage::UpdateColor { key: "window.color".into(), value: "#101010".into() }, false);
    assert!(p.editor.session.is_dirty());
    let a = p.update(KvantumMessage::Save, false);
    match a.as_slice() {
        [KvantumAction::WriteTheme { save, then_apply }] => {
            assert_eq!(save.kvconfig_path, "/k/T/T.kvconfig");
            assert!(save.content.contains("window.color=#101010"));
            assert!(!*then_apply);
        }
        _ => panic!("expected one write"),
    }
    let a = p.update(KvantumMessage::Saved(Ok(())), true);
    assert!(matches!(a.as_slice(), [KvantumAction::FlashSaved, KvantumAction::ActivateTheme(n)] if n == "T"));
    assert!(!p.editor.session.is_dirty());
    p.update(KvantumMessage::Undo, false);
    assert!(p.editor.session.is_dirty());
    let a = p.update_svg(SvgMessage::UpdateFill { element_id: "a".into(), color: "#ff0000".into() });
    assert!(a.is_empty());
    assert!(p.editor.svg_content.as_ref().unwrap().contains("fill:#ff0000"));
    let a = p.update_svg(SvgMessage::ImportSvg);
    assert!(matches!(a.as_slice(), [KvantumAction::PickSvgFile]));
    p.update_svg(SvgMessage::SelectElement("a".into()));
    assert!(p.editor.svg_content.as_ref().unwrap().contains("fill:#ff0000"));
}

#[test]
fn kvantum_page_errors_and_pickers() {
    let mut p = KvantumPage::new();
    let a = p.update(KvantumMessage::LoadActiveTheme, false);
    assert!(matches!(a.as_slice(), [KvantumAction::ResolveActiveTheme]));
    assert!(p.update(KvantumMessage::ThemeLoaded(Ok("no separator".into())), false).is_empty());
    assert_eq!(p.editor.session.error, Some("Failed to parse theme info".to_string()));
    assert!(!p.editor.session.loading);
    p.update(KvantumMessage::ThemeLoaded(Err("No active Kvantum theme found.".into())), false);
    assert_eq!(p.editor.session.error, Some("No active Kvantum theme found.".to_string()));
    assert!(p.update(KvantumMessage::Apply, false).is_empty());
    assert_eq!(p.editor.session.error, Some("Apply failed: No theme name to apply.".to_string()));
    p.update(KvantumMessage::ThemesDiscovered(vec![("Alpha".into(), "/usr/share/Kvantum/Alpha".into(), true)]), false);
    assert_eq!(p.installed, vec![("Alpha".to_string(), true)]);
    let a = p.update(KvantumMessage::SelectTheme("Alpha".into()), false);
    assert!(matches!(a.as_slice(), [KvantumAction::ReadTheme { dir, name }] if dir == "/usr/share/Kvantum/Alpha" && name == "Alpha"));
    assert!(p.update(KvantumMessage::SelectTheme("Beta".into()), false).is_empty());
    let a = p.update(KvantumMessage::NewThemeCreated(Some("/tmp/MyNew.kvconfig".into())), false);
    assert!(matches!(a.as_slice(), [KvantumAction::CreateTheme(n)] if n == "MyNew"));
    let a = p.update(KvantumMessage::ThemeCreated(Ok("/k/MyNew".into())), false);
    assert!(matches!(a.as_slice(),
        [KvantumAction::ShowPage, KvantumAction::ReadTheme { dir, name }, KvantumAction::DiscoverThemes]
            if dir == "/k/MyNew" && name == "MyNew"));
    p.update(KvantumMessage::ThemeCreated(Err("exists".into())), false);
    assert_eq!(p.editor.session.error, Some("Failed to create theme: exists".to_string()));
    let a = p.update(KvantumMessage::SystemThemeApplied(Ok("Alpha".into())), false);
    assert!(matches!(a.as_slice(), [KvantumAction::ResolveActiveTheme]));
    assert_eq!(p.reload_status, Some("Applied: Alpha".to_string()));
    assert_eq!(p.active_theme, Some("Alpha".to_string()));
    assert!(p.editor.session.config.is_none());
    p.update(KvantumMessage::SystemThemeApplied(Err("Failed: x".into())), false);
    assert_eq!(p.reload_status, Some("Failed: x".to_string()));
}

#[test]
fn settings_page_flow() {
    let env = SettingsEnv { kvantum_theme: Some("T".into()), no_palette_text: "No palette".into() };
    let mut p = SettingsPage::new();
    p.update(SettingsMessage::AppSettingsLoaded(Ok("[settings]\nauto_apply=true\n".into())), &env);
    assert!(p.auto_apply);
    let a = p.update(SettingsMessage::ToggleAutoApply(false), &env);
    assert!(matches!(a.as_slice(), [SettingsAction::WriteSettings(t)] if t == "[settings]\nauto_apply=false\n"));
    assert!(!p.auto_apply);
    let a = p.update(SettingsMessage::ReloadKvantum, &env);
    assert!(matches!(a.as_slice(), [SettingsAction::ReloadKvantum(Some(n))] if n == "T"));
    assert_eq!(p.reload_status, Some("Reloading Kvantum...".to_string()));
    p.update(SettingsMessage::ReloadKvantumResult(Err("Error: x".into())), &env);
    assert_eq!(p.reload_status, Some("Error: x".to_string()));
    p.update(SettingsMessage::ShowApplyToSystemConfirm, &env);
    assert!(p.show_confirm);
    assert!(p.update(SettingsMessage::ApplyToSystem, &env).is_empty());
    assert!(!p.show_confirm);
    assert_eq!(p.apply_status, Some((false, vec!["No palette".to_string()])));
    p.update(
        SettingsMessage::WallpaperPaletteResult {
            dark: Some(vec![("primary".into(), "#112233".into())]),
            light: None,
            is_dark: false,
        },
        &env,
    );
    assert!(!p.prefer_dark);
    let a = p.update(SettingsMessage::ApplyToSystem, &env);
    match a.as_slice() {
        [SettingsAction::ApplyToSystem { dark, light, prefer_dark }] => {
            assert_eq!(dark.get_str("primary"), Some("#112233"));
            assert!(light.is_empty());
            assert!(!*prefer_dark);
        }
        _ => panic!("expected one apply"),
    }
    let a = p.update(SettingsMessage::ApplyToSystemResult { ok: true, steps: vec!["done".into()] }, &env);
    assert!(matches!(a.as_slice(), [SettingsAction::DiscoverThemes]));
    assert!(p.update(SettingsMessage::DetectWallpaper, &env).is_empty());
}

#[test]
fn shortcuts_go_to_the_shown_page() {
    assert!(matches!(shortcut_command(Page::Klassy, Shortcut::Undo), PageCommand::Klassy(KlassyMessage::Undo)));
    assert!(matches!(shortcut_command(Page::Kvantum, Shortcut::Save), PageCommand::Kvantum(KvantumMessage::Save)));
    assert!(matches!(shortcut_command(Page::Kvantum, Shortcut::Redo), PageCommand::Kvantum(KvantumMessage::Redo)));
    assert!(matches!(shortcut_command(Page::Home, Shortcut::Save), PageCommand::Nothing));
    assert!(matches!(shortcut_command(Page::Settings, Shortcut::Undo), PageCommand::Nothing));
}
