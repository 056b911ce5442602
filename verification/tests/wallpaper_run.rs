use keasyditor_core::color::Rgba;
use keasyditor_core::ini::parse_ini;
use keasyditor_core::models::kvantum::config::KvantumConfig;
use keasyditor_core::services::apply_steps::{
    wallpaper_apply_begin, wallpaper_apply_step, KvantumPlasmaSyncOutcome, WallpaperAction,
    WallpaperApplyOutcome, WallpaperApplyState, WallpaperEvent, WallpaperSetup,
};
use keasyditor_core::services::kvantum_themes::KvantumThemeData;
use keasyditor_core::services::process::ProcessResult;
use keasyditor_core::services::wallpaper::kvantum_color_mapping;
use keasyditor_core::strmap::StrMap;

fn setup(variant: StrMap) -> WallpaperSetup {
    WallpaperSetup {
        prefer_dark: true,
        variant,
        config_root: "/cfg".to_string(),
        system_root: "/sys".to_string(),
    }
}

fn theme(name: &str, svg: Option<&str>, kvconfig: &str) -> KvantumThemeData {
    KvantumThemeData {
        config: KvantumConfig::from_ini(&parse_ini(kvconfig)),
        svg_content: svg.map(|s| s.to_string()),
        theme_name: name.to_string(),
        dir_path: format!("/somewhere/{}", name),
    }
}

fn step(state: WallpaperApplyState, event: WallpaperEvent) -> (WallpaperApplyState, WallpaperAction) {
    assert!(state.accepts(&event));
    wallpaper_apply_step(state, event)
}

fn done(action: WallpaperAction) -> WallpaperApplyOutcome {
    match action {
        WallpaperAction::Done(o) => o,
        _ => panic!("the run is not over"),
    }
}

fn process(code: i32, stderr: &str) -> ProcessResult {
    ProcessResult { exit_code: code, stdout: String::new(), stderr: stderr.to_string() }
}

#[test]
fn wallpaper_run_stops_without_active_theme() {
    let (state, action) = wallpaper_apply_begin(setup(StrMap::new()));
    assert!(matches!(action, WallpaperAction::UpdateKlassy));
    let (state, action) = step(state, WallpaperEvent::KlassyUpdated(Ok(())));
    assert!(matches!(action, WallpaperAction::ReadActiveTheme));
    let (_, action) = step(state, WallpaperEvent::ActiveTheme(None));
    let o = done(action);
    assert!(!o.ok);
    assert_eq!(
        o.steps,
        vec![
            "Updated Klassy colors".to_string(),
            "No active Kvantum theme to overwrite — activate a theme first".to_string(),
        ]
    );
}

#[test]
fn wallpaper_run_tries_user_then_system_folder() {
    let (state, _) = wallpaper_apply_begin(setup(StrMap::new()));
    let (state, _) = step(state, WallpaperEvent::KlassyUpdated(Err("no klassyrc".to_string())));
    let (state, action) = step(state, WallpaperEvent::ActiveTheme(Some("Teto".to_string())));
    match action {
        WallpaperAction::LoadTheme(d) => assert_eq!(d, "/cfg/Teto"),
        _ => panic!("expected a load"),
    }
    let (state, action) = step(state, WallpaperEvent::ThemeLoaded(Err("missing".to_string())));
    match action {
        WallpaperAction::LoadTheme(d) => assert_eq!(d, "/sys/Teto"),
        _ => panic!("expected a load"),
    }
    let (_, action) = step(state, WallpaperEvent::ThemeLoaded(Err("boom".to_string())));
    let o = done(action);
    assert!(!o.ok);
    assert_eq!(
        o.steps,
        vec![
            "Failed to update Klassy: no klassyrc".to_string(),
            "Failed to load active theme 'Teto': boom".to_string(),
        ]
    );
}

#[test]
fn wallpaper_run_full_sequence() {
    let (kv_key, matugen_key) = kvantum_color_mapping()[0];
    let mut variant = StrMap::new();
    variant.insert(matugen_key.to_string(), "#112233".to_string());
    let (state, _) = wallpaper_apply_begin(setup(variant));
    assert!(state.palette_readable());
    let (state, _) = step(state, WallpaperEvent::KlassyUpdated(Ok(())));
    let (state, _) = step(state, WallpaperEvent::ActiveTheme(Some("Teto".to_string())));
    let (state, _) = step(state, WallpaperEvent::ThemeLoaded(Err("missing".to_string())));
    let bare = theme("Teto", None, "[%General]\nauthor=me\n[GeneralColors]\nwindow.color=#000000\n");
    let (state, action) = step(state, WallpaperEvent::ThemeLoaded(Ok(bare)));
    assert!(matches!(action, WallpaperAction::LoadTemplate(true)));
    let tpl = theme("KvAdaptaDark", Some("<svg tpl/>"), "[PanelButtonCommand]\nframe=true\n");
    let (state, action) = step(state, WallpaperEvent::TemplateLoaded(Some(tpl)));
    match &action {
        WallpaperAction::RecolorSvg(svg, colors) => {
            assert_eq!(svg, "<svg tpl/>");
            assert_eq!(colors.get_color(kv_key), Some(Rgba::rgb(0x11, 0x22, 0x33)));
        }
        _ => panic!("expected a recolour"),
    }
    let (state, action) = step(state, WallpaperEvent::Recolored("<svg new/>".to_string()));
    match &action {
        WallpaperAction::SaveTheme(dir, t) => {
            assert_eq!(dir, "/cfg/Teto");
            assert_eq!(t.dir_path, "/cfg/Teto");
            assert_eq!(t.theme_name, "Teto");
            assert_eq!(t.svg_content.as_deref(), Some("<svg new/>"));
            assert_eq!(t.config.colors.get_color(kv_key), Some(Rgba::rgb(0x11, 0x22, 0x33)));
            assert!(!t.config.has_no_widget_sections());
        }
        _ => panic!("expected a save"),
    }
    let (state, action) = step(state, WallpaperEvent::Saved(Ok(())));
    assert!(matches!(&action, WallpaperAction::ReactivateTheme(n) if n == "Teto"));
    let (state, action) = step(state, WallpaperEvent::Reactivated(Ok(process(0, ""))));
    assert!(matches!(&action, WallpaperAction::SyncPlasma(n) if n == "Teto"));
    let sync = KvantumPlasmaSyncOutcome {
        scheme_path: "/h/Kvantum-Teto.colors".to_string(),
        scheme_name: "Kvantum-Teto".to_string(),
    };
    let (state, action) = step(state, WallpaperEvent::PlasmaSynced(Ok(sync)));
    assert!(matches!(action, WallpaperAction::ReconfigureKwin));
    let (_, action) = step(state, WallpaperEvent::KwinReconfigured(Ok(process(1, " bad "))));
    let o = done(action);
    assert!(!o.ok);
    assert_eq!(
        o.steps,
        vec![
            "Updated Klassy colors".to_string(),
            "Overwrote '[GeneralColors]' of 'Teto' at /cfg/Teto".to_string(),
            "Re-activated Kvantum theme 'Teto'".to_string(),
            "Derived Plasma color scheme 'Kvantum-Teto' from Kvantum theme".to_string(),
            "KWin reconfigure failed: bad".to_string(),
        ]
    );
}

#[test]
fn wallpaper_run_succeeds_when_every_step_does() {
    let (state, _) = wallpaper_apply_begin(setup(StrMap::new()));
    let (state, _) = step(state, WallpaperEvent::KlassyUpdated(Ok(())));
    let (state, _) = step(state, WallpaperEvent::ActiveTheme(Some("Full".to_string())));
    let full = theme("Full", Some("<svg own/>"), "[PanelButtonCommand]\nframe=true\n");
    let (state, action) = step(state, WallpaperEvent::ThemeLoaded(Ok(full)));
    assert!(matches!(&action, WallpaperAction::RecolorSvg(s, _) if s == "<svg own/>"));
    assert!(!state.accepts(&WallpaperEvent::Saved(Ok(()))));
    let (state, _) = step(state, WallpaperEvent::Recolored("<svg r/>".to_string()));
    let (state, _) = step(state, WallpaperEvent::Saved(Ok(())));
    let (state, _) = step(state, WallpaperEvent::Reactivated(Ok(process(0, ""))));
    let sync = KvantumPlasmaSyncOutcome { scheme_path: "p".to_string(), scheme_name: "Kvantum-Full".to_string() };
    let (state, _) = step(state, WallpaperEvent::PlasmaSynced(Ok(sync)));
    let (_, action) = step(state, WallpaperEvent::KwinReconfigured(Ok(process(0, ""))));
    let o = done(action);
    assert!(o.ok);
    assert_eq!(o.steps.len(), 5);
    assert_eq!(o.steps[4], "Reconfigured KWin");
}
