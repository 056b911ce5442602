use keasyditor_core::color::Rgba;
use keasyditor_core::models::kvantum::colors::KvantumColors;
use keasyditor_core::services::apply_steps::{
    child_path, color_schemes_dir, colorscheme_applied, klassy_step, kwin_step,
    load_failed_message, needs_template, no_active_theme_message, plasma_sync_step,
    reactivate_step, save_step, scheme_file_path, template_candidates, theme_not_found_message,
    usable_as_template, KvantumPlasmaSyncOutcome, WallpaperApplyOutcome,
};
use keasyditor_core::services::klassy_files::klpw_missing_section_error;
use keasyditor_core::services::kvantum_themes::KvantumThemeData;
use keasyditor_core::services::palette::wallpaper_image_candidates;
use keasyditor_core::services::plasma::{
    plasma_scheme_text, scheme_colors_readable, scheme_palette, SchemeBlends,
};
use keasyditor_core::services::process::ProcessResult;
use keasyditor_core::models::kvantum::config::KvantumConfig;
use keasyditor_core::ini::parse_ini;

/// `bg` moved toward `fg` by the fraction `t`, channel by channel.
fn toward_fg(bg: Rgba, fg: Rgba, t: f32) -> Rgba {
    let mix = |a: u8, b: u8| -> u8 {
        let v = a as f32 + (b as f32 - a as f32) * t;
        v.clamp(0.0, 255.0) as u8
    };
    Rgba::rgb(mix(bg.r, fg.r), mix(bg.g, fg.g), mix(bg.b, fg.b))
}

/// The Plasma scheme of a Kvantum palette, assembled from the library's
/// parts with the blends mixed here.
fn build_plasma_scheme_from_kvantum(scheme_name: &str, colors: &KvantumColors) -> String {
    assert!(scheme_colors_readable(colors));
    let p = scheme_palette(colors);
    let b = SchemeBlends {
        header_bg: toward_fg(p.window, p.window_fg, 0.08),
        tooltip_bg: toward_fg(p.window, p.window_fg, 0.15),
        complementary_bg: toward_fg(p.window, p.window_fg, 0.04),
        window_alt: toward_fg(p.window, p.window_fg, 0.04),
        button_alt: toward_fg(p.button, p.button_fg, 0.04),
        wm_inactive_bg: toward_fg(p.window, p.disabled_fg, 0.25),
    };
    plasma_scheme_text(scheme_name, &p, &b)
}

fn section_bg_rgb(content: &str, section: &str) -> (u8, u8, u8) {
    let sec_idx = content
        .find(&format!("[{}]", section))
        .unwrap_or_else(|| panic!("section [{}] missing", section));
    let rest = &content[sec_idx..];
    let line = rest
        .lines()
        .find(|l| l.starts_with("BackgroundNormal="))
        .expect("BackgroundNormal line missing");
    let parts: Vec<u8> = line
        .trim_start_matches("BackgroundNormal=")
        .split(',')
        .map(|s| s.parse().unwrap())
        .collect();
    (parts[0], parts[1], parts[2])
}

fn lum(rgb: (u8, u8, u8)) -> f32 {
    0.299 * rgb.0 as f32 + 0.587 * rgb.1 as f32 + 0.114 * rgb.2 as f32
}

#[test]
fn build_plasma_scheme_from_kvantum_writes_window_bg() {
    let mut colors = KvantumColors::empty();
    colors.set_value("window.color", "#112233".to_string());
    colors.set_value("window.text.color", "#eeeeee".to_string());
    colors.set_value("button.color", "#445566".to_string());
    colors.set_value("highlight.color", "#778899".to_string());
    colors.set_value("disabled.text.color", "#808080".to_string());

    let content = build_plasma_scheme_from_kvantum("TestScheme", &colors);
    assert!(content.contains("Name=TestScheme"));
    assert!(content.contains("[Colors:Window]"));
    assert!(content.contains("BackgroundNormal=17,34,51"));
    assert!(content.contains("[Colors:Selection]"));
    assert!(content.contains("BackgroundNormal=119,136,153"));
    assert!(content.contains("[WM]"));
    assert!(content.contains("activeBackground="));
}

#[test]
fn light_kvantum_theme_produces_light_header_and_tooltip() {
    let mut colors = KvantumColors::empty();
    colors.set_value("window.color", "#fff8f8".to_string());
    colors.set_value("window.text.color", "#22191b".to_string());
    colors.set_value("base.color", "#fff8f8".to_string());
    colors.set_value("text.color", "#22191b".to_string());
    colors.set_value("button.color", "#f2dde1".to_string());
    colors.set_value("button.text.color", "#22191b".to_string());
    colors.set_value("light.color", "#22191b".to_string());
    colors.set_value("dark.color", "#837376".to_string());
    colors.set_value("highlight.color", "#8c4a5f".to_string());
    colors.set_value("highlight.text.color", "#ffffff".to_string());

    let content = build_plasma_scheme_from_kvantum("LightRegression", &colors);

    let window_lum = lum(section_bg_rgb(&content, "Colors:Window"));
    let header_lum = lum(section_bg_rgb(&content, "Colors:Header"));
    let tooltip_lum = lum(section_bg_rgb(&content, "Colors:Tooltip"));

    assert!(header_lum > 200.0, "Header bg should be a light tint of window (lum {})", header_lum);
    assert!(tooltip_lum > 200.0, "Tooltip bg should be a light tint of window (lum {})", tooltip_lum);
    assert!(header_lum < window_lum);
    assert!(tooltip_lum < window_lum);
}

#[test]
fn dark_kvantum_theme_produces_dark_header_and_tooltip() {
    let mut colors = KvantumColors::empty();
    colors.set_value("window.color", "#101010".to_string());
    colors.set_value("window.text.color", "#dcdcdc".to_string());
    colors.set_value("base.color", "#101010".to_string());
    colors.set_value("text.color", "#dcdcdc".to_string());
    colors.set_value("button.color", "#1e1e20".to_string());
    colors.set_value("button.text.color", "#dcdcdc".to_string());
    colors.set_value("light.color", "#464648".to_string());
    colors.set_value("dark.color", "#141416".to_string());
    colors.set_value("mid.color", "#38383a".to_string());
    colors.set_value("highlight.color", "#808080".to_string());
    colors.set_value("highlight.text.color", "#ffffff".to_string());
    colors.set_value("disabled.text.color", "#dcdcdc".to_string());

    let content = build_plasma_scheme_from_kvantum("DarkRegression", &colors);

    let window_lum = lum(section_bg_rgb(&content, "Colors:Window"));
    let header_lum = lum(section_bg_rgb(&content, "Colors:Header"));
    let tooltip_lum = lum(section_bg_rgb(&content, "Colors:Tooltip"));
    let complementary_lum = lum(section_bg_rgb(&content, "Colors:Complementary"));

    assert!(header_lum < 128.0, "Header bg should stay dark (lum {})", header_lum);
    assert!(tooltip_lum < 128.0, "Tooltip bg should stay dark (lum {})", tooltip_lum);
    assert!(
        header_lum > window_lum,
        "Header bg ({}) should be brighter than window ({}) in dark theme",
        header_lum,
        window_lum
    );
    assert!(tooltip_lum > window_lum);
    assert!(complementary_lum > window_lum);
    assert!(complementary_lum < header_lum);
    assert!(header_lum < tooltip_lum);
}

#[test]
fn kvantum_theme_with_alpha_channel_ignores_alpha() {
    let mut colors = KvantumColors::empty();
    colors.set_value("window.color", "#101010a0".to_string());
    colors.set_value("window.text.color", "#dcdcdc".to_string());
    colors.set_value("base.color", "#101010a0".to_string());
    colors.set_value("alt.base.color", "#1e1e20a0".to_string());
    colors.set_value("text.color", "#dcdcdc".to_string());
    colors.set_value("button.color", "#1e1e20".to_string());
    colors.set_value("button.text.color", "#dcdcdc".to_string());
    colors.set_value("highlight.color", "#808080".to_string());
    colors.set_value("highlight.text.color", "#ffffff".to_string());

    let content = build_plasma_scheme_from_kvantum("AlphaTest", &colors);

    for line in content.lines().filter(|l| l.starts_with("BackgroundNormal=")) {
        let v = line.trim_start_matches("BackgroundNormal=");
        let parts: Vec<&str> = v.split(',').collect();
        assert_eq!(parts.len(), 3, "BackgroundNormal must be R,G,B (no alpha) — got '{}'", v);
        for p in parts {
            p.parse::<u8>().unwrap_or_else(|_| panic!("non-u8 component: {}", p));
        }
    }
    assert!(content.contains("BackgroundNormal=16,16,16"));
}

#[test]
fn plasma_scheme_text_exact_layout() {
    let colors = KvantumColors::empty();
    let p = scheme_palette(&colors);
    let black = Rgba::rgb(0, 0, 0);
    let b = SchemeBlends {
        header_bg: Rgba::rgb(1, 2, 3),
        tooltip_bg: black,
        complementary_bg: black,
        window_alt: black,
        button_alt: black,
        wm_inactive_bg: Rgba::rgb(4, 5, 6),
    };
    let text = plasma_scheme_text("Empty", &p, &b);
    assert!(text.starts_with("[ColorEffects:Disabled]\nColor=56,56,56\n"));
    assert!(text.contains("\n\n[Colors:Window]\nBackgroundNormal=0,0,0\nBackgroundAlternate=0,0,0\n"));
    assert!(text.contains("ForegroundNegative=237,21,21\nForegroundNeutral=246,116,0\nForegroundPositive=39,174,96\n"));
    assert!(text.ends_with(
        "[General]\nName=Empty\nshadeSortColumn=true\n\n[KDE]\ncontrast=4\n\n[WM]\nactiveBackground=1,2,3\nactiveForeground=0,0,0\ninactiveBackground=4,5,6\ninactiveForeground=0,0,0\n"
    ));
    assert_eq!(text.matches("[Colors:").count(), 7);
}

#[test]
fn scheme_colors_unreadable_detected() {
    let mut colors = KvantumColors::empty();
    assert!(scheme_colors_readable(&colors));
    colors.set_value("link.color", "#aé123".to_string());
    assert!(!scheme_colors_readable(&colors));
}

/// The first wallpaper candidate that exists on disk.
fn extract_image_from_content(content: &str) -> Option<String> {
    wallpaper_image_candidates(content)
        .into_iter()
        .find(|p| std::path::Path::new(p).exists())
}

#[test]
fn extract_image_from_content_file_url() {
    let content = format!("Image=file:///proc/self/exe\n");
    let result = extract_image_from_content(&content);
    assert_eq!(result, Some("/proc/self/exe".to_string()));
}

#[test]
fn extract_image_from_content_plain_path() {
    let content = "Image=/proc/self/exe\n";
    let result = extract_image_from_content(&content);
    assert_eq!(result, Some("/proc/self/exe".to_string()));
}

#[test]
fn extract_image_from_content_nonexistent() {
    let content = "Image=/nonexistent/path/wallpaper.png\n";
    assert!(extract_image_from_content(content).is_none());
}

#[test]
fn extract_image_from_content_no_image_key() {
    let content = "[Desktop]\nWallpaper=test.png\n";
    assert!(extract_image_from_content(content).is_none());
}

#[test]
fn wallpaper_candidates_in_order_trimmed() {
    let content = "[A]\nImage=  file:///x/a.png \r\nImage=\nImage=b.jpg\nNotImage=c\n";
    assert_eq!(
        wallpaper_image_candidates(content),
        vec!["/x/a.png".to_string(), "b.jpg".to_string()]
    );
}

#[test]
fn apply_outcome_records_steps() {
    let mut o = WallpaperApplyOutcome::new();
    assert!(o.ok && o.steps.is_empty());
    o.record_step(klassy_step(&Ok(())));
    assert!(o.ok);
    o.record_step(klassy_step(&Err("denied".to_string())));
    assert!(!o.ok);
    o.record(true, "later".to_string());
    assert!(!o.ok);
    assert_eq!(o.steps, vec![
        "Updated Klassy colors".to_string(),
        "Failed to update Klassy: denied".to_string(),
        "later".to_string(),
    ]);
}

#[test]
fn apply_step_messages() {
    assert_eq!(
        no_active_theme_message(),
        "No active Kvantum theme to overwrite — activate a theme first"
    );
    assert_eq!(load_failed_message("T", "gone"), "Failed to load active theme 'T': gone");
    assert_eq!(save_step("T", "/d/T", &Ok(())), (true, "Overwrote '[GeneralColors]' of 'T' at /d/T".to_string()));
    assert_eq!(save_step("T", "/d/T", &Err("ro".to_string())), (false, "Failed to save 'T': ro".to_string()));
    let ok = ProcessResult { exit_code: 0, stdout: String::new(), stderr: String::new() };
    let bad = ProcessResult { exit_code: 2, stdout: String::new(), stderr: "  boom \n".to_string() };
    assert_eq!(reactivate_step("T", &Ok(ok.clone())), (true, "Re-activated Kvantum theme 'T'".to_string()));
    assert_eq!(reactivate_step("T", &Ok(bad.clone())), (false, "kvantummanager --set failed: boom".to_string()));
    assert_eq!(reactivate_step("T", &Err("no such file".to_string())), (false, "kvantummanager not runnable: no such file".to_string()));
    let sync = KvantumPlasmaSyncOutcome { scheme_path: "/p".to_string(), scheme_name: "Kvantum-T".to_string() };
    assert_eq!(plasma_sync_step(&Ok(sync)), (true, "Derived Plasma color scheme 'Kvantum-T' from Kvantum theme".to_string()));
    assert_eq!(plasma_sync_step(&Err("x".to_string())), (false, "Plasma color scheme sync failed: x".to_string()));
    assert_eq!(kwin_step(&Ok(ok.clone())), (true, "Reconfigured KWin".to_string()));
    assert_eq!(kwin_step(&Ok(bad.clone())), (false, "KWin reconfigure failed: boom".to_string()));
    assert_eq!(kwin_step(&Err("y".to_string())), (false, "KWin reconfigure failed: y".to_string()));
    assert_eq!(colorscheme_applied(&ok), Ok(()));
    assert_eq!(colorscheme_applied(&bad), Err("plasma-apply-colorscheme failed: boom".to_string()));
}

#[test]
fn apply_paths_and_errors() {
    assert_eq!(child_path("/home/u/.config/Kvantum", "Teto"), "/home/u/.config/Kvantum/Teto");
    assert_eq!(color_schemes_dir("/home/u"), "/home/u/.local/share/color-schemes");
    assert_eq!(scheme_file_path("/s", "Kvantum-T"), "/s/Kvantum-T.colors");
    assert_eq!(
        theme_not_found_message("Q"),
        "Kvantum theme 'Q' not found in user or system directory"
    );
    assert_eq!(
        klpw_missing_section_error("/x.klpw"),
        "Invalid .klpw file: no [Windeco Preset <name>] section found in \"/x.klpw\""
    );
    assert_eq!(
        template_candidates(true),
        vec!["/usr/share/Kvantum/KvAdaptaDark", "/usr/share/Kvantum/KvDark", "/usr/share/Kvantum/KvAdapta"]
    );
    assert_eq!(
        template_candidates(false),
        vec!["/usr/share/Kvantum/KvAdapta", "/usr/share/Kvantum/KvFlat", "/usr/share/Kvantum/KvBeige"]
    );
}

#[test]
fn template_decisions() {
    let bare = KvantumThemeData {
        config: KvantumConfig::from_ini(&parse_ini("[%General]\nauthor=a\n[GeneralColors]\nwindow.color=#000000\n")),
        svg_content: Some("<svg/>".to_string()),
        theme_name: "Bare".to_string(),
        dir_path: "/t/Bare".to_string(),
    };
    assert!(needs_template(&bare));
    assert!(!usable_as_template(&bare));
    let full = KvantumThemeData {
        config: KvantumConfig::from_ini(&parse_ini("[%General]\nauthor=a\n[PanelButtonCommand]\nframe=true\n")),
        svg_content: Some("<svg/>".to_string()),
        theme_name: "Full".to_string(),
        dir_path: "/t/Full".to_string(),
    };
    assert!(!needs_template(&full));
    assert!(usable_as_template(&full));
    let no_svg = KvantumThemeData { svg_content: None, ..full.clone() };
    assert!(needs_template(&no_svg));
    assert!(!usable_as_template(&no_svg));
}
