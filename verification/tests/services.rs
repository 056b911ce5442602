use keasyditor_core::color::Rgba;
use keasyditor_core::ini::{parse_ini, serialize_ini};
use keasyditor_core::models::klassy::config::KlassyConfig;
use keasyditor_core::models::klassy::preset::KlassyPreset;
use keasyditor_core::models::kvantum::colors::KvantumColors;
use keasyditor_core::services::klassy_files::{klpw_document, preset_from_klpw};
use keasyditor_core::services::kvantum_themes::{
    active_theme_config_text, active_theme_from_doc, first_alphabetical, is_theme_candidate,
    new_theme_document, set_active_theme_in, sort_themes, KvantumThemeData, ThemeInfo,
};
use keasyditor_core::services::apply_steps::template_plan;
use keasyditor_core::models::kvantum::config::KvantumConfig;
use keasyditor_core::services::palette::{window_background_parts, MatugenPalette, PaletteColor};
use keasyditor_core::services::preview::{
    missing_tool_error, preview_png_path, spectacle_args, spectacle_outcome, PREVIEW_FILE,
    RENDER_WAIT_MS,
};
use keasyditor_core::services::process::{
    apply_kvantum_theme_command, colorscheme_step_after, kwin_needs_fallback, next_colorscheme_step, ColorSchemeStep,
    ProcessResult,
};
use keasyditor_core::services::wallpaper::{
    apply_palette_to_klassy, apply_palette_to_kvantum, klassy_color_mapping,
    kvantum_color_mapping, parse_six_hex, parse_three_hex, plasma_scheme_name_for_kvantum,
    sha1_hex,
};
use keasyditor_core::strmap::{KeyMap, StrMap};

#[test]
fn process_result_success() {
    let r = ProcessResult { exit_code: 0, stdout: "ok".to_string(), stderr: String::new() };
    assert!(r.is_success());
}

#[test]
fn process_result_failure() {
    let r = ProcessResult { exit_code: 1, stdout: String::new(), stderr: "error".to_string() };
    assert!(!r.is_success());
}

#[test]
fn process_result_display() {
    let r = ProcessResult { exit_code: 0, stdout: "hello".to_string(), stderr: "warn".to_string() };
    let s = r.describe();
    assert!(s.contains("exitCode=0"));
    assert!(s.contains("stdout=5"));
    assert!(s.contains("stderr=4"));
}

#[test]
fn process_description_counts_bytes() {
    let r = ProcessResult { exit_code: -1, stdout: "é".to_string(), stderr: String::new() };
    assert_eq!(r.describe(), "ProcessResult(exitCode=-1, stdout=2 chars, stderr=0 chars)");
    assert!(kwin_needs_fallback(&Ok(r.clone())));
    let fine = ProcessResult { exit_code: 0, stdout: String::new(), stderr: String::new() };
    assert!(!kwin_needs_fallback(&Ok(fine)));
    assert!(kwin_needs_fallback(&Err("qdbus6: not found".to_string())));
}

#[test]
fn colorscheme_steps_skip_the_target() {
    assert_eq!(next_colorscheme_step("BreezeLight", 0), ColorSchemeStep::Intermediate(1));
    assert_eq!(next_colorscheme_step("Mine", 0), ColorSchemeStep::Intermediate(0));
    assert_eq!(next_colorscheme_step("Breeze", 2), ColorSchemeStep::Target);
    assert_eq!(next_colorscheme_step("Mine", 3), ColorSchemeStep::Target);
    assert_eq!(colorscheme_step_after("Mine", 0, true), ColorSchemeStep::Target);
    assert_eq!(colorscheme_step_after("Mine", 0, false), ColorSchemeStep::Intermediate(1));
    assert_eq!(colorscheme_step_after("BreezeDark", 0, false), ColorSchemeStep::Intermediate(2));
    assert_eq!(colorscheme_step_after("Breeze", 1, false), ColorSchemeStep::Target);
    let c = apply_kvantum_theme_command("Teto");
    assert_eq!(c.program, "kvantummanager");
    assert_eq!(c.args, vec!["--set".to_string(), "Teto".to_string()]);
}

#[test]
fn klpw_round_trip() {
    let mut values = StrMap::new();
    values.insert("ButtonShape".to_string(), "ShapeSmallCircle".to_string());
    values.insert("AnimationsEnabled".to_string(), "true".to_string());
    let preset = KlassyPreset::new("Sunset".to_string(), values);
    let doc = klpw_document(&preset);
    let text = serialize_ini(&doc);
    assert_eq!(
        text,
        "[Klassy Window Decoration Preset File]\nVersion=1\n[Windeco Preset Sunset]\nAnimationsEnabled=true\nButtonShape=ShapeSmallCircle\n"
    );
    let back = preset_from_klpw(&parse_ini(&text)).unwrap();
    assert_eq!(back, preset);
}

#[test]
fn klpw_without_preset_section_is_refused() {
    let doc = parse_ini("[Klassy Window Decoration Preset File]\nVersion=1\n[Other]\na=1\n");
    assert!(preset_from_klpw(&doc).is_none());
}

#[test]
fn new_theme_document_holds_defaults() {
    let doc = new_theme_document();
    let text = serialize_ini(&doc);
    assert!(text.contains("[%General]"));
    assert!(text.contains("[GeneralColors]"));
    assert!(text.contains("highlight.color=#3F67A5"));
    assert_eq!(doc.get_value("%General", "comment"), Some("Created by KEasyDitor"));
    assert_eq!(doc.get_value("%General", "author"), Some(""));
}

#[test]
fn active_theme_prefers_general() {
    let doc = parse_ini("[%General]\ntheme=Old\n[General]\ntheme=New\n");
    assert_eq!(active_theme_from_doc(&doc), Some("New".to_string()));
    let mut legacy = parse_ini("[%General]\ntheme=Old\n");
    assert_eq!(active_theme_from_doc(&legacy), Some("Old".to_string()));
    set_active_theme_in(&mut legacy, "Teto");
    assert_eq!(active_theme_from_doc(&legacy), Some("Teto".to_string()));
    assert_eq!(active_theme_from_doc(&parse_ini("")), None);
    let mut both = parse_ini("[General]\ntheme=X\n");
    set_active_theme_in(&mut both, "N");
    assert_eq!(active_theme_from_doc(&both), Some("N".to_string()));
    assert_eq!(both.get_value("%General", "theme"), Some("N"));
}

#[test]
fn template_choice_is_first_alphabetical() {
    let c = vec![
        ("FakeGamma".to_string(), "g.svg".to_string()),
        ("FakeAlpha".to_string(), "a.svg".to_string()),
        ("FakeAlpha".to_string(), "a2.svg".to_string()),
    ];
    assert_eq!(first_alphabetical(&c), Some(1));
    assert_eq!(first_alphabetical(&Vec::new()), None);
}

#[test]
fn theme_listing_rules() {
    assert!(!is_theme_candidate("kvantum.kvconfig"));
    assert!(!is_theme_candidate(".hidden"));
    assert!(is_theme_candidate("KvFlat"));
    let t = |n: &str| ThemeInfo { name: n.to_string(), path: format!("/x/{}", n), is_system: false };
    let sorted = sort_themes(vec![t("b"), t("a"), t("c")]);
    let names: Vec<String> = sorted.iter().map(|i| i.name.clone()).collect();
    assert_eq!(names, vec!["a", "b", "c"]);
    assert_eq!(t("a").describe(), "ThemeInfo(\"a\", system=false)");
}

#[test]
fn key_colors_count() {
    assert_eq!(MatugenPalette::key_colors().len(), 18);
}

#[test]
fn key_colors_include_primary() {
    let k = MatugenPalette::key_colors();
    assert!(k.contains(&"primary"));
    assert!(k.contains(&"source_color"));
    assert!(k.contains(&"error"));
}

#[test]
fn palette_from_colors_splits_variants() {
    let colors = vec![
        PaletteColor { name: "primary".to_string(), dark: Some("#d4bca0".to_string()), light: Some("#5a4632".to_string()) },
        PaletteColor { name: "secondary".to_string(), dark: Some("#d5c3ad".to_string()), light: None },
    ];
    let p = MatugenPalette::from_colors("/tmp/test.png", &colors);
    assert_eq!(p.image_path, "/tmp/test.png");
    assert_eq!(p.dark.get("primary"), Some(&"#d4bca0".to_string()));
    assert_eq!(p.light.get("primary"), Some(&"#5a4632".to_string()));
    assert_eq!(p.dark.len(), 2);
    assert_eq!(p.light.len(), 1);
}

#[test]
fn kdeglobals_background_parts() {
    let parts = window_background_parts("[General]\nfoo=bar\n[Colors:Window]\nBackgroundNormal=200, 201,202\n[Other]\n");
    assert_eq!(parts, Some(("200".to_string(), "201".to_string(), "202".to_string())));
    assert_eq!(window_background_parts("[Colors:Button]\nBackgroundNormal=35,38,41\n"), None);
    assert_eq!(window_background_parts("[General]\nfoo=bar\n"), None);
    assert_eq!(window_background_parts("[Colors:Window]\nBackgroundNormal=1,2\n"), None);
}

#[test]
fn render_wait_is_reasonable() {
    assert!(RENDER_WAIT_MS >= 500);
    assert!(RENDER_WAIT_MS <= 5000);
}

#[test]
fn preview_file_name_is_png() {
    assert!(PREVIEW_FILE.ends_with(".png"));
}

#[test]
fn capture_steps() {
    assert_eq!(missing_tool_error("spectacle"), "spectacle not found on PATH");
    assert_eq!(preview_png_path("/home/u/.cache/keasyditor"), "/home/u/.cache/keasyditor/kvantumpreview.png");
    assert_eq!(spectacle_args("/p.png"), vec!["-a", "-b", "-n", "-o", "/p.png"]);
    assert_eq!(spectacle_outcome(true, Some(0), ""), Ok(()));
    assert_eq!(
        spectacle_outcome(false, Some(2), " boom \n"),
        Err("spectacle exited with code Some(2): boom".to_string())
    );
    assert_eq!(
        spectacle_outcome(false, None, ""),
        Err("spectacle exited with code None: ".to_string())
    );
}

#[test]
fn klassy_mapping_has_three_entries() {
    assert_eq!(klassy_color_mapping().len(), 3);
}

#[test]
fn kvantum_mapping_covers_all_keys() {
    let mapped: std::collections::HashSet<&str> =
        kvantum_color_mapping().iter().map(|(k, _)| *k).collect();
    for key in KvantumColors::all_keys() {
        assert!(mapped.contains(key), "key {} not mapped", key);
    }
}

#[test]
fn parse_three_hex_doubles_nibbles() {
    assert_eq!(parse_three_hex("#fff"), Some(Rgba::rgb(255, 255, 255)));
    assert_eq!(parse_three_hex("#000"), Some(Rgba::rgb(0, 0, 0)));
    assert_eq!(parse_three_hex("#f0c"), Some(Rgba::rgb(0xff, 0x00, 0xcc)));
    assert_eq!(parse_three_hex("#abc"), Some(Rgba::rgb(0xaa, 0xbb, 0xcc)));
    assert_eq!(parse_three_hex("#ff0000"), None); // wrong length
    assert_eq!(parse_three_hex("fff"), None); // missing hash
}

#[test]
fn parse_three_hex_other_shapes() {
    assert_eq!(parse_three_hex("#abcd"), None);
    assert_eq!(parse_three_hex("abc"), None);
}

#[test]
fn parse_six_hex_exact() {
    assert_eq!(parse_six_hex("#1a2B3c"), Some(Rgba::rgb(0x1a, 0x2b, 0x3c)));
    assert_eq!(parse_six_hex("#1a2b3"), None);
    assert_eq!(parse_six_hex("#1a2b3g"), None);
}

#[test]
fn plasma_scheme_name_sanitizes_specials() {
    assert_eq!(plasma_scheme_name_for_kvantum("Teto"), "Kvantum-Teto");
    assert_eq!(
        plasma_scheme_name_for_kvantum("No Mans Sky"),
        "Kvantum-No-Mans-Sky"
    );
    assert_eq!(
        plasma_scheme_name_for_kvantum("theme.with.dots"),
        "Kvantum-theme-with-dots"
    );
}

#[test]
fn plasma_scheme_name_other_specials() {
    assert_eq!(plasma_scheme_name_for_kvantum("Teto Noir"), "Kvantum-Teto-Noir");
    assert_eq!(plasma_scheme_name_for_kvantum("a/b.c"), "Kvantum-a-b-c");
    assert_eq!(plasma_scheme_name_for_kvantum("Tétö"), "Kvantum-Tétö");
}

#[test]
fn sha1_hex_matches_known_vectors() {
    assert_eq!(sha1_hex(b""), "da39a3ee5e6b4b0d3255bfef95601890afd80709");
    assert_eq!(sha1_hex(b"abc"), "a9993e364706816aba3e25717850c26c9cd0d89d");
}

#[test]
fn palette_overwrites_mapped_colours() {
    let mut variant = StrMap::new();
    variant.insert("surface".to_string(), "#101010".to_string());
    variant.insert("primary".to_string(), "#ff0000".to_string());
    variant.insert("outline".to_string(), "junk".to_string());
    let mut colors = KvantumColors::empty();
    apply_palette_to_kvantum(&mut colors, &variant);
    assert_eq!(colors.get_value("window.color"), Some("#101010"));
    assert_eq!(colors.get_value("highlight.color"), Some("#ff0000"));
    assert_eq!(colors.get_value("link.color"), Some("#ff0000"));
    assert_eq!(colors.get_value("dark.color"), None);

    let mut klassy = KlassyConfig::new(KeyMap::<StrMap>::new());
    apply_palette_to_klassy(&mut klassy, &variant);
    assert_eq!(klassy.get_value("Windeco", "WindowOutlineCustomColorActive"), Some("255,0,0"));
    assert_eq!(klassy.get_value("ShadowStyle", "ShadowColor"), None);
}

/// Whether the window background of a `kdeglobals` text is dark (its
/// luminance below 128), as the settings service decides it.
fn is_dark(content: &str) -> Option<bool> {
    let (r, g, b) = window_background_parts(content)?;
    let r: f32 = r.parse().unwrap_or(0.0);
    let g: f32 = g.parse().unwrap_or(0.0);
    let b: f32 = b.parse().unwrap_or(0.0);
    Some(0.299 * r + 0.587 * g + 0.114 * b < 128.0)
}

#[test]
fn is_dark_from_kdeglobals_dark_theme() {
    let content = "[Colors:Window]\nBackgroundNormal=35,38,41\n";
    assert_eq!(is_dark(content), Some(true));
}

#[test]
fn is_dark_from_kdeglobals_light_theme() {
    let content = "[Colors:Window]\nBackgroundNormal=239,240,241\n";
    assert_eq!(is_dark(content), Some(false));
}

#[test]
fn is_dark_from_kdeglobals_missing_section() {
    let content = "[General]\nfoo=bar\n";
    assert_eq!(is_dark(content), None);
}

#[test]
fn is_dark_from_kdeglobals_wrong_section() {
    let content = "[Colors:Button]\nBackgroundNormal=35,38,41\n";
    assert_eq!(is_dark(content), None);
}

#[test]
fn is_dark_from_kdeglobals_multiple_sections() {
    let content = "[General]\nfoo=bar\n[Colors:Window]\nBackgroundNormal=200,200,200\n[Other]\n";
    assert_eq!(is_dark(content), Some(false));
}

#[test]
fn active_theme_reads_back_from_written_text() {
    let fresh = active_theme_config_text(None, "KvFlat");
    assert_eq!(active_theme_from_doc(&parse_ini(&fresh)), Some("KvFlat".to_string()));
    assert_eq!(parse_ini(&fresh).get_value("%General", "theme"), Some("KvFlat"));
    let existing = "# kept\n[General]\ntheme=Old\nother=1\n[Extra]\nk=v\n";
    let written = active_theme_config_text(Some(existing), "Teto Noir");
    let back = parse_ini(&written);
    assert_eq!(active_theme_from_doc(&back), Some("Teto Noir".to_string()));
    assert_eq!(back.get_value("General", "other"), Some("1"));
    assert_eq!(back.get_value("Extra", "k"), Some("v"));
    assert!(written.starts_with("# kept\n[General]\ntheme=Teto Noir\nother=1\n"));
}

#[test]
fn active_theme_reads_back_through_odd_text() {
    let existing = "top=1 # note\n[General]\ntheme = Old # picked earlier\n=stray\n[x=1\nvalue=#ABCDEF # c\r\n";
    let written = active_theme_config_text(Some(existing), "Teto");
    let back = parse_ini(&written);
    assert_eq!(active_theme_from_doc(&back), Some("Teto".to_string()));
    assert_eq!(back.get_value("%General", "theme"), Some("Teto"));
    assert_eq!(back.get_value("General", "value"), Some("#ABCDEF"));
    assert_eq!(back.get_value("General", "[x"), Some("1"));
    assert!(written.contains("theme=Teto # picked earlier\n"));
    let empty_before_comment = active_theme_config_text(Some("[General]\ntheme=x # c\n"), "");
    assert_eq!(active_theme_from_doc(&parse_ini(&empty_before_comment)), Some("# c".to_string()));
}

#[test]
fn sort_themes_keeps_equal_names_in_order() {
    let t = |n: &str, p: &str| ThemeInfo { name: n.to_string(), path: p.to_string(), is_system: false };
    let sorted = sort_themes(vec![t("b", "1"), t("a", "2"), t("b", "3"), t("a", "4")]);
    let got: Vec<(String, String)> = sorted.iter().map(|i| (i.name.clone(), i.path.clone())).collect();
    let want: Vec<(String, String)> = vec![
        ("a".to_string(), "2".to_string()),
        ("a".to_string(), "4".to_string()),
        ("b".to_string(), "1".to_string()),
        ("b".to_string(), "3".to_string()),
    ];
    assert_eq!(got, want);
}

fn theme_data(name: &str, svg: Option<&str>, kvconfig: &str) -> KvantumThemeData {
    KvantumThemeData {
        config: KvantumConfig::from_ini(&parse_ini(kvconfig)),
        svg_content: svg.map(|s| s.to_string()),
        theme_name: name.to_string(),
        dir_path: format!("/t/{}", name),
    }
}

#[test]
fn template_plan_prefers_own_svg_and_adopts_only_bare_themes() {
    let own = theme_data("Own", Some("<svg own/>"), "[%General]\nauthor=x\n");
    let tpl = Some(theme_data("Tpl", Some("<svg tpl/>"), "[PanelButtonCommand]\nframe=true\n"));
    assert_eq!(template_plan(&own, &tpl), (Some("<svg own/>".to_string()), true));
    let bare = theme_data("Bare", None, "[%General]\nauthor=x\n");
    assert_eq!(template_plan(&bare, &tpl), (Some("<svg tpl/>".to_string()), true));
    assert_eq!(template_plan(&bare, &None), (None, false));
    let styled = theme_data("Styled", None, "[PanelButtonCommand]\nframe=false\n");
    assert_eq!(template_plan(&styled, &tpl), (Some("<svg tpl/>".to_string()), false));
}

#[test]
fn klpw_text_round_trip_keeps_every_value() {
    let mut values = StrMap::new();
    values.insert("TitleAlignment".to_string(), "AlignCenter".to_string());
    values.insert("ButtonIconStyle".to_string(), "StyleOxygen".to_string());
    values.insert("WindowOutlineThickness".to_string(), "2".to_string());
    let preset = KlassyPreset::new("Night Sky".to_string(), values);
    let text = serialize_ini(&klpw_document(&preset));
    let back = preset_from_klpw(&parse_ini(&text)).unwrap();
    assert_eq!(back, preset);
    assert_eq!(back.name, "Night Sky");
}
