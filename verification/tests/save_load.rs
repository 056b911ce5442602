use keasyditor_core::ini::{parse_ini, serialize_ini};
use keasyditor_core::models::klassy::config::KlassyConfig;
use keasyditor_core::models::klassy::preset::KlassyPresetCollection;
use keasyditor_core::models::kvantum::config::KvantumConfig;

#[test]
fn klassy_config_saved_text_reads_back() {
    let text = "# comment\n[Windeco]\nButtonShape = ShapeSmallCircle\nWindowCornerRadius=8\n\n[ShadowStyle]\nShadowColor=10,20,30\n";
    let config = KlassyConfig::from_ini(&parse_ini(text));
    let saved = serialize_ini(&config.to_ini());
    let again = KlassyConfig::from_ini(&parse_ini(&saved));
    assert!(again.same_as(&config));
    assert_eq!(saved, "[Windeco]\nButtonShape=ShapeSmallCircle\nWindowCornerRadius=8\n[ShadowStyle]\nShadowColor=10,20,30\n");
}

#[test]
fn kvantum_config_saved_text_reads_back() {
    let text = "[%General]\nauthor=Me\ncomposite=true\n[GeneralColors]\nwindow.color=#101010\n[Hacks]\nblur_translucent=false\n[PanelButtonCommand]\nframe=true\ninherits=PanelButtonTool\n[Tab]\nframe.top=2\n";
    let config = KvantumConfig::from_ini(&parse_ini(text));
    let saved = serialize_ini(&config.to_ini());
    let again = KvantumConfig::from_ini(&parse_ini(&saved));
    assert!(again.same_as(&config));
}

#[test]
fn preset_collection_saved_text_reads_back() {
    let text = "[A]\nk1=v1\n[B]\nk2=v2\nk0=v0\n";
    let presets = KlassyPresetCollection::from_ini(&parse_ini(text));
    let saved = serialize_ini(&presets.to_ini());
    let again = KlassyPresetCollection::from_ini(&parse_ini(&saved));
    assert_eq!(again.names(), presets.names());
    assert_eq!(saved, "[A]\nk1=v1\n[B]\nk0=v0\nk2=v2\n");
}

#[test]
fn value_read_as_inline_comment_does_not_read_back() {
    // A value that holds " #word" is cut at the comment when read again.
    let mut config = KlassyConfig::from_ini(&parse_ini("[S]\nk=v\n"));
    config.set_value("S", "k", "a #b".to_string());
    let saved = serialize_ini(&config.to_ini());
    let again = KlassyConfig::from_ini(&parse_ini(&saved));
    assert_eq!(again.get_value("S", "k"), Some("a"));
}

#[test]
fn klassy_config_built_by_calls_reads_back() {
    let mut config = KlassyConfig::new(keasyditor_core::strmap::KeyMap::new());
    config.set_value("Windeco", "WindowCornerRadius", "12".to_string());
    config.set_value("Animations", "Enabled", "true".to_string());
    config.set_value("Windeco", "ButtonShape", "ShapeSmallCircle".to_string());
    config.remove_value("Animations", "Enabled");
    let doc = config.to_ini();
    assert_eq!(doc.section_names(), config.section_names());
    let again = KlassyConfig::from_ini(&parse_ini(&serialize_ini(&doc)));
    assert!(again.same_as(&config));
    let copy = config.clone();
    assert!(copy.same_as(&config));
}
