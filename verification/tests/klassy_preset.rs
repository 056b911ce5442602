use keasyditor_core::ini::parse_ini;
use keasyditor_core::models::klassy::config::KlassyConfig;
use keasyditor_core::models::klassy::preset::{section_for_key, KlassyPreset, KlassyPresetCollection};
use keasyditor_core::strmap::{KeyMap, StrMap};

#[test]
fn preset_from_ini() {
    let input = "[MyPreset]\nButtonShape=ShapeSmallCircle\nBundledPreset=true\n";
    let doc = parse_ini(input);
    let collection = KlassyPresetCollection::from_ini(&doc);

    assert_eq!(collection.len(), 1);
    let preset = collection.get_preset("MyPreset").unwrap();
    assert_eq!(preset.get_value("ButtonShape"), Some("ShapeSmallCircle"));
    assert!(preset.is_bundled());
}

#[test]
fn preset_not_bundled() {
    let input = "[Custom]\nButtonShape=ShapeSmallCircle\n";
    let doc = parse_ini(input);
    let collection = KlassyPresetCollection::from_ini(&doc);
    let preset = collection.get_preset("Custom").unwrap();
    assert!(!preset.is_bundled());
}

#[test]
fn section_routing() {
    assert_eq!(section_for_key("ShadowColor"), "ShadowStyle");
    assert_eq!(section_for_key("ShadowSize"), "ShadowStyle");
    assert_eq!(section_for_key("ButtonBackgroundColorsActive"), "ButtonColors");
    assert_eq!(section_for_key("ActiveTitleBarOpacity"), "TitleBarOpacity");
    assert_eq!(section_for_key("TitleBarTopMargin"), "TitleBarSpacing");
    assert_eq!(section_for_key("WindowOutlineStyleActive"), "WindowOutlineStyle");
    assert_eq!(section_for_key("ButtonGradient"), "Style");
    assert_eq!(section_for_key("ButtonShape"), "Windeco");
    assert_eq!(section_for_key("SomeUnknownKey"), "Windeco");
}

#[test]
fn apply_to_config() {
    let config = KlassyConfig::new(KeyMap::<StrMap>::new());
    let mut values = StrMap::new();
    values.insert("ButtonShape".to_string(), "ShapeSmallCircle".to_string());
    values.insert("ShadowSize".to_string(), "ShadowLarge".to_string());
    values.insert("ButtonGradient".to_string(), "true".to_string());

    let preset = KlassyPreset::new("Test".to_string(), values);
    let result = preset.apply_to_config(&config);

    assert_eq!(result.get_value("Windeco", "ButtonShape"), Some("ShapeSmallCircle"));
    assert_eq!(result.get_value("ShadowStyle", "ShadowSize"), Some("ShadowLarge"));
    assert_eq!(result.get_value("Style", "ButtonGradient"), Some("true"));
}

#[test]
fn collection_round_trip() {
    let input = "[A]\nk1=v1\n[B]\nk2=v2\n";
    let doc = parse_ini(input);
    let collection = KlassyPresetCollection::from_ini(&doc);

    assert_eq!(collection.len(), 2);
    assert_eq!(collection.names(), vec!["A", "B"]);

    let doc2 = collection.to_ini();
    let collection2 = KlassyPresetCollection::from_ini(&doc2);
    assert_eq!(collection, collection2);
}

#[test]
fn routing_prefixes_and_exact_keys() {
    assert_eq!(section_for_key("LockTitleBarLeftRight"), "TitleBarSpacing");
    assert_eq!(section_for_key("ShowCloseOutlineActive"), "ButtonColors");
    assert_eq!(section_for_key("VaryColorBackgroundActive"), "ButtonColors");
    assert_eq!(section_for_key("WindowOutlineThickness"), "WindowOutlineStyle");
    assert_eq!(section_for_key("DrawBackgroundGradient"), "Style");
    assert_eq!(section_for_key("ShadowColorX"), "Windeco");
}

#[test]
fn apply_keeps_other_values() {
    let mut config = KlassyConfig::new(KeyMap::<StrMap>::new());
    config.set_value("Windeco", "Other", "1".to_string());
    let mut values = StrMap::new();
    values.insert("ButtonShape".to_string(), "ShapeSmallSquare".to_string());
    let preset = KlassyPreset::new("P".to_string(), values);
    let result = preset.apply_to_config(&config);
    assert_eq!(result.get_value("Windeco", "Other"), Some("1"));
    assert_eq!(result.get_value("Windeco", "ButtonShape"), Some("ShapeSmallSquare"));
}

#[test]
fn preset_edits_and_description() {
    let mut p = KlassyPreset::new("Mine".to_string(), StrMap::new());
    assert!(p.is_empty());
    p.set_value("BundledPreset", "true".to_string());
    p.set_value("A", "1".to_string());
    assert_eq!(p.len(), 2);
    assert_eq!(p.describe(), "KlassyPreset(\"Mine\", 2 keys, bundled=true)");
    assert!(p.remove_value("A"));
    assert!(!p.remove_value("A"));
    let mut keys = p.keys();
    keys.sort();
    assert_eq!(keys, vec!["BundledPreset".to_string()]);
    let c = KlassyPresetCollection::new(vec![p]);
    assert_eq!(c.describe(), "KlassyPresetCollection(1 presets)");
    assert!(c.get_preset("Other").is_none());
}
