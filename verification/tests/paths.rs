use keasyditor_core::models::klassy::schema::{FieldType, KlassySchema};
use keasyditor_core::paths::{
    home_path, join_path_text, keasyditor_cache_dir, keasyditor_recent_files_path,
    keasyditor_settings_path, klassy_config_path, klassy_presets_path, kvantum_config_dir,
    kvantum_global_config, kvantum_system_dir,
};
use std::path::{Path, PathBuf};

#[test]
fn klassy_config_path_ends_correctly() {
    assert!(Path::new(&klassy_config_path()).ends_with(".config/klassy/klassyrc"));
}

#[test]
fn klassy_presets_path_ends_correctly() {
    assert!(Path::new(&klassy_presets_path()).ends_with(".config/klassy/windecopresetsrc"));
}

#[test]
fn kvantum_config_dir_ends_correctly() {
    assert!(Path::new(&kvantum_config_dir()).ends_with(".config/Kvantum"));
}

#[test]
fn kvantum_system_dir_is_absolute() {
    assert_eq!(PathBuf::from(kvantum_system_dir()), PathBuf::from("/usr/share/Kvantum"));
}

#[test]
fn kvantum_global_config_ends_correctly() {
    assert!(Path::new(&kvantum_global_config()).ends_with(".config/Kvantum/kvantum.kvconfig"));
}

#[test]
fn keasyditor_settings_path_ends_correctly() {
    assert!(Path::new(&keasyditor_settings_path()).ends_with(".config/keasyditor/settings.ini"));
}

#[test]
fn keasyditor_cache_dir_ends_correctly() {
    assert!(Path::new(&keasyditor_cache_dir()).ends_with(".cache/keasyditor"));
}

#[test]
fn keasyditor_recent_files_path_ends_correctly() {
    assert!(Path::new(&keasyditor_recent_files_path()).ends_with(".cache/keasyditor/recent_files"));
}

#[test]
fn paths_are_absolute() {
    assert!(Path::new(&klassy_config_path()).is_absolute());
    assert!(Path::new(&kvantum_config_dir()).is_absolute());
    assert!(Path::new(&keasyditor_settings_path()).is_absolute());
    assert!(Path::new(&keasyditor_cache_dir()).is_absolute());
    assert!(Path::new(&keasyditor_recent_files_path()).is_absolute());
}

#[test]
fn join_adds_one_separator() {
    assert_eq!(join_path_text("/home/u", "a/b"), "/home/u/a/b");
    assert_eq!(join_path_text("/home/u/", "a"), "/home/u/a");
    assert_eq!(join_path_text("", "a"), "a");
    assert_eq!(home_path(None, ".config/x"), "/tmp/.config/x");
    assert_eq!(home_path(Some("/root"), ".config/x"), "/root/.config/x");
}

#[test]
fn schema_unknown_key() {
    assert_eq!(KlassySchema::get_key_type("NonExistent"), FieldType::String);
}

#[test]
fn schema_known_key_types() {
    assert_eq!(KlassySchema::get_key_type("WindowCornerRadius"), FieldType::Integer);
    assert_eq!(KlassySchema::get_key_type("ButtonShape"), FieldType::EnumType);
    assert_eq!(KlassySchema::get_key_type("OpaqueMaximizedTitleBars"), FieldType::Boolean);
    assert!(KlassySchema::field_type_list().len() > 40);
}
