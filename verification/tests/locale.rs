use keasyditor_core::locale::{is_english, is_region_variant, locale_file_names, parse, parse_locale_env};

fn s(v: &str) -> Option<String> {
    Some(v.to_string())
}

#[test]
fn parses_gettext_language_list() {
    let got = parse_locale_env(&[s("ru:en_US"), None, None, s("ru_RU.UTF-8")]);
    assert_eq!(
        got,
        vec![
            ("ru".to_string(), "ru".to_string()),
            ("en_US".to_string(), "en".to_string()),
            ("ru_RU".to_string(), "ru".to_string()),
        ]
    );
}

#[test]
fn strips_encoding_and_modifier() {
    let got = parse_locale_env(&[None, None, None, s("de_DE.UTF-8@euro")]);
    assert_eq!(got, vec![("de_DE".to_string(), "de".to_string())]);
}

#[test]
fn skips_posix_and_c() {
    let got = parse_locale_env(&[s("C"), s("POSIX"), None, None]);
    assert_eq!(got, vec![("en".to_string(), "en".to_string())]);
}

#[test]
fn defaults_to_english_when_empty() {
    let got = parse_locale_env(&[None, None, None, None]);
    assert_eq!(got, vec![("en".to_string(), "en".to_string())]);
}

#[test]
fn dedupes_repeated_locales() {
    let got = parse_locale_env(&[s("ru_RU"), None, None, s("ru_RU.UTF-8")]);
    assert_eq!(got, vec![("ru_RU".to_string(), "ru".to_string())]);
}

#[test]
fn translation_file_lines() {
    let m = parse("# comment\n\nhello = \"Hello\"\nbye=Bye\n = nokey\nnoequals\nq=\"\nhello=Hi\n");
    assert_eq!(m.get("hello"), Some(&"Hi".to_string()));
    assert_eq!(m.get("bye"), Some(&"Bye".to_string()));
    assert_eq!(m.get("q"), Some(&"\"".to_string()));
    assert_eq!(m.len(), 3);
}

#[test]
fn english_candidates_end_the_search() {
    assert!(is_english("en"));
    assert!(is_english("en_GB"));
    assert!(!is_english("eng"));
    assert!(!is_english("ru_RU"));
}

#[test]
fn locale_files_tried_in_order() {
    assert_eq!(locale_file_names("ru_RU", "ru"), vec!["ru_RU.toml".to_string(), "ru.toml".to_string()]);
    assert_eq!(locale_file_names("ru", "ru"), vec!["ru.toml".to_string()]);
}

#[test]
fn region_variants_of_a_language() {
    assert!(is_region_variant("ru_RU.toml", "ru"));
    assert!(!is_region_variant("ru.toml", "ru"));
    assert!(!is_region_variant("ru_RU.txt", "ru"));
    assert!(!is_region_variant("rus_RU.toml", "ru"));
    assert!(!is_region_variant("_RU.toml", ""));
}
