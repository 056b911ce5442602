use keasyditor_core::services::json::{parse_json, JsonValue};
use keasyditor_core::services::palette::{palette_from_json, parse_matugen_json};

fn obj(members: Vec<(&str, JsonValue)>) -> JsonValue {
    JsonValue::Object(members.into_iter().map(|(k, v)| (k.to_string(), v)).collect())
}

fn text(t: &str) -> JsonValue {
    JsonValue::Text(t.to_string())
}

fn color(c: &str) -> JsonValue {
    obj(vec![("color", text(c))])
}

#[test]
fn palette_from_json_basic() {
    let doc = obj(vec![(
        "colors",
        obj(vec![
            ("primary", obj(vec![("dark", color("#d4bca0")), ("light", color("#5a4632"))])),
            ("secondary", obj(vec![("dark", color("#d5c3ad")), ("light", color("#5b4a37"))])),
        ]),
    )]);
    let palette = palette_from_json(&doc, "/tmp/test.png").unwrap();
    assert_eq!(palette.image_path, "/tmp/test.png");
    assert_eq!(palette.dark.get_str("primary"), Some("#d4bca0"));
    assert_eq!(palette.light.get_str("primary"), Some("#5a4632"));
    assert_eq!(palette.dark.get_str("secondary"), Some("#d5c3ad"));
    assert_eq!(palette.dark.len(), 2);
    assert_eq!(palette.light.len(), 2);
}

#[test]
fn palette_from_json_empty_colors() {
    let palette = palette_from_json(&obj(vec![("colors", obj(vec![]))]), "/tmp/test.png").unwrap();
    assert!(palette.dark.is_empty());
    assert!(palette.light.is_empty());
}

#[test]
fn palette_from_json_without_colors() {
    assert!(palette_from_json(&obj(vec![]), "").is_none());
    assert!(palette_from_json(&obj(vec![("other", JsonValue::Number("1".into()))]), "").is_none());
    assert!(palette_from_json(&obj(vec![("colors", JsonValue::Array(vec![]))]), "").is_none());
    assert!(palette_from_json(&JsonValue::Null, "").is_none());
}

#[test]
fn palette_from_json_partial_variants() {
    let doc = obj(vec![("colors", obj(vec![("primary", obj(vec![("dark", color("#aabbcc"))]))]))]);
    let palette = palette_from_json(&doc, "img.png").unwrap();
    assert_eq!(palette.dark.get_str("primary"), Some("#aabbcc"));
    assert!(palette.light.get_str("primary").is_none());
}

#[test]
fn palette_from_json_skips_malformed_entries() {
    let doc = obj(vec![(
        "colors",
        obj(vec![
            ("odd", text("#000000")),
            ("num", obj(vec![("dark", obj(vec![("color", JsonValue::Number("3".into()))]))])),
            ("ok", obj(vec![("light", color("#010203")), ("dark", text("#ffffff"))])),
        ]),
    )]);
    let palette = palette_from_json(&doc, "i").unwrap();
    assert!(palette.dark.is_empty());
    assert_eq!(palette.light.get_str("ok"), Some("#010203"));
    assert_eq!(palette.light.len(), 1);
}

#[test]
fn parse_matugen_json_basic() {
    let json = r##"{
        "colors": {
            "primary": {
                "dark": { "color": "#d4bca0" },
                "light": { "color": "#5a4632" }
            },
            "secondary": {
                "dark": { "color": "#d5c3ad" },
                "light": { "color": "#5b4a37" }
            }
        }
    }"##;
    let palette = parse_matugen_json(json, "/tmp/test.png").unwrap();
    assert_eq!(palette.image_path, "/tmp/test.png");
    assert_eq!(palette.dark.get("primary"), Some(&"#d4bca0".to_string()));
    assert_eq!(palette.light.get("primary"), Some(&"#5a4632".to_string()));
    assert_eq!(palette.dark.get("secondary"), Some(&"#d5c3ad".to_string()));
    assert_eq!(palette.dark.len(), 2);
    assert_eq!(palette.light.len(), 2);
}

#[test]
fn parse_matugen_json_empty_colors() {
    let json = r#"{ "colors": {} }"#;
    let palette = parse_matugen_json(json, "/tmp/test.png").unwrap();
    assert!(palette.dark.is_empty());
    assert!(palette.light.is_empty());
}

#[test]
fn parse_matugen_json_invalid() {
    assert!(parse_matugen_json("not json", "").is_none());
    assert!(parse_matugen_json("{}", "").is_none());
    assert!(parse_matugen_json(r#"{ "other": 1 }"#, "").is_none());
}

#[test]
fn parse_matugen_json_partial_variants() {
    let json = r##"{
        "colors": {
            "primary": {
                "dark": { "color": "#aabbcc" }
            }
        }
    }"##;
    let palette = parse_matugen_json(json, "img.png").unwrap();
    assert_eq!(palette.dark.get("primary"), Some(&"#aabbcc".to_string()));
    assert!(palette.light.get("primary").is_none());
}

#[test]
fn parse_json_reads_numbers_as_text() {
    match parse_json(r#"[1, 2.5, true, null, "x"]"#) {
        Some(JsonValue::Array(v)) => {
            assert_eq!(v.len(), 5);
            assert!(matches!(&v[1], JsonValue::Number(n) if n == "2.5"));
            assert!(matches!(&v[2], JsonValue::Bool(true)));
        }
        _ => panic!("expected an array"),
    }
    assert!(parse_json("{").is_none());
}
