use keasyditor_core::svg::{
    catalog_elements, get_all_element_ids, get_fill_color, get_stroke_color, parse_style,
    serialize_style, set_fill_color, set_stroke_color, split_widget_state,
};

const SIMPLE_SVG: &str = r##"<?xml version="1.0" encoding="UTF-8"?>
<svg xmlns="http://www.w3.org/2000/svg" width="100" height="100">
  <rect id="button-normal" fill="#ff0000" width="50" height="50"/>
  <rect id="button-pressed" fill="#00ff00" width="50" height="50"/>
  <rect id="checkbox-normal" style="fill:#0000ff;stroke:#000000" width="20" height="20"/>
  <g id="group1">
    <rect id="nested-item" fill="#aabbcc" width="10" height="10"/>
  </g>
</svg>"##;

#[test]
fn get_all_ids() {
    let ids = get_all_element_ids(SIMPLE_SVG);
    assert!(ids.contains(&"button-normal".to_string()));
    assert!(ids.contains(&"button-pressed".to_string()));
    assert!(ids.contains(&"checkbox-normal".to_string()));
    assert!(ids.contains(&"group1".to_string()));
    assert!(ids.contains(&"nested-item".to_string()));
}

#[test]
fn get_fill_from_attribute() {
    assert_eq!(get_fill_color(SIMPLE_SVG, "button-normal"), Some("#ff0000".to_string()));
    assert_eq!(get_fill_color(SIMPLE_SVG, "button-pressed"), Some("#00ff00".to_string()));
}

#[test]
fn get_fill_from_style() {
    assert_eq!(get_fill_color(SIMPLE_SVG, "checkbox-normal"), Some("#0000ff".to_string()));
}

#[test]
fn get_stroke_from_style() {
    assert_eq!(get_stroke_color(SIMPLE_SVG, "checkbox-normal"), Some("#000000".to_string()));
}

#[test]
fn get_nonexistent_element() {
    assert_eq!(get_fill_color(SIMPLE_SVG, "nonexistent"), None);
}

#[test]
fn set_fill_on_attribute() {
    let result = set_fill_color(SIMPLE_SVG, "button-normal", "#ffffff");
    assert_eq!(get_fill_color(&result, "button-normal"), Some("#ffffff".to_string()));
    assert_eq!(get_fill_color(&result, "button-pressed"), Some("#00ff00".to_string()));
}

#[test]
fn set_fill_on_style() {
    let result = set_fill_color(SIMPLE_SVG, "checkbox-normal", "#112233");
    assert_eq!(get_fill_color(&result, "checkbox-normal"), Some("#112233".to_string()));
    assert_eq!(get_stroke_color(&result, "checkbox-normal"), Some("#000000".to_string()));
}

#[test]
fn catalog_basic() {
    let catalog = catalog_elements(SIMPLE_SVG);
    assert!(catalog.contains_key("button"));
    let button_states = catalog.get("button").unwrap();
    assert!(button_states.contains(&"normal".to_string()));
    assert!(button_states.contains(&"pressed".to_string()));

    assert!(catalog.contains_key("checkbox"));
    let checkbox_states = catalog.get("checkbox").unwrap();
    assert!(checkbox_states.contains(&"normal".to_string()));
}

#[test]
fn catalog_with_positions() {
    let svg = r#"<svg xmlns="http://www.w3.org/2000/svg">
  <rect id="button-normal-topleft"/>
  <rect id="button-normal-topright"/>
  <rect id="button-normal-bottomleft"/>
  <rect id="button-pressed"/>
</svg>"#;
    let catalog = catalog_elements(svg);
    let states = catalog.get("button").unwrap();
    assert!(states.contains(&"normal".to_string()));
    assert!(states.contains(&"pressed".to_string()));
}

#[test]
fn catalog_compound_prefixes() {
    let svg = r#"<svg xmlns="http://www.w3.org/2000/svg">
  <rect id="flat-button-normal"/>
  <rect id="flat-button-pressed"/>
  <rect id="menu-item-normal"/>
</svg>"#;
    let catalog = catalog_elements(svg);
    assert!(catalog.contains_key("flat-button"));
    assert!(catalog.contains_key("menu-item"));
}

#[test]
fn parse_style_helper() {
    let style = "fill:#ff0000;stroke:#000000;opacity:0.5";
    let props = parse_style(style);
    assert_eq!(props.get("fill"), Some(&"#ff0000".to_string()));
    assert_eq!(props.get("stroke"), Some(&"#000000".to_string()));
    assert_eq!(props.get("opacity"), Some(&"0.5".to_string()));
}

#[test]
fn split_widget_state_basic() {
    assert_eq!(split_widget_state("button-normal"), Some(("button".to_string(), "normal".to_string())));
    assert_eq!(
        split_widget_state("flat-button-pressed"),
        Some(("flat-button".to_string(), "pressed".to_string()))
    );
    assert_eq!(split_widget_state("standalone"), Some(("standalone".to_string(), "default".to_string())));
}

#[test]
fn states_are_sorted_without_repeats() {
    let svg = r#"<svg><rect id="tab-pressed"/><rect id="tab-normal"/><rect id="tab-normal-left"/><rect id="menu-item"/></svg>"#;
    let catalog = catalog_elements(svg);
    assert_eq!(catalog.get("tab").unwrap(), &vec!["normal".to_string(), "pressed".to_string()]);
    assert_eq!(catalog.get("menu-item").unwrap(), &vec!["default".to_string()]);
}

#[test]
fn set_adds_missing_attribute_and_style_is_sorted() {
    let svg = r##"<svg><rect id="a" width="1"/><rect id="b" style="stroke:#000;fill:#111"/></svg>"##;
    let r = set_stroke_color(svg, "a", "#abcdef");
    assert!(r.contains(r##"<rect id="a" stroke="#abcdef" width="1"/>"##));
    let r2 = set_fill_color(svg, "b", "#222");
    assert!(r2.contains(r##"style="fill:#222;stroke:#000""##));
    assert_eq!(set_fill_color(svg, "zzz", "#222"), svg);
    let mut props = parse_style("b:2; a:1");
    props.insert("c".to_string(), "3".to_string());
    assert_eq!(serialize_style(&props), "a:1;b:2;c:3");
}
