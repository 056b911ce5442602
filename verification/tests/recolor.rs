use keasyditor_core::services::recolor::{
    replace_six_literals, replace_three_literals, six_hex_literals, three_hex_literals,
};
use keasyditor_core::strmap::StrMap;

#[test]
fn six_digit_literals_are_found_and_replaced() {
    let svg = "<rect style=\"fill:#AbCdEf;stroke:#123456\"/><g fill=\"#AbCdEf\"/>";
    assert_eq!(six_hex_literals(svg), vec!["#AbCdEf", "#123456", "#AbCdEf"]);
    let mut t = StrMap::new();
    t.insert("#AbCdEf".to_string(), "#000000".to_string());
    assert_eq!(
        replace_six_literals(svg, &t),
        "<rect style=\"fill:#000000;stroke:#123456\"/><g fill=\"#000000\"/>"
    );
    assert_eq!(replace_six_literals(svg, &StrMap::new()), svg);
}

#[test]
fn three_digit_literals_skip_longer_runs() {
    let text = "a:#abc; b:#abcd; c:#fff";
    assert_eq!(three_hex_literals(text), vec!["#abc", "#fff"]);
    let mut t = StrMap::new();
    t.insert("#abc".to_string(), "#112233".to_string());
    t.insert("#fff".to_string(), "#000000".to_string());
    assert_eq!(replace_three_literals(text, &t), "a:#112233; b:#abcd; c:#000000");
}
