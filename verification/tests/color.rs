use keasyditor_core::color::{
    parse_klassy_color, parse_kvantum_color, to_klassy_color, to_kvantum_color, try_parse, Rgba,
};

#[test]
fn klassy_round_trip() {
    let c = Rgba::rgb(255, 179, 174);
    assert_eq!(to_klassy_color(&c), "255,179,174");
    assert_eq!(parse_klassy_color("255,179,174"), Some(c));
}

#[test]
fn kvantum_hex6() {
    let c = parse_kvantum_color("#1a1111").unwrap();
    assert_eq!(c, Rgba::rgb(0x1a, 0x11, 0x11));
}

#[test]
fn kvantum_hex8() {
    let c = parse_kvantum_color("#1a111180").unwrap();
    assert_eq!(c, Rgba::new(0x1a, 0x11, 0x11, 0x80));
}

#[test]
fn named_colors() {
    assert_eq!(try_parse("white"), Some(Rgba::rgb(255, 255, 255)));
    assert_eq!(try_parse("black"), Some(Rgba::rgb(0, 0, 0)));
    assert_eq!(try_parse("transparent"), Some(Rgba::new(0, 0, 0, 0)));
}

#[test]
fn try_parse_all_formats() {
    assert!(try_parse("#ff0000").is_some());
    assert!(try_parse("255,0,0").is_some());
    assert!(try_parse("red").is_some());
    assert!(try_parse("nonsense").is_none());
}

#[test]
fn kvantum_text_round_trip_with_alpha() {
    let c = Rgba::new(0x12, 0xab, 0x00, 0x7f);
    assert_eq!(to_kvantum_color(&c), "#12ab007f");
    assert_eq!(parse_kvantum_color(&to_kvantum_color(&c)), Some(c));
    let o = Rgba::rgb(0xff, 0x00, 0x10);
    assert_eq!(to_kvantum_color(&o), "#ff0010");
}

#[test]
fn parse_rejects_malformed() {
    assert_eq!(parse_kvantum_color("1a1111"), None);
    assert_eq!(parse_kvantum_color("#1a111"), None);
    assert_eq!(parse_kvantum_color("#zz1111"), None);
    assert_eq!(parse_klassy_color("1,2"), None);
    assert_eq!(parse_klassy_color("1,2,300"), None);
    assert_eq!(parse_klassy_color(" 1 , 2 , 3 "), Some(Rgba::rgb(1, 2, 3)));
}

#[test]
fn try_parse_trims_and_ignores_case() {
    assert_eq!(try_parse("  #000000  "), Some(Rgba::rgb(0, 0, 0)));
    assert_eq!(try_parse("WHITE"), Some(Rgba::rgb(255, 255, 255)));
    assert_eq!(try_parse("Magenta"), Some(Rgba::rgb(255, 0, 255)));
}

#[test]
fn kvantum_pairs_are_exactly_hex_digits() {
    assert_eq!(parse_kvantum_color("#+f+f+f"), None);
    assert_eq!(parse_kvantum_color("#+f+f+f+f"), None);
    assert_eq!(parse_kvantum_color("#0F0f0F"), Some(Rgba::rgb(15, 15, 15)));
    assert_eq!(parse_kvantum_color("#0g0000"), None);
}
