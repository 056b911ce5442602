use keasyditor_core::ini::{parse_ini, serialize_ini, IniDocument};

#[test]
fn parse_simple_ini() {
    let input = "[Section]\nkey=value\n";
    let doc = parse_ini(input);
    assert_eq!(doc.sections.len(), 1);
    assert_eq!(doc.sections[0].name, "Section");
    assert_eq!(doc.get_value("Section", "key"), Some("value"));
}

#[test]
fn parse_kvantum_percent_general() {
    let input = "[%General]\ncomposite=true\n";
    let doc = parse_ini(input);
    assert_eq!(doc.sections[0].name, "%General");
    assert_eq!(doc.get_value("%General", "composite"), Some("true"));
}

#[test]
fn parse_dotted_keys() {
    let input = "[GeneralColors]\nwindow.color=#1a1111\ntext.focus.color=#e05555\n";
    let doc = parse_ini(input);
    assert_eq!(doc.get_value("GeneralColors", "window.color"), Some("#1a1111"));
    assert_eq!(doc.get_value("GeneralColors", "text.focus.color"), Some("#e05555"));
}

#[test]
fn preserve_comments() {
    let input = "# Header comment\n[Section]\n# Entry comment\nkey=value\n";
    let doc = parse_ini(input);
    assert_eq!(doc.header_lines.len(), 1);
    assert_eq!(doc.header_lines[0], "# Header comment");
}

#[test]
fn set_and_get_value() {
    let mut doc = parse_ini("[S]\na=1\n");
    doc.set_value("S", "a", "2".to_string());
    assert_eq!(doc.get_value("S", "a"), Some("2"));
    doc.set_value("S", "b", "3".to_string());
    assert_eq!(doc.get_value("S", "b"), Some("3"));
}

#[test]
fn parser_remove_value() {
    let mut doc = parse_ini("[S]\na=1\nb=2\n");
    assert!(doc.remove_value("S", "a"));
    assert_eq!(doc.get_value("S", "a"), None);
    assert_eq!(doc.get_value("S", "b"), Some("2"));
}

#[test]
fn round_trip_simple() {
    let input = "[Section]\nkey=value\n";
    let doc = parse_ini(input);
    let output = serialize_ini(&doc);
    assert_eq!(output, input);
}

#[test]
fn round_trip_with_comments() {
    let input = "# Top comment\n[Section]\nkey=value\n";
    let doc = parse_ini(input);
    let output = serialize_ini(&doc);
    assert_eq!(output, input);
}

#[test]
fn round_trip_multiple_sections() {
    let input = "[A]\na=1\n\n[B]\nb=2\n";
    let doc = parse_ini(input);
    let output = serialize_ini(&doc);
    assert_eq!(output, input);
}

#[test]
fn inline_comment_is_split_but_hex_colour_is_kept() {
    let doc = parse_ini("[S]\na=1 # note\nb=#123456\nc=x #abcdef\n");
    assert_eq!(doc.get_value("S", "a"), Some("1"));
    assert_eq!(doc.sections[0].entries[0].comment, Some("# note".to_string()));
    assert_eq!(doc.get_value("S", "b"), Some("#123456"));
    assert_eq!(doc.get_value("S", "c"), Some("x #abcdef"));
}

#[test]
fn comment_lines_inside_a_section_are_kept_as_entries() {
    let input = "[S]\na=1\n; note\nb=2\n";
    let doc = parse_ini(input);
    assert_eq!(doc.sections[0].entries.len(), 3);
    assert_eq!(doc.sections[0].entries[1].key, "");
    assert_eq!(doc.sections[0].entries[1].comment, Some("; note".to_string()));
    assert_eq!(serialize_ini(&doc), input);
}

#[test]
fn set_value_creates_section_after_blank_line() {
    let mut doc = IniDocument::empty();
    doc.set_value("New", "k", "v".to_string());
    assert_eq!(serialize_ini(&doc), "\n[New]\nk=v\n");
    assert_eq!(doc.section_names(), vec!["New"]);
}

#[test]
fn remove_missing_value_reports_false() {
    let mut doc = parse_ini("[S]\na=1\n");
    assert!(!doc.remove_value("S", "zzz"));
    assert!(!doc.remove_value("T", "a"));
    assert_eq!(doc.get_value("S", "a"), Some("1"));
}

#[test]
fn trailing_lines_after_last_section() {
    let doc = parse_ini("[S]\na=1\n# end\n");
    assert_eq!(doc.trailing_lines, vec!["# end".to_string()]);
}

#[test]
fn round_trip_writer_layout_with_inline_and_trailing_comments() {
    let input = "# head\n\n[%General]\n; note\nauthor=Me\ncolor=#ff0000\nkey=v # a comment\n\n[Hacks]\nx=1\n# tail\n\n";
    let doc = parse_ini(input);
    assert_eq!(serialize_ini(&doc), input);
}

#[test]
fn round_trip_does_not_hold_off_layout() {
    // Spaces around `=` and a missing final newline are normalised.
    let input = "[S]\nkey = value";
    let doc = parse_ini(input);
    assert_eq!(serialize_ini(&doc), "[S]\nkey=value\n");
}

#[test]
fn plain_text_round_trips() {
    let inputs = [
        "",
        "# Top comment\n[Section]\nkey=value\n",
        "[A]\na=1\n\n[B]\nb=2\n",
        "; header note\nloose line\n[%General]\ntext.focus.color=#3F67A5\n  # indented comment\nplain words\n[B]\nx=\n",
    ];
    for input in inputs {
        assert_eq!(serialize_ini(&parse_ini(input)), input);
    }
}

#[test]
fn reload_reads_the_same_values() {
    let input = "lead=1 # note\n[Sec] extra\n  key = value # trailing note\n=stray\n[odd=2\ncolor=#A1B2C3\r\n[Sec]\nkey=shadowed\n";
    let first = parse_ini(input);
    let again = parse_ini(&serialize_ini(&first));
    for (section, key) in [("Sec", "key"), ("Sec", "[odd"), ("Sec", "color"), ("Sec", "missing"), ("Nope", "key")] {
        assert_eq!(again.get_value(section, key), first.get_value(section, key));
    }
    assert_eq!(again.get_value("Sec", "key"), Some("value"));
    assert_eq!(again.get_value("Sec", "color"), Some("#A1B2C3"));
}
