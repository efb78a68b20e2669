use pipewire::registry::{dict_get, make_node_event, parse_u32, str_eq};

fn props(pairs: &[(&str, &str)]) -> Vec<(String, String)> {
    pairs.iter().map(|(k, v)| (k.to_string(), v.to_string())).collect()
}

#[test]
fn parses_plain_identifiers() {
    assert_eq!(parse_u32("0"), Some(0));
    assert_eq!(parse_u32("5"), Some(5));
    assert_eq!(parse_u32("42"), Some(42));
    assert_eq!(parse_u32("4294967295"), Some(u32::MAX));
}

#[test]
fn rejects_empty_and_stray_characters() {
    assert_eq!(parse_u32(""), None);
    assert_eq!(parse_u32("12a"), None);
    assert_eq!(parse_u32("-1"), None);
    assert_eq!(parse_u32(" 7"), None);
    assert_eq!(parse_u32("7 "), None);
}

#[test]
fn rejects_values_out_of_range() {
    assert_eq!(parse_u32("4294967296"), None);
    assert_eq!(parse_u32("99999999999999"), None);
}

#[test]
fn leading_zeroes_are_digits_too() {
    assert_eq!(parse_u32("007"), Some(7));
}

#[test]
fn str_eq_compares_characters() {
    assert!(str_eq("node.id", "node.id"));
    assert!(!str_eq("node.id", "port.id"));
    assert!(!str_eq("node", "node.id"));
    assert!(str_eq("", ""));
}

#[test]
fn dict_get_finds_first_match() {
    let d = props(&[("a", "1"), ("b", "2"), ("a", "3")]);
    assert_eq!(dict_get(&d, "a").map(String::as_str), Some("1"));
    assert_eq!(dict_get(&d, "b").map(String::as_str), Some("2"));
    assert_eq!(dict_get(&d, "c"), None);
}

#[test]
fn descriptor_built_from_complete_association() {
    let d = props(&[
        ("node.id", "5"),
        ("port.id", "2"),
        ("audio.channel", "FL"),
        ("object.path", "alsa:pcm:0"),
        ("port.name", "capture_FL"),
        ("port.direction", "Input"),
        ("format.dsp", "32 bit float mono audio"),
    ]);
    let e = make_node_event(42, &d).expect("complete association");
    assert_eq!(e.proxy_id, 42);
    assert_eq!(e.node_id, 5);
    assert_eq!(e.port_id, 2);
    assert_eq!(e.channel, "FL");
    assert_eq!(e.object_path, "alsa:pcm:0");
    assert_eq!(e.port_name, "capture_FL");
    assert_eq!(e.direction, "Input");
    assert_eq!(e.format, "32 bit float mono audio");
}

#[test]
fn absent_optional_properties_fall_back_to_sentinel() {
    let d = props(&[("node.id", "5"), ("port.id", "2")]);
    let e = make_node_event(1, &d).expect("identifiers are enough");
    assert_eq!(e.channel, "Test");
    assert_eq!(e.object_path, "Test");
    assert_eq!(e.port_name, "Test");
    assert_eq!(e.direction, "Test");
    assert_eq!(e.format, "Test");
}

#[test]
fn missing_node_association_yields_nothing() {
    let d = props(&[("port.id", "2"), ("audio.channel", "FL")]);
    assert!(make_node_event(1, &d).is_none());
}

#[test]
fn malformed_identifiers_are_skipped() {
    let with_bad_node = props(&[("node.id", "five"), ("port.id", "2")]);
    assert!(make_node_event(1, &with_bad_node).is_none());
    let without_port = props(&[("node.id", "5")]);
    assert!(make_node_event(1, &without_port).is_none());
    let with_bad_port = props(&[("node.id", "5"), ("port.id", "2x")]);
    assert!(make_node_event(1, &with_bad_port).is_none());
}
