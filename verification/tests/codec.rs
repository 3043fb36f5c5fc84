use refine::codec::{parse_json, parse_record, write_pretty};
use refine::json::Json;
use refine::text::{
    contains_text, decimal_text, is_blank, join_lines, replace_text, strip_prefix_text, text_less,
    trim,
};
use refine::text_map::TextMap;

#[test]
fn json_is_parsed_into_values() {
    let value = parse_json(br#"{"a": [1, -2, 1.5, null, true, "x"], "a2": {}}"#).unwrap();
    let items = value.get_array("a").unwrap();
    assert_eq!(items.len(), 6);
    assert_eq!(items[0].as_unsigned(), Some(1));
    assert_eq!(items[1].as_unsigned(), None);
    assert!(items[3].is_null());
    assert_eq!(items[4].as_bool(), Some(true));
    assert_eq!(items[5].as_text(), Some("x"));
    assert!(value.get("a2").unwrap().is_object());
    assert!(parse_json(b"{").is_err());
}

#[test]
fn a_value_is_read_back_as_it_was_written() {
    let mut value = Json::object();
    value.set("name", Json::text("Größe \"x\"\n"));
    value.set("count", Json::unsigned(u64::MAX));
    value.set("order", Json::signed(-7));
    value.set("list", Json::array(vec![Json::null(), Json::boolean(false)]));
    let bytes = write_pretty(&value).unwrap();
    assert!(bytes.starts_with(b"{\n  \"count\": 18446744073709551615"));
    let read = parse_json(&bytes).unwrap();
    assert_eq!(read.get_text("name"), Some("Größe \"x\"\n"));
    assert_eq!(read.get_unsigned("count"), Some(u64::MAX));
    assert_eq!(write_pretty(&read).unwrap(), bytes);
}

#[test]
fn an_unreadable_record_is_named() {
    let error = parse_record("Goal a/b.json", b"nope").err().unwrap();
    assert!(error.describe().starts_with("failed to parse Goal a/b.json: "));
}

#[test]
fn texts_are_trimmed_like_unicode_says() {
    assert_eq!(trim("\u{3000} a b\t\n"), "a b");
    assert!(is_blank("\u{a0}"));
    assert!(!is_blank(" x "));
    assert_eq!(replace_text("a/b/c", "/", "-"), "a-b-c");
    assert_eq!(strip_prefix_text("~/x", "~/"), Some("x"));
    assert_eq!(decimal_text(0), "0");
    assert_eq!(decimal_text(u128::MAX), u128::MAX.to_string());
    assert!(contains_text("abc", ""));
    assert!(text_less("a", "ab"));
    assert!(!text_less("b", "ab"));
    assert_eq!(join_lines(&vec!["a".to_string(), "b".to_string()]), "a\nb");
}

#[test]
fn map_keys_stand_in_order_and_occur_once() {
    let mut map: TextMap<u64> = TextMap::new();
    map.insert("b".to_string(), 1);
    map.insert("a".to_string(), 2);
    map.insert("b".to_string(), 3);
    assert_eq!(map.len(), 2);
    assert_eq!(map.key_at(0), "a");
    assert_eq!(map.get("b"), Some(&3));
    assert_eq!(map.remove("a"), Some(2));
    assert_eq!(map.remove("a"), None);
    assert_eq!(map.clone().len(), 1);
}
