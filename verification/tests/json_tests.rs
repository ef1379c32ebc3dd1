use block_explorer::json::Json;
use block_explorer::parse::parse_json;
use block_explorer::text::str_eq;

#[test]
fn parse_reads_an_object_of_all_kinds() {
    let body = br#"{"a": null, "b": true, "c": 7, "d": -1, "e": 1.5, "f": "x", "g": [1, 2], "h": {"i": 3}}"#;
    let json = parse_json(body).ok().unwrap();
    assert!(matches!(json.get("a"), Some(Json::Null)));
    assert!(matches!(json.get("b"), Some(Json::Bool(true))));
    assert!(matches!(json.get("c"), Some(Json::Natural(7))));
    assert!(matches!(json.get("d"), Some(Json::OtherNumber)));
    assert!(matches!(json.get("e"), Some(Json::OtherNumber)));
    match json.get("f") {
        Some(Json::Text(s)) => assert_eq!(s, "x"),
        _ => panic!("f is not a text"),
    }
    match json.get("g") {
        Some(Json::Array(items)) => {
            assert_eq!(items.len(), 2);
            assert!(matches!(items[0], Json::Natural(1)));
            assert!(matches!(items[1], Json::Natural(2)));
        }
        _ => panic!("g is not an array"),
    }
    let inner = json.get("h").unwrap();
    assert!(matches!(inner.get("i"), Some(Json::Natural(3))));
    assert!(json.get("z").is_none());
}

#[test]
fn parse_rejects_malformed_text() {
    assert!(parse_json(b"{").is_err());
    assert!(parse_json(b"").is_err());
    assert!(parse_json(b"{} x").is_err());
}

#[test]
fn str_eq_compares_characters() {
    assert!(str_eq("hash", "hash"));
    assert!(!str_eq("hash", "hasi"));
    assert!(!str_eq("hash", "has"));
    assert!(str_eq("", ""));
}

#[test]
fn parse_keeps_items_in_order() {
    let json = parse_json(b"[3, \"x\", [], {}, null, false]").ok().unwrap();
    assert_eq!(
        json,
        Json::Array(vec![
            Json::Natural(3),
            Json::Text("x".to_string()),
            Json::Array(vec![]),
            Json::Object(vec![]),
            Json::Null,
            Json::Bool(false),
        ])
    );
}

#[test]
fn parse_reads_scalars() {
    assert_eq!(parse_json(b"null").ok(), Some(Json::Null));
    assert_eq!(parse_json(b"true").ok(), Some(Json::Bool(true)));
    assert_eq!(parse_json(b"0").ok(), Some(Json::Natural(0)));
    assert_eq!(parse_json(b"18446744073709551615").ok(), Some(Json::Natural(u64::MAX)));
    assert_eq!(parse_json(b"18446744073709551616").ok(), Some(Json::OtherNumber));
    assert_eq!(parse_json(b"-3").ok(), Some(Json::OtherNumber));
    assert_eq!(parse_json(b"1e3").ok(), Some(Json::OtherNumber));
    assert_eq!(parse_json(b"\"a\\u00e9\"").ok(), Some(Json::Text("a\u{e9}".to_string())));
}

#[test]
fn parse_keeps_every_member_of_an_object() {
    let json = parse_json(br#"{"b": 1, "a": {"c": [true]}}"#).ok().unwrap();
    match &json {
        Json::Object(members) => {
            assert_eq!(members.len(), 2);
            assert!(members.contains(&("b".to_string(), Json::Natural(1))));
            assert!(members.contains(&(
                "a".to_string(),
                Json::Object(vec![("c".to_string(), Json::Array(vec![Json::Bool(true)]))])
            )));
        }
        other => panic!("{:?}", other),
    }
}

#[test]
fn parse_reports_where_the_text_is_wrong() {
    let error = parse_json(b"{\"a\": }").err().unwrap();
    assert!(!error.message.is_empty());
}

#[test]
fn get_finds_the_last_member_of_a_name() {
    let json = Json::Object(vec![
        ("a".to_string(), Json::Natural(1)),
        ("b".to_string(), Json::Natural(2)),
        ("a".to_string(), Json::Natural(3)),
    ]);
    assert_eq!(json.get("a"), Some(&Json::Natural(3)));
    assert_eq!(json.get("b"), Some(&Json::Natural(2)));
    assert_eq!(json.get("c"), None);
    assert_eq!(json.get(""), None);
}

#[test]
fn get_finds_nothing_in_what_is_no_object() {
    assert_eq!(Json::Null.get("a"), None);
    assert_eq!(Json::Array(vec![Json::Natural(1)]).get("0"), None);
    assert_eq!(Json::Text("a".to_string()).get("a"), None);
}

#[test]
fn is_object_tells_objects_apart() {
    assert!(Json::Object(vec![]).is_object());
    assert!(!Json::Array(vec![]).is_object());
    assert!(!Json::Null.is_object());
}

#[test]
fn str_eq_compares_beyond_ascii() {
    assert!(str_eq("\u{e9}t\u{e9}", "\u{e9}t\u{e9}"));
    assert!(!str_eq("\u{e9}", "e"));
    assert!(!str_eq("\u{e9}", "\u{e8}"));
}
