use reddit_front::field::{
    find, find_either, get_flag, get_i64, get_optional_flag, get_optional_text,
    get_optional_u64, get_text, get_u32, get_u64, FieldPath, Step,
};
use reddit_front::json::{parse, Json, JsonNumber, Member};
use reddit_front::text::{joined, same_text};

fn object(text: &str) -> Vec<Member> {
    match parse(text.as_bytes()).unwrap() {
        Json::Object(members) => members,
        other => panic!("not an object: {:?}", other),
    }
}

fn key(name: &str) -> FieldPath {
    FieldPath { steps: vec![Step::Key(name.to_string())] }
}

#[test]
fn parse_reads_scalars_and_containers() {
    let tree = parse(br#"{"a": [1, -2, 1.5, "x", true, null]}"#).unwrap();
    let expected = Json::Object(vec![Member {
        key: "a".to_string(),
        value: Json::Array(vec![
            Json::Number(JsonNumber::PosInt(1)),
            Json::Number(JsonNumber::NegInt(-2)),
            Json::Number(JsonNumber::Real("1.5".to_string())),
            Json::Text("x".to_string()),
            Json::Bool(true),
            Json::Null,
        ]),
    }]);
    assert_eq!(tree, expected);
}

#[test]
fn parse_reads_nested_objects_and_escapes() {
    let tree = parse(r#"{"outer": {"inner": "a\"b\u00e9"}}"#.as_bytes()).unwrap();
    let expected = Json::Object(vec![Member {
        key: "outer".to_string(),
        value: Json::Object(vec![Member {
            key: "inner".to_string(),
            value: Json::Text("a\"b\u{e9}".to_string()),
        }]),
    }]);
    assert_eq!(tree, expected);
}

#[test]
fn parse_keeps_large_and_real_numbers_apart() {
    let tree = parse(b"[18446744073709551615, -9223372036854775808, 0.96, 1e3]").unwrap();
    let expected = Json::Array(vec![
        Json::Number(JsonNumber::PosInt(u64::MAX)),
        Json::Number(JsonNumber::NegInt(i64::MIN)),
        Json::Number(JsonNumber::Real("0.96".to_string())),
        Json::Number(JsonNumber::Real("1000.0".to_string())),
    ]);
    assert_eq!(tree, expected);
}

#[test]
fn parse_rejects_malformed_text() {
    assert!(parse(b"{\"a\": ").is_err());
    assert!(parse(b"").is_err());
    assert!(parse(b"{\"a\": 1} trailing").is_err());
}

#[test]
fn parse_reports_the_parsers_complaint() {
    let complaint = parse(b"[1,").unwrap_err();
    assert!(complaint.contains("line 1"), "{}", complaint);
}

#[test]
fn same_text_compares_characters() {
    assert!(same_text("", ""));
    assert!(same_text("kind", "kind"));
    assert!(!same_text("kind", "kinds"));
    assert!(!same_text("kind", "kine"));
    assert!(same_text("\u{e9}t\u{e9}", "\u{e9}t\u{e9}"));
    assert!(!same_text("\u{e9}", "e"));
}

#[test]
fn joined_puts_one_text_after_the_other() {
    assert_eq!(joined("/", "r/rust"), "/r/rust");
    assert_eq!(joined("", ""), "");
}

#[test]
fn find_takes_the_first_member_with_the_key() {
    let members = vec![
        Member { key: "a".to_string(), value: Json::Bool(true) },
        Member { key: "b".to_string(), value: Json::Null },
        Member { key: "a".to_string(), value: Json::Bool(false) },
    ];
    assert_eq!(find(&members, "a"), Some(&Json::Bool(true)));
    assert_eq!(find(&members, "b"), Some(&Json::Null));
    assert_eq!(find(&members, "c"), None);
}

#[test]
fn find_either_takes_the_key_or_its_alias() {
    let long = object(r#"{"url": "L"}"#);
    let short = object(r#"{"u": "S"}"#);
    let both = object(r#"{"u": "S", "url": "L"}"#);
    let neither = object(r#"{"v": "S"}"#);
    assert_eq!(find_either(&long, "url", "u"), Ok(Some(&Json::Text("L".to_string()))));
    assert_eq!(find_either(&short, "url", "u"), Ok(Some(&Json::Text("S".to_string()))));
    assert_eq!(find_either(&both, "url", "u"), Err(key("url")));
    assert_eq!(find_either(&neither, "url", "u"), Ok(None));
}

#[test]
fn text_must_be_a_string() {
    let members = object(r#"{"a": "x", "b": 1, "c": null}"#);
    assert_eq!(get_text(&members, "a"), Ok("x".to_string()));
    assert_eq!(get_text(&members, "b"), Err(key("b")));
    assert_eq!(get_text(&members, "c"), Err(key("c")));
    assert_eq!(get_text(&members, "d"), Err(key("d")));
}

#[test]
fn optional_text_takes_null_and_absence_for_none() {
    let members = object(r#"{"a": "x", "b": 1, "c": null}"#);
    assert_eq!(get_optional_text(&members, "a"), Ok(Some("x".to_string())));
    assert_eq!(get_optional_text(&members, "b"), Err(key("b")));
    assert_eq!(get_optional_text(&members, "c"), Ok(None));
    assert_eq!(get_optional_text(&members, "d"), Ok(None));
}

#[test]
fn flags_must_be_booleans() {
    let members = object(r#"{"a": true, "b": 0, "c": null}"#);
    assert_eq!(get_flag(&members, "a"), Ok(true));
    assert_eq!(get_flag(&members, "b"), Err(key("b")));
    assert_eq!(get_flag(&members, "c"), Err(key("c")));
    assert_eq!(get_optional_flag(&members, "a"), Ok(Some(true)));
    assert_eq!(get_optional_flag(&members, "b"), Err(key("b")));
    assert_eq!(get_optional_flag(&members, "c"), Ok(None));
    assert_eq!(get_optional_flag(&members, "d"), Ok(None));
}

#[test]
fn integers_must_fit_their_type() {
    let members = object(
        r#"{"zero": 0, "neg": -1, "big": 9223372036854775808, "max": 9223372036854775807,
            "u32max": 4294967295, "over32": 4294967296, "real": 1.0, "text": "1"}"#,
    );
    assert_eq!(get_i64(&members, "zero"), Ok(0));
    assert_eq!(get_i64(&members, "neg"), Ok(-1));
    assert_eq!(get_i64(&members, "max"), Ok(i64::MAX));
    assert_eq!(get_i64(&members, "big"), Err(key("big")));
    assert_eq!(get_i64(&members, "real"), Err(key("real")));
    assert_eq!(get_i64(&members, "text"), Err(key("text")));
    assert_eq!(get_u64(&members, "zero"), Ok(0));
    assert_eq!(get_u64(&members, "big"), Ok(9223372036854775808));
    assert_eq!(get_u64(&members, "neg"), Err(key("neg")));
    assert_eq!(get_u64(&members, "real"), Err(key("real")));
    assert_eq!(get_u32(&members, "u32max"), Ok(u32::MAX));
    assert_eq!(get_u32(&members, "over32"), Err(key("over32")));
    assert_eq!(get_u32(&members, "neg"), Err(key("neg")));
    assert_eq!(get_optional_u64(&members, "zero"), Ok(Some(0)));
    assert_eq!(get_optional_u64(&members, "missing"), Ok(None));
    assert_eq!(get_optional_u64(&members, "neg"), Err(key("neg")));
}

#[test]
fn integers_written_by_hand_in_either_form_are_read() {
    let members = vec![
        Member { key: "a".to_string(), value: Json::Number(JsonNumber::NegInt(7)) },
        Member { key: "b".to_string(), value: Json::Number(JsonNumber::PosInt(7)) },
    ];
    assert_eq!(get_u64(&members, "a"), Ok(7));
    assert_eq!(get_u32(&members, "a"), Ok(7));
    assert_eq!(get_i64(&members, "b"), Ok(7));
}

#[test]
fn paths_grow_from_the_front() {
    let path = FieldPath::at("title").below_index(3).below("children").below("data");
    assert_eq!(
        path,
        FieldPath {
            steps: vec![
                Step::Key("data".to_string()),
                Step::Key("children".to_string()),
                Step::Index(3),
                Step::Key("title".to_string()),
            ],
        }
    );
    assert_eq!(FieldPath::root(), FieldPath { steps: vec![] });
}
