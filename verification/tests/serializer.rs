use linear_fdw::json::Json;

fn s(v: &str) -> Json {
    Json::Str(v.to_string())
}

#[test]
fn scalars_serialize_to_their_tokens() {
    assert_eq!(Json::Null.to_text(), "null");
    assert_eq!(Json::Bool(true).to_text(), "true");
    assert_eq!(Json::Bool(false).to_text(), "false");
    assert_eq!(Json::Int(0).to_text(), "0");
    assert_eq!(Json::Int(-42).to_text(), "-42");
    assert_eq!(Json::Int(i64::MAX).to_text(), "9223372036854775807");
    assert_eq!(Json::Int(i64::MIN).to_text(), "-9223372036854775808");
    assert_eq!(Json::NumText("1.5".to_string()).to_text(), "1.5");
    assert_eq!(s("hi").to_text(), "\"hi\"");
}

#[test]
fn strings_are_escaped() {
    assert_eq!(s("a\"b").to_text(), "\"a\\\"b\"");
    assert_eq!(s("a\\b").to_text(), "\"a\\\\b\"");
    assert_eq!(s("a\nb\tc\rd").to_text(), "\"a\\nb\\tc\\rd\"");
    assert_eq!(s("a\u{0001}b").to_text(), "\"a\\u0001b\"");
    assert_eq!(s("a\u{0008}b\u{000C}c").to_text(), "\"a\\u0008b\\u000cc\"");
}

#[test]
fn arrays_and_objects_nest() {
    let v = Json::Arr(vec![Json::Int(1), Json::Null, s("x")]);
    assert_eq!(v.to_text(), "[1,null,\"x\"]");
    assert_eq!(Json::Arr(Vec::new()).to_text(), "[]");
    let o = Json::Obj(vec![
        ("a".to_string(), Json::Int(1)),
        ("b".to_string(), Json::Arr(vec![Json::Bool(false)])),
    ]);
    assert_eq!(o.to_text(), "{\"a\":1,\"b\":[false]}");
    assert_eq!(Json::Obj(Vec::new()).to_text(), "{}");
}

#[test]
fn serialization_agrees_with_the_parser_library() {
    let o = Json::Obj(vec![
        ("text".to_string(), s("line\none \"two\"")),
        ("n".to_string(), Json::Int(-7)),
        ("inner".to_string(), Json::Arr(vec![Json::Null, Json::Bool(true)])),
    ]);
    let text = o.to_text();
    let reparsed: serde_json::Value = serde_json::from_str(&text).unwrap();
    assert_eq!(reparsed["text"], serde_json::Value::String("line\none \"two\"".to_string()));
    assert_eq!(reparsed["n"], serde_json::Value::from(-7));
}

#[test]
fn member_lookup_takes_the_first_match() {
    let o = Json::Obj(vec![
        ("k".to_string(), Json::Int(1)),
        ("k".to_string(), Json::Int(2)),
    ]);
    assert!(matches!(o.get("k"), Some(Json::Int(1))));
    assert!(o.get("missing").is_none());
    assert!(Json::Null.get("k").is_none());
}
