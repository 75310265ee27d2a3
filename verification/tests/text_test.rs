use llamp::json::{JsonNumber, JsonValue};

#[test]
fn json_lookup_finds_first_member() {
    let v = JsonValue::Object(vec![
        ("a".to_string(), JsonValue::Number(JsonNumber::PosInt(1))),
        ("a".to_string(), JsonValue::Number(JsonNumber::PosInt(2))),
        ("b".to_string(), JsonValue::String("x".to_string())),
    ]);
    assert_eq!(v.member_i64("a"), Some(1));
    assert_eq!(v.member_str("b"), Some("x".to_string()));
    assert_eq!(v.member_str("a"), None);
    assert_eq!(v.get("c"), None);
    assert_eq!(JsonValue::Array(vec![]).get("a"), None);
    assert_eq!(JsonValue::Number(JsonNumber::PosInt(i64::MAX as u64)).as_i64(), Some(i64::MAX));
    assert_eq!(JsonValue::Number(JsonNumber::PosInt(i64::MAX as u64 + 1)).as_i64(), None);
    assert_eq!(JsonValue::Bool(true).as_str(), None);
}
