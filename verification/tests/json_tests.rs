use rust_ms::json::{JsonNumber, JsonValue};

fn text(s: &str) -> JsonValue {
    JsonValue::String(s.to_string())
}

fn object(members: Vec<(&str, JsonValue)>) -> JsonValue {
    JsonValue::Object(members.into_iter().map(|(k, v)| (k.to_string(), v)).collect())
}

#[test]
fn get_finds_member() {
    let doc = object(vec![("a", text("x")), ("b", text("y"))]);
    assert_eq!(doc.get("b").and_then(|v| v.as_str()), Some("y"));
}

#[test]
fn get_finds_first_of_repeated_names() {
    let doc = object(vec![("a", text("first")), ("a", text("second"))]);
    assert_eq!(doc.get("a").and_then(|v| v.as_str()), Some("first"));
}

#[test]
fn get_missing_member_is_none() {
    let doc = object(vec![("a", text("x"))]);
    assert!(doc.get("z").is_none());
}

#[test]
fn get_on_non_object_is_none() {
    assert!(text("a").get("a").is_none());
    assert!(JsonValue::Null.get("a").is_none());
}

#[test]
fn as_str_only_for_strings() {
    assert_eq!(text("hi").as_str(), Some("hi"));
    assert_eq!(JsonValue::Bool(true).as_str(), None);
}

#[test]
fn as_i64_of_numbers() {
    assert_eq!(JsonValue::Number(JsonNumber::PosInt(6379)).as_i64(), Some(6379));
    assert_eq!(JsonValue::Number(JsonNumber::NegInt(-5)).as_i64(), Some(-5));
    assert_eq!(JsonValue::Number(JsonNumber::PosInt(u64::MAX)).as_i64(), None);
    assert_eq!(JsonValue::Number(JsonNumber::Float).as_i64(), None);
    assert_eq!(text("6379").as_i64(), None);
}

#[test]
fn nested_lookups() {
    let doc = object(vec![(
        "redis",
        object(vec![("host", text("localhost")), ("port", JsonValue::Number(JsonNumber::PosInt(6379)))]),
    )]);
    assert_eq!(doc.str_at("redis", "host"), Some("localhost"));
    assert_eq!(doc.i64_at("redis", "port"), Some(6379));
    assert_eq!(doc.str_at("redis", "port"), None);
    assert_eq!(doc.str_at("kafka", "host"), None);
}

#[test]
fn missing_member_reads_as_nothing() {
    let doc = object(vec![("redis", object(vec![]))]);
    assert_eq!(doc.str_at("redis", "host"), None);
    assert_eq!(doc.i64_at("redis", "port"), None);
}
