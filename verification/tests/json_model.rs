use govail_mcp::json::{JsonNumber, JsonValue};

fn s(v: &str) -> JsonValue {
    JsonValue::Str(v.to_string())
}

fn obj(members: Vec<(&str, JsonValue)>) -> JsonValue {
    JsonValue::Object(members.into_iter().map(|(k, v)| (k.to_string(), v)).collect())
}

#[test]
fn get_finds_members_of_objects_only() {
    let v = obj(vec![("a", s("x")), ("n", JsonValue::Number(JsonNumber::Unsigned(7)))]);
    assert_eq!(v.str_field("a"), Some("x"));
    assert_eq!(v.u64_field("n"), Some(7));
    assert!(v.get("missing").is_none());
    assert!(s("text").get("a").is_none());
    assert_eq!(v.str_field_or("missing", "dflt"), "dflt");
}

#[test]
fn negative_and_fractional_numbers_have_no_u64() {
    assert_eq!(JsonValue::Number(JsonNumber::Negative(-3)).as_u64(), None);
    assert_eq!(JsonValue::Number(JsonNumber::Fraction("1.5".to_string())).as_u64(), None);
}

#[test]
fn kind_names_match_json_types() {
    assert_eq!(JsonValue::Null.kind_name(), "null");
    assert_eq!(JsonValue::Bool(true).kind_name(), "boolean");
    assert_eq!(JsonValue::Array(vec![]).kind_name(), "array");
    assert_eq!(obj(vec![]).kind_name(), "object");
}

#[test]
fn duplicate_is_a_deep_copy() {
    let v = obj(vec![("list", JsonValue::Array(vec![s("a"), obj(vec![("b", JsonValue::Bool(false))])]))]);
    let d = v.duplicate();
    assert_eq!(format!("{:?}", d), format!("{:?}", v));
}
