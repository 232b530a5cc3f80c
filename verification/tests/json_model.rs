//! The JSON document model: serialization, escaping and field lookup.

use teamdeck::json::{to_json_bytes, JsonValue};
use teamdeck::params::QueryParams;

#[test]
fn serializer_renders_scalars() {
    assert_eq!(to_json_bytes(&JsonValue::Null), b"null".to_vec());
    assert_eq!(to_json_bytes(&JsonValue::Bool(true)), b"true".to_vec());
    assert_eq!(to_json_bytes(&JsonValue::Bool(false)), b"false".to_vec());
    assert_eq!(to_json_bytes(&JsonValue::Number("42".to_string())), b"42".to_vec());
    assert_eq!(to_json_bytes(&JsonValue::Text("hi".to_string())), b"\"hi\"".to_vec());
}

#[test]
fn serializer_renders_nested_documents() {
    let doc = JsonValue::Object(vec![
        ("a".to_string(), JsonValue::Array(vec![
            JsonValue::Number("1".to_string()),
            JsonValue::Number("2".to_string()),
        ])),
        ("b".to_string(), JsonValue::Null),
    ]);
    assert_eq!(to_json_bytes(&doc), b"{\"a\":[1,2],\"b\":null}".to_vec());
}

#[test]
fn serializer_escapes_string_contents() {
    let doc = JsonValue::Object(vec![(
        "text".to_string(),
        JsonValue::Text("a \"quote\", a \\ and a\nbreak".to_string()),
    )]);
    let bytes = to_json_bytes(&doc);
    // The outside parser reads back exactly what was meant.
    let parsed: serde_json::Value = serde_json::from_slice(&bytes).unwrap();
    assert_eq!(parsed["text"], serde_json::Value::String("a \"quote\", a \\ and a\nbreak".to_string()));
}

#[test]
fn field_lookup_takes_the_first_match() {
    let doc = JsonValue::Object(vec![
        ("k".to_string(), JsonValue::Number("1".to_string())),
        ("k".to_string(), JsonValue::Number("2".to_string())),
    ]);
    assert_eq!(doc.get("k"), Some(&JsonValue::Number("1".to_string())));
    assert_eq!(doc.get("missing"), None);
    assert_eq!(JsonValue::Null.get("k"), None);
}

#[test]
fn query_params_extend_keeps_order_and_duplicates() {
    let mut params = QueryParams::new();
    params.extend(&vec![("a".to_string(), 1u64), ("b".to_string(), 2u64)]);
    params.push("a", &3u64);
    assert_eq!(params.to_query_string(), "a=1&b=2&a=3");
}
