use krusti::deserializers::{string_deserializer, RawValue};

#[test]
fn absent_is_null() {
    assert_eq!(string_deserializer(None), Some(RawValue::Null));
}

#[test]
fn plain_text_is_a_string() {
    assert_eq!(
        string_deserializer(Some(b"k1".to_vec())),
        Some(RawValue::Text("k1".to_string()))
    );
}

#[test]
fn json_text_is_json() {
    let expected: serde_json::Value = serde_json::from_str("{\"a\": [1, 2]}").unwrap();
    assert_eq!(
        string_deserializer(Some(b"{\"a\": [1, 2]}".to_vec())),
        Some(RawValue::Json(expected))
    );
}

#[test]
fn non_utf8_is_rejected() {
    assert_eq!(string_deserializer(Some(vec![0xFF, 0x00])), None);
}

#[test]
fn json_number_text_is_json() {
    assert_eq!(
        string_deserializer(Some(b"12".to_vec())),
        Some(RawValue::Json(serde_json::Value::from(12)))
    );
}
