use krusti::avro::{json_from_avro, AvroValue, Json, UNSUPPORTED_KIND};

fn s(x: &str) -> String {
    x.to_string()
}

#[test]
fn record_maps_to_object_in_field_order() {
    let record = AvroValue::Record(vec![
        (s("a"), AvroValue::Int(5)),
        (s("b"), AvroValue::Array(vec![AvroValue::String(s("x"))])),
    ]);
    let expected = Json::Object(vec![
        (s("a"), Json::Int(5)),
        (s("b"), Json::Array(vec![Json::String(s("x"))])),
    ]);
    assert_eq!(json_from_avro(record), Ok(expected));
}

#[test]
fn scalars_map_to_scalars() {
    assert_eq!(json_from_avro(AvroValue::Null), Ok(Json::Null));
    assert_eq!(json_from_avro(AvroValue::Boolean(true)), Ok(Json::Bool(true)));
    assert_eq!(json_from_avro(AvroValue::Long(-3)), Ok(Json::Int(-3)));
    assert_eq!(json_from_avro(AvroValue::Float(1.5f32.to_bits())), Ok(Json::Float(1.5f32.to_bits())));
    assert_eq!(json_from_avro(AvroValue::Double(2.5f64.to_bits())), Ok(Json::Double(2.5f64.to_bits())));
    assert_eq!(json_from_avro(AvroValue::String(s("hi"))), Ok(Json::String(s("hi"))));
}

#[test]
fn enum_maps_to_its_symbol() {
    assert_eq!(json_from_avro(AvroValue::Enum(2, s("GREEN"))), Ok(Json::String(s("GREEN"))));
}

#[test]
fn union_is_flattened() {
    let v = AvroValue::Union(Box::new(AvroValue::Union(Box::new(AvroValue::Int(1)))));
    assert_eq!(json_from_avro(v), Ok(Json::Int(1)));
}

#[test]
fn map_keeps_keys() {
    let v = AvroValue::StrMap(vec![(s("k"), AvroValue::Boolean(false))]);
    assert_eq!(json_from_avro(v), Ok(Json::Object(vec![(s("k"), Json::Bool(false))])));
}

#[test]
fn unsupported_kinds_fail() {
    for v in vec![AvroValue::Bytes(vec![1]), AvroValue::Fixed(1, vec![1]), AvroValue::Logical] {
        assert_eq!(json_from_avro(v), Err(UNSUPPORTED_KIND.to_string()));
    }
}

#[test]
fn nested_failure_aborts_whole_mapping() {
    let v = AvroValue::Record(vec![
        (s("ok"), AvroValue::Int(1)),
        (s("bad"), AvroValue::Array(vec![AvroValue::Null, AvroValue::Bytes(vec![])])),
    ]);
    assert_eq!(json_from_avro(v), Err(UNSUPPORTED_KIND.to_string()));
}

#[test]
fn mapping_a_result_again_gives_it_back() {
    let first = json_from_avro(AvroValue::Record(vec![
        (s("a"), AvroValue::Long(5)),
        (s("b"), AvroValue::Array(vec![AvroValue::String(s("x"))])),
    ]))
    .unwrap();
    let read_back = AvroValue::Record(vec![
        (s("a"), AvroValue::Long(5)),
        (s("b"), AvroValue::Array(vec![AvroValue::String(s("x"))])),
    ]);
    assert_eq!(json_from_avro(read_back), Ok(first));
}
