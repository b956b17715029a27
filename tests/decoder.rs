use krusti::decoder::{datum_from_payload, Datum, DecodeStep, Decoder, MSG_BAD_PAYLOAD};
use krusti::error::SRCError;
use krusti::registry::FetchOutcome;

fn string_schema() -> avro_rs::Schema {
    avro_rs::Schema::parse_str("\"string\"").unwrap()
}

fn framed(id: u8, payload: &[u8]) -> Vec<u8> {
    let mut v = vec![0u8, 0, 0, 0, id];
    v.extend_from_slice(payload);
    v
}

#[test]
fn absent_and_opaque_bytes_need_no_schema() {
    let d = Decoder::new("http://localhost:8081".to_string());
    assert!(matches!(d.decode(None), DecodeStep::Done(Ok(Datum::Null))));
    match d.decode(Some(&[1u8, 2, 3, 4, 5][..])) {
        DecodeStep::Done(Ok(Datum::Bytes(b))) => assert_eq!(b, vec![1, 2, 3, 4, 5]),
        other => panic!("unexpected {:?}", other),
    }
}

#[test]
fn unknown_id_asks_for_a_fetch() {
    let d = Decoder::new("http://localhost:8081".to_string());
    let bytes = framed(7, &[4, b'h', b'i']);
    assert!(matches!(d.decode(Some(bytes.as_slice())), DecodeStep::Fetch(7)));
}

#[test]
fn fetched_schema_is_used_without_another_fetch() {
    let mut d = Decoder::new("http://localhost:8081".to_string());
    let bytes = framed(7, &[4, b'h', b'i']);
    assert!(matches!(d.decode(Some(bytes.as_slice())), DecodeStep::Fetch(7)));
    d.resolve(7, Ok(string_schema()));
    for _ in 0..2 {
        match d.decode(Some(bytes.as_slice())) {
            DecodeStep::Done(Ok(Datum::Value(v))) => {
                assert_eq!(v, avro_rs::types::Value::String("hi".to_string()))
            },
            other => panic!("unexpected {:?}", other),
        }
    }
    d.remove_errors_from_cache();
    assert!(matches!(d.decode(Some(bytes.as_slice())), DecodeStep::Done(Ok(Datum::Value(_)))));
}

#[test]
fn failed_fetch_is_replayed_until_purged() {
    let mut d = Decoder::new("http://localhost:8081".to_string());
    let bytes = framed(9, &[0]);
    d.resolve(9, Err(SRCError::new("gone", Some("404"), false)));
    for _ in 0..2 {
        match d.decode(Some(bytes.as_slice())) {
            DecodeStep::Done(Err(e)) => {
                assert_eq!(e.error, "gone");
                assert_eq!(e.side.as_deref(), Some("404"));
                assert!(!e.retriable);
                assert!(e.cached);
            },
            other => panic!("unexpected {:?}", other),
        }
    }
    d.remove_errors_from_cache();
    assert!(matches!(d.decode(Some(bytes.as_slice())), DecodeStep::Fetch(9)));
}

#[test]
fn a_cached_entry_is_never_replaced() {
    let mut d = Decoder::new("http://localhost:8081".to_string());
    let bytes = framed(3, &[4, b'o', b'k']);
    d.resolve(3, Ok(string_schema()));
    d.resolve(3, Err(SRCError::new("late", None, true)));
    assert!(matches!(d.decode(Some(bytes.as_slice())), DecodeStep::Done(Ok(Datum::Value(_)))));
}

#[test]
fn complete_fetch_caches_a_bad_status() {
    let mut d = Decoder::new("http://localhost:8081".to_string());
    let bytes = framed(5, &[0]);
    d.complete_fetch(5, FetchOutcome::Response { status: 500, body: vec![] });
    match d.decode(Some(bytes.as_slice())) {
        DecodeStep::Done(Err(e)) => {
            assert_eq!(e.error, "Did not get a 200 response code but 500 instead");
            assert!(e.cached);
        },
        other => panic!("unexpected {:?}", other),
    }
}

#[test]
fn corrupt_payload_is_a_payload_error() {
    let mut d = Decoder::new("http://localhost:8081".to_string());
    let bytes = framed(7, &[40, b'h']);
    d.resolve(7, Ok(string_schema()));
    match d.decode(Some(bytes.as_slice())) {
        DecodeStep::Done(Err(e)) => {
            assert_eq!(e.error, MSG_BAD_PAYLOAD);
            assert!(!e.retriable);
            assert!(!e.cached);
        },
        other => panic!("unexpected {:?}", other),
    }
}

#[test]
fn payload_outcome_is_passed_through() {
    let r = datum_from_payload(Err("bad".to_string())).unwrap_err();
    assert_eq!(r.error, MSG_BAD_PAYLOAD);
    assert_eq!(r.side.as_deref(), Some("bad"));
    assert!(matches!(
        datum_from_payload(Ok(avro_rs::types::Value::Null)),
        Ok(Datum::Value(avro_rs::types::Value::Null))
    ));
}

#[test]
fn request_address_uses_the_registry() {
    let d = Decoder::new("http://localhost:8081".to_string());
    assert_eq!(d.schema_request(12).unwrap(), "http://localhost:8081/schemas/ids/12");
}

#[test]
fn enum_payload_decodes_to_its_symbol() {
    let mut d = Decoder::new("http://localhost:8081".to_string());
    let schema = avro_rs::Schema::parse_str(
        "{\"type\": \"enum\", \"name\": \"colour\", \"symbols\": [\"RED\", \"GREEN\"]}",
    )
    .unwrap();
    d.resolve(4, Ok(schema));
    let bytes = framed(4, &[2]);
    match d.decode(Some(bytes.as_slice())) {
        DecodeStep::Done(Ok(Datum::Value(v))) => {
            assert_eq!(v, avro_rs::types::Value::Enum(1, "GREEN".to_string()))
        },
        other => panic!("unexpected {:?}", other),
    }
}
