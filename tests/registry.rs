use krusti::registry::{
    decimal, schema_from_response, schema_url, FetchOutcome, MSG_BAD_JSON, MSG_BAD_SCHEMA,
    MSG_BAD_UTF8, MSG_GET_FAILED, MSG_NO_SCHEMA, MSG_URL_PARSE,
};

fn answer(status: u32, body: &str) -> FetchOutcome {
    FetchOutcome::Response { status, body: body.as_bytes().to_vec() }
}

#[test]
fn url_appends_the_id_lookup_to_the_base() {
    assert_eq!(
        schema_url(7, "http://localhost:8081").unwrap(),
        "http://localhost:8081/schemas/ids/7"
    );
    assert_eq!(
        schema_url(42, "http://registry:8081/some/path").unwrap(),
        "http://registry:8081/some/path/schemas/ids/42"
    );
}

#[test]
fn decimal_numerals() {
    assert_eq!(decimal(0), "0");
    assert_eq!(decimal(7), "7");
    assert_eq!(decimal(404), "404");
    assert_eq!(decimal(u32::MAX), "4294967295");
}

#[test]
fn malformed_base_url_is_a_permanent_error() {
    let e = schema_url(7, "not a url").unwrap_err();
    assert_eq!(e.error, MSG_URL_PARSE);
    assert!(e.side.is_some());
    assert!(!e.retriable);
    assert!(!e.cached);
}

#[test]
fn transport_failure_is_retriable() {
    let e = schema_from_response(FetchOutcome::Failed { cause: "refused".to_string() }).unwrap_err();
    assert_eq!(e.error, MSG_GET_FAILED);
    assert_eq!(e.side.as_deref(), Some("refused"));
    assert!(e.retriable);
}

#[test]
fn unreadable_status_is_retriable() {
    let e = schema_from_response(FetchOutcome::NoStatus { cause: "gone".to_string() }).unwrap_err();
    assert_eq!(e.error, "Encountered error getting http response: gone");
    assert_eq!(e.side.as_deref(), Some("gone"));
    assert!(e.retriable);
}

#[test]
fn non_200_status_is_permanent_and_names_the_code() {
    let e = schema_from_response(answer(404, "{}")).unwrap_err();
    assert_eq!(e.error, "Did not get a 200 response code but 404 instead");
    assert_eq!(e.side, None);
    assert!(!e.retriable);
    assert!(!e.cached);
}

#[test]
fn non_utf8_body_is_invalid() {
    let outcome = FetchOutcome::Response { status: 200, body: vec![0xFF, 0xFE] };
    let e = schema_from_response(outcome).unwrap_err();
    assert_eq!(e.error, MSG_BAD_UTF8);
    assert!(e.side.is_some());
    assert!(!e.retriable);
}

#[test]
fn non_json_body_is_invalid() {
    let e = schema_from_response(answer(200, "not json")).unwrap_err();
    assert_eq!(e.error, MSG_BAD_JSON);
    assert!(e.side.is_some());
    assert!(!e.retriable);
}

#[test]
fn body_without_schema_string_is_invalid() {
    let e = schema_from_response(answer(200, "{\"id\": 3}")).unwrap_err();
    assert_eq!(e.error, MSG_NO_SCHEMA);
    let e = schema_from_response(answer(200, "{\"schema\": 3}")).unwrap_err();
    assert_eq!(e.error, MSG_NO_SCHEMA);
}

#[test]
fn unparsable_schema_is_a_schema_error() {
    let e = schema_from_response(answer(200, "{\"schema\": \"{\\\"type\\\": \\\"nope\\\"}\"}")).unwrap_err();
    assert_eq!(e.error, MSG_BAD_SCHEMA);
    assert!(e.side.is_some());
    assert!(!e.retriable);
}

#[test]
fn valid_answer_gives_the_schema() {
    let schema = schema_from_response(answer(200, "{\"schema\": \"\\\"string\\\"\"}")).unwrap();
    assert_eq!(schema, avro_rs::Schema::String);
}
