use vstd::prelude::*;
use vstd::string::StringExecFns;
use crate::error::{SRCError, opt_string_view};

verus! {

#[verifier::external_type_specification]
#[verifier::external_body]
pub struct ExJsonValue(serde_json::Value);

#[verifier::external_type_specification]
#[verifier::external_body]
pub struct ExSchema(avro_rs::Schema);

/// The serialization of the URL that `url::Url::parse` reads from the text,
/// if it reads one.
pub uninterp spec fn url_parse(s: Seq<char>) -> Option<Seq<char>>;

/// The JSON value that `serde_json::from_str` reads from the text, if any.
pub uninterp spec fn json_of(s: Seq<char>) -> Option<serde_json::Value>;

/// The text of the string member `key` of the JSON object read from `s`
/// (`serde_json::Value::get`, then `as_str`); `None` where there is no such
/// member or it is not a string.
pub uninterp spec fn json_string_member(s: Seq<char>, key: Seq<char>) -> Option<Seq<char>>;

/// Whether `avro_rs::Schema::parse_str` reads the text as an Avro schema.
pub uninterp spec fn schema_parses(s: Seq<char>) -> bool;

/// Relies on `url::Url::parse`: it succeeds exactly on the texts it
/// accepts; the URL is handed back serialized.
#[verifier::external_body]
fn parse_url(s: &str) -> (r: Result<String, String>)
    ensures
        r is Ok <==> url_parse(s@) is Some,
        r is Ok ==> r->Ok_0@ == url_parse(s@)->Some_0,
{
    url::Url::parse(s).map(String::from).map_err(|e| e.to_string())
}

/// Relies on `std::str::from_utf8`: it succeeds exactly on valid UTF-8,
/// and gives the text the bytes encode.
#[verifier::external_body]
pub(crate) fn decode_utf8(b: &[u8]) -> (r: Result<String, String>)
    ensures
        r is Ok <==> vstd::utf8::valid_utf8(b@),
        r is Ok ==> r->Ok_0@ == vstd::utf8::decode_utf8(b@),
{
    std::str::from_utf8(b).map(|s| s.to_owned()).map_err(|e| e.to_string())
}

/// Relies on `serde_json::from_str`: the JSON value the text holds.
#[verifier::external_body]
pub(crate) fn parse_json(s: &str) -> (r: Result<serde_json::Value, String>)
    ensures
        r is Ok <==> json_of(s@) is Some,
        r is Ok ==> r->Ok_0 == json_of(s@)->Some_0,
{
    serde_json::from_str::<serde_json::Value>(s).map_err(|e| e.to_string())
}

/// Relies on `serde_json::from_str`, `Value::get` and `Value::as_str`: reads
/// the text as JSON and hands back the string member `key`, if there is one.
#[verifier::external_body]
fn read_string_member(s: &str, key: &str) -> (r: Result<Option<String>, String>)
    ensures
        r is Ok <==> json_of(s@) is Some,
        r is Ok ==> opt_string_view(r->Ok_0) == json_string_member(s@, key@),
{
    serde_json::from_str::<serde_json::Value>(s)
        .map(|v| v.get(key).and_then(|m| m.as_str()).map(|m| m.to_owned()))
        .map_err(|e| e.to_string())
}

/// Relies on `avro_rs::Schema::parse_str`: it succeeds exactly on the
/// texts it reads as a schema.
#[verifier::external_body]
fn parse_schema(s: &str) -> (r: Result<avro_rs::Schema, String>)
    ensures
        r is Ok <==> schema_parses(s@),
{
    avro_rs::Schema::parse_str(s).map_err(|e| e.to_string())
}

/// Relies on `String::push`: appends `c`.
#[verifier::external_body]
fn append_char(s: &mut String, c: char)
    ensures
        final(s)@ == old(s)@.push(c),
{
    s.push(c)
}

/// The ten decimal digits, in order.
pub open spec fn digits() -> Seq<char> {
    seq!['0', '1', '2', '3', '4', '5', '6', '7', '8', '9']
}

/// The decimal numeral of `n`, without leading zeros.
pub open spec fn decimal_text(n: nat) -> Seq<char>
    decreases n,
{
    if n < 10 {
        seq![digits()[n as int]]
    } else {
        decimal_text(n / 10).push(digits()[(n % 10) as int])
    }
}

fn digit(d: u32) -> (c: char)
    requires
        d < 10,
    ensures
        c == digits()[d as int],
{
    match d {
        0 => '0',
        1 => '1',
        2 => '2',
        3 => '3',
        4 => '4',
        5 => '5',
        6 => '6',
        7 => '7',
        8 => '8',
        _ => '9',
    }
}

/// The decimal numeral of `n`.
pub fn decimal(n: u32) -> (r: String)
    ensures
        r@ == decimal_text(n as nat),
    decreases n,
{
    if n < 10 {
        let mut s = String::new();
        append_char(&mut s, digit(n));
        s
    } else {
        let mut s = decimal(n / 10);
        append_char(&mut s, digit(n % 10));
        s
    }
}

/// `a` followed by `b`, as a new string.
fn concat(a: &str, b: &str) -> (r: String)
    ensures
        r@ == a@ + b@,
{
    let mut s = a.to_owned();
    s.append(b);
    s
}

pub const MSG_URL_PARSE: &'static str = "Error parsing schema registry url";
pub const MSG_URL_BUILD: &'static str = "Error constructing schema registry url";
pub const MSG_GET_FAILED: &'static str = "error performing get to schema registry";
pub const MSG_NO_STATUS: &'static str = "Encountered error getting http response: ";
pub const MSG_BAD_STATUS: &'static str = "Did not get a 200 response code but ";
pub const MSG_BAD_STATUS_END: &'static str = " instead";
pub const MSG_BAD_UTF8: &'static str = "Invalid UTF-8 sequence";
pub const MSG_BAD_JSON: &'static str = "Invalid json string";
pub const MSG_NO_SCHEMA: &'static str = "Could not get raw schema from response";
pub const MSG_BAD_SCHEMA: &'static str = "Could not parse schema";

/// The path under the registry base where schemas are looked up by id.
pub const SCHEMAS_BY_ID: &'static str = "/schemas/ids/";

/// The member of the registry's answer that holds the schema text.
pub const SCHEMA_MEMBER: &'static str = "schema";

/// The HTTP status of a successful lookup.
pub const STATUS_OK: u32 = 200;

/// What came back from one HTTP GET to the registry.
#[derive(Debug)]
pub enum FetchOutcome {
    /// The request could not be performed (refused, timed out, unresolved).
    Failed { cause: String },
    /// The request was performed but its status could not be read.
    NoStatus { cause: String },
    /// The registry answered with this status and body.
    Response { status: u32, body: Vec<u8> },
}

/// An error with the given message, neither retriable nor cached.
pub open spec fn is_permanent(e: SRCError, msg: Seq<char>) -> bool {
    e.error@ == msg && !e.retriable && !e.cached
}

/// The message of an answer with an unexpected status.
pub open spec fn status_message(status: u32) -> Seq<char> {
    MSG_BAD_STATUS@ + decimal_text(status as nat) + MSG_BAD_STATUS_END@
}

/// The text of the lookup address of schema `id` under the registry `base`.
pub open spec fn schema_address(base: Seq<char>, id: u32) -> Seq<char> {
    base + SCHEMAS_BY_ID@ + decimal_text(id as nat)
}

/// The lookup address of schema `id` under the registry at `base`:
/// `{base}/schemas/ids/{id}`, checked and normalized as a URL.
pub open spec fn schema_url_result(base: Seq<char>, id: u32, r: Result<String, SRCError>) -> bool {
    if url_parse(base) is None {
        r is Err && is_permanent(r->Err_0, MSG_URL_PARSE@) && r->Err_0.side is Some
    } else if url_parse(schema_address(base, id)) is None {
        r is Err && is_permanent(r->Err_0, MSG_URL_BUILD@) && r->Err_0.side is Some
    } else {
        r is Ok && r->Ok_0@ == url_parse(schema_address(base, id))->Some_0
    }
}

/// What reading a registry answer gives: a retriable error when the
/// transport failed or no status could be read; a permanent error for a
/// status other than 200, a body that is not UTF-8 or not JSON, a body
/// without a `schema` string, or a schema text that does not parse; the
/// schema otherwise.
pub open spec fn response_result(outcome: FetchOutcome, r: Result<avro_rs::Schema, SRCError>) -> bool {
    match outcome {
        FetchOutcome::Failed { cause } => r is Err && r->Err_0.error@ == MSG_GET_FAILED@
            && opt_string_view(r->Err_0.side) == Some(cause@) && r->Err_0.retriable
            && !r->Err_0.cached,
        FetchOutcome::NoStatus { cause } => r is Err && r->Err_0.error@ == MSG_NO_STATUS@ + cause@
            && opt_string_view(r->Err_0.side) == Some(cause@) && r->Err_0.retriable
            && !r->Err_0.cached,
        FetchOutcome::Response { status, body } => if status != STATUS_OK {
            r is Err && is_permanent(r->Err_0, status_message(status)) && r->Err_0.side is None
        } else if !vstd::utf8::valid_utf8(body@) {
            r is Err && is_permanent(r->Err_0, MSG_BAD_UTF8@) && r->Err_0.side is Some
        } else if json_of(vstd::utf8::decode_utf8(body@)) is None {
            r is Err && is_permanent(r->Err_0, MSG_BAD_JSON@) && r->Err_0.side is Some
        } else if json_string_member(vstd::utf8::decode_utf8(body@), SCHEMA_MEMBER@) is None {
            r is Err && is_permanent(r->Err_0, MSG_NO_SCHEMA@) && r->Err_0.side is None
        } else if !schema_parses(
            json_string_member(vstd::utf8::decode_utf8(body@), SCHEMA_MEMBER@)->Some_0,
        ) {
            r is Err && is_permanent(r->Err_0, MSG_BAD_SCHEMA@) && r->Err_0.side is Some
        } else {
            r is Ok
        },
    }
}

/// The address of the schema with id `id` under the registry at
/// `schema_registry_url`: `{schema_registry_url}/schemas/ids/{id}`.
pub fn schema_url(id: u32, schema_registry_url: &str) -> (r: Result<String, SRCError>)
    ensures
        schema_url_result(schema_registry_url@, id, r),
{
    match parse_url(schema_registry_url) {
        Ok(_) => {},
        Err(e) => {
            return Err(SRCError::new(MSG_URL_PARSE, Some(e.as_str()), false));
        },
    }
    let dir = concat(schema_registry_url, SCHEMAS_BY_ID);
    let id_text = decimal(id);
    let address = concat(dir.as_str(), id_text.as_str());
    match parse_url(address.as_str()) {
        Ok(u) => Ok(u),
        Err(e) => Err(SRCError::new(MSG_URL_BUILD, Some(e.as_str()), false)),
    }
}

/// Reads the schema out of what the registry sent back.
pub fn schema_from_response(outcome: FetchOutcome) -> (r: Result<avro_rs::Schema, SRCError>)
    ensures
        response_result(outcome, r),
{
    match outcome {
        FetchOutcome::Failed { cause } => Err(SRCError::new(MSG_GET_FAILED, Some(cause.as_str()), true)),
        FetchOutcome::NoStatus { cause } => {
            let msg = concat(MSG_NO_STATUS, cause.as_str());
            Err(SRCError::new(msg.as_str(), Some(cause.as_str()), true))
        },
        FetchOutcome::Response { status, body } => {
            if status != STATUS_OK {
                let head = concat(MSG_BAD_STATUS, decimal(status).as_str());
                let msg = concat(head.as_str(), MSG_BAD_STATUS_END);
                return Err(SRCError::new(msg.as_str(), None, false));
            }
            let text = match decode_utf8(body.as_slice()) {
                Ok(t) => t,
                Err(e) => {
                    return Err(SRCError::new(MSG_BAD_UTF8, Some(e.as_str()), false));
                },
            };
            let raw = match read_string_member(text.as_str(), SCHEMA_MEMBER) {
                Ok(Some(s)) => s,
                Ok(None) => {
                    return Err(SRCError::new(MSG_NO_SCHEMA, None, false));
                },
                Err(e) => {
                    return Err(SRCError::new(MSG_BAD_JSON, Some(e.as_str()), false));
                },
            };
            match parse_schema(raw.as_str()) {
                Ok(s) => Ok(s),
                Err(e) => Err(SRCError::new(MSG_BAD_SCHEMA, Some(e.as_str()), false)),
            }
        },
    }
}

} // verus!
