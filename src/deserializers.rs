use vstd::prelude::*;
use crate::registry::{decode_utf8, json_of, parse_json};

verus! {

/// A key or value read as text.
#[derive(Debug, PartialEq)]
pub enum RawValue {
    /// The key or value was absent.
    Null,
    /// The text is a JSON document.
    Json(serde_json::Value),
    /// The text is not JSON and is kept as a string.
    Text(String),
}

/// Reads a key or value as text: absent bytes are null, a JSON document is
/// kept as JSON, and any other UTF-8 text as a string. Bytes that are not
/// UTF-8 give `None`.
pub fn string_deserializer(bytes: Option<Vec<u8>>) -> (r: Option<RawValue>)
    ensures
        bytes is None ==> r == Some(RawValue::Null),
        bytes is Some && !vstd::utf8::valid_utf8(bytes->Some_0@) ==> r is None,
        bytes is Some && vstd::utf8::valid_utf8(bytes->Some_0@) && json_of(
            vstd::utf8::decode_utf8(bytes->Some_0@),
        ) is Some ==> r == Some(
            RawValue::Json(json_of(vstd::utf8::decode_utf8(bytes->Some_0@))->Some_0),
        ),
        bytes is Some && vstd::utf8::valid_utf8(bytes->Some_0@) && json_of(
            vstd::utf8::decode_utf8(bytes->Some_0@),
        ) is None ==> (r matches Some(RawValue::Text(s)) && s@ == vstd::utf8::decode_utf8(
            bytes->Some_0@,
        )),
{
    match bytes {
        None => Some(RawValue::Null),
        Some(bs) => match decode_utf8(bs.as_slice()) {
            Err(_) => None,
            Ok(text) => match parse_json(text.as_str()) {
                Ok(v) => Some(RawValue::Json(v)),
                Err(_) => Some(RawValue::Text(text)),
            },
        },
    }
}

} // verus!
