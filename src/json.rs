use vstd::prelude::*;
use vstd::utf8::{decode_utf8, valid_utf8};

use crate::error::RequestError;

verus! {

#[verifier::external_type_specification]
#[verifier::external_body]
pub struct ExJsonValue(serde_json::Value);

#[verifier::external_type_specification]
#[verifier::external_body]
pub struct ExJsonError(serde_json::Error);

/// Whether serde_json reads `s` as exactly one JSON value (surrounding
/// whitespace allowed).
pub uninterp spec fn json_accepts(s: Seq<char>) -> bool;

/// Relies on `String::from_utf8`: the bytes as text where they are valid UTF-8.
#[verifier::external_body]
fn utf8_text(bytes: Vec<u8>) -> (r: Option<String>)
    ensures
        r is Some <==> valid_utf8(bytes@),
        r matches Some(s) ==> s@ == decode_utf8(bytes@),
{
    String::from_utf8(bytes).ok()
}

/// Relies on `serde_json::from_str::<serde_json::Value>`: reads one JSON value.
#[verifier::external_body]
fn parse_json(s: &str) -> (r: Result<serde_json::Value, serde_json::Error>)
    ensures
        r is Ok <==> json_accepts(s@),
{
    serde_json::from_str(s)
}

/// Relies on `serde_json::to_string` for a `serde_json::Value`: its JSON text.
/// A `Value` serializes as strings, numbers, bools, arrays and string-keyed
/// maps into a `Vec`, which never fails.
#[verifier::external_body]
pub(crate) fn json_text(v: &serde_json::Value) -> (r: Result<String, serde_json::Error>)
    ensures
        r is Ok,
{
    serde_json::to_string(v)
}

/// What decoding `text` as JSON comes to, apart from the value itself.
pub open spec fn text_outcome(text: Seq<char>) -> Result<(), RequestError> {
    if json_accepts(text) {
        Ok(())
    } else {
        Err(RequestError::DeserializationError)
    }
}

/// What decoding the bytes of a response body as JSON comes to, apart from the
/// value itself: text that is not UTF-8 is an encoding error, text that is not
/// one JSON value a deserialization error.
pub open spec fn body_outcome(body: Seq<u8>) -> Result<(), RequestError> {
    if !valid_utf8(body) {
        Err(RequestError::EncodingError)
    } else {
        text_outcome(decode_utf8(body))
    }
}

pub open spec fn outcome_of(r: Result<serde_json::Value, RequestError>) -> Result<(), RequestError> {
    match r {
        Ok(_) => Ok(()),
        Err(e) => Err(e),
    }
}

/// Reads `text` as one JSON value.
pub fn decode_json_text(text: &str) -> (r: Result<serde_json::Value, RequestError>)
    ensures
        outcome_of(r) == text_outcome(text@),
{
    match parse_json(text) {
        Ok(v) => Ok(v),
        Err(_) => Err(RequestError::DeserializationError),
    }
}

/// Reads a drained response body as one JSON value: the bytes must be UTF-8
/// text, and the text one JSON value.
pub fn decode_json_body(body: Vec<u8>) -> (r: Result<serde_json::Value, RequestError>)
    ensures
        outcome_of(r) == body_outcome(body@),
{
    match utf8_text(body) {
        Some(text) => decode_json_text(text.as_str()),
        None => Err(RequestError::EncodingError),
    }
}

} // verus!
