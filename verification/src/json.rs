//! What this library takes on trust from `serde_json`: parsing a document,
//! walking it, and encoding a string. Nothing here is proved; each contract
//! only gives the outside result a name, so that the verified code around it
//! can say exactly what it does with that result.

use vstd::prelude::*;

verus! {

/// A parsed JSON document of `serde_json`. Opaque: it is only read through
/// the functions below.
#[verifier::external_type_specification]
#[verifier::external_body]
pub struct ExJsonValue(serde_json::Value);

/// The error of `serde_json`. Opaque: only its presence is used.
#[verifier::external_type_specification]
#[verifier::external_body]
pub struct ExJsonError(serde_json::Error);

/// The document that `serde_json::from_str` reads from a text, `None` where
/// it rejects the text.
pub uninterp spec fn json_document(text: Seq<char>) -> Option<serde_json::Value>;

/// The member that `serde_json::Value::get` finds under a key, `None` where
/// the value is no object or has no such key.
pub uninterp spec fn json_member(value: serde_json::Value, key: Seq<char>) -> Option<serde_json::Value>;

/// The elements that `serde_json::Value::as_array` gives, `None` where the
/// value is no array.
pub uninterp spec fn json_elements(value: serde_json::Value) -> Option<Seq<serde_json::Value>>;

/// The text that `serde_json::Value::as_str` gives, `None` where the value is
/// no string.
pub uninterp spec fn json_text(value: serde_json::Value) -> Option<Seq<char>>;

/// The JSON string literal, quotes and escapes included, that
/// `serde_json::to_string` writes for a text.
pub uninterp spec fn json_encoded(text: Seq<char>) -> Seq<char>;

/// Calls `serde_json::from_str` for a `serde_json::Value`. Trusted: the
/// result depends on the text alone, and is `Ok` with the document exactly
/// where `json_document` has one.
#[verifier::external_body]
pub(crate) fn parse_document(text: &str) -> (r: Result<serde_json::Value, serde_json::Error>)
    ensures
        r is Ok <==> json_document(text@) is Some,
        r matches Ok(doc) ==> json_document(text@) == Some(doc),
{
    serde_json::from_str::<serde_json::Value>(text)
}

/// Calls `serde_json::Value::get` with a string key. Trusted: the result is
/// the member named by `json_member`, borrowed from the value.
#[verifier::external_body]
pub(crate) fn member<'a>(value: &'a serde_json::Value, key: &str) -> (r: Option<&'a serde_json::Value>)
    ensures
        r is Some <==> json_member(*value, key@) is Some,
        r matches Some(m) ==> json_member(*value, key@) == Some(*m),
{
    value.get(key)
}

/// Calls `serde_json::Value::as_array`. Trusted: the result is the vector
/// whose elements `json_elements` names, borrowed from the value.
#[verifier::external_body]
pub(crate) fn elements<'a>(value: &'a serde_json::Value) -> (r: Option<&'a Vec<serde_json::Value>>)
    ensures
        r is Some <==> json_elements(*value) is Some,
        r matches Some(items) ==> json_elements(*value) == Some(items@),
{
    value.as_array()
}

/// Calls `serde_json::Value::as_str`. Trusted: the result is the text that
/// `json_text` names, borrowed from the value.
#[verifier::external_body]
pub(crate) fn text<'a>(value: &'a serde_json::Value) -> (r: Option<&'a str>)
    ensures
        r is Some <==> json_text(*value) is Some,
        r matches Some(s) ==> json_text(*value) == Some(s@),
{
    value.as_str()
}

/// Calls `serde_json::to_string` on a string slice. Trusted: the result
/// depends on the text alone and is the literal that `json_encoded` names.
/// It is always `Ok`: the encoder fails only where its writer does or where
/// a value refuses to be written, and here the value is a string and the
/// writer a vector in memory.
#[verifier::external_body]
fn encode_text(text: &str) -> (r: Result<String, serde_json::Error>)
    ensures
        r is Ok,
        r matches Ok(s) ==> s@ == json_encoded(text@),
{
    serde_json::to_string(text)
}

/// Encodes a text as a JSON string literal.
pub fn encode(text: &str) -> (literal: String)
    ensures
        literal@ == json_encoded(text@),
{
    match encode_text(text) {
        Ok(literal) => literal,
        Err(_) => unreached(),
    }
}

} // verus!
