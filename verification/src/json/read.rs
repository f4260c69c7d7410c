//! From text to documents, through the JSON parser.
use vstd::prelude::*;

use super::{Json, JsonValue, Member};

verus! {

/// The parser's own representation of a document.
#[verifier::external_type_specification]
#[verifier::external_body]
pub struct ExValue(serde_json::Value);

/// The parser's account of why it rejected a text.
#[verifier::external_type_specification]
#[verifier::external_body]
pub struct ExError(serde_json::Error);

/// What `serde_json::from_slice` reads from `text` when asked for a
/// `serde_json::Value`; `None` where it rejects the text.
pub uninterp spec fn json_document(text: Seq<u8>) -> Option<serde_json::Value>;

/// The document that a `serde_json::Value` holds.
pub uninterp spec fn json_contents(value: serde_json::Value) -> JsonValue;

/// The document written by `text`; `None` where `text` is not JSON.
pub open spec fn document(text: Seq<u8>) -> Option<JsonValue> {
    match json_document(text) {
        Some(value) => Some(json_contents(value)),
        None => None,
    }
}

/// Calls `serde_json::from_slice` for a `serde_json::Value`. The contract
/// only gives the outcome its name: the same bytes always read the same.
#[verifier::external_body]
fn read_value(text: &[u8]) -> (r: Result<serde_json::Value, serde_json::Error>)
    ensures
        match r {
            Ok(value) => json_document(text@) == Some(value),
            Err(_) => json_document(text@) is None,
        },
{
    serde_json::from_slice::<serde_json::Value>(text)
}

/// Copies a `serde_json::Value` into a [`Json`], variant by variant: a
/// number by its `Display` text, an object's members in the order its map
/// iterates them. The contract names what was copied.
#[verifier::external_body]
fn lift(value: &serde_json::Value) -> (j: Json)
    ensures
        j@ == json_contents(*value),
{
    match value {
        serde_json::Value::Null => Json::Null,
        serde_json::Value::Bool(b) => Json::Bool(*b),
        serde_json::Value::Number(n) => Json::Number(n.to_string()),
        serde_json::Value::String(s) => Json::Text(s.clone()),
        serde_json::Value::Array(items) => Json::Array(items.iter().map(lift).collect()),
        serde_json::Value::Object(members) => Json::Object(
            members.iter().map(|(k, v)| Member { name: k.clone(), value: lift(v) }).collect(),
        ),
    }
}

/// Builds the parser's error for a document that is JSON but not of the
/// expected shape, through `serde::de::Error::custom`. Nothing is claimed of
/// the error it makes.
#[verifier::external_body]
pub(crate) fn shape_error(message: &str) -> serde_json::Error {
    serde::de::Error::custom(message)
}

/// Reads a JSON document.
pub fn parse(text: &[u8]) -> (r: Result<Json, serde_json::Error>)
    ensures
        match r {
            Ok(j) => document(text@) == Some(j@),
            Err(_) => document(text@) is None,
        },
{
    match read_value(text) {
        Ok(value) => Ok(lift(&value)),
        Err(e) => Err(e),
    }
}

} // verus!
