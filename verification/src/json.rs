//! JSON documents, and the calls into `serde_json` that make, encode and
//! decode them.
//!
//! A document is a `serde_json::Value`. This crate carries documents and
//! never looks into one, so the type is opaque here, and what `serde_json`
//! computes from a document, or a document from bytes, is known by name
//! only.

use crate::error::ClientError;
use serde_json::Value;
use vstd::prelude::*;

verus! {

/// `serde_json::Value`: a JSON document, of which nothing is known here but
/// what the items below say.
#[verifier::external_type_specification]
#[verifier::external_body]
pub struct ExValue(serde_json::Value);

/// `serde_json::Error`: why encoding or decoding failed. It is never looked
/// into.
#[verifier::external_type_specification]
#[verifier::external_body]
pub struct ExJsonError(serde_json::Error);

/// The bytes that `serde_json::to_vec` writes for `value`; `None` where it
/// fails.
pub uninterp spec fn json_encoding(value: Value) -> Option<Seq<u8>>;

/// The document that `serde_json::from_slice` reads from `bytes`; `None`
/// where they are not one JSON text.
pub uninterp spec fn json_decoding(bytes: Seq<u8>) -> Option<Value>;

/// What `Value::is_null` answers for `value`: whether it is JSON `null`.
pub uninterp spec fn json_is_null(value: Value) -> bool;

/// The document that `Value::from_iter` collects from the single pair
/// `(key, text)`: an object whose only member is `key`, a string `text`.
pub uninterp spec fn json_string_member(key: Seq<char>, text: Seq<char>) -> Value;

/// `Value::clone`. Not proved: the copy is the same document as the one
/// copied.
pub assume_specification[ <serde_json::Value as Clone>::clone ](value: &Value) -> (copy: Value)
    ensures
        copy == *value,
;

/// `Value::default`. Not proved: the default document is `null`.
pub assume_specification[ <serde_json::Value as Default>::default ]() -> (value: Value)
    ensures
        json_is_null(value),
;

/// Calls `serde_json::to_vec`. Not proved: the bytes written depend on the
/// document alone, and so does whether writing fails.
#[verifier::external_body]
fn to_vec(value: &Value) -> (written: Result<Vec<u8>, serde_json::Error>)
    ensures
        written matches Ok(bytes) ==> json_encoding(*value) == Some(bytes@),
        written is Err ==> json_encoding(*value) is None,
{
    serde_json::to_vec(value)
}

/// Calls `serde_json::from_slice` for a `Value`. Not proved: the document
/// read depends on the bytes alone, and so does whether reading fails.
#[verifier::external_body]
fn from_slice(bytes: &[u8]) -> (read: Result<Value, serde_json::Error>)
    ensures
        read matches Ok(value) ==> json_decoding(bytes@) == Some(value),
        read is Err ==> json_decoding(bytes@) is None,
{
    serde_json::from_slice(bytes)
}

/// Calls `Value::from_iter` on one pair of strings. Not proved: the object
/// made depends on the two strings alone.
#[verifier::external_body]
pub(crate) fn from_string_pair(key: &str, text: &str) -> (value: Value)
    ensures
        value == json_string_member(key@, text@),
{
    Value::from_iter([(key, text)])
}

/// The outcome of encoding `value` as the body of a request.
pub open spec fn encoded(value: Value) -> Result<Seq<u8>, ClientError> {
    match json_encoding(value) {
        Some(bytes) => Ok(bytes),
        None => Err(ClientError::Serialization),
    }
}

/// The outcome of decoding the body of a response.
pub open spec fn decoded(bytes: Seq<u8>) -> Result<Value, ClientError> {
    match json_decoding(bytes) {
        Some(value) => Ok(value),
        None => Err(ClientError::Deserialization),
    }
}

/// The view of an outcome that carries bytes.
pub open spec fn bytes_outcome(outcome: Result<Vec<u8>, ClientError>) -> Result<
    Seq<u8>,
    ClientError,
> {
    match outcome {
        Ok(bytes) => Ok(bytes@),
        Err(error) => Err(error),
    }
}

/// Encodes a document as JSON text.
pub fn encode(value: &Value) -> (outcome: Result<Vec<u8>, ClientError>)
    ensures
        bytes_outcome(outcome) == encoded(*value),
{
    match to_vec(value) {
        Ok(bytes) => Ok(bytes),
        Err(_) => Err(ClientError::Serialization),
    }
}

/// Decodes JSON text into a document.
pub fn decode(bytes: &[u8]) -> (outcome: Result<Value, ClientError>)
    ensures
        outcome == decoded(bytes@),
{
    match from_slice(bytes) {
        Ok(value) => Ok(value),
        Err(_) => Err(ClientError::Deserialization),
    }
}

} // verus!
