//! Small utilities: string comparison and JSON value access.
//!
//! JSON parsing and printing are done by `serde_json`; the declarations
//! below give its entry points the contracts this library relies on.  A
//! `serde_json::Value` is opaque here: the library carries it through and
//! reads it only with the accessors at the bottom of this file.

use vstd::prelude::*;
use vstd::string::*;
use crate::error::ModelError;

verus! {

/// Character-for-character string equality, decided against the views.
pub fn str_eq(a: &str, b: &str) -> (r: bool)
    ensures
        r == (a@ == b@),
{
    let n = a.unicode_len();
    if n != b.unicode_len() {
        return false;
    }
    let mut i: usize = 0;
    while i < n
        invariant
            n == a@.len(),
            n == b@.len(),
            i <= n,
            forall|j: int| 0 <= j < i ==> a@[j] == b@[j],
        decreases n - i,
    {
        if a.get_char(i) != b.get_char(i) {
            return false;
        }
        i = i + 1;
    }
    proof {
        assert(a@ =~= b@);
    }
    true
}

#[verifier::external_type_specification]
#[verifier::external_body]
pub struct ExValue(serde_json::Value);

/// Whether `text` is a well-formed JSON document, exactly as
/// `serde_json::from_str::<serde_json::Value>` decides it.
pub uninterp spec fn json_text_ok(text: Seq<char>) -> bool;

/// Whether `bytes` hold a well-formed JSON document, exactly as
/// `serde_json::from_slice::<serde_json::Value>` decides it.
pub uninterp spec fn json_bytes_ok(bytes: Seq<u8>) -> bool;

/// Parse a JSON string into a Value.
///
/// Relies on `serde_json::from_str::<Value>`: whether parsing succeeds is
/// a function of the text alone; the parsed value itself stays opaque.
#[verifier::external_body]
pub fn parse_json(json_str: &str) -> (r: Result<serde_json::Value, ModelError>)
    ensures
        r.is_ok() == json_text_ok(json_str@),
        r matches Err(e) ==> e is Serialization,
{
    serde_json::from_str(json_str).map_err(|e| ModelError::Serialization(e.to_string()))
}

/// Parse JSON bytes into a Value.
///
/// Relies on `serde_json::from_slice::<Value>`: whether parsing succeeds
/// is a function of the bytes alone; the parsed value itself stays opaque.
#[verifier::external_body]
pub(crate) fn parse_json_bytes(bytes: &[u8]) -> (r: Result<serde_json::Value, ModelError>)
    ensures
        r.is_ok() == json_bytes_ok(bytes@),
        r matches Err(e) ==> e is Serialization,
{
    serde_json::from_slice(bytes).map_err(|e| ModelError::Serialization(e.to_string()))
}

/// Convert a Value to a JSON string.
///
/// Relies on `serde_json::to_string`: printing a `Value` fails only on a
/// formatter error, which is surfaced as a `Serialization` error.
#[verifier::external_body]
pub fn to_json(value: &serde_json::Value) -> (r: Result<String, ModelError>)
    ensures
        r matches Err(e) ==> e is Serialization,
{
    serde_json::to_string(value).map_err(|e| ModelError::Serialization(e.to_string()))
}

/// Relies on `serde_json::Value::get`: the member of a JSON object under
/// `key`, if the value is an object that has it.
#[verifier::external_body]
pub(crate) fn json_get<'a>(value: &'a serde_json::Value, key: &str) -> Option<
    &'a serde_json::Value,
> {
    value.get(key)
}

/// Relies on `serde_json::Value::as_str`: the content of a JSON string
/// value, owned.
#[verifier::external_body]
pub(crate) fn json_as_str(value: &serde_json::Value) -> Option<String> {
    value.as_str().map(|s| s.to_string())
}

/// Relies on `serde_json::Value::as_u64`: the value of a JSON number that
/// is representable as a `u64`.
#[verifier::external_body]
pub(crate) fn json_as_u64(value: &serde_json::Value) -> Option<u64> {
    value.as_u64()
}

/// Relies on `serde_json::Value::as_array`: the elements of a JSON array
/// value.
#[verifier::external_body]
pub(crate) fn json_as_array<'a>(value: &'a serde_json::Value) -> Option<
    &'a Vec<serde_json::Value>,
> {
    value.as_array()
}

/// Extract a string value from a JSON object.
pub fn get_string(value: &serde_json::Value, key: &str) -> Option<String> {
    match json_get(value, key) {
        Some(v) => json_as_str(v),
        None => None,
    }
}

} // verus!
