//! JSON serialization helpers.

use vstd::prelude::*;

use crate::utils::serialization::{Result, SerializationError};

verus! {

/// Calls `serde_json::to_vec`.
#[verifier::external_body]
fn json_to_vec<T: serde::Serialize>(value: &T) -> core::result::Result<Vec<u8>, serde_json::Error> {
    serde_json::to_vec(value)
}

/// Calls `serde_json::to_vec_pretty`.
#[verifier::external_body]
fn json_to_vec_pretty<T: serde::Serialize>(value: &T) -> core::result::Result<Vec<u8>, serde_json::Error> {
    serde_json::to_vec_pretty(value)
}

/// Calls `serde_json::from_slice`.
#[verifier::external_body]
fn json_from_slice<'a, T: serde::Deserialize<'a>>(bytes: &'a [u8]) -> core::result::Result<T, serde_json::Error> {
    serde_json::from_slice(bytes)
}

/// Calls `serde_json::to_string`.
#[verifier::external_body]
fn json_to_string<T: serde::Serialize>(value: &T) -> core::result::Result<String, serde_json::Error> {
    serde_json::to_string(value)
}

/// Calls `serde_json::from_str`.
#[verifier::external_body]
fn json_from_str<'a, T: serde::Deserialize<'a>>(s: &'a str) -> core::result::Result<T, serde_json::Error> {
    serde_json::from_str(s)
}

/// Serialize a value to JSON bytes.
pub fn to_bytes<T: serde::Serialize>(value: &T) -> (r: Result<Vec<u8>>)
    ensures
        r matches Err(e) ==> e is Json,
{
    match json_to_vec(value) {
        Ok(b) => Ok(b),
        Err(e) => Err(SerializationError::Json(e)),
    }
}

/// Serialize a value to pretty JSON bytes.
pub fn to_bytes_pretty<T: serde::Serialize>(value: &T) -> (r: Result<Vec<u8>>)
    ensures
        r matches Err(e) ==> e is Json,
{
    match json_to_vec_pretty(value) {
        Ok(b) => Ok(b),
        Err(e) => Err(SerializationError::Json(e)),
    }
}

/// Deserialize from JSON bytes.
pub fn from_bytes<'a, T: serde::Deserialize<'a>>(bytes: &'a [u8]) -> (r: Result<T>)
    ensures
        r matches Err(e) ==> e is Json,
{
    match json_from_slice(bytes) {
        Ok(v) => Ok(v),
        Err(e) => Err(SerializationError::Json(e)),
    }
}

/// Serialize to a JSON string.
pub fn to_string<T: serde::Serialize>(value: &T) -> (r: Result<String>)
    ensures
        r matches Err(e) ==> e is Json,
{
    match json_to_string(value) {
        Ok(s) => Ok(s),
        Err(e) => Err(SerializationError::Json(e)),
    }
}

/// Deserialize from a JSON string.
pub fn from_string<'a, T: serde::Deserialize<'a>>(s: &'a str) -> (r: Result<T>)
    ensures
        r matches Err(e) ==> e is Json,
{
    match json_from_str(s) {
        Ok(v) => Ok(v),
        Err(e) => Err(SerializationError::Json(e)),
    }
}

} // verus!
