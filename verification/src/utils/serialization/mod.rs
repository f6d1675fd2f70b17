//! Serialization helpers for JSON and UTF-8 string payloads.

/// JSON serialization helpers.
pub mod json;
/// String conversion helpers.
pub mod string;

use vstd::prelude::*;

use crate::codec::starts_with;
use crate::encoding::utf8_error_text;
use crate::error::prefixed;
use crate::json::json_error_text;

verus! {

/// Serialization errors.
#[derive(Debug)]
pub enum SerializationError {
    Json(serde_json::Error),
    Utf8(core::str::Utf8Error),
    InvalidFormat(String),
}

/// Result type for serialization operations.
pub type Result<T> = core::result::Result<T, SerializationError>;

impl SerializationError {
    /// The human-readable text of this error (its `Display` form).
    pub fn to_display_string(&self) -> (s: String)
        ensures
            self is Json ==> starts_with(s@, "JSON error: "@),
            self is Utf8 ==> starts_with(s@, "UTF-8 error: "@),
            self matches SerializationError::InvalidFormat(m) ==> s@ == "Invalid format: "@ + m@,
    {
        let s = match self {
            SerializationError::Json(e) => prefixed("JSON error: ", json_error_text(e).as_str()),
            SerializationError::Utf8(e) => prefixed("UTF-8 error: ", utf8_error_text(e).as_str()),
            SerializationError::InvalidFormat(m) => prefixed("Invalid format: ", m.as_str()),
        };
        proof {
            assert(("JSON error: "@ + s@.subrange("JSON error: "@.len() as int, s@.len() as int)).subrange(0, "JSON error: "@.len() as int) =~= "JSON error: "@);
        }
        assert(self is Json ==> s@.subrange(0, "JSON error: "@.len() as int) =~= "JSON error: "@);
        assert(self is Utf8 ==> s@.subrange(0, "UTF-8 error: "@.len() as int) =~= "UTF-8 error: "@);
        s
    }
}

} // verus!
