//! Error types for connector operations.

use vstd::prelude::*;
use vstd::string::*;

use crate::json::{json_error_display, json_error_text};

verus! {

/// Result type for connector operations.
pub type ConnectorResult<T> = Result<T, ConnectorError>;

/// Error types for connector operations.
///
/// Underlying causes coming from other crates (client errors, I/O errors,
/// error sources) are carried as their rendered text.
#[derive(Debug)]
pub enum ConnectorError {
    /// Transient failure that should be retried (timeouts, unavailable services).
    Retryable { message: String, source: Option<String> },
    /// Permanent failure that requires a restart or a configuration change.
    Fatal { message: String, source: Option<String> },
    /// Bad message: it should be skipped or sent to a dead-letter queue.
    InvalidData { message: String, payload: Vec<u8> },
    /// Configuration error, detected at startup.
    Configuration(String),
    /// Error reported by the Danube client.
    Danube(String),
    /// Serialization or deserialization error.
    Serialization(String),
    /// I/O error.
    Io(String),
}

/// The text shown for an error: a prefix naming its kind, then its message.
pub open spec fn error_text(e: ConnectorError) -> Seq<char> {
    match e {
        ConnectorError::Retryable { message, .. } => "Retryable error: "@ + message@,
        ConnectorError::Fatal { message, .. } => "Fatal error: "@ + message@,
        ConnectorError::InvalidData { message, .. } => "Invalid data: "@ + message@,
        ConnectorError::Configuration(m) => "Configuration error: "@ + m@,
        ConnectorError::Danube(m) => "Danube error: "@ + m@,
        ConnectorError::Serialization(m) => "Serialization error: "@ + m@,
        ConnectorError::Io(m) => "I/O error: "@ + m@,
    }
}

/// Concatenation of a literal prefix and a string.
pub fn prefixed(prefix: &str, text: &str) -> (r: String)
    ensures
        r@ == prefix@ + text@,
{
    let s = <String as StringExecFns>::from_str(prefix);
    s.concat(text)
}

impl ConnectorError {
    /// Check if this error is retryable.
    pub fn is_retryable(&self) -> (r: bool)
        ensures
            r <==> self is Retryable,
    {
        match self {
            ConnectorError::Retryable { .. } => true,
            _ => false,
        }
    }

    /// Check if this error is fatal.
    pub fn is_fatal(&self) -> (r: bool)
        ensures
            r <==> self is Fatal,
    {
        match self {
            ConnectorError::Fatal { .. } => true,
            _ => false,
        }
    }

    /// Check if this error is due to invalid data.
    pub fn is_invalid_data(&self) -> (r: bool)
        ensures
            r <==> self is InvalidData,
    {
        match self {
            ConnectorError::InvalidData { .. } => true,
            _ => false,
        }
    }

    /// Create a retryable error from a message.
    pub fn retryable(message: &str) -> (e: Self)
        ensures
            e matches ConnectorError::Retryable { message: m, source: None } && m@ == message@,
    {
        ConnectorError::Retryable { message: <String as StringExecFns>::from_str(message), source: None }
    }

    /// Create a retryable error with the text of its source error.
    pub fn retryable_with_source(message: &str, source: &str) -> (e: Self)
        ensures
            e matches ConnectorError::Retryable { message: m, source: Some(s) } && m@ == message@
                && s@ == source@,
    {
        ConnectorError::Retryable {
            message: <String as StringExecFns>::from_str(message),
            source: Some(<String as StringExecFns>::from_str(source)),
        }
    }

    /// Create a fatal error from a message.
    pub fn fatal(message: &str) -> (e: Self)
        ensures
            e matches ConnectorError::Fatal { message: m, source: None } && m@ == message@,
    {
        ConnectorError::Fatal { message: <String as StringExecFns>::from_str(message), source: None }
    }

    /// Create a fatal error with the text of its source error.
    pub fn fatal_with_source(message: &str, source: &str) -> (e: Self)
        ensures
            e matches ConnectorError::Fatal { message: m, source: Some(s) } && m@ == message@
                && s@ == source@,
    {
        ConnectorError::Fatal {
            message: <String as StringExecFns>::from_str(message),
            source: Some(<String as StringExecFns>::from_str(source)),
        }
    }

    /// Create an invalid data error.
    pub fn invalid_data(message: &str, payload: Vec<u8>) -> (e: Self)
        ensures
            e matches ConnectorError::InvalidData { message: m, payload: p } && m@ == message@
                && p@ == payload@,
    {
        ConnectorError::InvalidData { message: <String as StringExecFns>::from_str(message), payload }
    }

    /// Create a configuration error.
    pub fn config(message: &str) -> (e: Self)
        ensures
            e matches ConnectorError::Configuration(m) && m@ == message@,
    {
        ConnectorError::Configuration(<String as StringExecFns>::from_str(message))
    }

    /// The human-readable text of this error (its `Display` form).
    pub fn to_display_string(&self) -> (s: String)
        ensures
            s@ == error_text(*self),
    {
        match self {
            ConnectorError::Retryable { message, .. } => prefixed("Retryable error: ", message.as_str()),
            ConnectorError::Fatal { message, .. } => prefixed("Fatal error: ", message.as_str()),
            ConnectorError::InvalidData { message, .. } => prefixed("Invalid data: ", message.as_str()),
            ConnectorError::Configuration(m) => prefixed("Configuration error: ", m.as_str()),
            ConnectorError::Danube(m) => prefixed("Danube error: ", m.as_str()),
            ConnectorError::Serialization(m) => prefixed("Serialization error: ", m.as_str()),
            ConnectorError::Io(m) => prefixed("I/O error: ", m.as_str()),
        }
    }
}

/// `e` is the serialization error that carries the text of `source`.
pub open spec fn serialization_error_of(e: ConnectorError, source: serde_json::Error) -> bool {
    e matches ConnectorError::Serialization(m) && m@ == json_error_display(source)
}

/// A `serde_json` error is a serialization error carrying its text.
impl From<serde_json::Error> for ConnectorError {
    fn from(err: serde_json::Error) -> (e: Self)
        ensures
            serialization_error_of(e, err),
    {
        ConnectorError::Serialization(json_error_text(&err))
    }
}

/// A `String` holds its contents without being determined by them, so no
/// single error is named as the conversion's result: the claim `from` makes is
/// its own `ensures`, and `from_spec` is an error of that shape.
impl vstd::std_specs::convert::FromSpecImpl<serde_json::Error> for ConnectorError {
    open spec fn obeys_from_spec() -> bool {
        false
    }

    open spec fn from_spec(v: serde_json::Error) -> ConnectorError {
        choose|e: ConnectorError| #[trigger] serialization_error_of(e, v)
    }
}

} // verus!
