//! Schema-aware payload codec: turning broker bytes into JSON values for sink
//! connectors, and JSON values into broker bytes for source connectors.

use vstd::prelude::*;
use vstd::string::*;
use vstd::utf8::*;

use crate::encoding::{
    base64_decode, base64_decoded, base64_encode, base64_encoded, base64_error_text, utf8_error_text,
    utf8_str,
};
use crate::error::{prefixed, ConnectorError, ConnectorResult};
use crate::json::{
    encode_json, json_as_str, json_display, json_encodable, json_encoding, json_error_text,
    json_field_of, json_get_field, json_is_object, json_is_object_value, json_object,
    json_object_of, json_parse_succeeds, json_parsed, json_str_of, json_string, json_string_of,
    json_usize, json_usize_of, members_view, parse_json, render_json,
};
use crate::schema::SchemaInfo;
use crate::text::{decimal, decimal_string, lower_eq, matches_lower};

verus! {

broadcast use {vstd::utf8::group_utf8_lib, vstd::seq_lib::group_seq_properties};

/// How a schema type string says a payload is encoded.
#[derive(Debug, Clone, Copy, PartialEq, Eq)]
pub enum PayloadEncoding {
    /// `json_schema` or `json`
    Json,
    /// `avro` (JSON text validated by the broker)
    Avro,
    /// `number` (a JSON number)
    Number,
    /// `string` (UTF-8 text)
    Text,
    /// `bytes` (raw bytes)
    Bytes,
    /// `protobuf`
    Protobuf,
    /// any other schema type
    Other,
}

/// The encoding named by a schema type, compared case-insensitively.
pub open spec fn encoding_of(t: Seq<char>) -> PayloadEncoding {
    if lower_eq(t, "json_schema"@) || lower_eq(t, "json"@) {
        PayloadEncoding::Json
    } else if lower_eq(t, "string"@) {
        PayloadEncoding::Text
    } else if lower_eq(t, "number"@) {
        PayloadEncoding::Number
    } else if lower_eq(t, "bytes"@) {
        PayloadEncoding::Bytes
    } else if lower_eq(t, "avro"@) {
        PayloadEncoding::Avro
    } else if lower_eq(t, "protobuf"@) {
        PayloadEncoding::Protobuf
    } else {
        PayloadEncoding::Other
    }
}

/// Classifies a schema type string.
pub fn classify_encoding(t: &str) -> (r: PayloadEncoding)
    ensures
        r == encoding_of(t@),
{
    if matches_lower(t, "json_schema") || matches_lower(t, "json") {
        PayloadEncoding::Json
    } else if matches_lower(t, "string") {
        PayloadEncoding::Text
    } else if matches_lower(t, "number") {
        PayloadEncoding::Number
    } else if matches_lower(t, "bytes") {
        PayloadEncoding::Bytes
    } else if matches_lower(t, "avro") {
        PayloadEncoding::Avro
    } else if matches_lower(t, "protobuf") {
        PayloadEncoding::Protobuf
    } else {
        PayloadEncoding::Other
    }
}

/// The shape of an error, as contracts state it.
pub enum Fault {
    /// `InvalidData` carrying `payload`, whose message is `text` (when `exact`)
    /// or begins with `text`.
    InvalidData { text: Seq<char>, exact: bool, payload: Seq<u8> },
    /// `Configuration` with exactly this message.
    Configuration { text: Seq<char> },
    /// `Serialization` whose message is `text` (when `exact`) or begins with it.
    Serialization { text: Seq<char>, exact: bool },
}

pub open spec fn starts_with(s: Seq<char>, prefix: Seq<char>) -> bool {
    prefix.len() <= s.len() && s.subrange(0, prefix.len() as int) == prefix
}

pub open spec fn text_fits(s: Seq<char>, text: Seq<char>, exact: bool) -> bool {
    if exact {
        s == text
    } else {
        starts_with(s, text)
    }
}

/// The error `e` has the shape `f`.
pub open spec fn has_fault(e: ConnectorError, f: Fault) -> bool {
    match f {
        Fault::InvalidData { text, exact, payload } => e matches ConnectorError::InvalidData {
            message,
            payload: p,
        } && text_fits(message@, text, exact) && p@ == payload,
        Fault::Configuration { text } => e matches ConnectorError::Configuration(m) && m@ == text,
        Fault::Serialization { text, exact } => e matches ConnectorError::Serialization(m)
            && text_fits(m@, text, exact),
    }
}

/// The JSON object `{key: base64(p), "size": len(p)}` that stands for raw bytes.
pub open spec fn bytes_envelope(key: Seq<char>, p: Seq<u8>) -> serde_json::Value {
    json_object_of(
        seq![(key, json_string_of(base64_encoded(p))), ("size"@, json_usize_of(p.len() as usize))],
    )
}

/// Parse as JSON, and fall back to the `raw` envelope when that fails.
pub open spec fn json_or_raw(p: Seq<u8>) -> serde_json::Value {
    if json_parse_succeeds(p) {
        json_parsed(p)
    } else {
        bytes_envelope("raw"@, p)
    }
}

pub open spec fn parse_or_invalid(p: Seq<u8>, what: Seq<char>) -> Result<serde_json::Value, Fault> {
    if json_parse_succeeds(p) {
        Ok(json_parsed(p))
    } else {
        Err(Fault::InvalidData { text: what, exact: false, payload: p })
    }
}

/// Decoding a payload whose schema has type `t`.
pub open spec fn decode_with_type(p: Seq<u8>, t: Seq<char>) -> Result<serde_json::Value, Fault> {
    match encoding_of(t) {
        PayloadEncoding::Json => parse_or_invalid(p, "JSON deserialization failed: "@),
        PayloadEncoding::Avro => parse_or_invalid(p, "Avro (JSON) deserialization failed: "@),
        PayloadEncoding::Number => parse_or_invalid(p, "Number deserialization failed: "@),
        PayloadEncoding::Text => if valid_utf8(p) {
            Ok(json_string_of(decode_utf8(p)))
        } else {
            Err(Fault::InvalidData { text: "UTF-8 decode failed: "@, exact: false, payload: p })
        },
        PayloadEncoding::Bytes => Ok(bytes_envelope("data"@, p)),
        PayloadEncoding::Protobuf => Err(
            Fault::Configuration { text: "Protobuf deserialization not yet implemented"@ },
        ),
        PayloadEncoding::Other => Ok(json_or_raw(p)),
    }
}

/// The message of a schema subject mismatch.
pub open spec fn mismatch_text(expected: Seq<char>, subject: Seq<char>, id: u64) -> Seq<char> {
    "Schema mismatch: expected '"@ + expected + "', got '"@ + subject + "' (schema_id: "@
        + decimal(id as nat) + ")"@
}

/// Decoding a payload with the schema fetched for it (if any), checked
/// against the subject the consumer expects (if any).
pub open spec fn decode_spec(
    p: Seq<u8>,
    schema: Option<SchemaInfo>,
    expected: Option<String>,
) -> Result<serde_json::Value, Fault> {
    match schema {
        None => Ok(json_or_raw(p)),
        Some(s) => if expected is Some && expected->0@ != s.subject@ {
            Err(
                Fault::InvalidData {
                    text: mismatch_text(expected->0@, s.subject@, s.schema_id),
                    exact: true,
                    payload: Seq::empty(),
                },
            )
        } else {
            decode_with_type(p, s.schema_type@)
        },
    }
}

pub open spec fn json_bytes(v: serde_json::Value, what: Seq<char>) -> Result<Seq<u8>, Fault> {
    if json_encodable(v) {
        Ok(json_encoding(v))
    } else {
        Err(Fault::Serialization { text: what, exact: false })
    }
}

pub open spec fn base64_bytes(text: Seq<char>) -> Result<Seq<u8>, Fault> {
    match base64_decoded(text) {
        Some(b) => Ok(b),
        None => Err(Fault::Serialization { text: "Invalid base64: "@, exact: false }),
    }
}

/// Encoding a JSON value for a topic whose schema has type `t`.
pub open spec fn encode_spec(v: serde_json::Value, t: Seq<char>) -> Result<Seq<u8>, Fault> {
    match encoding_of(t) {
        PayloadEncoding::Json => json_bytes(v, "JSON serialization failed: "@),
        PayloadEncoding::Other => json_bytes(v, "JSON serialization failed: "@),
        PayloadEncoding::Number => json_bytes(v, "Number serialization failed: "@),
        PayloadEncoding::Text => match json_str_of(v) {
            Some(s) => Ok(encode_utf8(s)),
            None => Ok(encode_utf8(json_display(v))),
        },
        PayloadEncoding::Bytes => match json_str_of(v) {
            Some(s) => base64_bytes(s),
            None => if json_is_object(v) {
                match json_field_of(v, "data"@) {
                    Some(f) => match json_str_of(f) {
                        Some(d) => base64_bytes(d),
                        None => Err(
                            Fault::Serialization {
                                text: "Expected 'data' field with base64 string"@,
                                exact: true,
                            },
                        ),
                    },
                    None => Err(
                        Fault::Serialization {
                            text: "Expected 'data' field with base64 string"@,
                            exact: true,
                        },
                    ),
                }
            } else {
                Err(Fault::Serialization { text: "Cannot convert to bytes"@, exact: true })
            },
        },
        PayloadEncoding::Avro => Err(
            Fault::Configuration { text: "Avro serialization not yet implemented"@ },
        ),
        PayloadEncoding::Protobuf => Err(
            Fault::Configuration { text: "Protobuf serialization not yet implemented"@ },
        ),
    }
}

/// An error message made of a literal prefix and an error's text.
fn prefixed_message(prefix: &str, detail: String) -> (m: String)
    ensures
        m@ == prefix@ + detail@,
        starts_with(m@, prefix@),
{
    let m = prefixed(prefix, detail.as_str());
    assert(m@.subrange(0, prefix@.len() as int) =~= prefix@);
    m
}

/// Builds the envelope object `{key: base64(p), "size": len(p)}`.
fn envelope(key: &str, p: &[u8]) -> (v: serde_json::Value)
    requires
        key@ != "size"@,
    ensures
        v == bytes_envelope(key@, p@),
        json_is_object(v),
        json_str_of(v) is None,
        json_field_of(v, key@) == Some(json_string_of(base64_encoded(p@))),
        json_str_of(json_string_of(base64_encoded(p@))) == Some(base64_encoded(p@)),
        base64_decoded(base64_encoded(p@)) == Some(p@),
{
    let text = base64_encode(p);
    let ghost t = text@;
    let data = json_string(text);
    let size = json_usize(p.len());
    let mut members: Vec<(String, serde_json::Value)> = Vec::new();
    members.push((<String as StringExecFns>::from_str(key), data));
    members.push((<String as StringExecFns>::from_str("size"), size));
    proof {
        assert(members_view(members@) =~= seq![(key@, json_string_of(t)), ("size"@, json_usize_of(p@.len() as usize))]);
    }
    json_object(members)
}

/// Parses JSON, or wraps the bytes in the `raw` envelope when they are not JSON.
fn parse_or_raw(p: &[u8]) -> (v: serde_json::Value)
    ensures
        v == json_or_raw(p@),
{
    proof {
        reveal_strlit("raw");
        reveal_strlit("size");
        assert("raw"@.len() != "size"@.len());
    }
    match parse_json(p) {
        Ok(v) => v,
        Err(_) => envelope("raw", p),
    }
}

/// Parses JSON, or reports an invalid-data error carrying the payload.
fn parse_or_error(p: &[u8], what: &str) -> (r: ConnectorResult<serde_json::Value>)
    ensures
        match parse_or_invalid(p@, what@) {
            Ok(v) => r == Ok::<serde_json::Value, ConnectorError>(v),
            Err(f) => r matches Err(e) && has_fault(e, f),
        },
{
    match parse_json(p) {
        Ok(v) => Ok(v),
        Err(e) => {
            let msg = prefixed_message(what, json_error_text(&e));
            Err(ConnectorError::InvalidData { message: msg, payload: vstd::slice::slice_to_vec(p) })
        },
    }
}

/// Builds the schema mismatch message.
fn mismatch_message(expected: &String, subject: &String, id: u64) -> (m: String)
    ensures
        m@ == mismatch_text(expected@, subject@, id),
{
    let m = <String as StringExecFns>::from_str("Schema mismatch: expected '");
    let m = m.concat(expected.as_str());
    let m = m.concat("', got '");
    let m = m.concat(subject.as_str());
    let m = m.concat("' (schema_id: ");
    let d = decimal_string(id);
    let m = m.concat(d.as_str());
    let m = m.concat(")");
    m
}

/// Decodes a payload whose schema has type `schema_type`.
fn decode_typed(p: &[u8], schema_type: &str) -> (r: ConnectorResult<serde_json::Value>)
    ensures
        match decode_with_type(p@, schema_type@) {
            Ok(v) => r == Ok::<serde_json::Value, ConnectorError>(v),
            Err(f) => r matches Err(e) && has_fault(e, f),
        },
        r is Ok && (encoding_of(schema_type@) is Text || encoding_of(schema_type@) is Bytes)
            ==> encode_spec(r->Ok_0, schema_type@) == Ok::<Seq<u8>, Fault>(p@),
{
    match classify_encoding(schema_type) {
        PayloadEncoding::Json => parse_or_error(p, "JSON deserialization failed: "),
        PayloadEncoding::Avro => parse_or_error(p, "Avro (JSON) deserialization failed: "),
        PayloadEncoding::Number => parse_or_error(p, "Number deserialization failed: "),
        PayloadEncoding::Text => match utf8_str(p) {
            Ok(s) => {
                let v = json_string(<String as StringExecFns>::from_str(s));
                proof {
                    decode_utf8_encode_utf8(p@);
                }
                Ok(v)
            },
            Err(e) => {
                let msg = prefixed_message("UTF-8 decode failed: ", utf8_error_text(&e));
                Err(ConnectorError::InvalidData { message: msg, payload: vstd::slice::slice_to_vec(p) })
            },
        },
        PayloadEncoding::Bytes => {
            proof {
                reveal_strlit("data");
                reveal_strlit("size");
                assert("data"@[0] != "size"@[0]);
            }
            Ok(envelope("data", p))
        },
        PayloadEncoding::Protobuf => Err(
            ConnectorError::config("Protobuf deserialization not yet implemented"),
        ),
        PayloadEncoding::Other => Ok(parse_or_raw(p)),
    }
}

/// Decodes the payload of a consumed message into a JSON value.
///
/// `schema` is the schema the registry gave for the message's schema ID (or
/// `None` when the message has none), and `expected` the subject the consumer
/// expects. Without a schema the bytes are parsed as JSON, falling back to a
/// `{"raw": base64, "size": n}` object. With one, a subject that differs from
/// the expected subject is refused, and the schema type picks the decoding.
/// Text and bytes payloads decode to values that encode back to the same bytes.
pub fn decode_payload(
    payload: &[u8],
    schema: Option<SchemaInfo>,
    expected: &Option<String>,
) -> (r: ConnectorResult<(serde_json::Value, Option<SchemaInfo>)>)
    ensures
        match decode_spec(payload@, schema, *expected) {
            Ok(v) => r matches Ok((w, s)) && w == v && s == schema,
            Err(f) => r matches Err(e) && has_fault(e, f),
        },
        r matches Ok((w, Some(s))) ==> ((encoding_of(s.schema_type@) is Text || encoding_of(
            s.schema_type@,
        ) is Bytes) ==> encode_spec(w, s.schema_type@) == Ok::<Seq<u8>, Fault>(payload@)),
{
    match schema {
        None => Ok((parse_or_raw(payload), None)),
        Some(s) => {
            if let Some(exp) = expected {
                if !string_equal(exp, &s.subject) {
                    let msg = mismatch_message(exp, &s.subject, s.schema_id);
                    return Err(ConnectorError::InvalidData { message: msg, payload: Vec::new() });
                }
            }
            let v = decode_typed(payload, s.schema_type.as_str())?;
            Ok((v, Some(s)))
        },
    }
}

/// The expected subject only refuses: when it equals the schema's subject,
/// decoding is the same as with no expected subject (decoding by the schema
/// type); when it differs, the message is refused as invalid data naming
/// both subjects, whatever the payload.
pub proof fn lemma_expected_subject_only_refuses_mismatch(p: Seq<u8>, s: SchemaInfo, x: String)
    ensures
        x@ == s.subject@ ==> decode_spec(p, Some(s), Some(x)) == decode_spec(p, Some(s), None::<String>),
        x@ == s.subject@ ==> decode_spec(p, Some(s), Some(x)) == decode_with_type(p, s.schema_type@),
        x@ != s.subject@ ==> decode_spec(p, Some(s), Some(x)) == Err::<serde_json::Value, Fault>(
            Fault::InvalidData {
                text: mismatch_text(x@, s.subject@, s.schema_id),
                exact: true,
                payload: Seq::empty(),
            },
        ),
{
}

/// Two decodings of the same payload with the same schema, one expecting the
/// schema's own subject and one expecting none, agree: both succeed with the
/// same value and schema, or both fail. Expecting another subject refuses the
/// message with the mismatch error.
pub proof fn lemma_decode_payload_matching_subject(
    payload: &[u8],
    s: SchemaInfo,
    x: String,
    r_expected: ConnectorResult<(serde_json::Value, Option<SchemaInfo>)>,
    r_none: ConnectorResult<(serde_json::Value, Option<SchemaInfo>)>,
)
    requires
        call_ensures(decode_payload, (payload, Some(s), &Some(x)), r_expected),
        call_ensures(decode_payload, (payload, Some(s), &None::<String>), r_none),
    ensures
        x@ == s.subject@ ==> (r_expected is Ok) == (r_none is Ok),
        x@ == s.subject@ ==> (r_expected matches Ok((w1, s1)) ==> r_none matches Ok((w2, s2)) && w1 == w2
            && s1 == s2),
        x@ != s.subject@ ==> (r_expected matches Err(ConnectorError::InvalidData { message, payload: p })
            && message@ == mismatch_text(x@, s.subject@, s.schema_id) && p@ == Seq::<u8>::empty()),
{
    lemma_expected_subject_only_refuses_mismatch(payload@, s, x);
}

/// String equality by contents.
pub fn string_equal(a: &String, b: &String) -> (r: bool)
    ensures
        r == (a@ == b@),
{
    a.eq(b)
}

/// Decodes base64 text for the `bytes` schema type.
fn decode_base64_text(text: &str) -> (r: ConnectorResult<Vec<u8>>)
    ensures
        match base64_bytes(text@) {
            Ok(b) => r matches Ok(x) && x@ == b,
            Err(f) => r matches Err(e) && has_fault(e, f),
        },
{
    match base64_decode(text) {
        Ok(b) => Ok(b),
        Err(e) => {
            let msg = prefixed_message("Invalid base64: ", base64_error_text(&e));
            Err(ConnectorError::Serialization(msg))
        },
    }
}

/// Writes a value as JSON, reporting a serialization error on failure.
fn encode_or_error(payload: &serde_json::Value, what: &str) -> (r: ConnectorResult<Vec<u8>>)
    ensures
        match json_bytes(*payload, what@) {
            Ok(b) => r matches Ok(x) && x@ == b,
            Err(f) => r matches Err(e) && has_fault(e, f),
        },
{
    match encode_json(payload) {
        Ok(b) => Ok(b),
        Err(e) => {
            let msg = prefixed_message(what, json_error_text(&e));
            Err(ConnectorError::Serialization(msg))
        },
    }
}

/// Serializes a JSON payload into bytes according to a schema type.
///
/// JSON-based types write JSON; `string` writes the UTF-8 text of a JSON
/// string (or the JSON text of any other value); `bytes` decodes base64 from
/// a string or from the `data` member of an object; Avro and Protobuf are not
/// supported; unknown types write JSON.
pub fn serialize_with_schema(payload: &serde_json::Value, schema_type: &str) -> (r: ConnectorResult<Vec<u8>>)
    ensures
        match encode_spec(*payload, schema_type@) {
            Ok(b) => r matches Ok(x) && x@ == b,
            Err(f) => r matches Err(e) && has_fault(e, f),
        },
{
    match classify_encoding(schema_type) {
        PayloadEncoding::Json => encode_or_error(payload, "JSON serialization failed: "),
        PayloadEncoding::Other => encode_or_error(payload, "JSON serialization failed: "),
        PayloadEncoding::Number => encode_or_error(payload, "Number serialization failed: "),
        PayloadEncoding::Text => match json_as_str(payload) {
            Some(s) => Ok(s.as_bytes_vec()),
            None => {
                let text = render_json(payload);
                Ok(text.as_str().as_bytes_vec())
            },
        },
        PayloadEncoding::Bytes => match json_as_str(payload) {
            Some(s) => decode_base64_text(s),
            None => {
                if json_is_object_value(payload) {
                    match json_get_field(payload, "data") {
                        Some(f) => match json_as_str(f) {
                            Some(d) => decode_base64_text(d),
                            None => Err(
                                ConnectorError::Serialization(
                                    <String as StringExecFns>::from_str(
                                        "Expected 'data' field with base64 string",
                                    ),
                                ),
                            ),
                        },
                        None => Err(
                            ConnectorError::Serialization(
                                <String as StringExecFns>::from_str(
                                    "Expected 'data' field with base64 string",
                                ),
                            ),
                        ),
                    }
                } else {
                    Err(
                        ConnectorError::Serialization(
                            <String as StringExecFns>::from_str("Cannot convert to bytes"),
                        ),
                    )
                }
            },
        },
        PayloadEncoding::Avro => Err(ConnectorError::config("Avro serialization not yet implemented")),
        PayloadEncoding::Protobuf => Err(
            ConnectorError::config("Protobuf serialization not yet implemented"),
        ),
    }
}

} // verus!
