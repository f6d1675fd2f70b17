//! The JSON values that records carry, and the calls into `serde_json` that
//! build, read, parse and print them.
//!
//! `serde_json::Value` is opaque to Verus. What the library needs to know of a
//! value is given by names for the results of `serde_json`'s functions, and by
//! the short facts that `serde_json`'s documentation states about them.

use vstd::prelude::*;

verus! {

#[verifier::external_type_specification]
#[verifier::external_body]
pub struct ExJsonValue(serde_json::Value);

#[verifier::external_type_specification]
#[verifier::external_body]
pub struct ExJsonError(serde_json::Error);

/// Whether `serde_json::from_slice::<Value>` accepts these bytes.
pub uninterp spec fn json_parse_succeeds(bytes: Seq<u8>) -> bool;

/// The value `serde_json::from_slice::<Value>` reads from these bytes.
pub uninterp spec fn json_parsed(bytes: Seq<u8>) -> serde_json::Value;

/// Whether `serde_json::to_vec` succeeds on this value.
pub uninterp spec fn json_encodable(v: serde_json::Value) -> bool;

/// The bytes `serde_json::to_vec` writes for this value.
pub uninterp spec fn json_encoding(v: serde_json::Value) -> Seq<u8>;

/// The text of this value as its `Display` writes it (compact JSON).
pub uninterp spec fn json_display(v: serde_json::Value) -> Seq<char>;

/// The text `serde_json::Error`'s `Display` writes for an error.
pub uninterp spec fn json_error_display(e: serde_json::Error) -> Seq<char>;

/// `Value::as_str`: the text of a JSON string, `None` for any other value.
pub uninterp spec fn json_str_of(v: serde_json::Value) -> Option<Seq<char>>;

/// `Value::is_object`.
pub uninterp spec fn json_is_object(v: serde_json::Value) -> bool;

/// `Value::get(key)`: the member `key` of a JSON object, `None` otherwise.
pub uninterp spec fn json_field_of(v: serde_json::Value, key: Seq<char>) -> Option<serde_json::Value>;

/// `Value::String(s)`.
pub uninterp spec fn json_string_of(s: Seq<char>) -> serde_json::Value;

/// `Value::from(n)` for an unsigned size.
pub uninterp spec fn json_usize_of(n: usize) -> serde_json::Value;

/// A JSON object built from key/value members, in order.
pub uninterp spec fn json_object_of(members: Seq<(Seq<char>, serde_json::Value)>) -> serde_json::Value;

/// The keys of a member list are pairwise distinct.
pub open spec fn distinct_keys(members: Seq<(Seq<char>, serde_json::Value)>) -> bool {
    forall|i: int, j: int|
        0 <= i < members.len() && 0 <= j < members.len() && i != j ==> #[trigger] members[i].0
            != #[trigger] members[j].0
}

/// The view of a member list given as owned keys and values.
pub open spec fn members_view(members: Seq<(String, serde_json::Value)>) -> Seq<(Seq<char>, serde_json::Value)> {
    members.map_values(|m: (String, serde_json::Value)| (m.0@, m.1))
}

/// Calls `serde_json::from_slice::<Value>`: parses JSON text.
#[verifier::external_body]
pub(crate) fn parse_json(bytes: &[u8]) -> (r: Result<serde_json::Value, serde_json::Error>)
    ensures
        (r is Ok) == json_parse_succeeds(bytes@),
        r matches Ok(v) ==> v == json_parsed(bytes@),
{
    serde_json::from_slice(bytes)
}

/// Calls `serde_json::to_vec` on a value: writes it as compact JSON.
#[verifier::external_body]
pub(crate) fn encode_json(v: &serde_json::Value) -> (r: Result<Vec<u8>, serde_json::Error>)
    ensures
        (r is Ok) == json_encodable(*v),
        r matches Ok(b) ==> b@ == json_encoding(*v),
{
    serde_json::to_vec(v)
}

/// Calls `Value`'s `Display` (through `to_string`).
#[verifier::external_body]
pub(crate) fn render_json(v: &serde_json::Value) -> (s: String)
    ensures
        s@ == json_display(*v),
{
    v.to_string()
}

/// Calls `serde_json::Error`'s `Display` (through `to_string`).
#[verifier::external_body]
pub(crate) fn json_error_text(e: &serde_json::Error) -> (s: String)
    ensures
        s@ == json_error_display(*e),
{
    e.to_string()
}

/// Calls `Value::as_str`.
#[verifier::external_body]
pub(crate) fn json_as_str(v: &serde_json::Value) -> (r: Option<&str>)
    ensures
        (r is Some) == (json_str_of(*v) is Some),
        r matches Some(s) ==> json_str_of(*v) == Some(s@),
{
    v.as_str()
}

/// Calls `Value::is_object`.
#[verifier::external_body]
pub(crate) fn json_is_object_value(v: &serde_json::Value) -> (r: bool)
    ensures
        r == json_is_object(*v),
{
    v.is_object()
}

/// Calls `Value::get` with a string key.
#[verifier::external_body]
pub(crate) fn json_get_field<'a>(v: &'a serde_json::Value, key: &str) -> (r: Option<&'a serde_json::Value>)
    ensures
        (r is Some) == (json_field_of(*v, key@) is Some),
        r matches Some(f) ==> json_field_of(*v, key@) == Some(*f),
{
    v.get(key)
}

/// Builds `Value::String(s)`; its `as_str` is `s`, and it is not an object.
#[verifier::external_body]
pub(crate) fn json_string(s: String) -> (v: serde_json::Value)
    ensures
        v == json_string_of(s@),
        json_str_of(v) == Some(s@),
        !json_is_object(v),
{
    serde_json::Value::String(s)
}

/// Builds the JSON number `n`; it is neither a string nor an object.
#[verifier::external_body]
pub(crate) fn json_usize(n: usize) -> (v: serde_json::Value)
    ensures
        v == json_usize_of(n),
        json_str_of(v) is None,
        !json_is_object(v),
{
    serde_json::Value::from(n)
}

/// Builds a JSON object from its members (collected into `serde_json::Map`).
/// It is an object, not a string, and with distinct keys each member is found
/// again under its key.
#[verifier::external_body]
pub(crate) fn json_object(members: Vec<(String, serde_json::Value)>) -> (v: serde_json::Value)
    ensures
        v == json_object_of(members_view(members@)),
        json_is_object(v),
        json_str_of(v) is None,
        distinct_keys(members_view(members@)) ==> forall|i: int|
            0 <= i < members@.len() ==> json_field_of(v, #[trigger] members@[i].0@) == Some(
                members@[i].1,
            ),
{
    serde_json::Value::Object(members.into_iter().collect())
}

/// `Value::clone` gives back an equal value.
pub assume_specification[ <serde_json::Value as Clone>::clone ](v: &serde_json::Value) -> (r: serde_json::Value)
    ensures
        r == *v,
;

} // verus!
