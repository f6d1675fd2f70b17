//! Byte-level encodings: UTF-8 (std) and standard base64 (the `base64` crate).

use vstd::prelude::*;
use vstd::utf8::*;

verus! {

#[verifier::external_type_specification]
#[verifier::external_body]
pub struct ExUtf8Error(core::str::Utf8Error);

#[verifier::external_type_specification]
#[verifier::external_body]
pub struct ExBase64DecodeError(base64::DecodeError);

/// The standard (padded) base64 text of a byte string.
pub uninterp spec fn base64_encoded(bytes: Seq<u8>) -> Seq<char>;

/// What standard base64 decoding gives for a text: the bytes, or `None` when
/// the text is not valid standard base64.
pub uninterp spec fn base64_decoded(text: Seq<char>) -> Option<Seq<u8>>;

/// Calls `std::str::from_utf8`, which succeeds exactly on valid UTF-8 and then
/// gives the string those bytes encode.
#[verifier::external_body]
pub(crate) fn utf8_str(bytes: &[u8]) -> (r: Result<&str, core::str::Utf8Error>)
    ensures
        (r is Ok) == valid_utf8(bytes@),
        r matches Ok(s) ==> s@ == decode_utf8(bytes@),
{
    core::str::from_utf8(bytes)
}

/// Calls `Utf8Error`'s `Display` (through `to_string`). Nothing is stated of the text.
#[verifier::external_body]
pub(crate) fn utf8_error_text(e: &core::str::Utf8Error) -> String {
    e.to_string()
}

/// Calls `base64::engine::general_purpose::STANDARD.encode`. Decoding the text
/// it gives yields the input again.
#[verifier::external_body]
pub(crate) fn base64_encode(bytes: &[u8]) -> (s: String)
    ensures
        s@ == base64_encoded(bytes@),
        base64_decoded(s@) == Some(bytes@),
{
    base64::Engine::encode(&base64::engine::general_purpose::STANDARD, bytes)
}

/// Calls `base64::engine::general_purpose::STANDARD.decode`.
#[verifier::external_body]
pub(crate) fn base64_decode(text: &str) -> (r: Result<Vec<u8>, base64::DecodeError>)
    ensures
        (r is Ok) == (base64_decoded(text@) is Some),
        r matches Ok(b) ==> base64_decoded(text@) == Some(b@),
{
    base64::Engine::decode(&base64::engine::general_purpose::STANDARD, text)
}

/// Calls `base64::DecodeError`'s `Display` (through `to_string`). Nothing is
/// stated of the text.
#[verifier::external_body]
pub(crate) fn base64_error_text(e: &base64::DecodeError) -> String {
    e.to_string()
}

} // verus!
