//! String conversion helpers.

use vstd::prelude::*;
use vstd::string::*;
use vstd::utf8::*;

use crate::encoding::utf8_str;
use crate::utils::serialization::{Result, SerializationError};

verus! {

broadcast use vstd::utf8::group_utf8_lib;

/// Convert bytes to a UTF-8 string: succeeds exactly on valid UTF-8, with
/// the text those bytes encode.
pub fn from_bytes(bytes: &[u8]) -> (r: Result<&str>)
    ensures
        (r is Ok) == valid_utf8(bytes@),
        r matches Ok(s) ==> s@ == decode_utf8(bytes@) && s.spec_bytes() == bytes@,
        r matches Err(e) ==> e is Utf8,
{
    match utf8_str(bytes) {
        Ok(s) => {
            proof {
                decode_utf8_encode_utf8(bytes@);
            }
            Ok(s)
        },
        Err(e) => Err(SerializationError::Utf8(e)),
    }
}

/// Convert bytes to an owned UTF-8 string.
pub fn from_bytes_owned(bytes: &[u8]) -> (r: Result<String>)
    ensures
        (r is Ok) == valid_utf8(bytes@),
        r matches Ok(s) ==> s@ == decode_utf8(bytes@),
        r matches Err(e) ==> e is Utf8,
{
    let s = from_bytes(bytes)?;
    Ok(<String as StringExecFns>::from_str(s))
}

/// The UTF-8 bytes of any text convert back to that text.
pub proof fn lemma_text_roundtrip(text: Seq<char>)
    ensures
        valid_utf8(encode_utf8(text)),
        decode_utf8(encode_utf8(text)) == text,
{
    encode_utf8_valid_utf8(text);
    encode_utf8_decode_utf8(text);
}

} // verus!
