//! UTF-8 validation of text payloads.
//!
//! The decoded characters of a valid UTF-8 byte sequence are a function of
//! the bytes alone; the encoding rules themselves are not restated here, so
//! the result is given a name, [`utf8_decode`], and every contract that
//! speaks about text decoding speaks through that name.

use core::str::Utf8Error;
use vstd::prelude::*;

verus! {

#[verifier::external_type_specification]
#[verifier::external_body]
pub struct ExUtf8Error(Utf8Error);

/// The characters encoded by `bytes`, or `None` if `bytes` is not valid
/// UTF-8.
pub uninterp spec fn utf8_decode(bytes: Seq<u8>) -> Option<Seq<char>>;

/// Relies on `core::str::from_utf8`: it returns `Ok` exactly when the bytes
/// are valid UTF-8, and the decoded characters depend on the bytes alone.
#[verifier::external_body]
pub(crate) fn decode_utf8(bytes: &[u8]) -> (result: Result<String, Utf8Error>)
    ensures
        result is Ok <==> utf8_decode(bytes@) is Some,
        result is Ok ==> result->Ok_0@ == utf8_decode(bytes@)->0,
{
    match core::str::from_utf8(bytes) {
        Ok(text) => Ok(text.to_owned()),
        Err(error) => Err(error),
    }
}

} // verus!
