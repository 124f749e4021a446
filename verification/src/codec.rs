//! Trusted byte-level decoders: unpadded standard base64 and UTF-8.
//!
//! Both decoders are deterministic functions of their input, so each
//! result is given a name, and the wrapper promises that its return value
//! is that name applied to the input.

use vstd::prelude::*;

verus! {

/// The bytes that the unpadded standard-alphabet base64 decoding of `s`
/// yields, or `None` when `s` is not such an encoding.
pub uninterp spec fn b64_no_pad_decoded(s: Seq<char>) -> Option<Seq<u8>>;

/// The text whose UTF-8 encoding is `b`, or `None` when `b` is not valid
/// UTF-8.
pub uninterp spec fn utf8_decoded(b: Seq<u8>) -> Option<Seq<char>>;

/// Relies on the base64 crate's `Engine::decode` with the
/// `BASE64_STANDARD_NO_PAD` engine: decodes an unpadded standard-alphabet
/// base64 string.
#[verifier::external_body]
pub fn base64_no_pad_decode(s: &str) -> (r: Option<Vec<u8>>)
    ensures
        (match r {
            Some(b) => b64_no_pad_decoded(s@) == Some(b@),
            None => b64_no_pad_decoded(s@) is None,
        }),
{
    base64::Engine::decode(&base64::prelude::BASE64_STANDARD_NO_PAD, s).ok()
}

/// Relies on `String::from_utf8`: turns bytes into text exactly when they
/// are valid UTF-8.
#[verifier::external_body]
pub fn utf8_to_string(b: Vec<u8>) -> (r: Option<String>)
    ensures
        (match r {
            Some(t) => utf8_decoded(b@) == Some(t@),
            None => utf8_decoded(b@) is None,
        }),
{
    String::from_utf8(b).ok()
}

} // verus!
