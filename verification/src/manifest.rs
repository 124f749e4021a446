//! The playback-manifest resolver.
//!
//! The unofficial playback-info endpoint answers with a JSON body whose
//! `manifest` field is an obfuscated, base64-encoded JSON document that
//! carries the actual streaming URLs.  The resolver turns such a response
//! body into one fetchable, sanitized URL, or into a precise error.

use vstd::prelude::*;

use crate::codec::{b64_no_pad_decoded, base64_no_pad_decode, utf8_decoded, utf8_to_string};
use crate::errors::ManifestError;
use crate::json::{
    json_doc_valid, json_is_valid, json_string_array_field, json_string_array_field_of,
    json_string_field, json_string_field_of,
};
use crate::util::{sanitize_url, spec_sanitize_url, spec_trim_last, trim_last_char};

verus! {

/// The outcome of resolving a playback-info response body, written over
/// the names given to the outside decoders:
/// the `manifest` string field is taken from the body, its trailing
/// artifact character is stripped, the rest is decoded as unpadded
/// standard base64 and then read as a UTF-8 JSON document, whose first
/// `urls` entry is sanitized into the result.
pub open spec fn spec_resolve(body: Seq<char>) -> Result<Seq<char>, ManifestError> {
    match json_string_field_of(body, "manifest"@) {
        Option::None => Result::Err(ManifestError::MissingManifest),
        Option::Some(m) => match b64_no_pad_decoded(spec_trim_last(m)) {
            Option::None => Result::Err(ManifestError::InvalidEncoding),
            Option::Some(bytes) => match utf8_decoded(bytes) {
                Option::None => Result::Err(ManifestError::MalformedManifest),
                Option::Some(text) => if !json_doc_valid(text) {
                    Result::Err(ManifestError::MalformedManifest)
                } else {
                    match json_string_array_field_of(text, "urls"@) {
                        Option::None => Result::Err(ManifestError::NoUrlsPresent),
                        Option::Some(urls) => if urls.len() == 0 {
                            Result::Err(ManifestError::NoUrlsPresent)
                        } else {
                            Result::Ok(spec_sanitize_url(urls[0]))
                        },
                    }
                },
            },
        },
    }
}

/// Decodes the obfuscated playback manifest inside `body` into a concrete
/// media URL.
///
/// The function only reads its argument, so a failure leaves no state
/// behind: it returns the error of the first step that cannot proceed.
pub fn resolve_playback_url(body: &str) -> (r: Result<String, ManifestError>)
    ensures
        (match r {
            Ok(url) => spec_resolve(body@) == Result::<Seq<char>, ManifestError>::Ok(url@),
            Err(e) => spec_resolve(body@) == Result::<Seq<char>, ManifestError>::Err(e),
        }),
{
    let manifest = match json_string_field(body, "manifest") {
        Some(m) => m,
        None => {
            return Err(ManifestError::MissingManifest);
        },
    };
    let trimmed = trim_last_char(manifest.as_str());
    let bytes = match base64_no_pad_decode(trimmed) {
        Some(b) => b,
        None => {
            return Err(ManifestError::InvalidEncoding);
        },
    };
    let text = match utf8_to_string(bytes) {
        Some(t) => t,
        None => {
            return Err(ManifestError::MalformedManifest);
        },
    };
    if !json_is_valid(text.as_str()) {
        return Err(ManifestError::MalformedManifest);
    }
    let urls = match json_string_array_field(text.as_str(), "urls") {
        Some(u) => u,
        None => {
            return Err(ManifestError::NoUrlsPresent);
        },
    };
    if urls.len() == 0 {
        return Err(ManifestError::NoUrlsPresent);
    }
    let first = urls[0].clone();
    proof {
        assert(urls.deep_view()[0] == urls@[0]@);
    }
    Ok(sanitize_url(first))
}

/// Resolution is a pure function of the response text: decoding the same
/// manifest string twice yields the same outcome, URL or error.
pub proof fn lemma_resolution_deterministic(b1: Seq<char>, b2: Seq<char>)
    requires
        b1 == b2,
    ensures
        spec_resolve(b1) == spec_resolve(b2),
{
}

} // verus!
