//! Error types of the client core.

use vstd::prelude::*;

verus! {

/// General-purpose error carrying a human-readable message.
pub struct TidalError(String);

impl View for TidalError {
    type V = Seq<char>;

    closed spec fn view(&self) -> Seq<char> {
        self.0@
    }
}

impl TidalError {
    pub fn new(msg: String) -> (r: TidalError)
        ensures
            r@ == msg@,
    {
        TidalError(msg)
    }

    /// The message the error was built with.
    pub fn message(&self) -> (r: String)
        ensures
            r@ == self@,
    {
        self.0.clone()
    }
}

/// Failures of the authentication and session components.
#[derive(Clone, Copy, Debug, PartialEq, Eq, Structural)]
pub enum AuthError {
    /// The device authorization's advertised expiry elapsed before the
    /// device code could be exchanged for a session.
    DeviceCodeExpired,
    /// An otherwise usable session carries no region code, which every
    /// data request of the unofficial API must include.
    MissingRegion,
    /// The token endpoint answered the device-code exchange without an
    /// access token.
    ExchangeRejected,
    /// A token-endpoint response could not be read: malformed JSON or a
    /// missing required field.
    MalformedResponse,
}

impl AuthError {
    /// A diagnostic line for each failure.
    pub fn describe(&self) -> (r: String)
        ensures
            *self matches AuthError::DeviceCodeExpired ==> r@ == "device code expired before exchange"@,
            *self matches AuthError::MissingRegion ==> r@ == "session carries no region code"@,
            *self matches AuthError::ExchangeRejected ==> r@ == "device code exchange was rejected"@,
            *self matches AuthError::MalformedResponse ==> r@ == "malformed token endpoint response"@,
    {
        match self {
            AuthError::DeviceCodeExpired => String::from_str("device code expired before exchange"),
            AuthError::MissingRegion => String::from_str("session carries no region code"),
            AuthError::ExchangeRejected => String::from_str("device code exchange was rejected"),
            AuthError::MalformedResponse => String::from_str("malformed token endpoint response"),
        }
    }
}

/// Failures of the playback-manifest resolver.
#[derive(Clone, Copy, Debug, PartialEq, Eq, Structural)]
pub enum ManifestError {
    /// The playback-info response has no `manifest` string field.
    MissingManifest,
    /// The manifest field is not valid unpadded standard base64 once its
    /// trailing artifact character is stripped.
    InvalidEncoding,
    /// The decoded bytes are not a UTF-8 JSON document.
    MalformedManifest,
    /// The decoded manifest has no usable `urls` entry.
    NoUrlsPresent,
}

impl ManifestError {
    /// A diagnostic line for each failure.
    pub fn describe(&self) -> (r: String)
        ensures
            *self matches ManifestError::MissingManifest ==> r@ == "response carries no manifest field"@,
            *self matches ManifestError::InvalidEncoding ==> r@ == "manifest is not valid base64"@,
            *self matches ManifestError::MalformedManifest ==> r@ == "decoded manifest is not a JSON document"@,
            *self matches ManifestError::NoUrlsPresent ==> r@ == "decoded manifest lists no urls"@,
    {
        match self {
            ManifestError::MissingManifest => String::from_str("response carries no manifest field"),
            ManifestError::InvalidEncoding => String::from_str("manifest is not valid base64"),
            ManifestError::MalformedManifest => String::from_str("decoded manifest is not a JSON document"),
            ManifestError::NoUrlsPresent => String::from_str("decoded manifest lists no urls"),
        }
    }
}

} // verus!
