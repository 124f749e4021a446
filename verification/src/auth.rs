//! Client-credentials authenticator: the compute half of the public-API
//! token round trip.
//!
//! The application performs the single POST to the provider's token
//! endpoint (HTTP Basic authentication with the client identifier and
//! secret) and hands the response body to [`obtain_token`]; the form it
//! sends comes from [`client_credentials_form`].

use vstd::prelude::*;
use vstd::string::StringExecFns;

use crate::errors::AuthError;
use crate::json::{json_string_field, json_string_field_of};

verus! {

/// The form body of a client-credentials token request.
pub fn client_credentials_form() -> (r: Vec<(String, String)>)
    ensures
        r@.len() == 1,
        r@[0].0@ == "grant_type"@,
        r@[0].1@ == "client_credentials"@,
{
    let mut form: Vec<(String, String)> = Vec::new();
    form.push((String::from_str("grant_type"), String::from_str("client_credentials")));
    form
}

/// The bearer-authorization header value carrying `token`.
pub open spec fn spec_bearer_of(token: Seq<char>) -> Seq<char> {
    "Bearer "@ + token
}

/// Reads a token-endpoint response body into a bearer-authorization
/// header value.
///
/// For any well-formed response whose `access_token` field is `X` the
/// result is `Bearer X`; a body that is malformed JSON or misses the
/// field is rejected instead of being passed through.
pub fn obtain_token(body: &str) -> (r: Result<String, AuthError>)
    ensures
        (match r {
            Ok(bearer) => json_string_field_of(body@, "access_token"@) matches Some(tok)
                && bearer@ == spec_bearer_of(tok),
            Err(e) => e == AuthError::MalformedResponse && json_string_field_of(
                body@,
                "access_token"@,
            ) is None,
        }),
{
    match json_string_field(body, "access_token") {
        Some(tok) => {
            let mut bearer = String::from_str("Bearer ");
            bearer.append(tok.as_str());
            Ok(bearer)
        },
        None => Err(AuthError::MalformedResponse),
    }
}

} // verus!
