//! Device-code authorizer: the two-step OAuth2 device-authorization
//! grant for the unofficial API.
//!
//! The flow runs as a small state machine: a device code is requested,
//! the user confirms out-of-band while the client polls the token
//! endpoint at the advertised interval, and the device code is finally
//! exchanged for a session — or the flow fails on expiry or rejection.
//! The application performs the POSTs and the sleeping; every decision is
//! made here.

use vstd::prelude::*;
use vstd::string::StringExecFns;

use crate::errors::AuthError;
use crate::json::{json_string_field, json_string_field_of, json_u64_field, json_u64_field_of};
use crate::session::{parse_session_response, session_body_well_formed, session_matches_body, Session};

verus! {

/// The scope string that both device-flow requests carry.
pub fn device_scope() -> (r: String)
    ensures
        r@ == "r_usr+w_usr+w_sub"@,
{
    String::from_str("r_usr+w_usr+w_sub")
}

/// A device authorization: the server-correlatable device code, the
/// human-presentable user code and verification URIs, and the advertised
/// expiry window and minimum polling interval, in seconds.
pub struct DeviceAuthorization {
    pub device_code: String,
    pub user_code: String,
    pub verification_uri: String,
    pub verification_uri_complete: String,
    pub expires_in: u32,
    pub interval: u32,
}

/// An authorization with empty codes and a zero window: nothing can be
/// exchanged through it.
pub open spec fn is_empty_authorization(d: &DeviceAuthorization) -> bool {
    &&& d.device_code@ == Seq::<char>::empty()
    &&& d.user_code@ == Seq::<char>::empty()
    &&& d.verification_uri@ == Seq::<char>::empty()
    &&& d.verification_uri_complete@ == Seq::<char>::empty()
    &&& d.expires_in == 0
    &&& d.interval == 0
}

impl Default for DeviceAuthorization {
    fn default() -> (r: Self)
        ensures
            is_empty_authorization(&r),
    {
        DeviceAuthorization {
            device_code: String::new(),
            user_code: String::new(),
            verification_uri: String::new(),
            verification_uri_complete: String::new(),
            expires_in: 0,
            interval: 0,
        }
    }
}

/// The form body of a device-authorization request.
pub fn device_authorization_form(client_id: String) -> (r: Vec<(String, String)>)
    ensures
        r@.len() == 2,
        r@[0].0@ == "client_id"@,
        r@[0].1@ == client_id@,
        r@[1].0@ == "scope"@,
        r@[1].1@ == "r_usr+w_usr+w_sub"@,
{
    let mut form: Vec<(String, String)> = Vec::new();
    form.push((String::from_str("client_id"), client_id));
    form.push((String::from_str("scope"), device_scope()));
    form
}

/// The form body of a device-code exchange request.
pub fn exchange_form(client_id: String, device_code: String) -> (r: Vec<(String, String)>)
    ensures
        r@.len() == 4,
        r@[0].0@ == "client_id"@,
        r@[0].1@ == client_id@,
        r@[1].0@ == "device_code"@,
        r@[1].1@ == device_code@,
        r@[2].0@ == "grant_type"@,
        r@[2].1@ == "urn:ietf:params:oauth:grant-type:device_code"@,
        r@[3].0@ == "scope"@,
        r@[3].1@ == "r_usr+w_usr+w_sub"@,
{
    let mut form: Vec<(String, String)> = Vec::new();
    form.push((String::from_str("client_id"), client_id));
    form.push((String::from_str("device_code"), device_code));
    form.push((
        String::from_str("grant_type"),
        String::from_str("urn:ietf:params:oauth:grant-type:device_code"),
    ));
    form.push((String::from_str("scope"), device_scope()));
    form
}

/// Whether a device-authorization response body carries every field of a
/// [`DeviceAuthorization`], with the countdowns small enough to hold.
pub open spec fn device_body_well_formed(b: Seq<char>) -> bool {
    &&& json_string_field_of(b, "device_code"@) is Some
    &&& json_string_field_of(b, "user_code"@) is Some
    &&& json_string_field_of(b, "verification_uri"@) is Some
    &&& json_string_field_of(b, "verification_uri_complete"@) is Some
    &&& (json_u64_field_of(b, "expires_in"@) matches Some(x) && x <= u32::MAX)
    &&& (json_u64_field_of(b, "interval"@) matches Some(x) && x <= u32::MAX)
}

/// Whether `d` holds exactly the fields of the response body `b`.
pub open spec fn authorization_matches_body(d: DeviceAuthorization, b: Seq<char>) -> bool {
    &&& json_string_field_of(b, "device_code"@) == Some(d.device_code@)
    &&& json_string_field_of(b, "user_code"@) == Some(d.user_code@)
    &&& json_string_field_of(b, "verification_uri"@) == Some(d.verification_uri@)
    &&& json_string_field_of(b, "verification_uri_complete"@) == Some(d.verification_uri_complete@)
    &&& json_u64_field_of(b, "expires_in"@) == Some(d.expires_in as u64)
    &&& json_u64_field_of(b, "interval"@) == Some(d.interval as u64)
}

/// Reads the device-authorization endpoint's response body into a
/// [`DeviceAuthorization`].  A body that misses a field is rejected
/// explicitly rather than mapped to an empty authorization.
pub fn parse_device_authorization(body: &str) -> (r: Result<DeviceAuthorization, AuthError>)
    ensures
        r is Ok <==> device_body_well_formed(body@),
        (match r {
            Ok(d) => authorization_matches_body(d, body@),
            Err(e) => e == AuthError::MalformedResponse,
        }),
{
    let device_code = match json_string_field(body, "device_code") {
        Some(v) => v,
        None => {
            return Err(AuthError::MalformedResponse);
        },
    };
    let user_code = match json_string_field(body, "user_code") {
        Some(v) => v,
        None => {
            return Err(AuthError::MalformedResponse);
        },
    };
    let verification_uri = match json_string_field(body, "verification_uri") {
        Some(v) => v,
        None => {
            return Err(AuthError::MalformedResponse);
        },
    };
    let verification_uri_complete = match json_string_field(body, "verification_uri_complete") {
        Some(v) => v,
        None => {
            return Err(AuthError::MalformedResponse);
        },
    };
    let expires_in = match json_u64_field(body, "expires_in") {
        Some(v) => {
            if v <= u32::MAX as u64 {
                v as u32
            } else {
                return Err(AuthError::MalformedResponse);
            }
        },
        None => {
            return Err(AuthError::MalformedResponse);
        },
    };
    let interval = match json_u64_field(body, "interval") {
        Some(v) => {
            if v <= u32::MAX as u64 {
                v as u32
            } else {
                return Err(AuthError::MalformedResponse);
            }
        },
        None => {
            return Err(AuthError::MalformedResponse);
        },
    };
    Ok(DeviceAuthorization {
        device_code,
        user_code,
        verification_uri,
        verification_uri_complete,
        expires_in,
        interval,
    })
}

/// What the poll loop should do next while the user confirms the device
/// code out-of-band.
#[derive(Clone, Copy, Debug, PartialEq, Eq, Structural)]
pub enum PollDecision {
    /// Poll the token endpoint now.
    Poll,
    /// Stay idle until the advertised interval has passed since the last
    /// poll.
    Wait,
    /// The authorization window is over: abort with an expiry error
    /// instead of waiting further.
    GiveUp,
}

/// Decides one step of the device-flow poll loop from the elapsed time
/// since the authorization was issued and since the last poll, both in
/// seconds.  The loop never outlives the advertised expiry window and
/// never polls faster than the advertised interval.
pub fn next_poll_action(auth: &DeviceAuthorization, elapsed: u64, since_last_poll: u64) -> (r:
    PollDecision)
    ensures
        elapsed >= auth.expires_in ==> r == PollDecision::GiveUp,
        elapsed < auth.expires_in && since_last_poll >= auth.interval ==> r == PollDecision::Poll,
        elapsed < auth.expires_in && since_last_poll < auth.interval ==> r == PollDecision::Wait,
{
    if elapsed >= auth.expires_in as u64 {
        PollDecision::GiveUp
    } else if since_last_poll >= auth.interval as u64 {
        PollDecision::Poll
    } else {
        PollDecision::Wait
    }
}

/// The states of the device-authorization flow.
#[derive(Clone, Copy, Debug, PartialEq, Eq, Structural)]
pub enum DeviceFlowState {
    /// The device-authorization request has been sent.
    Requested,
    /// A device code was issued; the user is confirming out-of-band
    /// while the client polls.
    AwaitingUserAction,
    /// A session was obtained.  Terminal.
    Authorized,
    /// The flow was aborted: no code, an expired window, or a rejected
    /// exchange.  Terminal.
    Failed,
}

/// The events that drive the device-authorization flow.
#[derive(Clone, Copy, Debug, PartialEq, Eq, Structural)]
pub enum DeviceFlowEvent {
    /// The device-authorization endpoint issued a code.
    CodeIssued,
    /// The device-authorization request failed or its body was
    /// malformed.
    CodeRequestFailed,
    /// A poll found the user's confirmation still pending.
    AuthorizationPending,
    /// The exchange answered with a session.
    TokenIssued,
    /// The advertised expiry window elapsed.
    WindowExpired,
    /// The exchange was rejected.
    ExchangeFailed,
}

/// The transition relation of the device-authorization flow.
pub open spec fn spec_device_flow_step(s: DeviceFlowState, e: DeviceFlowEvent) -> DeviceFlowState {
    match s {
        DeviceFlowState::Requested => match e {
            DeviceFlowEvent::CodeIssued => DeviceFlowState::AwaitingUserAction,
            DeviceFlowEvent::CodeRequestFailed => DeviceFlowState::Failed,
            _ => DeviceFlowState::Requested,
        },
        DeviceFlowState::AwaitingUserAction => match e {
            DeviceFlowEvent::AuthorizationPending => DeviceFlowState::AwaitingUserAction,
            DeviceFlowEvent::TokenIssued => DeviceFlowState::Authorized,
            DeviceFlowEvent::WindowExpired => DeviceFlowState::Failed,
            DeviceFlowEvent::ExchangeFailed => DeviceFlowState::Failed,
            _ => DeviceFlowState::AwaitingUserAction,
        },
        DeviceFlowState::Authorized => DeviceFlowState::Authorized,
        DeviceFlowState::Failed => DeviceFlowState::Failed,
    }
}

/// Advances the device-authorization flow by one observed event.
pub fn device_flow_step(s: DeviceFlowState, e: DeviceFlowEvent) -> (r: DeviceFlowState)
    ensures
        r == spec_device_flow_step(s, e),
{
    match s {
        DeviceFlowState::Requested => match e {
            DeviceFlowEvent::CodeIssued => DeviceFlowState::AwaitingUserAction,
            DeviceFlowEvent::CodeRequestFailed => DeviceFlowState::Failed,
            _ => DeviceFlowState::Requested,
        },
        DeviceFlowState::AwaitingUserAction => match e {
            DeviceFlowEvent::AuthorizationPending => DeviceFlowState::AwaitingUserAction,
            DeviceFlowEvent::TokenIssued => DeviceFlowState::Authorized,
            DeviceFlowEvent::WindowExpired => DeviceFlowState::Failed,
            DeviceFlowEvent::ExchangeFailed => DeviceFlowState::Failed,
            _ => DeviceFlowState::AwaitingUserAction,
        },
        DeviceFlowState::Authorized => DeviceFlowState::Authorized,
        DeviceFlowState::Failed => DeviceFlowState::Failed,
    }
}

/// Once the flow has authorized or failed, no later event moves it.
pub proof fn lemma_terminal_states_stable(s: DeviceFlowState, e: DeviceFlowEvent)
    requires
        s == DeviceFlowState::Authorized || s == DeviceFlowState::Failed,
    ensures
        spec_device_flow_step(s, e) == s,
{
}

/// Exchanges a device code for a session.
///
/// `elapsed` is the time in seconds since the authorization was issued;
/// `response_body` is the token endpoint's answer, or `None` when the
/// endpoint was not reached.  An authorization whose advertised expiry
/// has elapsed fails with an expiry error before anything else is
/// looked at, so the flow can never hang on a dead code; an answer whose
/// `error` field reports `expired_token` fails the same way, and every
/// other failed answer counts as a rejected exchange.
pub fn exchange_device_code(
    auth: &DeviceAuthorization,
    elapsed: u64,
    response_body: Option<&str>,
) -> (r: Result<Session, AuthError>)
    ensures
        elapsed >= auth.expires_in ==> (r matches Err(e) && e == AuthError::DeviceCodeExpired),
        (match response_body {
            Some(b) => elapsed < auth.expires_in ==> {
                &&& (r is Ok <==> session_body_well_formed(b@))
                &&& (match r {
                    Ok(s) => session_matches_body(s, b@),
                    Err(e) => if json_string_field_of(b@, "error"@) == Some("expired_token"@) {
                        e == AuthError::DeviceCodeExpired
                    } else {
                        e == AuthError::ExchangeRejected
                    },
                })
            },
            None => elapsed < auth.expires_in ==> (r matches Err(e) && e
                == AuthError::ExchangeRejected),
        }),
{
    if elapsed >= auth.expires_in as u64 {
        return Err(AuthError::DeviceCodeExpired);
    }
    match response_body {
        Some(b) => match parse_session_response(b) {
            Ok(s) => Ok(s),
            Err(_) => match json_string_field(b, "error") {
                Some(code) => {
                    if code.eq(&String::from_str("expired_token")) {
                        Err(AuthError::DeviceCodeExpired)
                    } else {
                        Err(AuthError::ExchangeRejected)
                    }
                },
                None => Err(AuthError::ExchangeRejected),
            },
        },
        None => Err(AuthError::ExchangeRejected),
    }
}

} // verus!
