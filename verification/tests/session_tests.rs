use tidal_client::device::{next_poll_action, parse_device_authorization, PollDecision};
use tidal_client::device::{device_flow_step, DeviceFlowEvent, DeviceFlowState};
use tidal_client::errors::AuthError;
use tidal_client::session::{
    ensure_session_step, finish_reauth, is_valid, plan_authenticated_get, playback_endpoint,
    playback_params, EnsureAction, ReauthGuard, Session,
};

fn session_with_region(region: Option<&str>) -> Session {
    let mut session = Session::default();
    session.access_token = "tok-123".to_string();
    session.user.country_code = region.map(|r| r.to_string());
    session
}

#[test]
fn is_valid_only_on_status_200() {
    assert!(is_valid(Some(200)));
    assert!(!is_valid(Some(201)));
    assert!(!is_valid(Some(401)));
    assert!(!is_valid(Some(500)));
}

#[test]
fn is_valid_fails_closed_on_transport_failure() {
    assert!(!is_valid(None));
}

#[test]
fn valid_session_is_used_as_it_stands() {
    let mut guard = ReauthGuard { in_flight: false };
    assert_eq!(ensure_session_step(true, &mut guard), EnsureAction::UseExisting);
    assert!(!guard.in_flight);
}

#[test]
fn concurrent_invalid_sessions_start_one_reauth() {
    let mut guard = ReauthGuard { in_flight: false };
    let first = ensure_session_step(false, &mut guard);
    let second = ensure_session_step(false, &mut guard);
    assert_eq!(first, EnsureAction::StartReauth);
    assert_eq!(second, EnsureAction::AwaitReauth);
    assert!(guard.in_flight);
}

#[test]
fn finished_reauth_allows_a_later_one() {
    let mut guard = ReauthGuard { in_flight: false };
    assert_eq!(ensure_session_step(false, &mut guard), EnsureAction::StartReauth);
    finish_reauth(&mut guard);
    assert!(!guard.in_flight);
    assert_eq!(ensure_session_step(false, &mut guard), EnsureAction::StartReauth);
}

#[test]
fn authenticated_get_injects_region_and_bearer() {
    let session = session_with_region(Some("US"));
    let endpoint = playback_endpoint("42");
    assert_eq!(endpoint, "tracks/42/playbackinfopostpaywall");
    let prepared = plan_authenticated_get(&endpoint, &playback_params(), &session).unwrap();
    assert_eq!(
        prepared.url,
        "https://api.tidalhifi.com/v1/tracks/42/playbackinfopostpaywall\
            ?countryCode=US\
            &audioquality=LOSSLESS\
            &playbackmode=STREAM\
            &assetpresentation=FULL"
    );
    assert_eq!(prepared.bearer, "Bearer tok-123");
}

#[test]
fn authenticated_get_without_params_keeps_region_only() {
    let session = session_with_region(Some("DE"));
    let prepared = plan_authenticated_get("sessions", &Vec::new(), &session).unwrap();
    assert_eq!(prepared.url, "https://api.tidalhifi.com/v1/sessions?countryCode=DE");
}

#[test]
fn missing_region_is_a_hard_error() {
    let session = session_with_region(None);
    let r = plan_authenticated_get("sessions", &Vec::new(), &session);
    assert_eq!(r.map(|_| ()), Err(AuthError::MissingRegion));
}

#[test]
fn playback_params_request_lossless_stream() {
    let params = playback_params();
    assert_eq!(params.len(), 3);
    assert_eq!(params[0], ("audioquality".to_string(), "LOSSLESS".to_string()));
    assert_eq!(params[1], ("playbackmode".to_string(), "STREAM".to_string()));
    assert_eq!(params[2], ("assetpresentation".to_string(), "FULL".to_string()));
}

#[test]
fn default_session_is_unauthenticated() {
    let session = Session::default();
    assert_eq!(session.access_token, "");
    assert_eq!(session.scope, "");
    assert_eq!(session.expires_in, 0);
    assert_eq!(session.user_id, 0);
    assert_eq!(session.user.country_code.as_deref(), Some(""));
    assert_eq!(session.user.user_id, Some(0));
    assert!(!session.user.accepted_eula);
}

const DEVICE_BODY: &str = "{\
        \"device_code\": \"dc-1\",\
        \"user_code\": \"ABCDE\",\
        \"verification_uri\": \"u\",\
        \"verification_uri_complete\": \"u/c\",\
        \"expires_in\": 300,\
        \"interval\": 5}";

#[test]
fn poll_loop_respects_interval_and_expiry() {
    let auth = parse_device_authorization(DEVICE_BODY).unwrap();
    assert_eq!(next_poll_action(&auth, 0, 0), PollDecision::Wait);
    assert_eq!(next_poll_action(&auth, 10, 5), PollDecision::Poll);
    assert_eq!(next_poll_action(&auth, 10, 7), PollDecision::Poll);
    assert_eq!(next_poll_action(&auth, 299, 3), PollDecision::Wait);
    assert_eq!(next_poll_action(&auth, 300, 5), PollDecision::GiveUp);
    assert_eq!(next_poll_action(&auth, 1000, 0), PollDecision::GiveUp);
}

#[test]
fn device_flow_walks_to_authorized() {
    let s = DeviceFlowState::Requested;
    let s = device_flow_step(s, DeviceFlowEvent::CodeIssued);
    assert_eq!(s, DeviceFlowState::AwaitingUserAction);
    let s = device_flow_step(s, DeviceFlowEvent::AuthorizationPending);
    assert_eq!(s, DeviceFlowState::AwaitingUserAction);
    let s = device_flow_step(s, DeviceFlowEvent::TokenIssued);
    assert_eq!(s, DeviceFlowState::Authorized);
    let s = device_flow_step(s, DeviceFlowEvent::WindowExpired);
    assert_eq!(s, DeviceFlowState::Authorized);
}

#[test]
fn device_flow_fails_on_expiry_and_stays_failed() {
    let s = DeviceFlowState::AwaitingUserAction;
    let s = device_flow_step(s, DeviceFlowEvent::WindowExpired);
    assert_eq!(s, DeviceFlowState::Failed);
    let s = device_flow_step(s, DeviceFlowEvent::TokenIssued);
    assert_eq!(s, DeviceFlowState::Failed);
}

#[test]
fn device_flow_fails_when_no_code_is_issued() {
    let s = device_flow_step(DeviceFlowState::Requested, DeviceFlowEvent::CodeRequestFailed);
    assert_eq!(s, DeviceFlowState::Failed);
}
