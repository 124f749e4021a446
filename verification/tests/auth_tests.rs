use tidal_client::auth::{client_credentials_form, obtain_token};
use tidal_client::device::{
    device_authorization_form, exchange_device_code, exchange_form, parse_device_authorization,
    DeviceAuthorization,
};
use tidal_client::errors::AuthError;
use tidal_client::session::parse_session_response;

const DEVICE_BODY: &str = "{\
        \"device_code\": \"dc-1\",\
        \"user_code\": \"ABCDE\",\
        \"verification_uri\": \"https://link.tidal.com\",\
        \"verification_uri_complete\": \"https://link.tidal.com/ABCDE\",\
        \"expires_in\": 300,\
        \"interval\": 2}";

const SESSION_BODY: &str = "{\
        \"scope\": \"r_usr w_usr\",\
        \"user\": {\"country_code\": \"US\"},\
        \"clientName\": \"client\",\
        \"token_type\": \"Bearer\",\
        \"access_token\": \"tok-123\",\
        \"expires_in\": 604800,\
        \"user_id\": 7}";

#[test]
fn obtain_token_formats_bearer_value() {
    let body = "{\"access_token\": \"X\"}";
    assert_eq!(obtain_token(body).unwrap(), "Bearer X");
}

#[test]
fn obtain_token_rejects_missing_field() {
    assert_eq!(obtain_token("{}"), Err(AuthError::MalformedResponse));
}

#[test]
fn obtain_token_rejects_non_string_token() {
    assert_eq!(obtain_token("{\"access_token\": 5}"), Err(AuthError::MalformedResponse));
}

#[test]
fn obtain_token_rejects_malformed_json() {
    assert_eq!(obtain_token("garbage"), Err(AuthError::MalformedResponse));
}

#[test]
fn client_credentials_form_carries_the_grant() {
    let form = client_credentials_form();
    assert_eq!(form.len(), 1);
    assert_eq!(form[0].0, "grant_type");
    assert_eq!(form[0].1, "client_credentials");
}

#[test]
fn device_authorization_form_carries_client_and_scope() {
    let form = device_authorization_form("cid".to_string());
    assert_eq!(form.len(), 2);
    assert_eq!(form[0], ("client_id".to_string(), "cid".to_string()));
    assert_eq!(form[1], ("scope".to_string(), "r_usr+w_usr+w_sub".to_string()));
}

#[test]
fn exchange_form_carries_the_device_grant() {
    let form = exchange_form("cid".to_string(), "dc-1".to_string());
    assert_eq!(form.len(), 4);
    assert_eq!(form[0], ("client_id".to_string(), "cid".to_string()));
    assert_eq!(form[1], ("device_code".to_string(), "dc-1".to_string()));
    assert_eq!(
        form[2],
        (
            "grant_type".to_string(),
            "urn:ietf:params:oauth:grant-type:device_code".to_string()
        )
    );
    assert_eq!(form[3], ("scope".to_string(), "r_usr+w_usr+w_sub".to_string()));
}

#[test]
fn device_authorization_parses_every_field() {
    let auth = parse_device_authorization(DEVICE_BODY).unwrap();
    assert_eq!(auth.device_code, "dc-1");
    assert_eq!(auth.user_code, "ABCDE");
    assert_eq!(auth.verification_uri, "https://link.tidal.com");
    assert_eq!(auth.verification_uri_complete, "https://link.tidal.com/ABCDE");
    assert_eq!(auth.expires_in, 300);
    assert_eq!(auth.interval, 2);
}

#[test]
fn device_authorization_rejects_missing_field() {
    let body = "{\"device_code\": \"dc-1\"}";
    assert_eq!(
        parse_device_authorization(body).map(|_| ()),
        Err(AuthError::MalformedResponse)
    );
}

#[test]
fn device_authorization_rejects_oversized_countdown() {
    let body = "{\
            \"device_code\": \"dc-1\",\
            \"user_code\": \"ABCDE\",\
            \"verification_uri\": \"u\",\
            \"verification_uri_complete\": \"u/c\",\
            \"expires_in\": 4294967296,\
            \"interval\": 2}";
    assert_eq!(
        parse_device_authorization(body).map(|_| ()),
        Err(AuthError::MalformedResponse)
    );
}

#[test]
fn default_device_authorization_is_empty() {
    let auth = DeviceAuthorization::default();
    assert_eq!(auth.device_code, "");
    assert_eq!(auth.user_code, "");
    assert_eq!(auth.verification_uri, "");
    assert_eq!(auth.verification_uri_complete, "");
    assert_eq!(auth.expires_in, 0);
    assert_eq!(auth.interval, 0);
}

#[test]
fn expired_authorization_never_exchanges() {
    let auth = parse_device_authorization(DEVICE_BODY).unwrap();
    let r = exchange_device_code(&auth, 300, Some(SESSION_BODY));
    assert_eq!(r.map(|_| ()), Err(AuthError::DeviceCodeExpired));
    let r = exchange_device_code(&auth, 10_000, None);
    assert_eq!(r.map(|_| ()), Err(AuthError::DeviceCodeExpired));
}

#[test]
fn expired_token_answer_counts_as_expiry() {
    let auth = parse_device_authorization(DEVICE_BODY).unwrap();
    let r = exchange_device_code(&auth, 10, Some("{\"error\": \"expired_token\"}"));
    assert_eq!(r.map(|_| ()), Err(AuthError::DeviceCodeExpired));
}

#[test]
fn pending_answer_counts_as_rejected_exchange() {
    let auth = parse_device_authorization(DEVICE_BODY).unwrap();
    let r = exchange_device_code(&auth, 10, Some("{\"error\": \"authorization_pending\"}"));
    assert_eq!(r.map(|_| ()), Err(AuthError::ExchangeRejected));
}

#[test]
fn unreachable_exchange_is_rejected() {
    let auth = parse_device_authorization(DEVICE_BODY).unwrap();
    let r = exchange_device_code(&auth, 10, None);
    assert_eq!(r.map(|_| ()), Err(AuthError::ExchangeRejected));
}

#[test]
fn exchange_within_window_yields_the_session() {
    let auth = parse_device_authorization(DEVICE_BODY).unwrap();
    let session = exchange_device_code(&auth, 10, Some(SESSION_BODY)).unwrap();
    assert_eq!(session.access_token, "tok-123");
    assert_eq!(session.scope, "r_usr w_usr");
    assert_eq!(session.client_name, "client");
    assert_eq!(session.token_type, "Bearer");
    assert_eq!(session.expires_in, 604800);
    assert_eq!(session.user_id, 7);
    assert_eq!(session.user.country_code.as_deref(), Some("US"));
}

#[test]
fn session_parse_keeps_absent_region_absent() {
    let body = "{\
            \"scope\": \"r_usr\",\
            \"user\": {},\
            \"clientName\": \"client\",\
            \"token_type\": \"Bearer\",\
            \"access_token\": \"tok-123\",\
            \"expires_in\": 10,\
            \"user_id\": 7}";
    let session = parse_session_response(body).unwrap();
    assert_eq!(session.user.country_code, None);
}

#[test]
fn session_parse_rejects_missing_token() {
    let body = "{\
            \"scope\": \"r_usr\",\
            \"user\": {},\
            \"clientName\": \"client\",\
            \"token_type\": \"Bearer\",\
            \"expires_in\": 10,\
            \"user_id\": 7}";
    assert_eq!(parse_session_response(body).map(|_| ()), Err(AuthError::ExchangeRejected));
}

#[test]
fn auth_error_descriptions_name_the_failure() {
    assert_eq!(
        AuthError::DeviceCodeExpired.describe(),
        "device code expired before exchange"
    );
    assert_eq!(AuthError::MissingRegion.describe(), "session carries no region code");
    assert_eq!(
        AuthError::ExchangeRejected.describe(),
        "device code exchange was rejected"
    );
    assert_eq!(
        AuthError::MalformedResponse.describe(),
        "malformed token endpoint response"
    );
}
