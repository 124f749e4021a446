//! Session validator and re-authentication orchestrator.
//!
//! A [`Session`] is the authenticated state for the unofficial API: a
//! bearer token plus a user profile whose region code must accompany
//! every data request.  The functions here decide everything about a
//! session — whether it is valid, whether a re-authentication must be
//! started or only awaited, and how an authenticated request is to be
//! assembled — while the application performs the HTTP round trips.

use vstd::prelude::*;
use vstd::string::StringExecFns;

use crate::auth::spec_bearer_of;
use crate::errors::AuthError;
use crate::json::{
    json_nested_string_field, json_nested_string_field_of, json_string_field,
    json_string_field_of, json_u64_field, json_u64_field_of,
};
use crate::util::{concat_map, lemma_concat_map_snoc};

verus! {

/// The user profile that accompanies a session.  Only the region code
/// steers the client; every other field is pass-through data.
pub struct UserProfile {
    pub user_id: Option<u64>,
    pub email: Option<String>,
    pub country_code: Option<String>,
    pub full_name: Option<String>,
    pub first_name: Option<String>,
    pub last_name: Option<String>,
    pub nickname: Option<String>,
    pub username: Option<String>,
    pub address: Option<String>,
    pub city: Option<String>,
    pub postalcode: Option<String>,
    pub us_state: Option<String>,
    pub phone_number: Option<String>,
    pub birthday: Option<String>,
    pub channel_id: Option<u64>,
    pub parent_id: Option<u64>,
    pub accepted_eula: bool,
    pub created: Option<u64>,
    pub updated: Option<u64>,
    pub facebook_uid: Option<u64>,
    pub apple_uid: Option<u64>,
    pub google_uid: Option<u64>,
    pub account_link_created: bool,
    pub email_verified: bool,
    pub new_user: bool,
}

/// The profile a fresh, unauthenticated session starts from: zeroed
/// identifiers, empty names, cleared flags.
pub open spec fn is_default_profile(p: &UserProfile) -> bool {
    &&& p.user_id == Some(0u64)
    &&& (p.email matches Some(v) && v@ == Seq::<char>::empty())
    &&& (p.country_code matches Some(v) && v@ == Seq::<char>::empty())
    &&& (p.full_name matches Some(v) && v@ == Seq::<char>::empty())
    &&& (p.first_name matches Some(v) && v@ == Seq::<char>::empty())
    &&& (p.last_name matches Some(v) && v@ == Seq::<char>::empty())
    &&& (p.nickname matches Some(v) && v@ == Seq::<char>::empty())
    &&& (p.username matches Some(v) && v@ == Seq::<char>::empty())
    &&& (p.address matches Some(v) && v@ == Seq::<char>::empty())
    &&& (p.city matches Some(v) && v@ == Seq::<char>::empty())
    &&& (p.postalcode matches Some(v) && v@ == Seq::<char>::empty())
    &&& (p.us_state matches Some(v) && v@ == Seq::<char>::empty())
    &&& (p.phone_number matches Some(v) && v@ == Seq::<char>::empty())
    &&& (p.birthday matches Some(v) && v@ == Seq::<char>::empty())
    &&& p.channel_id == Some(0u64)
    &&& p.parent_id == Some(0u64)
    &&& !p.accepted_eula
    &&& p.created == Some(0u64)
    &&& p.updated == Some(0u64)
    &&& p.facebook_uid == Some(0u64)
    &&& p.apple_uid == Some(0u64)
    &&& p.google_uid == Some(0u64)
    &&& !p.account_link_created
    &&& !p.email_verified
    &&& !p.new_user
}

/// A profile whose pass-through fields are all absent or cleared, as a
/// freshly parsed session leaves them.
pub open spec fn profile_passthrough_empty(p: &UserProfile) -> bool {
    &&& p.user_id is None
    &&& p.email is None
    &&& p.full_name is None
    &&& p.first_name is None
    &&& p.last_name is None
    &&& p.nickname is None
    &&& p.username is None
    &&& p.address is None
    &&& p.city is None
    &&& p.postalcode is None
    &&& p.us_state is None
    &&& p.phone_number is None
    &&& p.birthday is None
    &&& p.channel_id is None
    &&& p.parent_id is None
    &&& !p.accepted_eula
    &&& p.created is None
    &&& p.updated is None
    &&& p.facebook_uid is None
    &&& p.apple_uid is None
    &&& p.google_uid is None
    &&& !p.account_link_created
    &&& !p.email_verified
    &&& !p.new_user
}

impl Default for UserProfile {
    fn default() -> (r: Self)
        ensures
            is_default_profile(&r),
    {
        UserProfile {
            user_id: Some(0),
            email: Some(String::new()),
            country_code: Some(String::new()),
            full_name: Some(String::new()),
            first_name: Some(String::new()),
            last_name: Some(String::new()),
            nickname: Some(String::new()),
            username: Some(String::new()),
            address: Some(String::new()),
            city: Some(String::new()),
            postalcode: Some(String::new()),
            us_state: Some(String::new()),
            phone_number: Some(String::new()),
            birthday: Some(String::new()),
            channel_id: Some(0),
            parent_id: Some(0),
            accepted_eula: false,
            created: Some(0),
            updated: Some(0),
            facebook_uid: Some(0),
            apple_uid: Some(0),
            google_uid: Some(0),
            account_link_created: false,
            email_verified: false,
            new_user: false,
        }
    }
}

/// The authenticated state for the unofficial API: a bearer token, its
/// scope and client metadata, and the nested user profile.
pub struct Session {
    pub scope: String,
    pub user: UserProfile,
    pub client_name: String,
    pub token_type: String,
    pub access_token: String,
    pub expires_in: u32,
    pub user_id: u64,
}

/// A session that has never been authenticated: empty token and a
/// default profile.
pub open spec fn is_default_session(s: &Session) -> bool {
    &&& s.scope@ == Seq::<char>::empty()
    &&& is_default_profile(&s.user)
    &&& s.client_name@ == Seq::<char>::empty()
    &&& s.token_type@ == Seq::<char>::empty()
    &&& s.access_token@ == Seq::<char>::empty()
    &&& s.expires_in == 0
    &&& s.user_id == 0
}

impl Default for Session {
    fn default() -> (r: Self)
        ensures
            is_default_session(&r),
    {
        Session {
            scope: String::new(),
            user: UserProfile::default(),
            client_name: String::new(),
            token_type: String::new(),
            access_token: String::new(),
            expires_in: 0,
            user_id: 0,
        }
    }
}

/// Whether a token-exchange response body carries every required field
/// of a [`Session`], with the lifetime small enough to hold.
pub open spec fn session_body_well_formed(b: Seq<char>) -> bool {
    &&& json_string_field_of(b, "access_token"@) is Some
    &&& json_string_field_of(b, "scope"@) is Some
    &&& json_string_field_of(b, "clientName"@) is Some
    &&& json_string_field_of(b, "token_type"@) is Some
    &&& (json_u64_field_of(b, "expires_in"@) matches Some(x) && x <= u32::MAX)
    &&& json_u64_field_of(b, "user_id"@) is Some
}

/// Whether `s` holds exactly the fields of the token-exchange response
/// body `b`, region code included.
pub open spec fn session_matches_body(s: Session, b: Seq<char>) -> bool {
    &&& json_string_field_of(b, "access_token"@) == Some(s.access_token@)
    &&& json_string_field_of(b, "scope"@) == Some(s.scope@)
    &&& json_string_field_of(b, "clientName"@) == Some(s.client_name@)
    &&& json_string_field_of(b, "token_type"@) == Some(s.token_type@)
    &&& json_u64_field_of(b, "expires_in"@) == Some(s.expires_in as u64)
    &&& json_u64_field_of(b, "user_id"@) == Some(s.user_id)
    &&& (match json_nested_string_field_of(b, "user"@, "country_code"@) {
        Some(cc) => s.user.country_code matches Some(c) && c@ == cc,
        None => s.user.country_code is None,
    })
    &&& profile_passthrough_empty(&s.user)
}

/// Reads the token-exchange response body into a [`Session`].
///
/// Every top-level field is required; the profile keeps only the region
/// code, which may be absent — a session without one is usable until a
/// data request needs the region.  A body that misses a required field
/// is rejected explicitly rather than mapped to an empty session.
pub fn parse_session_response(body: &str) -> (r: Result<Session, AuthError>)
    ensures
        r is Ok <==> session_body_well_formed(body@),
        (match r {
            Ok(s) => session_matches_body(s, body@),
            Err(e) => e == AuthError::ExchangeRejected,
        }),
{
    let access_token = match json_string_field(body, "access_token") {
        Some(v) => v,
        None => {
            return Err(AuthError::ExchangeRejected);
        },
    };
    let scope = match json_string_field(body, "scope") {
        Some(v) => v,
        None => {
            return Err(AuthError::ExchangeRejected);
        },
    };
    let client_name = match json_string_field(body, "clientName") {
        Some(v) => v,
        None => {
            return Err(AuthError::ExchangeRejected);
        },
    };
    let token_type = match json_string_field(body, "token_type") {
        Some(v) => v,
        None => {
            return Err(AuthError::ExchangeRejected);
        },
    };
    let expires_in = match json_u64_field(body, "expires_in") {
        Some(v) => {
            if v <= u32::MAX as u64 {
                v as u32
            } else {
                return Err(AuthError::ExchangeRejected);
            }
        },
        None => {
            return Err(AuthError::ExchangeRejected);
        },
    };
    let user_id = match json_u64_field(body, "user_id") {
        Some(v) => v,
        None => {
            return Err(AuthError::ExchangeRejected);
        },
    };
    let country_code = json_nested_string_field(body, "user", "country_code");
    Ok(Session {
        scope,
        user: UserProfile {
            user_id: None,
            email: None,
            country_code,
            full_name: None,
            first_name: None,
            last_name: None,
            nickname: None,
            username: None,
            address: None,
            city: None,
            postalcode: None,
            us_state: None,
            phone_number: None,
            birthday: None,
            channel_id: None,
            parent_id: None,
            accepted_eula: false,
            created: None,
            updated: None,
            facebook_uid: None,
            apple_uid: None,
            google_uid: None,
            account_link_created: false,
            email_verified: false,
            new_user: false,
        },
        client_name,
        token_type,
        access_token,
        expires_in,
        user_id,
    })
}

/// Interprets the session-introspection probe: the session is valid
/// exactly when the endpoint answered HTTP 200.  `None` stands for a
/// transport failure and counts as invalid, so the check fails closed
/// and never raises.
pub fn is_valid(probe_status: Option<u16>) -> (r: bool)
    ensures
        r <==> probe_status == Some(200u16),
{
    match probe_status {
        Some(code) => code == 200,
        None => false,
    }
}

/// What a caller of `ensure_session` must do after its validity check.
#[derive(Clone, Copy, Debug, PartialEq, Eq, Structural)]
pub enum EnsureAction {
    /// The session answered the probe: use it as it stands.
    UseExisting,
    /// The session is invalid and nobody is re-authenticating: run the
    /// device-code flow and replace the session in place.
    StartReauth,
    /// The session is invalid but a re-authentication is already in
    /// flight: block on its completion instead of starting another.
    AwaitReauth,
}

/// Serializes re-authentication of one logical session: true while a
/// device-code flow for it is in flight.
#[derive(Clone, Copy, Debug, PartialEq, Eq, Structural)]
pub struct ReauthGuard {
    pub in_flight: bool,
}

/// The decision one caller gets, and the guard state it leaves behind.
pub open spec fn spec_ensure_step(valid: bool, in_flight: bool) -> (EnsureAction, bool) {
    if valid {
        (EnsureAction::UseExisting, in_flight)
    } else if in_flight {
        (EnsureAction::AwaitReauth, true)
    } else {
        (EnsureAction::StartReauth, true)
    }
}

/// One caller's step of the re-authentication orchestrator: `valid` is
/// the outcome of [`is_valid`] on the session's probe.  Callers that find
/// the session invalid while a re-authentication is in flight wait for it
/// rather than starting their own.
pub fn ensure_session_step(valid: bool, guard: &mut ReauthGuard) -> (a: EnsureAction)
    ensures
        (a, final(guard).in_flight) == spec_ensure_step(valid, old(guard).in_flight),
{
    if valid {
        EnsureAction::UseExisting
    } else if guard.in_flight {
        EnsureAction::AwaitReauth
    } else {
        guard.in_flight = true;
        EnsureAction::StartReauth
    }
}

/// Marks the in-flight re-authentication as finished, successful or not,
/// so that a later invalid session can be re-authenticated again.
pub fn finish_reauth(guard: &mut ReauthGuard)
    ensures
        !final(guard).in_flight,
{
    guard.in_flight = false;
}

/// Two callers that find the same session invalid start exactly one
/// device-code exchange between them: the first decision starts it, and
/// any decision taken while it is in flight waits instead of starting
/// another.
pub proof fn lemma_single_reauth(in_flight0: bool)
    requires
        !in_flight0,
    ensures
        ({
            let (a1, g1) = spec_ensure_step(false, in_flight0);
            let (a2, g2) = spec_ensure_step(false, g1);
            &&& a1 == EnsureAction::StartReauth
            &&& a2 == EnsureAction::AwaitReauth
            &&& g2
        }),
{
}

/// An authenticated request, assembled and ready for transport: the full
/// URL and the bearer-authorization header value.
pub struct PreparedRequest {
    pub url: String,
    pub bearer: String,
}

/// The views of a list of query parameters.
pub open spec fn pairs_view(params: Seq<(String, String)>) -> Seq<(Seq<char>, Seq<char>)> {
    params.map_values(|p: (String, String)| (p.0@, p.1@))
}

/// `&key=value` for every parameter, in order.
pub open spec fn spec_query(params: Seq<(Seq<char>, Seq<char>)>) -> Seq<char> {
    concat_map(params, |p: (Seq<char>, Seq<char>)| "&"@ + p.0 + "="@ + p.1)
}

/// The URL of an authenticated unofficial-API request: the region code
/// always stands first in the query, followed by the caller's
/// parameters.
pub open spec fn spec_authenticated_url(
    endpoint: Seq<char>,
    region: Seq<char>,
    params: Seq<(Seq<char>, Seq<char>)>,
) -> Seq<char> {
    "https://api.tidalhifi.com/v1/"@ + endpoint + "?countryCode="@ + region + spec_query(params)
}

/// Assembles an authenticated GET against the unofficial API from a
/// session: the session's region code is injected as the mandatory
/// `countryCode` parameter and its token becomes the bearer header.  A
/// session without a region code is a hard error; no request line is
/// built for it.
pub fn plan_authenticated_get(
    endpoint: &str,
    params: &Vec<(String, String)>,
    session: &Session,
) -> (r: Result<PreparedRequest, AuthError>)
    ensures
        session.user.country_code is None ==> (r matches Err(e) && e == AuthError::MissingRegion),
        session.user.country_code matches Some(region) ==> (r matches Ok(p) && p.url@
            == spec_authenticated_url(endpoint@, region@, pairs_view(params@)) && p.bearer@
            == spec_bearer_of(session.access_token@)),
{
    let region = match &session.user.country_code {
        Some(region) => region,
        None => {
            return Err(AuthError::MissingRegion);
        },
    };
    let mut url = String::from_str("https://api.tidalhifi.com/v1/");
    url.append(endpoint);
    url.append("?countryCode=");
    url.append(region.as_str());
    let n = params.len();
    let mut i: usize = 0;
    while i < n
        invariant
            n == params@.len(),
            i <= n,
            url@ == "https://api.tidalhifi.com/v1/"@ + endpoint@ + "?countryCode="@ + region@
                + spec_query(pairs_view(params@).take(i as int)),
        decreases n - i,
    {
        let pair = &params[i];
        url.append("&");
        url.append(pair.0.as_str());
        url.append("=");
        url.append(pair.1.as_str());
        proof {
            lemma_concat_map_snoc(
                pairs_view(params@).take(i as int),
                |p: (Seq<char>, Seq<char>)| "&"@ + p.0 + "="@ + p.1,
                pairs_view(params@)[i as int],
            );
            assert(pairs_view(params@).take(i as int).push(pairs_view(params@)[i as int])
                =~= pairs_view(params@).take(i + 1));
        }
        i = i + 1;
    }
    proof {
        assert(pairs_view(params@).take(n as int) =~= pairs_view(params@));
    }
    let mut bearer = String::from_str("Bearer ");
    bearer.append(session.access_token.as_str());
    Ok(PreparedRequest { url, bearer })
}

/// The playback-info endpoint path for a track.
pub fn playback_endpoint(track_id: &str) -> (r: String)
    ensures
        r@ == "tracks/"@ + track_id@ + "/playbackinfopostpaywall"@,
{
    let mut r = String::from_str("tracks/");
    r.append(track_id);
    r.append("/playbackinfopostpaywall");
    r
}

/// The fixed query parameters of a playback-info request: lossless
/// audio, stream mode, full asset presentation.
pub fn playback_params() -> (r: Vec<(String, String)>)
    ensures
        r@.len() == 3,
        r@[0].0@ == "audioquality"@ && r@[0].1@ == "LOSSLESS"@,
        r@[1].0@ == "playbackmode"@ && r@[1].1@ == "STREAM"@,
        r@[2].0@ == "assetpresentation"@ && r@[2].1@ == "FULL"@,
{
    let mut params: Vec<(String, String)> = Vec::new();
    params.push((String::from_str("audioquality"), String::from_str("LOSSLESS")));
    params.push((String::from_str("playbackmode"), String::from_str("STREAM")));
    params.push((String::from_str("assetpresentation"), String::from_str("FULL")));
    params
}

} // verus!
