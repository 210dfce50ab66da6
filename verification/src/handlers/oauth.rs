//! The decisions of the OAuth endpoints: starting a login and completing
//! it in the provider's callback. The requests to the provider and the
//! database are made around these functions.

use vstd::prelude::*;
use crate::error::{reply_is, AppError, ErrorReply};
use crate::models::{
    AuditEventType, AuditLog, AuditLogBuilder, DeviceInfo, ProviderName, TokenPair, User,
};
use crate::net::subnet_spec;
use crate::numfmt::{push_signed_dec, signed_dec_spec};
use crate::services::anomaly_detection::{AnomalyResult, AnomalyView};
use crate::text::{chars_of, owned, split_chars, split_spec, string_of, trim_chars, trim_spec, views};

verus! {

/// The query of a login start.
#[derive(Debug, Clone)]
pub struct OAuthInitRequest {
    pub scopes: Option<String>,
    pub redirect_uri: Option<String>,
}

/// Where to send the user, and the state token of the login.
#[derive(Debug, Clone)]
pub struct OAuthInitResponse {
    pub authorization_url: String,
    pub state: String,
}

/// The query with which the provider calls back.
#[derive(Debug, Clone)]
pub struct OAuthCallbackQuery {
    pub code: String,
    pub state: String,
    pub error: Option<String>,
    pub error_description: Option<String>,
}

/// The tokens and user of a completed login.
#[derive(Debug, Clone)]
pub struct OAuthCallbackResponse {
    pub access_token: String,
    pub refresh_token: String,
    pub token_type: String,
    pub expires_in: i64,
    pub user: OAuthUserResponse,
}

/// The user part of a completed login.
#[derive(Debug, Clone)]
pub struct OAuthUserResponse {
    pub id: String,
    pub email: String,
    pub display_name: Option<String>,
    pub profile_picture_url: Option<String>,
}

/// The provider named in the path, or a bad request naming it.
pub fn parse_provider(provider: &str) -> (r: Result<ProviderName, AppError>)
    ensures
        r matches Ok(p) ==> ProviderName::parse_spec(provider@) == Some(p),
        r matches Err(e) ==> ProviderName::parse_spec(provider@) is None && (e matches AppError::BadRequest(
            m,
        ) && m@ == "Unknown provider: "@ + provider@),
{
    match ProviderName::parse_name(provider) {
        Ok(p) => Ok(p),
        Err(m) => Err(AppError::BadRequest(m)),
    }
}

/// The scopes of a login start: the comma-separated items, each trimmed
/// (empty ones kept), or none.
pub open spec fn requested_scopes_spec(scopes: Option<Seq<char>>) -> Seq<Seq<char>> {
    match scopes {
        Some(s) => split_spec(s, ',').map_values(|t: Seq<char>| trim_spec(t)),
        None => Seq::<Seq<char>>::empty(),
    }
}

pub fn requested_scopes(scopes: &Option<String>) -> (r: Vec<String>)
    ensures
        crate::text::string_views(r@) == requested_scopes_spec(crate::time::opt_view(*scopes)),
{
    let mut r: Vec<String> = Vec::new();
    match scopes {
        None => {
            assert(crate::text::string_views(r@) =~= Seq::<Seq<char>>::empty());
        },
        Some(s) => {
            let cs = chars_of(s.as_str());
            let parts = split_chars(cs.as_slice(), ',');
            let n = parts.len();
            let mut i: usize = 0;
            while i < n
                invariant
                    n == parts@.len(),
                    views(parts@) == split_spec(s@, ','),
                    i <= n,
                    crate::text::string_views(r@) == views(parts@).take(i as int).map_values(
                        |t: Seq<char>| trim_spec(t),
                    ),
                decreases n - i,
            {
                let t = trim_chars(parts[i].as_slice());
                let ghost before = r@;
                let ghost f = |t: Seq<char>| trim_spec(t);
                r.push(string_of(t.as_slice()));
                assert(views(parts@)[i as int] == parts@[i as int]@);
                assert(crate::text::string_views(r@) =~= crate::text::string_views(before).push(t@));
                assert(views(parts@).take(i + 1).map_values(f) =~= views(parts@).take(i as int).map_values(
                    f,
                ).push(trim_spec(views(parts@)[i as int])));
                i = i + 1;
            }
            assert(views(parts@).take(n as int) =~= views(parts@));
        },
    }
    r
}

/// The device a callback comes from: its user agent and languages, and the
/// subnet of its address.
pub fn device_info_for(user_agent: Option<&str>, accept_language: Option<&str>, ip: &str) -> (r: DeviceInfo)
    ensures
        crate::time::opt_view(r.user_agent) == crate::security::jwt::str_opt(user_agent),
        crate::time::opt_view(r.accept_language) == crate::security::jwt::str_opt(accept_language),
        crate::time::opt_view(r.ip_subnet) == subnet_spec(ip@),
{
    let ua = match user_agent {
        Some(u) => Some(owned(u)),
        None => None,
    };
    let lang = match accept_language {
        Some(l) => Some(owned(l)),
        None => None,
    };
    DeviceInfo { user_agent: ua, accept_language: lang, ip_subnet: DeviceInfo::extract_subnet(ip) }
}

/// The checks of a callback before its state is looked at, in order: the
/// address is locked out (too many requests); the provider reported an
/// error (passed on, with its description or an empty one); the provider
/// in the path is unknown.
pub fn callback_entry(lockout: &Option<AnomalyResult>, query: &OAuthCallbackQuery, provider: &str) -> (r: Result<
    ProviderName,
    ErrorReply,
>)
    ensures
        (lockout matches Some(a) && a is BruteForceDetected) ==> (r matches Err(e) && reply_is(
            e,
            429,
            "too_many_requests"@,
            "Too many failed attempts. Please try again later."@,
        )),
        !(lockout matches Some(a) && a is BruteForceDetected) && query.error is Some ==> (r matches Err(e)
            && e.status == 400 && e.error == query.error.unwrap() && e.error_description@ == (
        match query.error_description {
            Some(d) => d@,
            None => Seq::<char>::empty(),
        })),
        !(lockout matches Some(a) && a is BruteForceDetected) && query.error is None ==> (match r {
            Ok(p) => ProviderName::parse_spec(provider@) == Some(p),
            Err(e) => ProviderName::parse_spec(provider@) is None && reply_is(
                e,
                400,
                "invalid_provider"@,
                "Unknown provider: "@ + provider@,
            ),
        }),
{
    if let Some(AnomalyResult::BruteForceDetected { .. }) = lockout {
        return Err(
            ErrorReply::new(429, "too_many_requests", "Too many failed attempts. Please try again later."),
        );
    }
    if let Some(error) = &query.error {
        let description = match &query.error_description {
            Some(d) => owned(d.as_str()),
            None => String::new(),
        };
        return Err(ErrorReply { status: 400, error: error.clone(), error_description: description });
    }
    match ProviderName::parse_name(provider) {
        Ok(p) => Ok(p),
        Err(m) => Err(ErrorReply { status: 400, error: owned("invalid_provider"), error_description: m }),
    }
}

/// The answer when the state of a callback is not valid.
pub fn invalid_state_reply() -> (r: ErrorReply)
    ensures
        reply_is(r, 400, "invalid_state"@, "Invalid or expired state parameter"@),
{
    ErrorReply::new(400, "invalid_state", "Invalid or expired state parameter")
}

/// The answer when the provider exchange or the user's setup failed.
pub fn exchange_failed_reply() -> (r: ErrorReply)
    ensures
        reply_is(r, 500, "oauth_error"@, "Failed to complete OAuth flow"@),
{
    ErrorReply::new(500, "oauth_error", "Failed to complete OAuth flow")
}

/// How an anomaly is described in the audit log; nothing for a normal
/// login.
pub open spec fn anomaly_description_spec(a: AnomalyView) -> Option<Seq<char>> {
    match a {
        AnomalyView::Normal => None,
        AnomalyView::UnusualLocation(prev, cur) => Some(
            "Login from new IP: "@ + cur + " (previous: "@ + prev + ")"@,
        ),
        AnomalyView::ImpossibleTravel(prev, cur, m) => Some(
            "Suspicious location change: "@ + prev + " -> "@ + cur + " in "@ + signed_dec_spec(
                m as int,
            ) + " minutes"@,
        ),
        AnomalyView::UnusualPattern(reason) => Some("Unusual pattern: "@ + reason),
        AnomalyView::BruteForceDetected(_, _) => Some("Unknown anomaly"@),
    }
}

pub fn anomaly_description(a: &AnomalyResult) -> (r: Option<String>)
    ensures
        crate::time::opt_view(r) == anomaly_description_spec(a@),
        r is Some <==> !(a is Normal),
{
    match a {
        AnomalyResult::Normal => None,
        AnomalyResult::UnusualLocation { previous_ip, current_ip } => {
            let mut s = owned("Login from new IP: ");
            s.append(current_ip.as_str());
            s.append(" (previous: ");
            s.append(previous_ip.as_str());
            s.append(")");
            Some(s)
        },
        AnomalyResult::ImpossibleTravel { previous_location, current_location, time_diff_minutes } => {
            let mut s = owned("Suspicious location change: ");
            s.append(previous_location.as_str());
            s.append(" -> ");
            s.append(current_location.as_str());
            s.append(" in ");
            push_signed_dec(&mut s, *time_diff_minutes);
            s.append(" minutes");
            Some(s)
        },
        AnomalyResult::UnusualPattern { reason } => {
            let mut s = owned("Unusual pattern: ");
            s.append(reason.as_str());
            Some(s)
        },
        AnomalyResult::BruteForceDetected { .. } => Some(owned("Unknown anomaly")),
    }
}

/// The audit entry of an anomalous login.
pub fn anomaly_audit_log(user_id: &str, ip: &str, description: &str) -> (r: AuditLog)
    ensures
        r.event_type@ == AuditEventType::LoginAnomaly.name_spec(),
        r.user_id matches Some(u) && u@ == user_id@,
        r.ip_address@ == ip@,
        r.metadata matches Some(m) && m@ == crate::models::audit_log::json_member_text("details"@, description@),
{
    AuditLogBuilder::new(AuditEventType::LoginAnomaly).user_id(user_id).ip_address(ip).details(
        description,
    ).build()
}

/// How a completed login is answered.
#[derive(Debug, Clone)]
pub enum CallbackReply {
    /// A temporary redirect to this address.
    Redirect(String),
    /// The tokens and user as JSON.
    Tokens(OAuthCallbackResponse),
}

/// The redirect address that carries the tokens in its query.
pub open spec fn redirect_url_spec(uri: Seq<char>, pair: TokenPair) -> Seq<char> {
    uri + "?access_token="@ + pair.access_token@ + "&refresh_token="@ + pair.refresh_token@
        + "&token_type="@ + pair.token_type@ + "&expires_in="@ + signed_dec_spec(
        pair.expires_in as int,
    )
}

/// The answer to a completed login: a redirect carrying the tokens when the
/// login named an address to return to, else the tokens and user as JSON.
pub fn callback_reply(redirect_uri: Option<String>, user: User, pair: TokenPair) -> (r: CallbackReply)
    ensures
        redirect_uri matches Some(u) ==> (r matches CallbackReply::Redirect(url) && url@
            == redirect_url_spec(u@, pair)),
        redirect_uri is None ==> r == CallbackReply::Tokens(
            OAuthCallbackResponse {
                access_token: pair.access_token,
                refresh_token: pair.refresh_token,
                token_type: pair.token_type,
                expires_in: pair.expires_in,
                user: OAuthUserResponse {
                    id: user.id,
                    email: user.email,
                    display_name: user.display_name,
                    profile_picture_url: user.profile_picture_url,
                },
            },
        ),
{
    match redirect_uri {
        Some(uri) => {
            let mut s = uri;
            s.append("?access_token=");
            s.append(pair.access_token.as_str());
            s.append("&refresh_token=");
            s.append(pair.refresh_token.as_str());
            s.append("&token_type=");
            s.append(pair.token_type.as_str());
            s.append("&expires_in=");
            push_signed_dec(&mut s, pair.expires_in);
            CallbackReply::Redirect(s)
        },
        None => CallbackReply::Tokens(
            OAuthCallbackResponse {
                access_token: pair.access_token,
                refresh_token: pair.refresh_token,
                token_type: pair.token_type,
                expires_in: pair.expires_in,
                user: OAuthUserResponse {
                    id: user.id,
                    email: user.email,
                    display_name: user.display_name,
                    profile_picture_url: user.profile_picture_url,
                },
            },
        ),
    }
}

/// A provider callback as it arrived: the provider named in the path, the
/// query, the client's address and the headers that identify its device.
#[derive(Debug, Clone)]
pub struct CallbackRequest {
    pub provider: String,
    pub query: OAuthCallbackQuery,
    pub ip: String,
    pub user_agent: Option<String>,
    pub accept_language: Option<String>,
}

/// Where the handling of a callback stands between the steps that need the
/// outside world.
#[derive(Debug, Clone)]
pub enum CallbackStage {
    /// Waiting for the lockout of the address.
    Start,
    /// Waiting for the state token to be consumed; the provider and the
    /// device are known.
    ConsumingState { provider: ProviderName, device: DeviceInfo },
    /// Waiting for the provider exchange of the login the state belonged to.
    Exchanging { redirect_uri: Option<String> },
    /// Waiting for the anomaly check of the completed login.
    CheckingAnomaly { redirect_uri: Option<String>, user: User, pair: TokenPair },
    /// Answered.
    Done,
}

/// What the outside world reports back to a callback.
#[derive(Debug)]
pub enum CallbackEvent {
    /// The lockout of the address, if one lasts.
    Lockout(Option<AnomalyResult>),
    /// The project and return address of the login the state token
    /// belonged to, or why there is none.
    StateFound(Result<(String, Option<String>), AppError>),
    /// The user and tokens of the completed exchange, or why it failed.
    Exchanged(Result<(User, TokenPair), AppError>),
    /// The anomaly check of the login (which also records it).
    Checked(AnomalyResult),
}

/// What a callback does next.
#[derive(Debug)]
pub enum CallbackAction {
    /// Consume this state token.
    ConsumeState(String),
    /// Exchange the code with the provider and set up the user, for the
    /// project, with tokens bound to the device.
    Exchange { provider: ProviderName, code: String, client_project: String, device: DeviceInfo },
    /// Check the user's login from the address for anomalies, and record it.
    CheckAnomaly(String),
    /// Count a failed attempt against the address, then answer with the error.
    RecordFailure(ErrorReply),
    /// Answer with the error.
    Refuse(ErrorReply),
    /// Write the audit entry, if there is one, then answer.
    Complete(Option<AuditLog>, CallbackReply),
}

/// Whether an event answers what the stage waits for.
pub open spec fn step_fits(stage: CallbackStage, event: CallbackEvent) -> bool {
    ||| stage is Start && event is Lockout
    ||| stage is ConsumingState && event is StateFound
    ||| stage is Exchanging && event is Exchanged
    ||| stage is CheckingAnomaly && event is Checked
}

/// Whether a lockout lasts.
pub open spec fn locked_out(lockout: Option<AnomalyResult>) -> bool {
    lockout matches Some(a) && a is BruteForceDetected
}

/// The device of a callback: its user agent and languages, and the subnet
/// of its address.
pub open spec fn device_of(d: DeviceInfo, req: CallbackRequest) -> bool {
    &&& crate::time::opt_view(d.user_agent) == crate::time::opt_view(req.user_agent)
    &&& crate::time::opt_view(d.accept_language) == crate::time::opt_view(req.accept_language)
    &&& crate::time::opt_view(d.ip_subnet) == subnet_spec(req.ip@)
}

/// The audit entry of an anomalous login of the user from the address.
pub open spec fn anomaly_entry(log: AuditLog, user_id: Seq<char>, ip: Seq<char>, description: Seq<char>) -> bool {
    &&& log.event_type@ == AuditEventType::LoginAnomaly.name_spec()
    &&& log.user_id matches Some(u) && u@ == user_id
    &&& log.ip_address@ == ip
    &&& log.metadata matches Some(m) && m@ == crate::models::audit_log::json_member_text("details"@, description)
}

/// The answer to a completed login, as `callback_reply` gives it.
pub open spec fn completed_reply(reply: CallbackReply, redirect_uri: Option<String>, user: User, pair: TokenPair) -> bool {
    match redirect_uri {
        Some(u) => reply matches CallbackReply::Redirect(url) && url@ == redirect_url_spec(u@, pair),
        None => reply == CallbackReply::Tokens(
            OAuthCallbackResponse {
                access_token: pair.access_token,
                refresh_token: pair.refresh_token,
                token_type: pair.token_type,
                expires_in: pair.expires_in,
                user: OAuthUserResponse {
                    id: user.id,
                    email: user.email,
                    display_name: user.display_name,
                    profile_picture_url: user.profile_picture_url,
                },
            },
        ),
    }
}

fn opt_str(s: &Option<String>) -> (r: Option<&str>)
    ensures
        crate::security::jwt::str_opt(r) == crate::time::opt_view(*s),
{
    match s {
        Some(t) => Some(t.as_str()),
        None => None,
    }
}

/// One step of a provider callback: from where it stands and what the
/// outside world reported, where it stands next and what to do. In order:
/// a locked-out address is refused (too many requests); an error reported
/// by the provider is passed on; an unknown provider is refused; the state
/// token is consumed, and an unknown or expired one is refused; the code is
/// exchanged, and a failed exchange is counted against the address before
/// the refusal; the login is checked for anomalies; the callback completes
/// with an audit entry for an anomalous login, and the tokens (as a redirect
/// when the login named a return address).
pub fn callback_step(stage: CallbackStage, event: CallbackEvent, req: &CallbackRequest) -> (r: (
    CallbackStage,
    CallbackAction,
))
    requires
        step_fits(stage, event),
    ensures
        stage is Start ==> (event matches CallbackEvent::Lockout(l) ==> {
            if locked_out(l) {
                &&& r.0 is Done
                &&& r.1 matches CallbackAction::Refuse(e) && reply_is(
                    e,
                    429,
                    "too_many_requests"@,
                    "Too many failed attempts. Please try again later."@,
                )
            } else if req.query.error is Some {
                &&& r.0 is Done
                &&& r.1 matches CallbackAction::Refuse(e) && e.status == 400 && e.error
                    == req.query.error.unwrap() && e.error_description@ == (match req.query.error_description {
                    Some(d) => d@,
                    None => Seq::<char>::empty(),
                })
            } else {
                match ProviderName::parse_spec(req.provider@) {
                    None => r.0 is Done && (r.1 matches CallbackAction::Refuse(e) && reply_is(
                        e,
                        400,
                        "invalid_provider"@,
                        "Unknown provider: "@ + req.provider@,
                    )),
                    Some(p) => (r.0 matches CallbackStage::ConsumingState { provider, device } && provider
                        == p && device_of(device, *req)) && r.1 == CallbackAction::ConsumeState(
                        req.query.state,
                    ),
                }
            }
        }),
        stage matches CallbackStage::ConsumingState { provider, device } ==> (
        event matches CallbackEvent::StateFound(found) ==> match found {
            Err(_) => r.0 is Done && (r.1 matches CallbackAction::Refuse(e) && reply_is(
                e,
                400,
                "invalid_state"@,
                "Invalid or expired state parameter"@,
            )),
            Ok((project, uri)) => r.0 == CallbackStage::Exchanging { redirect_uri: uri } && r.1
                == CallbackAction::Exchange { provider, code: req.query.code, client_project: project, device },
        }),
        stage matches CallbackStage::Exchanging { redirect_uri } ==> (
        event matches CallbackEvent::Exchanged(res) ==> match res {
            Err(_) => r.0 is Done && (r.1 matches CallbackAction::RecordFailure(e) && reply_is(
                e,
                500,
                "oauth_error"@,
                "Failed to complete OAuth flow"@,
            )),
            Ok((user, pair)) => r.0 == CallbackStage::CheckingAnomaly { redirect_uri, user, pair } && r.1
                == CallbackAction::CheckAnomaly(user.id),
        }),
        stage matches CallbackStage::CheckingAnomaly { redirect_uri, user, pair } ==> (
        event matches CallbackEvent::Checked(a) ==> {
            &&& r.0 is Done
            &&& r.1 matches CallbackAction::Complete(log, reply)
            &&& (log is Some <==> !(a is Normal))
            &&& (log matches Some(g) ==> anomaly_entry(
                g,
                user.id@,
                req.ip@,
                anomaly_description_spec(a@).unwrap(),
            ))
            &&& completed_reply(reply, redirect_uri, user, pair)
        }),
{
    match (stage, event) {
        (CallbackStage::Start, CallbackEvent::Lockout(lockout)) => {
            let device = device_info_for(
                opt_str(&req.user_agent),
                opt_str(&req.accept_language),
                req.ip.as_str(),
            );
            match callback_entry(&lockout, &req.query, req.provider.as_str()) {
                Err(e) => (CallbackStage::Done, CallbackAction::Refuse(e)),
                Ok(p) => (
                    CallbackStage::ConsumingState { provider: p, device },
                    CallbackAction::ConsumeState(req.query.state.clone()),
                ),
            }
        },
        (CallbackStage::ConsumingState { provider, device }, CallbackEvent::StateFound(found)) => {
            match found {
                Err(_) => (CallbackStage::Done, CallbackAction::Refuse(invalid_state_reply())),
                Ok((project, uri)) => (
                    CallbackStage::Exchanging { redirect_uri: uri },
                    CallbackAction::Exchange {
                        provider,
                        code: req.query.code.clone(),
                        client_project: project,
                        device,
                    },
                ),
            }
        },
        (CallbackStage::Exchanging { redirect_uri }, CallbackEvent::Exchanged(res)) => {
            match res {
                Err(_) => (CallbackStage::Done, CallbackAction::RecordFailure(exchange_failed_reply())),
                Ok((user, pair)) => {
                    let id = user.id.clone();
                    (CallbackStage::CheckingAnomaly { redirect_uri, user, pair }, CallbackAction::CheckAnomaly(id))
                },
            }
        },
        (CallbackStage::CheckingAnomaly { redirect_uri, user, pair }, CallbackEvent::Checked(a)) => {
            let log = match anomaly_description(&a) {
                Some(d) => Some(anomaly_audit_log(user.id.as_str(), req.ip.as_str(), d.as_str())),
                None => None,
            };
            (CallbackStage::Done, CallbackAction::Complete(log, callback_reply(redirect_uri, user, pair)))
        },
        (_, _) => {
            proof {
                assert(false);
            }
            (CallbackStage::Done, CallbackAction::Refuse(exchange_failed_reply()))
        },
    }
}

} // verus!
