//! Audit log entries and the kinds of event they record.

use vstd::prelude::*;
use crate::text::owned;
use crate::time::{new_uuid, now_rfc3339, opt_view, uuid_v4_text, rfc3339_text, Instant};

verus! {

#[derive(Debug, Clone, Copy, PartialEq, Eq, Structural)]
pub enum AuditEventType {
    OAuthInitiated,
    OAuthCallback,
    OAuthSuccess,
    OAuthFailure,
    TokenIssued,
    TokenRefreshed,
    TokenRevoked,
    TokenValidated,
    TokenValidationFailed,
    UserCreated,
    UserUpdated,
    UserDeleted,
    UserLogin,
    UserLogout,
    ApiKeyValidated,
    ApiKeyInvalid,
    ApiKeyExpired,
    RateLimitExceeded,
    IpBlocked,
    IpWhitelisted,
    UnauthorizedAccess,
    AdminAction,
    LoginAnomaly,
    BruteForceDetected,
}

impl AuditEventType {
    pub open spec fn name_spec(self) -> Seq<char> {
        match self {
            AuditEventType::OAuthInitiated => "OAUTH_INITIATED"@,
            AuditEventType::OAuthCallback => "OAUTH_CALLBACK"@,
            AuditEventType::OAuthSuccess => "OAUTH_SUCCESS"@,
            AuditEventType::OAuthFailure => "OAUTH_FAILURE"@,
            AuditEventType::TokenIssued => "TOKEN_ISSUED"@,
            AuditEventType::TokenRefreshed => "TOKEN_REFRESHED"@,
            AuditEventType::TokenRevoked => "TOKEN_REVOKED"@,
            AuditEventType::TokenValidated => "TOKEN_VALIDATED"@,
            AuditEventType::TokenValidationFailed => "TOKEN_VALIDATION_FAILED"@,
            AuditEventType::UserCreated => "USER_CREATED"@,
            AuditEventType::UserUpdated => "USER_UPDATED"@,
            AuditEventType::UserDeleted => "USER_DELETED"@,
            AuditEventType::UserLogin => "USER_LOGIN"@,
            AuditEventType::UserLogout => "USER_LOGOUT"@,
            AuditEventType::ApiKeyValidated => "API_KEY_VALIDATED"@,
            AuditEventType::ApiKeyInvalid => "API_KEY_INVALID"@,
            AuditEventType::ApiKeyExpired => "API_KEY_EXPIRED"@,
            AuditEventType::RateLimitExceeded => "RATE_LIMIT_EXCEEDED"@,
            AuditEventType::IpBlocked => "IP_BLOCKED"@,
            AuditEventType::IpWhitelisted => "IP_WHITELISTED"@,
            AuditEventType::UnauthorizedAccess => "UNAUTHORIZED_ACCESS"@,
            AuditEventType::AdminAction => "ADMIN_ACTION"@,
            AuditEventType::LoginAnomaly => "LOGIN_ANOMALY"@,
            AuditEventType::BruteForceDetected => "BRUTE_FORCE_DETECTED"@,
        }
    }

    /// The event's name in the log (upper snake case).
    pub fn as_str(&self) -> (r: &'static str)
        ensures
            r@ == self.name_spec(),
    {
        match self {
            AuditEventType::OAuthInitiated => "OAUTH_INITIATED",
            AuditEventType::OAuthCallback => "OAUTH_CALLBACK",
            AuditEventType::OAuthSuccess => "OAUTH_SUCCESS",
            AuditEventType::OAuthFailure => "OAUTH_FAILURE",
            AuditEventType::TokenIssued => "TOKEN_ISSUED",
            AuditEventType::TokenRefreshed => "TOKEN_REFRESHED",
            AuditEventType::TokenRevoked => "TOKEN_REVOKED",
            AuditEventType::TokenValidated => "TOKEN_VALIDATED",
            AuditEventType::TokenValidationFailed => "TOKEN_VALIDATION_FAILED",
            AuditEventType::UserCreated => "USER_CREATED",
            AuditEventType::UserUpdated => "USER_UPDATED",
            AuditEventType::UserDeleted => "USER_DELETED",
            AuditEventType::UserLogin => "USER_LOGIN",
            AuditEventType::UserLogout => "USER_LOGOUT",
            AuditEventType::ApiKeyValidated => "API_KEY_VALIDATED",
            AuditEventType::ApiKeyInvalid => "API_KEY_INVALID",
            AuditEventType::ApiKeyExpired => "API_KEY_EXPIRED",
            AuditEventType::RateLimitExceeded => "RATE_LIMIT_EXCEEDED",
            AuditEventType::IpBlocked => "IP_BLOCKED",
            AuditEventType::IpWhitelisted => "IP_WHITELISTED",
            AuditEventType::UnauthorizedAccess => "UNAUTHORIZED_ACCESS",
            AuditEventType::AdminAction => "ADMIN_ACTION",
            AuditEventType::LoginAnomaly => "LOGIN_ANOMALY",
            AuditEventType::BruteForceDetected => "BRUTE_FORCE_DETECTED",
        }
    }
}

/// A serde_json `Value`, carried through as is.
#[verifier::external_type_specification]
#[verifier::external_body]
pub struct ExJsonValue(serde_json::Value);

/// serde_json's compact rendering of a JSON value (`Value::to_string`).
/// The value is opaque here, so nothing is stated of the text.
#[verifier::external_body]
pub(crate) fn json_text(v: &serde_json::Value) -> (r: String) {
    v.to_string()
}

/// The compact JSON text of an object with one string member (`key` to
/// `value`) as serde_json writes it (both strings escaped by JSON's rules).
pub uninterp spec fn json_member_text(key: Seq<char>, value: Seq<char>) -> Seq<char>;

/// serde_json: the object with the one string member `key` set to `value`,
/// rendered compactly (`Value::to_string`). Its result is named.
#[verifier::external_body]
pub(crate) fn json_member(key: &str, value: &str) -> (r: String)
    ensures
        r@ == json_member_text(key@, value@),
{
    let mut m = serde_json::Map::new();
    m.insert(key.to_string(), serde_json::Value::String(value.to_string()));
    serde_json::Value::Object(m).to_string()
}

#[derive(Debug, Clone)]
pub struct AuditLog {
    pub id: String,
    pub timestamp: String,
    pub event_type: String,
    pub user_id: Option<String>,
    pub ip_address: String,
    pub user_agent: Option<String>,
    pub request_id: Option<String>,
    pub endpoint: Option<String>,
    pub http_method: Option<String>,
    pub status_code: Option<i32>,
    pub error_message: Option<String>,
    pub metadata: Option<String>,
}

/// An audit entry as values.
pub struct AuditLogView {
    pub id: Seq<char>,
    pub timestamp: Seq<char>,
    pub event_type: Seq<char>,
    pub user_id: Option<Seq<char>>,
    pub ip_address: Seq<char>,
    pub user_agent: Option<Seq<char>>,
    pub request_id: Option<Seq<char>>,
    pub endpoint: Option<Seq<char>>,
    pub http_method: Option<Seq<char>>,
    pub status_code: Option<i32>,
    pub error_message: Option<Seq<char>>,
    pub metadata: Option<Seq<char>>,
}

impl View for AuditLog {
    type V = AuditLogView;

    open spec fn view(&self) -> AuditLogView {
        AuditLogView {
            id: self.id@,
            timestamp: self.timestamp@,
            event_type: self.event_type@,
            user_id: opt_view(self.user_id),
            ip_address: self.ip_address@,
            user_agent: opt_view(self.user_agent),
            request_id: opt_view(self.request_id),
            endpoint: opt_view(self.endpoint),
            http_method: opt_view(self.http_method),
            status_code: self.status_code,
            error_message: opt_view(self.error_message),
            metadata: opt_view(self.metadata),
        }
    }
}

/// What one setter of the builder writes: the field and its new value
/// (metadata as its JSON text).
pub enum AuditField {
    UserId(Seq<char>),
    IpAddress(Seq<char>),
    Metadata(Seq<char>),
    RequestId(Seq<char>),
    Endpoint(Seq<char>),
    HttpMethod(Seq<char>),
    UserAgent(Seq<char>),
    StatusCode(i32),
    ErrorMessage(Seq<char>),
}

/// Which field a setter writes, as a number.
pub open spec fn field_kind(f: AuditField) -> int {
    match f {
        AuditField::UserId(_) => 0,
        AuditField::IpAddress(_) => 1,
        AuditField::Metadata(_) => 2,
        AuditField::RequestId(_) => 3,
        AuditField::Endpoint(_) => 4,
        AuditField::HttpMethod(_) => 5,
        AuditField::UserAgent(_) => 6,
        AuditField::StatusCode(_) => 7,
        AuditField::ErrorMessage(_) => 8,
    }
}

/// An entry with one field written.
pub open spec fn set_field(v: AuditLogView, f: AuditField) -> AuditLogView {
    match f {
        AuditField::UserId(s) => AuditLogView { user_id: Some(s), ..v },
        AuditField::IpAddress(s) => AuditLogView { ip_address: s, ..v },
        AuditField::Metadata(s) => AuditLogView { metadata: Some(s), ..v },
        AuditField::RequestId(s) => AuditLogView { request_id: Some(s), ..v },
        AuditField::Endpoint(s) => AuditLogView { endpoint: Some(s), ..v },
        AuditField::HttpMethod(s) => AuditLogView { http_method: Some(s), ..v },
        AuditField::UserAgent(s) => AuditLogView { user_agent: Some(s), ..v },
        AuditField::StatusCode(c) => AuditLogView { status_code: Some(c), ..v },
        AuditField::ErrorMessage(s) => AuditLogView { error_message: Some(s), ..v },
    }
}

/// An entry with the fields written one after the other.
pub open spec fn set_fields(v: AuditLogView, fs: Seq<AuditField>) -> AuditLogView
    decreases fs.len(),
{
    if fs.len() == 0 {
        v
    } else {
        set_field(set_fields(v, fs.drop_last()), fs.last())
    }
}

/// Whether an entry holds the value that a setter writes.
pub open spec fn field_holds(v: AuditLogView, f: AuditField) -> bool {
    match f {
        AuditField::UserId(s) => v.user_id == Some(s),
        AuditField::IpAddress(s) => v.ip_address == s,
        AuditField::Metadata(s) => v.metadata == Some(s),
        AuditField::RequestId(s) => v.request_id == Some(s),
        AuditField::Endpoint(s) => v.endpoint == Some(s),
        AuditField::HttpMethod(s) => v.http_method == Some(s),
        AuditField::UserAgent(s) => v.user_agent == Some(s),
        AuditField::StatusCode(c) => v.status_code == Some(c),
        AuditField::ErrorMessage(s) => v.error_message == Some(s),
    }
}

/// Whether two entries agree on the field of the given kind.
pub open spec fn field_same(a: AuditLogView, b: AuditLogView, kind: int) -> bool {
    if kind == 0 {
        a.user_id == b.user_id
    } else if kind == 1 {
        a.ip_address == b.ip_address
    } else if kind == 2 {
        a.metadata == b.metadata
    } else if kind == 3 {
        a.request_id == b.request_id
    } else if kind == 4 {
        a.endpoint == b.endpoint
    } else if kind == 5 {
        a.http_method == b.http_method
    } else if kind == 6 {
        a.user_agent == b.user_agent
    } else if kind == 7 {
        a.status_code == b.status_code
    } else if kind == 8 {
        a.error_message == b.error_message
    } else {
        true
    }
}

impl AuditLog {
    /// A new entry of the given kind from an address, with a fresh id and
    /// the current time; every optional field is empty.
    pub fn new(event_type: AuditEventType, ip_address: String) -> (r: Self)
        ensures
            r.id@.len() == 36,
            uuid_v4_text(r.id@),
            exists|t: Instant| t.wf() && r.timestamp@ == #[trigger] rfc3339_text(t.secs, t.nanos),
            r.event_type@ == event_type.name_spec(),
            r.ip_address == ip_address,
            r.user_id is None,
            r.user_agent is None,
            r.request_id is None,
            r.endpoint is None,
            r.http_method is None,
            r.status_code is None,
            r.error_message is None,
            r.metadata is None,
    {
        AuditLog {
            id: new_uuid(),
            timestamp: now_rfc3339(),
            event_type: owned(event_type.as_str()),
            user_id: None,
            ip_address,
            user_agent: None,
            request_id: None,
            endpoint: None,
            http_method: None,
            status_code: None,
            error_message: None,
            metadata: None,
        }
    }

    pub fn with_user(self, user_id: String) -> (r: Self)
        ensures
            r == (AuditLog { user_id: Some(user_id), ..self }),
    {
        let mut s = self;
        s.user_id = Some(user_id);
        s
    }

    pub fn with_request_info(self, request_id: Option<String>, endpoint: String, http_method: String) -> (r: Self)
        ensures
            r == (AuditLog {
                request_id,
                endpoint: Some(endpoint),
                http_method: Some(http_method),
                ..self
            }),
    {
        let mut s = self;
        s.request_id = request_id;
        s.endpoint = Some(endpoint);
        s.http_method = Some(http_method);
        s
    }

    pub fn with_user_agent(self, user_agent: String) -> (r: Self)
        ensures
            r == (AuditLog { user_agent: Some(user_agent), ..self }),
    {
        let mut s = self;
        s.user_agent = Some(user_agent);
        s
    }

    pub fn with_status_code(self, status_code: i32) -> (r: Self)
        ensures
            r == (AuditLog { status_code: Some(status_code), ..self }),
    {
        let mut s = self;
        s.status_code = Some(status_code);
        s
    }

    pub fn with_error(self, error_message: String) -> (r: Self)
        ensures
            r == (AuditLog { error_message: Some(error_message), ..self }),
    {
        let mut s = self;
        s.error_message = Some(error_message);
        s
    }

    /// Stores the JSON text of `metadata`; every other field is kept.
    pub fn with_metadata(self, metadata: &serde_json::Value) -> (r: Self)
        ensures
            r.metadata is Some,
            r == (AuditLog { metadata: r.metadata, ..self }),
    {
        let mut s = self;
        s.metadata = Some(json_text(metadata));
        s
    }
}

/// Builds an audit entry field by field.
#[derive(Debug)]
pub struct AuditLogBuilder {
    log: AuditLog,
}

impl AuditLogBuilder {
    /// The entry built so far.
    pub closed spec fn entry(self) -> AuditLog {
        self.log
    }

    /// A builder for an entry of the given kind with an empty address.
    pub fn new(event_type: AuditEventType) -> (r: Self)
        ensures
            r.entry().event_type@ == event_type.name_spec(),
            r.entry().ip_address@ == Seq::<char>::empty(),
            r.entry().id@.len() == 36,
            uuid_v4_text(r.entry().id@),
            exists|t: Instant| t.wf() && r.entry().timestamp@ == #[trigger] rfc3339_text(t.secs, t.nanos),
            r.entry().user_id is None,
            r.entry().user_agent is None,
            r.entry().request_id is None,
            r.entry().endpoint is None,
            r.entry().http_method is None,
            r.entry().status_code is None,
            r.entry().error_message is None,
            r.entry().metadata is None,
    {
        AuditLogBuilder { log: AuditLog::new(event_type, String::new()) }
    }

    pub fn user_id(self, user_id: &str) -> (r: Self)
        ensures
            r.entry().user_id matches Some(u) && u@ == user_id@,
            r.entry() == (AuditLog { user_id: r.entry().user_id, ..self.entry() }),
            r.entry()@ == set_field(self.entry()@, AuditField::UserId(user_id@)),
    {
        let mut s = self;
        s.log.user_id = Some(owned(user_id));
        s
    }

    pub fn ip_address(self, ip: &str) -> (r: Self)
        ensures
            r.entry().ip_address@ == ip@,
            r.entry() == (AuditLog { ip_address: r.entry().ip_address, ..self.entry() }),
            r.entry()@ == set_field(self.entry()@, AuditField::IpAddress(ip@)),
    {
        let mut s = self;
        s.log.ip_address = owned(ip);
        s
    }

    /// Stores `{"details": details}` as the entry's JSON metadata.
    pub fn details(self, details: &str) -> (r: Self)
        ensures
            r.entry().metadata matches Some(m) && m@ == json_member_text("details"@, details@),
            r.entry() == (AuditLog { metadata: r.entry().metadata, ..self.entry() }),
            r.entry()@ == set_field(self.entry()@, AuditField::Metadata(json_member_text("details"@, details@))),
    {
        let mut s = self;
        s.log.metadata = Some(json_member("details", details));
        s
    }

    pub fn request_id(self, request_id: &str) -> (r: Self)
        ensures
            r.entry().request_id matches Some(u) && u@ == request_id@,
            r.entry() == (AuditLog { request_id: r.entry().request_id, ..self.entry() }),
            r.entry()@ == set_field(self.entry()@, AuditField::RequestId(request_id@)),
    {
        let mut s = self;
        s.log.request_id = Some(owned(request_id));
        s
    }

    pub fn endpoint(self, endpoint: &str) -> (r: Self)
        ensures
            r.entry().endpoint matches Some(u) && u@ == endpoint@,
            r.entry() == (AuditLog { endpoint: r.entry().endpoint, ..self.entry() }),
            r.entry()@ == set_field(self.entry()@, AuditField::Endpoint(endpoint@)),
    {
        let mut s = self;
        s.log.endpoint = Some(owned(endpoint));
        s
    }

    pub fn http_method(self, method: &str) -> (r: Self)
        ensures
            r.entry().http_method matches Some(u) && u@ == method@,
            r.entry() == (AuditLog { http_method: r.entry().http_method, ..self.entry() }),
            r.entry()@ == set_field(self.entry()@, AuditField::HttpMethod(method@)),
    {
        let mut s = self;
        s.log.http_method = Some(owned(method));
        s
    }

    pub fn user_agent(self, user_agent: &str) -> (r: Self)
        ensures
            r.entry().user_agent matches Some(u) && u@ == user_agent@,
            r.entry() == (AuditLog { user_agent: r.entry().user_agent, ..self.entry() }),
            r.entry()@ == set_field(self.entry()@, AuditField::UserAgent(user_agent@)),
    {
        let mut s = self;
        s.log.user_agent = Some(owned(user_agent));
        s
    }

    pub fn status_code(self, code: i32) -> (r: Self)
        ensures
            r.entry() == (AuditLog { status_code: Some(code), ..self.entry() }),
            r.entry()@ == set_field(self.entry()@, AuditField::StatusCode(code)),
    {
        let mut s = self;
        s.log.status_code = Some(code);
        s
    }

    pub fn error(self, error: &str) -> (r: Self)
        ensures
            r.entry().error_message matches Some(u) && u@ == error@,
            r.entry() == (AuditLog { error_message: r.entry().error_message, ..self.entry() }),
            r.entry()@ == set_field(self.entry()@, AuditField::ErrorMessage(error@)),
    {
        let mut s = self;
        s.log.error_message = Some(owned(error));
        s
    }

    /// Stores the JSON text of `metadata`; every other field is kept.
    pub fn metadata(self, metadata: &serde_json::Value) -> (r: Self)
        ensures
            r.entry().metadata is Some,
            r.entry() == (AuditLog { metadata: r.entry().metadata, ..self.entry() }),
            r.entry()@ == set_field(self.entry()@, AuditField::Metadata(r.entry().metadata.unwrap()@)),
    {
        let mut s = self;
        s.log.metadata = Some(json_text(metadata));
        s
    }

    pub fn build(self) -> (r: AuditLog)
        ensures
            r == self.entry(),
    {
        self.log
    }
}


/// Writing one field: the entry holds the value written, every field of
/// another kind keeps its value (as does what another setter wrote there),
/// and the id, time and kind of event stay.
proof fn lemma_set_field_facts(v: AuditLogView, f: AuditField)
    ensures
        field_holds(set_field(v, f), f),
        forall|k: int| k != field_kind(f) ==> #[trigger] field_same(set_field(v, f), v, k),
        forall|g: AuditField|
            field_kind(g) != field_kind(f) ==> #[trigger] field_holds(set_field(v, f), g) == field_holds(v, g),
        set_field(v, f).id == v.id,
        set_field(v, f).timestamp == v.timestamp,
        set_field(v, f).event_type == v.event_type,
{
}

/// Setters of different fields commute.
pub proof fn lemma_setters_commute(v: AuditLogView, a: AuditField, b: AuditField)
    requires
        field_kind(a) != field_kind(b),
    ensures
        set_field(set_field(v, a), b) == set_field(set_field(v, b), a),
{
}

/// Of two setters of the same field, the later one wins.
pub proof fn lemma_last_setter_wins(v: AuditLogView, a: AuditField, b: AuditField)
    requires
        field_kind(a) == field_kind(b),
    ensures
        set_field(set_field(v, a), b) == set_field(v, b),
{
}

/// After any run of setters, each field holds the value of the last setter
/// of it, a field no setter wrote keeps the value it had (its value from
/// `AuditLogBuilder::new`), and the id, time and kind of event never change.
pub proof fn lemma_built_entry(v: AuditLogView, fs: Seq<AuditField>)
    ensures
        forall|i: int|
            0 <= i < fs.len() && (forall|j: int| i < j < fs.len() ==> field_kind(#[trigger] fs[j]) != field_kind(fs[i]))
                ==> field_holds(set_fields(v, fs), #[trigger] fs[i]),
        forall|k: int|
            (forall|i: int| 0 <= i < fs.len() ==> field_kind(#[trigger] fs[i]) != k) ==> #[trigger] field_same(
                set_fields(v, fs),
                v,
                k,
            ),
        set_fields(v, fs).id == v.id,
        set_fields(v, fs).timestamp == v.timestamp,
        set_fields(v, fs).event_type == v.event_type,
    decreases fs.len(),
{
    if fs.len() > 0 {
        let prev = fs.drop_last();
        let f = fs.last();
        lemma_built_entry(v, prev);
        let before = set_fields(v, prev);
        let after = set_fields(v, fs);
        lemma_set_field_facts(before, f);
        assert forall|i: int|
            0 <= i < fs.len() && (forall|j: int| i < j < fs.len() ==> field_kind(#[trigger] fs[j]) != field_kind(fs[i]))
                implies field_holds(after, #[trigger] fs[i]) by {
            if i < fs.len() - 1 {
                assert(field_kind(fs[fs.len() - 1]) != field_kind(fs[i]));
                assert(prev[i] == fs[i]);
                assert forall|j: int| i < j < prev.len() implies field_kind(#[trigger] prev[j]) != field_kind(prev[i]) by {
                    assert(prev[j] == fs[j]);
                }
                assert(field_holds(before, prev[i]));
                assert(field_holds(after, fs[i]) == field_holds(before, fs[i]));
            }
        }
        assert forall|k: int|
            (forall|i: int| 0 <= i < fs.len() ==> field_kind(#[trigger] fs[i]) != k) implies #[trigger] field_same(
                after,
                v,
                k,
            ) by {
            assert(field_kind(fs[fs.len() - 1]) != k);
            assert forall|i: int| 0 <= i < prev.len() implies field_kind(#[trigger] prev[i]) != k by {
                assert(prev[i] == fs[i]);
            }
            assert(field_same(before, v, k));
            assert(field_same(after, before, k));
        }
    }
}

} // verus!
