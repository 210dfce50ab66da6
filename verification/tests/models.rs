use auth_service::config::{
    default_access_token_expiration, default_admin_ip_whitelist, default_connection_timeout, default_enabled,
    default_global_per_minute, default_key_id, default_log_format, default_log_level, default_max_connections,
    default_min_connections, default_oauth_init_per_minute, default_refresh_token_expiration, default_request_timeout,
    default_require_https,
};
use auth_service::error::AppError;
use auth_service::models::{
    ApiKey, AuditEventType, AuditLog, AuditLogBuilder, DeviceInfo, FilterType, IpFilter, OAuthProvider, ProviderName,
    UpdateUserRequest, User, ValidatedApiKey,
};
use auth_service::text::{comma_list, join_strings};
use auth_service::time::Instant;

#[test]
fn configuration_defaults() {
    assert_eq!(default_request_timeout(), 30);
    assert_eq!(default_max_connections(), 5);
    assert_eq!(default_min_connections(), 1);
    assert_eq!(default_connection_timeout(), 5);
    assert_eq!(default_access_token_expiration(), 15);
    assert_eq!(default_refresh_token_expiration(), 30);
    assert!(default_enabled());
    assert!(!default_require_https());
    assert_eq!(default_global_per_minute(), 100);
    assert_eq!(default_oauth_init_per_minute(), 10);
    assert_eq!(default_key_id(), "key-1");
    assert_eq!(default_log_level(), "info");
    assert_eq!(default_log_format(), "pretty");
    assert_eq!(default_admin_ip_whitelist(), "127.0.0.1,::1");
}

#[test]
fn error_answers() {
    let (status, body) = AppError::NotFound("User not found".into()).error_response();
    assert_eq!(status, 404);
    assert_eq!(body.error, "Not Found");
    assert_eq!(body.error_description, "User not found");
    assert_eq!(body.error_code.as_deref(), Some("NOT_FOUND"));
    let (status, body) = AppError::InternalServerError("secret detail".into()).error_response();
    assert_eq!(status, 500);
    assert_eq!(body.error_description, "An internal server error occurred");
    assert_eq!(AppError::RateLimitExceeded.status(), 429);
    assert_eq!(AppError::DeviceMismatch.status(), 401);
    assert_eq!(AppError::OAuth("x".into()).to_message(), "OAuth error: x");
}

#[test]
fn api_key_origins() {
    let k = ApiKey::new("h".into(), "bib_abcd".into(), "n".into(), "p".into(), &["https://a".into(), " https://b ".into(), "".into()]);
    assert_eq!(k.allowed_origins, "https://a, https://b ,");
    assert_eq!(k.get_allowed_origins(), vec!["https://a", "https://b"]);
    assert!(k.is_origin_allowed("https://b"));
    assert!(!k.is_origin_allowed("https://c"));
    let any = ApiKey::new("h".into(), "p".into(), "n".into(), "p".into(), &["*".into()]);
    assert!(any.is_origin_allowed("https://anything"));
    let v = ValidatedApiKey::from_key(k.clone());
    assert_eq!(v.allowed_origins, vec!["https://a", "https://b"]);
    assert_eq!(v.rate_limit_per_minute, 60);
}

#[test]
fn api_key_expiry() {
    let k = ApiKey::new("h".into(), "p".into(), "n".into(), "p".into(), &[]);
    assert!(!k.is_expired_at(Instant { secs: 0, nanos: 0 }));
    let e = k.with_expiration("2020-01-01T00:00:00Z".into());
    assert!(e.is_expired_at(Instant { secs: 1_600_000_000, nanos: 0 }));
    assert!(!e.is_expired_at(Instant { secs: 1_500_000_000, nanos: 0 }));
    let bad = ApiKey::new("h".into(), "p".into(), "n".into(), "p".into(), &[]).with_expiration("soon".into());
    assert!(!bad.is_expired_at(Instant { secs: 1_600_000_000, nanos: 0 }));
}

#[test]
fn ip_filters() {
    let f = IpFilter::new("1.2.3.4".into(), FilterType::Blacklist, None);
    assert_eq!(f.get_filter_type(), Some(FilterType::Blacklist));
    assert!(f.is_active);
    assert_eq!(f.id.len(), 36);
    let g = f.with_expiration("2000-01-01T00:00:00Z".into());
    assert!(g.is_expired_at(Instant { secs: 1_000_000_000, nanos: 0 }));
    assert_eq!(FilterType::Whitelist.as_str(), "whitelist");
}

#[test]
fn providers_and_users() {
    assert_eq!(ProviderName::Github.as_str(), "github");
    assert_eq!(ProviderName::parse_name("GITHUB").unwrap(), ProviderName::Github);
    let p = OAuthProvider::new("u".into(), ProviderName::Google, "id".into()).with_scope("s".into());
    assert_eq!(p.provider_name, "google");
    assert_eq!(p.scope.as_deref(), Some("s"));
    let u = User::new("e@x".into(), None, None);
    assert!(u.is_active && !u.email_verified);
    assert!(u.with_email_verified().email_verified);
    assert!(UpdateUserRequest { display_name: Some("Ann".into()) }.is_valid());
    assert!(!UpdateUserRequest { display_name: Some("".into()) }.is_valid());
    assert!(UpdateUserRequest { display_name: None }.is_valid());
}

#[test]
fn audit_builder() {
    let log: AuditLog = AuditLogBuilder::new(AuditEventType::TokenRevoked)
        .user_id("u")
        .ip_address("1.1.1.1")
        .status_code(200)
        .error("e")
        .build();
    assert_eq!(log.event_type, "TOKEN_REVOKED");
    assert_eq!(log.user_id.as_deref(), Some("u"));
    assert_eq!(log.status_code, Some(200));
    assert_eq!(log.error_message.as_deref(), Some("e"));
    assert_eq!(AuditEventType::LoginAnomaly.as_str(), "LOGIN_ANOMALY");
}

#[test]
fn comma_lists() {
    assert_eq!(comma_list(" a , ,b,"), vec!["a", "b"]);
    assert_eq!(join_strings(&["x".to_string(), "y".to_string()], ","), "x,y");
}

#[test]
fn device_hash_is_sha256_prefix() {
    let d = DeviceInfo {
        user_agent: Some("a".to_string()),
        accept_language: Some("b".to_string()),
        ip_subnet: Some("c".to_string()),
    };
    assert_eq!(d.compute_hash(), "ba7816bf8f01cfea414140de5dae2223");
    let none = DeviceInfo { user_agent: None, accept_language: None, ip_subnet: None };
    assert_eq!(none.compute_hash(), "e3b0c44298fc1c149afbf4c8996fb924");
}

#[test]
fn database_error_message_names_the_cause() {
    let e = AppError::Database(sqlx::Error::RowNotFound);
    let m = e.to_message();
    assert!(m.starts_with("Database error: "));
    assert!(m.len() > "Database error: ".len());
    assert_eq!(e.status(), 500);
}

#[test]
fn names_read_back_and_ignore_case() {
    for t in [FilterType::Whitelist, FilterType::Blacklist] {
        assert_eq!(FilterType::parse_name(t.as_str()).unwrap(), t);
    }
    for p in [ProviderName::Google, ProviderName::Github] {
        assert_eq!(ProviderName::parse_name(p.as_str()).unwrap(), p);
    }
    assert_eq!(FilterType::parse_name("BLACKLIST").unwrap(), FilterType::Blacklist);
    assert_eq!(FilterType::parse_name("deny").unwrap_err(), "Unknown filter type: deny");
    let f = IpFilter::new("1.2.3.4".into(), FilterType::Whitelist, None);
    assert_eq!(f.get_filter_type(), Some(FilterType::Whitelist));
}

#[test]
fn new_entries_carry_uuid_and_time() {
    let log = AuditLog::new(AuditEventType::LoginAnomaly, "1.2.3.4".to_string());
    let id: Vec<char> = log.id.chars().collect();
    assert_eq!(id.len(), 36);
    for i in [8, 13, 18, 23] {
        assert_eq!(id[i], '-');
    }
    assert_eq!(id[14], '4');
    assert!(matches!(id[19], '8' | '9' | 'a' | 'b'));
    assert!(log.id.chars().all(|c| c == '-' || c.is_ascii_digit() || ('a'..='f').contains(&c)));
    assert!(log.timestamp.contains('T'));
    assert!(log.timestamp.ends_with("+00:00"));
    let d = DeviceInfo { user_agent: Some("x".into()), accept_language: None, ip_subnet: None };
    assert_eq!(d.compute_hash().len(), 32);
}

#[test]
fn audit_builder_keeps_last_value_and_commutes() {
    let a: AuditLog = AuditLogBuilder::new(AuditEventType::AdminAction)
        .user_id("first")
        .endpoint("/x")
        .user_id("second")
        .status_code(404)
        .status_code(200)
        .build();
    assert_eq!(a.user_id.as_deref(), Some("second"));
    assert_eq!(a.status_code, Some(200));
    assert_eq!(a.endpoint.as_deref(), Some("/x"));
    // fields never set keep their initial values
    assert_eq!(a.ip_address, "");
    assert!(a.http_method.is_none() && a.request_id.is_none() && a.metadata.is_none());
    assert_eq!(a.event_type, "ADMIN_ACTION");
    let b: AuditLog = AuditLogBuilder::new(AuditEventType::AdminAction)
        .status_code(200)
        .endpoint("/x")
        .user_id("second")
        .build();
    assert_eq!(a.user_id, b.user_id);
    assert_eq!(a.status_code, b.status_code);
    assert_eq!(a.endpoint, b.endpoint);
}
