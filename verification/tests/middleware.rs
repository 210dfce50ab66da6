use auth_service::config::RateLimitConfig;
use auth_service::error::AppError;
use auth_service::middleware::api_key::{api_key_from_header, invalid_key_reply, key_lookup_failed_reply, select_api_key, API_KEY_HEADER};
use auth_service::middleware::audit::{audit_entry, determine_event_type};
use auth_service::middleware::auth::{auth_outcome, bearer_from_header, bearer_token, optional_bearer};
use auth_service::middleware::cors::{cors_echo, cors_origins, CorsOrigins};
use auth_service::middleware::headers::HeaderInput;
use auth_service::middleware::ip_filter::{admin_denied_reply, blacklist_reply, client_ip_from, ClientIp};
use auth_service::middleware::rate_limit::{rate_limit_verdict_at, RateLimiter};
use auth_service::middleware::security_headers::security_headers;
use auth_service::models::{AccessTokenClaims, ApiKey, AuditEventType, ValidatedApiKey};
use auth_service::security::api_key::ApiKeyService;
use auth_service::time::Instant;

fn at(secs: i64) -> Instant {
    Instant { secs, nanos: 0 }
}

fn limits(enabled: bool, per_minute: u32) -> RateLimitConfig {
    RateLimitConfig { enabled, global_per_minute: per_minute, oauth_init_per_minute: 10 }
}

#[test]
fn ip_limit_allows_limit_per_window() {
    let mut l = RateLimiter::new(limits(true, 3));
    for _ in 0..3 {
        assert!(l.check_ip_at("1.1.1.1", at(100)));
    }
    assert!(!l.check_ip_at("1.1.1.1", at(110)));
    assert!(l.check_ip_at("2.2.2.2", at(110)));
    // a new window after a minute
    assert!(l.check_ip_at("1.1.1.1", at(161)));
}

#[test]
fn disabled_limiter_allows_everything() {
    let mut l = RateLimiter::new(limits(false, 0));
    for _ in 0..10 {
        assert!(l.check_ip_at("1.1.1.1", at(0)));
        assert!(l.check_api_key_at("k", Some(0), at(0)));
    }
}

#[test]
fn key_limit_uses_own_limit() {
    let mut l = RateLimiter::new(limits(true, 100));
    assert!(l.check_api_key_at("k1", Some(1), at(0)));
    assert!(!l.check_api_key_at("k1", Some(1), at(1)));
    assert!(l.check_api_key_at("k2", None, at(1)));
}

#[test]
fn limiter_cleanup_drops_finished_windows() {
    let mut l = RateLimiter::new(limits(true, 1));
    assert!(l.check_ip_at("3.3.3.3", at(0)));
    assert!(!l.check_ip_at("3.3.3.3", at(30)));
    l.cleanup_at(at(61));
    assert!(l.check_ip_at("3.3.3.3", at(61)));
}

fn validated(id: &str, limit: i32) -> ValidatedApiKey {
    ValidatedApiKey { id: id.to_string(), client_project: "p".to_string(), allowed_origins: vec![], rate_limit_per_minute: limit }
}

#[test]
fn rate_limit_verdicts() {
    let mut l = RateLimiter::new(limits(true, 1));
    let k = validated("key", 1);
    assert!(rate_limit_verdict_at(&mut l, "4.4.4.4", "/api/v1/auth/token/refresh", Some(&k), at(0)).is_none());
    let r = rate_limit_verdict_at(&mut l, "4.4.4.4", "/api/v1/auth/token/refresh", Some(&k), at(1)).unwrap();
    assert_eq!(r.status, 429);
    assert_eq!(r.error, "Too Many Requests");
    assert_eq!(r.error_description, "Rate limit exceeded. Please try again later.");
    let r2 = rate_limit_verdict_at(&mut l, "5.5.5.5", "/api/v1/auth/token/refresh", Some(&k), at(2)).unwrap();
    assert_eq!(r2.error_description, "Rate limit exceeded for this API key. Please try again later.");
    assert!(rate_limit_verdict_at(&mut l, "6.6.6.6", "/api/v1/auth/token/refresh", None, at(2)).is_none());
}

#[test]
fn api_key_headers() {
    assert_eq!(API_KEY_HEADER, "x-api-key");
    assert_eq!(api_key_from_header(&HeaderInput::Text("bib_x".to_string())).unwrap(), "bib_x");
    let m = api_key_from_header(&HeaderInput::Missing).unwrap_err();
    assert_eq!((m.status, m.error.as_str(), m.error_description.as_str()), (401, "Unauthorized", "Missing API key"));
    let u = api_key_from_header(&HeaderInput::Unreadable).unwrap_err();
    assert_eq!(u.error_description, "Invalid API key format");
    assert_eq!(invalid_key_reply().error_description, "Invalid or expired API key");
    assert_eq!(key_lookup_failed_reply().status, 500);
}

#[test]
fn api_key_selection() {
    let service = ApiKeyService::new();
    let (key, prefix, hash) = service.generate_api_key();
    let inactive = {
        let mut k = ApiKey::new(hash.clone(), prefix.clone(), "a".to_string(), "p".to_string(), &[]);
        k.is_active = false;
        k
    };
    let expired = ApiKey::new(hash.clone(), prefix.clone(), "b".to_string(), "p".to_string(), &[])
        .with_expiration("2000-01-01T00:00:00Z".to_string());
    let other = ApiKey::new(service.hash_api_key("something else"), prefix.clone(), "c".to_string(), "p".to_string(), &[]);
    let good = ApiKey::new(hash.clone(), prefix.clone(), "d".to_string(), "p".to_string(), &[]);
    let now = at(1_700_000_000);
    let chosen = select_api_key(&service, &key, vec![inactive, expired, other, good], now).unwrap();
    assert_eq!(chosen.name, "d");
    assert!(select_api_key(&service, &key, vec![], now).is_none());
}

#[test]
fn bearer_headers() {
    assert_eq!(bearer_token("Bearer abc"), Some("abc"));
    assert_eq!(bearer_token("bearer abc"), None);
    assert_eq!(bearer_from_header(&HeaderInput::Text("Bearer t.k.n".to_string())).unwrap(), "t.k.n");
    assert_eq!(bearer_from_header(&HeaderInput::Missing).unwrap_err().error_description, "Missing authorization header");
    assert_eq!(bearer_from_header(&HeaderInput::Unreadable).unwrap_err().error_description, "Invalid authorization header");
    assert_eq!(
        bearer_from_header(&HeaderInput::Text("Basic x".to_string())).unwrap_err().error_description,
        "Invalid authorization scheme. Use 'Bearer <token>'"
    );
    assert_eq!(optional_bearer(&HeaderInput::Text("Bearer q".to_string())), Some("q".to_string()));
    assert_eq!(optional_bearer(&HeaderInput::Missing), None);
}

#[test]
fn auth_outcomes() {
    let claims = AccessTokenClaims {
        sub: "u".to_string(),
        email: "e@x".to_string(),
        iss: "i".to_string(),
        aud: "auth-service".to_string(),
        exp: 0,
        iat: 0,
        jti: "j".to_string(),
        client_project: Some("p".to_string()),
    };
    let u = auth_outcome(Ok(claims)).unwrap();
    assert_eq!(u.user_id, "u");
    assert_eq!(u.email, "e@x");
    assert_eq!(u.client_project.as_deref(), Some("p"));
    assert_eq!(auth_outcome(Err(AppError::TokenExpired)).unwrap_err().error_description, "Token has expired");
    assert_eq!(auth_outcome(Err(AppError::InvalidToken)).unwrap_err().error_description, "Invalid token");
}

#[test]
fn cors_configuration() {
    match cors_origins("https://a.example, https://b.example") {
        CorsOrigins::List(l) => assert_eq!(l, vec!["https://a.example".to_string(), "https://b.example".to_string()]),
        CorsOrigins::Any => panic!("expected a list"),
    }
    assert!(matches!(cors_origins("*"), CorsOrigins::Any));
    assert!(matches!(cors_origins("https://a.example,*"), CorsOrigins::Any));
    match cors_origins("") {
        CorsOrigins::List(l) => assert_eq!(l, vec!["".to_string()]),
        CorsOrigins::Any => panic!("expected a list"),
    }
    match cors_origins("https://ok.example,bad\u{7f}value") {
        CorsOrigins::List(l) => assert_eq!(l, vec!["https://ok.example".to_string()]),
        CorsOrigins::Any => panic!("expected a list"),
    }
    assert!(matches!(cors_origins("\u{7f}"), CorsOrigins::Any));
}

#[test]
fn cors_per_key() {
    let allowed = vec!["https://app.example".to_string()];
    assert_eq!(cors_echo(Some("https://app.example"), Some(&allowed)), Some("https://app.example".to_string()));
    assert_eq!(cors_echo(Some("https://evil.example"), Some(&allowed)), None);
    let any = vec!["*".to_string()];
    assert_eq!(cors_echo(Some("https://x.example"), Some(&any)), Some("https://x.example".to_string()));
    assert_eq!(cors_echo(None, Some(&any)), None);
    assert_eq!(cors_echo(Some("https://x.example"), None), None);
}

#[test]
fn client_addresses() {
    assert_eq!(client_ip_from(Some(" 1.2.3.4 , 5.6.7.8"), Some("9.9.9.9"), "10.0.0.1"), "1.2.3.4");
    assert_eq!(client_ip_from(None, Some("9.9.9.9"), "10.0.0.1"), "9.9.9.9");
    assert_eq!(client_ip_from(None, None, "10.0.0.1"), "10.0.0.1");
    assert_eq!(ClientIp("1.1.1.1".to_string()).as_str(), "1.1.1.1");
}

#[test]
fn blacklist_and_admin_replies() {
    let r = blacklist_reply(Some(true)).unwrap();
    assert_eq!((r.status, r.error.as_str(), r.error_description.as_str()), (403, "Forbidden", "Your IP address has been blocked"));
    assert!(blacklist_reply(Some(false)).is_none());
    assert!(blacklist_reply(None).is_none());
    assert_eq!(admin_denied_reply().error_description, "Access denied");
}

#[test]
fn audit_events() {
    assert_eq!(determine_event_type("/api/v1/auth/oauth/github/init", "POST", 200), Some(AuditEventType::OAuthInitiated));
    assert_eq!(determine_event_type("/api/v1/auth/oauth/github/callback", "GET", 200), Some(AuditEventType::OAuthSuccess));
    assert_eq!(determine_event_type("/api/v1/auth/oauth/github/callback", "GET", 500), Some(AuditEventType::OAuthFailure));
    assert_eq!(determine_event_type("/api/v1/auth/token/refresh", "POST", 200), Some(AuditEventType::TokenRefreshed));
    assert_eq!(determine_event_type("/api/v1/auth/token/validate", "POST", 401), Some(AuditEventType::TokenValidationFailed));
    assert_eq!(determine_event_type("/api/v1/admin/api-keys", "GET", 200), Some(AuditEventType::AdminAction));
    assert_eq!(determine_event_type("/other", "GET", 429), Some(AuditEventType::RateLimitExceeded));
    assert_eq!(determine_event_type("/health", "GET", 200), None);
    let log = audit_entry("/api/v1/admin/x", "GET", 200, "1.2.3.4", Some("req-1"), None, Some("ua")).unwrap();
    assert_eq!(log.event_type, "ADMIN_ACTION");
    assert_eq!(log.ip_address, "1.2.3.4");
    assert_eq!(log.endpoint.as_deref(), Some("/api/v1/admin/x"));
    assert_eq!(log.http_method.as_deref(), Some("GET"));
    assert_eq!(log.status_code, Some(200));
    assert_eq!(log.request_id.as_deref(), Some("req-1"));
    assert_eq!(log.user_id, None);
    assert_eq!(log.user_agent.as_deref(), Some("ua"));
    assert!(audit_entry("/health", "GET", 200, "1.2.3.4", None, None, None).is_none());
}

#[test]
fn security_header_set() {
    let h = security_headers();
    assert_eq!(h.len(), 8);
    assert_eq!(h[0], ("X-Content-Type-Options", "nosniff"));
    assert_eq!(h[1], ("X-Frame-Options", "DENY"));
}

#[test]
fn login_starts_are_limited_per_address() {
    let mut l = RateLimiter::new(limits(true, 100));
    let init = "/api/v1/auth/oauth/github/init";
    for i in 0..10 {
        assert!(rate_limit_verdict_at(&mut l, "9.9.9.9", init, None, at(i)).is_none());
    }
    let r = rate_limit_verdict_at(&mut l, "9.9.9.9", init, None, at(11)).unwrap();
    assert_eq!((r.status, r.error.as_str()), (429, "Too Many Requests"));
    assert_eq!(r.error_description, "Too many login attempts. Please try again later.");
    // other paths and other addresses are not held back by it
    assert!(rate_limit_verdict_at(&mut l, "9.9.9.9", "/api/v1/auth/token/validate", None, at(12)).is_none());
    assert!(rate_limit_verdict_at(&mut l, "8.8.8.8", init, None, at(12)).is_none());
    // a new window lets it start again
    assert!(rate_limit_verdict_at(&mut l, "9.9.9.9", init, None, at(80)).is_none());
}

#[test]
fn key_admits_first_requests_of_a_window() {
    let mut l = RateLimiter::new(limits(true, 100));
    let answers: Vec<bool> = (0..5).map(|i| l.check_api_key_at("k3", Some(3), at(10 + i))).collect();
    assert_eq!(answers, vec![true, true, true, false, false]);
    // other keys and addresses keep their own counts
    assert!(l.check_api_key_at("k4", Some(3), at(20)));
    assert!(l.check_ip_at("6.6.6.6", at(20)));
    // without its own limit a key gets the global one
    let mut g = RateLimiter::new(limits(true, 2));
    let answers: Vec<bool> = (0..3).map(|i| g.check_api_key_at("k5", None, at(i))).collect();
    assert_eq!(answers, vec![true, true, false]);
    // with rate limiting off every request passes
    let mut off = RateLimiter::new(limits(false, 1));
    assert!((0..5).all(|i| off.check_api_key_at("k6", Some(1), at(i))));
}
