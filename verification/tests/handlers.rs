use auth_service::error::AppError;
use auth_service::handlers::admin::{
    admin_ip_allowed, default_rate_limit, filter_type_of, new_api_key, new_ip_filter, CreateApiKeyRequest,
    CreateIpFilterRequest,
};
use auth_service::handlers::health::health_report;
use auth_service::handlers::oauth::{
    anomaly_audit_log, anomaly_description, callback_entry, callback_reply, device_info_for,
    exchange_failed_reply, invalid_state_reply, parse_provider, requested_scopes, CallbackReply,
    OAuthCallbackQuery,
};
use auth_service::handlers::token::{revoke_action, revoke_message, RevokeAction};
use auth_service::models::{FilterType, ProviderName, RevokeTokenRequest, TokenPair, User};
use auth_service::services::anomaly_detection::AnomalyResult;
use auth_service::time::Instant;

fn query(error: Option<&str>, description: Option<&str>) -> OAuthCallbackQuery {
    OAuthCallbackQuery {
        code: "c".to_string(),
        state: "s".to_string(),
        error: error.map(String::from),
        error_description: description.map(String::from),
    }
}

#[test]
fn providers_by_name() {
    assert_eq!(parse_provider("github").unwrap(), ProviderName::Github);
    assert_eq!(parse_provider("Google").unwrap(), ProviderName::Google);
    match parse_provider("gitlab") {
        Err(AppError::BadRequest(m)) => assert_eq!(m, "Unknown provider: gitlab"),
        _ => panic!("expected a bad request"),
    }
}

#[test]
fn scopes_from_query() {
    assert_eq!(requested_scopes(&None), Vec::<String>::new());
    assert_eq!(requested_scopes(&Some("read:user, user:email".to_string())), vec!["read:user", "user:email"]);
    assert_eq!(requested_scopes(&Some("".to_string())), vec![""]);
    assert_eq!(requested_scopes(&Some("a,,b".to_string())), vec!["a", "", "b"]);
}

#[test]
fn callback_entry_checks() {
    let locked = Some(AnomalyResult::BruteForceDetected { attempts: 5, lockout_until: Instant { secs: 0, nanos: 0 } });
    let e = callback_entry(&locked, &query(None, None), "github").unwrap_err();
    assert_eq!((e.status, e.error.as_str()), (429, "too_many_requests"));
    assert_eq!(e.error_description, "Too many failed attempts. Please try again later.");
    let e = callback_entry(&None, &query(Some("access_denied"), Some("no")), "github").unwrap_err();
    assert_eq!((e.status, e.error.as_str(), e.error_description.as_str()), (400, "access_denied", "no"));
    let e = callback_entry(&None, &query(Some("x"), None), "github").unwrap_err();
    assert_eq!(e.error_description, "");
    let e = callback_entry(&None, &query(None, None), "nope").unwrap_err();
    assert_eq!((e.error.as_str(), e.error_description.as_str()), ("invalid_provider", "Unknown provider: nope"));
    assert_eq!(callback_entry(&Some(AnomalyResult::Normal), &query(None, None), "github").unwrap(), ProviderName::Github);
    assert_eq!(invalid_state_reply().error, "invalid_state");
    assert_eq!(exchange_failed_reply().status, 500);
}

#[test]
fn anomaly_descriptions() {
    assert_eq!(anomaly_description(&AnomalyResult::Normal), None);
    assert_eq!(
        anomaly_description(&AnomalyResult::UnusualLocation { previous_ip: "1.1.1.1".into(), current_ip: "2.2.2.2".into() }).unwrap(),
        "Login from new IP: 2.2.2.2 (previous: 1.1.1.1)"
    );
    assert_eq!(
        anomaly_description(&AnomalyResult::ImpossibleTravel {
            previous_location: "a".into(),
            current_location: "b".into(),
            time_diff_minutes: 12,
        })
        .unwrap(),
        "Suspicious location change: a -> b in 12 minutes"
    );
    assert_eq!(anomaly_description(&AnomalyResult::UnusualPattern { reason: "r".into() }).unwrap(), "Unusual pattern: r");
    let b = AnomalyResult::BruteForceDetected { attempts: 1, lockout_until: Instant { secs: 0, nanos: 0 } };
    assert_eq!(anomaly_description(&b).unwrap(), "Unknown anomaly");
    let log = anomaly_audit_log("u1", "1.2.3.4", "d");
    assert_eq!(log.event_type, "LOGIN_ANOMALY");
    assert_eq!(log.user_id.as_deref(), Some("u1"));
    assert_eq!(log.metadata.as_deref(), Some("{\"details\":\"d\"}"));
}

fn user() -> User {
    User {
        id: "u1".into(),
        email: "u1@x".into(),
        display_name: Some("U".into()),
        profile_picture_url: None,
        is_active: true,
        email_verified: true,
        created_at: "c".into(),
        updated_at: "c".into(),
        last_login_at: None,
    }
}

#[test]
fn callback_replies() {
    let pair = TokenPair::new("at".into(), "rt".into(), 900);
    match callback_reply(Some("https://app/cb".into()), user(), pair.clone()) {
        CallbackReply::Redirect(u) => {
            assert_eq!(u, "https://app/cb?access_token=at&refresh_token=rt&token_type=Bearer&expires_in=900")
        }
        _ => panic!("expected a redirect"),
    }
    match callback_reply(None, user(), pair) {
        CallbackReply::Tokens(t) => {
            assert_eq!(t.access_token, "at");
            assert_eq!(t.token_type, "Bearer");
            assert_eq!(t.expires_in, 900);
            assert_eq!(t.user.id, "u1");
            assert_eq!(t.user.display_name.as_deref(), Some("U"));
        }
        _ => panic!("expected tokens"),
    }
}

#[test]
fn device_of_callback() {
    let d = device_info_for(Some("ua"), None, "192.168.1.20");
    assert_eq!(d.user_agent.as_deref(), Some("ua"));
    assert_eq!(d.accept_language, None);
    assert_eq!(d.ip_subnet.as_deref(), Some("192.168.1.0/24"));
    assert_eq!(device_info_for(None, None, "host").ip_subnet, None);
}

#[test]
fn admin_whitelist() {
    let w = vec!["127.0.0.1".to_string(), "::1".to_string()];
    assert!(admin_ip_allowed(&w, "127.0.0.1"));
    assert!(admin_ip_allowed(&w, "::1"));
    assert!(!admin_ip_allowed(&w, "10.0.0.1"));
    // an entry containing the address admits it
    assert!(admin_ip_allowed(&vec!["10.0.0.1/32".to_string()], "10.0.0.1"));
    assert!(admin_ip_allowed(&vec!["*".to_string()], "8.8.8.8"));
    assert!(!admin_ip_allowed(&vec![], "8.8.8.8"));
}

#[test]
fn api_key_creation() {
    assert_eq!(default_rate_limit(), 60);
    let request = CreateApiKeyRequest {
        name: "n".into(),
        client_project: "p".into(),
        allowed_origins: vec!["https://a".into(), "https://b".into()],
        rate_limit_per_minute: 30,
        expires_at: Some("2030-01-01T00:00:00Z".into()),
    };
    let k = new_api_key("bib_abcd".into(), "$argon2".into(), request);
    assert_eq!(k.key_prefix, "bib_abcd");
    assert_eq!(k.key_hash, "$argon2");
    assert_eq!(k.allowed_origins, "https://a,https://b");
    assert_eq!(k.rate_limit_per_minute, 30);
    assert_eq!(k.expires_at.as_deref(), Some("2030-01-01T00:00:00Z"));
    assert!(k.is_active);
}

#[test]
fn ip_filter_creation() {
    assert_eq!(filter_type_of("blacklist").unwrap(), FilterType::Blacklist);
    match filter_type_of("graylist") {
        Err(AppError::BadRequest(m)) => assert_eq!(m, "Invalid filter type"),
        _ => panic!("expected a bad request"),
    }
    let f = new_ip_filter(CreateIpFilterRequest {
        ip_address: "1.2.3.4".into(),
        filter_type: "whitelist".into(),
        reason: Some("office".into()),
        expires_at: None,
    })
    .unwrap();
    assert_eq!(f.filter_type, "whitelist");
    assert_eq!(f.ip_address, "1.2.3.4");
    assert!(new_ip_filter(CreateIpFilterRequest {
        ip_address: "1.2.3.4".into(),
        filter_type: "x".into(),
        reason: None,
        expires_at: None,
    })
    .is_err());
}

#[test]
fn health_reports() {
    let (code, r) = health_report(true, "0.1.0");
    assert_eq!((code, r.status.as_str(), r.database.as_str(), r.version.as_str()), (200, "healthy", "healthy", "0.1.0"));
    let (code, r) = health_report(false, "0.1.0");
    assert_eq!((code, r.status.as_str(), r.database.as_str()), (503, "degraded", "unhealthy"));
}

#[test]
fn revocation_requests() {
    let all = RevokeTokenRequest { refresh_token: Some("t".into()), revoke_all: true };
    assert_eq!(revoke_action(&all), RevokeAction::All);
    let one = RevokeTokenRequest { refresh_token: Some("t".into()), revoke_all: false };
    assert_eq!(revoke_action(&one), RevokeAction::Token("t".into()));
    let none = RevokeTokenRequest { refresh_token: None, revoke_all: false };
    assert_eq!(revoke_action(&none), RevokeAction::Nothing);
    assert_eq!(revoke_message(&RevokeAction::All), "All tokens have been revoked");
    assert_eq!(revoke_message(&RevokeAction::Token("t".into())), "Token has been revoked");
    assert_eq!(revoke_message(&RevokeAction::Nothing), "No action taken");
}
