use auth_service::error::AppError;
use auth_service::models::{AccessTokenClaims, DeviceInfo, RefreshTokenClaims, User};
use auth_service::services::token_service::{validation_response, TokenService};
use auth_service::time::Instant;

fn claims(family: &str, user: &str, generation: u32, device_hash: Option<String>) -> RefreshTokenClaims {
    RefreshTokenClaims {
        sub: user.to_string(),
        iss: "auth-service".to_string(),
        aud: "auth-service-refresh".to_string(),
        exp: 0,
        iat: 0,
        jti: "j".to_string(),
        family_id: family.to_string(),
        generation,
        client_project: None,
        device_hash,
    }
}

fn user(id: &str, active: bool) -> User {
    User {
        id: id.to_string(),
        email: format!("{id}@example.com"),
        display_name: None,
        profile_picture_url: None,
        is_active: active,
        email_verified: true,
        created_at: "2024-01-01T00:00:00+00:00".to_string(),
        updated_at: "2024-01-01T00:00:00+00:00".to_string(),
        last_login_at: None,
    }
}

fn device(ua: &str) -> DeviceInfo {
    DeviceInfo { user_agent: Some(ua.to_string()), accept_language: Some("en".to_string()), ip_subnet: Some("10.0.0.0/24".to_string()) }
}

#[test]
fn rotation_advances_generation() {
    let mut s = TokenService::new();
    let c0 = claims("fam1", "u1", 0, None);
    assert!(s.refresh_check(&c0, None).is_ok());
    let req = s.refresh_commit(&c0, Some(user("u1", true)), Some("proj"), None).unwrap();
    assert_eq!(req.generation, 1);
    assert_eq!(req.family_id.as_deref(), Some("fam1"));
    assert_eq!(req.client_project.as_deref(), Some("proj"));
    assert_eq!(req.user_id, "u1");
    assert_eq!(req.email, "u1@example.com");
    assert_eq!(req.device_hash, None);
    // the next generation refreshes
    let c1 = claims("fam1", "u1", 1, None);
    assert!(s.refresh_check(&c1, None).is_ok());
}

#[test]
fn replayed_token_revokes_all_families_of_user() {
    let mut s = TokenService::new();
    let a0 = claims("famA", "u1", 0, None);
    let b0 = claims("famB", "u1", 0, None);
    let other = claims("famC", "u2", 0, None);
    s.refresh_commit(&a0, Some(user("u1", true)), None, None).unwrap();
    s.refresh_commit(&b0, Some(user("u1", true)), None, None).unwrap();
    s.refresh_commit(&other, Some(user("u2", true)), None, None).unwrap();
    // famA is at generation 1; presenting generation 0 again is reuse
    assert!(matches!(s.refresh_check(&a0, None), Err(AppError::InvalidToken)));
    // every family of u1 is revoked now
    assert!(matches!(s.refresh_check(&claims("famB", "u1", 1, None), None), Err(AppError::InvalidToken)));
    // u2 is unaffected
    assert!(s.refresh_check(&claims("famC", "u2", 1, None), None).is_ok());
}

#[test]
fn device_mismatch_revokes_family() {
    let mut s = TokenService::new();
    let bound = device("agent-1").compute_hash();
    assert_eq!(bound.len(), 32);
    let c = claims("famD", "u1", 0, Some(bound.clone()));
    assert!(s.refresh_check(&c, Some(&device("agent-1"))).is_ok());
    assert!(matches!(s.refresh_check(&c, Some(&device("agent-2"))), Err(AppError::DeviceMismatch)));
    // the family stays refused, even from the right device
    assert!(matches!(s.refresh_check(&c, Some(&device("agent-1"))), Err(AppError::InvalidToken)));
}

#[test]
fn unbound_presentation_skips_device_check() {
    let mut s = TokenService::new();
    let c = claims("famE", "u1", 0, Some("abc".to_string()));
    assert!(s.refresh_check(&c, None).is_ok());
}

#[test]
fn revoked_token_is_refused() {
    let mut s = TokenService::new();
    let c = claims("famF", "u9", 0, None);
    s.refresh_commit(&c, Some(user("u9", true)), None, None).unwrap();
    s.revoke_refresh_token(&claims("famF", "u9", 1, None));
    assert!(matches!(s.refresh_check(&claims("famF", "u9", 1, None), None), Err(AppError::InvalidToken)));
}

#[test]
fn revoke_all_then_refresh_fails() {
    let mut s = TokenService::new();
    s.refresh_commit(&claims("famG", "u5", 0, None), Some(user("u5", true)), None, None).unwrap();
    s.revoke_all_user_tokens("u5");
    assert!(matches!(s.refresh_check(&claims("famG", "u5", 1, None), None), Err(AppError::InvalidToken)));
}

#[test]
fn missing_or_inactive_user() {
    let mut s = TokenService::new();
    let c = claims("famH", "u6", 0, None);
    match s.refresh_commit(&c, None, None, None) {
        Err(AppError::NotFound(m)) => assert_eq!(m, "User not found"),
        _ => panic!("expected not found"),
    }
    assert!(matches!(s.refresh_commit(&c, Some(user("u6", false)), None, None), Err(AppError::Forbidden)));
}

#[test]
fn commit_binds_to_device() {
    let mut s = TokenService::new();
    let d = device("agent-x");
    let req = s.refresh_commit(&claims("famI", "u7", 4, None), Some(user("u7", true)), None, Some(&d)).unwrap();
    assert_eq!(req.generation, 5);
    assert_eq!(req.device_hash, Some(d.compute_hash()));
}

#[test]
fn cleanup_keeps_fresh_families() {
    let mut s = TokenService::new();
    s.refresh_commit(&claims("famJ", "u8", 0, None), Some(user("u8", true)), None, None).unwrap();
    // a family created now is younger than 30 days at now + 1 day
    let now = chrono_like_now();
    s.cleanup_expired_families_at(Instant { secs: now + 86_400, nanos: 0 });
    assert!(s.refresh_check(&claims("famJ", "u8", 0, None), None).is_err());
    // 31 days later it is dropped, and an old-generation token no longer counts as reuse
    s.cleanup_expired_families_at(Instant { secs: now + 31 * 86_400, nanos: 0 });
    assert!(s.refresh_check(&claims("famJ", "u8", 0, None), None).is_ok());
}

fn chrono_like_now() -> i64 {
    std::time::SystemTime::now().duration_since(std::time::UNIX_EPOCH).unwrap().as_secs() as i64
}

#[test]
fn validation_answers() {
    let ok = validation_response(Ok(AccessTokenClaims {
        sub: "u".to_string(),
        email: "e".to_string(),
        iss: "i".to_string(),
        aud: "auth-service".to_string(),
        exp: 42,
        iat: 1,
        jti: "j".to_string(),
        client_project: None,
    }));
    assert!(ok.valid);
    assert_eq!(ok.user_id.as_deref(), Some("u"));
    assert_eq!(ok.email.as_deref(), Some("e"));
    assert_eq!(ok.expires_at, Some(42));
    let bad = validation_response(Err(AppError::TokenExpired));
    assert!(!bad.valid);
    assert_eq!(bad.user_id, None);
    assert_eq!(bad.expires_at, None);
}

#[test]
fn refreshes_are_limited_per_user() {
    let mut s = TokenService::new();
    let at = |secs: i64| Instant { secs, nanos: 0 };
    for g in 0..5u32 {
        let c = claims("famR", "ur", g, None);
        assert!(s.refresh_check(&c, None).is_ok());
        let req = s.refresh_commit_at(&c, Some(user("ur", true)), None, None, at(1000 + g as i64)).unwrap();
        assert_eq!(req.generation, g + 1);
    }
    let c = claims("famR", "ur", 5, None);
    assert!(s.refresh_check(&c, None).is_ok());
    assert!(matches!(
        s.refresh_commit_at(&c, Some(user("ur", true)), None, None, at(1010)),
        Err(AppError::RateLimitExceeded)
    ));
    // the refused refresh did not rotate the family: generation 5 is still current
    assert!(s.refresh_check(&c, None).is_ok());
    // another user is not held back
    assert!(s.refresh_commit_at(&claims("famS", "us", 0, None), Some(user("us", true)), None, None, at(1010)).is_ok());
    // a minute later the user may refresh again
    assert_eq!(s.refresh_commit_at(&c, Some(user("ur", true)), None, None, at(1100)).unwrap().generation, 6);
}
