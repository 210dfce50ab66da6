use auth_service::error::AppError;
use auth_service::oauth::state::{OAuthStateData, OAuthStateManager};
use auth_service::time::Instant;

fn at(secs: i64) -> Instant {
    Instant { secs, nanos: 0 }
}

fn oauth_message(e: AppError) -> String {
    match e {
        AppError::OAuth(m) => m,
        other => panic!("unexpected error {other:?}"),
    }
}

#[test]
fn state_is_consumed_once() {
    let mut m = OAuthStateManager::new();
    let token = m.create_state_at("proj", Some("https://app/cb".to_string()), at(1000));
    assert_eq!(token.len(), 43);
    let data = m.validate_and_consume_at(&token, at(1000 + 599)).unwrap();
    assert_eq!(data.state, token);
    assert_eq!(data.client_project, "proj");
    assert_eq!(data.redirect_uri.as_deref(), Some("https://app/cb"));
    assert_eq!(data.created_at, at(1000));
    assert_eq!(oauth_message(m.validate_and_consume_at(&token, at(1001)).unwrap_err()), "Invalid or expired state");
}

#[test]
fn state_expires_after_ten_minutes() {
    let mut m = OAuthStateManager::new();
    let token = m.create_state_at("proj", None, at(0));
    assert!(m.validate_at(&token, at(600)).is_ok());
    assert_eq!(oauth_message(m.validate_at(&token, at(601)).unwrap_err()), "State has expired");
    // the expired state was removed
    assert_eq!(oauth_message(m.validate_at(&token, at(0)).unwrap_err()), "Invalid or expired state");
}

#[test]
fn consume_of_expired_state_removes_it() {
    let mut m = OAuthStateManager::new();
    let token = m.create_state_at("p", None, at(0));
    assert_eq!(oauth_message(m.validate_and_consume_at(&token, at(700)).unwrap_err()), "State has expired");
    assert_eq!(oauth_message(m.validate_and_consume_at(&token, at(10)).unwrap_err()), "Invalid or expired state");
}

#[test]
fn creating_a_state_drops_expired_ones() {
    let mut m = OAuthStateManager::new();
    let old = m.create_state_at("p", None, at(0));
    let _new = m.create_state_at("p", None, at(1000));
    assert_eq!(oauth_message(m.validate_at(&old, at(0)).unwrap_err()), "Invalid or expired state");
}

#[test]
fn state_data_expiry() {
    let d = OAuthStateData { state: "s".to_string(), client_project: "p".to_string(), redirect_uri: None, created_at: at(100) };
    assert!(!d.is_expired_at(at(700)));
    assert!(d.is_expired_at(Instant { secs: 700, nanos: 1 }));
}

#[test]
fn clock_states_and_removal() {
    let mut m = OAuthStateManager::default();
    let token = m.create_state("p", None);
    assert!(m.validate(&token).is_ok());
    m.remove(&token);
    assert!(m.validate_and_consume(&token).is_err());
}

#[test]
fn consumed_state_stays_refused() {
    let mut m = OAuthStateManager::new();
    let token = m.create_state_at("proj", None, at(2000));
    assert!(m.validate_and_consume_at(&token, at(2010)).is_ok());
    assert_eq!(oauth_message(m.validate_at(&token, at(2011)).unwrap_err()), "Invalid or expired state");
    // registering another state does not bring it back
    let other = m.create_state_at("proj", None, at(2012));
    assert_ne!(other, token);
    assert_eq!(oauth_message(m.validate_and_consume_at(&token, at(2013)).unwrap_err()), "Invalid or expired state");
    assert!(m.validate_at(&other, at(2013)).is_ok());
}
