use auth_service::error::AppError;
use auth_service::models::{DeviceInfo, GitHubEmail, GitHubUserInfo, ProviderName, User};
use auth_service::oauth::provider::{
    github_default_scopes, github_user_info, profile_email, scopes_to_use, select_primary_email, OAuthTokens,
    OAuthUserInfo,
};
use auth_service::oauth::state::OAuthStateManager;
use auth_service::security::encryption::{generate_encryption_key, EncryptionService};
use auth_service::services::auth_service::AuthService;
use auth_service::services::user_service::{profile_of, require_active, require_deletable, updated_profile};
use auth_service::time::Instant;

fn user(active: bool) -> User {
    User {
        id: "u1".into(),
        email: "u1@x".into(),
        display_name: None,
        profile_picture_url: None,
        is_active: active,
        email_verified: false,
        created_at: "2024-01-01T00:00:00Z".into(),
        updated_at: "2024-01-01T00:00:00Z".into(),
        last_login_at: None,
    }
}

fn not_found(e: AppError) -> bool {
    matches!(e, AppError::NotFound(m) if m == "User not found")
}

#[test]
fn profile_rules() {
    assert!(not_found(profile_of(None).unwrap_err()));
    assert!(matches!(profile_of(Some(user(false))), Err(AppError::Forbidden)));
    let p = profile_of(Some(user(true))).unwrap();
    assert_eq!(p.id, "u1");
    assert_eq!(p.email, "u1@x");
    assert_eq!(p.created_at, "2024-01-01T00:00:00Z");
    assert!(require_active(Some(user(true))).is_ok());
    assert!(not_found(updated_profile(None).unwrap_err()));
    assert!(updated_profile(Some(user(false))).is_ok());
}

#[test]
fn deletion_rules() {
    assert!(require_deletable(&Some(user(true))).is_ok());
    assert!(not_found(require_deletable(&Some(user(false))).unwrap_err()));
    assert!(not_found(require_deletable(&None).unwrap_err()));
}

fn email(e: &str, primary: bool, verified: bool) -> GitHubEmail {
    GitHubEmail { email: e.into(), primary, verified }
}

#[test]
fn github_primary_email_choice() {
    let all = vec![email("a", false, true), email("b", true, false), email("c", true, true)];
    assert_eq!(select_primary_email(&all).unwrap(), ("c".to_string(), true));
    let no_both = vec![email("a", false, true), email("b", true, false)];
    assert_eq!(select_primary_email(&no_both).unwrap(), ("b".to_string(), false));
    let verified_only = vec![email("a", false, false), email("b", false, true)];
    assert_eq!(select_primary_email(&verified_only).unwrap(), ("b".to_string(), true));
    let plain = vec![email("a", false, false), email("b", false, false)];
    assert_eq!(select_primary_email(&plain).unwrap(), ("a".to_string(), false));
    match select_primary_email(&vec![]) {
        Err(AppError::OAuth(m)) => assert_eq!(m, "No email found for GitHub user"),
        _ => panic!("expected an OAuth error"),
    }
}

#[test]
fn github_profiles() {
    let info = GitHubUserInfo { id: 42, login: "octo".into(), email: None, name: None, avatar_url: Some("pic".into()) };
    assert!(profile_email(&info).is_none());
    let u = github_user_info(info, "o@x".into(), false);
    assert_eq!(u.provider, ProviderName::Github);
    assert_eq!(u.provider_user_id, "42");
    assert_eq!(u.display_name.as_deref(), Some("octo"));
    assert_eq!(u.profile_picture_url.as_deref(), Some("pic"));
    let named = GitHubUserInfo { id: -7, login: "l".into(), email: Some("pub@x".into()), name: Some("Name".into()), avatar_url: None };
    assert_eq!(profile_email(&named), Some(("pub@x".to_string(), true)));
    let v = github_user_info(named, "pub@x".into(), true);
    assert_eq!(v.provider_user_id, "-7");
    assert_eq!(v.display_name.as_deref(), Some("Name"));
}

#[test]
fn scope_choice() {
    let d = github_default_scopes();
    assert_eq!(d, vec!["read:user", "user:email"]);
    assert_eq!(scopes_to_use(vec![], d.clone()), vec!["read:user", "user:email"]);
    assert_eq!(scopes_to_use(vec!["repo".to_string()], d), vec!["repo"]);
}

fn service() -> AuthService {
    let enc = EncryptionService::new(&generate_encryption_key()).unwrap();
    AuthService::new(OAuthStateManager::new(), enc)
}

#[test]
fn login_state_round_trip() {
    let mut s = service();
    let state = s.create_oauth_state("proj", Some("https://app".into()));
    assert_eq!(s.validate_and_consume_state(&state).unwrap(), ("proj".to_string(), Some("https://app".to_string())));
    assert!(matches!(s.validate_and_consume_state(&state), Err(AppError::OAuth(_))));
}

#[test]
fn existing_users() {
    assert!(matches!(AuthService::existing_user(Some(user(false))), Err(AppError::Forbidden)));
    assert_eq!(AuthService::existing_user(Some(user(true))).unwrap().unwrap().id, "u1");
    assert!(AuthService::existing_user(None).unwrap().is_none());
}

fn info() -> OAuthUserInfo {
    OAuthUserInfo {
        provider: ProviderName::Google,
        provider_user_id: "g-1".into(),
        email: "g@x".into(),
        email_verified: true,
        display_name: Some("G".into()),
        profile_picture_url: None,
    }
}

#[test]
fn new_user_from_provider() {
    let d = AuthService::new_user_data(&info());
    assert_eq!(d.email, "g@x");
    assert!(d.email_verified);
    assert_eq!(d.display_name.as_deref(), Some("G"));
}

#[test]
fn provider_records_encrypt_tokens() {
    let key = generate_encryption_key();
    let s = AuthService::new(OAuthStateManager::new(), EncryptionService::new(&key).unwrap());
    let check = EncryptionService::new(&key).unwrap();
    let tokens = OAuthTokens {
        access_token: "access".into(),
        refresh_token: Some("refresh".into()),
        expires_in: Some(3600),
        scope: Some("a b".into()),
    };
    let now = Instant { secs: 1_700_000_000, nanos: 0 };
    let p = s.provider_record("u1", &info(), &tokens, now).unwrap();
    assert_eq!(p.user_id, "u1");
    assert_eq!(p.provider_name, "google");
    assert_eq!(p.provider_user_id, "g-1");
    assert_eq!(check.decrypt(p.access_token_encrypted.as_deref().unwrap()).unwrap(), "access");
    assert_eq!(check.decrypt(p.refresh_token_encrypted.as_deref().unwrap()).unwrap(), "refresh");
    assert_eq!(p.token_expires_at.as_deref(), Some("2023-11-14T23:13:20+00:00"));
    assert_eq!(p.scope.as_deref(), Some("a b"));
    let bare = OAuthTokens { access_token: "x".into(), refresh_token: None, expires_in: None, scope: None };
    let q = s.provider_record("u1", &info(), &bare, now).unwrap();
    assert!(q.refresh_token_encrypted.is_none() && q.token_expires_at.is_none() && q.scope.is_none());
}

#[test]
fn callback_tokens_request() {
    let d = DeviceInfo { user_agent: Some("ua".into()), accept_language: None, ip_subnet: None };
    let r = AuthService::callback_token_request(&user(true), "proj", Some(&d));
    assert_eq!(r.user_id, "u1");
    assert_eq!(r.client_project.as_deref(), Some("proj"));
    assert_eq!(r.family_id, None);
    assert_eq!(r.generation, 0);
    assert_eq!(r.device_hash, Some(d.compute_hash()));
    assert_eq!(AuthService::callback_token_request(&user(true), "p", None).device_hash, None);
}
