use auth_service::error::AppError;
use auth_service::handlers::oauth::{
    callback_step, CallbackAction, CallbackEvent, CallbackReply, CallbackRequest, CallbackStage, OAuthCallbackQuery,
};
use auth_service::models::{ProviderName, TokenPair, User};
use auth_service::services::anomaly_detection::AnomalyResult;
use auth_service::time::Instant;

fn request(provider: &str, error: Option<&str>) -> CallbackRequest {
    CallbackRequest {
        provider: provider.to_string(),
        query: OAuthCallbackQuery {
            code: "the-code".to_string(),
            state: "the-state".to_string(),
            error: error.map(String::from),
            error_description: error.map(|_| "denied".to_string()),
        },
        ip: "192.168.1.77".to_string(),
        user_agent: Some("Mozilla/5.0".to_string()),
        accept_language: Some("en".to_string()),
    }
}

fn user() -> User {
    User::new("a@example.com".to_string(), Some("A".to_string()), None)
}

fn pair() -> TokenPair {
    TokenPair::new("acc".to_string(), "ref".to_string(), 900)
}

#[test]
fn callback_locked_out_address_is_refused_first() {
    let locked = Some(AnomalyResult::BruteForceDetected { attempts: 5, lockout_until: Instant { secs: 10, nanos: 0 } });
    let (stage, action) = callback_step(CallbackStage::Start, CallbackEvent::Lockout(locked), &request("nope", Some("x")));
    assert!(matches!(stage, CallbackStage::Done));
    match action {
        CallbackAction::Refuse(e) => assert_eq!((e.status, e.error.as_str()), (429, "too_many_requests")),
        other => panic!("unexpected {other:?}"),
    }
}

#[test]
fn callback_provider_error_is_passed_on() {
    let (_, action) = callback_step(CallbackStage::Start, CallbackEvent::Lockout(None), &request("github", Some("access_denied")));
    match action {
        CallbackAction::Refuse(e) => {
            assert_eq!((e.status, e.error.as_str(), e.error_description.as_str()), (400, "access_denied", "denied"))
        }
        other => panic!("unexpected {other:?}"),
    }
}

#[test]
fn callback_unknown_provider_is_refused() {
    let (_, action) = callback_step(CallbackStage::Start, CallbackEvent::Lockout(None), &request("gitlab", None));
    match action {
        CallbackAction::Refuse(e) => {
            assert_eq!((e.status, e.error_description.as_str()), (400, "Unknown provider: gitlab"))
        }
        other => panic!("unexpected {other:?}"),
    }
}

#[test]
fn callback_full_run_with_redirect() {
    let req = request("github", None);
    let (stage, action) = callback_step(CallbackStage::Start, CallbackEvent::Lockout(None), &req);
    match &action {
        CallbackAction::ConsumeState(s) => assert_eq!(s, "the-state"),
        other => panic!("unexpected {other:?}"),
    }
    match &stage {
        CallbackStage::ConsumingState { provider, device } => {
            assert_eq!(*provider, ProviderName::Github);
            assert_eq!(device.user_agent.as_deref(), Some("Mozilla/5.0"));
            assert_eq!(device.ip_subnet.as_deref(), Some("192.168.1.0/24"));
        }
        other => panic!("unexpected {other:?}"),
    }
    let found = Ok(("proj".to_string(), Some("https://app.example/done".to_string())));
    let (stage, action) = callback_step(stage, CallbackEvent::StateFound(found), &req);
    match &action {
        CallbackAction::Exchange { provider, code, client_project, device } => {
            assert_eq!(*provider, ProviderName::Github);
            assert_eq!(code, "the-code");
            assert_eq!(client_project, "proj");
            assert_eq!(device.accept_language.as_deref(), Some("en"));
        }
        other => panic!("unexpected {other:?}"),
    }
    let u = user();
    let id = u.id.clone();
    let (stage, action) = callback_step(stage, CallbackEvent::Exchanged(Ok((u, pair()))), &req);
    match &action {
        CallbackAction::CheckAnomaly(uid) => assert_eq!(uid, &id),
        other => panic!("unexpected {other:?}"),
    }
    let anomaly = AnomalyResult::UnusualLocation { previous_ip: "10.0.0.1".into(), current_ip: "192.168.1.77".into() };
    let (stage, action) = callback_step(stage, CallbackEvent::Checked(anomaly), &req);
    assert!(matches!(stage, CallbackStage::Done));
    match action {
        CallbackAction::Complete(Some(log), CallbackReply::Redirect(url)) => {
            assert_eq!(log.event_type, "LOGIN_ANOMALY");
            assert_eq!(log.user_id.as_deref(), Some(id.as_str()));
            assert_eq!(log.ip_address, "192.168.1.77");
            assert_eq!(
                url,
                "https://app.example/done?access_token=acc&refresh_token=ref&token_type=Bearer&expires_in=900"
            );
        }
        other => panic!("unexpected {other:?}"),
    }
}

#[test]
fn callback_bad_state_is_refused() {
    let req = request("github", None);
    let (stage, _) = callback_step(CallbackStage::Start, CallbackEvent::Lockout(None), &req);
    let (stage, action) = callback_step(stage, CallbackEvent::StateFound(Err(AppError::BadRequest("x".into()))), &req);
    assert!(matches!(stage, CallbackStage::Done));
    match action {
        CallbackAction::Refuse(e) => assert_eq!((e.status, e.error.as_str()), (400, "invalid_state")),
        other => panic!("unexpected {other:?}"),
    }
}

#[test]
fn callback_failed_exchange_is_counted() {
    let req = request("github", None);
    let stage = CallbackStage::Exchanging { redirect_uri: None };
    let (stage, action) = callback_step(stage, CallbackEvent::Exchanged(Err(AppError::OAuth("boom".into()))), &req);
    assert!(matches!(stage, CallbackStage::Done));
    match action {
        CallbackAction::RecordFailure(e) => assert_eq!((e.status, e.error.as_str()), (500, "oauth_error")),
        other => panic!("unexpected {other:?}"),
    }
}

#[test]
fn callback_normal_login_answers_with_tokens() {
    let req = request("github", None);
    let u = user();
    let stage = CallbackStage::CheckingAnomaly { redirect_uri: None, user: u.clone(), pair: pair() };
    let (_, action) = callback_step(stage, CallbackEvent::Checked(AnomalyResult::Normal), &req);
    match action {
        CallbackAction::Complete(None, CallbackReply::Tokens(body)) => {
            assert_eq!(body.access_token, "acc");
            assert_eq!(body.refresh_token, "ref");
            assert_eq!(body.expires_in, 900);
            assert_eq!(body.user.id, u.id);
            assert_eq!(body.user.email, "a@example.com");
        }
        other => panic!("unexpected {other:?}"),
    }
}
