use auth_service::oauth::github::{github_authorization_url, GITHUB_AUTH_URL};

#[test]
fn github_url_asks_for_default_scopes() {
    let url = github_authorization_url("client-1", "http://localhost:3000/api/v1/auth/oauth/github/callback", "st-42", vec![])
        .expect("valid redirect address");
    assert!(url.starts_with("https://github.com/login/oauth/authorize?"));
    assert!(url.contains("response_type=code"));
    assert!(url.contains("client_id=client-1"));
    assert!(url.contains("state=st-42"));
    assert!(url.contains("scope=read%3Auser+user%3Aemail"));
}

#[test]
fn github_url_uses_requested_scopes() {
    let url = github_authorization_url("client-1", "http://localhost:3000/cb", "s", vec!["repo".to_string(), "gist".to_string()])
        .expect("valid redirect address");
    assert!(url.contains("scope=repo+gist"));
    assert!(!url.contains("read%3Auser"));
    assert!(url.contains("redirect_uri=http%3A%2F%2Flocalhost%3A3000%2Fcb"));
}

#[test]
fn github_url_refuses_bad_redirect() {
    assert!(github_authorization_url("client-1", "not a url", "s", vec![]).is_none());
}

#[test]
fn github_endpoint_constant() {
    assert_eq!(GITHUB_AUTH_URL, "https://github.com/login/oauth/authorize");
}
