//! The GitHub login: the authorization endpoint, and the address a user is
//! sent to, which the oauth2 crate builds.

use vstd::prelude::*;
use crate::oauth::provider::{github_default_scopes, scopes_to_use};
use crate::text::string_views;
use crate::time::opt_view;

verus! {

/// GitHub's authorization endpoint.
pub const GITHUB_AUTH_URL: &'static str = "https://github.com/login/oauth/authorize";

/// The authorization request address that oauth2 builds for an endpoint,
/// client id, redirect address, state and scopes; `None` when either
/// address does not parse as a URL.
pub uninterp spec fn oauth2_authorize_url(
    auth_url: Seq<char>,
    client_id: Seq<char>,
    redirect_uri: Seq<char>,
    state: Seq<char>,
    scopes: Seq<Seq<char>>,
) -> Option<Seq<char>>;

/// oauth2's `Client::authorize_url` on a basic client for the endpoint,
/// client id and redirect address, with the given state and scopes, then
/// `url()`. The address depends on these arguments alone; its text is left
/// to the crate (a query of `response_type`, `client_id`, `state`,
/// `redirect_uri` and `scope`) and is only named here.
#[verifier::external_body]
fn authorize_url(auth_url: &str, client_id: &str, redirect_uri: &str, state: &str, scopes: &Vec<String>) -> (r:
    Option<String>)
    ensures
        opt_view(r) == oauth2_authorize_url(auth_url@, client_id@, redirect_uri@, state@, string_views(scopes@)),
{
    let auth = oauth2::AuthUrl::new(auth_url.to_string()).ok()?;
    let redirect = oauth2::RedirectUrl::new(redirect_uri.to_string()).ok()?;
    let client = oauth2::basic::BasicClient::new(oauth2::ClientId::new(client_id.to_string()))
        .set_auth_uri(auth)
        .set_redirect_uri(redirect);
    let request = client
        .authorize_url(|| oauth2::CsrfToken::new(state.to_string()))
        .add_scopes(scopes.iter().map(|s| oauth2::Scope::new(s.clone())));
    Some(request.url().0.to_string())
}

/// The scopes a GitHub login asks for: those requested, or `read:user` and
/// `user:email` when none are.
pub open spec fn github_scopes_spec(requested: Seq<Seq<char>>) -> Seq<Seq<char>> {
    if requested.len() > 0 {
        requested
    } else {
        seq!["read:user"@, "user:email"@]
    }
}

/// The address to send a user to for a GitHub login with the given state
/// and requested scopes; `None` when the redirect address is no URL.
pub fn github_authorization_url(client_id: &str, redirect_uri: &str, state: &str, requested: Vec<String>) -> (r:
    Option<String>)
    ensures
        opt_view(r) == oauth2_authorize_url(
            GITHUB_AUTH_URL@,
            client_id@,
            redirect_uri@,
            state@,
            github_scopes_spec(string_views(requested@)),
        ),
{
    let ghost asked = string_views(requested@);
    let scopes = scopes_to_use(requested, github_default_scopes());
    assert(string_views(scopes@) =~= github_scopes_spec(asked));
    authorize_url(GITHUB_AUTH_URL, client_id, redirect_uri, state, &scopes)
}

} // verus!
