//! The decisions of the token endpoints.

use vstd::prelude::*;
use crate::models::RevokeTokenRequest;

verus! {

/// What a revocation request asks for.
#[derive(Debug, Clone, PartialEq, Eq)]
pub enum RevokeAction {
    /// Every token of the requesting user.
    All,
    /// The family of the given refresh token.
    Token(String),
    /// Nothing.
    Nothing,
}

/// All of the user's tokens when asked, else the given refresh token's
/// family, else nothing.
pub fn revoke_action(request: &RevokeTokenRequest) -> (r: RevokeAction)
    ensures
        request.revoke_all ==> r == RevokeAction::All,
        !request.revoke_all && request.refresh_token is Some ==> r == RevokeAction::Token(
            request.refresh_token.unwrap(),
        ),
        !request.revoke_all && request.refresh_token is None ==> r == RevokeAction::Nothing,
{
    if request.revoke_all {
        RevokeAction::All
    } else {
        match &request.refresh_token {
            Some(t) => RevokeAction::Token(t.clone()),
            None => RevokeAction::Nothing,
        }
    }
}

/// The message of a successful revocation.
pub fn revoke_message(action: &RevokeAction) -> (r: &'static str)
    ensures
        action is All ==> r@ == "All tokens have been revoked"@,
        action is Token ==> r@ == "Token has been revoked"@,
        action is Nothing ==> r@ == "No action taken"@,
{
    match action {
        RevokeAction::All => "All tokens have been revoked",
        RevokeAction::Token(_) => "Token has been revoked",
        RevokeAction::Nothing => "No action taken",
    }
}

} // verus!
