//! What an OAuth provider hands back, and the GitHub-specific choices made
//! on it: which scopes to ask for, which of a user's e-mail addresses to
//! use, and how a GitHub profile becomes user information.

use vstd::prelude::*;
use crate::error::AppError;
use crate::models::{GitHubEmail, GitHubUserInfo, ProviderName};
use crate::numfmt::{push_signed_dec, signed_dec_spec};
use crate::text::owned;

verus! {

/// A user as the provider knows them.
#[derive(Debug, Clone)]
pub struct OAuthUserInfo {
    pub provider: ProviderName,
    pub provider_user_id: String,
    pub email: String,
    pub email_verified: bool,
    pub display_name: Option<String>,
    pub profile_picture_url: Option<String>,
}

/// The tokens that a provider issues for an authorization code.
#[derive(Debug, Clone)]
pub struct OAuthTokens {
    pub access_token: String,
    pub refresh_token: Option<String>,
    pub expires_in: Option<u64>,
    pub scope: Option<String>,
}

/// The scopes GitHub is asked for when the request names none.
pub fn github_default_scopes() -> (r: Vec<&'static str>)
    ensures
        r@.len() == 2,
        r@[0]@ == "read:user"@,
        r@[1]@ == "user:email"@,
{
    let mut v: Vec<&'static str> = Vec::new();
    v.push("read:user");
    v.push("user:email");
    v
}

/// The scopes to ask for: those requested, or the defaults when none are.
pub fn scopes_to_use(requested: Vec<String>, defaults: Vec<&'static str>) -> (r: Vec<String>)
    ensures
        requested@.len() > 0 ==> r@ == requested@,
        requested@.len() == 0 ==> r@.len() == defaults@.len() && forall|i: int|
            0 <= i < r@.len() ==> #[trigger] r@[i]@ == defaults@[i]@,
{
    if requested.len() > 0 {
        return requested;
    }
    let mut r: Vec<String> = Vec::new();
    let n = defaults.len();
    let mut i: usize = 0;
    while i < n
        invariant
            n == defaults@.len(),
            i <= n,
            r@.len() == i,
            forall|j: int| 0 <= j < i ==> #[trigger] r@[j]@ == defaults@[j]@,
        decreases n - i,
    {
        r.push(owned(defaults[i]));
        i = i + 1;
    }
    r
}

/// Whether an address has the wanted properties (a property not wanted is
/// not looked at).
pub open spec fn has_flags(e: GitHubEmail, primary: bool, verified: bool) -> bool {
    (!primary || e.primary) && (!verified || e.verified)
}

/// Whether `i` is the first index with the given properties.
pub open spec fn is_first_with(emails: Seq<GitHubEmail>, primary: bool, verified: bool, i: int) -> bool {
    &&& 0 <= i < emails.len()
    &&& has_flags(emails[i], primary, verified)
    &&& forall|j: int| 0 <= j < i ==> !has_flags(#[trigger] emails[j], primary, verified)
}

/// Whether some address has the given properties.
pub open spec fn some_with(emails: Seq<GitHubEmail>, primary: bool, verified: bool) -> bool {
    exists|i: int| 0 <= i < emails.len() && has_flags(#[trigger] emails[i], primary, verified)
}

/// The address GitHub logins use: the first primary and verified one, else
/// the first primary one, else the first verified one, else the first.
pub open spec fn primary_email_index(emails: Seq<GitHubEmail>, i: int) -> bool {
    if some_with(emails, true, true) {
        is_first_with(emails, true, true, i)
    } else if some_with(emails, true, false) {
        is_first_with(emails, true, false, i)
    } else if some_with(emails, false, true) {
        is_first_with(emails, false, true, i)
    } else {
        is_first_with(emails, false, false, i)
    }
}

fn find_first(emails: &Vec<GitHubEmail>, primary: bool, verified: bool) -> (r: Option<usize>)
    ensures
        r matches Some(i) ==> is_first_with(emails@, primary, verified, i as int),
        r is None ==> !some_with(emails@, primary, verified),
{
    let n = emails.len();
    let mut i: usize = 0;
    while i < n
        invariant
            n == emails@.len(),
            i <= n,
            forall|j: int| 0 <= j < i ==> !has_flags(#[trigger] emails@[j], primary, verified),
        decreases n - i,
    {
        let e = &emails[i];
        if (!primary || e.primary) && (!verified || e.verified) {
            return Some(i);
        }
        i = i + 1;
    }
    None
}

/// The address and its verification to use for a GitHub login, or an OAuth
/// error when the user has no address at all.
pub fn select_primary_email(emails: &Vec<GitHubEmail>) -> (r: Result<(String, bool), AppError>)
    ensures
        r matches Ok((e, v)) ==> exists|i: int|
            primary_email_index(emails@, i) && e@ == emails@[i].email@ && v == #[trigger] emails@[i].verified,
        r is Err <==> emails@.len() == 0,
        r matches Err(e) ==> (e matches AppError::OAuth(m) && m@ == "No email found for GitHub user"@),
{
    let found = match find_first(emails, true, true) {
        Some(i) => Some(i),
        None => match find_first(emails, true, false) {
            Some(i) => Some(i),
            None => match find_first(emails, false, true) {
                Some(i) => Some(i),
                None => find_first(emails, false, false),
            },
        },
    };
    match found {
        Some(i) => {
            assert(primary_email_index(emails@, i as int));
            Ok((owned(emails[i].email.as_str()), emails[i].verified))
        },
        None => {
            proof {
                reveal_strlit("No email found for GitHub user");
                if emails@.len() > 0 {
                    assert(has_flags(emails@[0], false, false));
                    assert(some_with(emails@, false, false));
                }
            }
            Err(AppError::OAuth(owned("No email found for GitHub user")))
        },
    }
}

/// A GitHub profile as user information: the numeric id in decimal, the
/// e-mail chosen for it, the name or else the login, and the avatar.
pub fn github_user_info(user: GitHubUserInfo, email: String, email_verified: bool) -> (r: OAuthUserInfo)
    ensures
        r.provider == ProviderName::Github,
        r.provider_user_id@ == signed_dec_spec(user.id as int),
        r.email == email,
        r.email_verified == email_verified,
        r.display_name == (match user.name {
            Some(n) => Some(n),
            None => Some(user.login),
        }),
        r.profile_picture_url == user.avatar_url,
{
    let mut id = String::new();
    push_signed_dec(&mut id, user.id);
    assert(id@ =~= signed_dec_spec(user.id as int));
    let display_name = match user.name {
        Some(n) => Some(n),
        None => Some(user.login),
    };
    OAuthUserInfo {
        provider: ProviderName::Github,
        provider_user_id: id,
        email,
        email_verified,
        display_name,
        profile_picture_url: user.avatar_url,
    }
}

/// Whether the profile carries an e-mail of its own (GitHub reports it
/// only when public); without one, the addresses are fetched. A public
/// address counts as verified.
pub fn profile_email(user: &GitHubUserInfo) -> (r: Option<(String, bool)>)
    ensures
        user.email matches Some(e) ==> (r matches Some((x, v)) && x@ == e@ && v),
        user.email is None ==> r is None,
{
    match &user.email {
        Some(e) => Some((owned(e.as_str()), true)),
        None => None,
    }
}

} // verus!
