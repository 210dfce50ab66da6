//! The account rules: which looked-up user a request may act on.

use vstd::prelude::*;
use crate::error::AppError;
use crate::models::{CreateUserFromOAuth, User, UserProfile};
use crate::text::owned;

verus! {

/// What a user sees of their account.
pub open spec fn profile_spec(u: User) -> UserProfile {
    UserProfile {
        id: u.id,
        email: u.email,
        display_name: u.display_name,
        profile_picture_url: u.profile_picture_url,
        email_verified: u.email_verified,
        created_at: u.created_at,
    }
}

/// A not-found error about the user.
pub open spec fn user_missing(e: AppError) -> bool {
    e matches AppError::NotFound(m) && m@ == "User not found"@
}

fn not_found() -> (r: AppError)
    ensures
        user_missing(r),
{
    proof {
        reveal_strlit("User not found");
    }
    AppError::NotFound(owned("User not found"))
}

/// The user a profile request acts on: a missing user is not found, an
/// inactive one is forbidden.
pub fn require_active(user: Option<User>) -> (r: Result<User, AppError>)
    ensures
        user is None ==> (r matches Err(e) && user_missing(e)),
        user matches Some(u) ==> (!u.is_active ==> r == Err::<User, AppError>(AppError::Forbidden)),
        user matches Some(u) ==> (u.is_active ==> r == Ok::<User, AppError>(u)),
{
    match user {
        None => Err(not_found()),
        Some(u) => {
            if !u.is_active {
                Err(AppError::Forbidden)
            } else {
                Ok(u)
            }
        },
    }
}

/// The profile of the requesting user, under the rules of `require_active`.
pub fn profile_of(user: Option<User>) -> (r: Result<UserProfile, AppError>)
    ensures
        user is None ==> (r matches Err(e) && user_missing(e)),
        user matches Some(u) ==> (!u.is_active ==> r is Err && (r matches Err(e) && e
            == AppError::Forbidden)),
        user matches Some(u) ==> (u.is_active ==> (r matches Ok(p) && p == profile_spec(u))),
{
    match require_active(user) {
        Ok(u) => Ok(UserProfile::from(u)),
        Err(e) => Err(e),
    }
}

/// The profile after an update, looked up again: not found if the user
/// went missing meanwhile.
pub fn updated_profile(user: Option<User>) -> (r: Result<UserProfile, AppError>)
    ensures
        user is None ==> (r matches Err(e) && user_missing(e)),
        user matches Some(u) ==> (r matches Ok(p) && p == profile_spec(u)),
{
    match user {
        None => Err(not_found()),
        Some(u) => Ok(UserProfile::from(u)),
    }
}

/// Whether an account may be deleted or deactivated: a missing or inactive
/// user is not found.
pub fn require_deletable(user: &Option<User>) -> (r: Result<(), AppError>)
    ensures
        (user matches Some(u) && u.is_active) ==> r is Ok,
        !(user matches Some(u) && u.is_active) ==> (r matches Err(e) && user_missing(e)),
{
    match user {
        Some(u) => {
            if u.is_active {
                Ok(())
            } else {
                Err(not_found())
            }
        },
        None => Err(not_found()),
    }
}

/// The user made for a provider identity whose e-mail is not known yet:
/// active, with a fresh id, verified when the provider says so.
pub fn user_from_oauth(data: CreateUserFromOAuth) -> (r: User)
    ensures
        r.id@.len() == 36,
        r.email == data.email,
        r.display_name == data.display_name,
        r.profile_picture_url == data.profile_picture_url,
        r.is_active,
        r.email_verified == data.email_verified,
        r.created_at@ == r.updated_at@,
        r.last_login_at is None,
{
    let u = User::new(data.email, data.display_name, data.profile_picture_url);
    if data.email_verified {
        u.with_email_verified()
    } else {
        u
    }
}

} // verus!
