//! Users and their profiles.

use vstd::prelude::*;
use crate::time::{new_uuid, now_rfc3339, uuid_v4_text, rfc3339_text, Instant};

verus! {

#[derive(Debug, Clone)]
pub struct User {
    pub id: String,
    pub email: String,
    pub display_name: Option<String>,
    pub profile_picture_url: Option<String>,
    pub is_active: bool,
    pub email_verified: bool,
    pub created_at: String,
    pub updated_at: String,
    pub last_login_at: Option<String>,
}

impl User {
    /// A new active user with a fresh id, an unverified e-mail and no login
    /// yet; creation and update times are the same reading of the clock.
    pub fn new(email: String, display_name: Option<String>, profile_picture_url: Option<String>) -> (r: Self)
        ensures
            r.id@.len() == 36,
            uuid_v4_text(r.id@),
            exists|t: Instant| t.wf() && r.created_at@ == #[trigger] rfc3339_text(t.secs, t.nanos),
            r.email == email,
            r.display_name == display_name,
            r.profile_picture_url == profile_picture_url,
            r.is_active,
            !r.email_verified,
            r.created_at@ == r.updated_at@,
            r.last_login_at is None,
    {
        let now = now_rfc3339();
        User {
            id: new_uuid(),
            email,
            display_name,
            profile_picture_url,
            is_active: true,
            email_verified: false,
            created_at: now.clone(),
            updated_at: now,
            last_login_at: None,
        }
    }

    pub fn with_email_verified(self) -> (r: Self)
        ensures
            r == (User { email_verified: true, ..self }),
    {
        let mut s = self;
        s.email_verified = true;
        s
    }
}

/// What a user sees of their own account.
#[derive(Debug)]
pub struct UserProfile {
    pub id: String,
    pub email: String,
    pub display_name: Option<String>,
    pub profile_picture_url: Option<String>,
    pub email_verified: bool,
    pub created_at: String,
}

impl From<User> for UserProfile {
    fn from(user: User) -> (r: Self) {
        UserProfile {
            id: user.id,
            email: user.email,
            display_name: user.display_name,
            profile_picture_url: user.profile_picture_url,
            email_verified: user.email_verified,
            created_at: user.created_at,
        }
    }
}

impl vstd::std_specs::convert::FromSpecImpl<User> for UserProfile {
    open spec fn obeys_from_spec() -> bool {
        true
    }

    open spec fn from_spec(user: User) -> UserProfile {
        UserProfile {
            id: user.id,
            email: user.email,
            display_name: user.display_name,
            profile_picture_url: user.profile_picture_url,
            email_verified: user.email_verified,
            created_at: user.created_at,
        }
    }
}

/// A change of a user's profile; a display name, when given, must be 1 to
/// 255 characters long.
#[derive(Debug)]
pub struct UpdateUserRequest {
    pub display_name: Option<String>,
}

impl UpdateUserRequest {
    pub open spec fn valid_spec(self) -> bool {
        match self.display_name {
            Some(n) => 1 <= n@.len() <= 255,
            None => true,
        }
    }

    pub fn is_valid(&self) -> (r: bool)
        ensures
            r == self.valid_spec(),
    {
        match &self.display_name {
            Some(n) => {
                let k = n.as_str().unicode_len();
                1 <= k && k <= 255
            },
            None => true,
        }
    }
}

#[derive(Debug, Clone)]
pub struct CreateUserFromOAuth {
    pub email: String,
    pub display_name: Option<String>,
    pub profile_picture_url: Option<String>,
    pub email_verified: bool,
}

} // verus!
