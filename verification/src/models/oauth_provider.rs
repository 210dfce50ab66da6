//! OAuth providers and the accounts that users hold with them.

use vstd::prelude::*;
use crate::text::{all_ascii, ascii_lower, lowered, owned, str_eq, to_lowercase};
use crate::time::{new_uuid, now_rfc3339, uuid_v4_text, rfc3339_text, Instant};

verus! {

/// The names are ASCII and already lower-case.
proof fn lemma_names_lowered()
    ensures
        all_ascii("google"@),
        ascii_lower("google"@) == "google"@,
        all_ascii("github"@),
        ascii_lower("github"@) == "github"@,
        "google"@ != "github"@,
{
    reveal_strlit("google");
    assert forall|i: int| 0 <= i < "google"@.len() implies (#[trigger] "google"@[i] as u32) < 128 by {
        if i == 0 {} else if i == 1 {} else if i == 2 {} else if i == 3 {} else if i == 4 {} else if i == 5 {}
    }
    assert(ascii_lower("google"@) =~= "google"@);
    reveal_strlit("github");
    assert forall|i: int| 0 <= i < "github"@.len() implies (#[trigger] "github"@[i] as u32) < 128 by {
        if i == 0 {} else if i == 1 {} else if i == 2 {} else if i == 3 {} else if i == 4 {} else if i == 5 {}
    }
    assert(ascii_lower("github"@) =~= "github"@);
    assert("google"@[0] != "github"@[0] || "google"@[1] != "github"@[1] || "google"@[2] != "github"@[2]);
}

#[derive(Debug, Clone, Copy, PartialEq, Eq, Structural)]
pub enum ProviderName {
    Google,
    Github,
}

/// A name as `as_str` writes it is read back as the same provider.
pub proof fn lemma_provider_name_round_trip(t: ProviderName)
    ensures
        ProviderName::parse_spec(t.name_spec()) == Some(t),
{
    lemma_names_lowered();
}

impl ProviderName {
    pub open spec fn name_spec(self) -> Seq<char> {
        match self {
            ProviderName::Google => "google"@,
            ProviderName::Github => "github"@,
        }
    }

    pub fn as_str(&self) -> (r: &'static str)
        ensures
            r@ == self.name_spec(),
            Self::parse_spec(r@) == Some(*self),
    {
        proof {
            lemma_names_lowered();
        }
        match self {
            ProviderName::Google => "google",
            ProviderName::Github => "github",
        }
    }

    /// The provider that a name denotes, read without regard to case.
    pub open spec fn parse_spec(s: Seq<char>) -> Option<ProviderName> {
        let l = lowered(s);
        if l == "google"@ {
            Some(ProviderName::Google)
        } else if l == "github"@ {
            Some(ProviderName::Github)
        } else {
            None
        }
    }

    /// Reads a provider name (case does not matter); the error says which
    /// name was unknown.
    pub fn parse_name(s: &str) -> (r: Result<ProviderName, String>)
        ensures
            r matches Ok(p) ==> Self::parse_spec(s@) == Some(p),
            r matches Err(e) ==> Self::parse_spec(s@) is None && e@ == "Unknown provider: "@ + s@,
    {
        let l = to_lowercase(s);
        if str_eq(l.as_str(), "google") {
            Ok(ProviderName::Google)
        } else if str_eq(l.as_str(), "github") {
            Ok(ProviderName::Github)
        } else {
            let mut e = owned("Unknown provider: ");
            e.append(s);
            Err(e)
        }
    }
}

impl std::str::FromStr for ProviderName {
    type Err = String;

    fn from_str(s: &str) -> (r: Result<Self, Self::Err>)
        ensures
            r matches Ok(t) ==> Self::parse_spec(s@) == Some(t),
            r matches Err(e) ==> Self::parse_spec(s@) is None && e@ == "Unknown provider: "@ + s@,
    {
        Self::parse_name(s)
    }
}

/// A user's account with an OAuth provider, with the provider's tokens
/// stored encrypted.
#[derive(Debug, Clone)]
pub struct OAuthProvider {
    pub id: String,
    pub user_id: String,
    pub provider_name: String,
    pub provider_user_id: String,
    pub access_token_encrypted: Option<String>,
    pub refresh_token_encrypted: Option<String>,
    pub token_expires_at: Option<String>,
    pub scope: Option<String>,
    pub provider_data: Option<String>,
    pub created_at: String,
    pub updated_at: String,
}

impl OAuthProvider {
    /// A new account link with a fresh id and no tokens; its creation and
    /// update times are the same reading of the clock.
    pub fn new(user_id: String, provider_name: ProviderName, provider_user_id: String) -> (r: Self)
        ensures
            r.id@.len() == 36,
            uuid_v4_text(r.id@),
            exists|t: Instant| t.wf() && r.created_at@ == #[trigger] rfc3339_text(t.secs, t.nanos),
            r.user_id == user_id,
            r.provider_name@ == provider_name.name_spec(),
            r.provider_user_id == provider_user_id,
            r.access_token_encrypted is None,
            r.refresh_token_encrypted is None,
            r.token_expires_at is None,
            r.scope is None,
            r.provider_data is None,
            r.created_at@ == r.updated_at@,
    {
        let now = now_rfc3339();
        OAuthProvider {
            id: new_uuid(),
            user_id,
            provider_name: owned(provider_name.as_str()),
            provider_user_id,
            access_token_encrypted: None,
            refresh_token_encrypted: None,
            token_expires_at: None,
            scope: None,
            provider_data: None,
            created_at: now.clone(),
            updated_at: now,
        }
    }

    pub fn with_tokens(
        self,
        access_token_encrypted: String,
        refresh_token_encrypted: Option<String>,
        expires_at: Option<String>,
    ) -> (r: Self)
        ensures
            r == (OAuthProvider {
                access_token_encrypted: Some(access_token_encrypted),
                refresh_token_encrypted,
                token_expires_at: expires_at,
                ..self
            }),
    {
        let mut s = self;
        s.access_token_encrypted = Some(access_token_encrypted);
        s.refresh_token_encrypted = refresh_token_encrypted;
        s.token_expires_at = expires_at;
        s
    }

    pub fn with_scope(self, scope: String) -> (r: Self)
        ensures
            r == (OAuthProvider { scope: Some(scope), ..self }),
    {
        let mut s = self;
        s.scope = Some(scope);
        s
    }

    pub fn with_provider_data(self, data: String) -> (r: Self)
        ensures
            r == (OAuthProvider { provider_data: Some(data), ..self }),
    {
        let mut s = self;
        s.provider_data = Some(data);
        s
    }
}

/// Google's answer to a user-info request.
#[derive(Debug)]
pub struct GoogleUserInfo {
    pub id: String,
    pub email: String,
    pub verified_email: Option<bool>,
    pub name: Option<String>,
    pub given_name: Option<String>,
    pub family_name: Option<String>,
    pub picture: Option<String>,
}

/// GitHub's answer to a user request.
#[derive(Debug)]
pub struct GitHubUserInfo {
    pub id: i64,
    pub login: String,
    pub email: Option<String>,
    pub name: Option<String>,
    pub avatar_url: Option<String>,
}

/// One of a GitHub user's e-mail addresses.
#[derive(Debug)]
pub struct GitHubEmail {
    pub email: String,
    pub primary: bool,
    pub verified: bool,
}

} // verus!
