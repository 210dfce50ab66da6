//! The login flow's own decisions: the state of a pending login, which user
//! a provider identity belongs to, how the provider's tokens are kept, and
//! what tokens a completed login gets.

use vstd::prelude::*;
use crate::error::AppError;
use crate::models::{CreateUserFromOAuth, DeviceInfo, OAuthProvider, ProviderName, User};
use crate::oauth::provider::{OAuthTokens, OAuthUserInfo};
use crate::oauth::state::{consume_spec, oauth_error, OAuthStateManager, StateView};
use crate::security::encoding::padded_len;
use crate::security::encryption::{EncryptionService, PLAINTEXT_MAX};
use crate::security::jwt::TokenRequest;
use crate::services::token_service::device_hash_of;
use crate::time::{in_calendar, instant_from_nanos, instant_rfc3339, instant_at, lemma_total_bounds, rfc3339_text, Instant};
use crate::text::owned;

verus! {

/// The pending logins and the key the provider tokens are kept under.
pub struct AuthService {
    state_manager: OAuthStateManager,
    encryption_service: EncryptionService,
}

/// Whether an encrypted text of this length can be produced (its base64
/// length fits in memory).
pub open spec fn sealable(s: Seq<char>) -> bool {
    padded_len(vstd::utf8::encode_utf8(s).len() + 28) <= usize::MAX
}

/// When provider tokens that live `secs` seconds expire, counted from
/// `now`, as chrono computes it: the seconds are read as `i64` (wrapping)
/// and must make a `TimeDelta`, and the end must lie in the calendar.
pub open spec fn expiry_computable(now: Instant, secs: u64) -> bool {
    let s = secs as i64;
    &&& -9_223_372_036_854_775 <= s <= 9_223_372_036_854_775
    &&& in_calendar(now.total() + s * 1_000_000_000)
    &&& now.nanos < 1_000_000_000
}

/// The RFC 3339 text of the end of a token lifetime of `secs` from `now`.
pub open spec fn expiry_text(now: Instant, secs: u64) -> Seq<char> {
    let end = instant_at(now.total() + (secs as i64) * 1_000_000_000);
    rfc3339_text(end.secs, end.nanos)
}

impl AuthService {
    pub closed spec fn states(&self) -> OAuthStateManager {
        self.state_manager
    }

    pub closed spec fn encryption(&self) -> EncryptionService {
        self.encryption_service
    }

    pub open spec fn wf(&self) -> bool {
        self.states().wf()
    }

    pub fn new(state_manager: OAuthStateManager, encryption_service: EncryptionService) -> (r: Self)
        requires
            state_manager.wf(),
        ensures
            r.wf(),
            r.states() == state_manager,
            r.encryption() == encryption_service,
    {
        AuthService { state_manager, encryption_service }
    }

    /// Registers a pending login for a project (a fresh state token).
    pub fn create_oauth_state(&mut self, client_project: &str, redirect_uri: Option<String>) -> (r: String)
        requires
            old(self).wf(),
        ensures
            final(self).wf(),
            final(self).encryption() == old(self).encryption(),
            crate::security::api_key::encodes_bytes(r@, 32),
    {
        self.state_manager.create_state(client_project, redirect_uri)
    }

    /// Takes a pending login out: its project and redirect if it was valid.
    pub fn validate_and_consume_state(&mut self, state: &str) -> (r: Result<(String, Option<String>), AppError>)
        requires
            old(self).wf(),
        ensures
            final(self).wf(),
            final(self).encryption() == old(self).encryption(),
            final(self).states().states() == old(self).states().states().remove(state@),
            exists|t: Instant|
                t.wf() && match r {
                    Ok((project, redirect)) => (#[trigger] consume_spec(old(self).states().states(), state@, t.total()).1
                        matches Ok(v) && v.1 == project@ && v.2 == crate::time::opt_view(redirect)),
                    Err(e) => consume_spec(old(self).states().states(), state@, t.total()).1 matches Err(m)
                        && oauth_error(e, m),
                },
    {
        match self.state_manager.validate_and_consume(state) {
            Ok(data) => Ok((data.client_project, data.redirect_uri)),
            Err(e) => Err(e),
        }
    }

    /// The user an already linked provider identity belongs to: an inactive
    /// one is forbidden; without one, a user is to be found or created.
    pub fn existing_user(linked: Option<User>) -> (r: Result<Option<User>, AppError>)
        ensures
            linked matches Some(u) ==> (u.is_active ==> r == Ok::<Option<User>, AppError>(Some(u))),
            linked matches Some(u) ==> (!u.is_active ==> r == Err::<Option<User>, AppError>(AppError::Forbidden)),
            linked is None ==> r == Ok::<Option<User>, AppError>(None),
    {
        match linked {
            Some(u) => {
                if !u.is_active {
                    Err(AppError::Forbidden)
                } else {
                    Ok(Some(u))
                }
            },
            None => Ok(None),
        }
    }

    /// The user to create for a provider identity.
    pub fn new_user_data(info: &OAuthUserInfo) -> (r: CreateUserFromOAuth)
        ensures
            r == (CreateUserFromOAuth {
                email: info.email,
                display_name: info.display_name,
                profile_picture_url: info.profile_picture_url,
                email_verified: info.email_verified,
            }),
    {
        CreateUserFromOAuth {
            email: info.email.clone(),
            display_name: info.display_name.clone(),
            profile_picture_url: info.profile_picture_url.clone(),
            email_verified: info.email_verified,
        }
    }

    /// How a provider identity is kept for a user at `now`: its tokens
    /// encrypted, their expiry (if given) as RFC 3339, its scope (if given).
    pub fn provider_record(&self, user_id: &str, info: &OAuthUserInfo, tokens: &OAuthTokens, now: Instant) -> (r:
        Result<OAuthProvider, AppError>)
        requires
            sealable(tokens.access_token@),
            tokens.refresh_token matches Some(t) ==> sealable(t@),
            tokens.expires_in matches Some(s) ==> expiry_computable(now, s),
        ensures
            r matches Ok(p) ==> p.user_id@ == user_id@ && p.provider_name@ == info.provider.name_spec()
                && p.provider_user_id == info.provider_user_id && p.access_token_encrypted is Some
                && (p.refresh_token_encrypted is Some <==> tokens.refresh_token is Some)
                && crate::time::opt_view(p.token_expires_at) == (match tokens.expires_in {
                Some(s) => Some(expiry_text(now, s)),
                None => None,
            }) && p.scope == tokens.scope && p.provider_data is None,
            r is Err ==> vstd::utf8::encode_utf8(tokens.access_token@).len() > PLAINTEXT_MAX || (
            tokens.refresh_token matches Some(t) && vstd::utf8::encode_utf8(t@).len() > PLAINTEXT_MAX),
    {
        let access = match self.encryption_service.encrypt(tokens.access_token.as_str()) {
            Ok(a) => a,
            Err(e) => {
                return Err(e);
            },
        };
        let refresh = match &tokens.refresh_token {
            Some(t) => match self.encryption_service.encrypt(t.as_str()) {
                Ok(x) => Some(x),
                Err(e) => {
                    return Err(e);
                },
            },
            None => None,
        };
        let expires_at = match tokens.expires_in {
            Some(secs) => {
                proof {
                    lemma_total_bounds(now);
                }
                let s = secs as i64;
                let end = instant_from_nanos(now.to_nanos() + (s as i128) * 1_000_000_000);
                Some(instant_rfc3339(end))
            },
            None => None,
        };
        let record = OAuthProvider::new(owned(user_id), info.provider, info.provider_user_id.clone());
        let record = record.with_tokens(access, refresh, expires_at);
        let record = match &tokens.scope {
            Some(scope) => record.with_scope(scope.clone()),
            None => record,
        };
        Ok(record)
    }

    /// The tokens a completed login gets: for the user and project, a new
    /// family (none given) at generation 0, bound to the device if known.
    pub fn callback_token_request(user: &User, client_project: &str, device_info: Option<&DeviceInfo>) -> (r: TokenRequest)
        ensures
            r.user_id == user.id,
            r.email == user.email,
            crate::time::opt_view(r.client_project) == Some(client_project@),
            r.family_id is None,
            r.generation == 0,
            crate::time::opt_view(r.device_hash) == device_hash_of(
                crate::services::token_service::device_view(device_info),
            ),
    {
        let device_hash: Option<String> = match device_info {
            Some(d) => Some(d.compute_hash()),
            None => None,
        };
        TokenRequest {
            user_id: user.id.clone(),
            email: user.email.clone(),
            client_project: Some(owned(client_project)),
            family_id: None,
            generation: 0,
            device_hash,
        }
    }
    /// The provider of a stored identity, read back from its name; an
    /// unknown name is a bad request.
    pub fn stored_provider_name(record: &OAuthProvider) -> (r: Result<ProviderName, AppError>)
        ensures
            r matches Ok(p) ==> ProviderName::parse_spec(record.provider_name@) == Some(p),
            r matches Err(e) ==> ProviderName::parse_spec(record.provider_name@) is None && (e matches AppError::BadRequest(
                m,
            ) && m@ == "Invalid provider name"@),
    {
        match ProviderName::parse_name(record.provider_name.as_str()) {
            Ok(p) => Ok(p),
            Err(_) => Err(AppError::BadRequest(owned("Invalid provider name"))),
        }
    }
}

} // verus!
