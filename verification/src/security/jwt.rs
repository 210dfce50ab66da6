//! The content of the signed tokens: which claims an access or refresh
//! token carries, how a verification against the current and the previous
//! public key is decided, and how a configured key text becomes PEM.
//! Signing and verifying themselves are done by jsonwebtoken around this
//! module.

use vstd::prelude::*;
use vstd::utf8::{decode_utf8, valid_utf8};
use crate::error::AppError;
use crate::models::{AccessTokenClaims, RefreshTokenClaims};
use crate::security::encoding::{base64_std_decode, decode_std, string_from_utf8};
use crate::text::{
    chars_of, owned, replace_chars, replace_spec, starts_with_chars, starts_with_spec, string_of,
    trim_chars, trim_spec,
};
use crate::time::{in_calendar, instant_at, instant_from_nanos, lemma_total_bounds, Instant};

verus! {

/// What a pair of tokens is issued for.
#[derive(Debug, Clone)]
pub struct TokenRequest {
    pub user_id: String,
    pub email: String,
    pub client_project: Option<String>,
    pub family_id: Option<String>,
    pub generation: u32,
    pub device_hash: Option<String>,
}

/// The settings of token issuing besides the keys.
#[derive(Debug, Clone)]
pub struct TokenSettings {
    pub key_id: String,
    pub issuer: String,
    pub access_token_expiration_minutes: i64,
    pub refresh_token_expiration_days: i64,
}

/// The largest number of minutes chrono's `TimeDelta::minutes` takes.
pub const MAX_TOKEN_MINUTES: i64 = 153_722_867_280_912;

/// The largest number of days chrono's `TimeDelta::days` takes.
pub const MAX_TOKEN_DAYS: i64 = 106_751_991_167;

pub open spec fn token_minutes_ok(m: i64) -> bool {
    -MAX_TOKEN_MINUTES <= m <= MAX_TOKEN_MINUTES
}

pub open spec fn token_days_ok(d: i64) -> bool {
    -MAX_TOKEN_DAYS <= d <= MAX_TOKEN_DAYS
}

/// Whether chrono computes the expiry of an access token issued at `now`.
pub open spec fn access_expiry_computable(s: TokenSettings, now: Instant) -> bool {
    token_minutes_ok(s.access_token_expiration_minutes) && in_calendar(
        now.total() + s.access_token_expiration_minutes * 60_000_000_000,
    )
}

/// Whether chrono computes the expiry of a refresh token issued at `now`.
pub open spec fn refresh_expiry_computable(s: TokenSettings, now: Instant) -> bool {
    token_days_ok(s.refresh_token_expiration_days) && in_calendar(
        now.total() + s.refresh_token_expiration_days * 86_400_000_000_000,
    )
}

pub open spec fn str_opt(s: Option<&str>) -> Option<Seq<char>> {
    match s {
        Some(t) => Some(t@),
        None => None,
    }
}

fn owned_opt(s: Option<&str>) -> (r: Option<String>)
    ensures
        crate::time::opt_view(r) == str_opt(s),
{
    match s {
        Some(t) => Some(owned(t)),
        None => None,
    }
}

/// The claims of an access token issued at `now` with the given id: for
/// the service's audience, expiring after the configured minutes.
pub fn access_claims(
    settings: &TokenSettings,
    user_id: &str,
    email: &str,
    client_project: Option<&str>,
    now: Instant,
    jti: String,
) -> (r: AccessTokenClaims)
    requires
        access_expiry_computable(*settings, now),
    ensures
        r.sub@ == user_id@,
        r.email@ == email@,
        r.iss == settings.issuer,
        r.aud@ == audience_spec(false),
        r.exp == instant_at(now.total() + settings.access_token_expiration_minutes * 60_000_000_000).secs,
        r.iat == now.secs,
        r.jti == jti,
        crate::time::opt_view(r.client_project) == str_opt(client_project),
{
    proof {
        lemma_total_bounds(now);
    }
    let m = settings.access_token_expiration_minutes;
    assert(-10_000_000_000_000_000_000_000_000 <= m * 60_000_000_000 <= 10_000_000_000_000_000_000_000_000)
        by (nonlinear_arith)
        requires
            token_minutes_ok(m),
    ;
    let end = now.to_nanos() + (m as i128) * 60_000_000_000;
    let exp = instant_from_nanos(end);
    AccessTokenClaims {
        sub: owned(user_id),
        email: owned(email),
        iss: settings.issuer.clone(),
        aud: owned("auth-service"),
        exp: exp.secs,
        iat: now.secs,
        jti,
        client_project: owned_opt(client_project),
    }
}

/// The claims of a refresh token issued at `now` with the given id: for
/// the refresh audience, in the given family and generation, bound to the
/// device hash if any, expiring after the configured days.
pub fn refresh_claims(
    settings: &TokenSettings,
    user_id: &str,
    client_project: Option<&str>,
    family_id: &str,
    generation: u32,
    device_hash: Option<&str>,
    now: Instant,
    jti: String,
) -> (r: RefreshTokenClaims)
    requires
        refresh_expiry_computable(*settings, now),
    ensures
        r.sub@ == user_id@,
        r.iss == settings.issuer,
        r.aud@ == audience_spec(true),
        r.exp == instant_at(now.total() + settings.refresh_token_expiration_days * 86_400_000_000_000).secs,
        r.iat == now.secs,
        r.jti == jti,
        r.family_id@ == family_id@,
        r.generation == generation,
        crate::time::opt_view(r.client_project) == str_opt(client_project),
        crate::time::opt_view(r.device_hash) == str_opt(device_hash),
{
    proof {
        lemma_total_bounds(now);
    }
    let d = settings.refresh_token_expiration_days;
    assert(-10_000_000_000_000_000_000_000_000 <= d * 86_400_000_000_000 <= 10_000_000_000_000_000_000_000_000)
        by (nonlinear_arith)
        requires
            token_days_ok(d),
    ;
    let end = now.to_nanos() + (d as i128) * 86_400_000_000_000;
    let exp = instant_from_nanos(end);
    RefreshTokenClaims {
        sub: owned(user_id),
        iss: settings.issuer.clone(),
        aud: owned("auth-service-refresh"),
        exp: exp.secs,
        iat: now.secs,
        jti,
        family_id: owned(family_id),
        generation,
        client_project: owned_opt(client_project),
        device_hash: owned_opt(device_hash),
    }
}

/// The audience of a token: the service's for access tokens, its refresh
/// audience for refresh tokens.
pub open spec fn audience_spec(refresh: bool) -> Seq<char> {
    if refresh {
        "auth-service-refresh"@
    } else {
        "auth-service"@
    }
}

/// What a token of the given kind is verified against: the configured
/// issuer, and the audience that `access_claims` or `refresh_claims` write.
pub fn verification_target(settings: &TokenSettings, refresh: bool) -> (r: (String, String))
    ensures
        r.0 == settings.issuer,
        r.1@ == audience_spec(refresh),
{
    let audience = if refresh {
        owned("auth-service-refresh")
    } else {
        owned("auth-service")
    };
    (settings.issuer.clone(), audience)
}

/// The family a refresh token is issued in: the request's own, or, for a
/// request without one (a new login), the freshly drawn id.
pub fn refresh_family(request: &TokenRequest, fresh: String) -> (r: String)
    ensures
        r@ == (match request.family_id {
            Some(f) => f@,
            None => fresh@,
        }),
{
    match &request.family_id {
        Some(f) => f.clone(),
        None => fresh,
    }
}

/// Lifetime of an access token in seconds, as announced with a pair.
pub fn access_token_seconds(settings: &TokenSettings) -> (r: i64)
    requires
        token_minutes_ok(settings.access_token_expiration_minutes),
    ensures
        r == settings.access_token_expiration_minutes * 60,
{
    settings.access_token_expiration_minutes * 60
}

/// Why jsonwebtoken refused a token: its signature had expired, or any
/// other reason.
#[derive(Debug, Clone, Copy, PartialEq, Eq)]
pub enum DecodeFailure {
    Expired,
    Invalid,
}

/// Whether a token refused under the current key is tried under the
/// previous one: only when there is one and the refusal was not expiry.
pub fn retry_with_previous(failure: DecodeFailure, has_previous: bool) -> (r: bool)
    ensures
        r == (has_previous && failure != DecodeFailure::Expired),
{
    has_previous && match failure {
        DecodeFailure::Expired => false,
        DecodeFailure::Invalid => true,
    }
}

/// The error for a refusal under the current key.
pub open spec fn refusal_error(failure: DecodeFailure) -> AppError {
    match failure {
        DecodeFailure::Expired => AppError::TokenExpired,
        DecodeFailure::Invalid => AppError::InvalidToken,
    }
}

/// The outcome of a verification: the claims under the current key, else
/// those under the previous key if it was tried and accepted them, else
/// the error of the first refusal.
pub fn verification_result<C>(first: Result<C, DecodeFailure>, retried: Option<Result<C, DecodeFailure>>) -> (r: Result<C, AppError>)
    ensures
        first matches Ok(c) ==> r == Ok::<C, AppError>(c),
        first matches Err(f) ==> (retried matches Some(Ok(c)) ==> r == Ok::<C, AppError>(c)),
        first matches Err(f) ==> (!(retried matches Some(Ok(_))) ==> r == Err::<C, AppError>(refusal_error(f))),
{
    match first {
        Ok(c) => Ok(c),
        Err(f) => match retried {
            Some(Ok(c)) => Ok(c),
            _ => Err(
                match f {
                    DecodeFailure::Expired => AppError::TokenExpired,
                    DecodeFailure::Invalid => AppError::InvalidToken,
                },
            ),
        },
    }
}

/// The PEM text of a configured key: a key not starting with `-----` whose
/// trimmed text is standard base64 of UTF-8 is that decoded text; any other
/// key has each literal `\n` (backslash, n) turned into a line break.
pub open spec fn pem_spec(key: Seq<char>) -> Seq<char> {
    if !starts_with_spec(key, "-----"@) && (base64_std_decode(trim_spec(key)) matches Some(d)
        && valid_utf8(d)) {
        decode_utf8(base64_std_decode(trim_spec(key)).unwrap())
    } else {
        replace_spec(key, seq!['\\', 'n'], seq!['\n'])
    }
}

pub fn decode_pem_key(key: &str) -> (r: String)
    ensures
        r@ == pem_spec(key@),
{
    proof {
        reveal_strlit("-----");
    }
    let k = chars_of(key);
    let dashes = chars_of("-----");
    if !starts_with_chars(k.as_slice(), dashes.as_slice()) {
        let trimmed = string_of(trim_chars(k.as_slice()).as_slice());
        if let Ok(decoded) = decode_std(trimmed.as_str()) {
            if let Ok(pem) = string_from_utf8(decoded) {
                return pem;
            }
        }
    }
    let pat: Vec<char> = vec!['\\', 'n'];
    let with: Vec<char> = vec!['\n'];
    assert(pat@ =~= seq!['\\', 'n']);
    assert(with@ =~= seq!['\n']);
    string_of(replace_chars(k.as_slice(), pat.as_slice(), with.as_slice()).as_slice())
}

} // verus!
