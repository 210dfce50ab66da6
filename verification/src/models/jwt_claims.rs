//! Token claims, token pairs and the device binding of refresh tokens.

use vstd::prelude::*;
use sha2::Digest;
use crate::numfmt::digit_spec;
use crate::net::{subnet_of, subnet_spec};
use crate::text::owned;

verus! {

#[derive(Debug, Clone)]
pub struct AccessTokenClaims {
    pub sub: String,
    pub email: String,
    pub iss: String,
    pub aud: String,
    pub exp: i64,
    pub iat: i64,
    pub jti: String,
    pub client_project: Option<String>,
}

#[derive(Debug, Clone)]
pub struct RefreshTokenClaims {
    pub sub: String,
    pub iss: String,
    pub aud: String,
    pub exp: i64,
    pub iat: i64,
    pub jti: String,
    pub family_id: String,
    pub generation: u32,
    pub client_project: Option<String>,
    pub device_hash: Option<String>,
}

#[derive(Debug, Clone)]
pub struct TokenPair {
    pub access_token: String,
    pub refresh_token: String,
    pub token_type: String,
    pub expires_in: i64,
}

impl TokenPair {
    /// A bearer token pair.
    pub fn new(access_token: String, refresh_token: String, expires_in: i64) -> (r: Self)
        ensures
            r.access_token == access_token,
            r.refresh_token == refresh_token,
            r.token_type@ == "Bearer"@,
            r.expires_in == expires_in,
    {
        TokenPair { access_token, refresh_token, token_type: owned("Bearer"), expires_in }
    }
}

/// The rotation state of one family of refresh tokens.
#[derive(Debug, Clone)]
pub struct RefreshTokenFamily {
    pub family_id: String,
    pub user_id: String,
    pub current_generation: u32,
    pub created_at: String,
    pub last_used_at: String,
    pub is_revoked: bool,
}

#[derive(Debug)]
pub struct RefreshTokenRequest {
    pub refresh_token: String,
}

#[derive(Debug)]
pub struct ValidateTokenRequest {
    pub token: String,
}

#[derive(Debug)]
pub struct RevokeTokenRequest {
    pub refresh_token: Option<String>,
    pub revoke_all: bool,
}

#[derive(Debug)]
pub struct ValidateTokenResponse {
    pub valid: bool,
    pub user_id: Option<String>,
    pub email: Option<String>,
    pub expires_at: Option<i64>,
}

/// The SHA-256 digest of a byte sequence.
pub uninterp spec fn sha256_spec(data: Seq<u8>) -> Seq<u8>;

/// sha2's `Sha256::digest`: the 32-byte digest, named.
#[verifier::external_body]
pub(crate) fn sha256_digest(data: &[u8]) -> (r: Vec<u8>)
    ensures
        r@ == sha256_spec(data@),
        r@.len() == 32,
{
    sha2::Sha256::digest(data).to_vec()
}

/// Lower-case hexadecimal, two digits per byte.
pub open spec fn hex_lower_spec(b: Seq<u8>) -> Seq<char>
    decreases b.len(),
{
    if b.len() == 0 {
        seq![]
    } else {
        hex_lower_spec(b.drop_last()) + seq![
            digit_spec((b.last() / 16) as nat),
            digit_spec((b.last() % 16) as nat),
        ]
    }
}

/// Two hexadecimal digits per byte.
proof fn lemma_hex_lower_len(b: Seq<u8>)
    ensures
        hex_lower_spec(b).len() == 2 * b.len(),
    decreases b.len(),
{
    if b.len() > 0 {
        lemma_hex_lower_len(b.drop_last());
    }
}

/// hex's `encode`: each byte as two lower-case hexadecimal digits, high
/// digit first.
#[verifier::external_body]
pub(crate) fn hex_encode(b: &[u8]) -> (r: String)
    ensures
        r@ == hex_lower_spec(b@),
{
    hex::encode(b)
}

/// The UTF-8 bytes of an optional text (none for `None`).
pub open spec fn opt_bytes(s: Option<Seq<char>>) -> Seq<u8> {
    match s {
        Some(t) => vstd::utf8::encode_utf8(t),
        None => seq![],
    }
}

/// What identifies a device for token binding.
#[derive(Debug, Clone)]
pub struct DeviceInfo {
    pub user_agent: Option<String>,
    pub accept_language: Option<String>,
    pub ip_subnet: Option<String>,
}

impl DeviceInfo {
    pub open spec fn fingerprint_bytes(self) -> Seq<u8> {
        opt_bytes(crate::time::opt_view(self.user_agent)) + opt_bytes(crate::time::opt_view(
            self.accept_language,
        )) + opt_bytes(crate::time::opt_view(self.ip_subnet))
    }

    /// The device hash: the first 16 bytes of the SHA-256 digest of the
    /// user agent, accept-language and subnet (those present, in that
    /// order), in lower-case hexadecimal.
    pub open spec fn hash_spec(self) -> Seq<char> {
        hex_lower_spec(sha256_spec(self.fingerprint_bytes()).take(16))
    }

    pub fn compute_hash(&self) -> (r: String)
        ensures
            r@ == self.hash_spec(),
            r@.len() == 32,
    {
        let mut data: Vec<u8> = Vec::new();
        if let Some(ua) = &self.user_agent {
            data.extend_from_slice(ua.as_str().as_bytes());
        }
        if let Some(lang) = &self.accept_language {
            data.extend_from_slice(lang.as_str().as_bytes());
        }
        if let Some(subnet) = &self.ip_subnet {
            data.extend_from_slice(subnet.as_str().as_bytes());
        }
        assert(data@ =~= self.fingerprint_bytes());
        let digest = sha256_digest(data.as_slice());
        let mut first: Vec<u8> = Vec::new();
        let mut i: usize = 0;
        while i < 16
            invariant
                digest@.len() == 32,
                i <= 16,
                first@ == digest@.take(i as int),
            decreases 16 - i,
        {
            first.push(digest[i]);
            i = i + 1;
            assert(first@ =~= digest@.take(i as int));
        }
        proof {
            lemma_hex_lower_len(first@);
        }
        hex_encode(first.as_slice())
    }

    /// The subnet of an address (`a.b.c.0/24` or `x:y:z::/48`), or `None`
    /// when the text is no IP address.
    pub fn extract_subnet(ip: &str) -> (r: Option<String>)
        ensures
            r matches Some(x) ==> subnet_spec(ip@) == Some(x@),
            r is None ==> subnet_spec(ip@) is None,
    {
        subnet_of(ip)
    }
}

} // verus!
