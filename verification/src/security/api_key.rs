//! API keys (`bib_` and 32 random bytes, URL-safe base64), their Argon2
//! hashes, and random tokens.

use vstd::prelude::*;
use vstd::string::StringSliceAdditionalSpecFns;
use argon2::password_hash::{PasswordHash, PasswordHasher, PasswordVerifier, SaltString};
use crate::security::encoding::{base64_url, encode_url, unpadded_len, url_safe_char};
use crate::security::random::random_bytes;
use crate::text::{chars_of, owned, string_of};

verus! {

/// Whether Argon2 (default parameters, no secret) accepts `key` against the
/// PHC hash string `hash`: the string parses (password-hash's
/// `PasswordHash::new`) and `verify_password` succeeds on it.
pub uninterp spec fn argon2_accepts(key: Seq<char>, hash: Seq<char>) -> bool;

/// Whether a text begins with `$`, as every PHC string does.
pub open spec fn phc_start(s: Seq<char>) -> bool {
    s.len() > 0 && s[0] == '$'
}

/// Whether a text begins with `$argon2id$`.
pub open spec fn phc_argon2id(s: Seq<char>) -> bool {
    "$argon2id$"@.is_prefix_of(s)
}

/// Hashes a key with Argon2 under default parameters and a fresh random
/// salt (argon2's `hash_password` with `SaltString::generate(OsRng)`), as
/// a PHC string. The salt is chance, so the string is not stated; stated is
/// what the password-hash traits promise: verification accepts the key
/// against the string made from it; and its form: the default algorithm is
/// Argon2id, so the string begins with `$argon2id$`. Hashing fails (and
/// the service panics) only for keys longer than `u32::MAX` bytes.
#[verifier::external_body]
fn argon2_hash(key: &str) -> (r: String)
    requires
        key.spec_bytes().len() <= u32::MAX,
    ensures
        argon2_accepts(key@, r@),
        phc_argon2id(r@),
{
    let salt = SaltString::generate(&mut argon2::password_hash::rand_core::OsRng);
    argon2::Argon2::default().hash_password(key.as_bytes(), &salt).expect(
        "Failed to hash API key",
    ).to_string()
}

/// Verifies a key against a PHC hash string with Argon2 under default
/// parameters (password-hash's `PasswordHash::new`, then argon2's
/// `verify_password`); a string that does not parse is refused, among
/// them every string that does not begin with `$`.
#[verifier::external_body]
fn argon2_check(key: &str, hash: &str) -> (r: bool)
    ensures
        r == argon2_accepts(key@, hash@),
        !phc_start(hash@) ==> !r,
{
    match PasswordHash::new(hash) {
        Ok(parsed) => argon2::Argon2::default().verify_password(key.as_bytes(), &parsed).is_ok(),
        Err(_) => false,
    }
}

/// Whether `s` is the URL-safe unpadded encoding of `n` bytes.
pub open spec fn encodes_bytes(s: Seq<char>, n: nat) -> bool {
    exists|b: Seq<u8>| b.len() == n && s == #[trigger] base64_url(b)
}

/// All characters of `s` belong to the URL-safe alphabet.
pub open spec fn all_url_safe(s: Seq<char>) -> bool {
    forall|i: int| 0 <= i < s.len() ==> url_safe_char(#[trigger] s[i])
}

/// A random token: `length` random bytes in URL-safe base64 without
/// padding.
pub fn generate_random_string(length: usize) -> (r: String)
    requires
        unpadded_len(length as nat) <= usize::MAX,
    ensures
        encodes_bytes(r@, length as nat),
        r@.len() == unpadded_len(length as nat),
        all_url_safe(r@),
{
    let bytes = random_bytes(length);
    let r = encode_url(bytes.as_slice());
    assert(bytes@.len() == length && r@ == base64_url(bytes@));
    r
}

/// A state token for the OAuth flow: 32 random bytes, 43 characters.
pub fn generate_csrf_state() -> (r: String)
    ensures
        encodes_bytes(r@, 32),
        r@.len() == 43,
        all_url_safe(r@),
{
    generate_random_string(32)
}

/// A key as the service hands it out: `bib_` and the URL-safe encoding of
/// 32 bytes.
pub open spec fn api_key_form(k: Seq<char>) -> bool {
    exists|b: Seq<u8>| b.len() == 32 && k == "bib_"@ + #[trigger] base64_url(b)
}

/// Hashing and verification of API keys.
pub struct ApiKeyService {}

impl ApiKeyService {
    pub fn new() -> (r: Self) {
        ApiKeyService {  }
    }

    /// A fresh key, its first eight characters (the prefix by which it is
    /// looked up) and its hash.
    pub fn generate_api_key(&self) -> (r: (String, String, String))
        ensures
            api_key_form(r.0@),
            r.0@.len() == 47,
            r.1@ == r.0@.take(8),
            argon2_accepts(r.0@, r.2@),
            phc_argon2id(r.2@),
    {
        let bytes = random_bytes(32);
        let encoded = encode_url(bytes.as_slice());
        let mut key = owned("bib_");
        key.append(encoded.as_str());
        proof {
            reveal_strlit("bib_");
        }
        assert(key@ == "bib_"@ + base64_url(bytes@));
        let chars = chars_of(key.as_str());
        let mut head: Vec<char> = Vec::new();
        let mut i: usize = 0;
        while i < 8
            invariant
                i <= 8,
                chars@ == key@,
                key@.len() == 47,
                head@ == key@.take(i as int),
            decreases 8 - i,
        {
            head.push(chars[i]);
            i = i + 1;
            assert(head@ =~= key@.take(i as int));
        }
        let prefix = string_of(head.as_slice());
        let ks = key.as_str();
        assert(vstd::utf8::is_ascii_chars(ks@)) by {
            assert forall|j: int| 0 <= j < ks@.len() implies '\0' <= #[trigger] ks@[j] <= '\u{7f}' by {
                if j >= 4 {
                    assert(ks@[j] == encoded@[j - 4]);
                    assert(url_safe_char(encoded@[j - 4]));
                }
            }
        }
        proof {
            vstd::utf8::is_ascii_chars_encode_utf8(ks@);
        }
        let hash = argon2_hash(ks);
        (key, prefix, hash)
    }

    /// The Argon2 hash of a key, salted at random.
    pub fn hash_api_key(&self, key: &str) -> (r: String)
        requires
            key.spec_bytes().len() <= u32::MAX,
        ensures
            argon2_accepts(key@, r@),
            phc_argon2id(r@),
    {
        argon2_hash(key)
    }

    /// Whether a key matches a stored hash; a hash that does not parse
    /// matches nothing.
    pub fn verify_api_key(&self, key: &str, hash: &str) -> (r: bool)
        ensures
            r == argon2_accepts(key@, hash@),
            !phc_start(hash@) ==> !r,
    {
        argon2_check(key, hash)
    }

    /// The first eight bytes of a key (all of it when shorter). Slicing a
    /// text panics inside a character, so the cut must fall on a boundary.
    pub fn get_prefix(key: &str) -> (r: String)
        requires
            key.spec_bytes().len() <= usize::MAX,
            vstd::utf8::is_char_boundary(
                key.spec_bytes(),
                if key.spec_bytes().len() < 8 {
                    key.spec_bytes().len() as int
                } else {
                    8
                },
            ),
        ensures
            vstd::utf8::encode_utf8(r@) == key.spec_bytes().take(
                if key.spec_bytes().len() < 8 {
                    key.spec_bytes().len() as int
                } else {
                    8
                },
            ),
    {
        let n: usize = if key.len() < 8 {
            key.len()
        } else {
            8
        };
        let (head, _) = key.split_at(n);
        assert(head.spec_bytes() =~= key.spec_bytes().take(n as int));
        head.to_owned()
    }
}

impl Default for ApiKeyService {
    fn default() -> (r: Self) {
        ApiKeyService::new()
    }
}

} // verus!
