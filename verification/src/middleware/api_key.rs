//! API-key authentication of the client applications.

use vstd::prelude::*;
use crate::error::{reply_is, ErrorReply};
use crate::middleware::headers::HeaderInput;
use crate::models::ApiKey;
use crate::security::api_key::{argon2_accepts, ApiKeyService};
use crate::text::owned;
use crate::time::{expired_spec, opt_view, Instant};

verus! {

/// The header that carries the key.
pub const API_KEY_HEADER: &'static str = "x-api-key";

/// The key presented in the header, or the answer to a request without a
/// readable one.
pub fn api_key_from_header(h: &HeaderInput) -> (r: Result<String, ErrorReply>)
    ensures
        h matches HeaderInput::Text(t) ==> (r matches Ok(k) && k@ == t@),
        h is Missing ==> (r matches Err(e) && reply_is(e, 401, "Unauthorized"@, "Missing API key"@)),
        h is Unreadable ==> (r matches Err(e) && reply_is(e, 401, "Unauthorized"@, "Invalid API key format"@)),
{
    match h {
        HeaderInput::Text(t) => Ok(owned(t.as_str())),
        HeaderInput::Missing => Err(ErrorReply::new(401, "Unauthorized", "Missing API key")),
        HeaderInput::Unreadable => Err(ErrorReply::new(401, "Unauthorized", "Invalid API key format")),
    }
}

/// The answer when the stored keys could not be read.
pub fn key_lookup_failed_reply() -> (r: ErrorReply)
    ensures
        reply_is(r, 500, "Internal Server Error"@, "Failed to validate API key"@),
{
    ErrorReply::new(500, "Internal Server Error", "Failed to validate API key")
}

/// The answer when no stored key matches.
pub fn invalid_key_reply() -> (r: ErrorReply)
    ensures
        reply_is(r, 401, "Unauthorized"@, "Invalid or expired API key"@),
{
    ErrorReply::new(401, "Unauthorized", "Invalid or expired API key")
}

/// Whether a stored key accepts the presented one at `now`: it is active,
/// not expired, and its hash verifies the key.
pub open spec fn key_accepts(c: ApiKey, key: Seq<char>, now: Instant) -> bool {
    c.is_active && !expired_spec(opt_view(c.expires_at), now) && argon2_accepts(key, c.key_hash@)
}

fn take_at(v: Vec<ApiKey>, i: usize) -> (r: ApiKey)
    requires
        i < v@.len(),
    ensures
        r == v@[i as int],
{
    let mut w = v;
    w.remove(i)
}

/// The first candidate (of those sharing the key's prefix) that accepts the
/// presented key at `now`.
pub fn select_api_key(service: &ApiKeyService, key: &str, candidates: Vec<ApiKey>, now: Instant) -> (r: Option<ApiKey>)
    ensures
        r matches Some(k) ==> exists|i: int|
            0 <= i < candidates@.len() && #[trigger] candidates@[i] == k && key_accepts(k, key@, now)
                && forall|j: int| 0 <= j < i ==> !key_accepts(#[trigger] candidates@[j], key@, now),
        r is None ==> forall|j: int| 0 <= j < candidates@.len() ==> !key_accepts(#[trigger] candidates@[j], key@, now),
{
    let n = candidates.len();
    let mut i: usize = 0;
    while i < n
        invariant
            n == candidates@.len(),
            i <= n,
            forall|j: int| 0 <= j < i ==> !key_accepts(#[trigger] candidates@[j], key@, now),
        decreases n - i,
    {
        let c = &candidates[i];
        if c.is_active && !c.is_expired_at(now) && service.verify_api_key(key, c.key_hash.as_str()) {
            assert(key_accepts(candidates@[i as int], key@, now));
            let ghost before = candidates@;
            let chosen = take_at(candidates, i);
            assert(chosen == before[i as int]);
            return Some(chosen);
        }
        i = i + 1;
    }
    None
}

} // verus!
