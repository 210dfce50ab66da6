//! The decisions of the administration endpoints: who may reach them, and
//! what a new API key or IP filter is made of.

use vstd::prelude::*;
use crate::error::AppError;
use crate::models::{ApiKey, ApiKeyResponse, FilterType, IpFilter};
use crate::text::{contains_chars, contains_spec, chars_of, owned, str_eq, string_views};

verus! {

/// The body of an API-key creation.
#[derive(Debug, Clone)]
pub struct CreateApiKeyRequest {
    pub name: String,
    pub client_project: String,
    pub allowed_origins: Vec<String>,
    pub rate_limit_per_minute: i32,
    pub expires_at: Option<String>,
}

/// The limit of a new key when the request names none.
pub fn default_rate_limit() -> (r: i32)
    ensures
        r == 60,
{
    60
}

/// A created key: the key itself (shown once) and what is stored of it.
#[derive(Debug)]
pub struct CreateApiKeyResponse {
    pub api_key: String,
    pub key_info: ApiKeyResponse,
}

/// The body of an IP-filter creation.
#[derive(Debug, Clone)]
pub struct CreateIpFilterRequest {
    pub ip_address: String,
    pub filter_type: String,
    pub reason: Option<String>,
    pub expires_at: Option<String>,
}

/// Whether an entry of the whitelist admits the address: `*`, the address
/// itself, or an entry that contains it.
pub open spec fn admits(entry: Seq<char>, ip: Seq<char>) -> bool {
    entry == "*"@ || entry == ip || contains_spec(entry, ip)
}

/// Whether the address may reach the administration endpoints.
pub open spec fn admin_allowed_spec(whitelist: Seq<Seq<char>>, ip: Seq<char>) -> bool {
    exists|i: int| 0 <= i < whitelist.len() && admits(#[trigger] whitelist[i], ip)
}

pub fn admin_ip_allowed(whitelist: &Vec<String>, ip: &str) -> (r: bool)
    ensures
        r == admin_allowed_spec(string_views(whitelist@), ip@),
{
    let n = whitelist.len();
    let ipc = chars_of(ip);
    let mut i: usize = 0;
    while i < n
        invariant
            n == whitelist@.len(),
            i <= n,
            ipc@ == ip@,
            forall|j: int| 0 <= j < i ==> !admits(#[trigger] string_views(whitelist@)[j], ip@),
        decreases n - i,
    {
        let entry = whitelist[i].as_str();
        let ec = chars_of(entry);
        assert(string_views(whitelist@)[i as int] == entry@);
        if str_eq(entry, "*") || str_eq(entry, ip) || contains_chars(ec.as_slice(), ipc.as_slice()) {
            return true;
        }
        i = i + 1;
    }
    false
}

/// The key to store for a creation request, from a generated key's prefix
/// and hash: the request's name, project, origins and limit, and its expiry
/// when given.
pub fn new_api_key(prefix: String, hash: String, request: CreateApiKeyRequest) -> (r: ApiKey)
    ensures
        r.key_prefix == prefix,
        r.key_hash == hash,
        r.name == request.name,
        r.client_project == request.client_project,
        r.allowed_origins@ == crate::text::join_spec(string_views(request.allowed_origins@), ","@),
        r.rate_limit_per_minute == request.rate_limit_per_minute,
        r.expires_at == request.expires_at,
        r.is_active,
        r.last_used_at is None,
{
    let key = ApiKey::new(hash, prefix, request.name, request.client_project, request.allowed_origins.as_slice())
        .with_rate_limit(request.rate_limit_per_minute);
    match request.expires_at {
        Some(e) => key.with_expiration(e),
        None => key,
    }
}

/// The filter type named in a request or path, or a bad request.
pub fn filter_type_of(text: &str) -> (r: Result<FilterType, AppError>)
    ensures
        r matches Ok(t) ==> FilterType::parse_spec(text@) == Some(t),
        r matches Err(e) ==> FilterType::parse_spec(text@) is None && (e matches AppError::BadRequest(
            m,
        ) && m@ == "Invalid filter type"@),
{
    match FilterType::parse_name(text) {
        Ok(t) => Ok(t),
        Err(_) => Err(AppError::BadRequest(owned("Invalid filter type"))),
    }
}

/// The filter to store for a creation request, or a bad request for an
/// unknown filter type.
pub fn new_ip_filter(request: CreateIpFilterRequest) -> (r: Result<IpFilter, AppError>)
    ensures
        r matches Ok(f) ==> (FilterType::parse_spec(request.filter_type@) matches Some(t) && f.filter_type@
            == t.name_spec() && f.ip_address == request.ip_address && f.reason == request.reason
            && f.expires_at == request.expires_at && f.is_active),
        r is Err <==> FilterType::parse_spec(request.filter_type@) is None,
        r matches Err(e) ==> (e matches AppError::BadRequest(m) && m@ == "Invalid filter type"@),
{
    let t = match filter_type_of(request.filter_type.as_str()) {
        Ok(t) => t,
        Err(e) => {
            return Err(e);
        },
    };
    let f = IpFilter::new(request.ip_address, t, request.reason);
    match request.expires_at {
        Some(e) => Ok(f.with_expiration(e)),
        None => Ok(f),
    }
}

} // verus!
