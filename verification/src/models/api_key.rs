//! API keys of client projects, and what a validated key carries.

use vstd::prelude::*;
use crate::text::{chars_of, comma_list, comma_list_spec, join_spec, join_strings, str_eq, string_views};
use crate::time::{clock_now, expired_at, expired_spec, new_uuid, now_rfc3339, opt_view, Instant, uuid_v4_text, rfc3339_text};

verus! {

#[derive(Debug, Clone)]
pub struct ApiKey {
    pub id: String,
    pub key_hash: String,
    pub key_prefix: String,
    pub name: String,
    pub client_project: String,
    pub allowed_origins: String,
    pub is_active: bool,
    pub rate_limit_per_minute: i32,
    pub expires_at: Option<String>,
    pub created_at: String,
    pub updated_at: String,
    pub last_used_at: Option<String>,
}

/// An origin list grants `origin` when it holds `"*"` or the origin itself.
pub open spec fn origin_granted(origins: Seq<Seq<char>>, origin: Seq<char>) -> bool {
    origins.contains("*"@) || origins.contains(origin)
}

pub fn origin_in_list(origins: &Vec<String>, origin: &str) -> (r: bool)
    ensures
        r == origin_granted(string_views(origins@), origin@),
{
    let n = origins.len();
    let mut i: usize = 0;
    let mut star = false;
    let mut found = false;
    while i < n
        invariant
            n == origins@.len(),
            i <= n,
            star == string_views(origins@).take(i as int).contains("*"@),
            found == string_views(origins@).take(i as int).contains(origin@),
        decreases n - i,
    {
        let ghost pre = string_views(origins@).take(i as int);
        let ghost nxt = string_views(origins@).take(i + 1);
        assert(nxt =~= pre.push(origins@[i as int]@));
        let o = origins[i].as_str();
        if str_eq(o, "*") {
            star = true;
        }
        if str_eq(o, origin) {
            found = true;
        }
        assert(nxt.contains("*"@) == (pre.contains("*"@) || o@ == "*"@)) by {
            if nxt.contains("*"@) && !pre.contains("*"@) {
                let k = choose|k: int| 0 <= k < nxt.len() && nxt[k] == "*"@;
                if k < i {
                    assert(pre[k] == nxt[k]);
                }
            }
            if pre.contains("*"@) {
                let k = choose|k: int| 0 <= k < pre.len() && pre[k] == "*"@;
                assert(nxt[k] == pre[k]);
            }
            if o@ == "*"@ {
                assert(nxt[i as int] == o@);
            }
        }
        assert(nxt.contains(origin@) == (pre.contains(origin@) || o@ == origin@)) by {
            if nxt.contains(origin@) && !pre.contains(origin@) {
                let k = choose|k: int| 0 <= k < nxt.len() && nxt[k] == origin@;
                if k < i {
                    assert(pre[k] == nxt[k]);
                }
            }
            if pre.contains(origin@) {
                let k = choose|k: int| 0 <= k < pre.len() && pre[k] == origin@;
                assert(nxt[k] == pre[k]);
            }
            if o@ == origin@ {
                assert(nxt[i as int] == o@);
            }
        }
        i = i + 1;
    }
    assert(string_views(origins@).take(n as int) =~= string_views(origins@));
    star || found
}

impl ApiKey {
    /// A new active key with a fresh id, the default limit of 60 requests a
    /// minute, no expiry and no use yet; the origins are stored joined with
    /// commas.
    pub fn new(
        key_hash: String,
        key_prefix: String,
        name: String,
        client_project: String,
        allowed_origins: &[String],
    ) -> (r: Self)
        ensures
            r.id@.len() == 36,
            uuid_v4_text(r.id@),
            exists|t: Instant| t.wf() && r.created_at@ == #[trigger] rfc3339_text(t.secs, t.nanos),
            r.key_hash == key_hash,
            r.key_prefix == key_prefix,
            r.name == name,
            r.client_project == client_project,
            r.allowed_origins@ == join_spec(string_views(allowed_origins@), ","@),
            r.is_active,
            r.rate_limit_per_minute == 60,
            r.expires_at is None,
            r.created_at@ == r.updated_at@,
            r.last_used_at is None,
    {
        let now = now_rfc3339();
        ApiKey {
            id: new_uuid(),
            key_hash,
            key_prefix,
            name,
            client_project,
            allowed_origins: join_strings(allowed_origins, ","),
            is_active: true,
            rate_limit_per_minute: 60,
            expires_at: None,
            created_at: now.clone(),
            updated_at: now,
            last_used_at: None,
        }
    }

    pub fn with_rate_limit(self, rate_limit: i32) -> (r: Self)
        ensures
            r == (ApiKey { rate_limit_per_minute: rate_limit, ..self }),
    {
        let mut s = self;
        s.rate_limit_per_minute = rate_limit;
        s
    }

    pub fn with_expiration(self, expires_at: String) -> (r: Self)
        ensures
            r == (ApiKey { expires_at: Some(expires_at), ..self }),
    {
        let mut s = self;
        s.expires_at = Some(expires_at);
        s
    }

    /// The stored origins: split at commas, trimmed, empty ones dropped.
    pub fn get_allowed_origins(&self) -> (r: Vec<String>)
        ensures
            string_views(r@) == comma_list_spec(self.allowed_origins@),
    {
        comma_list(self.allowed_origins.as_str())
    }

    /// Whether the key admits requests from `origin`: its origin list holds
    /// `"*"` or the origin itself.
    pub fn is_origin_allowed(&self, origin: &str) -> (r: bool)
        ensures
            r == origin_granted(comma_list_spec(self.allowed_origins@), origin@),
    {
        let origins = self.get_allowed_origins();
        origin_in_list(&origins, origin)
    }

    /// Whether the key's expiry lies before `now` (a key without a readable
    /// expiry never expires).
    pub fn is_expired_at(&self, now: Instant) -> (r: bool)
        ensures
            r == expired_spec(opt_view(self.expires_at), now),
    {
        expired_at(&self.expires_at, now)
    }

    /// Whether the key's expiry has passed, by the clock.
    pub fn is_expired(&self) -> (r: bool)
        ensures
            self.expires_at is None ==> !r,
            exists|t: Instant| t.wf() && r == expired_spec(opt_view(self.expires_at), t),
    {
        let now = clock_now();
        self.is_expired_at(now)
    }
}

/// What a request carries once its API key was accepted.
#[derive(Debug, Clone)]
pub struct ValidatedApiKey {
    pub id: String,
    pub client_project: String,
    pub allowed_origins: Vec<String>,
    pub rate_limit_per_minute: i32,
}

impl ValidatedApiKey {
    /// The accepted key's id, project, parsed origin list and limit.
    pub fn from_key(key: ApiKey) -> (r: Self)
        ensures
            r.id == key.id,
            r.client_project == key.client_project,
            string_views(r.allowed_origins@) == comma_list_spec(key.allowed_origins@),
            r.rate_limit_per_minute == key.rate_limit_per_minute,
    {
        let allowed_origins = key.get_allowed_origins();
        ValidatedApiKey {
            id: key.id,
            client_project: key.client_project,
            allowed_origins,
            rate_limit_per_minute: key.rate_limit_per_minute,
        }
    }
}

/// What the admin interface shows of a key (never its hash).
#[derive(Debug)]
pub struct ApiKeyResponse {
    pub id: String,
    pub key_prefix: String,
    pub name: String,
    pub client_project: String,
    pub is_active: bool,
    pub rate_limit_per_minute: i32,
    pub expires_at: Option<String>,
    pub created_at: String,
    pub last_used_at: Option<String>,
}

impl From<ApiKey> for ApiKeyResponse {
    fn from(key: ApiKey) -> (r: Self) {
        ApiKeyResponse {
            id: key.id,
            key_prefix: key.key_prefix,
            name: key.name,
            client_project: key.client_project,
            is_active: key.is_active,
            rate_limit_per_minute: key.rate_limit_per_minute,
            expires_at: key.expires_at,
            created_at: key.created_at,
            last_used_at: key.last_used_at,
        }
    }
}

impl vstd::std_specs::convert::FromSpecImpl<ApiKey> for ApiKeyResponse {
    open spec fn obeys_from_spec() -> bool {
        true
    }

    open spec fn from_spec(key: ApiKey) -> ApiKeyResponse {
        ApiKeyResponse {
            id: key.id,
            key_prefix: key.key_prefix,
            name: key.name,
            client_project: key.client_project,
            is_active: key.is_active,
            rate_limit_per_minute: key.rate_limit_per_minute,
            expires_at: key.expires_at,
            created_at: key.created_at,
            last_used_at: key.last_used_at,
        }
    }
}

} // verus!
