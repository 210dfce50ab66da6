//! Fixed-window rate limiting per client address and per API key.

use vstd::prelude::*;
use crate::config::RateLimitConfig;
use crate::error::{reply_is, ErrorReply};
use crate::models::ValidatedApiKey;
use crate::maps::{
    bucket_map, buckets_get, buckets_insert, buckets_new, buckets_retain_current,
    current_buckets, Bucket, BucketMap,
};
use crate::text::{chars_of, contains_chars, contains_spec};
use crate::time::{clock_now, Instant};

verus! {

/// Length of a rate-limit window: one minute, in nanoseconds.
pub open spec fn window_nanos() -> int {
    60_000_000_000
}

/// One request against the bucket of `key` with at most `limit` requests a
/// window: a bucket is made (empty, starting now) when there is none; a
/// window older than a minute starts afresh with this request; otherwise the
/// request counts if the limit is not reached yet. Returns the new buckets and
/// whether the request is allowed.
pub open spec fn take_spec(m: Map<Seq<char>, Bucket>, key: Seq<char>, limit: u32, now: i128) -> (
    Map<Seq<char>, Bucket>,
    bool,
) {
    let e = if m.contains_key(key) {
        m[key]
    } else {
        (0u32, now)
    };
    if now - e.1 > window_nanos() {
        (m.insert(key, (1u32, now)), true)
    } else if e.0 >= limit {
        (m.insert(key, e), false)
    } else {
        (m.insert(key, ((e.0 + 1) as u32, e.1)), true)
    }
}

/// The limit that applies to an API key: its own (read as `u32`, as an `as`
/// cast does), or the global one.
pub open spec fn key_limit_spec(global: u32, custom: Option<i32>) -> u32 {
    match custom {
        Some(l) => l as u32,
        None => global,
    }
}

pub struct RateLimiter {
    ip_limits: BucketMap,
    oauth_init_limits: BucketMap,
    api_key_limits: BucketMap,
    config: RateLimitConfig,
}

impl RateLimiter {
    pub closed spec fn ip_buckets(&self) -> Map<Seq<char>, Bucket> {
        bucket_map(self.ip_limits)
    }

    pub closed spec fn key_buckets(&self) -> Map<Seq<char>, Bucket> {
        bucket_map(self.api_key_limits)
    }

    /// The buckets of login starts, per client address.
    pub closed spec fn init_buckets(&self) -> Map<Seq<char>, Bucket> {
        bucket_map(self.oauth_init_limits)
    }

    pub closed spec fn settings(&self) -> RateLimitConfig {
        self.config
    }

    pub fn new(config: RateLimitConfig) -> (r: Self)
        ensures
            r.ip_buckets() == Map::<Seq<char>, Bucket>::empty(),
            r.key_buckets() == Map::<Seq<char>, Bucket>::empty(),
            r.init_buckets() == Map::<Seq<char>, Bucket>::empty(),
            r.settings() == config,
    {
        RateLimiter {
            ip_limits: buckets_new(),
            oauth_init_limits: buckets_new(),
            api_key_limits: buckets_new(),
            config,
        }
    }

    /// One request against the bucket of `key` at `now`; see `take_spec`.
    pub(crate) fn take(m: &mut BucketMap, key: &str, limit: u32, now: i128) -> (r: bool)
        ensures
            (bucket_map(*final(m)), r) == take_spec(bucket_map(*old(m)), key@, limit, now),
    {
        let e = match buckets_get(m, key) {
            Some(e) => e,
            None => {
                let fresh: Bucket = (0u32, now);
                buckets_insert(m, key, fresh);
                fresh
            },
        };
        let expired = match now.checked_sub(e.1) {
            Some(d) => d > 60_000_000_000,
            None => now > e.1,
        };
        if expired {
            buckets_insert(m, key, (1u32, now));
            return true;
        }
        if e.0 >= limit {
            return false;
        }
        buckets_insert(m, key, (e.0 + 1, e.1));
        true
    }

    /// One request from a client address at `now`: always allowed when rate
    /// limiting is off, else counted against the global limit.
    pub fn check_ip_at(&mut self, ip: &str, now: Instant) -> (r: bool)
        ensures
            final(self).settings() == old(self).settings(),
            final(self).key_buckets() == old(self).key_buckets(),
            final(self).init_buckets() == old(self).init_buckets(),
            !old(self).settings().enabled ==> r && final(self).ip_buckets() == old(self).ip_buckets(),
            old(self).settings().enabled ==> (final(self).ip_buckets(), r) == take_spec(
                old(self).ip_buckets(),
                ip@,
                old(self).settings().global_per_minute,
                now.total() as i128,
            ),
    {
        if !self.config.enabled {
            return true;
        }
        let limit = self.config.global_per_minute;
        Self::take(&mut self.ip_limits, ip, limit, now.to_nanos())
    }

    /// One request from a client address, by the clock.
    pub fn check_ip(&mut self, ip: &str) -> (r: bool)
        ensures
            final(self).settings() == old(self).settings(),
            final(self).key_buckets() == old(self).key_buckets(),
            final(self).init_buckets() == old(self).init_buckets(),
            !old(self).settings().enabled ==> r && final(self).ip_buckets() == old(self).ip_buckets(),
            old(self).settings().enabled ==> exists|t: Instant|
                t.wf() && (final(self).ip_buckets(), r) == #[trigger] take_spec(
                    old(self).ip_buckets(),
                    ip@,
                    old(self).settings().global_per_minute,
                    t.total() as i128,
                ),
    {
        let now = clock_now();
        self.check_ip_at(ip, now)
    }

    /// One request with an API key at `now`, counted against the key's own
    /// limit or else the global one; always allowed when rate limiting is off.
    pub fn check_api_key_at(&mut self, key_id: &str, custom_limit: Option<i32>, now: Instant) -> (r: bool)
        ensures
            final(self).settings() == old(self).settings(),
            final(self).ip_buckets() == old(self).ip_buckets(),
            final(self).init_buckets() == old(self).init_buckets(),
            !old(self).settings().enabled ==> r && final(self).key_buckets() == old(self).key_buckets(),
            old(self).settings().enabled ==> (final(self).key_buckets(), r) == take_spec(
                old(self).key_buckets(),
                key_id@,
                key_limit_spec(old(self).settings().global_per_minute, custom_limit),
                now.total() as i128,
            ),
            (final(self).key_buckets(), r) == count_spec(
                old(self).settings().enabled,
                old(self).key_buckets(),
                key_id@,
                key_limit_spec(old(self).settings().global_per_minute, custom_limit),
                now.total() as i128,
            ),
    {
        if !self.config.enabled {
            return true;
        }
        let limit: u32 = match custom_limit {
            Some(l) => #[verifier::truncate] (l as u32),
            None => self.config.global_per_minute,
        };
        Self::take(&mut self.api_key_limits, key_id, limit, now.to_nanos())
    }

    /// One request with an API key, by the clock.
    pub fn check_api_key(&mut self, key_id: &str, custom_limit: Option<i32>) -> (r: bool)
        ensures
            final(self).settings() == old(self).settings(),
            final(self).ip_buckets() == old(self).ip_buckets(),
            final(self).init_buckets() == old(self).init_buckets(),
            !old(self).settings().enabled ==> r && final(self).key_buckets() == old(self).key_buckets(),
            old(self).settings().enabled ==> exists|t: Instant|
                t.wf() && (final(self).key_buckets(), r) == #[trigger] take_spec(
                    old(self).key_buckets(),
                    key_id@,
                    key_limit_spec(old(self).settings().global_per_minute, custom_limit),
                    t.total() as i128,
                ),
    {
        let now = clock_now();
        self.check_api_key_at(key_id, custom_limit, now)
    }

    /// One login start from a client address at `now`, counted against the
    /// login-start limit; always allowed when rate limiting is off.
    pub fn check_oauth_init_at(&mut self, ip: &str, now: Instant) -> (r: bool)
        ensures
            final(self).settings() == old(self).settings(),
            final(self).ip_buckets() == old(self).ip_buckets(),
            final(self).key_buckets() == old(self).key_buckets(),
            (final(self).init_buckets(), r) == count_spec(
                old(self).settings().enabled,
                old(self).init_buckets(),
                ip@,
                old(self).settings().oauth_init_per_minute,
                now.total() as i128,
            ),
    {
        if !self.config.enabled {
            return true;
        }
        let limit = self.config.oauth_init_per_minute;
        Self::take(&mut self.oauth_init_limits, ip, limit, now.to_nanos())
    }

    /// Drops the buckets whose window is over at `now`.
    pub fn cleanup_at(&mut self, now: Instant)
        ensures
            final(self).settings() == old(self).settings(),
            final(self).ip_buckets() == current_buckets(old(self).ip_buckets(), now.total() as i128),
            final(self).key_buckets() == current_buckets(old(self).key_buckets(), now.total() as i128),
            final(self).init_buckets() == current_buckets(old(self).init_buckets(), now.total() as i128),
    {
        let n = now.to_nanos();
        buckets_retain_current(&mut self.ip_limits, n);
        buckets_retain_current(&mut self.oauth_init_limits, n);
        buckets_retain_current(&mut self.api_key_limits, n);
    }

    /// Drops the buckets whose window is over, by the clock.
    pub fn cleanup(&mut self)
        ensures
            final(self).settings() == old(self).settings(),
            exists|t: Instant|
                t.wf() && final(self).ip_buckets() == #[trigger] current_buckets(
                    old(self).ip_buckets(),
                    t.total() as i128,
                ) && final(self).key_buckets() == current_buckets(
                    old(self).key_buckets(),
                    t.total() as i128,
                ) && final(self).init_buckets() == current_buckets(
                    old(self).init_buckets(),
                    t.total() as i128,
                ),
    {
        let now = clock_now();
        self.cleanup_at(now)
    }
}

/// A request counted against a bucket map, or let through when rate
/// limiting is off.
pub open spec fn count_spec(enabled: bool, m: Map<Seq<char>, Bucket>, key: Seq<char>, limit: u32, now: i128) -> (
    Map<Seq<char>, Bucket>,
    bool,
) {
    if enabled {
        take_spec(m, key, limit, now)
    } else {
        (m, true)
    }
}

/// Whether a request path starts a login (`/auth/oauth/.../init`).
pub open spec fn oauth_init_path(path: Seq<char>) -> bool {
    contains_spec(path, "/auth/oauth"@) && contains_spec(path, "/init"@)
}

/// What the rate limit makes of a request at `n` from an address to a path,
/// with the API key it was authenticated by (id and own limit), if any: the
/// address is counted against the global limit first; a login start it lets
/// through is counted against the login-start limit of the address; a
/// request still let through is counted against its key. Gives the buckets
/// (per address, login starts, per key) after the request and the
/// description of the refusal, if refused.
pub open spec fn verdict_spec(
    s: RateLimitConfig,
    ipb: Map<Seq<char>, Bucket>,
    initb: Map<Seq<char>, Bucket>,
    keyb: Map<Seq<char>, Bucket>,
    ip: Seq<char>,
    path: Seq<char>,
    key: Option<(Seq<char>, i32)>,
    n: i128,
) -> (Map<Seq<char>, Bucket>, Map<Seq<char>, Bucket>, Map<Seq<char>, Bucket>, Option<Seq<char>>) {
    let by_ip = count_spec(s.enabled, ipb, ip, s.global_per_minute, n);
    if !by_ip.1 {
        (by_ip.0, initb, keyb, Some("Rate limit exceeded. Please try again later."@))
    } else {
        let by_init = if oauth_init_path(path) {
            count_spec(s.enabled, initb, ip, s.oauth_init_per_minute, n)
        } else {
            (initb, true)
        };
        if !by_init.1 {
            (by_ip.0, by_init.0, keyb, Some("Too many login attempts. Please try again later."@))
        } else {
            match key {
                None => (by_ip.0, by_init.0, keyb, None),
                Some((id, limit)) => {
                    let by_key = count_spec(s.enabled, keyb, id, key_limit_spec(s.global_per_minute, Some(limit)), n);
                    (
                        by_ip.0,
                        by_init.0,
                        by_key.0,
                        if by_key.1 {
                            None
                        } else {
                            Some("Rate limit exceeded for this API key. Please try again later."@)
                        },
                    )
                },
            }
        }
    }
}

/// The id and own limit of an API key.
pub open spec fn key_of(api_key: Option<&ValidatedApiKey>) -> Option<(Seq<char>, i32)> {
    match api_key {
        Some(k) => Some((k.id@, k.rate_limit_per_minute)),
        None => None,
    }
}

/// The answer of the rate limit to a request at `now` from an address to a
/// path, with the API key it was authenticated by, if any (see
/// `verdict_spec`): too many requests when refused, nothing when let
/// through.
pub fn rate_limit_verdict_at(
    limiter: &mut RateLimiter,
    ip: &str,
    path: &str,
    api_key: Option<&ValidatedApiKey>,
    now: Instant,
) -> (r: Option<ErrorReply>)
    ensures
        final(limiter).settings() == old(limiter).settings(),
        ({
            let v = verdict_spec(
                old(limiter).settings(),
                old(limiter).ip_buckets(),
                old(limiter).init_buckets(),
                old(limiter).key_buckets(),
                ip@,
                path@,
                key_of(api_key),
                now.total() as i128,
            );
            &&& final(limiter).ip_buckets() == v.0
            &&& final(limiter).init_buckets() == v.1
            &&& final(limiter).key_buckets() == v.2
            &&& r is None <==> v.3 is None
            &&& r matches Some(e) ==> reply_is(e, 429, "Too Many Requests"@, v.3.unwrap())
        }),
{
    if !limiter.check_ip_at(ip, now) {
        return Some(
            ErrorReply::new(429, "Too Many Requests", "Rate limit exceeded. Please try again later."),
        );
    }
    let pc = chars_of(path);
    let oauth = chars_of("/auth/oauth");
    let init = chars_of("/init");
    if contains_chars(pc.as_slice(), oauth.as_slice()) && contains_chars(pc.as_slice(), init.as_slice()) {
        if !limiter.check_oauth_init_at(ip, now) {
            return Some(
                ErrorReply::new(429, "Too Many Requests", "Too many login attempts. Please try again later."),
            );
        }
    }
    if let Some(k) = api_key {
        if !limiter.check_api_key_at(k.id.as_str(), Some(k.rate_limit_per_minute), now) {
            return Some(
                ErrorReply::new(
                    429,
                    "Too Many Requests",
                    "Rate limit exceeded for this API key. Please try again later.",
                ),
            );
        }
    }
    None
}

} // verus!

verus! {

/// `k` requests against the bucket of `key`, all at `now`: the buckets
/// after them and how many were allowed.
pub open spec fn burst(m: Map<Seq<char>, Bucket>, key: Seq<char>, limit: u32, now: i128, k: nat) -> (
    Map<Seq<char>, Bucket>,
    nat,
)
    decreases k,
{
    if k == 0 {
        (m, 0)
    } else {
        let (m1, a1) = burst(m, key, limit, now, (k - 1) as nat);
        let (m2, ok) = take_spec(m1, key, limit, now);
        (m2, if ok {
            a1 + 1
        } else {
            a1
        })
    }
}

/// Within one window, a request is allowed exactly while fewer than the
/// limit were counted, and an allowed one is counted.
pub proof fn lemma_take_within_window(m: Map<Seq<char>, Bucket>, key: Seq<char>, limit: u32, now: i128)
    requires
        m.contains_key(key),
        now - m[key].1 <= window_nanos(),
    ensures
        take_spec(m, key, limit, now).1 <==> m[key].0 < limit,
        take_spec(m, key, limit, now).0[key] == (if m[key].0 < limit {
            ((m[key].0 + 1) as u32, m[key].1)
        } else {
            m[key]
        }),
{
}

/// Once a window is over, the next request is allowed and starts a new
/// window counting it alone.
pub proof fn lemma_take_after_window(m: Map<Seq<char>, Bucket>, key: Seq<char>, limit: u32, now: i128)
    requires
        m.contains_key(key),
        now - m[key].1 > window_nanos(),
    ensures
        take_spec(m, key, limit, now).1,
        take_spec(m, key, limit, now).0[key] == (1u32, now),
{
}

/// Of `k` requests at one instant from a client without a bucket, exactly
/// the first `limit` are allowed; the bucket then counts them and starts
/// at that instant.
pub proof fn lemma_burst_allows_limit(m: Map<Seq<char>, Bucket>, key: Seq<char>, limit: u32, now: i128, k: nat)
    requires
        !m.contains_key(key),
    ensures
        burst(m, key, limit, now, k).1 == (if k < limit {
            k
        } else {
            limit as nat
        }),
        k > 0 ==> burst(m, key, limit, now, k).0.contains_key(key) && burst(m, key, limit, now, k).0[key]
            == ((if k < limit {
            k
        } else {
            limit as nat
        }) as u32, now),
        forall|other: Seq<char>|
            other != key ==> #[trigger] burst(m, key, limit, now, k).0.contains_key(other)
                == m.contains_key(other),
    decreases k,
{
    if k > 0 {
        lemma_burst_allows_limit(m, key, limit, now, (k - 1) as nat);
        let m1 = burst(m, key, limit, now, (k - 1) as nat).0;
        if k - 1 > 0 {
            lemma_take_within_window(m1, key, limit, now);
        }
    }
}

/// Buckets never count more than the (positive) limit they are checked
/// against.
pub proof fn lemma_count_bounded(m: Map<Seq<char>, Bucket>, key: Seq<char>, limit: u32, now: i128)
    requires
        limit >= 1,
        m.contains_key(key) ==> m[key].0 <= limit,
    ensures
        take_spec(m, key, limit, now).0[key].0 <= limit,
{
}

/// Once an address has made as many login starts as the limit within the
/// current window, a further login start that the global limit lets through
/// is refused, whatever API key it carries.
pub proof fn lemma_init_limit_refuses(
    s: RateLimitConfig,
    ipb: Map<Seq<char>, Bucket>,
    initb: Map<Seq<char>, Bucket>,
    keyb: Map<Seq<char>, Bucket>,
    ip: Seq<char>,
    path: Seq<char>,
    key: Option<(Seq<char>, i32)>,
    n: i128,
)
    requires
        s.enabled,
        oauth_init_path(path),
        count_spec(s.enabled, ipb, ip, s.global_per_minute, n).1,
        initb.contains_key(ip),
        n - initb[ip].1 <= window_nanos(),
        initb[ip].0 >= s.oauth_init_per_minute,
    ensures
        verdict_spec(s, ipb, initb, keyb, ip, path, key, n).3 == Some(
            "Too many login attempts. Please try again later."@,
        ),
        verdict_spec(s, ipb, initb, keyb, ip, path, key, n).2 == keyb,
{
}

/// Requests against the bucket of `key` at the given instants, one after
/// the other: the buckets after them and, in order, whether each was
/// allowed.
pub open spec fn takes(m: Map<Seq<char>, Bucket>, key: Seq<char>, limit: u32, times: Seq<i128>) -> (
    Map<Seq<char>, Bucket>,
    Seq<bool>,
)
    decreases times.len(),
{
    if times.len() == 0 {
        (m, Seq::empty())
    } else {
        let before = takes(m, key, limit, times.drop_last());
        let step = take_spec(before.0, key, limit, times.last());
        (step.0, before.1.push(step.1))
    }
}

/// Whether instants come no earlier than the first of them and within one
/// window of it.
pub open spec fn within_window_of_first(times: Seq<i128>) -> bool {
    forall|i: int| 0 <= i < times.len() ==> times[0] <= #[trigger] times[i] && times[i] - times[0] <= window_nanos()
}

/// The smaller of a count and a limit.
pub open spec fn capped(n: nat, limit: u32) -> nat {
    if n < limit {
        n
    } else {
        limit as nat
    }
}

/// Of requests within one window from a client (or key) without a bucket,
/// exactly the first `limit` are allowed: the `i`-th is allowed exactly
/// when `i < limit`. The bucket then counts the allowed ones from the first
/// request's instant, and no other bucket changes.
pub proof fn lemma_window_admits_first(m: Map<Seq<char>, Bucket>, key: Seq<char>, limit: u32, times: Seq<i128>)
    requires
        !m.contains_key(key),
        within_window_of_first(times),
    ensures
        takes(m, key, limit, times).1.len() == times.len(),
        forall|i: int| 0 <= i < times.len() ==> #[trigger] takes(m, key, limit, times).1[i] == (i < limit),
        times.len() > 0 ==> takes(m, key, limit, times).0.contains_key(key) && takes(m, key, limit, times).0[key]
            == (capped(times.len(), limit) as u32, times[0]),
        forall|other: Seq<char>|
            other != key ==> (#[trigger] takes(m, key, limit, times).0.contains_key(other) == m.contains_key(other)
                && (m.contains_key(other) ==> takes(m, key, limit, times).0[other] == m[other])),
    decreases times.len(),
{
    if times.len() > 0 {
        let prev = times.drop_last();
        assert(within_window_of_first(prev)) by {
            assert forall|i: int| 0 <= i < prev.len() implies prev[0] <= #[trigger] prev[i] && prev[i] - prev[0]
                <= window_nanos() by {
                assert(prev[i] == times[i]);
                assert(prev[0] == times[0]);
            }
        }
        lemma_window_admits_first(m, key, limit, prev);
        assert(times[0] <= times[times.len() - 1]);
        let before = takes(m, key, limit, prev);
        let answers = takes(m, key, limit, times).1;
        assert forall|i: int| 0 <= i < times.len() implies #[trigger] answers[i] == (i < limit) by {
            if i < prev.len() {
                assert(answers[i] == before.1[i]);
            }
        }
        let after = takes(m, key, limit, times).0;
        assert(after == take_spec(before.0, key, limit, times.last()).0);
        assert forall|other: Seq<char>| other != key implies (#[trigger] after.contains_key(other)
            == m.contains_key(other) && (m.contains_key(other) ==> after[other] == m[other])) by {
            assert(before.0.contains_key(other) == m.contains_key(other));
        }
    }
}

/// One answer per request.
proof fn lemma_takes_len(m: Map<Seq<char>, Bucket>, key: Seq<char>, limit: u32, times: Seq<i128>)
    ensures
        takes(m, key, limit, times).1.len() == times.len(),
    decreases times.len(),
{
    if times.len() > 0 {
        lemma_takes_len(m, key, limit, times.drop_last());
    }
}

/// Requests from an address to a path, with an API key (id and own
/// limit) or none, at the given instants, one after the other: the buckets
/// after them (per address, login starts, per key) and, in order, the
/// description of each refusal (`None` for a request let through).
pub open spec fn verdicts(
    s: RateLimitConfig,
    ipb: Map<Seq<char>, Bucket>,
    initb: Map<Seq<char>, Bucket>,
    keyb: Map<Seq<char>, Bucket>,
    ip: Seq<char>,
    path: Seq<char>,
    key: Option<(Seq<char>, i32)>,
    times: Seq<i128>,
) -> (Map<Seq<char>, Bucket>, Map<Seq<char>, Bucket>, Map<Seq<char>, Bucket>, Seq<Option<Seq<char>>>)
    decreases times.len(),
{
    if times.len() == 0 {
        (ipb, initb, keyb, Seq::empty())
    } else {
        let b = verdicts(s, ipb, initb, keyb, ip, path, key, times.drop_last());
        let v = verdict_spec(s, b.0, b.1, b.2, ip, path, key, times.last());
        (v.0, v.1, v.2, b.3.push(v.3))
    }
}

/// While the global limit lets every request of an address through, its
/// login starts without an API key are counted exactly as the login-start
/// bucket alone would count them.
proof fn lemma_init_verdicts_follow_bucket(
    s: RateLimitConfig,
    ipb: Map<Seq<char>, Bucket>,
    initb: Map<Seq<char>, Bucket>,
    keyb: Map<Seq<char>, Bucket>,
    ip: Seq<char>,
    path: Seq<char>,
    times: Seq<i128>,
)
    requires
        s.enabled,
        oauth_init_path(path),
        takes(ipb, ip, s.global_per_minute, times).1.len() == times.len(),
        forall|i: int| 0 <= i < times.len() ==> #[trigger] takes(ipb, ip, s.global_per_minute, times).1[i],
    ensures
        verdicts(s, ipb, initb, keyb, ip, path, None, times).0 == takes(ipb, ip, s.global_per_minute, times).0,
        verdicts(s, ipb, initb, keyb, ip, path, None, times).1 == takes(initb, ip, s.oauth_init_per_minute, times).0,
        verdicts(s, ipb, initb, keyb, ip, path, None, times).2 == keyb,
        verdicts(s, ipb, initb, keyb, ip, path, None, times).3.len() == times.len(),
        forall|i: int|
            0 <= i < times.len() ==> #[trigger] verdicts(s, ipb, initb, keyb, ip, path, None, times).3[i] == (if takes(
                initb,
                ip,
                s.oauth_init_per_minute,
                times,
            ).1[i] {
                None
            } else {
                Some("Too many login attempts. Please try again later."@)
            }),
    decreases times.len(),
{
    if times.len() > 0 {
        let prev = times.drop_last();
        let t_ip = takes(ipb, ip, s.global_per_minute, times).1;
        let p_ip = takes(ipb, ip, s.global_per_minute, prev).1;
        assert forall|i: int| 0 <= i < prev.len() implies #[trigger] p_ip[i] by {
            assert(p_ip[i] == t_ip[i]);
        }
        lemma_takes_len(ipb, ip, s.global_per_minute, prev);
        lemma_takes_len(initb, ip, s.oauth_init_per_minute, prev);
        lemma_init_verdicts_follow_bucket(s, ipb, initb, keyb, ip, path, prev);
        assert(t_ip[prev.len() as int]);
        let v = verdicts(s, ipb, initb, keyb, ip, path, None, times).3;
        let pv = verdicts(s, ipb, initb, keyb, ip, path, None, prev).3;
        let ta = takes(initb, ip, s.oauth_init_per_minute, times).1;
        let pa = takes(initb, ip, s.oauth_init_per_minute, prev).1;
        assert forall|i: int| 0 <= i < times.len() implies #[trigger] v[i] == (if ta[i] {
            None
        } else {
            Some("Too many login attempts. Please try again later."@)
        }) by {
            if i < prev.len() {
                assert(v[i] == pv[i]);
                assert(ta[i] == pa[i]);
            }
        }
    }
}

/// Of the login starts that an address without buckets makes within one
/// window, no more of them than the global limit, exactly the first
/// `oauth_init_per_minute` are let through; each later one is refused as
/// too many login attempts (the eleventh, with the default of ten).
pub proof fn lemma_init_limit_over_calls(
    s: RateLimitConfig,
    ipb: Map<Seq<char>, Bucket>,
    initb: Map<Seq<char>, Bucket>,
    keyb: Map<Seq<char>, Bucket>,
    ip: Seq<char>,
    path: Seq<char>,
    times: Seq<i128>,
)
    requires
        s.enabled,
        oauth_init_path(path),
        !ipb.contains_key(ip),
        !initb.contains_key(ip),
        within_window_of_first(times),
        times.len() <= s.global_per_minute,
    ensures
        verdicts(s, ipb, initb, keyb, ip, path, None, times).3.len() == times.len(),
        forall|i: int|
            0 <= i < times.len() ==> (#[trigger] verdicts(s, ipb, initb, keyb, ip, path, None, times).3[i] is None
                <==> i < s.oauth_init_per_minute),
        forall|i: int|
            s.oauth_init_per_minute <= i < times.len() ==> #[trigger] verdicts(
                s,
                ipb,
                initb,
                keyb,
                ip,
                path,
                None,
                times,
            ).3[i] == Some("Too many login attempts. Please try again later."@),
        verdicts(s, ipb, initb, keyb, ip, path, None, times).2 == keyb,
{
    lemma_window_admits_first(ipb, ip, s.global_per_minute, times);
    lemma_window_admits_first(initb, ip, s.oauth_init_per_minute, times);
    lemma_init_verdicts_follow_bucket(s, ipb, initb, keyb, ip, path, times);
}


/// Requests with one API key at the given instants, one after the other,
/// as `check_api_key_at` counts them (against the key's own limit, else the
/// global one; all let through when rate limiting is off): the key buckets
/// after them and, in order, whether each was let through.
pub open spec fn key_checks(
    s: RateLimitConfig,
    keyb: Map<Seq<char>, Bucket>,
    key: Seq<char>,
    custom: Option<i32>,
    times: Seq<i128>,
) -> (Map<Seq<char>, Bucket>, Seq<bool>)
    decreases times.len(),
{
    if times.len() == 0 {
        (keyb, Seq::empty())
    } else {
        let before = key_checks(s, keyb, key, custom, times.drop_last());
        let step = count_spec(s.enabled, before.0, key, key_limit_spec(s.global_per_minute, custom), times.last());
        (step.0, before.1.push(step.1))
    }
}

/// With rate limiting on, the checks of a key count exactly as its bucket
/// does; with it off, every check lets the request through and no bucket
/// changes.
proof fn lemma_key_checks_follow(
    s: RateLimitConfig,
    keyb: Map<Seq<char>, Bucket>,
    key: Seq<char>,
    custom: Option<i32>,
    times: Seq<i128>,
)
    ensures
        s.enabled ==> key_checks(s, keyb, key, custom, times) == takes(
            keyb,
            key,
            key_limit_spec(s.global_per_minute, custom),
            times,
        ),
        !s.enabled ==> key_checks(s, keyb, key, custom, times).0 == keyb,
        key_checks(s, keyb, key, custom, times).1.len() == times.len(),
        !s.enabled ==> forall|i: int| 0 <= i < times.len() ==> #[trigger] key_checks(s, keyb, key, custom, times).1[i],
    decreases times.len(),
{
    if times.len() > 0 {
        let prev = times.drop_last();
        lemma_key_checks_follow(s, keyb, key, custom, prev);
        if !s.enabled {
            let a = key_checks(s, keyb, key, custom, times).1;
            let pa = key_checks(s, keyb, key, custom, prev).1;
            assert forall|i: int| 0 <= i < times.len() implies #[trigger] a[i] by {
                if i < prev.len() {
                    assert(a[i] == pa[i]);
                }
            }
        }
    }
}

/// Of the requests that a key without a bucket makes within one window,
/// exactly the first `l` are let through, `l` being the key's own limit
/// (the global one when it has none): the `i`-th exactly when `i < l`, so
/// `min(n, l)` of `n`. No other key's bucket changes. With rate limiting
/// off, every one is let through.
pub proof fn lemma_api_key_limit_over_calls(
    s: RateLimitConfig,
    keyb: Map<Seq<char>, Bucket>,
    key: Seq<char>,
    custom: Option<i32>,
    times: Seq<i128>,
)
    requires
        !keyb.contains_key(key),
        within_window_of_first(times),
    ensures
        key_checks(s, keyb, key, custom, times).1.len() == times.len(),
        forall|i: int|
            0 <= i < times.len() ==> #[trigger] key_checks(s, keyb, key, custom, times).1[i] == (!s.enabled || i
                < key_limit_spec(s.global_per_minute, custom)),
        forall|other: Seq<char>|
            other != key ==> (#[trigger] key_checks(s, keyb, key, custom, times).0.contains_key(other)
                == keyb.contains_key(other) && (keyb.contains_key(other) ==> key_checks(
                s,
                keyb,
                key,
                custom,
                times,
            ).0[other] == keyb[other])),
        custom matches Some(l) ==> (l >= 0 ==> key_limit_spec(s.global_per_minute, custom) == l),
        custom is None ==> key_limit_spec(s.global_per_minute, custom) == s.global_per_minute,
{
    lemma_key_checks_follow(s, keyb, key, custom, times);
    lemma_window_admits_first(keyb, key, key_limit_spec(s.global_per_minute, custom), times);
}

} // verus!
