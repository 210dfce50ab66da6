//! Detection of brute-force attempts per client address and of unusual
//! logins per user.

use vstd::prelude::*;
use std::collections::VecDeque;
use crate::maps::{
    attempts_get, attempts_insert, attempts_map, attempts_new, attempts_retain_recent,
    attempts_view, recent_attempts, Attempts, AttemptsMap, AttemptsView,
};
use crate::maps::{history_get, history_insert, history_view, History, HistoryView, LoginRecordView};
use crate::net::{subnet_of, subnet_spec};
use crate::text::{listed, owned, str_eq, string_views};
use crate::time::{
    lemma_total_bounds, clock_now, in_calendar, instant_at, instant_from_nanos, Instant, CALENDAR_END, CALENDAR_START,
};

verus! {

/// The outcome of a check.
#[derive(Debug, Clone, PartialEq)]
pub enum AnomalyResult {
    /// Nothing unusual.
    Normal,
    /// Too many failed logins: the address is locked out until `lockout_until`.
    BruteForceDetected { attempts: u32, lockout_until: Instant },
    /// A login from an address the user has not logged in from before.
    UnusualLocation { previous_ip: String, current_ip: String },
    /// A login from another subnet too soon after the last one.
    ImpossibleTravel { previous_location: String, current_location: String, time_diff_minutes: i64 },
    /// Unusual activity of another kind.
    UnusualPattern { reason: String },
}

/// An outcome with its texts as character sequences.
pub enum AnomalyView {
    Normal,
    BruteForceDetected(u32, Instant),
    UnusualLocation(Seq<char>, Seq<char>),
    ImpossibleTravel(Seq<char>, Seq<char>, i64),
    UnusualPattern(Seq<char>),
}

impl View for AnomalyResult {
    type V = AnomalyView;

    open spec fn view(&self) -> AnomalyView {
        match self {
            AnomalyResult::Normal => AnomalyView::Normal,
            AnomalyResult::BruteForceDetected { attempts, lockout_until } => AnomalyView::BruteForceDetected(*attempts, *lockout_until),
            AnomalyResult::UnusualLocation { previous_ip, current_ip } => AnomalyView::UnusualLocation(previous_ip@, current_ip@),
            AnomalyResult::ImpossibleTravel { previous_location, current_location, time_diff_minutes } => AnomalyView::ImpossibleTravel(
                previous_location@,
                current_location@,
                *time_diff_minutes,
            ),
            AnomalyResult::UnusualPattern { reason } => AnomalyView::UnusualPattern(reason@),
        }
    }
}

impl AnomalyResult {
    /// Whether the outcome blocks the login (a brute-force lockout).
    pub fn is_blocked(&self) -> (r: bool)
        ensures
            r <==> self is BruteForceDetected,
    {
        match self {
            AnomalyResult::BruteForceDetected { .. } => true,
            _ => false,
        }
    }

    /// Whether the outcome deserves a warning (anything but `Normal`).
    pub fn should_warn(&self) -> (r: bool)
        ensures
            r <==> !(self is Normal),
    {
        match self {
            AnomalyResult::Normal => false,
            _ => true,
        }
    }
}

/// The thresholds of the detection.
#[derive(Debug, Clone, Copy, PartialEq, Eq)]
pub struct AnomalyConfig {
    /// Failed logins within the window that lock an address out.
    pub max_failed_attempts: u32,
    /// Length of a lockout, in minutes.
    pub lockout_duration_minutes: i64,
    /// Window in which failed logins are counted, in minutes.
    pub failed_attempt_window_minutes: i64,
    /// A change of subnet sooner than this many minutes after the last
    /// login is suspicious.
    pub suspicious_travel_time_minutes: i64,
}

impl Default for AnomalyConfig {
    fn default() -> (r: Self)
        ensures
            r == (AnomalyConfig {
                max_failed_attempts: 5,
                lockout_duration_minutes: 15,
                failed_attempt_window_minutes: 30,
                suspicious_travel_time_minutes: 60,
            }),
    {
        AnomalyConfig {
            max_failed_attempts: 5,
            lockout_duration_minutes: 15,
            failed_attempt_window_minutes: 30,
            suspicious_travel_time_minutes: 60,
        }
    }
}

/// The largest number of minutes that chrono's `TimeDelta::minutes` takes
/// (it panics beyond: the delta must stay within `i64::MAX` milliseconds).
pub const MAX_DELTA_MINUTES: i64 = 153_722_867_280_912;

pub open spec fn minutes_ok(m: i64) -> bool {
    -MAX_DELTA_MINUTES <= m <= MAX_DELTA_MINUTES
}

/// `n` shifted by `m` minutes, in nanoseconds.
pub open spec fn shifted(n: int, m: i64) -> int {
    n + m * 60_000_000_000
}

/// The failed logins that are not older than `start` once the older ones at
/// the front are dropped (the list is kept oldest first).
pub open spec fn drop_older(s: Seq<i128>, start: int) -> Seq<i128>
    decreases s.len(),
{
    if s.len() > 0 && s[0] < start {
        drop_older(s.drop_first(), start)
    } else {
        s
    }
}

/// A count as `u32`, saturating.
pub open spec fn saturate(n: nat) -> u32 {
    if n > u32::MAX {
        u32::MAX
    } else {
        n as u32
    }
}

/// The record of an address, or the empty one that a first failure starts.
pub open spec fn attempts_or_default(m: Map<Seq<char>, AttemptsView>, ip: Seq<char>) -> AttemptsView {
    if m.contains_key(ip) {
        m[ip]
    } else {
        (Seq::<i128>::empty(), None)
    }
}

/// The failures of an address within the window, this one (at `n`) last.
pub open spec fn failures_after(
    m: Map<Seq<char>, AttemptsView>,
    ip: Seq<char>,
    cfg: AnomalyConfig,
    n: int,
) -> Seq<i128> {
    drop_older(
        attempts_or_default(m, ip).0,
        shifted(n, -cfg.failed_attempt_window_minutes as i64),
    ).push(n as i128)
}

/// Whether a failure at `n` locks the address out.
pub open spec fn locks_out(m: Map<Seq<char>, AttemptsView>, ip: Seq<char>, cfg: AnomalyConfig, n: int) -> bool {
    saturate(failures_after(m, ip, cfg, n).len()) >= cfg.max_failed_attempts
}

/// Whether recording a failure at `n` stays within what chrono can compute:
/// the window and, when the address gets locked out, the lockout as
/// `TimeDelta`s, and their ends as dates.
pub open spec fn failure_computable(
    m: Map<Seq<char>, AttemptsView>,
    ip: Seq<char>,
    cfg: AnomalyConfig,
    n: int,
) -> bool {
    &&& minutes_ok(cfg.failed_attempt_window_minutes)
    &&& in_calendar(shifted(n, -cfg.failed_attempt_window_minutes as i64))
    &&& locks_out(m, ip, cfg, n) ==> minutes_ok(cfg.lockout_duration_minutes) && in_calendar(
        shifted(n, cfg.lockout_duration_minutes),
    )
}

/// A failed login from `ip` at `n` (nanoseconds since the epoch): the
/// failures older than the window are dropped, this one is added, and when
/// their number reaches the maximum the address is locked out for the
/// lockout duration from now.
pub open spec fn failure_spec(
    m: Map<Seq<char>, AttemptsView>,
    ip: Seq<char>,
    cfg: AnomalyConfig,
    n: int,
) -> (Map<Seq<char>, AttemptsView>, AnomalyView) {
    let times = failures_after(m, ip, cfg, n);
    let count = saturate(times.len());
    if count >= cfg.max_failed_attempts {
        let until = instant_at(shifted(n, cfg.lockout_duration_minutes));
        (m.insert(ip, (times, Some(until))), AnomalyView::BruteForceDetected(count, until))
    } else {
        (m.insert(ip, (times, attempts_or_default(m, ip).1)), AnomalyView::Normal)
    }
}

/// The lockout of `ip` if one lasts at `n`.
pub open spec fn lockout_spec(m: Map<Seq<char>, AttemptsView>, ip: Seq<char>, n: int) -> Option<
    AnomalyView,
> {
    if m.contains_key(ip) && (m[ip].1 matches Some(l) && n < l.total()) {
        Some(AnomalyView::BruteForceDetected(saturate(m[ip].0.len()), m[ip].1.unwrap()))
    } else {
        None
    }
}

/// The record of `ip`, if there is one, emptied.
pub open spec fn clear_spec(m: Map<Seq<char>, AttemptsView>, ip: Seq<char>) -> Map<
    Seq<char>,
    AttemptsView,
> {
    if m.contains_key(ip) {
        m.insert(ip, (Seq::<i128>::empty(), None))
    } else {
        m
    }
}

fn count_u32(n: usize) -> (r: u32)
    ensures
        r == saturate(n as nat),
{
    if n > 4_294_967_295usize {
        u32::MAX
    } else {
        n as u32
    }
}

fn minutes_in_range(m: i64) -> (r: bool)
    ensures
        r == minutes_ok(m),
{
    -MAX_DELTA_MINUTES <= m && m <= MAX_DELTA_MINUTES
}

fn shift(n: i128, m: i64) -> (r: i128)
    requires
        -9_300_000_000_000_000_000_000_000_000 <= n <= 9_300_000_000_000_000_000_000_000_000,
        minutes_ok(m),
    ensures
        r == shifted(n as int, m),
{
    assert(-10_000_000_000_000_000_000_000_000 <= m * 60_000_000_000 <= 10_000_000_000_000_000_000_000_000)
        by (nonlinear_arith)
        requires
            minutes_ok(m),
    ;
    n + (m as i128) * 60_000_000_000
}

fn in_calendar_range(n: i128) -> (r: bool)
    ensures
        r == in_calendar(n as int),
{
    CALENDAR_START <= n && n <= CALENDAR_END
}

/// The subnet of an address (`a.b.c.0/24`, `x:y:z::/48`), or the text
/// itself when it is no IP address.
pub open spec fn subnet_text(ip: Seq<char>) -> Seq<char> {
    match subnet_spec(ip) {
        Some(s) => s,
        None => ip,
    }
}

/// The subnet of an address, for comparisons that do not keep the whole
/// address: `a.b.c.0/24` for IPv4, `x:y:z::/48` for IPv6, and the text
/// unchanged when it is no IP address.
pub fn extract_ip_subnet(ip: &str) -> (r: String)
    ensures
        r@ == subnet_text(ip@),
{
    match subnet_of(ip) {
        Some(s) => s,
        None => owned(ip),
    }
}

/// The history of a user, or the empty one that a first login starts.
pub open spec fn history_or_default(m: Map<Seq<char>, HistoryView>, user: Seq<char>) -> HistoryView {
    if m.contains_key(user) {
        m[user]
    } else {
        (Seq::<LoginRecordView>::empty(), Seq::<Seq<char>>::empty())
    }
}

/// The known addresses with `ip` added last, the oldest dropped when ten
/// are known already.
pub open spec fn remember_ip(known: Seq<Seq<char>>, ip: Seq<char>) -> Seq<Seq<char>> {
    (if known.len() >= 10 {
        known.drop_first()
    } else {
        known
    }).push(ip)
}

/// Division rounding toward zero, for a positive divisor.
pub open spec fn trunc_div(a: int, b: int) -> int {
    if a >= 0 {
        a / b
    } else {
        -((-a) / b)
    }
}

/// Whole minutes from `t` to `n` nanoseconds since the epoch, rounded toward
/// zero (chrono's `num_minutes` of the difference).
pub open spec fn minutes_since(t: Instant, n: int) -> int {
    trunc_div(n - t.total(), 60_000_000_000)
}

/// Whether a login from subnet `sub` at `n` comes from another subnet than
/// the last login, fewer whole minutes after it than the suspicious travel
/// time (the same minute included; a login dated before the last one is no
/// travel).
pub open spec fn travel_suspicious(h: HistoryView, sub: Seq<char>, cfg: AnomalyConfig, n: int) -> bool {
    &&& h.0.len() > 0
    &&& h.0.last().1 != sub
    &&& 0 <= minutes_since(h.0.last().2, n) < cfg.suspicious_travel_time_minutes
}

/// The check of a login of `user` from `ip` at `n`: a suspicious change of
/// subnet since the last login is reported first; otherwise an address not
/// known yet is remembered, and reported when other addresses were known.
/// The user gets an (empty) history if there was none.
pub open spec fn anomaly_spec(
    m: Map<Seq<char>, HistoryView>,
    user: Seq<char>,
    ip: Seq<char>,
    cfg: AnomalyConfig,
    n: int,
) -> (Map<Seq<char>, HistoryView>, AnomalyView) {
    let h = history_or_default(m, user);
    let sub = subnet_text(ip);
    if travel_suspicious(h, sub, cfg, n) {
        (
            m.insert(user, h),
            AnomalyView::ImpossibleTravel(h.0.last().1, sub, minutes_since(h.0.last().2, n) as i64),
        )
    } else if !h.1.contains(ip) {
        (
            m.insert(user, (h.0, remember_ip(h.1, ip))),
            if h.1.len() > 0 {
                AnomalyView::UnusualLocation(h.1.last(), ip)
            } else {
                AnomalyView::Normal
            },
        )
    } else {
        (m.insert(user, h), AnomalyView::Normal)
    }
}

/// A successful login of `user` from `ip` at `now`: the login is added to
/// the last ten kept, and the address to the known ones if it is new.
pub open spec fn login_spec(
    m: Map<Seq<char>, HistoryView>,
    user: Seq<char>,
    ip: Seq<char>,
    agent: Option<Seq<char>>,
    now: Instant,
) -> Map<Seq<char>, HistoryView> {
    let h = history_or_default(m, user);
    let all = h.0.push((ip, subnet_text(ip), now, agent));
    let recent = if all.len() > 10 {
        all.skip(all.len() - 10)
    } else {
        all
    };
    m.insert(
        user,
        (
            recent,
            if h.1.contains(ip) {
                h.1
            } else {
                remember_ip(h.1, ip)
            },
        ),
    )
}

proof fn lemma_drop_first_views(
    before: Seq<crate::maps::LoginRecord>,
    all: Seq<LoginRecordView>,
    k: int,
)
    requires
        before.len() > 0,
        0 <= k,
        k + before.len() == all.len(),
        before.map_values(|r: crate::maps::LoginRecord| crate::maps::record_view(r)) =~= all.skip(k),
    ensures
        before.drop_first().map_values(|r: crate::maps::LoginRecord| crate::maps::record_view(r))
            =~= all.skip(k + 1),
{
    let f = |r: crate::maps::LoginRecord| crate::maps::record_view(r);
    assert forall|i: int| 0 <= i < before.len() - 1 implies #[trigger] before.drop_first().map_values(
        f,
    )[i] == all.skip(k + 1)[i] by {
        assert(before.map_values(f)[i + 1] == all.skip(k)[i + 1]);
    }
}

/// An optional text as an optional character sequence.
pub open spec fn agent_view(a: Option<&str>) -> Option<Seq<char>> {
    match a {
        Some(a) => Some(a@),
        None => None,
    }
}

fn remember(known: &mut Vec<String>, ip: &str)
    ensures
        string_views(final(known)@) == remember_ip(string_views(old(known)@), ip@),
{
    let ghost before = string_views(known@);
    if known.len() >= 10 {
        known.remove(0);
        assert(string_views(known@) =~= before.drop_first());
    }
    let ghost mid = string_views(known@);
    known.push(owned(ip));
    assert(string_views(known@) =~= mid.push(ip@));
}

fn minutes_of(d: i128) -> (r: i64)
    requires
        -20_000_000_000_000_000_000_000_000_000 <= d <= 20_000_000_000_000_000_000_000_000_000,
    ensures
        r == trunc_div(d as int, 60_000_000_000),
{
    if d >= 0 {
        assert(d / 60_000_000_000 <= 400_000_000_000_000_000) by (nonlinear_arith)
            requires
                0 <= d <= 20_000_000_000_000_000_000_000_000_000,
        ;
        (d / 60_000_000_000) as i64
    } else {
        let p: i128 = -d;
        assert(p / 60_000_000_000 <= 400_000_000_000_000_000) by (nonlinear_arith)
            requires
                0 <= p <= 20_000_000_000_000_000_000_000_000_000,
        ;
        -((p / 60_000_000_000) as i64)
    }
}

/// The service: its thresholds, the failed logins by address and the login
/// histories by user.
pub struct AnomalyDetectionService {
    config: AnomalyConfig,
    ip_attempts: AttemptsMap,
    user_history: crate::maps::HistoryMap,
}

impl AnomalyDetectionService {
    pub closed spec fn settings(&self) -> AnomalyConfig {
        self.config
    }

    pub closed spec fn attempts(&self) -> Map<Seq<char>, AttemptsView> {
        attempts_map(self.ip_attempts)
    }

    pub closed spec fn histories(&self) -> Map<Seq<char>, crate::maps::HistoryView> {
        crate::maps::history_map(self.user_history)
    }

    /// Every login history keeps at most ten logins and ten addresses.
    pub open spec fn wf(&self) -> bool {
        histories_bounded(self.histories())
    }

    pub fn new(config: AnomalyConfig) -> (r: Self)
        ensures
            r.wf(),
            r.settings() == config,
            r.attempts() == Map::<Seq<char>, AttemptsView>::empty(),
            r.histories() == Map::<Seq<char>, crate::maps::HistoryView>::empty(),
    {
        let ip_attempts = attempts_new();
        let user_history = crate::maps::history_new();
        assert(attempts_map(ip_attempts) =~= Map::<Seq<char>, AttemptsView>::empty());
        assert(crate::maps::history_map(user_history) =~= Map::<
            Seq<char>,
            crate::maps::HistoryView,
        >::empty());
        AnomalyDetectionService { config, ip_attempts, user_history }
    }

    /// The lockout of `ip` if one lasts at `now`.
    pub fn check_ip_lockout_at(&self, ip: &str, now: Instant) -> (r: Option<AnomalyResult>)
        ensures
            r matches Some(v) ==> lockout_spec(self.attempts(), ip@, now.total()) == Some(v@),
            r is None ==> lockout_spec(self.attempts(), ip@, now.total()) is None,
    {
        match attempts_get(&self.ip_attempts, ip) {
            Some(a) => match a.1 {
                Some(until) => {
                    if now.to_nanos() < until.to_nanos() {
                        Some(
                            AnomalyResult::BruteForceDetected {
                                attempts: count_u32(a.0.len()),
                                lockout_until: until,
                            },
                        )
                    } else {
                        None
                    }
                },
                None => None,
            },
            None => None,
        }
    }

    /// The lockout of `ip` if one lasts now, by the clock.
    pub fn check_ip_lockout(&self, ip: &str) -> (r: Option<AnomalyResult>)
        ensures
            exists|t: Instant|
                t.wf() && (match r {
                    Some(v) => #[trigger] lockout_spec(self.attempts(), ip@, t.total()) == Some(v@),
                    None => lockout_spec(self.attempts(), ip@, t.total()) is None,
                }),
    {
        let now = clock_now();
        let r = self.check_ip_lockout_at(ip, now);
        assert(match r {
            Some(v) => lockout_spec(self.attempts(), ip@, now.total()) == Some(v@),
            None => lockout_spec(self.attempts(), ip@, now.total()) is None,
        });
        r
    }

    /// A failed login from `ip` at `now`: failures older than the window are
    /// forgotten, this one is counted, and at the maximum the address is
    /// locked out for the lockout duration.
    pub fn record_failed_attempt_at(&mut self, ip: &str, now: Instant) -> (r: AnomalyResult)
        requires
            failure_computable(old(self).attempts(), ip@, old(self).settings(), now.total()),
        ensures
            final(self).settings() == old(self).settings(),
            final(self).histories() == old(self).histories(),
            (final(self).attempts(), r@) == failure_spec(
                old(self).attempts(),
                ip@,
                old(self).settings(),
                now.total(),
            ),
    {
        match self.record_failure(ip, now) {
            Some(r) => r,
            None => AnomalyResult::Normal,
        }
    }

    /// A failed login from `ip`, by the clock. At a reading where chrono
    /// could not compute the window or the lockout (their ends beyond its
    /// calendar, where chrono's date arithmetic panics), nothing is recorded
    /// and the outcome is `Normal`: a limit of the calendar, not of the rule.
    pub fn record_failed_attempt(&mut self, ip: &str) -> (r: AnomalyResult)
        ensures
            final(self).settings() == old(self).settings(),
            final(self).histories() == old(self).histories(),
            exists|t: Instant|
                t.wf() && if #[trigger] failure_computable(
                    old(self).attempts(),
                    ip@,
                    old(self).settings(),
                    t.total(),
                ) {
                    (final(self).attempts(), r@) == failure_spec(
                        old(self).attempts(),
                        ip@,
                        old(self).settings(),
                        t.total(),
                    )
                } else {
                    final(self).attempts() == old(self).attempts() && r is Normal
                },
    {
        let now = clock_now();
        match self.record_failure(ip, now) {
            Some(r) => r,
            None => AnomalyResult::Normal,
        }
    }

    /// Forgets the failures and the lockout of `ip` (after a successful
    /// login).
    pub fn clear_failed_attempts(&mut self, ip: &str)
        ensures
            final(self).settings() == old(self).settings(),
            final(self).histories() == old(self).histories(),
            final(self).attempts() == clear_spec(old(self).attempts(), ip@),
    {
        if attempts_get(&self.ip_attempts, ip).is_some() {
            let fresh: Attempts = (VecDeque::new(), None);
            assert(attempts_view(fresh).0 =~= Seq::<i128>::empty());
            attempts_insert(&mut self.ip_attempts, ip, fresh);
        }
    }

    /// Checks a login of `user_id` from `ip` at `now` for a suspicious
    /// change of subnet or an address not seen before.
    pub fn check_login_anomaly_at(
        &mut self,
        user_id: &str,
        ip: &str,
        user_agent: Option<&str>,
        now: Instant,
    ) -> (r: AnomalyResult)
        ensures
            old(self).wf() ==> final(self).wf(),
            final(self).settings() == old(self).settings(),
            final(self).attempts() == old(self).attempts(),
            (final(self).histories(), r@) == anomaly_spec(
                old(self).histories(),
                user_id@,
                ip@,
                old(self).settings(),
                now.total(),
            ),
    {
        let ghost m = self.histories();
        let sub = extract_ip_subnet(ip);
        let h: History = match history_get(&self.user_history, user_id) {
            Some(h) => h,
            None => (VecDeque::new(), Vec::new()),
        };
        assert(history_view(h).0 =~= history_or_default(m, user_id@).0);
        assert(history_view(h).1 =~= history_or_default(m, user_id@).1);
        let ghost hv = history_view(h);
        let n = now.to_nanos();
        let len = h.0.len();
        if len > 0 {
            let last = &h.0[len - 1];
            assert(hv.0.last() == crate::maps::record_view(h.0@[len - 1]));
            proof {
                lemma_total_bounds(now);
                lemma_total_bounds(last.2);
            }
            let d = minutes_of(n - last.2.to_nanos());
            if !str_eq(last.1.as_str(), sub.as_str()) && 0 <= d && d < self.config.suspicious_travel_time_minutes {
                let prev = owned(last.1.as_str());
                history_insert(&mut self.user_history, user_id, h);
                return AnomalyResult::ImpossibleTravel {
                    previous_location: prev,
                    current_location: sub,
                    time_diff_minutes: d,
                };
            }
        }
        if !listed(&h.1, ip) {
            let records = h.0;
            let mut known = h.1;
            let had = known.len() > 0;
            let prev = if had {
                owned(known[known.len() - 1].as_str())
            } else {
                String::new()
            };
            proof {
                if had {
                    assert(hv.1.last() == known@[known@.len() - 1]@);
                }
            }
            remember(&mut known, ip);
            assert(history_view((records, known)).0 == hv.0);
            history_insert(&mut self.user_history, user_id, (records, known));
            if had {
                AnomalyResult::UnusualLocation { previous_ip: prev, current_ip: owned(ip) }
            } else {
                AnomalyResult::Normal
            }
        } else {
            history_insert(&mut self.user_history, user_id, h);
            AnomalyResult::Normal
        }
    }

    /// Checks a login, by the clock.
    pub fn check_login_anomaly(&mut self, user_id: &str, ip: &str, user_agent: Option<&str>) -> (r: AnomalyResult)
        ensures
            old(self).wf() ==> final(self).wf(),
            final(self).settings() == old(self).settings(),
            final(self).attempts() == old(self).attempts(),
            exists|t: Instant|
                t.wf() && (final(self).histories(), r@) == #[trigger] anomaly_spec(
                    old(self).histories(),
                    user_id@,
                    ip@,
                    old(self).settings(),
                    t.total(),
                ),
    {
        let now = clock_now();
        self.check_login_anomaly_at(user_id, ip, user_agent, now)
    }

    /// A successful login of `user_id` from `ip` at `now`: it joins the last
    /// ten logins kept, the address joins the known ones, and the failures
    /// of the address are forgotten.
    pub fn record_successful_login_at(
        &mut self,
        user_id: &str,
        ip: &str,
        user_agent: Option<&str>,
        now: Instant,
    )
        ensures
            old(self).wf() ==> final(self).wf(),
            final(self).settings() == old(self).settings(),
            final(self).histories() == login_spec(
                old(self).histories(),
                user_id@,
                ip@,
                agent_view(user_agent),
                now,
            ),
            final(self).attempts() == clear_spec(old(self).attempts(), ip@),
    {
        let ghost m = self.histories();
        let sub = extract_ip_subnet(ip);
        let h: History = match history_get(&self.user_history, user_id) {
            Some(h) => h,
            None => (VecDeque::new(), Vec::new()),
        };
        assert(history_view(h).0 =~= history_or_default(m, user_id@).0);
        assert(history_view(h).1 =~= history_or_default(m, user_id@).1);
        let ghost hv = history_view(h);
        let agent: Option<String> = match user_agent {
            Some(a) => Some(owned(a)),
            None => None,
        };
        let mut records = h.0;
        let mut known = h.1;
        let record = (owned(ip), sub, now, agent);
        let ghost all = hv.0.push(crate::maps::record_view(record));
        records.push_back(record);
        assert(records@.map_values(|r: crate::maps::LoginRecord| crate::maps::record_view(r))
            =~= all);
        while records.len() > 10
            invariant
                records@.len() <= all.len(),
                records@.len() == all.len() || records@.len() >= 10,
                records@.map_values(|r: crate::maps::LoginRecord| crate::maps::record_view(r))
                    =~= all.skip(all.len() - records@.len()),
            decreases records@.len(),
        {
            let ghost before = records@;
            records.pop_front();
            assert(records@ =~= before.drop_first());
            proof {
                lemma_drop_first_views(before, all, all.len() - before.len());
            }
        }
        if !listed(&known, ip) {
            remember(&mut known, ip);
        }
        let ghost result = history_view((records, known));
        history_insert(&mut self.user_history, user_id, (records, known));
        assert(result.0 =~= (if all.len() > 10 {
            all.skip(all.len() - 10)
        } else {
            all
        }));
        self.clear_failed_attempts(ip);
    }

    /// A successful login, by the clock.
    pub fn record_successful_login(&mut self, user_id: &str, ip: &str, user_agent: Option<&str>)
        ensures
            old(self).wf() ==> final(self).wf(),
            final(self).settings() == old(self).settings(),
            exists|t: Instant|
                t.wf() && final(self).histories() == #[trigger] login_spec(
                    old(self).histories(),
                    user_id@,
                    ip@,
                    agent_view(user_agent),
                    t,
                ),
            final(self).attempts() == clear_spec(old(self).attempts(), ip@),
    {
        let now = clock_now();
        self.record_successful_login_at(user_id, ip, user_agent, now)
    }

    /// Forgets the failure records of the addresses with neither a lockout
    /// lasting at `now` nor a failure in the last day.
    pub fn cleanup_at(&mut self, now: Instant)
        ensures
            final(self).settings() == old(self).settings(),
            final(self).histories() == old(self).histories(),
            final(self).attempts() == recent_attempts(old(self).attempts(), now.total() as i128),
    {
        proof {
            lemma_total_bounds(now);
        }
        attempts_retain_recent(&mut self.ip_attempts, now.to_nanos());
    }

    /// Forgets stale failure records, by the clock.
    pub fn cleanup(&mut self)
        ensures
            final(self).settings() == old(self).settings(),
            final(self).histories() == old(self).histories(),
            exists|t: Instant|
                t.wf() && final(self).attempts() == #[trigger] recent_attempts(
                    old(self).attempts(),
                    t.total() as i128,
                ),
    {
        let now = clock_now();
        self.cleanup_at(now)
    }

    /// A failed login from `ip` at `n`, or `None` (and nothing changed) where
    /// chrono would not compute it.
    fn record_failure(&mut self, ip: &str, now: Instant) -> (r: Option<AnomalyResult>)
        ensures
            final(self).settings() == old(self).settings(),
            final(self).histories() == old(self).histories(),
            failure_computable(old(self).attempts(), ip@, old(self).settings(), now.total()) ==> (r
                matches Some(v) && (final(self).attempts(), v@) == failure_spec(
                old(self).attempts(),
                ip@,
                old(self).settings(),
                now.total(),
            )),
            !failure_computable(old(self).attempts(), ip@, old(self).settings(), now.total()) ==> r
                is None && final(self).attempts() == old(self).attempts(),
    {
        let ghost m = self.attempts();
        let n = now.to_nanos();
        proof {
            lemma_total_bounds(now);
        }
        let w = self.config.failed_attempt_window_minutes;
        if !minutes_in_range(w) {
            return None;
        }
        let start = shift(n, -w);
        if !in_calendar_range(start) {
            return None;
        }
        let entry: Attempts = match attempts_get(&self.ip_attempts, ip) {
            Some(a) => a,
            None => (VecDeque::new(), None),
        };
        assert(attempts_view(entry) == attempts_or_default(m, ip@));
        let mut times = entry.0;
        while times.len() > 0 && times[0] < start
            invariant
                drop_older(times@, start as int) == drop_older(entry.0@, start as int),
            decreases times@.len(),
        {
            let ghost before = times@;
            times.pop_front();
            assert(times@ =~= before.drop_first());
        }
        times.push_back(n);
        let count = count_u32(times.len());
        assert(times@ == failures_after(m, ip@, self.config, n as int));
        if count >= self.config.max_failed_attempts {
            let l = self.config.lockout_duration_minutes;
            if !minutes_in_range(l) {
                return None;
            }
            let end = shift(n, l);
            if !in_calendar_range(end) {
                return None;
            }
            let until = instant_from_nanos(end);
            attempts_insert(&mut self.ip_attempts, ip, (times, Some(until)));
            Some(AnomalyResult::BruteForceDetected { attempts: count, lockout_until: until })
        } else {
            attempts_insert(&mut self.ip_attempts, ip, (times, entry.1));
            Some(AnomalyResult::Normal)
        }
    }
}

} // verus!

verus! {

/// A lockout that a failure imposes, with a positive lockout duration, is in
/// force at the moment of that failure and reports the same count and end.
pub proof fn lemma_detection_locks_out(
    m: Map<Seq<char>, AttemptsView>,
    ip: Seq<char>,
    cfg: AnomalyConfig,
    n: int,
)
    requires
        failure_computable(m, ip, cfg, n),
        cfg.lockout_duration_minutes > 0,
        failure_spec(m, ip, cfg, n).1 is BruteForceDetected,
    ensures
        lockout_spec(failure_spec(m, ip, cfg, n).0, ip, n) == Some(failure_spec(m, ip, cfg, n).1),
{
    let end = shifted(n, cfg.lockout_duration_minutes);
    lemma_instant_at_total(end);
    assert(end > n) by (nonlinear_arith)
        requires
            end == n + cfg.lockout_duration_minutes * 60_000_000_000,
            cfg.lockout_duration_minutes > 0,
    ;
}

/// Within chrono's calendar, `instant_at` gives back the count it was made of.
pub proof fn lemma_instant_at_total(n: int)
    requires
        in_calendar(n),
    ensures
        instant_at(n).total() == n,
        instant_at(n).nanos < 1_000_000_000,
{
    let q = n / 1_000_000_000;
    let r = n % 1_000_000_000;
    assert(n == q * 1_000_000_000 + r && 0 <= r < 1_000_000_000) by (nonlinear_arith)
        requires
            q == n / 1_000_000_000,
            r == n % 1_000_000_000,
    ;
    assert(-9_223_372_036_854_775_808 <= q <= 9_223_372_036_854_775_807) by (nonlinear_arith)
        requires
            n == q * 1_000_000_000 + r,
            0 <= r < 1_000_000_000,
            CALENDAR_START <= n <= CALENDAR_END,
    ;
}

/// After its failures are forgotten, an address is not locked out.
pub proof fn lemma_cleared_not_locked(m: Map<Seq<char>, AttemptsView>, ip: Seq<char>, n: int)
    ensures
        lockout_spec(clear_spec(m, ip), ip, n) is None,
{
}

/// After its failures are forgotten, the next failure of an address locks
/// it out only when a single failure is enough.
pub proof fn lemma_failure_after_clear(
    m: Map<Seq<char>, AttemptsView>,
    ip: Seq<char>,
    cfg: AnomalyConfig,
    n: int,
)
    ensures
        failure_spec(clear_spec(m, ip), ip, cfg, n).1 is Normal <==> cfg.max_failed_attempts > 1,
        failures_after(clear_spec(m, ip), ip, cfg, n) == seq![n as i128],
{
    let s = Seq::<i128>::empty();
    assert(drop_older(s, shifted(n, -cfg.failed_attempt_window_minutes as i64)) == s);
    assert(s.push(n as i128) =~= seq![n as i128]);
}

/// When none of the recorded failures of an address is older than the
/// window, a new failure adds one to their number.
pub proof fn lemma_failures_accumulate(
    m: Map<Seq<char>, AttemptsView>,
    ip: Seq<char>,
    cfg: AnomalyConfig,
    n: int,
)
    requires
        forall|i: int|
            0 <= i < attempts_or_default(m, ip).0.len() ==> #[trigger] attempts_or_default(
                m,
                ip,
            ).0[i] >= shifted(n, -cfg.failed_attempt_window_minutes as i64),
    ensures
        failures_after(m, ip, cfg, n).len() == attempts_or_default(m, ip).0.len() + 1,
{
    let s = attempts_or_default(m, ip).0;
    if s.len() > 0 {
        assert(s[0] >= shifted(n, -cfg.failed_attempt_window_minutes as i64));
    }
    assert(drop_older(s, shifted(n, -cfg.failed_attempt_window_minutes as i64)) == s);
}

/// Forgetting stale records never lifts a lockout that is in force.
pub proof fn lemma_cleanup_keeps_lockouts(m: Map<Seq<char>, AttemptsView>, ip: Seq<char>, n: i128)
    requires
        lockout_spec(m, ip, n as int) is Some,
    ensures
        lockout_spec(recent_attempts(m, n), ip, n as int) == lockout_spec(m, ip, n as int),
{
}

/// Every history keeps at most ten logins and ten known addresses.
pub open spec fn histories_bounded(m: Map<Seq<char>, HistoryView>) -> bool {
    forall|u: Seq<char>| #[trigger]
        m.contains_key(u) ==> m[u].0.len() <= 10 && m[u].1.len() <= 10
}

/// Checking and recording logins keep every history within ten logins and
/// ten known addresses.
pub proof fn lemma_histories_stay_bounded(
    m: Map<Seq<char>, HistoryView>,
    user: Seq<char>,
    ip: Seq<char>,
    agent: Option<Seq<char>>,
    cfg: AnomalyConfig,
    now: Instant,
)
    requires
        histories_bounded(m),
    ensures
        histories_bounded(anomaly_spec(m, user, ip, cfg, now.total()).0),
        histories_bounded(login_spec(m, user, ip, agent, now)),
{
    let h = history_or_default(m, user);
    assert(h.0.len() <= 10 && h.1.len() <= 10);
    assert(remember_ip(h.1, ip).len() <= 10);
}

/// An address the user is known to have logged in from is never reported
/// as an unusual location.
pub proof fn lemma_known_address_not_unusual(
    m: Map<Seq<char>, HistoryView>,
    user: Seq<char>,
    ip: Seq<char>,
    cfg: AnomalyConfig,
    n: int,
)
    requires
        history_or_default(m, user).1.contains(ip),
    ensures
        !(anomaly_spec(m, user, ip, cfg, n).1 is UnusualLocation),
{
}

/// Failed logins from `ip` at the given instants, one after the other:
/// the records after the last and its result (`Normal` for none).
pub open spec fn failures_fold(
    m: Map<Seq<char>, AttemptsView>,
    ip: Seq<char>,
    cfg: AnomalyConfig,
    times: Seq<i128>,
) -> (Map<Seq<char>, AttemptsView>, AnomalyView)
    decreases times.len(),
{
    if times.len() == 0 {
        (m, AnomalyView::Normal)
    } else {
        failure_spec(failures_fold(m, ip, cfg, times.drop_last()).0, ip, cfg, times.last() as int)
    }
}

/// Whether instants come in order and none lies before the window that
/// ends at the last of them.
pub open spec fn within_one_window(times: Seq<i128>, cfg: AnomalyConfig) -> bool {
    &&& forall|i: int, j: int| 0 <= i <= j < times.len() ==> times[i] <= times[j]
    &&& forall|i: int|
        0 <= i < times.len() ==> #[trigger] times[i] >= shifted(
            times.last() as int,
            -cfg.failed_attempt_window_minutes as i64,
        )
}

/// From an address with no failures on record (none yet, or cleared), a
/// run of failed logins within one window keeps them all, and the last one
/// locks the address out exactly when their number reaches the maximum.
pub proof fn lemma_repeated_failures(
    m: Map<Seq<char>, AttemptsView>,
    ip: Seq<char>,
    cfg: AnomalyConfig,
    times: Seq<i128>,
)
    requires
        attempts_or_default(m, ip).0.len() == 0,
        times.len() > 0,
        within_one_window(times, cfg),
    ensures
        failures_fold(m, ip, cfg, times).0[ip].0 == times,
        failures_fold(m, ip, cfg, times).1 == (if saturate(times.len()) >= cfg.max_failed_attempts {
            AnomalyView::BruteForceDetected(
                saturate(times.len()),
                instant_at(shifted(times.last() as int, cfg.lockout_duration_minutes)),
            )
        } else {
            AnomalyView::Normal
        }),
    decreases times.len(),
{
    let w = -cfg.failed_attempt_window_minutes as i64;
    let prev = times.drop_last();
    let start = shifted(times.last() as int, w);
    if prev.len() > 0 {
        assert forall|i: int| 0 <= i < prev.len() implies #[trigger] prev[i] >= shifted(prev.last() as int, w) by {
            assert(times[i] >= start);
            assert(prev.last() == times[prev.len() - 1]);
            assert(times[prev.len() - 1] <= times[times.len() - 1]);
        }
        assert(within_one_window(prev, cfg));
        lemma_repeated_failures(m, ip, cfg, prev);
    }
    let m1 = failures_fold(m, ip, cfg, prev).0;
    assert(attempts_or_default(m1, ip).0 == prev) by {
        if prev.len() == 0 {
            assert(m1 == m);
            assert(attempts_or_default(m, ip).0 =~= prev);
        }
    }
    assert forall|i: int| 0 <= i < prev.len() implies #[trigger] prev[i] >= start by {
        assert(prev[i] == times[i]);
    }
    lemma_drop_older_keeps(prev, start);
    assert(prev.push(times.last()) =~= times);
}

/// Nothing is dropped when no failure is older than the start.
proof fn lemma_drop_older_keeps(s: Seq<i128>, start: int)
    requires
        forall|i: int| 0 <= i < s.len() ==> #[trigger] s[i] >= start,
    ensures
        drop_older(s, start) == s,
{
    if s.len() > 0 {
        assert(s[0] >= start);
    }
}


/// Whether instants come in order.
pub open spec fn in_order(times: Seq<i128>) -> bool {
    forall|i: int, j: int| 0 <= i <= j < times.len() ==> times[i] <= times[j]
}

/// Dropping the failures older than `start` from the front of a list in
/// order keeps exactly those from the first one not older than `start`.
proof fn lemma_drop_older_in_order(s: Seq<i128>, start: int) -> (j: int)
    requires
        in_order(s),
    ensures
        0 <= j <= s.len(),
        forall|i: int| 0 <= i < j ==> #[trigger] s[i] < start,
        forall|i: int| j <= i < s.len() ==> #[trigger] s[i] >= start,
        drop_older(s, start) == s.subrange(j, s.len() as int),
    decreases s.len(),
{
    if s.len() > 0 && s[0] < start {
        let rest = s.drop_first();
        assert(in_order(rest)) by {
            assert forall|a: int, b: int| 0 <= a <= b < rest.len() implies rest[a] <= rest[b] by {
                assert(rest[a] == s[a + 1] && rest[b] == s[b + 1]);
            }
        }
        let j1 = lemma_drop_older_in_order(rest, start);
        assert forall|i: int| 0 <= i < j1 + 1 implies #[trigger] s[i] < start by {
            if i > 0 {
                assert(s[i] == rest[i - 1]);
            }
        }
        assert forall|i: int| j1 + 1 <= i < s.len() implies #[trigger] s[i] >= start by {
            assert(s[i] == rest[i - 1]);
        }
        assert(rest.subrange(j1, rest.len() as int) =~= s.subrange(j1 + 1, s.len() as int));
        j1 + 1
    } else {
        assert forall|i: int| 0 <= i < s.len() implies #[trigger] s[i] >= start by {
            assert(s[0] <= s[i]);
        }
        assert(s.subrange(0, s.len() as int) =~= s);
        0
    }
}

/// From an address with no failures on record, a run of failed logins in
/// order keeps those from the first one inside the window that ends at the
/// last (index `k`) and forgets the earlier ones; the last one locks the
/// address out exactly when the number kept reaches the maximum.
proof fn lemma_failures_in_order(
    m: Map<Seq<char>, AttemptsView>,
    ip: Seq<char>,
    cfg: AnomalyConfig,
    times: Seq<i128>,
) -> (k: int)
    requires
        attempts_or_default(m, ip).0.len() == 0,
        times.len() > 0,
        in_order(times),
    ensures
        0 <= k < times.len(),
        forall|i: int|
            0 <= i < k ==> #[trigger] times[i] < shifted(
                times.last() as int,
                -cfg.failed_attempt_window_minutes as i64,
            ),
        forall|i: int|
            k <= i < times.len() - 1 ==> #[trigger] times[i] >= shifted(
                times.last() as int,
                -cfg.failed_attempt_window_minutes as i64,
            ),
        failures_fold(m, ip, cfg, times).0.contains_key(ip),
        failures_fold(m, ip, cfg, times).0[ip].0 == times.subrange(k, times.len() as int),
        failures_fold(m, ip, cfg, times).1 == (if saturate((times.len() - k) as nat)
            >= cfg.max_failed_attempts {
            AnomalyView::BruteForceDetected(
                saturate((times.len() - k) as nat),
                instant_at(shifted(times.last() as int, cfg.lockout_duration_minutes)),
            )
        } else {
            AnomalyView::Normal
        }),
    decreases times.len(),
{
    let w = -cfg.failed_attempt_window_minutes as i64;
    let prev = times.drop_last();
    let last = times.last();
    let start = shifted(last as int, w);
    if prev.len() == 0 {
        let m1 = failures_fold(m, ip, cfg, prev).0;
        assert(m1 == m);
        assert(attempts_or_default(m1, ip).0 =~= Seq::<i128>::empty());
        assert(drop_older(Seq::<i128>::empty(), start) == Seq::<i128>::empty());
        assert(Seq::<i128>::empty().push(last) =~= times.subrange(0, times.len() as int));
        0
    } else {
        assert(in_order(prev)) by {
            assert forall|a: int, b: int| 0 <= a <= b < prev.len() implies prev[a] <= prev[b] by {
                assert(prev[a] == times[a] && prev[b] == times[b]);
            }
        }
        let k1 = lemma_failures_in_order(m, ip, cfg, prev);
        let m1 = failures_fold(m, ip, cfg, prev).0;
        let kept = prev.subrange(k1, prev.len() as int);
        assert(attempts_or_default(m1, ip).0 == kept);
        assert(in_order(kept)) by {
            assert forall|a: int, b: int| 0 <= a <= b < kept.len() implies kept[a] <= kept[b] by {
                assert(kept[a] == times[a + k1] && kept[b] == times[b + k1]);
            }
        }
        let j = lemma_drop_older_in_order(kept, start);
        let pstart = shifted(prev.last() as int, w);
        assert(prev.last() == times[prev.len() - 1]);
        assert(times[prev.len() - 1] <= last);
        assert(pstart <= start);
        let k = k1 + j;
        assert forall|i: int| 0 <= i < k implies #[trigger] times[i] < start by {
            if i < k1 {
                assert(prev[i] == times[i]);
                assert(prev[i] < pstart);
            } else {
                assert(kept[i - k1] == times[i]);
            }
        }
        assert forall|i: int| k <= i < times.len() - 1 implies #[trigger] times[i] >= start by {
            assert(kept[i - k1] == times[i]);
        }
        assert(kept.subrange(j, kept.len() as int).push(last) =~= times.subrange(k, times.len() as int));
        k
    }
}

/// What happens at an address, one event after the other: `Some(n)` is a
/// failed login at `n` (`record_failed_attempt_at`), `None` forgets its
/// failures (`clear_failed_attempts`, or a successful login from it). Gives
/// the records after them and the result of the last event (`Normal` for
/// one that forgets).
pub open spec fn events_fold(
    m: Map<Seq<char>, AttemptsView>,
    ip: Seq<char>,
    cfg: AnomalyConfig,
    evs: Seq<Option<i128>>,
) -> (Map<Seq<char>, AttemptsView>, AnomalyView)
    decreases evs.len(),
{
    if evs.len() == 0 {
        (m, AnomalyView::Normal)
    } else {
        let before = events_fold(m, ip, cfg, evs.drop_last()).0;
        match evs.last() {
            Some(n) => failure_spec(before, ip, cfg, n as int),
            None => (clear_spec(before, ip), AnomalyView::Normal),
        }
    }
}

/// Failed logins at the given instants, as events.
pub open spec fn as_failures(times: Seq<i128>) -> Seq<Option<i128>> {
    Seq::new(times.len(), |i: int| Some(times[i]))
}

/// Events after events: the second run starts from the records the first
/// one left.
proof fn lemma_events_append(
    m: Map<Seq<char>, AttemptsView>,
    ip: Seq<char>,
    cfg: AnomalyConfig,
    a: Seq<Option<i128>>,
    b: Seq<Option<i128>>,
)
    ensures
        events_fold(m, ip, cfg, a + b).0 == events_fold(events_fold(m, ip, cfg, a).0, ip, cfg, b).0,
        b.len() > 0 ==> events_fold(m, ip, cfg, a + b) == events_fold(events_fold(m, ip, cfg, a).0, ip, cfg, b),
    decreases b.len(),
{
    if b.len() == 0 {
        assert(a + b =~= a);
    } else {
        lemma_events_append(m, ip, cfg, a, b.drop_last());
        assert((a + b).drop_last() =~= a + b.drop_last());
        assert((a + b).last() == b.last());
    }
}

/// A run of failed logins as events is the run itself.
proof fn lemma_events_failures(
    m: Map<Seq<char>, AttemptsView>,
    ip: Seq<char>,
    cfg: AnomalyConfig,
    times: Seq<i128>,
)
    ensures
        events_fold(m, ip, cfg, as_failures(times)) == failures_fold(m, ip, cfg, times),
    decreases times.len(),
{
    if times.len() > 0 {
        lemma_events_failures(m, ip, cfg, times.drop_last());
        assert(as_failures(times).drop_last() =~= as_failures(times.drop_last()));
    }
}

/// Whether every address but `ip` has the same record (or none) in `m2` as
/// in `m`.
pub open spec fn others_kept(m: Map<Seq<char>, AttemptsView>, m2: Map<Seq<char>, AttemptsView>, ip: Seq<char>) -> bool {
    forall|other: Seq<char>|
        other != ip ==> (#[trigger] m2.contains_key(other) == m.contains_key(other) && (m.contains_key(other)
            ==> m2[other] == m[other]))
}

/// Events at one address leave every other address's record as it was.
proof fn lemma_events_others(
    m: Map<Seq<char>, AttemptsView>,
    ip: Seq<char>,
    cfg: AnomalyConfig,
    evs: Seq<Option<i128>>,
)
    ensures
        others_kept(m, events_fold(m, ip, cfg, evs).0, ip),
    decreases evs.len(),
{
    if evs.len() > 0 {
        lemma_events_others(m, ip, cfg, evs.drop_last());
        let before = events_fold(m, ip, cfg, evs.drop_last()).0;
        let after = events_fold(m, ip, cfg, evs).0;
        assert forall|other: Seq<char>| other != ip implies (#[trigger] after.contains_key(other)
            == m.contains_key(other) && (m.contains_key(other) ==> after[other] == m[other])) by {
            assert(before.contains_key(other) == m.contains_key(other));
        }
    }
}

/// Brute-force detection over any history of an address: after its last
/// clear (or from no failures on record), a run of failed logins in order
/// keeps those inside the window that ends at the last one, from index `k`
/// (each earlier one lies before the window, each later one inside it), so
/// the last failure counts itself and the earlier ones inside its window.
/// It locks the address out, for the lockout duration from its instant,
/// exactly when that number reaches the maximum, and the lockout is then in
/// force at every instant before its end. No other address's record
/// changes.
pub proof fn lemma_brute_force_over_events(
    m: Map<Seq<char>, AttemptsView>,
    ip: Seq<char>,
    cfg: AnomalyConfig,
    pre: Seq<Option<i128>>,
    times: Seq<i128>,
) -> (k: int)
    requires
        (pre.len() == 0 && attempts_or_default(m, ip).0.len() == 0) || (pre.len() > 0 && pre.last() is None),
        times.len() > 0,
        in_order(times),
    ensures
        0 <= k < times.len(),
        forall|i: int|
            0 <= i < k ==> #[trigger] times[i] < shifted(
                times.last() as int,
                -cfg.failed_attempt_window_minutes as i64,
            ),
        forall|i: int|
            k <= i < times.len() - 1 ==> #[trigger] times[i] >= shifted(
                times.last() as int,
                -cfg.failed_attempt_window_minutes as i64,
            ),
        events_fold(m, ip, cfg, pre + as_failures(times)).0[ip].0 == times.subrange(k, times.len() as int),
        events_fold(m, ip, cfg, pre + as_failures(times)).1 == (if saturate((times.len() - k) as nat)
            >= cfg.max_failed_attempts {
            AnomalyView::BruteForceDetected(
                saturate((times.len() - k) as nat),
                instant_at(shifted(times.last() as int, cfg.lockout_duration_minutes)),
            )
        } else {
            AnomalyView::Normal
        }),
        events_fold(m, ip, cfg, pre + as_failures(times)).1 matches AnomalyView::BruteForceDetected(c, until)
            ==> forall|n: int|
            n < until.total() ==> #[trigger] lockout_spec(events_fold(m, ip, cfg, pre + as_failures(times)).0, ip, n)
                == Some(events_fold(m, ip, cfg, pre + as_failures(times)).1),
        others_kept(m, events_fold(m, ip, cfg, pre + as_failures(times)).0, ip),
{
    let m0 = events_fold(m, ip, cfg, pre).0;
    assert(attempts_or_default(m0, ip).0.len() == 0) by {
        if pre.len() > 0 {
            assert(m0 == clear_spec(events_fold(m, ip, cfg, pre.drop_last()).0, ip));
        }
    }
    lemma_events_append(m, ip, cfg, pre, as_failures(times));
    lemma_events_failures(m0, ip, cfg, times);
    lemma_events_others(m, ip, cfg, pre + as_failures(times));
    lemma_failures_in_order(m0, ip, cfg, times)
}


/// A successful login joins the end of the user's recent logins, which
/// then hold the most recent logins recorded, at most ten, oldest dropped
/// first: the new login last, and before it the latest earlier ones in
/// their order. Its address is known afterwards, and no other user's
/// history changes.
pub proof fn lemma_login_joins_recent(
    m: Map<Seq<char>, HistoryView>,
    user: Seq<char>,
    ip: Seq<char>,
    agent: Option<Seq<char>>,
    now: Instant,
)
    ensures
        login_spec(m, user, ip, agent, now).contains_key(user),
        login_spec(m, user, ip, agent, now)[user].0.len() == (if history_or_default(m, user).0.len() + 1 > 10 {
            10
        } else {
            history_or_default(m, user).0.len() + 1
        }),
        login_spec(m, user, ip, agent, now)[user].0.last() == (ip, subnet_text(ip), now, agent),
        forall|i: int|
            0 <= i < login_spec(m, user, ip, agent, now)[user].0.len() - 1 ==> #[trigger] login_spec(
                m,
                user,
                ip,
                agent,
                now,
            )[user].0[i] == history_or_default(m, user).0[history_or_default(m, user).0.len() - (login_spec(
                m,
                user,
                ip,
                agent,
                now,
            )[user].0.len() - 1) + i],
        login_spec(m, user, ip, agent, now)[user].1.contains(ip),
        forall|other: Seq<char>|
            other != user ==> (#[trigger] login_spec(m, user, ip, agent, now).contains_key(other)
                == m.contains_key(other) && (m.contains_key(other) ==> login_spec(m, user, ip, agent, now)[other]
                == m[other])),
{
    let h = history_or_default(m, user);
    let k = remember_ip(h.1, ip);
    assert(k.last() == ip);
    assert(k.contains(ip)) by {
        assert(k[k.len() - 1] == ip);
    }
}

/// A login check compares the login with the most recent successful login:
/// after a successful login of `user` from `ip1` at `t1`, whatever the
/// user's history before, a login from `ip2` at `n` is reported as
/// impossible travel exactly when the two subnets differ and `n` comes no
/// earlier than `t1` and fewer whole minutes after it than the suspicious
/// travel time; the report names the first login's subnet, the second's,
/// and the whole minutes between them.
pub proof fn lemma_travel_from_latest_login(
    m: Map<Seq<char>, HistoryView>,
    user: Seq<char>,
    ip1: Seq<char>,
    agent: Option<Seq<char>>,
    t1: Instant,
    ip2: Seq<char>,
    cfg: AnomalyConfig,
    n: int,
)
    ensures
        (anomaly_spec(login_spec(m, user, ip1, agent, t1), user, ip2, cfg, n).1 is ImpossibleTravel) <==> (
        subnet_text(ip1) != subnet_text(ip2) && 0 <= minutes_since(t1, n) < cfg.suspicious_travel_time_minutes),
        subnet_text(ip1) != subnet_text(ip2) && 0 <= minutes_since(t1, n) < cfg.suspicious_travel_time_minutes
            ==> anomaly_spec(login_spec(m, user, ip1, agent, t1), user, ip2, cfg, n).1
            == AnomalyView::ImpossibleTravel(subnet_text(ip1), subnet_text(ip2), minutes_since(t1, n) as i64),
        n >= t1.total() ==> minutes_since(t1, n) == (n - t1.total()) / 60_000_000_000,
        anomaly_spec(login_spec(m, user, ip1, agent, t1), user, ip1, cfg, n).1 == AnomalyView::Normal,
        !(subnet_text(ip1) != subnet_text(ip2) && 0 <= minutes_since(t1, n) < cfg.suspicious_travel_time_minutes)
            && ip2 != ip1 && !history_or_default(m, user).1.contains(ip1) && !history_or_default(m, user).1.contains(ip2)
            ==> anomaly_spec(login_spec(m, user, ip1, agent, t1), user, ip2, cfg, n).1
            == AnomalyView::UnusualLocation(ip1, ip2),
{
    lemma_login_joins_recent(m, user, ip1, agent, t1);
    let h = history_or_default(m, user);
    let k = remember_ip(h.1, ip1);
    assert(k.last() == ip1);
    if !h.1.contains(ip2) && ip2 != ip1 {
        assert(!k.contains(ip2)) by {
            if k.contains(ip2) {
                let i = choose|i: int| 0 <= i < k.len() && k[i] == ip2;
                if i < k.len() - 1 {
                    if h.1.len() >= 10 {
                        assert(k[i] == h.1[i + 1]);
                    } else {
                        assert(k[i] == h.1[i]);
                    }
                }
            }
        }
    }
}

} // verus!
