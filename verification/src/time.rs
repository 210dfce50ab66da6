//! Points in time, the clock, RFC 3339 timestamps and random identifiers.

use vstd::prelude::*;

verus! {

/// The largest Unix timestamp (in seconds) that a date of the proleptic
/// Gregorian calendar up to year 262142 reaches.
pub const MAX_TIMESTAMP: i64 = 8210266876799;

pub const NANOS_PER_SEC: i128 = 1_000_000_000;

pub const NANOS_PER_MINUTE: i128 = 60_000_000_000;

/// A point in time: whole seconds since 1970-01-01T00:00:00Z and the
/// nanoseconds past that second.
#[derive(Clone, Copy, Debug, PartialEq, Eq)]
pub struct Instant {
    pub secs: i64,
    pub nanos: u32,
}

impl Instant {
    /// A reading of the system clock: not before the epoch, within the
    /// calendar's range, and not inside a leap second.
    pub open spec fn wf(self) -> bool {
        0 <= self.secs <= MAX_TIMESTAMP && self.nanos < 1_000_000_000
    }

    /// Nanoseconds since the epoch.
    pub open spec fn total(self) -> int {
        self.secs * 1_000_000_000 + self.nanos
    }

    /// Chronological order, comparing seconds first and then nanoseconds.
    pub open spec fn before(self, other: Instant) -> bool {
        self.secs < other.secs || (self.secs == other.secs && self.nanos < other.nanos)
    }

    pub fn to_nanos(&self) -> (r: i128)
        ensures
            r == self.total(),
    {
        assert(-9223372036854775808 * 1_000_000_000 <= self.secs * 1_000_000_000
            <= 9223372036854775807 * 1_000_000_000) by (nonlinear_arith)
            requires
                -9223372036854775808 <= self.secs <= 9223372036854775807,
        ;
        (self.secs as i128) * NANOS_PER_SEC + (self.nanos as i128)
    }

    pub fn is_before(&self, other: &Instant) -> (r: bool)
        ensures
            r == self.before(*other),
    {
        self.secs < other.secs || (self.secs == other.secs && self.nanos < other.nanos)
    }

    /// The instant `nanos` nanoseconds after the epoch, for a count of
    /// nanoseconds that a clock reading can reach.
    pub fn from_nanos(nanos: i128) -> (r: Instant)
        requires
            0 <= nanos < (MAX_TIMESTAMP + 1) * 1_000_000_000,
        ensures
            r.total() == nanos,
            r.nanos < 1_000_000_000,
            0 <= r.secs <= MAX_TIMESTAMP,
    {
        let s = nanos / NANOS_PER_SEC;
        let n = nanos % NANOS_PER_SEC;
        assert(s * 1_000_000_000 + n == nanos) by (nonlinear_arith)
            requires
                s == nanos / 1_000_000_000,
                n == nanos % 1_000_000_000,
                nanos >= 0,
        ;
        assert(s <= MAX_TIMESTAMP) by (nonlinear_arith)
            requires
                s == nanos / 1_000_000_000,
                0 <= nanos < (MAX_TIMESTAMP + 1) * 1_000_000_000,
        ;
        Instant { secs: s as i64, nanos: n as u32 }
    }
}

/// The first instant of chrono's calendar (January 1 of year -262143), in
/// nanoseconds since the epoch.
pub const CALENDAR_START: i128 = -8_334_601_315_200_000_000_000;

/// The last instant of chrono's calendar (the end of December 31 of year
/// 262142), in nanoseconds since the epoch.
pub const CALENDAR_END: i128 = 8_210_266_876_799_999_999_999;

/// A count of nanoseconds since the epoch that chrono can represent as a
/// `DateTime<Utc>`.
pub open spec fn in_calendar(n: int) -> bool {
    CALENDAR_START <= n <= CALENDAR_END
}

/// The instant `n` nanoseconds after the epoch, split into whole seconds
/// (rounded down) and the nanoseconds past them.
pub open spec fn instant_at(n: int) -> Instant {
    Instant { secs: (n / 1_000_000_000) as i64, nanos: (n % 1_000_000_000) as u32 }
}

/// The instant `n` nanoseconds after the epoch, for a count within chrono's
/// calendar.
pub fn instant_from_nanos(n: i128) -> (r: Instant)
    requires
        in_calendar(n as int),
    ensures
        r == instant_at(n as int),
        r.total() == n,
        r.nanos < 1_000_000_000,
{
    let (s, f): (i128, i128) = if n >= 0 {
        (n / NANOS_PER_SEC, n % NANOS_PER_SEC)
    } else {
        let p: i128 = -n;
        let q: i128 = p / NANOS_PER_SEC;
        let rem: i128 = p % NANOS_PER_SEC;
        if rem == 0 {
            (-q, 0)
        } else {
            (-q - 1, NANOS_PER_SEC - rem)
        }
    };
    assert(n == s * 1_000_000_000 + f && 0 <= f < 1_000_000_000) by (nonlinear_arith)
        requires
            n >= 0 ==> s == n / 1_000_000_000 && f == n % 1_000_000_000,
            n < 0 ==> ({
                let q = (-n) / 1_000_000_000;
                let rem = (-n) % 1_000_000_000;
                (rem == 0 ==> s == -q && f == 0) && (rem != 0 ==> s == -q - 1 && f
                    == 1_000_000_000 - rem)
            }),
    ;
    proof {
        vstd::arithmetic::div_mod::lemma_fundamental_div_mod_converse(
            n as int,
            1_000_000_000,
            s as int,
            f as int,
        );
    }
    assert(-9_223_372_036_854_775_808 <= s <= 9_223_372_036_854_775_807) by (nonlinear_arith)
        requires
            n == s * 1_000_000_000 + f,
            0 <= f < 1_000_000_000,
            CALENDAR_START <= n <= CALENDAR_END,
    ;
    Instant { secs: s as i64, nanos: f as u32 }
}

/// Nanoseconds since the epoch stay within about 9.3 * 10^27 either way.
pub proof fn lemma_total_bounds(t: Instant)
    ensures
        -9_300_000_000_000_000_000_000_000_000 <= t.total() <= 9_300_000_000_000_000_000_000_000_000,
{
    assert(-9_223_372_036_854_775_808 * 1_000_000_000 <= t.secs * 1_000_000_000
        <= 9_223_372_036_854_775_807 * 1_000_000_000) by (nonlinear_arith)
        requires
            -9_223_372_036_854_775_808 <= t.secs <= 9_223_372_036_854_775_807,
    ;
}

/// The current time (chrono's `Utc::now`). The reading is at or after the
/// epoch (chrono panics otherwise), within chrono's calendar range (it
/// panics otherwise) and carries fewer than 10^9 nanoseconds (they come
/// from `Duration::subsec_nanos`). Nothing else is stated: it is the clock.
#[verifier::external_body]
pub(crate) fn clock_now() -> (r: Instant)
    ensures
        r.wf(),
{
    let t = chrono::Utc::now();
    Instant { secs: t.timestamp(), nanos: t.timestamp_subsec_nanos() }
}

/// What chrono's `DateTime::parse_from_rfc3339` reads from a text: the
/// instant as (Unix seconds, nanoseconds), or `None` when it refuses it.
pub uninterp spec fn rfc3339_instant(s: Seq<char>) -> Option<(i64, u32)>;

/// chrono's `DateTime::parse_from_rfc3339`, taken to the instant it
/// denotes (`timestamp`, `timestamp_subsec_nanos`). Its result is named,
/// not described.
#[verifier::external_body]
pub(crate) fn parse_rfc3339(s: &str) -> (r: Option<Instant>)
    ensures
        r matches Some(t) ==> rfc3339_instant(s@) == Some((t.secs, t.nanos)),
        r is None ==> rfc3339_instant(s@) is None,
{
    match chrono::DateTime::parse_from_rfc3339(s) {
        Ok(d) => Some(Instant { secs: d.timestamp(), nanos: d.timestamp_subsec_nanos() }),
        Err(_) => None,
    }
}

/// Whether an optional RFC 3339 expiry lies before `now`; an absent or
/// unreadable expiry never expires.
pub open spec fn expired_spec(expires_at: Option<Seq<char>>, now: Instant) -> bool {
    match expires_at {
        Some(e) => match rfc3339_instant(e) {
            Some((secs, nanos)) => Instant { secs, nanos }.before(now),
            None => false,
        },
        None => false,
    }
}

pub open spec fn opt_view(o: Option<String>) -> Option<Seq<char>> {
    match o {
        Some(s) => Some(s@),
        None => None,
    }
}

pub fn expired_at(expires_at: &Option<String>, now: Instant) -> (r: bool)
    ensures
        r == expired_spec(opt_view(*expires_at), now),
{
    match expires_at {
        Some(e) => match parse_rfc3339(e.as_str()) {
            Some(exp) => exp.is_before(&now),
            None => false,
        },
        None => false,
    }
}

/// The RFC 3339 text that chrono gives an instant of its calendar
/// (`DateTime::<Utc>::from_timestamp`, then `to_rfc3339`).
pub uninterp spec fn rfc3339_text(secs: i64, nanos: u32) -> Seq<char>;

/// The first and last second of the years 0 to 9999, which RFC 3339 can
/// write.
pub open spec fn four_digit_year(secs: i64) -> bool {
    -62_167_219_200 <= secs <= 253_402_300_799
}

/// The RFC 3339 text of an instant (chrono's `to_rfc3339` of the
/// `DateTime<Utc>` made by `from_timestamp`). The text is named; stated
/// besides is that, for the years 0 to 9999 (which chrono writes with four
/// digits, the seconds' fraction in full and the offset `+00:00`),
/// `parse_from_rfc3339` reads it back as the same instant. chrono refuses
/// (and this would panic on) instants outside its calendar and nanoseconds
/// of a second or more.
#[verifier::external_body]
pub(crate) fn instant_rfc3339(t: Instant) -> (r: String)
    requires
        in_calendar(t.total()),
        t.nanos < 1_000_000_000,
    ensures
        r@ == rfc3339_text(t.secs, t.nanos),
        four_digit_year(t.secs) ==> rfc3339_instant(r@) == Some((t.secs, t.nanos)),
{
    chrono::DateTime::<chrono::Utc>::from_timestamp(t.secs, t.nanos).expect(
        "instant within the calendar",
    ).to_rfc3339()
}

/// The current time as an RFC 3339 text: the text chrono gives a reading
/// of the clock.
pub(crate) fn now_rfc3339() -> (r: String)
    ensures
        exists|t: Instant| t.wf() && r@ == #[trigger] rfc3339_text(t.secs, t.nanos),
{
    let t = clock_now();
    proof {
        lemma_total_bounds(t);
    }
    instant_rfc3339(t)
}

/// A lower-case hexadecimal digit.
pub open spec fn lower_hex_digit(c: char) -> bool {
    ('0' <= c && c <= '9') || ('a' <= c && c <= 'f')
}

/// The hyphenated text of a version 4 UUID: 36 characters, hyphens at 8,
/// 13, 18 and 23, lower-case hexadecimal digits elsewhere, the version
/// digit `4` at 14 and the variant digit (`8`, `9`, `a` or `b`) at 19.
pub open spec fn uuid_v4_text(s: Seq<char>) -> bool {
    &&& s.len() == 36
    &&& forall|i: int|
        0 <= i < 36 ==> if i == 8 || i == 13 || i == 18 || i == 23 {
            #[trigger] s[i] == '-'
        } else {
            lower_hex_digit(s[i])
        }
    &&& s[14] == '4'
    &&& (s[19] == '8' || s[19] == '9' || s[19] == 'a' || s[19] == 'b')
}

/// A random (version 4) UUID in its hyphenated text form (uuid's
/// `Uuid::new_v4().to_string()`): the version and RFC 4122 variant bits
/// are set, the rest is chance, and it is written in lower case.
#[verifier::external_body]
pub(crate) fn new_uuid() -> (r: String)
    ensures
        r@.len() == 36,
        uuid_v4_text(r@),
{
    uuid::Uuid::new_v4().to_string()
}

} // verus!
