//! IP filters: addresses that are blacklisted or whitelisted.

use vstd::prelude::*;
use crate::text::{all_ascii, ascii_lower, lowered, owned, str_eq, to_lowercase};
use crate::time::{clock_now, expired_at, expired_spec, new_uuid, now_rfc3339, opt_view, Instant, uuid_v4_text, rfc3339_text};

verus! {

/// The names are ASCII and already lower-case.
proof fn lemma_names_lowered()
    ensures
        all_ascii("whitelist"@),
        ascii_lower("whitelist"@) == "whitelist"@,
        all_ascii("blacklist"@),
        ascii_lower("blacklist"@) == "blacklist"@,
        "whitelist"@ != "blacklist"@,
{
    reveal_strlit("whitelist");
    assert forall|i: int| 0 <= i < "whitelist"@.len() implies (#[trigger] "whitelist"@[i] as u32) < 128 by {
        if i == 0 {} else if i == 1 {} else if i == 2 {} else if i == 3 {} else if i == 4 {} else if i == 5 {} else if i == 6 {} else if i == 7 {} else if i == 8 {}
    }
    assert(ascii_lower("whitelist"@) =~= "whitelist"@);
    reveal_strlit("blacklist");
    assert forall|i: int| 0 <= i < "blacklist"@.len() implies (#[trigger] "blacklist"@[i] as u32) < 128 by {
        if i == 0 {} else if i == 1 {} else if i == 2 {} else if i == 3 {} else if i == 4 {} else if i == 5 {} else if i == 6 {} else if i == 7 {} else if i == 8 {}
    }
    assert(ascii_lower("blacklist"@) =~= "blacklist"@);
    assert("whitelist"@[0] != "blacklist"@[0] || "whitelist"@[1] != "blacklist"@[1] || "whitelist"@[2] != "blacklist"@[2]);
}

#[derive(Debug, Clone, Copy, PartialEq, Eq, Structural)]
pub enum FilterType {
    Whitelist,
    Blacklist,
}

/// A name as `as_str` writes it is read back as the same filter type.
pub proof fn lemma_filter_type_name_round_trip(t: FilterType)
    ensures
        FilterType::parse_spec(t.name_spec()) == Some(t),
{
    lemma_names_lowered();
}

impl FilterType {
    pub open spec fn name_spec(self) -> Seq<char> {
        match self {
            FilterType::Whitelist => "whitelist"@,
            FilterType::Blacklist => "blacklist"@,
        }
    }

    pub fn as_str(&self) -> (r: &'static str)
        ensures
            r@ == self.name_spec(),
            Self::parse_spec(r@) == Some(*self),
    {
        proof {
            lemma_names_lowered();
        }
        match self {
            FilterType::Whitelist => "whitelist",
            FilterType::Blacklist => "blacklist",
        }
    }

    /// The filter type that a name denotes, read without regard to case.
    pub open spec fn parse_spec(s: Seq<char>) -> Option<FilterType> {
        let l = lowered(s);
        if l == "whitelist"@ {
            Some(FilterType::Whitelist)
        } else if l == "blacklist"@ {
            Some(FilterType::Blacklist)
        } else {
            None
        }
    }

    /// Reads a filter type name (case does not matter); the error says
    /// which name was unknown.
    pub fn parse_name(s: &str) -> (r: Result<FilterType, String>)
        ensures
            r matches Ok(t) ==> Self::parse_spec(s@) == Some(t),
            r matches Err(e) ==> Self::parse_spec(s@) is None && e@ == "Unknown filter type: "@
                + s@,
    {
        let l = to_lowercase(s);
        if str_eq(l.as_str(), "whitelist") {
            Ok(FilterType::Whitelist)
        } else if str_eq(l.as_str(), "blacklist") {
            Ok(FilterType::Blacklist)
        } else {
            let mut e = owned("Unknown filter type: ");
            e.append(s);
            Err(e)
        }
    }
}

impl std::str::FromStr for FilterType {
    type Err = String;

    fn from_str(s: &str) -> (r: Result<Self, Self::Err>)
        ensures
            r matches Ok(t) ==> Self::parse_spec(s@) == Some(t),
            r matches Err(e) ==> Self::parse_spec(s@) is None && e@ == "Unknown filter type: "@ + s@,
    {
        Self::parse_name(s)
    }
}

#[derive(Debug, Clone)]
pub struct IpFilter {
    pub id: String,
    pub ip_address: String,
    pub filter_type: String,
    pub reason: Option<String>,
    pub is_active: bool,
    pub expires_at: Option<String>,
    pub created_at: String,
    pub updated_at: String,
}

impl IpFilter {
    /// A new active filter with a fresh id and no expiry; its creation and
    /// update times are the same reading of the clock.
    pub fn new(ip_address: String, filter_type: FilterType, reason: Option<String>) -> (r: Self)
        ensures
            r.id@.len() == 36,
            uuid_v4_text(r.id@),
            exists|t: Instant| t.wf() && r.created_at@ == #[trigger] rfc3339_text(t.secs, t.nanos),
            r.ip_address == ip_address,
            r.filter_type@ == filter_type.name_spec(),
            r.reason == reason,
            r.is_active,
            r.expires_at is None,
            r.created_at@ == r.updated_at@,
    {
        let now = now_rfc3339();
        IpFilter {
            id: new_uuid(),
            ip_address,
            filter_type: owned(filter_type.as_str()),
            reason,
            is_active: true,
            expires_at: None,
            created_at: now.clone(),
            updated_at: now,
        }
    }

    pub fn with_expiration(self, expires_at: String) -> (r: Self)
        ensures
            r == (IpFilter { expires_at: Some(expires_at), ..self }),
    {
        let mut s = self;
        s.expires_at = Some(expires_at);
        s
    }

    /// Whether the filter's expiry lies before `now` (a filter without a
    /// readable expiry never expires).
    pub fn is_expired_at(&self, now: Instant) -> (r: bool)
        ensures
            r == expired_spec(opt_view(self.expires_at), now),
    {
        expired_at(&self.expires_at, now)
    }

    /// Whether the filter's expiry has passed, by the clock.
    pub fn is_expired(&self) -> (r: bool)
        ensures
            self.expires_at is None ==> !r,
            exists|t: Instant| t.wf() && r == expired_spec(opt_view(self.expires_at), t),
    {
        let now = clock_now();
        self.is_expired_at(now)
    }

    pub fn get_filter_type(&self) -> (r: Option<FilterType>)
        ensures
            r == FilterType::parse_spec(self.filter_type@),
    {
        match FilterType::parse_name(self.filter_type.as_str()) {
            Ok(t) => Some(t),
            Err(_) => None,
        }
    }
}

} // verus!
