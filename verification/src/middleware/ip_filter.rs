//! The client address of a request.

use vstd::prelude::*;
use crate::error::{reply_is, ErrorReply};
use crate::text::{chars_of, owned, split_chars, split_spec, string_of, trim_chars, trim_spec};

verus! {

/// The client address that a middleware found for a request.
#[derive(Clone, Debug)]
pub struct ClientIp(pub String);

impl ClientIp {
    pub fn as_str(&self) -> (r: &str)
        ensures
            r@ == self.0@,
    {
        self.0.as_str()
    }
}

/// The client's address: the first entry of `X-Forwarded-For` (trimmed),
/// else `X-Real-IP`, else the address of the peer.
pub open spec fn client_ip_spec(
    forwarded_for: Option<Seq<char>>,
    real_ip: Option<Seq<char>>,
    peer: Seq<char>,
) -> Seq<char> {
    match forwarded_for {
        Some(f) => trim_spec(split_spec(f, ',')[0]),
        None => match real_ip {
            Some(r) => r,
            None => peer,
        },
    }
}

pub open spec fn opt_str_view(o: Option<&str>) -> Option<Seq<char>> {
    match o {
        Some(s) => Some(s@),
        None => None,
    }
}

/// The client's address from the values of the `X-Forwarded-For` and
/// `X-Real-IP` headers (those present and readable) and the peer address.
pub fn client_ip_from(forwarded_for: Option<&str>, real_ip: Option<&str>, peer: &str) -> (r: String)
    ensures
        r@ == client_ip_spec(opt_str_view(forwarded_for), opt_str_view(real_ip), peer@),
{
    match forwarded_for {
        Some(f) => {
            let cs = chars_of(f);
            let parts = split_chars(cs.as_slice(), ',');
            proof {
                crate::net::lemma_split_from_nonempty(cs@, ',', seq![]);
            }
            assert(parts@[0]@ == split_spec(f@, ',')[0]);
            let t = trim_chars(parts[0].as_slice());
            string_of(t.as_slice())
        },
        None => match real_ip {
            Some(r) => owned(r),
            None => owned(peer),
        },
    }
}

/// The answer to a request from a blacklisted address; a lookup that
/// failed (`None`) lets the request through.
pub fn blacklist_reply(blacklisted: Option<bool>) -> (r: Option<ErrorReply>)
    ensures
        blacklisted == Some(true) ==> (r matches Some(e) && reply_is(
            e,
            403,
            "Forbidden"@,
            "Your IP address has been blocked"@,
        )),
        blacklisted != Some(true) ==> r is None,
{
    match blacklisted {
        Some(true) => Some(ErrorReply::new(403, "Forbidden", "Your IP address has been blocked")),
        _ => None,
    }
}

/// The answer to an administration request from an address outside the
/// whitelist.
pub fn admin_denied_reply() -> (r: ErrorReply)
    ensures
        reply_is(r, 403, "Forbidden"@, "Access denied"@),
{
    ErrorReply::new(403, "Forbidden", "Access denied")
}

} // verus!
