//! Which origins the cross-origin answers name.

use vstd::prelude::*;
use crate::text::{chars_of, contains_chars, contains_spec, owned, split_chars, split_spec, str_eq, string_of, string_views, trim_chars, trim_spec, views};

verus! {

/// Whether a text is a valid HTTP header value: every character a tab or
/// at least a space, but not DEL (characters beyond ASCII are encoded in
/// bytes that are all accepted).
pub open spec fn header_text_ok(s: Seq<char>) -> bool {
    forall|i: int| 0 <= i < s.len() ==> (#[trigger] s[i] == '\t' || (' ' <= s[i] && s[i] != '\x7f'))
}

/// Whether a text parses as a header value (http's
/// `HeaderValue::from_str`, through axum), which accepts exactly the
/// texts whose bytes are all tabs or at least 32 and not 127.
#[verifier::external_body]
fn is_header_value(s: &str) -> (r: bool)
    ensures
        r == header_text_ok(s@),
{
    axum::http::HeaderValue::from_str(s).is_ok()
}

/// The origins a CORS layer admits: any, or a list.
#[derive(Debug, Clone)]
pub enum CorsOrigins {
    Any,
    List(Vec<String>),
}

/// The configured origins: the comma-separated items, trimmed, that are
/// valid header values (others are dropped).
pub open spec fn configured_origins(text: Seq<char>) -> Seq<Seq<char>> {
    split_spec(text, ',').map_values(|t: Seq<char>| trim_spec(t)).filter(
        |t: Seq<char>| header_text_ok(t),
    )
}

fn valid_origins(text: &str) -> (r: Vec<String>)
    ensures
        string_views(r@) == configured_origins(text@),
{
    let cs = chars_of(text);
    let parts = split_chars(cs.as_slice(), ',');
    let ghost trimmed = views(parts@).map_values(|t: Seq<char>| trim_spec(t));
    let n = parts.len();
    let mut r: Vec<String> = Vec::new();
    let mut i: usize = 0;
    assert(trimmed.take(0).filter(|t: Seq<char>| header_text_ok(t)) =~= Seq::<Seq<char>>::empty()) by {
        reveal(Seq::filter);
    }
    assert(string_views(r@) =~= Seq::<Seq<char>>::empty());
    while i < n
        invariant
            n == parts@.len(),
            views(parts@) == split_spec(text@, ','),
            trimmed == views(parts@).map_values(|t: Seq<char>| trim_spec(t)),
            i <= n,
            string_views(r@) == trimmed.take(i as int).filter(|t: Seq<char>| header_text_ok(t)),
        decreases n - i,
    {
        let t = string_of(trim_chars(parts[i].as_slice()).as_slice());
        assert(views(parts@)[i as int] == parts@[i as int]@);
        assert(t@ == trimmed[i as int]);
        let ghost before = r@;
        assert(trimmed.take(i + 1) =~= trimmed.take(i as int).push(trimmed[i as int]));
        proof {
            trimmed.take(i as int).lemma_filter_push(trimmed[i as int], |t: Seq<char>| header_text_ok(t));
        }
        if is_header_value(t.as_str()) {
            r.push(t);
            assert(string_views(r@) =~= string_views(before).push(trimmed[i as int]));
        } else {
            assert(string_views(r@) =~= string_views(before));
        }
        i = i + 1;
    }
    assert(trimmed.take(n as int) =~= trimmed);
    r
}

/// Any origin when the configuration names `*` or no valid origin, else
/// the valid ones.
pub fn cors_origins(text: &str) -> (r: CorsOrigins)
    ensures
        (configured_origins(text@).len() == 0 || contains_spec(text@, "*"@)) ==> r is Any,
        !(configured_origins(text@).len() == 0 || contains_spec(text@, "*"@)) ==> (r matches CorsOrigins::List(
            l,
        ) && string_views(l@) == configured_origins(text@)),
{
    let origins = valid_origins(text);
    let cs = chars_of(text);
    let star = chars_of("*");
    if origins.len() == 0 || contains_chars(cs.as_slice(), star.as_slice()) {
        CorsOrigins::Any
    } else {
        CorsOrigins::List(origins)
    }
}

/// Whether an allowed-origin entry admits the origin.
pub open spec fn origin_admitted(allowed: Seq<Seq<char>>, origin: Seq<char>) -> bool {
    exists|i: int| 0 <= i < allowed.len() && (#[trigger] allowed[i] == "*"@ || allowed[i] == origin)
}

/// The origin to name in the answer: the request's origin, when the key's
/// origins admit it and it is a valid header value.
pub fn cors_echo(origin: Option<&str>, allowed: Option<&Vec<String>>) -> (r: Option<String>)
    ensures
        r matches Some(o) ==> (origin matches Some(x) && o@ == x@),
        r is Some <==> (origin matches Some(x) && allowed matches Some(a) && origin_admitted(
            string_views(a@),
            x@,
        ) && header_text_ok(x@)),
{
    match (origin, allowed) {
        (Some(o), Some(a)) => {
            let n = a.len();
            let mut i: usize = 0;
            let mut admitted = false;
            while i < n
                invariant
                    n == a@.len(),
                    i <= n,
                    admitted == exists|j: int|
                        0 <= j < i && (#[trigger] string_views(a@)[j] == "*"@ || string_views(a@)[j]
                            == o@),
                decreases n - i,
            {
                assert(string_views(a@)[i as int] == a@[i as int]@);
                if str_eq(a[i].as_str(), "*") || str_eq(a[i].as_str(), o) {
                    admitted = true;
                }
                i = i + 1;
            }
            if admitted && is_header_value(o) {
                Some(owned(o))
            } else {
                None
            }
        },
        _ => None,
    }
}

} // verus!
