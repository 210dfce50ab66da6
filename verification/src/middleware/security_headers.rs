//! The security headers that every answer carries.

use vstd::prelude::*;

verus! {

/// The header names and values set on every answer: no MIME sniffing, no
/// framing, a strict referrer policy, no browser features, legacy XSS
/// protection, no caching, and a content security policy that allows
/// nothing.
pub open spec fn security_headers_spec() -> Seq<(Seq<char>, Seq<char>)> {
    seq![
        ("X-Content-Type-Options"@, "nosniff"@),
        ("X-Frame-Options"@, "DENY"@),
        ("referrer-policy"@, "strict-origin-when-cross-origin"@),
        ("permissions-policy"@, "geolocation=(), camera=(), microphone=(), payment=()"@),
        ("x-xss-protection"@, "1; mode=block"@),
        ("cache-control"@, "no-store, no-cache, must-revalidate, private"@),
        ("pragma"@, "no-cache"@),
        ("Content-Security-Policy"@,
            "default-src 'none'; frame-ancestors 'none'; base-uri 'none'; form-action 'none'"@),
    ]
}

pub fn security_headers() -> (r: Vec<(&'static str, &'static str)>)
    ensures
        r@.map_values(|p: (&'static str, &'static str)| (p.0@, p.1@)) == security_headers_spec(),
{
    let mut v: Vec<(&'static str, &'static str)> = Vec::new();
    v.push(("X-Content-Type-Options", "nosniff"));
    v.push(("X-Frame-Options", "DENY"));
    v.push(("referrer-policy", "strict-origin-when-cross-origin"));
    v.push(("permissions-policy", "geolocation=(), camera=(), microphone=(), payment=()"));
    v.push(("x-xss-protection", "1; mode=block"));
    v.push(("cache-control", "no-store, no-cache, must-revalidate, private"));
    v.push(("pragma", "no-cache"));
    v.push(
        (
            "Content-Security-Policy",
            "default-src 'none'; frame-ancestors 'none'; base-uri 'none'; form-action 'none'",
        ),
    );
    assert(v@.map_values(|p: (&'static str, &'static str)| (p.0@, p.1@)) =~= security_headers_spec());
    v
}

} // verus!
