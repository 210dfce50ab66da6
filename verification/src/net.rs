//! Textual IP addresses: the IPv4 and IPv6 forms that Rust's `IpAddr`
//! parser accepts, and the subnet strings (`/24`, `/48`) written from them.

use vstd::prelude::*;
use crate::numfmt::{
    all_dec, all_hex, dec_spec, dec_val, dec_val_of, dec_value, hex_spec, hex_val, hex_val_of,
    hex_value, lemma_dec_value_prefix_le, lemma_pow16_small, pow16, push_dec, push_hex,
};
use crate::text::{chars_of, push_char, split_chars, split_from, split_spec, views};

verus! {

/// A decimal octet of an IPv4 address: one to three digits, no leading
/// zero (except `"0"` itself), at most 255.
pub open spec fn octet_spec(t: Seq<char>) -> Option<u8> {
    if t.len() >= 1 && all_dec(t) && (t.len() == 1 || t[0] != '0') && dec_value(t) < 256 {
        Some(dec_value(t) as u8)
    } else {
        None
    }
}

/// A dotted-quad IPv4 address: exactly four octets separated by `'.'`.
pub open spec fn v4_spec(s: Seq<char>) -> Option<Seq<u8>> {
    let toks = split_spec(s, '.');
    if toks.len() == 4 && octet_spec(toks[0]) is Some && octet_spec(toks[1]) is Some
        && octet_spec(toks[2]) is Some && octet_spec(toks[3]) is Some {
        Some(
            seq![
                octet_spec(toks[0]).unwrap(),
                octet_spec(toks[1]).unwrap(),
                octet_spec(toks[2]).unwrap(),
                octet_spec(toks[3]).unwrap(),
            ],
        )
    } else {
        None
    }
}

/// One IPv6 group: one to four hexadecimal digits of either case.
pub open spec fn hex_group_spec(t: Seq<char>) -> Option<u16> {
    if 1 <= t.len() <= 4 && all_hex(t) {
        Some(hex_value(t) as u16)
    } else {
        None
    }
}

/// The groups of a list of tokens that are all IPv6 groups.
pub open spec fn hex_tokens_spec(toks: Seq<Seq<char>>) -> Option<Seq<u16>>
    decreases toks.len(),
{
    if toks.len() == 0 {
        Some(seq![])
    } else {
        match hex_tokens_spec(toks.drop_last()) {
            Some(g) => match hex_group_spec(toks.last()) {
                Some(x) => Some(g.push(x)),
                None => None,
            },
            None => None,
        }
    }
}

/// The two groups that an embedded IPv4 address stands for.
pub open spec fn v4_groups(o: Seq<u8>) -> Seq<u16> {
    seq![(o[0] * 256 + o[1]) as u16, (o[2] * 256 + o[3]) as u16]
}

/// A `':'`-separated list of at most `limit` groups, whose last element may
/// be an embedded IPv4 address (two groups) when two slots are left for
/// it; the empty text is the empty list.
pub open spec fn group_list_spec(text: Seq<char>, limit: nat) -> Option<Seq<u16>> {
    if text.len() == 0 {
        Some(seq![])
    } else {
        let toks = split_spec(text, ':');
        match hex_tokens_spec(toks.drop_last()) {
            None => None,
            Some(g) => match hex_group_spec(toks.last()) {
                Some(x) => if g.len() + 1 <= limit {
                    Some(g.push(x))
                } else {
                    None
                },
                None => match v4_spec(toks.last()) {
                    Some(o) => if g.len() + 2 <= limit {
                        Some(g + v4_groups(o))
                    } else {
                        None
                    },
                    None => None,
                },
            },
        }
    }
}

/// The first position at or after `i` where `"::"` starts.
pub open spec fn dcolon_from(s: Seq<char>, i: int) -> Option<int>
    decreases s.len() - i,
{
    if i < 0 || i + 1 >= s.len() {
        None
    } else if s[i] == ':' && s[i + 1] == ':' {
        Some(i)
    } else {
        dcolon_from(s, i + 1)
    }
}

pub open spec fn zeros(n: nat) -> Seq<u16> {
    Seq::new(n, |i: int| 0u16)
}

/// An IPv6 address: either eight groups, or a head of at most seven plain
/// groups, `"::"` standing for one or more zero groups, and a tail.
pub open spec fn v6_spec(s: Seq<char>) -> Option<Seq<u16>> {
    match dcolon_from(s, 0) {
        None => match group_list_spec(s, 8) {
            Some(g) => if g.len() == 8 {
                Some(g)
            } else {
                None
            },
            None => None,
        },
        Some(i) => {
            let head = s.take(i);
            let tail = s.skip(i + 2);
            let hg = if head.len() == 0 {
                Some(seq![])
            } else {
                hex_tokens_spec(split_spec(head, ':'))
            };
            match hg {
                None => None,
                Some(h) => if h.len() <= 7 {
                    match group_list_spec(tail, (7 - h.len()) as nat) {
                        Some(t) => Some(h + zeros((8 - h.len() - t.len()) as nat) + t),
                        None => None,
                    }
                } else {
                    None
                },
            }
        },
    }
}

/// The subnet text of an address: `a.b.c.0/24` for IPv4 (decimal octets),
/// `x:y:z::/48` for IPv6 (lower-case hexadecimal groups).
pub open spec fn subnet_spec(s: Seq<char>) -> Option<Seq<char>> {
    match v4_spec(s) {
        Some(o) => Some(
            dec_spec(o[0] as nat) + seq!['.'] + dec_spec(o[1] as nat) + seq!['.'] + dec_spec(
                o[2] as nat,
            ) + seq!['.', '0', '/', '2', '4'],
        ),
        None => match v6_spec(s) {
            Some(g) => Some(
                hex_spec(g[0] as nat) + seq![':'] + hex_spec(g[1] as nat) + seq![':'] + hex_spec(
                    g[2] as nat,
                ) + seq![':', ':', '/', '4', '8'],
            ),
            None => None,
        },
    }
}

pub proof fn lemma_split_from_nonempty(s: Seq<char>, sep: char, cur: Seq<char>)
    ensures
        split_from(s, sep, cur).len() >= 1,
    decreases s.len(),
{
    if s.len() > 0 {
        if s[0] == sep {
            lemma_split_from_nonempty(s.drop_first(), sep, seq![]);
        } else {
            lemma_split_from_nonempty(s.drop_first(), sep, cur.push(s[0]));
        }
    }
}

pub fn parse_octet(t: &[char]) -> (r: Option<u8>)
    ensures
        r == octet_spec(t@),
{
    let n = t.len();
    if n == 0 {
        return None;
    }
    if n > 1 && t[0] == '0' {
        return None;
    }
    let mut acc: u64 = 0;
    let mut i: usize = 0;
    assert(t@.take(0) =~= seq![]);
    while i < n
        invariant
            n == t@.len(),
            i <= n,
            acc == dec_value(t@.take(i as int)),
            acc <= 255,
            forall|j: int| 0 <= j < i ==> dec_val(#[trigger] t@[j]) is Some,
        decreases n - i,
    {
        let d = dec_val_of(t[i]);
        match d {
            None => {
                assert(!all_dec(t@));
                return None;
            },
            Some(v) => {
                assert(t@.take(i + 1).drop_last() =~= t@.take(i as int));
                acc = acc * 10 + v;
                i = i + 1;
                if acc > 255 {
                    proof {
                        if all_dec(t@) {
                            lemma_dec_value_prefix_le(t@, i as int);
                        }
                    }
                    return None;
                }
            },
        }
    }
    assert(t@.take(n as int) =~= t@);
    Some(acc as u8)
}

/// The four octets of a dotted-quad IPv4 address.
pub fn parse_ipv4(s: &[char]) -> (r: Option<Vec<u8>>)
    ensures
        r matches Some(v) ==> v4_spec(s@) == Some(v@),
        r is None ==> v4_spec(s@) is None,
{
    let toks = split_chars(s, '.');
    if toks.len() != 4 {
        return None;
    }
    assert(toks[0]@ == split_spec(s@, '.')[0]);
    assert(toks[1]@ == split_spec(s@, '.')[1]);
    assert(toks[2]@ == split_spec(s@, '.')[2]);
    assert(toks[3]@ == split_spec(s@, '.')[3]);
    let a = parse_octet(toks[0].as_slice());
    let b = parse_octet(toks[1].as_slice());
    let c = parse_octet(toks[2].as_slice());
    let d = parse_octet(toks[3].as_slice());
    match (a, b, c, d) {
        (Some(a), Some(b), Some(c), Some(d)) => {
            let mut v: Vec<u8> = Vec::new();
            v.push(a);
            v.push(b);
            v.push(c);
            v.push(d);
            assert(v@ =~= v4_spec(s@).unwrap());
            Some(v)
        },
        _ => None,
    }
}

pub fn parse_hex_group(t: &[char]) -> (r: Option<u16>)
    ensures
        r == hex_group_spec(t@),
{
    let n = t.len();
    if n == 0 || n > 4 {
        return None;
    }
    let mut acc: u64 = 0;
    let mut i: usize = 0;
    assert(t@.take(0) =~= seq![]);
    while i < n
        invariant
            n == t@.len(),
            1 <= n <= 4,
            i <= n,
            acc == hex_value(t@.take(i as int)),
            acc < pow16(i as nat),
            forall|j: int| 0 <= j < i ==> hex_val(#[trigger] t@[j]) is Some,
        decreases n - i,
    {
        let d = hex_val_of(t[i]);
        match d {
            None => {
                assert(!all_hex(t@));
                return None;
            },
            Some(v) => {
                assert(t@.take(i + 1).drop_last() =~= t@.take(i as int));
                assert(pow16((i + 1) as nat) == 16 * pow16(i as nat));
                proof {
                    lemma_pow16_small();
                }
                acc = acc * 16 + v;
                i = i + 1;
            },
        }
    }
    assert(t@.take(n as int) =~= t@);
    proof {
        lemma_pow16_small();
    }
    Some(acc as u16)
}

/// The groups of a list of tokens that must all be IPv6 groups.
pub fn parse_hex_tokens(toks: &[Vec<char>]) -> (r: Option<Vec<u16>>)
    ensures
        r matches Some(v) ==> hex_tokens_spec(views(toks@)) == Some(v@),
        r is None ==> hex_tokens_spec(views(toks@)) is None,
{
    let n = toks.len();
    let mut acc: Vec<u16> = Vec::new();
    let mut i: usize = 0;
    assert(views(toks@).take(0) =~= seq![]);
    while i < n
        invariant
            n == toks@.len(),
            i <= n,
            hex_tokens_spec(views(toks@).take(i as int)) == Some(acc@),
        decreases n - i,
    {
        let ghost pre = views(toks@).take(i as int);
        let ghost nxt = views(toks@).take(i + 1);
        assert(nxt.drop_last() =~= pre);
        assert(nxt.last() == toks@[i as int]@);
        match parse_hex_group(toks[i].as_slice()) {
            None => {
                proof {
                    lemma_hex_tokens_prefix_none(views(toks@), i + 1);
                }
                return None;
            },
            Some(x) => {
                acc.push(x);
                i = i + 1;
            },
        }
    }
    assert(views(toks@).take(n as int) =~= views(toks@));
    Some(acc)
}

pub proof fn lemma_hex_tokens_prefix_none(toks: Seq<Seq<char>>, k: int)
    requires
        0 <= k <= toks.len(),
        hex_tokens_spec(toks.take(k)) is None,
    ensures
        hex_tokens_spec(toks) is None,
    decreases toks.len() - k,
{
    if k < toks.len() {
        assert(toks.take(k + 1).drop_last() =~= toks.take(k));
        lemma_hex_tokens_prefix_none(toks, k + 1);
    } else {
        assert(toks.take(k) =~= toks);
    }
}

pub proof fn lemma_hex_tokens_len(toks: Seq<Seq<char>>)
    ensures
        hex_tokens_spec(toks) matches Some(g) ==> g.len() == toks.len(),
    decreases toks.len(),
{
    if toks.len() > 0 {
        lemma_hex_tokens_len(toks.drop_last());
    }
}

fn drop_last_vec(v: &Vec<Vec<char>>) -> (r: Vec<Vec<char>>)
    requires
        v@.len() >= 1,
    ensures
        views(r@) == views(v@).drop_last(),
{
    let mut r: Vec<Vec<char>> = Vec::new();
    let mut i: usize = 0;
    let n = v.len() - 1;
    while i < n
        invariant
            n == v@.len() - 1,
            i <= n,
            r@.len() == i,
            forall|k: int| 0 <= k < i ==> #[trigger] r@[k]@ == v@[k]@,
        decreases n - i,
    {
        let c = v[i].clone();
        assert(c@ =~= v@[i as int]@);
        r.push(c);
        i = i + 1;
    }
    assert(views(r@) =~= views(v@).drop_last()) by {
        assert forall|k: int| 0 <= k < r@.len() implies views(r@)[k] == views(v@).drop_last()[k] by {
            assert(r@[k]@ == v@[k]@);
        }
    }
    r
}

/// A `':'`-separated group list of at most `limit` groups.
pub fn parse_group_list(text: &[char], limit: usize) -> (r: Option<Vec<u16>>)
    ensures
        r matches Some(v) ==> group_list_spec(text@, limit as nat) == Some(v@),
        r is None ==> group_list_spec(text@, limit as nat) is None,
{
    if text.len() == 0 {
        return Some(Vec::new());
    }
    let toks = split_chars(text, ':');
    proof {
        lemma_split_from_nonempty(text@, ':', seq![]);
    }
    let init = drop_last_vec(&toks);
    let last_i = toks.len() - 1;
    let ghost st = split_spec(text@, ':');
    assert(toks[last_i as int]@ == st.last());
    match parse_hex_tokens(init.as_slice()) {
        None => None,
        Some(mut g) => {
            proof {
                lemma_hex_tokens_len(st.drop_last());
            }
            match parse_hex_group(toks[last_i].as_slice()) {
                Some(x) => {
                    if g.len() < limit {
                        g.push(x);
                        Some(g)
                    } else {
                        None
                    }
                },
                None => match parse_ipv4(toks[last_i].as_slice()) {
                    Some(o) => {
                        if limit >= 2 && g.len() <= limit - 2 {
                            let ghost g0 = g@;
                            let hi: u16 = (o[0] as u16) * 256 + (o[1] as u16);
                            let lo: u16 = (o[2] as u16) * 256 + (o[3] as u16);
                            g.push(hi);
                            g.push(lo);
                            assert(g@ =~= g0 + v4_groups(o@));
                            Some(g)
                        } else {
                            None
                        }
                    },
                    None => None,
                },
            }
        },
    }
}

fn find_dcolon(s: &[char]) -> (r: Option<usize>)
    ensures
        r matches Some(i) ==> dcolon_from(s@, 0) == Some(i as int) && i + 1 < s@.len(),
        r is None ==> dcolon_from(s@, 0) is None,
{
    let n = s.len();
    let mut i: usize = 0;
    while i < n
        invariant
            n == s@.len(),
            i <= n,
            dcolon_from(s@, 0) == dcolon_from(s@, i as int),
        decreases n - i,
    {
        if i + 1 < n && s[i] == ':' && s[i + 1] == ':' {
            return Some(i);
        }
        i = i + 1;
    }
    None
}

/// The eight groups of an IPv6 address.
pub fn parse_ipv6(s: &[char]) -> (r: Option<Vec<u16>>)
    ensures
        r matches Some(v) ==> v6_spec(s@) == Some(v@),
        r is None ==> v6_spec(s@) is None,
{
    let n = s.len();
    match find_dcolon(s) {
        None => match parse_group_list(s, 8) {
            Some(g) => if g.len() == 8 {
                Some(g)
            } else {
                None
            },
            None => None,
        },
        Some(i) => {
            let head = copy_prefix(s, i);
            let tail = copy_suffix(s, i + 2);
            let hg = if head.len() == 0 {
                Some(Vec::new())
            } else {
                let htoks = split_chars(head.as_slice(), ':');
                parse_hex_tokens(htoks.as_slice())
            };
            match hg {
                None => None,
                Some(h) => if h.len() <= 7 {
                    match parse_group_list(tail.as_slice(), 7 - h.len()) {
                        Some(t) => {
                            let mut out: Vec<u16> = h;
                            let ghost hv = out@;
                            let gap = 8 - out.len() - t.len();
                            let mut k: usize = 0;
                            while k < gap
                                invariant
                                    k <= gap,
                                    out@ == hv + zeros(k as nat),
                                decreases gap - k,
                            {
                                out.push(0);
                                k = k + 1;
                                assert(out@ =~= hv + zeros(k as nat));
                            }
                            let ghost mid = out@;
                            let mut j: usize = 0;
                            while j < t.len()
                                invariant
                                    j <= t@.len(),
                                    out@ == mid + t@.take(j as int),
                                decreases t@.len() - j,
                            {
                                out.push(t[j]);
                                j = j + 1;
                                assert(out@ =~= mid + t@.take(j as int));
                            }
                            assert(t@.take(t@.len() as int) =~= t@);
                            Some(out)
                        },
                        None => None,
                    }
                } else {
                    None
                },
            }
        },
    }
}

fn copy_prefix(s: &[char], i: usize) -> (r: Vec<char>)
    requires
        i <= s@.len(),
    ensures
        r@ == s@.take(i as int),
{
    let mut r: Vec<char> = Vec::new();
    let mut k: usize = 0;
    while k < i
        invariant
            k <= i <= s@.len(),
            r@ == s@.take(k as int),
        decreases i - k,
    {
        r.push(s[k]);
        k = k + 1;
        assert(r@ =~= s@.take(k as int));
    }
    r
}

fn copy_suffix(s: &[char], i: usize) -> (r: Vec<char>)
    requires
        i <= s@.len(),
    ensures
        r@ == s@.skip(i as int),
{
    let n = s.len();
    let mut r: Vec<char> = Vec::new();
    let mut k: usize = i;
    while k < n
        invariant
            n == s@.len(),
            i <= k <= n,
            r@ == s@.subrange(i as int, k as int),
        decreases n - k,
    {
        r.push(s[k]);
        k = k + 1;
        assert(r@ =~= s@.subrange(i as int, k as int));
    }
    assert(s@.subrange(i as int, n as int) =~= s@.skip(i as int));
    r
}

/// The subnet of a textual IP address (`/24` for IPv4, `/48` for IPv6), or
/// `None` when the text is no IP address.
pub fn subnet_of(ip: &str) -> (r: Option<String>)
    ensures
        r matches Some(x) ==> subnet_spec(ip@) == Some(x@),
        r is None ==> subnet_spec(ip@) is None,
{
    let cs = chars_of(ip);
    match parse_ipv4(cs.as_slice()) {
        Some(o) => {
            let mut s = String::new();
            push_dec(&mut s, o[0] as u64);
            push_char(&mut s, '.');
            push_dec(&mut s, o[1] as u64);
            push_char(&mut s, '.');
            push_dec(&mut s, o[2] as u64);
            push_char(&mut s, '.');
            push_char(&mut s, '0');
            push_char(&mut s, '/');
            push_char(&mut s, '2');
            push_char(&mut s, '4');
            assert(s@ =~= subnet_spec(ip@).unwrap());
            Some(s)
        },
        None => match parse_ipv6(cs.as_slice()) {
            Some(g) => {
                let mut s = String::new();
                push_hex(&mut s, g[0] as u64);
                push_char(&mut s, ':');
                push_hex(&mut s, g[1] as u64);
                push_char(&mut s, ':');
                push_hex(&mut s, g[2] as u64);
                push_char(&mut s, ':');
                push_char(&mut s, ':');
                push_char(&mut s, '/');
                push_char(&mut s, '4');
                push_char(&mut s, '8');
                assert(s@ =~= subnet_spec(ip@).unwrap());
                Some(s)
            },
            None => None,
        },
    }
}

} // verus!
