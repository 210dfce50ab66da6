//! Reading and writing numbers as digit characters (decimal, hexadecimal).

use vstd::prelude::*;
use crate::text::push_char;

verus! {

/// The character of a digit below 16, lower case for 10 to 15.
pub open spec fn digit_spec(d: nat) -> char {
    if d == 0 { '0' }
    else if d == 1 { '1' }
    else if d == 2 { '2' }
    else if d == 3 { '3' }
    else if d == 4 { '4' }
    else if d == 5 { '5' }
    else if d == 6 { '6' }
    else if d == 7 { '7' }
    else if d == 8 { '8' }
    else if d == 9 { '9' }
    else if d == 10 { 'a' }
    else if d == 11 { 'b' }
    else if d == 12 { 'c' }
    else if d == 13 { 'd' }
    else if d == 14 { 'e' }
    else { 'f' }
}

/// `n` written in base `radix` (10 or 16), without leading zeros, as Rust's
/// `{}` and `{:x}` formats write unsigned integers.
pub open spec fn radix_spec(n: nat, radix: nat) -> Seq<char>
    recommends
        2 <= radix <= 16,
    decreases n,
{
    if radix < 2 || n < radix {
        seq![digit_spec(n)]
    } else {
        proof {
            assert(n / radix < n) by (nonlinear_arith)
                requires
                    radix >= 2,
                    n >= radix,
            ;
        }
        radix_spec(n / radix, radix).push(digit_spec(n % radix))
    }
}

pub open spec fn dec_spec(n: nat) -> Seq<char> {
    radix_spec(n, 10)
}

pub open spec fn hex_spec(n: nat) -> Seq<char> {
    radix_spec(n, 16)
}

/// Signed decimal, as `{}` writes an `i64`.
pub open spec fn signed_dec_spec(n: int) -> Seq<char> {
    if n < 0 {
        seq!['-'] + dec_spec((-n) as nat)
    } else {
        dec_spec(n as nat)
    }
}

fn digit_char(d: u64) -> (c: char)
    requires
        d < 16,
    ensures
        c == digit_spec(d as nat),
{
    if d == 0 { '0' }
    else if d == 1 { '1' }
    else if d == 2 { '2' }
    else if d == 3 { '3' }
    else if d == 4 { '4' }
    else if d == 5 { '5' }
    else if d == 6 { '6' }
    else if d == 7 { '7' }
    else if d == 8 { '8' }
    else if d == 9 { '9' }
    else if d == 10 { 'a' }
    else if d == 11 { 'b' }
    else if d == 12 { 'c' }
    else if d == 13 { 'd' }
    else if d == 14 { 'e' }
    else { 'f' }
}

/// Appends `n` in base `radix` to `s`.
pub fn push_radix(s: &mut String, n: u64, radix: u64)
    requires
        radix == 10 || radix == 16,
    ensures
        final(s)@ == old(s)@ + radix_spec(n as nat, radix as nat),
    decreases n,
{
    if n >= radix {
        push_radix(s, n / radix, radix);
    }
    push_char(s, digit_char(n % radix));
    assert(n < radix ==> n % radix == n);
}

pub fn push_dec(s: &mut String, n: u64)
    ensures
        final(s)@ == old(s)@ + dec_spec(n as nat),
{
    push_radix(s, n, 10);
}

pub fn push_hex(s: &mut String, n: u64)
    ensures
        final(s)@ == old(s)@ + hex_spec(n as nat),
{
    push_radix(s, n, 16);
}

pub fn push_signed_dec(s: &mut String, n: i64)
    ensures
        final(s)@ == old(s)@ + signed_dec_spec(n as int),
{
    if n < 0 {
        push_char(s, '-');
        let m: u64 = if n == i64::MIN {
            9223372036854775808u64
        } else {
            (-n) as u64
        };
        push_dec(s, m);
        assert(s@ =~= old(s)@ + (seq!['-'] + dec_spec((-n) as nat)));
    } else {
        push_dec(s, n as u64);
    }
}

/// Decimal digit value of a character, if it is `'0'..='9'`.
pub open spec fn dec_val(c: char) -> Option<nat> {
    let u = c as u32;
    if 48 <= u <= 57 {
        Some((u - 48) as nat)
    } else {
        None
    }
}

/// Hexadecimal digit value of a character (either case), as
/// `char::to_digit(16)` reads it.
pub open spec fn hex_val(c: char) -> Option<nat> {
    let u = c as u32;
    if 48 <= u <= 57 {
        Some((u - 48) as nat)
    } else if 97 <= u <= 102 {
        Some((u - 87) as nat)
    } else if 65 <= u <= 70 {
        Some((u - 55) as nat)
    } else {
        None
    }
}

pub fn dec_val_of(c: char) -> (r: Option<u64>)
    ensures
        r matches Some(v) ==> dec_val(c) == Some(v as nat),
        r is None ==> dec_val(c) is None,
{
    let u = c as u32;
    if 48 <= u && u <= 57 {
        Some((u - 48) as u64)
    } else {
        None
    }
}

pub fn hex_val_of(c: char) -> (r: Option<u64>)
    ensures
        r matches Some(v) ==> hex_val(c) == Some(v as nat),
        r is None ==> hex_val(c) is None,
{
    let u = c as u32;
    if 48 <= u && u <= 57 {
        Some((u - 48) as u64)
    } else if 97 <= u && u <= 102 {
        Some((u - 87) as u64)
    } else if 65 <= u && u <= 70 {
        Some((u - 55) as u64)
    } else {
        None
    }
}

/// The value of a sequence of decimal digits (0 for the empty sequence).
pub open spec fn dec_value(t: Seq<char>) -> nat
    decreases t.len(),
{
    if t.len() == 0 {
        0
    } else {
        dec_value(t.drop_last()) * 10 + dec_val(t.last()).unwrap_or(0)
    }
}

/// The value of a sequence of hexadecimal digits.
pub open spec fn hex_value(t: Seq<char>) -> nat
    decreases t.len(),
{
    if t.len() == 0 {
        0
    } else {
        hex_value(t.drop_last()) * 16 + hex_val(t.last()).unwrap_or(0)
    }
}

pub open spec fn all_dec(t: Seq<char>) -> bool {
    forall|i: int| 0 <= i < t.len() ==> dec_val(#[trigger] t[i]) is Some
}

pub open spec fn all_hex(t: Seq<char>) -> bool {
    forall|i: int| 0 <= i < t.len() ==> hex_val(#[trigger] t[i]) is Some
}

pub open spec fn pow16(n: nat) -> nat
    decreases n,
{
    if n == 0 {
        1
    } else {
        16 * pow16((n - 1) as nat)
    }
}

pub proof fn lemma_pow16_small()
    ensures
        pow16(0) == 1,
        pow16(1) == 16,
        pow16(2) == 256,
        pow16(3) == 4096,
        pow16(4) == 65536,
{
    assert(pow16(0) == 1);
    assert(pow16(1) == 16);
    assert(pow16(2) == 256);
    assert(pow16(3) == 4096);
    assert(pow16(4) == 65536);
}

pub proof fn lemma_dec_value_prefix_le(t: Seq<char>, k: int)
    requires
        all_dec(t),
        0 <= k <= t.len(),
    ensures
        dec_value(t.take(k)) <= dec_value(t),
    decreases t.len() - k,
{
    if k < t.len() {
        lemma_dec_value_prefix_le(t, k + 1);
        assert(t.take(k + 1).drop_last() =~= t.take(k));
    } else {
        assert(t.take(k) =~= t);
    }
}

pub proof fn lemma_hex_value_bound(t: Seq<char>)
    requires
        all_hex(t),
    ensures
        hex_value(t) < pow16(t.len()),
    decreases t.len(),
{
    if t.len() > 0 {
        let u = t.drop_last();
        assert forall|i: int| 0 <= i < u.len() implies hex_val(#[trigger] u[i]) is Some by {
            assert(u[i] == t[i]);
        }
        lemma_hex_value_bound(u);
        assert(hex_val(t[t.len() - 1]) is Some);
    }
}

} // verus!
