//! Random bytes from the thread-local generator.

use vstd::prelude::*;
use rand::RngCore;

verus! {

/// Fills the buffer with random bytes (rand's `rng().fill_bytes`). Only
/// its length is stated: the bytes are chance.
#[verifier::external_body]
pub(crate) fn fill_random(buf: &mut Vec<u8>)
    ensures
        final(buf)@.len() == old(buf)@.len(),
{
    rand::rng().fill_bytes(buf.as_mut_slice());
}

/// `n` random bytes.
pub fn random_bytes(n: usize) -> (r: Vec<u8>)
    ensures
        r@.len() == n,
{
    let mut buf = vec![0u8; n];
    fill_random(&mut buf);
    buf
}

} // verus!
