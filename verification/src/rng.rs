//! Test-vector randomization: fresh uniformly random bytes for randomized
//! keys and plaintexts. Nothing is assumed of the values drawn, only of
//! how many are drawn.

use vstd::prelude::*;

verus! {

/// Relies on rand::random: one byte from the thread-local generator.
/// Nothing can be promised of its value.
#[verifier::external_body]
fn random_byte() -> u8 {
    rand::random()
}

/// A fresh draw of exactly `len` random bytes.
pub fn random_bytes(len: usize) -> (r: Vec<u8>)
    ensures
        r@.len() == len,
{
    let mut v: Vec<u8> = Vec::new();
    while v.len() < len
        invariant
            v@.len() <= len,
        decreases len - v@.len(),
    {
        v.push(random_byte());
    }
    v
}

} // verus!
