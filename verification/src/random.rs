//! Random bytes, drawn by the `rand` crate.

use vstd::prelude::*;

verus! {

/// Calls `rand::random` for one byte from the thread-local generator.
///
/// Nothing is claimed of the byte: every caller is verified for whatever
/// comes back.
#[verifier::external_body]
pub(crate) fn random_byte() -> u8 {
    rand::random()
}

/// `count` random bytes.
pub(crate) fn random_bytes(count: usize) -> (bytes: Vec<u8>)
    ensures
        bytes@.len() == count,
{
    let mut bytes: Vec<u8> = Vec::with_capacity(count);
    while bytes.len() < count
        invariant
            bytes@.len() <= count,
        decreases count - bytes@.len(),
    {
        bytes.push(random_byte());
    }
    bytes
}

/// A random 16-bit value.
pub(crate) fn random_u16() -> u16 {
    let high: u8 = random_byte();
    let low: u8 = random_byte();
    (high as u16) * 256 + (low as u16)
}

} // verus!
