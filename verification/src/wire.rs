//! Big-endian 16-bit fields, read and written by the `byteorder` crate.

use crate::checksum::word;
use byteorder::{BigEndian, ByteOrder};
use vstd::prelude::*;

verus! {

/// Calls `byteorder::BigEndian::read_u16`, which reads an unsigned 16-bit
/// integer from the first two bytes of a slice and panics on a shorter one.
///
/// Trusted: that the first byte is the high byte of the result and the
/// second its low byte.
#[verifier::external_body]
pub(crate) fn read_u16_be(bytes: &[u8]) -> (value: u16)
    requires
        bytes@.len() >= 2,
    ensures
        value == word(bytes@[0], bytes@[1]),
{
    BigEndian::read_u16(bytes)
}

/// Calls `byteorder::BigEndian::write_u16` on a fresh buffer of two bytes,
/// which it fills with an unsigned 16-bit integer.
///
/// Trusted: that the first byte written is the high byte of `value` and the
/// second its low byte.
#[verifier::external_body]
pub(crate) fn write_u16_be(value: u16) -> (bytes: [u8; 2])
    ensures
        bytes@[0] == value / 256,
        bytes@[1] == value % 256,
{
    let mut bytes = [0u8; 2];
    BigEndian::write_u16(&mut bytes, value);
    bytes
}

} // verus!
