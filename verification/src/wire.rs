//! Big-endian integers at a position in a byte sequence.

use byteorder::BigEndian;
use byteorder::ByteOrder;
use vstd::prelude::*;

verus! {

/// The 16-bit big-endian integer that the two bytes at `at` denote.
pub open spec fn be16(s: Seq<u8>, at: int) -> u16 {
    (s[at] as int * 0x100 + s[at + 1] as int) as u16
}

/// The 32-bit big-endian integer that the four bytes at `at` denote.
pub open spec fn be32(s: Seq<u8>, at: int) -> u32 {
    (s[at] as int * 0x100_0000 + s[at + 1] as int * 0x1_0000 + s[at + 2] as int * 0x100 + s[at
        + 3] as int) as u32
}

/// `byteorder::BigEndian::read_u16` (`ByteOrder::read_u16`): the first two
/// bytes of `buf`, the first being the high byte. It panics on a shorter
/// buffer, which `requires` leaves out.
#[verifier::external_body]
fn be_read_u16(buf: &[u8]) -> (v: u16)
    requires
        buf@.len() >= 2,
    ensures
        v == be16(buf@, 0),
{
    BigEndian::read_u16(buf)
}

/// `byteorder::BigEndian::read_u32` (`ByteOrder::read_u32`): the first four
/// bytes of `buf`, most significant first. It panics on a shorter buffer,
/// which `requires` leaves out.
#[verifier::external_body]
fn be_read_u32(buf: &[u8]) -> (v: u32)
    requires
        buf@.len() >= 4,
    ensures
        v == be32(buf@, 0),
{
    BigEndian::read_u32(buf)
}

/// The big-endian `u16` in the two bytes at `at`.
pub fn u16_at(bytes: &[u8], at: usize) -> (v: u16)
    requires
        at + 2 <= bytes@.len(),
    ensures
        v == be16(bytes@, at as int),
{
    assert(bytes@.len() == bytes.len());
    be_read_u16(&bytes[at..at + 2])
}

/// The big-endian `u32` in the four bytes at `at`.
pub fn u32_at(bytes: &[u8], at: usize) -> (v: u32)
    requires
        at + 4 <= bytes@.len(),
    ensures
        v == be32(bytes@, at as int),
{
    assert(bytes@.len() == bytes.len());
    be_read_u32(&bytes[at..at + 4])
}

} // verus!
