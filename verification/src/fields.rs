//! Fixed-offset extraction of big-endian integers from a response payload.
//!
//! Every field of a response frame is an unsigned integer of 16 or 32 bits,
//! stored most-significant-byte first at a fixed offset. The readers here are
//! pure functions of the payload bytes; a caller must have already checked
//! that the payload is long enough.

use vstd::prelude::*;

verus! {

/// The 16-bit integer held big-endian by the two bytes of `b` starting at `off`.
pub open spec fn be_u16_at(b: Seq<u8>, off: int) -> u16
    recommends
        0 <= off,
        off + 2 <= b.len(),
{
    (((b[off] as u16) << 8) | (b[off + 1] as u16))
}

/// The 32-bit integer held big-endian by the four bytes of `b` starting at `off`.
pub open spec fn be_u32_at(b: Seq<u8>, off: int) -> u32
    recommends
        0 <= off,
        off + 4 <= b.len(),
{
    (((b[off] as u32) << 24) | ((b[off + 1] as u32) << 16) | ((b[off + 2] as u32) << 8) | (b[off
        + 3] as u32))
}

/// Reads the big-endian 16-bit field at `off..off + 2` of `payload`.
pub fn read_be_u16(payload: &[u8], off: usize) -> (r: u16)
    requires
        off + 2 <= payload@.len(),
    ensures
        r == be_u16_at(payload@, off as int),
{
    let hi = payload[off];
    let lo = payload[off + 1];
    ((hi as u16) << 8) | (lo as u16)
}

/// Reads the big-endian 32-bit field at `off..off + 4` of `payload`.
pub fn read_be_u32(payload: &[u8], off: usize) -> (r: u32)
    requires
        off + 4 <= payload@.len(),
    ensures
        r == be_u32_at(payload@, off as int),
{
    let b0 = payload[off];
    let b1 = payload[off + 1];
    let b2 = payload[off + 2];
    let b3 = payload[off + 3];
    ((b0 as u32) << 24) | ((b1 as u32) << 16) | ((b2 as u32) << 8) | (b3 as u32)
}

/// The two bytes that hold `x` big-endian: most significant byte first.
pub open spec fn u16_be_bytes(x: u16) -> Seq<u8> {
    seq![((x >> 8) & 0xff) as u8, (x & 0xff) as u8]
}

/// The four bytes that hold `x` big-endian: most significant byte first.
pub open spec fn u32_be_bytes(x: u32) -> Seq<u8> {
    seq![
        ((x >> 24) & 0xff) as u8,
        ((x >> 16) & 0xff) as u8,
        ((x >> 8) & 0xff) as u8,
        (x & 0xff) as u8,
    ]
}

/// Reading a 16-bit value back from its own big-endian bytes returns the value.
pub proof fn lemma_u16_be_round_trip(x: u16)
    ensures
        u16_be_bytes(x).len() == 2,
        be_u16_at(u16_be_bytes(x), 0) == x,
{
    assert(((((((x >> 8) & 0xff) as u8) as u16) << 8) | (((x & 0xff) as u8) as u16)) == x)
        by (bit_vector);
}

/// Reading a 32-bit value back from its own big-endian bytes returns the value.
pub proof fn lemma_u32_be_round_trip(x: u32)
    ensures
        u32_be_bytes(x).len() == 4,
        be_u32_at(u32_be_bytes(x), 0) == x,
{
    assert(((((((x >> 24) & 0xff) as u8) as u32) << 24) | (((((x >> 16) & 0xff) as u8) as u32)
        << 16) | (((((x >> 8) & 0xff) as u8) as u32) << 8) | (((x & 0xff) as u8) as u32)) == x)
        by (bit_vector);
}

} // verus!
