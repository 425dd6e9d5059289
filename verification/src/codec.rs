//! Byte-order primitives for the fixed-layout records of the container
//! format and for FourCC property tags.
//!
//! Multi-byte integers inside the container are little-endian; FourCC tags
//! are big-endian when packed into a `u32` property selector.

use vstd::prelude::*;

verus! {

/// The value of four big-endian bytes, as packed into a FourCC selector.
pub open spec fn be_u32_of(b: Seq<u8>) -> int
    recommends
        b.len() == 4,
{
    (b[0] as int) * 0x100_0000 + (b[1] as int) * 0x1_0000 + (b[2] as int) * 0x100 + (b[3] as int)
}

/// The little-endian `u32` stored at byte offset `off`.
pub open spec fn le_u32_at(b: Seq<u8>, off: int) -> int
    recommends
        0 <= off,
        off + 4 <= b.len(),
{
    (b[off] as int) + (b[off + 1] as int) * 0x100 + (b[off + 2] as int) * 0x1_0000 + (b[off + 3]
        as int) * 0x100_0000
}

/// The little-endian `u16` stored at byte offset `off`.
pub open spec fn le_u16_at(b: Seq<u8>, off: int) -> int
    recommends
        0 <= off,
        off + 2 <= b.len(),
{
    (b[off] as int) + (b[off + 1] as int) * 0x100
}

/// The four little-endian bytes of a `u32`.
pub open spec fn le_bytes_of_u32(n: u32) -> Seq<u8> {
    seq![
        (n % 0x100) as u8,
        ((n / 0x100) % 0x100) as u8,
        ((n / 0x1_0000) % 0x100) as u8,
        (n / 0x100_0000) as u8,
    ]
}

/// The two little-endian bytes of a `u16`.
pub open spec fn le_bytes_of_u16(n: u16) -> Seq<u8> {
    seq![(n % 0x100) as u8, (n / 0x100) as u8]
}

/// The four big-endian bytes of a `u32`.
pub open spec fn be_bytes_of_u32(n: u32) -> Seq<u8> {
    seq![
        (n / 0x100_0000) as u8,
        ((n / 0x1_0000) % 0x100) as u8,
        ((n / 0x100) % 0x100) as u8,
        (n % 0x100) as u8,
    ]
}

/// Reassembling the little-endian bytes of a `u32` gives the value back.
pub proof fn lemma_le_u32_round_trip(n: u32)
    ensures
        le_u32_at(le_bytes_of_u32(n), 0) == n,
{
    assert((n % 0x100) + ((n / 0x100) % 0x100) * 0x100 + ((n / 0x1_0000) % 0x100) * 0x1_0000 + (n
        / 0x100_0000) * 0x100_0000 == n) by (bit_vector);
}

/// Reassembling the little-endian bytes of a `u16` gives the value back.
pub proof fn lemma_le_u16_round_trip(n: u16)
    ensures
        le_u16_at(le_bytes_of_u16(n), 0) == n,
{
    assert((n % 0x100) + (n / 0x100) * 0x100 == n) by (bit_vector);
}

/// Reassembling the big-endian bytes of a `u32` gives the value back.
pub proof fn lemma_be_u32_round_trip(n: u32)
    ensures
        be_u32_of(be_bytes_of_u32(n)) == n,
{
    assert((n / 0x100_0000) * 0x100_0000 + ((n / 0x1_0000) % 0x100) * 0x1_0000 + ((n / 0x100)
        % 0x100) * 0x100 + (n % 0x100) == n) by (bit_vector);
}

/// Reading a `u32` at an offset sees only the four bytes there.
pub proof fn lemma_le_u32_at_subrange(b: Seq<u8>, off: int)
    requires
        0 <= off,
        off + 4 <= b.len(),
    ensures
        le_u32_at(b, off) == le_u32_at(b.subrange(off, off + 4), 0),
{
}

/// Reading a `u16` at an offset sees only the two bytes there.
pub proof fn lemma_le_u16_at_subrange(b: Seq<u8>, off: int)
    requires
        0 <= off,
        off + 2 <= b.len(),
    ensures
        le_u16_at(b, off) == le_u16_at(b.subrange(off, off + 2), 0),
{
}

/// Reads the little-endian `u32` at byte offset `off`.
pub fn read_le_u32(b: &Vec<u8>, off: usize) -> (r: u32)
    requires
        off + 4 <= b.len(),
    ensures
        r == le_u32_at(b@, off as int),
{
    (b[off] as u32) + (b[off + 1] as u32) * 0x100 + (b[off + 2] as u32) * 0x1_0000 + (b[off + 3]
        as u32) * 0x100_0000
}

/// Reads the little-endian `u16` at byte offset `off`.
pub fn read_le_u16(b: &Vec<u8>, off: usize) -> (r: u16)
    requires
        off + 2 <= b.len(),
    ensures
        r == le_u16_at(b@, off as int),
{
    (b[off] as u16) + (b[off + 1] as u16) * 0x100
}

/// Appends the little-endian bytes of a `u32`.
pub fn push_le_u32(out: &mut Vec<u8>, n: u32)
    ensures
        final(out)@ == old(out)@ + le_bytes_of_u32(n),
{
    out.push((n % 0x100) as u8);
    out.push(((n / 0x100) % 0x100) as u8);
    out.push(((n / 0x1_0000) % 0x100) as u8);
    out.push((n / 0x100_0000) as u8);
    assert(final(out)@ =~= old(out)@ + le_bytes_of_u32(n));
}

/// Appends the little-endian bytes of a `u16`.
pub fn push_le_u16(out: &mut Vec<u8>, n: u16)
    ensures
        final(out)@ == old(out)@ + le_bytes_of_u16(n),
{
    out.push((n % 0x100) as u8);
    out.push((n / 0x100) as u8);
    assert(final(out)@ =~= old(out)@ + le_bytes_of_u16(n));
}

} // verus!
