//! Big-endian encoding and decoding of the protocol's multi-byte integers.
//!
//! Every multi-byte integer on the wire is big-endian: the most significant
//! byte is transmitted first.

use vstd::prelude::*;

verus! {

/// The value of two big-endian bytes.
pub open spec fn be16_of(b: Seq<u8>) -> u16
    recommends
        b.len() == 2,
{
    (b[0] * 0x100 + b[1]) as u16
}

/// The value of four big-endian bytes.
pub open spec fn be32_of(b: Seq<u8>) -> u32
    recommends
        b.len() == 4,
{
    (b[0] * 0x1000000 + b[1] * 0x10000 + b[2] * 0x100 + b[3]) as u32
}

/// The two big-endian bytes of a 16-bit value.
pub open spec fn u16_bytes(v: u16) -> Seq<u8> {
    seq![(v / 0x100) as u8, (v % 0x100) as u8]
}

/// The four big-endian bytes of a 32-bit value.
pub open spec fn u32_bytes(v: u32) -> Seq<u8> {
    seq![
        (v / 0x1000000) as u8,
        ((v / 0x10000) % 0x100) as u8,
        ((v / 0x100) % 0x100) as u8,
        (v % 0x100) as u8,
    ]
}

/// Decoding the big-endian bytes of a 16-bit value recovers the value.
pub proof fn lemma_be16_round_trip(v: u16)
    ensures
        be16_of(u16_bytes(v)) == v,
{
    assert((v / 0x100) < 0x100 && (v / 0x100) * 0x100 + (v % 0x100) == v) by (bit_vector);
}

/// Decoding the big-endian bytes of a 32-bit value recovers the value.
pub proof fn lemma_be32_round_trip(v: u32)
    ensures
        be32_of(u32_bytes(v)) == v,
{
    assert((v / 0x1000000) < 0x100 && (v / 0x1000000) * 0x1000000 + ((v / 0x10000) % 0x100)
        * 0x10000 + ((v / 0x100) % 0x100) * 0x100 + (v % 0x100) == v) by (bit_vector);
}

/// Append the two big-endian bytes of `v` to `out`.
pub fn push_u16_be(out: &mut Vec<u8>, v: u16)
    ensures
        final(out)@ == old(out)@ + u16_bytes(v),
{
    proof {
        assert(v / 0x100 < 0x100) by (bit_vector);
    }
    out.push((v / 0x100) as u8);
    out.push((v % 0x100) as u8);
    assert(out@ =~= old(out)@ + u16_bytes(v));
}

/// Append the four big-endian bytes of `v` to `out`.
pub fn push_u32_be(out: &mut Vec<u8>, v: u32)
    ensures
        final(out)@ == old(out)@ + u32_bytes(v),
{
    proof {
        assert(v / 0x1000000 < 0x100) by (bit_vector);
    }
    out.push((v / 0x1000000) as u8);
    out.push(((v / 0x10000) % 0x100) as u8);
    out.push(((v / 0x100) % 0x100) as u8);
    out.push((v % 0x100) as u8);
    assert(out@ =~= old(out)@ + u32_bytes(v));
}

/// Read the two big-endian bytes at `pos`.
pub fn read_u16_at(bytes: &[u8], pos: usize) -> (r: u16)
    requires
        pos + 2 <= bytes@.len(),
    ensures
        r == be16_of(bytes@.subrange(pos as int, pos + 2)),
{
    let r: u16 = bytes[pos] as u16 * 0x100 + bytes[pos + 1] as u16;
    r
}

/// Read the four big-endian bytes at `pos`.
pub fn read_u32_at(bytes: &[u8], pos: usize) -> (r: u32)
    requires
        pos + 4 <= bytes@.len(),
    ensures
        r == be32_of(bytes@.subrange(pos as int, pos + 4)),
{
    let r: u32 = bytes[pos] as u32 * 0x1000000 + bytes[pos + 1] as u32 * 0x10000 + bytes[pos
        + 2] as u32 * 0x100 + bytes[pos + 3] as u32;
    r
}

} // verus!
