//! Little-endian encoding of integers into byte sequences.

use vstd::prelude::*;

verus! {

/// Byte `k` of `x` in little-endian order.
pub open spec fn le_byte_u64(x: u64, k: int) -> u8 {
    ((x >> ((8 * k) as u64)) & 0xff) as u8
}

/// The eight little-endian bytes of `x`.
pub open spec fn le_bytes_u64(x: u64) -> Seq<u8> {
    Seq::new(8, |k: int| le_byte_u64(x, k))
}

/// Byte `k` of `x` in little-endian order.
pub open spec fn le_byte_u32(x: u32, k: int) -> u8 {
    ((x >> ((8 * k) as u32)) & 0xff) as u8
}

/// The four little-endian bytes of `x`.
pub open spec fn le_bytes_u32(x: u32) -> Seq<u8> {
    Seq::new(4, |k: int| le_byte_u32(x, k))
}

/// Appends the little-endian bytes of `x`.
pub fn push_le_u64(out: &mut Vec<u8>, x: u64)
    ensures
        final(out)@ == old(out)@ + le_bytes_u64(x),
{
    let ghost start = old(out)@;
    let mut k: u64 = 0;
    while k < 8
        invariant
            k <= 8,
            out@ == start + le_bytes_u64(x).subrange(0, k as int),
        decreases 8 - k,
    {
        out.push(((x >> (8 * k)) & 0xff) as u8);
        k += 1;
        assert(out@ =~= start + le_bytes_u64(x).subrange(0, k as int));
    }
    assert(le_bytes_u64(x).subrange(0, 8) =~= le_bytes_u64(x));
}

/// Appends the little-endian bytes of `x`.
pub fn push_le_u32(out: &mut Vec<u8>, x: u32)
    ensures
        final(out)@ == old(out)@ + le_bytes_u32(x),
{
    let ghost start = old(out)@;
    let mut k: u32 = 0;
    while k < 4
        invariant
            k <= 4,
            out@ == start + le_bytes_u32(x).subrange(0, k as int),
        decreases 4 - k,
    {
        out.push(((x >> (8 * k)) & 0xff) as u8);
        k += 1;
        assert(out@ =~= start + le_bytes_u32(x).subrange(0, k as int));
    }
    assert(le_bytes_u32(x).subrange(0, 4) =~= le_bytes_u32(x));
}

} // verus!
