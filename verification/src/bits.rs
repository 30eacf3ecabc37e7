//! Little-endian 32-bit word encoding, and the IEEE-754 single-precision
//! bit patterns of the few constants the demo's geometry and camera use.
//!
//! The GPU consumes vertex, index and uniform data as raw bytes. Every
//! 32-bit field of this crate's records is carried as a `u32` word (for
//! floating-point fields, the bit pattern of the value), so one encoding
//! covers them all.

use vstd::prelude::*;

verus! {

/// Bit pattern of `0.0f32`.
pub const F32_ZERO_BITS: u32 = 0x0000_0000;

/// Bit pattern of `1.0f32`.
pub const F32_ONE_BITS: u32 = 0x3F80_0000;

/// Bit pattern of `10.0f32`.
pub const F32_TEN_BITS: u32 = 0x4120_0000;

/// Bit pattern of `100.0f32`.
pub const F32_HUNDRED_BITS: u32 = 0x42C8_0000;

/// The four bytes of `x` in little-endian order.
pub open spec fn u32_le_bytes(x: u32) -> Seq<u8> {
    seq![
        (x & 0xff) as u8,
        ((x >> 8) & 0xff) as u8,
        ((x >> 16) & 0xff) as u8,
        ((x >> 24) & 0xff) as u8,
    ]
}

/// Appends the little-endian encoding of `x` to `out`.
pub fn push_u32_le(out: &mut Vec<u8>, x: u32)
    requires
        old(out)@.len() + 4 <= usize::MAX,
    ensures
        final(out)@ == old(out)@ + u32_le_bytes(x),
{
    out.push((x & 0xff) as u8);
    out.push(((x >> 8) & 0xff) as u8);
    out.push(((x >> 16) & 0xff) as u8);
    out.push(((x >> 24) & 0xff) as u8);
    proof {
        assert(out@ =~= old(out)@ + u32_le_bytes(x));
    }
}

} // verus!
