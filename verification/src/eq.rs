use vstd::prelude::*;

verus! {

/// The SWAR fold collapses "all bits of z are one" into bit 0: after the
/// shift-and-AND ladder, the low bit of the result is 1 exactly when
/// z started as all ones, that is, when x and y were equal.
proof fn lemma_swar_eq_u8(x: u8, y: u8, z0: u8, z1: u8, z2: u8, z3: u8)
    by (bit_vector)
    requires
        z0 == 0xffu8 ^ (x ^ y),
        z1 == z0 & (z0 >> 4u8),
        z2 == z1 & (z1 >> 2u8),
        z3 == z2 & (z2 >> 1u8),
    ensures
        (z3 == 1) <==> (x == y),
{
}

/// Tests two bytes for equality in constant time.
///
/// `z` is all ones exactly when `x == y`; the fold then carries "every bit of
/// `z` is set" down into the low bit without ever branching on the operands.
pub fn ct_u8_eq(x: u8, y: u8) -> (r: bool)
    ensures
        r == (x == y),
{
    let z0: u8 = u8::MAX ^ (x ^ y);
    let z1: u8 = z0 & (z0 >> 4u8);
    let z2: u8 = z1 & (z1 >> 2u8);
    let z3: u8 = z2 & (z2 >> 1u8);
    proof {
        lemma_swar_eq_u8(x, y, z0, z1, z2, z3);
    }
    z3 == 1
}

proof fn lemma_swar_eq_u16(x: u16, y: u16, z0: u16, z1: u16, z2: u16, z3: u16, z4: u16)
    by (bit_vector)
    requires
        z0 == 0xffffu16 ^ (x ^ y),
        z1 == z0 & (z0 >> 8u16),
        z2 == z1 & (z1 >> 4u16),
        z3 == z2 & (z2 >> 2u16),
        z4 == z3 & (z3 >> 1u16),
    ensures
        (z4 == 1) <==> (x == y),
{
}

/// Tests two 16-bit values for equality in constant time.
pub fn ct_u16_eq(x: u16, y: u16) -> (r: bool)
    ensures
        r == (x == y),
{
    let z0: u16 = u16::MAX ^ (x ^ y);
    let z1: u16 = z0 & (z0 >> 8u16);
    let z2: u16 = z1 & (z1 >> 4u16);
    let z3: u16 = z2 & (z2 >> 2u16);
    let z4: u16 = z3 & (z3 >> 1u16);
    proof {
        lemma_swar_eq_u16(x, y, z0, z1, z2, z3, z4);
    }
    z4 == 1
}

proof fn lemma_swar_eq_u32(x: u32, y: u32, z0: u32, z1: u32, z2: u32, z3: u32, z4: u32, z5: u32)
    by (bit_vector)
    requires
        z0 == 0xffff_ffffu32 ^ (x ^ y),
        z1 == z0 & (z0 >> 16u32),
        z2 == z1 & (z1 >> 8u32),
        z3 == z2 & (z2 >> 4u32),
        z4 == z3 & (z3 >> 2u32),
        z5 == z4 & (z4 >> 1u32),
    ensures
        (z5 == 1) <==> (x == y),
{
}

/// Tests two 32-bit values for equality in constant time.
pub fn ct_u32_eq(x: u32, y: u32) -> (r: bool)
    ensures
        r == (x == y),
{
    let z0: u32 = u32::MAX ^ (x ^ y);
    let z1: u32 = z0 & (z0 >> 16u32);
    let z2: u32 = z1 & (z1 >> 8u32);
    let z3: u32 = z2 & (z2 >> 4u32);
    let z4: u32 = z3 & (z3 >> 2u32);
    let z5: u32 = z4 & (z4 >> 1u32);
    proof {
        lemma_swar_eq_u32(x, y, z0, z1, z2, z3, z4, z5);
    }
    z5 == 1
}

proof fn lemma_swar_eq_u64(
    x: u64,
    y: u64,
    z0: u64,
    z1: u64,
    z2: u64,
    z3: u64,
    z4: u64,
    z5: u64,
    z6: u64,
)
    by (bit_vector)
    requires
        z0 == 0xffff_ffff_ffff_ffffu64 ^ (x ^ y),
        z1 == z0 & (z0 >> 32u64),
        z2 == z1 & (z1 >> 16u64),
        z3 == z2 & (z2 >> 8u64),
        z4 == z3 & (z3 >> 4u64),
        z5 == z4 & (z4 >> 2u64),
        z6 == z5 & (z5 >> 1u64),
    ensures
        (z6 == 1) <==> (x == y),
{
}

/// Tests two 64-bit values for equality in constant time.
pub fn ct_u64_eq(x: u64, y: u64) -> (r: bool)
    ensures
        r == (x == y),
{
    let z0: u64 = u64::MAX ^ (x ^ y);
    let z1: u64 = z0 & (z0 >> 32u64);
    let z2: u64 = z1 & (z1 >> 16u64);
    let z3: u64 = z2 & (z2 >> 8u64);
    let z4: u64 = z3 & (z3 >> 4u64);
    let z5: u64 = z4 & (z4 >> 2u64);
    let z6: u64 = z5 & (z5 >> 1u64);
    proof {
        lemma_swar_eq_u64(x, y, z0, z1, z2, z3, z4, z5, z6);
    }
    z6 == 1
}

/// Tests two native words for equality in constant time.
///
/// A native word is at most 64 bits wide, so it is widened losslessly and
/// compared by the 64-bit fold: the widening is a zero-extension, which keeps
/// the instruction sequence independent of the operands on either word size.
pub fn ct_usize_eq(x: usize, y: usize) -> (r: bool)
    ensures
        r == (x == y),
{
    ct_u64_eq(x as u64, y as u64)
}

} // verus!
