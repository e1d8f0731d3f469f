use vstd::prelude::*;

use crate::flag::bool_to_u8;

verus! {

/// An all-zero mask keeps the first operand, an all-one mask the second; the
/// combination is pure masking, with no branch on either operand.
proof fn lemma_mask_select_u8(m: u8, x: u8, y: u8)
    by (bit_vector)
    ensures
        m == 0 ==> (((0xffu8 ^ m) & x) | (m & y)) == x,
        m == 0xffu8 ==> (((0xffu8 ^ m) & x) | (m & y)) == y,
{
}

/// Selects between two bytes in constant time: `x` when `flag` is true, `y`
/// otherwise.
///
/// The flag's discriminator minus one (wrapping) yields all ones for a false
/// flag and all zeros for a true one, so the masked combination below picks
/// the right operand with straight-line arithmetic. On common backends this
/// lowers to a conditional move, whose cost does not depend on the operands.
pub fn ct_select_u8(flag: bool, x: u8, y: u8) -> (r: u8)
    ensures
        r == (if flag { x } else { y }),
{
    let val: u8 = bool_to_u8(flag);
    let mask: u8 = val.wrapping_sub(1);
    proof {
        assert(mask == (if flag { 0u8 } else { 0xffu8 }));
        lemma_mask_select_u8(mask, x, y);
    }
    ((u8::MAX ^ mask) & x) | (mask & y)
}

proof fn lemma_mask_select_u16(m: u16, x: u16, y: u16)
    by (bit_vector)
    ensures
        m == 0 ==> (((0xffffu16 ^ m) & x) | (m & y)) == x,
        m == 0xffffu16 ==> (((0xffffu16 ^ m) & x) | (m & y)) == y,
{
}

/// Selects between two 16-bit values in constant time.
pub fn ct_select_u16(flag: bool, x: u16, y: u16) -> (r: u16)
    ensures
        r == (if flag { x } else { y }),
{
    let val: u8 = bool_to_u8(flag);
    let wide: u16 = val as u16;
    let mask: u16 = wide.wrapping_sub(1);
    proof {
        assert(mask == (if flag { 0u16 } else { 0xffffu16 }));
        lemma_mask_select_u16(mask, x, y);
    }
    ((u16::MAX ^ mask) & x) | (mask & y)
}

proof fn lemma_mask_select_u32(m: u32, x: u32, y: u32)
    by (bit_vector)
    ensures
        m == 0 ==> (((0xffff_ffffu32 ^ m) & x) | (m & y)) == x,
        m == 0xffff_ffffu32 ==> (((0xffff_ffffu32 ^ m) & x) | (m & y)) == y,
{
}

/// Selects between two 32-bit values in constant time.
pub fn ct_select_u32(flag: bool, x: u32, y: u32) -> (r: u32)
    ensures
        r == (if flag { x } else { y }),
{
    let val: u8 = bool_to_u8(flag);
    let wide: u32 = val as u32;
    let mask: u32 = wide.wrapping_sub(1);
    proof {
        assert(mask == (if flag { 0u32 } else { 0xffff_ffffu32 }));
        lemma_mask_select_u32(mask, x, y);
    }
    ((u32::MAX ^ mask) & x) | (mask & y)
}

proof fn lemma_mask_select_u64(m: u64, x: u64, y: u64)
    by (bit_vector)
    ensures
        m == 0 ==> (((0xffff_ffff_ffff_ffffu64 ^ m) & x) | (m & y)) == x,
        m == 0xffff_ffff_ffff_ffffu64 ==> (((0xffff_ffff_ffff_ffffu64 ^ m) & x) | (m & y)) == y,
{
}

/// Selects between two 64-bit values in constant time.
pub fn ct_select_u64(flag: bool, x: u64, y: u64) -> (r: u64)
    ensures
        r == (if flag { x } else { y }),
{
    let val: u8 = bool_to_u8(flag);
    let wide: u64 = val as u64;
    let mask: u64 = wide.wrapping_sub(1);
    proof {
        assert(mask == (if flag { 0u64 } else { 0xffff_ffff_ffff_ffffu64 }));
        lemma_mask_select_u64(mask, x, y);
    }
    ((u64::MAX ^ mask) & x) | (mask & y)
}

/// Selects between two native words in constant time.
///
/// As with native-word equality, the operands are widened losslessly to 64
/// bits and the 64-bit masking does the work; the widening and narrowing are
/// zero-extensions and truncations of in-range values, free of branches.
pub fn ct_select_usize(flag: bool, x: usize, y: usize) -> (r: usize)
    ensures
        r == (if flag { x } else { y }),
{
    ct_select_u64(flag, x as u64, y as u64) as usize
}

} // verus!
