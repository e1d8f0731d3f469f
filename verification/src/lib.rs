//! Constant-time primitive operations over unsigned integers.
//!
//! Every operation here — equality, slice equality, conditional select and
//! conditional copy — is written branch-free in its secret operands: the
//! sequence of arithmetic and logical instructions executed never depends on
//! the *values* being compared, selected or copied, only on public metadata
//! such as slice length. This is the discipline cryptographic code needs to
//! keep secret material from leaking through a timing side channel.
//!
//! Each operation is implemented once per unsigned width (8, 16, 32, 64 bits
//! and the native word), and the [`ConstantTime`] trait dispatches over the
//! width at compile time. The contracts prove functional correctness; the
//! timing uniformity rests on the branch-free shape of the code itself.

use vstd::prelude::*;

mod flag;
mod eq;
mod select;
mod slice_eq;
mod copy;

pub use copy::ct_copy_u16;
pub use copy::ct_copy_u32;
pub use copy::ct_copy_u64;
pub use copy::ct_copy_u8;
pub use copy::ct_copy_usize;
pub use flag::bool_to_u8;
pub use eq::ct_u16_eq;
pub use eq::ct_u32_eq;
pub use eq::ct_u64_eq;
pub use eq::ct_u8_eq;
pub use eq::ct_usize_eq;
pub use select::ct_select_u16;
pub use select::ct_select_u32;
pub use select::ct_select_u64;
pub use select::ct_select_u8;
pub use select::ct_select_usize;
pub use slice_eq::ct_u16_slice_eq;
pub use slice_eq::ct_u32_slice_eq;
pub use slice_eq::ct_u64_slice_eq;
pub use slice_eq::ct_u8_slice_eq;
pub use slice_eq::ct_usize_slice_eq;

verus! {

/// The four constant-time operations, offered uniformly over every supported
/// unsigned width.
///
/// The trait exists only for compile-time dispatch: each method resolves
/// statically to the per-width implementation, adding no runtime branching of
/// its own. Contracts on the methods pin the results down exactly, so code
/// written against the trait proves the same facts as code written against a
/// single width.
pub trait ConstantTime: Sized {
    /// Returns whether `x == y`, visiting both operands branch-free.
    fn ct_eq(x: Self, y: Self) -> (r: bool)
        ensures
            r == (x == y),
    ;

    /// Returns whether the slices have the same length and contents,
    /// visiting every element when the lengths agree.
    fn ct_eq_slice(x: &[Self], y: &[Self]) -> (r: bool)
        ensures
            r == (x@ == y@),
    ;

    /// Returns `x` when `flag` is true and `y` when it is false, by masking
    /// rather than branching.
    fn ct_select(flag: bool, x: Self, y: Self) -> (r: Self)
        ensures
            r == (if flag { x } else { y }),
    ;

    /// Overwrites `x` with `y` when `flag` is true and rewrites `x` with its
    /// own contents when it is false, storing to every position either way.
    fn ct_copy(flag: bool, x: &mut [Self], y: &[Self])
        requires
            old(x)@.len() == y@.len(),
        ensures
            final(x)@ == (if flag { y@ } else { old(x)@ }),
    ;
}

impl ConstantTime for u8 {
    fn ct_eq(x: u8, y: u8) -> (r: bool) {
        ct_u8_eq(x, y)
    }

    fn ct_eq_slice(x: &[u8], y: &[u8]) -> (r: bool) {
        ct_u8_slice_eq(x, y)
    }

    fn ct_select(flag: bool, x: u8, y: u8) -> (r: u8) {
        ct_select_u8(flag, x, y)
    }

    fn ct_copy(flag: bool, x: &mut [u8], y: &[u8]) {
        ct_copy_u8(flag, x, y)
    }
}

impl ConstantTime for u16 {
    fn ct_eq(x: u16, y: u16) -> (r: bool) {
        ct_u16_eq(x, y)
    }

    fn ct_eq_slice(x: &[u16], y: &[u16]) -> (r: bool) {
        ct_u16_slice_eq(x, y)
    }

    fn ct_select(flag: bool, x: u16, y: u16) -> (r: u16) {
        ct_select_u16(flag, x, y)
    }

    fn ct_copy(flag: bool, x: &mut [u16], y: &[u16]) {
        ct_copy_u16(flag, x, y)
    }
}

impl ConstantTime for u32 {
    fn ct_eq(x: u32, y: u32) -> (r: bool) {
        ct_u32_eq(x, y)
    }

    fn ct_eq_slice(x: &[u32], y: &[u32]) -> (r: bool) {
        ct_u32_slice_eq(x, y)
    }

    fn ct_select(flag: bool, x: u32, y: u32) -> (r: u32) {
        ct_select_u32(flag, x, y)
    }

    fn ct_copy(flag: bool, x: &mut [u32], y: &[u32]) {
        ct_copy_u32(flag, x, y)
    }
}

impl ConstantTime for u64 {
    fn ct_eq(x: u64, y: u64) -> (r: bool) {
        ct_u64_eq(x, y)
    }

    fn ct_eq_slice(x: &[u64], y: &[u64]) -> (r: bool) {
        ct_u64_slice_eq(x, y)
    }

    fn ct_select(flag: bool, x: u64, y: u64) -> (r: u64) {
        ct_select_u64(flag, x, y)
    }

    fn ct_copy(flag: bool, x: &mut [u64], y: &[u64]) {
        ct_copy_u64(flag, x, y)
    }
}

impl ConstantTime for usize {
    fn ct_eq(x: usize, y: usize) -> (r: bool) {
        ct_usize_eq(x, y)
    }

    fn ct_eq_slice(x: &[usize], y: &[usize]) -> (r: bool) {
        ct_usize_slice_eq(x, y)
    }

    fn ct_select(flag: bool, x: usize, y: usize) -> (r: usize) {
        ct_select_usize(flag, x, y)
    }

    fn ct_copy(flag: bool, x: &mut [usize], y: &[usize]) {
        ct_copy_usize(flag, x, y)
    }
}

/// Tests two same-width values for equality in constant time.
pub fn ct_eq<T: ConstantTime>(x: T, y: T) -> (r: bool)
    ensures
        r == (x == y),
{
    <T as ConstantTime>::ct_eq(x, y)
}

/// Tests two same-width slices for equality, in time that depends on the
/// public lengths alone, never on where the contents differ.
pub fn ct_eq_slice<T: ConstantTime>(x: &[T], y: &[T]) -> (r: bool)
    ensures
        r == (x@ == y@),
{
    <T as ConstantTime>::ct_eq_slice(x, y)
}

/// Returns `x` when `flag` is true and `y` when it is false, without
/// branching on the flag.
pub fn ct_select<T: ConstantTime>(flag: bool, x: T, y: T) -> (r: T)
    ensures
        r == (if flag { x } else { y }),
{
    <T as ConstantTime>::ct_select(flag, x, y)
}

/// Overwrites `x` with `y` when `flag` is true and leaves it unchanged when
/// it is false, writing every position either way. The slices must have
/// equal length.
pub fn ct_copy<T: ConstantTime>(flag: bool, x: &mut [T], y: &[T])
    requires
        old(x)@.len() == y@.len(),
    ensures
        final(x)@ == (if flag { y@ } else { old(x)@ }),
{
    <T as ConstantTime>::ct_copy(flag, x, y);
}

} // verus!
