use vstd::prelude::*;

use crate::eq::ct_u16_eq;
use crate::eq::ct_u32_eq;
use crate::eq::ct_u64_eq;
use crate::eq::ct_u8_eq;
use crate::eq::ct_usize_eq;

verus! {

/// Folding one more element's difference into the accumulator keeps it zero
/// exactly when every difference folded so far was zero.
proof fn lemma_acc_fold_u8(acc: u8, a: u8, b: u8)
    by (bit_vector)
    ensures
        ((acc | (a ^ b)) == 0) <==> (acc == 0 && a == b),
{
}

/// Tests two byte slices for equality in constant time.
///
/// A length mismatch answers `false` at once: length is public metadata, so
/// that branch leaks nothing. Slices of equal length are compared by visiting
/// every element — never stopping early at a mismatch — and OR-ing each
/// pairwise XOR into one accumulator, which is zero exactly when the slices
/// agree everywhere. The position of a difference therefore never shows in
/// the running time.
pub fn ct_u8_slice_eq(x: &[u8], y: &[u8]) -> (r: bool)
    ensures
        r == (x@ == y@),
{
    let x_len: usize = x.len();
    let y_len: usize = y.len();
    if x_len != y_len {
        return false;
    }
    let mut acc: u8 = 0;
    for i in 0..x_len
        invariant
            x_len == x@.len(),
            x_len == y@.len(),
            (acc == 0) <==> (forall|j: int| 0 <= j < i ==> x@[j] == y@[j]),
    {
        let d: u8 = x[i] ^ y[i];
        proof {
            lemma_acc_fold_u8(acc, x@[i as int], y@[i as int]);
        }
        acc = acc | d;
    }
    let r = ct_u8_eq(acc, 0);
    proof {
        if acc == 0 {
            assert(x@ =~= y@);
        }
    }
    r
}

proof fn lemma_acc_fold_u16(acc: u16, a: u16, b: u16)
    by (bit_vector)
    ensures
        ((acc | (a ^ b)) == 0) <==> (acc == 0 && a == b),
{
}

/// Tests two 16-bit slices for equality in constant time; see
/// [`ct_u8_slice_eq`] for the shape of the traversal.
pub fn ct_u16_slice_eq(x: &[u16], y: &[u16]) -> (r: bool)
    ensures
        r == (x@ == y@),
{
    let x_len: usize = x.len();
    let y_len: usize = y.len();
    if x_len != y_len {
        return false;
    }
    let mut acc: u16 = 0;
    for i in 0..x_len
        invariant
            x_len == x@.len(),
            x_len == y@.len(),
            (acc == 0) <==> (forall|j: int| 0 <= j < i ==> x@[j] == y@[j]),
    {
        let d: u16 = x[i] ^ y[i];
        proof {
            lemma_acc_fold_u16(acc, x@[i as int], y@[i as int]);
        }
        acc = acc | d;
    }
    let r = ct_u16_eq(acc, 0);
    proof {
        if acc == 0 {
            assert(x@ =~= y@);
        }
    }
    r
}

proof fn lemma_acc_fold_u32(acc: u32, a: u32, b: u32)
    by (bit_vector)
    ensures
        ((acc | (a ^ b)) == 0) <==> (acc == 0 && a == b),
{
}

/// Tests two 32-bit slices for equality in constant time; see
/// [`ct_u8_slice_eq`] for the shape of the traversal.
pub fn ct_u32_slice_eq(x: &[u32], y: &[u32]) -> (r: bool)
    ensures
        r == (x@ == y@),
{
    let x_len: usize = x.len();
    let y_len: usize = y.len();
    if x_len != y_len {
        return false;
    }
    let mut acc: u32 = 0;
    for i in 0..x_len
        invariant
            x_len == x@.len(),
            x_len == y@.len(),
            (acc == 0) <==> (forall|j: int| 0 <= j < i ==> x@[j] == y@[j]),
    {
        let d: u32 = x[i] ^ y[i];
        proof {
            lemma_acc_fold_u32(acc, x@[i as int], y@[i as int]);
        }
        acc = acc | d;
    }
    let r = ct_u32_eq(acc, 0);
    proof {
        if acc == 0 {
            assert(x@ =~= y@);
        }
    }
    r
}

proof fn lemma_acc_fold_u64(acc: u64, a: u64, b: u64)
    by (bit_vector)
    ensures
        ((acc | (a ^ b)) == 0) <==> (acc == 0 && a == b),
{
}

/// Tests two 64-bit slices for equality in constant time; see
/// [`ct_u8_slice_eq`] for the shape of the traversal.
pub fn ct_u64_slice_eq(x: &[u64], y: &[u64]) -> (r: bool)
    ensures
        r == (x@ == y@),
{
    let x_len: usize = x.len();
    let y_len: usize = y.len();
    if x_len != y_len {
        return false;
    }
    let mut acc: u64 = 0;
    for i in 0..x_len
        invariant
            x_len == x@.len(),
            x_len == y@.len(),
            (acc == 0) <==> (forall|j: int| 0 <= j < i ==> x@[j] == y@[j]),
    {
        let d: u64 = x[i] ^ y[i];
        proof {
            lemma_acc_fold_u64(acc, x@[i as int], y@[i as int]);
        }
        acc = acc | d;
    }
    let r = ct_u64_eq(acc, 0);
    proof {
        if acc == 0 {
            assert(x@ =~= y@);
        }
    }
    r
}

proof fn lemma_acc_fold_usize(acc: usize, a: usize, b: usize)
    by (bit_vector)
    ensures
        ((acc | (a ^ b)) == 0) <==> (acc == 0 && a == b),
{
}

/// Tests two native-word slices for equality in constant time; see
/// [`ct_u8_slice_eq`] for the shape of the traversal.
pub fn ct_usize_slice_eq(x: &[usize], y: &[usize]) -> (r: bool)
    ensures
        r == (x@ == y@),
{
    let x_len: usize = x.len();
    let y_len: usize = y.len();
    if x_len != y_len {
        return false;
    }
    let mut acc: usize = 0;
    for i in 0..x_len
        invariant
            x_len == x@.len(),
            x_len == y@.len(),
            (acc == 0) <==> (forall|j: int| 0 <= j < i ==> x@[j] == y@[j]),
    {
        let d: usize = x[i] ^ y[i];
        proof {
            lemma_acc_fold_usize(acc, x@[i as int], y@[i as int]);
        }
        acc = acc | d;
    }
    let r = ct_usize_eq(acc, 0);
    proof {
        if acc == 0 {
            assert(x@ =~= y@);
        }
    }
    r
}

} // verus!
