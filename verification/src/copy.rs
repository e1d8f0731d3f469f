use vstd::prelude::*;

use crate::select::ct_select_u16;
use crate::select::ct_select_u32;
use crate::select::ct_select_u64;
use crate::select::ct_select_u8;
use crate::select::ct_select_usize;

verus! {

/// Conditionally copies one byte slice over another in constant time.
///
/// When `flag` is true every element of `x` is overwritten with the matching
/// element of `y`; when it is false `x` keeps its contents. Either way every
/// position is written through the masked select, so the store pattern — and
/// with it the running time — is the same whether or not the copy happened.
///
/// The caller must supply slices of equal length: this operation mutates
/// storage, and truncating or partial copies would be silent corruption.
pub fn ct_copy_u8(flag: bool, x: &mut [u8], y: &[u8])
    requires
        old(x)@.len() == y@.len(),
    ensures
        final(x)@ == (if flag { y@ } else { old(x)@ }),
{
    let x_len: usize = x.len();
    for i in 0..x_len
        invariant
            x_len == x@.len(),
            x@.len() == old(x)@.len(),
            y@.len() == old(x)@.len(),
            forall|j: int| 0 <= j < i ==> x@[j] == (if flag { y@[j] } else { old(x)@[j] }),
            forall|j: int| i <= j < x_len ==> x@[j] == old(x)@[j],
    {
        let y_temp: u8 = y[i];
        let x_temp: u8 = x[i];
        x[i] = ct_select_u8(flag, y_temp, x_temp);
    }
    proof {
        if flag {
            assert(x@ =~= y@);
        } else {
            assert(x@ =~= old(x)@);
        }
    }
}

/// Conditionally copies one 16-bit slice over another in constant time; see
/// [`ct_copy_u8`] for the store discipline and the equal-length demand.
pub fn ct_copy_u16(flag: bool, x: &mut [u16], y: &[u16])
    requires
        old(x)@.len() == y@.len(),
    ensures
        final(x)@ == (if flag { y@ } else { old(x)@ }),
{
    let x_len: usize = x.len();
    for i in 0..x_len
        invariant
            x_len == x@.len(),
            x@.len() == old(x)@.len(),
            y@.len() == old(x)@.len(),
            forall|j: int| 0 <= j < i ==> x@[j] == (if flag { y@[j] } else { old(x)@[j] }),
            forall|j: int| i <= j < x_len ==> x@[j] == old(x)@[j],
    {
        let y_temp: u16 = y[i];
        let x_temp: u16 = x[i];
        x[i] = ct_select_u16(flag, y_temp, x_temp);
    }
    proof {
        if flag {
            assert(x@ =~= y@);
        } else {
            assert(x@ =~= old(x)@);
        }
    }
}

/// Conditionally copies one 32-bit slice over another in constant time; see
/// [`ct_copy_u8`] for the store discipline and the equal-length demand.
pub fn ct_copy_u32(flag: bool, x: &mut [u32], y: &[u32])
    requires
        old(x)@.len() == y@.len(),
    ensures
        final(x)@ == (if flag { y@ } else { old(x)@ }),
{
    let x_len: usize = x.len();
    for i in 0..x_len
        invariant
            x_len == x@.len(),
            x@.len() == old(x)@.len(),
            y@.len() == old(x)@.len(),
            forall|j: int| 0 <= j < i ==> x@[j] == (if flag { y@[j] } else { old(x)@[j] }),
            forall|j: int| i <= j < x_len ==> x@[j] == old(x)@[j],
    {
        let y_temp: u32 = y[i];
        let x_temp: u32 = x[i];
        x[i] = ct_select_u32(flag, y_temp, x_temp);
    }
    proof {
        if flag {
            assert(x@ =~= y@);
        } else {
            assert(x@ =~= old(x)@);
        }
    }
}

/// Conditionally copies one 64-bit slice over another in constant time; see
/// [`ct_copy_u8`] for the store discipline and the equal-length demand.
pub fn ct_copy_u64(flag: bool, x: &mut [u64], y: &[u64])
    requires
        old(x)@.len() == y@.len(),
    ensures
        final(x)@ == (if flag { y@ } else { old(x)@ }),
{
    let x_len: usize = x.len();
    for i in 0..x_len
        invariant
            x_len == x@.len(),
            x@.len() == old(x)@.len(),
            y@.len() == old(x)@.len(),
            forall|j: int| 0 <= j < i ==> x@[j] == (if flag { y@[j] } else { old(x)@[j] }),
            forall|j: int| i <= j < x_len ==> x@[j] == old(x)@[j],
    {
        let y_temp: u64 = y[i];
        let x_temp: u64 = x[i];
        x[i] = ct_select_u64(flag, y_temp, x_temp);
    }
    proof {
        if flag {
            assert(x@ =~= y@);
        } else {
            assert(x@ =~= old(x)@);
        }
    }
}

/// Conditionally copies one native-word slice over another in constant time;
/// see [`ct_copy_u8`] for the store discipline and the equal-length demand.
pub fn ct_copy_usize(flag: bool, x: &mut [usize], y: &[usize])
    requires
        old(x)@.len() == y@.len(),
    ensures
        final(x)@ == (if flag { y@ } else { old(x)@ }),
{
    let x_len: usize = x.len();
    for i in 0..x_len
        invariant
            x_len == x@.len(),
            x@.len() == old(x)@.len(),
            y@.len() == old(x)@.len(),
            forall|j: int| 0 <= j < i ==> x@[j] == (if flag { y@[j] } else { old(x)@[j] }),
            forall|j: int| i <= j < x_len ==> x@[j] == old(x)@[j],
    {
        let y_temp: usize = y[i];
        let x_temp: usize = x[i];
        x[i] = ct_select_usize(flag, y_temp, x_temp);
    }
    proof {
        if flag {
            assert(x@ =~= y@);
        } else {
            assert(x@ =~= old(x)@);
        }
    }
}

} // verus!
