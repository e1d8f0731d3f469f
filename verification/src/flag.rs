use vstd::prelude::*;

verus! {

/// Turns a boolean flag into its 0/1 discriminator byte.
///
/// Every masking operation in this crate starts from this conversion, so it
/// is kept as the one audited boundary between the language's boolean and the
/// arithmetic world. The cast compiles to a plain zero-extension of the
/// boolean's storage byte — no comparison and no branch.
pub fn bool_to_u8(flag: bool) -> (r: u8)
    ensures
        r == (if flag { 1u8 } else { 0u8 }),
{
    flag as u8
}

} // verus!
