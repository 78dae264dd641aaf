//! Secure zeroing and bulk copying of buffers.

use vstd::prelude::*;
use zeroize::Zeroize;

verus! {

/// Overwrite every byte of `b` with zero.
///
/// Relies on zeroize's `Zeroize for [u8]`: it writes `u8::default()`
/// (zero) over every element with volatile semantics, so the stores
/// survive dead-store elimination even when the buffer is never read
/// again; the length is left as it was.
#[verifier::external_body]
pub fn zero_memory(b: &mut Vec<u8>)
    ensures
        final(b)@.len() == old(b)@.len(),
        forall|i: int| 0 <= i < final(b)@.len() ==> final(b)@[i] == 0u8,
{
    b.as_mut_slice().zeroize();
}

/// Overwrite every element of a 32-bit word buffer with zero.
///
/// Relies on zeroize's `Zeroize for [u32]`: it writes
/// `u32::default()` (zero) over every element with volatile
/// semantics, so the stores survive dead-store elimination; the
/// length is left as it was.
#[verifier::external_body]
pub fn zero_memory32(b: &mut Vec<u32>)
    ensures
        final(b)@.len() == old(b)@.len(),
        forall|i: int| 0 <= i < final(b)@.len() ==> final(b)@[i] == 0u32,
{
    b.as_mut_slice().zeroize();
}

/// Copy the first `count` elements of `src` over the first `count`
/// elements of `dst`, leaving the rest of `dst` untouched.
///
/// Both buffers must hold at least `count` elements; the borrow
/// rules already keep the two regions from overlapping.
pub fn copy_slice_memory<T: Copy>(dst: &mut Vec<T>, src: &Vec<T>, count: usize)
    requires
        old(dst)@.len() >= count,
        src@.len() >= count,
    ensures
        final(dst)@.len() == old(dst)@.len(),
        forall|i: int| 0 <= i < count ==> final(dst)@[i] == src@[i],
        forall|i: int| count <= i < old(dst)@.len() ==> final(dst)@[i] == old(dst)@[i],
{
    let mut i: usize = 0;
    while i < count
        invariant
            count <= src@.len(),
            count <= dst@.len(),
            dst@.len() == old(dst)@.len(),
            i <= count,
            forall|j: int| 0 <= j < i ==> dst@[j] == src@[j],
            forall|j: int| i <= j < dst@.len() ==> dst@[j] == old(dst)@[j],
        decreases count - i,
    {
        dst[i] = src[i];
        i = i + 1;
    }
}

} // verus!
