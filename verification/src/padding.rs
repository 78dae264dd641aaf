//! Padding-size computation for a 16-byte block size.

use vstd::prelude::*;

verus! {

/// Number of filler bytes needed to round `len` up to the next
/// multiple of 16: `(16 - (len % 16)) % 16`, always in `[0, 15]`.
pub open spec fn pad16_len(len: nat) -> nat {
    ((16 - (len % 16)) % 16) as nat
}

/// Zero-valued padding bytes for a message of `len` bytes.
///
/// Returns a buffer of `pad16_len(len)` zero bytes, so that `len`
/// plus the returned length is the shortest multiple of 16 at least
/// as large as `len`.
pub fn pad16(len: usize) -> (r: Vec<u8>)
    ensures
        r@.len() == pad16_len(len as nat),
        forall|i: int| 0 <= i < r@.len() ==> r@[i] == 0u8,
        r@.len() <= 15,
        (len + r@.len()) % 16 == 0,
{
    let n: usize = (16 - (len % 16)) % 16;
    let mut r: Vec<u8> = Vec::new();
    let mut i: usize = 0;
    while i < n
        invariant
            i <= n,
            r@.len() == i,
            forall|j: int| 0 <= j < i ==> r@[j] == 0u8,
        decreases n - i,
    {
        r.push(0u8);
        i = i + 1;
    }
    r
}

} // verus!
