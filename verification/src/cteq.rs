//! Constant-time equality comparison.
//!
//! Both comparators visit every bit position unconditionally: no
//! branch and no early exit depends on the compared values, so the
//! running time depends only on the buffer length, never on where a
//! difference sits.

use vstd::prelude::*;

verus! {

/// The mask that the byte comparator computes: bitwise NOT of the
/// XOR, folded down by AND with its own right shifts so that bit 0
/// survives exactly when every bit of the XOR was zero.
pub open spec fn byte_eq_mask(x: u8, y: u8) -> u8 {
    let z = !(x ^ y);
    let z1 = z & (z >> 4);
    let z2 = z1 & (z1 >> 2);
    z2 & (z2 >> 1)
}

/// The folded mask is 1 exactly when the two bytes are equal, and 0
/// otherwise.
pub proof fn lemma_byte_eq_mask(x: u8, y: u8)
    by (bit_vector)
    ensures
        byte_eq_mask(x, y) == if x == y {
            1u8
        } else {
            0u8
        },
{
}

/// Accumulating one more XOR difference keeps the accumulator zero
/// exactly when it was zero and the new pair of bytes is equal.
proof fn lemma_or_xor_zero(d: u8, a: u8, b: u8)
    by (bit_vector)
    ensures
        (d | (a ^ b)) == 0 <==> (d == 0 && a == b),
{
}

/// Constant-time byte equality: returns 1 iff `x == y`, 0 otherwise.
///
/// Only XOR, NOT, AND and fixed shifts are executed, never a branch
/// on the operands.
pub fn byte_eq(x: u8, y: u8) -> (r: u8)
    ensures
        r == byte_eq_mask(x, y),
        r == 1 <==> x == y,
        r == 0 || r == 1,
{
    let z: u8 = !(x ^ y);
    let z1: u8 = z & (z >> 4);
    let z2: u8 = z1 & (z1 >> 2);
    let r: u8 = z2 & (z2 >> 1);
    proof {
        lemma_byte_eq_mask(x, y);
    }
    r
}

/// Constant-time buffer equality: true iff `x` and `y` have the same
/// length and the same bytes.
///
/// A length mismatch is rejected up front (the length is not treated
/// as secret). Otherwise every byte position is visited and the XOR
/// differences are OR-accumulated, with no early exit, so the time
/// and access pattern do not depend on where the buffers differ.
pub fn bytes_eq(x: &[u8], y: &[u8]) -> (r: bool)
    ensures
        r <==> x@ == y@,
        x@.len() != y@.len() ==> !r,
{
    if x.len() != y.len() {
        return false;
    }
    let n: usize = x.len();
    let mut d: u8 = 0;
    let mut i: usize = 0;
    while i < n
        invariant
            n == x@.len(),
            n == y@.len(),
            i <= n,
            d == 0 <==> (forall|j: int| 0 <= j < i ==> x@[j] == y@[j]),
        decreases n - i,
    {
        proof {
            lemma_or_xor_zero(d, x@[i as int], y@[i as int]);
        }
        d = d | (x[i] ^ y[i]);
        i = i + 1;
    }
    proof {
        if d == 0 {
            assert(x@ =~= y@);
        }
    }
    byte_eq(d, 0) == 1
}

} // verus!
