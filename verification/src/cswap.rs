//! Constant-time conditional swap.

use vstd::prelude::*;

verus! {

/// The pair of buffer contents after a conditional swap: exchanged
/// when the condition is 1, untouched when it is 0.
pub open spec fn cswap_spec(cond: i8, x: Seq<i8>, y: Seq<i8>) -> (Seq<i8>, Seq<i8>) {
    if cond == 1 {
        (y, x)
    } else {
        (x, y)
    }
}

/// Applying the conditional swap twice with the same condition
/// restores both buffers: the swap is an involution.
pub proof fn lemma_cswap_involution(cond: i8, x: Seq<i8>, y: Seq<i8>)
    requires
        cond == 0 || cond == 1,
    ensures
        ({
            let s = cswap_spec(cond, x, y);
            cswap_spec(cond, s.0, s.1) == (x, y)
        }),
{
}

/// One element step of the masked swap: with an all-zero mask both
/// values keep their places, with an all-ones mask they trade them.
proof fn lemma_cswap_step(c: i8, a: i8, b: i8)
    by (bit_vector)
    ensures
        c == 0i8 ==> (a ^ (c & (a ^ b))) == a && (b ^ (c & (a ^ b))) == b,
        c == -1i8 ==> (a ^ (c & (a ^ b))) == b && (b ^ (c & (a ^ b))) == a,
{
}

/// Conditionally swap two equal-length buffers of signed bytes
/// without branching on the condition.
///
/// The condition must be 0 (leave both buffers unchanged) or 1
/// (exchange their contents element-wise). A mask of all zeros or
/// all ones is built from the condition by a twos-complement trick,
/// and every element position executes the same XOR/AND sequence
/// whatever the condition is.
pub fn bytes_cswap(cond: i8, x: &mut Vec<i8>, y: &mut Vec<i8>)
    requires
        cond == 0 || cond == 1,
        old(x)@.len() == old(y)@.len(),
    ensures
        (final(x)@, final(y)@) == cswap_spec(cond, old(x)@, old(y)@),
        cond == 1 ==> final(x)@ == old(y)@ && final(y)@ == old(x)@,
        cond == 0 ==> final(x)@ == old(x)@ && final(y)@ == old(y)@,
{
    let c: i8 = !(cond - 1);
    proof {
        if cond == 1 {
            assert(!(0i8) == -1i8) by (bit_vector);
        } else {
            assert(!(-1i8) == 0i8) by (bit_vector);
        }
    }
    let n: usize = x.len();
    let mut i: usize = 0;
    while i < n
        invariant
            n == old(x)@.len(),
            n == old(y)@.len(),
            x@.len() == n,
            y@.len() == n,
            i <= n,
            c == (if cond == 1 {
                -1i8
            } else {
                0i8
            }),
            forall|j: int|
                0 <= j < i ==> x@[j] == (if cond == 1 {
                    old(y)@[j]
                } else {
                    old(x)@[j]
                }),
            forall|j: int|
                0 <= j < i ==> y@[j] == (if cond == 1 {
                    old(x)@[j]
                } else {
                    old(y)@[j]
                }),
            forall|j: int| i <= j < n ==> x@[j] == old(x)@[j] && y@[j] == old(y)@[j],
        decreases n - i,
    {
        proof {
            lemma_cswap_step(c, x@[i as int], y@[i as int]);
        }
        let t: i8 = c & (x[i] ^ y[i]);
        x[i] = x[i] ^ t;
        y[i] = y[i] ^ t;
        i = i + 1;
    }
    proof {
        if cond == 1 {
            assert(x@ =~= old(y)@);
            assert(y@ =~= old(x)@);
        } else {
            assert(x@ =~= old(x)@);
            assert(y@ =~= old(y)@);
        }
    }
}

} // verus!
