//! Little-endian encoding and decoding of 32- and 64-bit words.

use vstd::prelude::*;

verus! {

/// The 32-bit word encoded by the first four bytes of `s`, read in
/// little-endian order.
pub open spec fn word32_of_le(s: Seq<u8>) -> u32
    recommends
        s.len() >= 4,
{
    (s[0] as u32) | ((s[1] as u32) << 8) | ((s[2] as u32) << 16) | ((s[3] as u32) << 24)
}

/// The four bytes of a 32-bit word, in little-endian order.
pub open spec fn le_bytes_of_word32(w: u32) -> Seq<u8> {
    seq![w as u8, (w >> 8) as u8, (w >> 16) as u8, (w >> 24) as u8]
}

/// The 64-bit word encoded by the first eight bytes of `s`, read in
/// little-endian order.
pub open spec fn word64_of_le(s: Seq<u8>) -> u64
    recommends
        s.len() >= 8,
{
    (s[0] as u64) | ((s[1] as u64) << 8) | ((s[2] as u64) << 16) | ((s[3] as u64) << 24)
        | ((s[4] as u64) << 32) | ((s[5] as u64) << 40) | ((s[6] as u64) << 48)
        | ((s[7] as u64) << 56)
}

/// The eight bytes of a 64-bit word, in little-endian order.
pub open spec fn le_bytes_of_word64(w: u64) -> Seq<u8> {
    seq![
        w as u8,
        (w >> 8) as u8,
        (w >> 16) as u8,
        (w >> 24) as u8,
        (w >> 32) as u8,
        (w >> 40) as u8,
        (w >> 48) as u8,
        (w >> 56) as u8,
    ]
}

/// Little-endian decode of the first four bytes of `buf` into `val`.
///
/// The decoded word is accumulated into `val` by bitwise OR, so a
/// caller that wants the plain decoded value must pass `val` holding
/// zero.
pub fn u8to32_le(val: &mut u32, buf: &[u8])
    requires
        buf@.len() >= 4,
    ensures
        *final(val) == *old(val) | word32_of_le(buf@),
        *old(val) == 0 ==> *final(val) == word32_of_le(buf@),
{
    let w: u32 = (buf[0] as u32) | ((buf[1] as u32) << 8) | ((buf[2] as u32) << 16)
        | ((buf[3] as u32) << 24);
    proof {
        assert(0u32 | w == w) by (bit_vector);
    }
    *val = *val | w;
}

/// Little-endian encode of `val` into the first four bytes of `buf`;
/// any bytes past the fourth are left untouched.
pub fn u32to8_le(buf: &mut Vec<u8>, val: &u32)
    requires
        old(buf)@.len() >= 4,
    ensures
        final(buf)@.len() == old(buf)@.len(),
        final(buf)@.subrange(0, 4) == le_bytes_of_word32(*val),
        forall|i: int| 4 <= i < old(buf)@.len() ==> final(buf)@[i] == old(buf)@[i],
{
    buf[0] = *val as u8;
    buf[1] = (*val >> 8) as u8;
    buf[2] = (*val >> 16) as u8;
    buf[3] = (*val >> 24) as u8;
    proof {
        assert(buf@.subrange(0, 4) =~= le_bytes_of_word32(*val));
    }
}

/// Little-endian decode of the first eight bytes of `buf` into `val`.
///
/// The decoded word is accumulated into `val` by bitwise OR, so a
/// caller that wants the plain decoded value must pass `val` holding
/// zero.
pub fn u8to64_le(val: &mut u64, buf: &[u8])
    requires
        buf@.len() >= 8,
    ensures
        *final(val) == *old(val) | word64_of_le(buf@),
        *old(val) == 0 ==> *final(val) == word64_of_le(buf@),
{
    let w: u64 = (buf[0] as u64) | ((buf[1] as u64) << 8) | ((buf[2] as u64) << 16)
        | ((buf[3] as u64) << 24) | ((buf[4] as u64) << 32) | ((buf[5] as u64) << 40)
        | ((buf[6] as u64) << 48) | ((buf[7] as u64) << 56);
    proof {
        assert(0u64 | w == w) by (bit_vector);
    }
    *val = *val | w;
}

/// Little-endian encode of `val` into the first eight bytes of `buf`;
/// any bytes past the eighth are left untouched.
pub fn u64to8_le(buf: &mut Vec<u8>, val: &u64)
    requires
        old(buf)@.len() >= 8,
    ensures
        final(buf)@.len() == old(buf)@.len(),
        final(buf)@.subrange(0, 8) == le_bytes_of_word64(*val),
        forall|i: int| 8 <= i < old(buf)@.len() ==> final(buf)@[i] == old(buf)@[i],
{
    buf[0] = *val as u8;
    buf[1] = (*val >> 8) as u8;
    buf[2] = (*val >> 16) as u8;
    buf[3] = (*val >> 24) as u8;
    buf[4] = (*val >> 32) as u8;
    buf[5] = (*val >> 40) as u8;
    buf[6] = (*val >> 48) as u8;
    buf[7] = (*val >> 56) as u8;
    proof {
        assert(buf@.subrange(0, 8) =~= le_bytes_of_word64(*val));
    }
}

/// Decoding the little-endian bytes of a 32-bit word yields the word
/// back: the encode/decode pair is a round trip.
pub proof fn lemma_u32_le_round_trip(w: u32)
    ensures
        word32_of_le(le_bytes_of_word32(w)) == w,
{
    let s = le_bytes_of_word32(w);
    assert(s[0] == w as u8 && s[1] == (w >> 8) as u8 && s[2] == (w >> 16) as u8 && s[3] == (w
        >> 24) as u8);
    assert((w as u8 as u32) | (((w >> 8) as u8 as u32) << 8) | (((w >> 16) as u8 as u32) << 16) | (
    ((w >> 24) as u8 as u32) << 24) == w) by (bit_vector);
}

/// Decoding the little-endian bytes of a 64-bit word yields the word
/// back: the encode/decode pair is a round trip.
pub proof fn lemma_u64_le_round_trip(w: u64)
    ensures
        word64_of_le(le_bytes_of_word64(w)) == w,
{
    let s = le_bytes_of_word64(w);
    assert(s[0] == w as u8 && s[1] == (w >> 8) as u8 && s[2] == (w >> 16) as u8 && s[3] == (w
        >> 24) as u8 && s[4] == (w >> 32) as u8 && s[5] == (w >> 40) as u8 && s[6] == (w
        >> 48) as u8 && s[7] == (w >> 56) as u8);
    assert((w as u8 as u64) | (((w >> 8) as u8 as u64) << 8) | (((w >> 16) as u8 as u64) << 16) | (
    ((w >> 24) as u8 as u64) << 24) | (((w >> 32) as u8 as u64) << 32) | (((w >> 40) as u8 as u64)
        << 40) | (((w >> 48) as u8 as u64) << 48) | (((w >> 56) as u8 as u64) << 56) == w)
        by (bit_vector);
}

} // verus!
