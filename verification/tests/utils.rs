use rand::RngCore;

use ctutils::byte_eq;
use ctutils::bytes_cswap;
use ctutils::bytes_eq;
use ctutils::copy_slice_memory;
use ctutils::pad16;
use ctutils::u32to8_le;
use ctutils::u64to8_le;
use ctutils::u8to32_le;
use ctutils::u8to64_le;
use ctutils::urandom_rng;
use ctutils::zero_memory;
use ctutils::zero_memory32;

#[test]
fn test_zero_memory() {
    let one = vec![1u32; 16];
    let zero = vec![0u32; 16];
    let mut x = vec![1u32; 16];
    assert!(x == one);
    zero_memory32(&mut x);
    assert!(x == zero);
}

#[test]
fn test_zero_memory_bytes() {
    let mut b = vec![0xabu8; 33];
    zero_memory(&mut b);
    assert_eq!(b.len(), 33);
    for &v in b.iter() {
        assert_eq!(v, 0u8);
    }
}

#[test]
fn test_byte_eq() {
    let mut rng = urandom_rng();
    for _ in 0..256 {
        let mut pair = [0u8; 2];
        rng.fill_bytes(&mut pair);
        let (a, b) = (pair[0], pair[1]);
        assert_eq!(byte_eq(a, b) == 1, a == b);
    }
}

#[test]
fn test_byte_eq_exhaustive() {
    for a in 0..=255u8 {
        for b in 0..=255u8 {
            let r = byte_eq(a, b);
            assert!(r == 0 || r == 1);
            assert_eq!(r == 1, a == b);
        }
    }
}

#[test]
fn test_bytes_eq() {
    let a = [0u8; 64];
    let b = [0u8; 64];
    assert!(bytes_eq(&a, &b));

    let mut rng = urandom_rng();
    for _ in 0..256 {
        let mut a = vec![0u8; 64];
        rng.fill_bytes(&mut a);
        let mut b = vec![0u8; 64];
        rng.fill_bytes(&mut b);
        assert_eq!(bytes_eq(&a, &b), a == b);
    }
}

#[test]
fn test_bytes_eq_difference_position() {
    // A single flipped byte is found wherever it sits: front,
    // middle or end of the buffer.
    let base = vec![0x5au8; 64];
    for pos in [0usize, 31, 63] {
        let mut other = base.clone();
        other[pos] ^= 0x01;
        assert!(!bytes_eq(&base, &other));
        assert!(!bytes_eq(&other, &base));
        other[pos] ^= 0x01;
        assert!(bytes_eq(&base, &other));
    }
}

#[test]
fn test_bytes_eq_length_mismatch() {
    let a = vec![7u8; 16];
    let b = vec![7u8; 15];
    assert!(!bytes_eq(&a, &b));
    assert!(!bytes_eq(&b, &a));
    let empty: Vec<u8> = Vec::new();
    assert!(bytes_eq(&empty, &empty));
    assert!(!bytes_eq(&a, &empty));
}

#[test]
fn test_bytes_cswap() {
    let mut a1 = vec![0i8; 64];
    let a2 = a1.clone();
    let mut b1 = vec![1i8; 64];
    let b2 = b1.clone();

    bytes_cswap(0, &mut a1, &mut b1);
    assert!(a1 == a2);
    assert!(b1 == b2);

    bytes_cswap(1, &mut a1, &mut b1);
    assert!(a1 == b2);
    assert!(b1 == a2);
}

#[test]
fn test_bytes_cswap_involution() {
    let x0: Vec<i8> = (0..48).map(|i| (i * 5 - 100) as i8).collect();
    let y0: Vec<i8> = (0..48).map(|i| (77 - i * 3) as i8).collect();
    let mut x = x0.clone();
    let mut y = y0.clone();

    bytes_cswap(1, &mut x, &mut y);
    assert!(x == y0 && y == x0);
    bytes_cswap(1, &mut x, &mut y);
    assert!(x == x0 && y == y0);

    bytes_cswap(0, &mut x, &mut y);
    bytes_cswap(0, &mut x, &mut y);
    assert!(x == x0 && y == y0);
}

#[test]
fn test_copy_slice() {
    let a = vec![42i64; 64];
    let mut b = vec![0i64; 64];

    assert!(a != b);
    copy_slice_memory(&mut b, &a, 64);
    assert!(a == b);
}

#[test]
fn test_copy_slice_partial() {
    let src = vec![9u8, 8, 7, 6];
    let mut dst = vec![0u8; 6];
    copy_slice_memory(&mut dst, &src, 3);
    assert_eq!(dst, vec![9u8, 8, 7, 0, 0, 0]);
}

#[test]
fn test_pad16() {
    assert!(pad16(0).len() == 0);
    assert!(pad16(16).len() == 0);
    assert!(pad16(1).len() == 15);
    assert!(pad16(15).len() == 1);
    assert!(pad16(42).len() == 6);
}

#[test]
fn test_pad16_rounds_up_to_block() {
    for len in 0..100usize {
        let pad = pad16(len);
        assert!(pad.len() <= 15);
        assert_eq!((len + pad.len()) % 16, 0);
        for &v in pad.iter() {
            assert_eq!(v, 0u8);
        }
    }
}

#[test]
fn test_u32_le_round_trip() {
    for &w in &[0u32, 1, 0x0A0B0C0D, 0xFFFF_FFFF, 0x8000_0001] {
        let mut buf = vec![0u8; 4];
        u32to8_le(&mut buf, &w);
        let mut back: u32 = 0;
        u8to32_le(&mut back, &buf);
        assert_eq!(back, w);
    }
}

#[test]
fn test_u32_le_exact_bytes() {
    let w: u32 = 0x0A0B0C0D;
    let mut buf = vec![0xEEu8; 6];
    u32to8_le(&mut buf, &w);
    assert_eq!(buf, vec![0x0D, 0x0C, 0x0B, 0x0A, 0xEE, 0xEE]);
}

#[test]
fn test_u32_le_decode_accumulates() {
    // Decode ORs into the destination, so a non-zero accumulator
    // keeps its bits.
    let buf = vec![0x01u8, 0x00, 0x00, 0x00];
    let mut val: u32 = 0xF000_0000;
    u8to32_le(&mut val, &buf);
    assert_eq!(val, 0xF000_0001);
}

#[test]
fn test_u64_le_round_trip() {
    for &w in &[0u64, 1, 0x0102_0304_0506_0708, u64::MAX, 0x8000_0000_0000_0001] {
        let mut buf = vec![0u8; 8];
        u64to8_le(&mut buf, &w);
        let mut back: u64 = 0;
        u8to64_le(&mut back, &buf);
        assert_eq!(back, w);
    }
}

#[test]
fn test_u64_le_exact_bytes() {
    let w: u64 = 0x0102_0304_0506_0708;
    let mut buf = vec![0u8; 10];
    u64to8_le(&mut buf, &w);
    assert_eq!(buf, vec![0x08, 0x07, 0x06, 0x05, 0x04, 0x03, 0x02, 0x01, 0x00, 0x00]);
}

#[test]
fn test_urandom_rng_draws_differ() {
    // Statistical smoke test only: independent handles and
    // successive draws from one handle must not repeat a 32-byte
    // block, which a deterministic or correlated source would.
    let mut g1 = urandom_rng();
    let mut g2 = urandom_rng();
    let mut a = [0u8; 32];
    let mut b = [0u8; 32];
    g1.fill_bytes(&mut a);
    g2.fill_bytes(&mut b);
    assert_ne!(a, b);

    let mut c = [0u8; 32];
    g1.fill_bytes(&mut c);
    assert_ne!(a, c);
    assert!(a.iter().any(|&v| v != 0) || c.iter().any(|&v| v != 0));
}
