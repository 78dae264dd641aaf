//! Side-channel-resistant memory and encoding primitives.
//!
//! Small, stateless building blocks meant to sit beneath higher-level
//! cryptographic constructions: little-endian encode/decode of 32- and
//! 64-bit words, block-padding-size computation, secure zeroing, bulk
//! copying, constant-time equality comparison, constant-time conditional
//! swap, and access to an OS-backed secure random generator.

pub mod cswap;
pub mod cteq;
pub mod endian;
pub mod memory;
pub mod padding;
pub mod rng;

pub use cswap::bytes_cswap;
pub use cteq::byte_eq;
pub use cteq::bytes_eq;
pub use endian::u32to8_le;
pub use endian::u64to8_le;
pub use endian::u8to32_le;
pub use endian::u8to64_le;
pub use memory::copy_slice_memory;
pub use memory::zero_memory;
pub use memory::zero_memory32;
pub use padding::pad16;
pub use rng::urandom_rng;
