//! Access to the operating system's secure random generator.

use vstd::prelude::*;

verus! {

/// `rand::rngs::OsRng`, declared so that a handle to the operating
/// system's secure random generator can stand in signatures.
#[verifier::external_type_specification]
#[verifier::external_body]
pub struct ExOsRng(rand::rngs::OsRng);

/// A handle to an operating-system-backed cryptographically secure
/// random generator.
///
/// Relies on rand's `OsRng`: a stateless handle whose every draw
/// queries the operating system's entropy source directly, so there
/// is no process-wide cached generator state; a draw that the
/// operating system refuses aborts instead of falling back to a
/// weaker generator. Nothing can be promised of the values drawn
/// from the handle.
#[verifier::external_body]
pub fn urandom_rng() -> rand::rngs::OsRng {
    rand::rngs::OsRng
}

} // verus!
