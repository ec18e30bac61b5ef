//! An elliptic-curve blind signature protocol over the Ristretto group.
//!
//! A signer holding a long-term keypair signs a challenge it cannot read:
//! the requester blinds the signer's per-session commitment, obtains a
//! signature share on the blinded challenge, and unblinds that share into a
//! signature triple that verifies against the signer's public key without
//! revealing which session produced it. No transport is provided: the three
//! 32-byte protocol messages and the final 96-byte triple are plain values
//! that the caller moves between the parties.

use vstd::prelude::*;

pub mod group;
pub mod keypair;
pub mod laws;
pub mod protocol;
pub mod request;
pub mod session;
pub mod signature;

verus! {

/// The failures the protocol operations can report.
///
/// Authentication returning `false` is a normal outcome, not an error, and
/// never surfaces through this type.
#[derive(Clone, Copy, Debug, PartialEq, Eq, Structural)]
pub enum Error {
    /// The operating system's secure random source could not be read.
    RngInitFailed,
    /// A 32-byte field that should hold the canonical encoding of a scalar
    /// does not.
    WiredScalarMalformed,
    /// A 32-byte field that should hold the canonical encoding of a curve
    /// point does not.
    WiredRistrettoPointMalformed,
}

} // verus!
