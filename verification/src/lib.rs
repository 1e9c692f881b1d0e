//! A Lamport one-time signature scheme over the SHA-256 digest.
//!
//! A signing key holds two lists of 256 secret 32-byte preimages; the
//! verifying key holds their digests. Signing a message discloses, for each
//! bit of the message digest, one preimage of the matching list; verification
//! re-hashes the disclosed preimages and compares them against the verifying
//! key. A signing key may sign at most once.

use vstd::prelude::*;

pub mod digest;
pub mod keys;
pub mod laws;
pub mod sig;

pub use keys::{LamportError, SigningKey, VerifyingKey};
pub use sig::Signature;

verus! {

/// The views of every entry of a vector of byte vectors, in order.
pub open spec fn seq_views(s: Seq<Vec<u8>>) -> Seq<Seq<u8>> {
    Seq::new(s.len(), |i: int| s[i]@)
}

/// Number of message-digest bits that are signed independently: one per bit
/// of a SHA-256 output.
pub const NUM_BITS: usize = 256;

/// Length in bytes of each secret preimage, matching the digest length.
pub const SECRET_LEN: usize = 32;

} // verus!
