//! The digest collaborator: SHA-256, and bit-level access to its output.
//!
//! The scheme signs one message-digest bit per position, reading the digest
//! most-significant-bit first within each byte.

use vstd::prelude::*;

verus! {

/// The SHA-256 digest of a byte sequence. Left uninterpreted: what is known
/// of it is stated by the `sha256` wrapper below, which computes it.
pub uninterp spec fn sha256_of(m: Seq<u8>) -> Seq<u8>;

/// Relies on `sha2::Sha256` through the `Digest::digest` method that `sha2`
/// re-exports: the digest is a function of the input bytes alone, and a
/// SHA-256 output is always 32 bytes long.
#[verifier::external_body]
pub(crate) fn sha256(m: &[u8]) -> (r: Vec<u8>)
    ensures
        r@ == sha256_of(m@),
        r@.len() == 32,
{
    <sha2::Sha256 as sha2::Digest>::digest(m).to_vec()
}

/// Bit `i` of digest `h`, counting the most significant bit of `h[0]` as
/// bit 0.
pub open spec fn digest_bit(h: Seq<u8>, i: int) -> bool {
    (h[i / 8] >> ((7 - (i % 8)) as u8)) & 1 == 1
}

/// Extracts bit `i` of a 32-byte digest, in the order `digest_bit` fixes.
pub(crate) fn bit_at(h: &Vec<u8>, i: usize) -> (b: bool)
    requires
        h@.len() == 32,
        i < 256,
    ensures
        b == digest_bit(h@, i as int),
{
    let byte: u8 = h[i / 8];
    let shift: u8 = (7 - (i % 8)) as u8;
    ((byte >> shift) & 1) == 1
}

/// The digests of every entry of a sequence of byte strings, in order.
pub open spec fn hash_all(s: Seq<Seq<u8>>) -> Seq<Seq<u8>> {
    Seq::new(s.len(), |i: int| sha256_of(s[i]))
}

} // verus!
