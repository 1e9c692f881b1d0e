//! Signatures: the ordered disclosure of one preimage per digest bit, and
//! the spec-level statements of what signing must produce and what
//! verification accepts.

use vstd::prelude::*;

verus! {

use crate::NUM_BITS;
use crate::seq_views;
use crate::digest::{digest_bit, sha256_of};

/// A one-time signature: one disclosed preimage per message-digest bit, in
/// bit order.
#[derive(Clone, Debug, PartialEq, Eq)]
pub struct Signature {
    parts: Vec<Vec<u8>>,
}

impl View for Signature {
    type V = Seq<Seq<u8>>;

    closed spec fn view(&self) -> Seq<Seq<u8>> {
        seq_views(self.parts@)
    }
}

impl Signature {
    /// Wraps an ordered list of disclosed preimages as a signature.
    pub fn from_parts(parts: Vec<Vec<u8>>) -> (sig: Signature)
        ensures
            sig@ == seq_views(parts@),
    {
        Signature { parts }
    }

    /// The number of disclosed preimages.
    pub fn len(&self) -> (n: usize)
        ensures
            n == self@.len(),
    {
        self.parts.len()
    }

    /// The preimage at position `i`.
    pub fn part(&self, i: usize) -> (p: &Vec<u8>)
        requires
            i < self@.len(),
        ensures
            p@ == self@[i as int],
    {
        &self.parts[i]
    }

    /// Gives the ordered preimages back.
    pub fn into_parts(self) -> (parts: Vec<Vec<u8>>)
        ensures
            seq_views(parts@) == self@,
    {
        self.parts
    }
}

/// The preimages that signing a message with digest bits over `m` must
/// disclose: position `i` holds `ones[i]` when digest bit `i` is set, else
/// `zeros[i]`.
pub open spec fn selected_parts(zeros: Seq<Seq<u8>>, ones: Seq<Seq<u8>>, m: Seq<u8>) -> Seq<Seq<u8>> {
    Seq::new(NUM_BITS as nat, |i: int| if digest_bit(sha256_of(m), i) { ones[i] } else { zeros[i] })
}

/// When a signature is accepted under a verifying key: it has exactly
/// `NUM_BITS` parts, and each part hashes to the key entry that the matching
/// digest bit of `m` selects.
pub open spec fn signature_valid(
    vk_zeros: Seq<Seq<u8>>,
    vk_ones: Seq<Seq<u8>>,
    m: Seq<u8>,
    parts: Seq<Seq<u8>>,
) -> bool {
    &&& parts.len() == NUM_BITS
    &&& forall|i: int|
        0 <= i < NUM_BITS ==> sha256_of(#[trigger] parts[i]) == (if digest_bit(sha256_of(m), i) {
            vk_ones[i]
        } else {
            vk_zeros[i]
        })
}

} // verus!
