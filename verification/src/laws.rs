//! The scheme's laws, proved from the statements the operations ensure.

use vstd::prelude::*;

verus! {

use crate::NUM_BITS;
use crate::digest::{digest_bit, hash_all, sha256_of};
use crate::keys::{SigningKey, VerifyingKey};
use crate::sig::{selected_parts, signature_valid, Signature};

/// Round trip, over the models: the parts that signing a message selects
/// out of any two full preimage lists are valid under the entry-wise
/// digests of those lists — the verifying key that derivation builds.
pub proof fn lemma_round_trip(zeros: Seq<Seq<u8>>, ones: Seq<Seq<u8>>, m: Seq<u8>)
    requires
        zeros.len() == NUM_BITS,
        ones.len() == NUM_BITS,
    ensures
        signature_valid(hash_all(zeros), hash_all(ones), m, selected_parts(zeros, ones, m)),
{
}

/// Round trip, over the values the operations hand out: a verifying key
/// that `derive` ensures for a well-formed signing key accepts the
/// signature that `sign` ensures for any message, so
/// `verify(derive(k), m, sign(k, m))` returns true.
pub proof fn lemma_round_trip_keys(sk: SigningKey, vk: VerifyingKey, sig: Signature, m: Seq<u8>)
    requires
        sk.wf(),
        vk.zeros() == hash_all(sk.zeros()),
        vk.ones() == hash_all(sk.ones()),
        sig@ == selected_parts(sk.zeros(), sk.ones(), m),
    ensures
        signature_valid(vk.zeros(), vk.ones(), m, sig@),
{
    lemma_round_trip(sk.zeros(), sk.ones(), m);
}

/// Length sensitivity: a signature with any number of parts other than
/// `NUM_BITS` — truncated or extended by however little — is never valid.
pub proof fn lemma_length_sensitivity(
    vk_zeros: Seq<Seq<u8>>,
    vk_ones: Seq<Seq<u8>>,
    m: Seq<u8>,
    parts: Seq<Seq<u8>>,
)
    requires
        parts.len() != NUM_BITS,
    ensures
        !signature_valid(vk_zeros, vk_ones, m, parts),
{
}

/// No partial validity: a single position whose disclosed preimage does not
/// hash to the verifying-key entry that the digest bit selects rejects the
/// whole signature.
pub proof fn lemma_single_mismatch_rejects(
    vk_zeros: Seq<Seq<u8>>,
    vk_ones: Seq<Seq<u8>>,
    m: Seq<u8>,
    parts: Seq<Seq<u8>>,
    i: int,
)
    requires
        0 <= i < NUM_BITS,
        sha256_of(parts[i]) != (if digest_bit(sha256_of(m), i) {
            vk_ones[i]
        } else {
            vk_zeros[i]
        }),
    ensures
        !signature_valid(vk_zeros, vk_ones, m, parts),
{
}

/// Tamper sensitivity, the deterministic part: the signature selected for
/// one message is rejected for another whenever their digests disagree at
/// some bit position whose two verifying-key entries differ.
pub proof fn lemma_differing_digest_bit_rejects(
    zeros: Seq<Seq<u8>>,
    ones: Seq<Seq<u8>>,
    m1: Seq<u8>,
    m2: Seq<u8>,
    i: int,
)
    requires
        zeros.len() == NUM_BITS,
        ones.len() == NUM_BITS,
        0 <= i < NUM_BITS,
        digest_bit(sha256_of(m1), i) != digest_bit(sha256_of(m2), i),
        hash_all(zeros)[i] != hash_all(ones)[i],
    ensures
        !signature_valid(hash_all(zeros), hash_all(ones), m2, selected_parts(zeros, ones, m1)),
{
    lemma_single_mismatch_rejects(
        hash_all(zeros),
        hash_all(ones),
        m2,
        selected_parts(zeros, ones, m1),
        i,
    );
}

/// Determinism of derivation: two verifying keys that both satisfy
/// `derive`'s contract for the same preimage lists are entry-wise
/// identical.
pub proof fn lemma_derive_deterministic(
    zeros: Seq<Seq<u8>>,
    ones: Seq<Seq<u8>>,
    vk1: VerifyingKey,
    vk2: VerifyingKey,
)
    requires
        vk1.zeros() == hash_all(zeros),
        vk1.ones() == hash_all(ones),
        vk2.zeros() == hash_all(zeros),
        vk2.ones() == hash_all(ones),
    ensures
        vk1.zeros() == vk2.zeros(),
        vk1.ones() == vk2.ones(),
{
}

} // verus!
