//! Key material and the scheme's four operations: key generation, key
//! derivation, signing, and verification.

use vstd::prelude::*;

verus! {

use crate::{NUM_BITS, SECRET_LEN, seq_views};
use crate::digest::{bit_at, digest_bit, hash_all, sha256, sha256_of};
use crate::sig::{selected_parts, signature_valid, Signature};

/// The failures the scheme reports.
#[derive(Clone, Copy, Debug, PartialEq, Eq, Structural)]
pub enum LamportError {
    /// The secure random source failed while key material was drawn.
    GenerationFailure,
    /// The signing key has already produced a signature.
    KeyAlreadySpent,
}

/// The secret half of a key pair: `NUM_BITS` zero-preimages and `NUM_BITS`
/// one-preimages, each `SECRET_LEN` random bytes, and a flag that records
/// whether the key has signed. A key signs at most once.
pub struct SigningKey {
    zero: Vec<Vec<u8>>,
    one: Vec<Vec<u8>>,
    used: bool,
}

/// The public half of a key pair: the digest of every preimage of the
/// signing key it was derived from, position and side preserved. Immutable
/// and free of secret material.
#[derive(Clone, Debug, PartialEq, Eq)]
pub struct VerifyingKey {
    zero: Vec<Vec<u8>>,
    one: Vec<Vec<u8>>,
}

/// Relies on `rand::rngs::OsRng` through `rand_core::RngCore::try_fill_bytes`:
/// draws bytes from the operating system's secure random source, or reports
/// that source's failure. Nothing is assumed about the bytes drawn.
#[verifier::external_body]
fn os_random_bytes(n: usize) -> (r: Option<Vec<u8>>)
    ensures
        r is Some ==> r->0@.len() == n,
{
    let mut buf = vec![0u8; n];
    match rand::RngCore::try_fill_bytes(&mut rand::rngs::OsRng, &mut buf) {
        Ok(()) => Some(buf),
        Err(_) => None,
    }
}

/// Copies a byte vector.
fn copy_bytes(v: &Vec<u8>) -> (r: Vec<u8>)
    ensures
        r@ == v@,
{
    let mut r: Vec<u8> = Vec::new();
    let mut i: usize = 0;
    while i < v.len()
        invariant
            i <= v@.len(),
            r@.len() == i,
            forall|j: int| 0 <= j < i ==> r@[j] == v@[j],
        decreases v@.len() - i,
    {
        r.push(v[i]);
        i = i + 1;
    }
    proof {
        assert(r@ =~= v@);
    }
    r
}

/// Compares two byte strings. Every byte position contributes to the
/// outcome; no position short-circuits the comparison.
fn bytes_eq(a: &Vec<u8>, b: &Vec<u8>) -> (r: bool)
    ensures
        r == (a@ == b@),
{
    if a.len() != b.len() {
        return false;
    }
    let mut diff: u8 = 0;
    let mut i: usize = 0;
    while i < a.len()
        invariant
            i <= a@.len(),
            a@.len() == b@.len(),
            (diff == 0) <==> (forall|j: int| 0 <= j < i ==> a@[j] == b@[j]),
        decreases a@.len() - i,
    {
        let x: u8 = a[i];
        let y: u8 = b[i];
        let combined: u8 = diff | (x ^ y);
        proof {
            assert((combined == 0) <==> (diff == 0 && x == y)) by (bit_vector)
                requires
                    combined == (diff | (x ^ y)),
            ;
        }
        diff = combined;
        i = i + 1;
    }
    if diff == 0 {
        proof {
            assert(a@ =~= b@);
        }
        true
    } else {
        false
    }
}

impl SigningKey {
    /// The zero-preimages, as byte sequences.
    pub closed spec fn zeros(self) -> Seq<Seq<u8>> {
        seq_views(self.zero@)
    }

    /// The one-preimages, as byte sequences.
    pub closed spec fn ones(self) -> Seq<Seq<u8>> {
        seq_views(self.one@)
    }

    /// Whether the key has already produced a signature.
    pub closed spec fn spent(self) -> bool {
        self.used
    }

    /// Well-formed: `NUM_BITS` preimages on each side, each `SECRET_LEN`
    /// bytes long.
    pub open spec fn wf(self) -> bool {
        &&& self.zeros().len() == NUM_BITS
        &&& self.ones().len() == NUM_BITS
        &&& forall|i: int| 0 <= i < NUM_BITS ==> (#[trigger] self.zeros()[i]).len() == SECRET_LEN
        &&& forall|i: int| 0 <= i < NUM_BITS ==> (#[trigger] self.ones()[i]).len() == SECRET_LEN
    }

    /// Draws a fresh signing key from the operating system's secure random
    /// source. Fails only when that source fails, and then reports
    /// `GenerationFailure`.
    pub fn generate() -> (r: Result<SigningKey, LamportError>)
        ensures
            r is Ok ==> r->Ok_0.wf() && !r->Ok_0.spent(),
            r is Err ==> r->Err_0 == LamportError::GenerationFailure,
    {
        let mut zero: Vec<Vec<u8>> = Vec::new();
        let mut one: Vec<Vec<u8>> = Vec::new();
        let mut i: usize = 0;
        while i < NUM_BITS
            invariant
                i <= NUM_BITS,
                zero@.len() == i,
                one@.len() == i,
                forall|j: int| 0 <= j < i ==> (#[trigger] zero@[j])@.len() == SECRET_LEN,
                forall|j: int| 0 <= j < i ==> (#[trigger] one@[j])@.len() == SECRET_LEN,
            decreases NUM_BITS - i,
        {
            let z = match os_random_bytes(SECRET_LEN) {
                Some(v) => v,
                None => {
                    return Err(LamportError::GenerationFailure);
                },
            };
            let o = match os_random_bytes(SECRET_LEN) {
                Some(v) => v,
                None => {
                    return Err(LamportError::GenerationFailure);
                },
            };
            zero.push(z);
            one.push(o);
            i = i + 1;
        }
        Ok(SigningKey { zero, one, used: false })
    }

    /// Whether the key has already signed.
    pub fn is_spent(&self) -> (b: bool)
        ensures
            b == self.spent(),
    {
        self.used
    }

    /// Signs a message: disclose, for each bit of the message digest, the
    /// preimage that the bit selects, and spend the key. A spent key is left
    /// unchanged and refuses with `KeyAlreadySpent`; a fresh key always
    /// succeeds.
    pub fn sign(&mut self, message: &[u8]) -> (r: Result<Signature, LamportError>)
        requires
            old(self).wf(),
        ensures
            final(self).wf(),
            final(self).zeros() == old(self).zeros(),
            final(self).ones() == old(self).ones(),
            final(self).spent(),
            old(self).spent() ==> r is Err && r->Err_0 == LamportError::KeyAlreadySpent,
            !old(self).spent() ==> r is Ok && r->Ok_0@ == selected_parts(
                old(self).zeros(),
                old(self).ones(),
                message@,
            ),
    {
        if self.used {
            return Err(LamportError::KeyAlreadySpent);
        }
        let sig = select_signature(&self.zero, &self.one, message);
        self.used = true;
        Ok(sig)
    }
}

/// Builds the signature for `message` out of the preimage lists: position
/// `i` discloses `one[i]` when digest bit `i` is set, else `zero[i]`.
fn select_signature(zero: &Vec<Vec<u8>>, one: &Vec<Vec<u8>>, message: &[u8]) -> (sig: Signature)
    requires
        zero@.len() == NUM_BITS,
        one@.len() == NUM_BITS,
    ensures
        sig@ == selected_parts(seq_views(zero@), seq_views(one@), message@),
{
    let h = sha256(message);
    let mut parts: Vec<Vec<u8>> = Vec::new();
    let mut i: usize = 0;
    while i < NUM_BITS
        invariant
            i <= NUM_BITS,
            h@ == sha256_of(message@),
            h@.len() == 32,
            zero@.len() == NUM_BITS,
            one@.len() == NUM_BITS,
            parts@.len() == i,
            forall|j: int|
                0 <= j < i ==> (#[trigger] parts@[j])@ == (if digest_bit(sha256_of(message@), j) {
                    one@[j]@
                } else {
                    zero@[j]@
                }),
        decreases NUM_BITS - i,
    {
        let bit = bit_at(&h, i);
        let part = if bit {
            copy_bytes(&one[i])
        } else {
            copy_bytes(&zero[i])
        };
        parts.push(part);
        i = i + 1;
    }
    let sig = Signature::from_parts(parts);
    proof {
        assert(sig@ =~= selected_parts(seq_views(zero@), seq_views(one@), message@));
    }
    sig
}

impl VerifyingKey {
    /// The digests of the zero-preimages.
    pub closed spec fn zeros(self) -> Seq<Seq<u8>> {
        seq_views(self.zero@)
    }

    /// The digests of the one-preimages.
    pub closed spec fn ones(self) -> Seq<Seq<u8>> {
        seq_views(self.one@)
    }

    /// Well-formed: `NUM_BITS` entries on each side.
    pub open spec fn wf(self) -> bool {
        &&& self.zeros().len() == NUM_BITS
        &&& self.ones().len() == NUM_BITS
    }

    /// Derives the verifying key of a signing key: the digest of every
    /// preimage, position and side preserved. Deterministic — the result is
    /// fixed by the signing key's preimages alone — and leaves the signing
    /// key untouched.
    pub fn derive(sk: &SigningKey) -> (vk: VerifyingKey)
        requires
            sk.wf(),
        ensures
            vk.wf(),
            vk.zeros() == hash_all(sk.zeros()),
            vk.ones() == hash_all(sk.ones()),
    {
        let mut zero: Vec<Vec<u8>> = Vec::new();
        let mut one: Vec<Vec<u8>> = Vec::new();
        let mut i: usize = 0;
        while i < NUM_BITS
            invariant
                i <= NUM_BITS,
                sk.zero@.len() == NUM_BITS,
                sk.one@.len() == NUM_BITS,
                zero@.len() == i,
                one@.len() == i,
                forall|j: int| 0 <= j < i ==> (#[trigger] zero@[j])@ == sha256_of(sk.zero@[j]@),
                forall|j: int| 0 <= j < i ==> (#[trigger] one@[j])@ == sha256_of(sk.one@[j]@),
            decreases NUM_BITS - i,
        {
            zero.push(sha256(sk.zero[i].as_slice()));
            one.push(sha256(sk.one[i].as_slice()));
            i = i + 1;
        }
        let vk = VerifyingKey { zero, one };
        proof {
            assert(vk.zeros() =~= hash_all(sk.zeros()));
            assert(vk.ones() =~= hash_all(sk.ones()));
        }
        vk
    }

    /// Checks a signature: accepted exactly when it holds one preimage per
    /// digest bit of `message` and each preimage hashes to the entry that
    /// the bit selects. Every position is compared; no mismatch
    /// short-circuits the scan.
    pub fn verify(&self, message: &[u8], signature: &Signature) -> (b: bool)
        requires
            self.wf(),
        ensures
            b == signature_valid(self.zeros(), self.ones(), message@, signature@),
    {
        if signature.len() != NUM_BITS {
            return false;
        }
        let h = sha256(message);
        let mut ok: bool = true;
        let mut i: usize = 0;
        while i < NUM_BITS
            invariant
                i <= NUM_BITS,
                h@ == sha256_of(message@),
                h@.len() == 32,
                self.zero@.len() == NUM_BITS,
                self.one@.len() == NUM_BITS,
                signature@.len() == NUM_BITS,
                ok == (forall|j: int|
                    0 <= j < i ==> sha256_of(#[trigger] signature@[j]) == (if digest_bit(
                        sha256_of(message@),
                        j,
                    ) {
                        self.one@[j]@
                    } else {
                        self.zero@[j]@
                    })),
            decreases NUM_BITS - i,
        {
            let bit = bit_at(&h, i);
            let expected = sha256(signature.part(i).as_slice());
            let entry: &Vec<u8> = if bit {
                &self.one[i]
            } else {
                &self.zero[i]
            };
            let eq = bytes_eq(&expected, entry);
            ok = ok && eq;
            i = i + 1;
        }
        ok
    }
}

} // verus!
