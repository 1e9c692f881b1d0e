use lamport_ots::{LamportError, Signature, SigningKey, VerifyingKey};

fn fresh_key() -> SigningKey {
    SigningKey::generate().expect("random source available")
}

#[test]
fn hello_world_scenario() {
    let mut sk = fresh_key();
    let vk = VerifyingKey::derive(&sk);
    let m1 = b"Hello, World!";
    let s1 = sk.sign(m1).expect("fresh key signs");
    assert_eq!(s1.len(), 256);
    assert!(vk.verify(m1, &s1));
    assert!(!vk.verify(b"Hello, World?", &s1));
}

#[test]
fn empty_message_round_trip() {
    let mut sk = fresh_key();
    let vk = VerifyingKey::derive(&sk);
    let sig = sk.sign(b"").expect("fresh key signs");
    assert!(vk.verify(b"", &sig));
    assert!(!vk.verify(b"x", &sig));
}

#[test]
fn signature_parts_have_digest_length() {
    let mut sk = fresh_key();
    let sig = sk.sign(b"measure me").expect("fresh key signs");
    let parts = sig.into_parts();
    assert_eq!(parts.len(), 256);
    for part in &parts {
        assert_eq!(part.len(), 32);
    }
}

#[test]
fn tampered_message_rejected() {
    let mut sk = fresh_key();
    let vk = VerifyingKey::derive(&sk);
    let message = b"a short message".to_vec();
    let sig = sk.sign(&message).expect("fresh key signs");
    for byte_index in [0usize, 7, 14] {
        for bit in 0..8u8 {
            let mut tampered = message.clone();
            tampered[byte_index] ^= 1 << bit;
            assert!(!vk.verify(&tampered, &sig));
        }
    }
    assert!(vk.verify(&message, &sig));
}

#[test]
fn tampered_signature_rejected() {
    let mut sk = fresh_key();
    let vk = VerifyingKey::derive(&sk);
    let message = b"do not touch";
    let sig = sk.sign(message).expect("fresh key signs");
    let mut parts = sig.clone().into_parts();
    parts[100][0] ^= 0x80;
    let tampered = Signature::from_parts(parts);
    assert!(!vk.verify(message, &tampered));
    assert!(vk.verify(message, &sig));
}

#[test]
fn truncated_signature_rejected() {
    let mut sk = fresh_key();
    let vk = VerifyingKey::derive(&sk);
    let message = b"one element short";
    let sig = sk.sign(message).expect("fresh key signs");
    let mut parts = sig.into_parts();
    parts.pop();
    let truncated = Signature::from_parts(parts);
    assert_eq!(truncated.len(), 255);
    assert!(!vk.verify(message, &truncated));
}

#[test]
fn extended_signature_rejected() {
    let mut sk = fresh_key();
    let vk = VerifyingKey::derive(&sk);
    let message = b"one element long";
    let sig = sk.sign(message).expect("fresh key signs");
    let mut parts = sig.into_parts();
    parts.push(vec![0u8; 32]);
    let extended = Signature::from_parts(parts);
    assert_eq!(extended.len(), 257);
    assert!(!vk.verify(message, &extended));
}

#[test]
fn empty_signature_rejected() {
    let mut sk = fresh_key();
    let vk = VerifyingKey::derive(&sk);
    let message = b"nothing disclosed";
    sk.sign(message).expect("fresh key signs");
    let empty = Signature::from_parts(Vec::new());
    assert!(!vk.verify(message, &empty));
}

#[test]
fn derivation_deterministic() {
    let sk = fresh_key();
    let vk1 = VerifyingKey::derive(&sk);
    let vk2 = VerifyingKey::derive(&sk);
    assert_eq!(vk1, vk2);
}

#[test]
fn signing_deterministic() {
    let mut sk = fresh_key();
    let sig = sk.sign(b"same message").expect("fresh key signs");
    let again = sig.clone();
    assert_eq!(sig, again);
    assert_eq!(sig.into_parts(), again.into_parts());
}

#[test]
fn second_sign_refused() {
    let mut sk = fresh_key();
    assert!(!sk.is_spent());
    let vk = VerifyingKey::derive(&sk);
    let first = sk.sign(b"first message").expect("fresh key signs");
    assert!(sk.is_spent());
    let second = sk.sign(b"second message");
    assert_eq!(second.unwrap_err(), LamportError::KeyAlreadySpent);
    assert!(vk.verify(b"first message", &first));
}

#[test]
fn cross_key_rejected() {
    let mut sk1 = fresh_key();
    let sk2 = fresh_key();
    let vk2 = VerifyingKey::derive(&sk2);
    let message = b"signed under the first key";
    let sig = sk1.sign(message).expect("fresh key signs");
    assert!(!vk2.verify(message, &sig));
}

#[test]
fn independent_keys_differ() {
    let sk1 = fresh_key();
    let sk2 = fresh_key();
    let vk1 = VerifyingKey::derive(&sk1);
    let vk2 = VerifyingKey::derive(&sk2);
    assert_ne!(vk1, vk2);
}
