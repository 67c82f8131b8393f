use biscuit_vrf::group::GroupElement;
use biscuit_vrf::signature::{KeyPair, TokenSignature};
use biscuit_vrf::token::Token;
use rand::rngs::StdRng;
use rand::{RngCore, SeedableRng};

fn keypair(rng: &mut StdRng) -> KeyPair {
    let mut wide = [0u8; 64];
    rng.fill_bytes(&mut wide);
    KeyPair::new(&wide)
}

fn three_keypairs() -> (KeyPair, KeyPair, KeyPair) {
    let mut rng: StdRng = SeedableRng::seed_from_u64(0);
    let k1 = keypair(&mut rng);
    let k2 = keypair(&mut rng);
    let k3 = keypair(&mut rng);
    (k1, k2, k3)
}

#[test]
fn three_messages() {
    let mut rng: StdRng = SeedableRng::seed_from_u64(0);

    let message1 = b"hello";
    let keypair1 = keypair(&mut rng);
    let token1 = Token::new(&keypair1, &message1[..]);
    assert!(token1.verify(), "cannot verify first token");

    let message2 = b"world";
    let keypair2 = keypair(&mut rng);
    let token2 = token1.append(&keypair2, &message2[..]);
    assert!(token2.verify(), "cannot verify second token");

    let message3 = b"!!!";
    let keypair3 = keypair(&mut rng);
    let token3 = token2.append(&keypair3, &message3[..]);
    assert!(token3.verify(), "cannot verify third token");
}

#[test]
fn change_message() {
    let mut rng: StdRng = SeedableRng::seed_from_u64(0);

    let message1 = b"hello";
    let keypair1 = keypair(&mut rng);
    let token1 = Token::new(&keypair1, &message1[..]);
    assert!(token1.verify(), "cannot verify first token");

    let message2 = b"world";
    let keypair2 = keypair(&mut rng);
    let mut token2 = token1.append(&keypair2, &message2[..]);
    token2.messages[1] = Vec::from(&b"you"[..]);
    assert!(!token2.verify(), "second token should not be valid");
}

// Verification checks the last challenge only, and an appender recomputes the
// commitments it hashes from the chain as it stands: a chain that was altered
// and then extended verifies again.
#[test]
fn append_after_tampering_verifies_again() {
    let mut rng: StdRng = SeedableRng::seed_from_u64(0);
    let keypair1 = keypair(&mut rng);
    let token1 = Token::new(&keypair1, b"hello");
    let keypair2 = keypair(&mut rng);
    let mut token2 = token1.append(&keypair2, b"world");
    token2.messages[1] = Vec::from(&b"you"[..]);
    assert!(!token2.verify());

    let keypair3 = keypair(&mut rng);
    let token3 = token2.append(&keypair3, b"!!!");
    assert!(token3.verify());

    let mut substituted = token1.append(&keypair2, b"world");
    substituted.keys[0] = keypair3.public();
    assert!(!substituted.verify());
    assert!(substituted.append(&keypair3, b"!!!").verify());
}

#[test]
fn append_keeps_prior_token_and_extends_in_lock_step() {
    let (k1, k2, _) = three_keypairs();
    let token1 = Token::new(&k1, b"hello");
    let token2 = token1.append(&k2, b"world");
    assert_eq!(token1.messages, vec![b"hello".to_vec()]);
    assert_eq!(token1.keys.len(), 1);
    assert!(token1.verify());
    assert_eq!(token2.messages, vec![b"hello".to_vec(), b"world".to_vec()]);
    assert_eq!(token2.keys[0].to_bytes(), k1.public().to_bytes());
    assert_eq!(token2.keys[1].to_bytes(), k2.public().to_bytes());
    assert_eq!(token2.signature.challenges().len(), 2);
    assert!(token2.verify());
}

#[test]
fn long_chain_verifies_at_every_length() {
    let mut rng: StdRng = SeedableRng::seed_from_u64(7);
    let first = keypair(&mut rng);
    let mut token = Token::new(&first, b"link 0");
    assert!(token.verify());
    for i in 1..8u8 {
        let kp = keypair(&mut rng);
        token = token.append(&kp, &[b'l', b'i', b'n', b'k', b' ', b'0' + i]);
        assert!(token.verify());
    }
    assert_eq!(token.keys.len(), 8);
}

#[test]
fn empty_messages_verify() {
    let (k1, k2, _) = three_keypairs();
    let token = Token::new(&k1, b"").append(&k2, b"");
    assert!(token.verify());
}

#[test]
fn same_key_signs_twice() {
    let (k1, _, _) = three_keypairs();
    let token = Token::new(&k1, b"hello").append(&k1, b"hello");
    assert!(token.verify());
}

#[test]
fn tampered_first_message_is_rejected() {
    let (k1, k2, _) = three_keypairs();
    let mut token2 = Token::new(&k1, b"hello").append(&k2, b"world");
    token2.messages[0] = b"hellp".to_vec();
    assert!(!token2.verify());
}

#[test]
fn substituted_key_is_rejected() {
    let (k1, k2, k3) = three_keypairs();
    let mut token2 = Token::new(&k1, b"hello").append(&k2, b"world");
    token2.keys[0] = k3.public();
    assert!(!token2.verify());

    let mut last = Token::new(&k1, b"hello").append(&k2, b"world");
    last.keys[1] = k1.public();
    assert!(!last.verify());
}

#[test]
fn tampered_link_in_three_link_chain_is_rejected() {
    let (k1, k2, k3) = three_keypairs();
    let token3 = Token::new(&k1, b"hello").append(&k2, b"world").append(&k3, b"!!!");
    assert!(token3.verify());
    for i in 0..3 {
        let mut t = token3.append(&k1, b"x");
        t.messages.pop();
        t.keys.pop();
        assert!(!t.verify());
        let mut m = Token::new(&k1, b"hello").append(&k2, b"world").append(&k3, b"!!!");
        m.messages[i].push(b'?');
        assert!(!m.verify());
    }
}

#[test]
fn swapped_links_are_rejected() {
    let (k1, k2, _) = three_keypairs();
    let mut token = Token::new(&k1, b"hello").append(&k2, b"world");
    token.messages.swap(0, 1);
    token.keys.swap(0, 1);
    assert!(!token.verify());
}

#[test]
fn mismatched_lengths_are_rejected() {
    let (k1, k2, _) = three_keypairs();
    let token = Token::new(&k1, b"hello").append(&k2, b"world");
    let sig = &token.signature;
    assert!(sig.verify(&token.keys, &token.messages));
    assert!(!sig.verify(&token.keys[..1], &token.messages));
    assert!(!sig.verify(&token.keys, &token.messages[..1]));
    assert!(!sig.verify(&token.keys[..1], &token.messages[..1]));
    assert!(!sig.verify(&[], &[]));
    let mut longer_keys = token.keys.clone();
    longer_keys.push(k1.public());
    let mut longer_messages = token.messages.clone();
    longer_messages.push(b"again".to_vec());
    assert!(!sig.verify(&longer_keys, &longer_messages));

    let mut dropped = token.append(&k1, b"third");
    dropped.messages.pop();
    assert!(!dropped.verify());
}

#[test]
fn create_is_deterministic() {
    let (k1, _, _) = three_keypairs();
    let a = TokenSignature::new(&k1, b"hello");
    let b = TokenSignature::new(&k1, b"hello");
    assert_eq!(a.gamma_agg().to_bytes(), b.gamma_agg().to_bytes());
    assert_eq!(a.w().to_bytes(), b.w().to_bytes());
    assert_eq!(a.s().to_bytes(), b.s().to_bytes());
    let ca: Vec<[u8; 32]> = a.challenges().iter().map(|c| c.to_bytes()).collect();
    let cb: Vec<[u8; 32]> = b.challenges().iter().map(|c| c.to_bytes()).collect();
    assert_eq!(ca, cb);
    assert_eq!(ca.len(), 1);

    let keys = vec![k1.public()];
    let messages = vec![b"hello".to_vec()];
    assert_eq!(a.verify(&keys, &messages), a.verify(&keys, &messages));
}

#[test]
fn signatures_differ_by_message_and_key() {
    let (k1, k2, _) = three_keypairs();
    let a = TokenSignature::new(&k1, b"hello");
    let b = TokenSignature::new(&k1, b"world");
    let c = TokenSignature::new(&k2, b"hello");
    assert_ne!(a.s().to_bytes(), b.s().to_bytes());
    assert_ne!(a.s().to_bytes(), c.s().to_bytes());
    assert_ne!(a.gamma_agg().to_bytes(), b.gamma_agg().to_bytes());
}

#[test]
fn first_signature_has_identity_accumulator() {
    let (k1, _, _) = three_keypairs();
    let sig = TokenSignature::new(&k1, b"hello");
    assert_eq!(sig.w().to_bytes(), [0u8; 32]);
    let (_, k2, _) = three_keypairs();
    let next = sig.sign(&[k1.public()], &[b"hello".to_vec()], &k2, b"world");
    assert_ne!(next.w().to_bytes(), [0u8; 32]);
    assert_ne!(next.s().to_bytes(), sig.s().to_bytes());
}

#[test]
fn keypair_from_wide_bytes() {
    let zero = KeyPair::new(&[0u8; 64]);
    assert_eq!(zero.public().to_bytes(), [0u8; 32]);
    let mut one_wide = [0u8; 64];
    one_wide[0] = 1;
    let one = KeyPair::new(&one_wide);
    let base = GroupElement::from_bytes(one.public().to_bytes()).unwrap();
    assert_eq!(
        base.to_bytes(),
        [
            0xe2, 0xf2, 0xae, 0x0a, 0x6a, 0xbc, 0x4e, 0x71, 0xa8, 0x84, 0xa9, 0x61, 0xc5, 0x00,
            0x51, 0x5f, 0x58, 0xe3, 0x0b, 0x6a, 0xa5, 0x82, 0xdd, 0x8d, 0xb6, 0xa6, 0x59, 0x45,
            0xe0, 0x8d, 0x2d, 0x76,
        ]
    );
    let (k1, k2, _) = three_keypairs();
    assert_ne!(k1.public().to_bytes(), k2.public().to_bytes());
}

#[test]
fn group_element_decoding() {
    assert!(GroupElement::from_bytes([0xffu8; 32]).is_none());
    let zero = GroupElement::from_bytes([0u8; 32]).unwrap();
    assert_eq!(zero.to_bytes(), [0u8; 32]);
    let (k1, _, _) = three_keypairs();
    let p = k1.public().to_bytes();
    assert_eq!(GroupElement::from_bytes(p).unwrap().to_bytes(), p);
}
