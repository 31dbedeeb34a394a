use dhcrypt::{
    decrypt, derive_symmetric_key, encrypt, key_from_slice, keygen, keypair_from_private, open,
    seal, seal_with_nonce, CryptoError,
};

fn hex(s: &str) -> Vec<u8> {
    (0..s.len())
        .step_by(2)
        .map(|i| u8::from_str_radix(&s[i..i + 2], 16).unwrap())
        .collect()
}

fn key32(s: &str) -> [u8; 32] {
    hex(s).try_into().unwrap()
}

const ALICE_SK: &str = "77076d0a7318a57d3c16c17251b26645df4c2f87ebc0992ab177fba51db92c2a";
const ALICE_PK: &str = "8520f0098930a754748b7ddcb43ef75a0dbf3a0d26381af4eba4a98eaa9b4e6a";
const BOB_SK: &str = "5dab087e624a8a4b79e17f8b83800ee66f3bb1292618b6fd1c2f8b27ff88e0eb";
const BOB_PK: &str = "de9edb7d7b7dc1b4d35b61c2ece435373f8343c85b78674dadfc7e146f882b4f";
const SHARED: &str = "4a5d9d5ba4ce2de1728e3bf480350f25e07e21c947d19e3376f09b3c1e161742";

const README_TEXT: &[u8] = b"Encrypt a file from a sender to a receiver with x25519 keys, \
SHA-256 and AES-256-GCM; decrypt it with the receiver's secret key.\n";

#[test]
fn test_encryption_generates_ciphertext() {
    let (sender_secret_key_bytes, _sender_public_key_bytes) = keygen();
    let (_receiver_secret_key_bytes, receiver_public_key_bytes) = keygen();
    let plaintext = README_TEXT.to_vec();
    let ciphertext = encrypt(plaintext.clone(), sender_secret_key_bytes, receiver_public_key_bytes);
    assert_ne!(ciphertext, plaintext, "Ciphertext should be different from plaintext");
    assert!(ciphertext.len() > plaintext.len(), "Ciphertext should include nonce");
}

#[test]
fn test_decryption_returns_original_text() {
    let (sender_secret_key_bytes, sender_public_key_bytes) = keygen();
    let (receiver_secret_key_bytes, receiver_public_key_bytes) = keygen();
    let plaintext = README_TEXT.to_vec();
    let ciphertext = encrypt(plaintext.clone(), sender_secret_key_bytes, receiver_public_key_bytes);
    let decrypted_text = decrypt(ciphertext, receiver_secret_key_bytes, sender_public_key_bytes);
    assert_eq!(
        decrypted_text,
        Ok(plaintext),
        "Decrypted text should match the content of readme.md"
    );
}

#[test]
fn test_both_parties_share_reach_aes_key() {
    let (sender_secret_key, sender_public_key) = keygen();
    let (receiver_secret_key, receiver_public_key) = keygen();
    let sender_aes_key = derive_symmetric_key(&sender_secret_key, &receiver_public_key);
    let receiver_aes_key = derive_symmetric_key(&receiver_secret_key, &sender_public_key);
    assert_eq!(sender_aes_key, receiver_aes_key, "AES keys do not match!");
}

#[test]
fn public_key_matches_known_vector() {
    let (sk, pk) = keypair_from_private(key32(ALICE_SK));
    assert_eq!(sk, key32(ALICE_SK));
    assert_eq!(pk, key32(ALICE_PK));
    let (_, pk) = keypair_from_private(key32(BOB_SK));
    assert_eq!(pk, key32(BOB_PK));
}

#[test]
fn symmetric_key_agrees_on_known_vector() {
    let a = derive_symmetric_key(&key32(ALICE_SK), &key32(BOB_PK));
    let b = derive_symmetric_key(&key32(BOB_SK), &key32(ALICE_PK));
    assert_eq!(a, b);
    // the key is the hash of the shared secret, not the secret itself
    assert_ne!(a, key32(SHARED));
    assert_ne!(a, key32(ALICE_SK));
}

#[test]
fn symmetric_key_differs_for_other_peer() {
    let (_, pk_c) = keygen();
    let a = derive_symmetric_key(&key32(ALICE_SK), &key32(BOB_PK));
    let c = derive_symmetric_key(&key32(ALICE_SK), &pk_c);
    assert_ne!(a, c);
}

#[test]
fn keygen_public_matches_private() {
    let (sk, pk) = keygen();
    assert_eq!(keypair_from_private(sk).1, pk);
    let (sk2, _) = keygen();
    assert_ne!(sk, sk2);
}

#[test]
fn seal_with_nonce_empty_known_vector() {
    let key = [0u8; 32];
    let nonce = [0u8; 12];
    let env = seal_with_nonce(&key, &nonce, &[]);
    let mut expected = hex("530f8afbc74536b9a963b4f1c4cb738b");
    expected.extend_from_slice(&nonce);
    assert_eq!(env, expected);
}

#[test]
fn seal_with_nonce_block_known_vector() {
    let key = [0u8; 32];
    let nonce = [0u8; 12];
    let env = seal_with_nonce(&key, &nonce, &[0u8; 16]);
    let mut expected = hex("cea7403d4d606b6e074ec5d3baf39d18d0d1c8a799996bf0265b98b5d48ab919");
    expected.extend_from_slice(&nonce);
    assert_eq!(env, expected);
    assert_eq!(open(&key, &env), Ok(vec![0u8; 16]));
}

#[test]
fn nonce_trails_the_ciphertext() {
    let key = [7u8; 32];
    let nonce: [u8; 12] = [1, 2, 3, 4, 5, 6, 7, 8, 9, 10, 11, 12];
    let env = seal_with_nonce(&key, &nonce, b"abc");
    assert_eq!(env.len(), 3 + 16 + 12);
    assert_eq!(&env[env.len() - 12..], &nonce[..]);
    assert_ne!(&env[..3], b"abc");
    assert_eq!(open(&key, &env), Ok(b"abc".to_vec()));
}

#[test]
fn length_expansion() {
    let key = [3u8; 32];
    for n in [0usize, 1, 11, 15, 16, 17, 100, 4096] {
        let p = vec![0xabu8; n];
        let env = seal(&key, &p);
        assert_eq!(env.len(), n + 16 + 12);
        assert_eq!(open(&key, &env), Ok(p));
    }
}

#[test]
fn empty_plaintext_round_trip() {
    let (a_sk, a_pk) = keygen();
    let (b_sk, b_pk) = keygen();
    let env = encrypt(Vec::new(), a_sk, b_pk);
    assert_eq!(env.len(), 28);
    assert_eq!(decrypt(env, b_sk, a_pk), Ok(Vec::new()));
}

#[test]
fn ciphertext_is_not_deterministic() {
    let key = [9u8; 32];
    let p = b"same message".to_vec();
    let e1 = seal(&key, &p);
    let e2 = seal(&key, &p);
    assert_ne!(e1, e2);
    assert_eq!(open(&key, &e1), Ok(p.clone()));
    assert_eq!(open(&key, &e2), Ok(p));
}

#[test]
fn any_flipped_bit_is_rejected() {
    let (a_sk, a_pk) = keygen();
    let (b_sk, b_pk) = keygen();
    let env = encrypt(b"hello world".to_vec(), a_sk, b_pk);
    for i in 0..env.len() {
        for bit in 0..8 {
            let mut bad = env.clone();
            bad[i] ^= 1 << bit;
            assert_eq!(decrypt(bad, b_sk, a_pk), Err(CryptoError::AuthenticationFailure));
        }
    }
}

#[test]
fn hello_world_scenario() {
    let (a_sk, a_pk) = keygen();
    let (b_sk, b_pk) = keygen();
    let p = b"hello world".to_vec();
    assert_eq!(p.len(), 11);
    let e = encrypt(p.clone(), a_sk, b_pk);
    assert_eq!(e.len(), 39);
    assert_eq!(decrypt(e.clone(), b_sk, a_pk), Ok(p));
    assert_eq!(decrypt(e, a_sk, a_pk), Err(CryptoError::AuthenticationFailure));
}

#[test]
fn wrong_key_is_rejected() {
    let env = seal(&[1u8; 32], b"secret");
    assert_eq!(open(&[2u8; 32], &env), Err(CryptoError::AuthenticationFailure));
}

#[test]
fn short_envelope_is_malformed() {
    let key = [0u8; 32];
    assert_eq!(open(&key, &[]), Err(CryptoError::MalformedEnvelope));
    assert_eq!(open(&key, &[0u8; 12]), Err(CryptoError::MalformedEnvelope));
    assert_eq!(open(&key, &[0u8; 27]), Err(CryptoError::MalformedEnvelope));
    assert_eq!(open(&key, &[0u8; 28]), Err(CryptoError::AuthenticationFailure));
}

#[test]
fn truncated_envelope_is_rejected() {
    let key = [5u8; 32];
    let env = seal(&key, b"hello world");
    assert_eq!(open(&key, &env[..env.len() - 1]), Err(CryptoError::AuthenticationFailure));
    assert_eq!(open(&key, &env[..27]), Err(CryptoError::MalformedEnvelope));
}

#[test]
fn key_from_slice_checks_length() {
    let bytes: Vec<u8> = (0u8..32).collect();
    let key = key_from_slice(&bytes).unwrap();
    assert_eq!(&key[..], &bytes[..]);
    assert_eq!(key_from_slice(&bytes[..31]), Err(CryptoError::InvalidKeyLength));
    assert_eq!(key_from_slice(&[0u8; 33]), Err(CryptoError::InvalidKeyLength));
    assert_eq!(key_from_slice(&[]), Err(CryptoError::InvalidKeyLength));
}
