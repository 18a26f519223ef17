use tss_network::aead::{aead_roundtrip, aes_decrypt, aes_encrypt};
use tss_network::types::AEAD;

#[test]
fn seal_and_open_round_trip() {
    let key = [7u8; 32];
    let plaintext = b"a shamir share in big-endian bytes";
    let pack = aes_encrypt(&key, plaintext).expect("sealing must succeed");
    assert_eq!(pack.nonce.len(), 12);
    assert_eq!(pack.tag, vec![0u8; 16]);
    assert_eq!(pack.ciphertext.len(), plaintext.len() + 16);
    assert_ne!(pack.ciphertext, plaintext.to_vec());
    let out = aes_decrypt(&key, pack);
    assert_eq!(out, plaintext.to_vec());
}

#[test]
fn round_trip_helper_returns_the_plaintext() {
    let key = [1u8, 2, 3];
    let out = aead_roundtrip(&key, b"hello").expect("round trip must run");
    assert_eq!(out, b"hello".to_vec());
}

#[test]
fn short_keys_are_zero_padded() {
    let short_key = [9u8; 4];
    let pack = aes_encrypt(&short_key, b"msg").unwrap();
    let mut padded = vec![0u8; 28];
    padded.extend_from_slice(&short_key);
    let out = aes_decrypt(&padded, pack);
    assert_eq!(out, b"msg".to_vec());
}

#[test]
fn wrong_key_opens_to_empty() {
    let pack = aes_encrypt(&[1u8; 32], b"secret").unwrap();
    let out = aes_decrypt(&[2u8; 32], pack);
    assert_eq!(out, Vec::<u8>::new());
}

#[test]
fn tampered_ciphertext_opens_to_empty() {
    let key = [5u8; 32];
    let mut pack = aes_encrypt(&key, b"secret").unwrap();
    pack.ciphertext[0] ^= 1;
    let out = aes_decrypt(&key, pack);
    assert_eq!(out, Vec::<u8>::new());
}

#[test]
fn zero_nonce_is_rejected() {
    let key = [5u8; 32];
    let pack = aes_encrypt(&key, b"secret").unwrap();
    let zeroed = AEAD { ciphertext: pack.ciphertext, tag: pack.tag, nonce: vec![0u8; 12] };
    let out = aes_decrypt(&key, zeroed);
    assert_eq!(out, Vec::<u8>::new());
}

#[test]
fn ill_sized_nonce_is_rejected() {
    let key = [5u8; 32];
    let pack = aes_encrypt(&key, b"secret").unwrap();
    let bad = AEAD { ciphertext: pack.ciphertext, tag: pack.tag, nonce: vec![1u8; 8] };
    let out = aes_decrypt(&key, bad);
    assert_eq!(out, Vec::<u8>::new());
}
