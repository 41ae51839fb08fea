use securefilesys::cipher::{Cipher, CipherAlgo};
use securefilesys::encryptor::Encryptor;
use securefilesys::errors::VaultError;
use std::collections::HashSet;

fn make_encryptor() -> Encryptor {
    // deterministic key for tests
    let key = [0x42u8; 32];
    let cipher = Cipher::new(CipherAlgo::XChaCha20, key);
    Encryptor::new(cipher)
}

#[test]
fn round_trip_no_aad() {
    let e = make_encryptor();
    let pt = b"hello world";
    let ct = e.encrypt(pt, None).expect("encrypt");
    let out = e.decrypt(&ct, None).expect("decrypt");
    assert_eq!(out, pt);
}

#[test]
fn round_trip_with_aad() {
    let e = make_encryptor();
    let pt = b"secret";
    let aad = b"filename:foo.txt";
    let ct = e.encrypt(pt, Some(aad)).expect("encrypt");
    let out = e.decrypt(&ct, Some(aad)).expect("decrypt");
    assert_eq!(out, pt);
}

#[test]
fn fail_on_bad_aad() {
    let e = make_encryptor();
    let pt = b"secret";
    let ct = e.encrypt(pt, Some(b"good-aad")).expect("encrypt");
    let res = e.decrypt(&ct, Some(b"bad-aad"));
    assert!(res.is_err());
}

#[test]
fn round_trip_compressed() {
    let e = make_encryptor();
    let pt = b"hello world hello world hello world"; // repeating for compression
    let ct = e.encrypt_compressed(pt, None).expect("encrypt_compressed");
    let out = e.decrypt_compressed(&ct, None).expect("decrypt_compressed");
    assert_eq!(out, pt);
}

#[test]
fn compressed_smaller_than_uncompressed() {
    let e = make_encryptor();
    let pt = b"test test test test test test test test test test"; // repeating
    let ct_uncompressed = e.encrypt(pt, None).expect("encrypt");
    let ct_compressed = e.encrypt_compressed(pt, None).expect("encrypt_compressed");
    // compressed should be smaller (plaintext has repetition)
    assert!(ct_compressed.len() < ct_uncompressed.len());
}

#[test]
fn round_trip_empty_plaintext() {
    let e = make_encryptor();
    let ct = e.encrypt(b"", None).expect("encrypt");
    assert_eq!(ct.len(), 24 + 16);
    let out = e.decrypt(&ct, None).expect("decrypt");
    assert_eq!(out, b"");
}

#[test]
fn round_trip_empty_plaintext_compressed() {
    let e = make_encryptor();
    let ct = e.encrypt_compressed(b"", None).expect("encrypt_compressed");
    let out = e.decrypt_compressed(&ct, None).expect("decrypt_compressed");
    assert_eq!(out, b"");
}

#[test]
fn sealed_layout_has_nonce_and_tag_overhead() {
    let e = make_encryptor();
    let pt = b"0123456789";
    let ct = e.encrypt(pt, None).expect("encrypt");
    assert_eq!(ct.len(), 24 + pt.len() + 16);
}

#[test]
fn truncated_input_is_authentication_error() {
    let e = make_encryptor();
    let ct = e.encrypt(b"payload", None).expect("encrypt");
    for cut in [0usize, 1, 10, 23, 24, ct.len() - 1] {
        let res = e.decrypt(&ct[..cut], None);
        assert_eq!(res, Err(VaultError::AuthenticationError));
    }
}

#[test]
fn tamper_rejection_every_bit() {
    let e = make_encryptor();
    let pt = b"attack at dawn";
    let ct = e.encrypt(pt, None).expect("encrypt");
    // flip every single bit of the ciphertext-plus-tag region in turn
    for i in 24..ct.len() {
        for bit in 0..8u8 {
            let mut tampered = ct.clone();
            tampered[i] ^= 1 << bit;
            let res = e.decrypt(&tampered, None);
            assert_eq!(res, Err(VaultError::AuthenticationError));
        }
    }
}

#[test]
fn aad_binding_present_and_absent() {
    let e = make_encryptor();
    let ct = e.encrypt(b"secret", Some(b"alpha")).expect("encrypt");
    assert_eq!(e.decrypt(&ct, Some(b"beta")), Err(VaultError::AuthenticationError));
    assert_eq!(e.decrypt(&ct, None), Err(VaultError::AuthenticationError));
    let ct2 = e.encrypt(b"secret", None).expect("encrypt");
    assert_eq!(e.decrypt(&ct2, Some(b"alpha")), Err(VaultError::AuthenticationError));
}

#[test]
fn nonces_never_repeat_across_many_seals() {
    let e = make_encryptor();
    let mut seen: HashSet<Vec<u8>> = HashSet::new();
    for _ in 0..10_000 {
        let ct = e.encrypt(b"x", None).expect("encrypt");
        let nonce = ct[..24].to_vec();
        assert!(seen.insert(nonce), "a nonce repeated");
    }
    assert_eq!(seen.len(), 10_000);
}

#[test]
fn wrong_key_fails_to_open() {
    let e1 = make_encryptor();
    let e2 = Encryptor::new(Cipher::new(CipherAlgo::XChaCha20, [0x43u8; 32]));
    let ct = e1.encrypt(b"secret", None).expect("encrypt");
    assert_eq!(e2.decrypt(&ct, None), Err(VaultError::AuthenticationError));
}

#[test]
fn aes_gcm_round_trip() {
    let e = Encryptor::new(Cipher::new(CipherAlgo::Aes256Gcm, [0x42u8; 32]));
    let pt = b"standard nonce scheme";
    let ct = e.encrypt(pt, Some(b"meta")).expect("encrypt");
    assert_eq!(ct.len(), 12 + pt.len() + 16);
    let out = e.decrypt(&ct, Some(b"meta")).expect("decrypt");
    assert_eq!(out, pt);
    assert!(e.decrypt(&ct, Some(b"other")).is_err());
}

#[test]
fn aes_gcm_and_xchacha_are_incompatible() {
    let key = [0x42u8; 32];
    let xc = Encryptor::new(Cipher::new(CipherAlgo::XChaCha20, key));
    let gcm = Encryptor::new(Cipher::new(CipherAlgo::Aes256Gcm, key));
    let ct = xc.encrypt(b"secret", None).expect("encrypt");
    assert!(gcm.decrypt(&ct, None).is_err());
}
