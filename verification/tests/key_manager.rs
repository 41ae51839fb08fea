use securefilesys::errors::VaultError;
use securefilesys::key_manager::KeyManager;

#[test]
fn rejects_short_and_long_key_material() {
    for len in [0usize, 1, 16, 31, 33, 64] {
        let data = vec![0xAAu8; len];
        let res = KeyManager::from_bytes(&data);
        assert!(matches!(res, Err(VaultError::InvalidKeyLength)), "len {len} accepted");
    }
}

#[test]
fn accepts_exactly_32_bytes_verbatim() {
    let data: Vec<u8> = (0u8..32).collect();
    let km = KeyManager::from_bytes(&data).expect("32 bytes");
    assert_eq!(km.key_bytes.to_vec(), data);
}

#[test]
fn loading_the_same_bytes_twice_gives_the_identical_key() {
    let data = vec![0x42u8; 32];
    let a = KeyManager::from_bytes(&data).expect("load");
    let b = KeyManager::from_bytes(&data).expect("load");
    assert_eq!(a.key_bytes, b.key_bytes);
}

#[test]
fn generated_keys_are_32_bytes_and_distinct() {
    let a = KeyManager::generate().expect("random source");
    let b = KeyManager::generate().expect("random source");
    assert_eq!(a.key_bytes.len(), 32);
    // 256-bit collisions do not happen by chance
    assert_ne!(a.key_bytes, b.key_bytes);
}

#[test]
fn erase_overwrites_the_key_with_zeros() {
    let mut km = KeyManager::from_bytes(&vec![0x42u8; 32]).expect("load");
    km.erase();
    assert_eq!(km.key_bytes, [0u8; 32]);
}
