use securefilesys::errors::VaultError;
use securefilesys::key_manager::KeyManager;
use securefilesys::storagefile_ops::SecureFileOps;
use std::collections::HashMap;

fn vault_from(key_byte: u8) -> SecureFileOps {
    let km = KeyManager::from_bytes(&vec![key_byte; 32]).expect("32-byte key");
    SecureFileOps::new(km)
}

#[test]
fn vault_defaults() {
    let vault = vault_from(0x42);
    assert_eq!(vault.root().as_str(), "storage");
    assert!(!vault.compressing());
    let vault = vault.with_compression(true);
    assert!(vault.compressing());
}

#[test]
fn vault_takes_a_configured_root() {
    let vault = vault_from(0x42).with_root("archive".to_string());
    assert_eq!(vault.root().as_str(), "archive");
    assert!(!vault.compressing());
    // the root does not affect the sealing itself
    let staged = vault.prepare_write("a.txt", b"data").expect("seal");
    assert_eq!(vault.process_read(Some(staged.payload)).expect("open"), b"data");
}

#[test]
fn write_then_read_round_trips() {
    // in-memory stand-in for the storage backend
    let mut store: HashMap<String, Vec<u8>> = HashMap::new();
    let vault = vault_from(0x42);

    let staged = vault.prepare_write("example.txt", b"Top secret data").expect("seal");
    assert_eq!(staged.metadata.filename, "example.txt");
    assert_eq!(staged.metadata.size, 15);
    assert_eq!(
        staged.metadata.to_json(),
        br#"{"filename":"example.txt","size":15}"#.to_vec()
    );
    store.insert("example.txt".to_string(), staged.payload);

    let read = vault.process_read(store.get("example.txt").cloned()).expect("open");
    assert_eq!(read, b"Top secret data");
}

#[test]
fn a_missing_name_is_not_found() {
    let vault = vault_from(0x42);
    assert_eq!(vault.process_read(None), Err(VaultError::NotFound));
}

#[test]
fn a_foreign_key_cannot_read_the_file() {
    let writer = vault_from(0x42);
    let staged = writer.prepare_write("it.txt", b"integration secret").expect("seal");

    let reader = vault_from(0x24);
    assert_eq!(
        reader.process_read(Some(staged.payload)),
        Err(VaultError::AuthenticationError)
    );
}

#[test]
fn compressed_write_then_read_round_trips() {
    let vault = vault_from(0x42).with_compression(true);
    let data = b"integration secret with compression enabled for testing";
    let staged = vault.prepare_write("compressed.txt", data).expect("seal");
    assert_eq!(staged.metadata.size, data.len() as u64);
    let read = vault.process_read(Some(staged.payload)).expect("open");
    assert_eq!(read, data);
}

#[test]
fn compression_shrinks_repetitive_input() {
    let plain = vault_from(0x42);
    let compressed = vault_from(0x42).with_compression(true);
    let data = vec![b'a'; 1000];
    let uncompressed_len = plain.prepare_write("r.txt", &data).expect("seal").payload.len();
    let compressed_len = compressed.prepare_write("r.txt", &data).expect("seal").payload.len();
    assert!(compressed_len < uncompressed_len);
}

#[test]
fn mode_mismatch_is_reported_never_silent() {
    // written without compression, read by a compressing vault with the same
    // key: authentication succeeds, decompression of the raw plaintext fails
    let writer = vault_from(0x42);
    let staged = writer.prepare_write("plain.txt", b"Top secret data").expect("seal");

    let reader = vault_from(0x42).with_compression(true);
    assert_eq!(
        reader.process_read(Some(staged.payload)),
        Err(VaultError::CompressionError)
    );
}
