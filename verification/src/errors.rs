use vstd::prelude::*;

verus! {

/// Every failure the vault can surface, one variant per cause, so that a
/// caller can choose differentiated recovery.
#[derive(Clone, Copy, Debug, PartialEq, Eq, Structural)]
pub enum VaultError {
    /// A key file was found but did not hold exactly 32 bytes.
    InvalidKeyLength,
    /// A freshly generated key could not be persisted.
    KeyPersistError,
    /// The operating system's secure random source failed.
    RandomSourceError,
    /// Decryption or integrity checking failed: wrong key, tampered bytes,
    /// mismatched associated data, or truncated input.  Deliberately opaque.
    AuthenticationError,
    /// Authenticated data did not form a valid compressed stream.
    CompressionError,
    /// No stored file exists under the requested name.
    NotFound,
    /// The encrypted payload was written but its metadata record was not.
    MetadataWriteError,
}

} // verus!
