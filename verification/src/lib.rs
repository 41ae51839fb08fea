//! At-rest encryption for individual files.
//!
//! The crate manages a 256-bit symmetric key, turns plaintext buffers into
//! sealed buffers (`nonce || authenticated ciphertext`, optionally compressed
//! before encryption), and reverses the transformation on read.  The
//! filesystem itself is a collaborator: callers hand whole file contents in
//! and out as plain byte vectors.

pub mod cipher;
pub mod compress;
pub mod config;
pub mod encryptor;
pub mod errors;
pub mod key_manager;
pub mod metadata;
pub mod rng;
pub mod storagefile_ops;
