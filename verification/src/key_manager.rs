use vstd::prelude::*;

use crate::cipher::{Cipher, CipherAlgo};
use crate::errors::VaultError;
use crate::rng::os_random_bytes;

verus! {

/// Holds the 256-bit symmetric key.  Loading the key file and persisting a
/// fresh key are a collaborator's job; the core validates the bytes,
/// generates new ones, seeds ciphers, and erases the copy it holds.
pub struct KeyManager {
    pub key_bytes: [u8; 32],
}

impl KeyManager {
    pub open spec fn spec_key(self) -> Seq<u8> {
        self.key_bytes@
    }

    /// Accept key material read from disk.  Succeeds exactly on 32 bytes,
    /// which then become the key verbatim.
    pub fn from_bytes(data: &Vec<u8>) -> (r: Result<KeyManager, VaultError>)
        ensures
            r is Ok <==> data@.len() == 32,
            r is Ok ==> r->Ok_0.spec_key() == data@,
            r is Err ==> r->Err_0 == VaultError::InvalidKeyLength,
    {
        if data.len() != 32 {
            return Err(VaultError::InvalidKeyLength);
        }
        let mut arr: [u8; 32] = [0u8; 32];
        let mut i: usize = 0;
        while i < 32
            invariant
                i <= 32,
                data@.len() == 32,
                forall|j: int| 0 <= j < i ==> arr@[j] == data@[j],
            decreases 32 - i,
        {
            arr[i] = data[i];
            i += 1;
        }
        proof {
            assert(arr@ =~= data@);
        }
        Ok(KeyManager { key_bytes: arr })
    }

    /// Generate a fresh key from the secure random source; fails only when
    /// that source does.  The staging buffer the draw came back in is
    /// zeroized before it is freed.
    pub fn generate() -> (r: Result<KeyManager, VaultError>)
        ensures
            r is Err ==> r->Err_0 == VaultError::RandomSourceError,
    {
        match os_random_bytes(32) {
            Some(bytes) => {
                let mut bytes = bytes;
                let loaded = Self::from_bytes(&bytes);
                zeroize_vec(&mut bytes);
                match loaded {
                    Ok(km) => Ok(km),
                    Err(_) => Err(VaultError::RandomSourceError),
                }
            },
            None => Err(VaultError::RandomSourceError),
        }
    }

    /// Seed the extended-nonce AEAD cipher used for all sealing and opening.
    pub fn cipher(&self) -> (c: Cipher)
        ensures
            c.spec_algo() == CipherAlgo::XChaCha20,
            c.spec_key() == self.spec_key(),
    {
        Cipher::new(CipherAlgo::XChaCha20, self.key_bytes)
    }

    /// Overwrite the in-memory key with zeros.  Call when the manager is no
    /// longer needed, to limit exposure via memory dumps or swap.
    pub fn erase(&mut self)
        ensures
            forall|i: int| 0 <= i < 32 ==> final(self).key_bytes@[i] == 0,
    {
        zeroize_bytes(&mut self.key_bytes);
    }
}

/// Relies on zeroize: `Zeroize` for byte arrays overwrites every byte with
/// zero, through writes the compiler will not elide.
#[verifier::external_body]
fn zeroize_bytes(bytes: &mut [u8; 32])
    ensures
        forall|i: int| 0 <= i < 32 ==> final(bytes)@[i] == 0,
{
    zeroize::Zeroize::zeroize(bytes)
}

/// Relies on zeroize: `Zeroize` for `Vec<u8>` overwrites the vector's whole
/// allocation with zeros before clearing it, so the key material in a
/// staging buffer does not outlive its use.
#[verifier::external_body]
fn zeroize_vec(bytes: &mut Vec<u8>)
    ensures
        final(bytes)@.len() == 0,
{
    zeroize::Zeroize::zeroize(bytes)
}

} // verus!
