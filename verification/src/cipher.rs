use vstd::prelude::*;

use chacha20poly1305::aead::Aead;
use chacha20poly1305::KeyInit;

verus! {

/// Length of the symmetric key, in bytes.
pub const KEY_LEN: usize = 32;

/// Length of the authentication tag both AEAD schemes append, in bytes.
pub const TAG_LEN: usize = 16;

/// The two supported AEAD configurations: an extended-nonce scheme
/// (XChaCha20-Poly1305, 24-byte nonce) and a standard-nonce scheme
/// (AES-256-GCM, 12-byte nonce).
#[derive(Clone, Copy, Debug, PartialEq, Eq, Structural)]
pub enum CipherAlgo {
    XChaCha20,
    Aes256Gcm,
}

impl CipherAlgo {
    /// Nonce length of the scheme, in bytes.
    pub open spec fn spec_nonce_len(self) -> nat {
        match self {
            CipherAlgo::XChaCha20 => 24,
            CipherAlgo::Aes256Gcm => 12,
        }
    }

    pub fn nonce_len(&self) -> (n: usize)
        ensures
            n == self.spec_nonce_len(),
    {
        match self {
            CipherAlgo::XChaCha20 => 24,
            CipherAlgo::Aes256Gcm => 12,
        }
    }

    /// Whether a message of `n` bytes is within the scheme's encryption
    /// limit.  XChaCha20-Poly1305 encrypts anything shorter than
    /// `64 * (2^32 - 1)` bytes; AES-256-GCM accepts up to `2^36` bytes.
    pub open spec fn plain_len_ok(self, n: nat) -> bool {
        match self {
            CipherAlgo::XChaCha20 => n < 274877906880,
            CipherAlgo::Aes256Gcm => n <= 68719476736,
        }
    }

    /// Whether associated data of `n` bytes is within the scheme's limit.
    /// XChaCha20-Poly1305 imposes none; AES-256-GCM accepts up to `2^36`
    /// bytes.
    pub open spec fn aad_len_ok(self, n: nat) -> bool {
        match self {
            CipherAlgo::XChaCha20 => true,
            CipherAlgo::Aes256Gcm => n <= 68719476736,
        }
    }

    /// Both limits at once: a plaintext of `pt_len` bytes under associated
    /// data of `aad_len` bytes can be sealed by the scheme.
    pub open spec fn sealable(self, aad_len: nat, pt_len: nat) -> bool {
        self.plain_len_ok(pt_len) && self.aad_len_ok(aad_len)
    }

    pub fn plain_len_within(&self, n: usize) -> (ok: bool)
        ensures
            ok == self.plain_len_ok(n as nat),
    {
        match self {
            CipherAlgo::XChaCha20 => (n as u64) < 274877906880u64,
            CipherAlgo::Aes256Gcm => (n as u64) <= 68719476736u64,
        }
    }
}

/// What XChaCha20-Poly1305 encryption returns: the encrypted message with
/// its 16-byte tag appended, as a function of key, nonce, associated data
/// and plaintext.
pub uninterp spec fn xchacha_seal(key: Seq<u8>, nonce: Seq<u8>, aad: Seq<u8>, plaintext: Seq<u8>) -> Seq<u8>;

/// What AES-256-GCM encryption returns, as a function of key, nonce,
/// associated data and plaintext.
pub uninterp spec fn aes_gcm_seal(key: Seq<u8>, nonce: Seq<u8>, aad: Seq<u8>, plaintext: Seq<u8>) -> Seq<u8>;

/// The authenticated ciphertext (tag included, nonce not) that the chosen
/// scheme produces.
pub open spec fn aead_seal(
    algo: CipherAlgo,
    key: Seq<u8>,
    nonce: Seq<u8>,
    aad: Seq<u8>,
    plaintext: Seq<u8>,
) -> Seq<u8> {
    match algo {
        CipherAlgo::XChaCha20 => xchacha_seal(key, nonce, aad, plaintext),
        CipherAlgo::Aes256Gcm => aes_gcm_seal(key, nonce, aad, plaintext),
    }
}

/// An AEAD cipher: the 32-byte key together with the scheme it drives.
/// Immutable after construction and safe to share read-only.
pub struct Cipher {
    algo: CipherAlgo,
    key: [u8; 32],
}

impl Cipher {
    pub closed spec fn spec_algo(self) -> CipherAlgo {
        self.algo
    }

    pub closed spec fn spec_key(self) -> Seq<u8> {
        self.key@
    }

    pub fn new(algo: CipherAlgo, key: [u8; 32]) -> (c: Cipher)
        ensures
            c.spec_algo() == algo,
            c.spec_key() == key@,
    {
        Cipher { algo, key }
    }

    pub fn algo(&self) -> (a: CipherAlgo)
        ensures
            a == self.spec_algo(),
    {
        self.algo
    }

    /// Encrypt `plaintext` under `nonce`, authenticating `aad`: returns the
    /// ciphertext with the 16-byte tag appended.
    pub fn seal_raw(&self, nonce: &[u8], aad: &[u8], plaintext: &[u8]) -> (r: Vec<u8>)
        requires
            nonce@.len() == self.spec_algo().spec_nonce_len(),
            self.spec_algo().sealable(aad@.len(), plaintext@.len()),
        ensures
            r@ == aead_seal(self.spec_algo(), self.spec_key(), nonce@, aad@, plaintext@),
            r@.len() == plaintext@.len() + 16,
    {
        match self.algo {
            CipherAlgo::XChaCha20 => xchacha_encrypt(&self.key, nonce, aad, plaintext),
            CipherAlgo::Aes256Gcm => aes_gcm_encrypt(&self.key, nonce, aad, plaintext),
        }
    }

    /// Verify and decrypt `ciphertext` (tag included) under `nonce` and
    /// `aad`.  Succeeds exactly on buffers the scheme produced: whatever
    /// comes back re-seals to the input, and any buffer that was sealed from
    /// some plaintext opens to that plaintext.
    pub fn open_raw(&self, nonce: &[u8], aad: &[u8], ciphertext: &[u8]) -> (r: Option<Vec<u8>>)
        requires
            nonce@.len() == self.spec_algo().spec_nonce_len(),
        ensures
            r is Some ==> ciphertext@.len() >= 16 && r->0@.len() == ciphertext@.len() - 16
                && ciphertext@ == aead_seal(self.spec_algo(), self.spec_key(), nonce@, aad@, r->0@),
            forall|pt: Seq<u8>|
                self.spec_algo().sealable(aad@.len(), pt.len())
                    && ciphertext@ == aead_seal(self.spec_algo(), self.spec_key(), nonce@, aad@, pt)
                    ==> r is Some && r->0@ == pt,
    {
        match self.algo {
            CipherAlgo::XChaCha20 => xchacha_decrypt(&self.key, nonce, aad, ciphertext),
            CipherAlgo::Aes256Gcm => aes_gcm_decrypt(&self.key, nonce, aad, ciphertext),
        }
    }
}

/// Relies on chacha20poly1305: `XChaCha20Poly1305::new` builds the cipher
/// from a 32-byte key and `Aead::encrypt` returns the encrypted message with
/// the 16-byte Poly1305 tag appended.  The result is a function of key,
/// nonce, associated data and message alone, and the call succeeds whenever
/// the message is shorter than `64 * (2^32 - 1)` bytes.
#[verifier::external_body]
fn xchacha_encrypt(key: &[u8; 32], nonce: &[u8], aad: &[u8], plaintext: &[u8]) -> (r: Vec<u8>)
    requires
        nonce@.len() == 24,
        plaintext@.len() < 274877906880,
    ensures
        r@ == xchacha_seal(key@, nonce@, aad@, plaintext@),
        r@.len() == plaintext@.len() + 16,
{
    let cipher = chacha20poly1305::XChaCha20Poly1305::new(chacha20poly1305::Key::from_slice(key));
    cipher
        .encrypt(
            chacha20poly1305::XNonce::from_slice(nonce),
            chacha20poly1305::aead::Payload { msg: plaintext, aad },
        )
        .expect("message is within the XChaCha20-Poly1305 length bound")
}

/// Relies on chacha20poly1305: `Aead::decrypt` splits the 16-byte tag off
/// the end, verifies it over associated data and ciphertext, and returns the
/// decrypted message only on success.  Decryption inverts `Aead::encrypt`
/// under the same key, nonce and associated data.
#[verifier::external_body]
fn xchacha_decrypt(key: &[u8; 32], nonce: &[u8], aad: &[u8], ciphertext: &[u8]) -> (r: Option<Vec<u8>>)
    requires
        nonce@.len() == 24,
    ensures
        r is Some ==> ciphertext@.len() >= 16 && r->0@.len() == ciphertext@.len() - 16
            && ciphertext@ == xchacha_seal(key@, nonce@, aad@, r->0@),
        forall|pt: Seq<u8>|
            pt.len() < 274877906880 && ciphertext@ == xchacha_seal(key@, nonce@, aad@, pt)
                ==> r is Some && r->0@ == pt,
{
    let cipher = chacha20poly1305::XChaCha20Poly1305::new(chacha20poly1305::Key::from_slice(key));
    cipher
        .decrypt(
            chacha20poly1305::XNonce::from_slice(nonce),
            chacha20poly1305::aead::Payload { msg: ciphertext, aad },
        )
        .ok()
}

/// Relies on aes-gcm: `Aes256Gcm::new` builds the cipher from a 32-byte key
/// and `Aead::encrypt` returns the encrypted message with the 16-byte GHASH
/// tag appended.  The result is a function of key, nonce, associated data
/// and message alone, and the call succeeds whenever the message is at most
/// `2^36` bytes and the associated data at most `2^36` bytes.
#[verifier::external_body]
fn aes_gcm_encrypt(key: &[u8; 32], nonce: &[u8], aad: &[u8], plaintext: &[u8]) -> (r: Vec<u8>)
    requires
        nonce@.len() == 12,
        plaintext@.len() <= 68719476736,
        aad@.len() <= 68719476736,
    ensures
        r@ == aes_gcm_seal(key@, nonce@, aad@, plaintext@),
        r@.len() == plaintext@.len() + 16,
{
    let cipher = aes_gcm::Aes256Gcm::new(aes_gcm::Key::<aes_gcm::Aes256Gcm>::from_slice(key));
    cipher
        .encrypt(
            aes_gcm::Nonce::from_slice(nonce),
            aes_gcm::aead::Payload { msg: plaintext, aad },
        )
        .expect("message and associated data are within the AES-GCM length bounds")
}

/// Relies on aes-gcm: `Aead::decrypt` splits the 16-byte tag off the end,
/// verifies it over associated data and ciphertext, and returns the
/// decrypted message only on success.  Decryption inverts `Aead::encrypt`
/// under the same key, nonce and associated data.
#[verifier::external_body]
fn aes_gcm_decrypt(key: &[u8; 32], nonce: &[u8], aad: &[u8], ciphertext: &[u8]) -> (r: Option<Vec<u8>>)
    requires
        nonce@.len() == 12,
    ensures
        r is Some ==> ciphertext@.len() >= 16 && r->0@.len() == ciphertext@.len() - 16
            && ciphertext@ == aes_gcm_seal(key@, nonce@, aad@, r->0@),
        forall|pt: Seq<u8>|
            pt.len() <= 68719476736 && aad@.len() <= 68719476736
                && ciphertext@ == aes_gcm_seal(key@, nonce@, aad@, pt)
                ==> r is Some && r->0@ == pt,
{
    let cipher = aes_gcm::Aes256Gcm::new(aes_gcm::Key::<aes_gcm::Aes256Gcm>::from_slice(key));
    cipher
        .decrypt(
            aes_gcm::Nonce::from_slice(nonce),
            aes_gcm::aead::Payload { msg: ciphertext, aad },
        )
        .ok()
}

} // verus!
