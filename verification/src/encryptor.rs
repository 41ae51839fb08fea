use vstd::prelude::*;
use vstd::slice::{slice_subrange, slice_to_vec};

use crate::cipher::{aead_seal, Cipher, CipherAlgo};
use crate::compress::{gzip_compress, gzip_decompress, gzip_of, gunzip_of};
use crate::errors::VaultError;
use crate::rng::os_random_bytes;

verus! {

/// The associated data actually bound to a ciphertext: the given bytes, or
/// none at all, which the AEAD schemes treat as empty associated data.
pub open spec fn spec_aad(aad: Option<&[u8]>) -> Seq<u8> {
    match aad {
        Some(a) => a@,
        None => Seq::empty(),
    }
}

/// The on-disk layout of a sealed buffer: the nonce followed by the
/// authenticated ciphertext.
pub open spec fn sealed_bytes(
    algo: CipherAlgo,
    key: Seq<u8>,
    nonce: Seq<u8>,
    aad: Seq<u8>,
    plaintext: Seq<u8>,
) -> Seq<u8> {
    nonce + aead_seal(algo, key, nonce, aad, plaintext)
}

/// Whether `sealed` is a buffer that opens to `plaintext` under the given
/// scheme, key and associated data: it starts with a nonce, and the rest is
/// exactly the authenticated ciphertext of `plaintext` under that nonce.
pub open spec fn opens_to(
    algo: CipherAlgo,
    key: Seq<u8>,
    aad: Seq<u8>,
    sealed: Seq<u8>,
    plaintext: Seq<u8>,
) -> bool {
    let nl = algo.spec_nonce_len() as int;
    sealed.len() >= algo.spec_nonce_len() && sealed.skip(nl) == aead_seal(
        algo,
        key,
        sealed.take(nl),
        aad,
        plaintext,
    )
}

/// Round trip, at the specification level: whatever nonce sealing picked,
/// the sealed buffer it laid out opens back to the plaintext that went in.
/// Together with the contract of `Encryptor::decrypt` this gives
/// `decrypt(encrypt(p, a), a) == Ok(p)`.
pub proof fn lemma_sealed_opens_to(
    algo: CipherAlgo,
    key: Seq<u8>,
    nonce: Seq<u8>,
    aad: Seq<u8>,
    plaintext: Seq<u8>,
)
    requires
        nonce.len() == algo.spec_nonce_len(),
    ensures
        opens_to(algo, key, aad, sealed_bytes(algo, key, nonce, aad, plaintext), plaintext),
{
    let s = sealed_bytes(algo, key, nonce, aad, plaintext);
    let nl = algo.spec_nonce_len() as int;
    assert(s.take(nl) =~= nonce);
    assert(s.skip(nl) =~= aead_seal(algo, key, nonce, aad, plaintext));
}

/// Authenticated encryption and decryption of byte buffers, with optional
/// associated data and an optional compression pass.
pub struct Encryptor {
    cipher: Cipher,
}

impl Encryptor {
    pub closed spec fn spec_algo(self) -> CipherAlgo {
        self.cipher.spec_algo()
    }

    pub closed spec fn spec_key(self) -> Seq<u8> {
        self.cipher.spec_key()
    }

    pub fn new(cipher: Cipher) -> (e: Encryptor)
        ensures
            e.spec_algo() == cipher.spec_algo(),
            e.spec_key() == cipher.spec_key(),
    {
        Encryptor { cipher }
    }

    pub fn algo(&self) -> (a: CipherAlgo)
        ensures
            a == self.spec_algo(),
    {
        self.cipher.algo()
    }

    /// Encrypt `plaintext`, authenticating `aad`, prepending a fresh random
    /// nonce to the ciphertext.  Fails only when the random source does.
    pub fn encrypt(&self, plaintext: &[u8], aad: Option<&[u8]>) -> (r: Result<Vec<u8>, VaultError>)
        requires
            self.spec_algo().sealable(spec_aad(aad).len(), plaintext@.len()),
        ensures
            r is Ok ==> ({
                let out = r->Ok_0@;
                let nl = self.spec_algo().spec_nonce_len() as int;
                &&& out.len() == self.spec_algo().spec_nonce_len() + plaintext@.len() + 16
                &&& out == sealed_bytes(
                    self.spec_algo(),
                    self.spec_key(),
                    out.take(nl),
                    spec_aad(aad),
                    plaintext@,
                )
                &&& opens_to(self.spec_algo(), self.spec_key(), spec_aad(aad), out, plaintext@)
            }),
            r is Err ==> r->Err_0 == VaultError::RandomSourceError,
    {
        let nl = self.cipher.algo().nonce_len();
        match os_random_bytes(nl) {
            None => Err(VaultError::RandomSourceError),
            Some(nonce) => {
                let ghost nonce_view = nonce@;
                let aad_bytes = aad_to_vec(aad);
                let ciphertext = self.cipher.seal_raw(
                    nonce.as_slice(),
                    aad_bytes.as_slice(),
                    plaintext,
                );
                let mut out = nonce;
                let mut tail = ciphertext;
                out.append(&mut tail);
                proof {
                    assert(out@.take(nl as int) =~= nonce_view);
                    lemma_sealed_opens_to(
                        self.spec_algo(),
                        self.spec_key(),
                        nonce_view,
                        spec_aad(aad),
                        plaintext@,
                    );
                }
                Ok(out)
            },
        }
    }

    /// Open a buffer produced by `encrypt`: split the nonce off the front,
    /// verify and decrypt the rest.  Any failure — wrong key, tampered
    /// bytes, mismatched associated data, truncated input — yields the one
    /// opaque `AuthenticationError`.  Every buffer that was sealed from some
    /// plaintext under this key and `aad` opens to exactly that plaintext.
    pub fn decrypt(&self, sealed: &[u8], aad: Option<&[u8]>) -> (r: Result<Vec<u8>, VaultError>)
        ensures
            r is Err ==> r->Err_0 == VaultError::AuthenticationError,
            sealed@.len() < self.spec_algo().spec_nonce_len() ==> r is Err,
            r is Ok ==> opens_to(
                self.spec_algo(),
                self.spec_key(),
                spec_aad(aad),
                sealed@,
                r->Ok_0@,
            ) && sealed@.len() >= self.spec_algo().spec_nonce_len() + 16 && r->Ok_0@.len()
                == sealed@.len() - self.spec_algo().spec_nonce_len() - 16,
            forall|pt: Seq<u8>|
                self.spec_algo().sealable(spec_aad(aad).len(), pt.len()) && opens_to(
                    self.spec_algo(),
                    self.spec_key(),
                    spec_aad(aad),
                    sealed@,
                    pt,
                ) ==> r is Ok && r->Ok_0@ == pt,
    {
        let nl = self.cipher.algo().nonce_len();
        if sealed.len() < nl {
            return Err(VaultError::AuthenticationError);
        }
        let nonce = slice_subrange(sealed, 0, nl);
        let body = slice_subrange(sealed, nl, sealed.len());
        let aad_bytes = aad_to_vec(aad);
        match self.cipher.open_raw(nonce, aad_bytes.as_slice(), body) {
            Some(plaintext) => Ok(plaintext),
            None => Err(VaultError::AuthenticationError),
        }
    }

    /// Compress `plaintext` with gzip, then encrypt the compressed stream.
    /// Fails with `RandomSourceError` when the random source does, and with
    /// `CompressionError` exactly when the compressed stream exceeds the
    /// cipher's message limit — a bound no input that fits in memory
    /// approaches in practice.
    pub fn encrypt_compressed(&self, plaintext: &[u8], aad: Option<&[u8]>) -> (r: Result<
        Vec<u8>,
        VaultError,
    >)
        requires
            self.spec_algo().aad_len_ok(spec_aad(aad).len()),
        ensures
            r is Ok ==> ({
                let out = r->Ok_0@;
                let nl = self.spec_algo().spec_nonce_len() as int;
                &&& out.len() == self.spec_algo().spec_nonce_len() + gzip_of(plaintext@).len()
                    + 16
                &&& out == sealed_bytes(
                    self.spec_algo(),
                    self.spec_key(),
                    out.take(nl),
                    spec_aad(aad),
                    gzip_of(plaintext@),
                )
                &&& opens_to(
                    self.spec_algo(),
                    self.spec_key(),
                    spec_aad(aad),
                    out,
                    gzip_of(plaintext@),
                )
            }),
            r is Err ==> r->Err_0 == VaultError::RandomSourceError || r->Err_0
                == VaultError::CompressionError,
            (r is Err && r->Err_0 == VaultError::CompressionError) <==> !self.spec_algo()
                .plain_len_ok(gzip_of(plaintext@).len()),
    {
        let compressed = gzip_compress(plaintext);
        if !self.cipher.algo().plain_len_within(compressed.len()) {
            return Err(VaultError::CompressionError);
        }
        self.encrypt(compressed.as_slice(), aad)
    }

    /// Open a buffer produced by `encrypt_compressed`: authentication is
    /// checked first, and only authenticated bytes reach the decompressor,
    /// so a corrupted or forged buffer is rejected with
    /// `AuthenticationError` before any decompression is attempted.
    /// `CompressionError` therefore means corrupt-but-authenticated data.
    pub fn decrypt_compressed(&self, sealed: &[u8], aad: Option<&[u8]>) -> (r: Result<
        Vec<u8>,
        VaultError,
    >)
        ensures
            r is Err ==> r->Err_0 == VaultError::AuthenticationError || r->Err_0
                == VaultError::CompressionError,
            sealed@.len() < self.spec_algo().spec_nonce_len() ==> r is Err && r->Err_0
                == VaultError::AuthenticationError,
            r is Ok ==> exists|c: Seq<u8>|
                opens_to(self.spec_algo(), self.spec_key(), spec_aad(aad), sealed@, c)
                    && gunzip_of(c) == Some(r->Ok_0@),
            r is Err && r->Err_0 == VaultError::CompressionError ==> exists|c: Seq<u8>|
                opens_to(self.spec_algo(), self.spec_key(), spec_aad(aad), sealed@, c)
                    && gunzip_of(c) is None,
            forall|pt: Seq<u8>|
                self.spec_algo().sealable(spec_aad(aad).len(), gzip_of(pt).len()) && opens_to(
                    self.spec_algo(),
                    self.spec_key(),
                    spec_aad(aad),
                    sealed@,
                    gzip_of(pt),
                ) ==> r is Ok && r->Ok_0@ == pt,
    {
        match self.decrypt(sealed, aad) {
            Err(e) => Err(e),
            Ok(compressed) => {
                proof {
                    assert(opens_to(
                        self.spec_algo(),
                        self.spec_key(),
                        spec_aad(aad),
                        sealed@,
                        compressed@,
                    ));
                }
                match gzip_decompress(compressed.as_slice()) {
                    Some(plaintext) => {
                        proof {
                            assert(gunzip_of(compressed@) == Some(plaintext@));
                        }
                        Ok(plaintext)
                    },
                    None => {
                        proof {
                            assert(gunzip_of(compressed@) is None);
                        }
                        Err(VaultError::CompressionError)
                    },
                }
            },
        }
    }
}

/// The associated data as an owned buffer: the given bytes, or empty.
fn aad_to_vec(aad: Option<&[u8]>) -> (r: Vec<u8>)
    ensures
        r@ == spec_aad(aad),
{
    match aad {
        Some(a) => slice_to_vec(a),
        None => Vec::new(),
    }
}

} // verus!
