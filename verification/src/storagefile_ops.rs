use vstd::prelude::*;

use crate::cipher::CipherAlgo;
use crate::compress::{gzip_of, gunzip_of};
use crate::encryptor::{opens_to, spec_aad, Encryptor};
use crate::errors::VaultError;
use crate::key_manager::KeyManager;
use crate::metadata::FileMetadata;

verus! {

/// Everything one write produces: the sealed payload to store under the
/// file's name, and the metadata record to store beside it.
pub struct SealedWrite {
    pub payload: Vec<u8>,
    pub metadata: FileMetadata,
}

/// Transforms whole files for storage under a vault root.  A collaborator
/// moves the bytes to and from disk; this type seals what goes in and opens
/// what comes out, uniformly compressed or not per its configuration.
pub struct SecureFileOps {
    encryptor: Encryptor,
    root: String,
    compress: bool,
}

impl SecureFileOps {
    pub closed spec fn spec_algo(self) -> CipherAlgo {
        self.encryptor.spec_algo()
    }

    pub closed spec fn spec_key(self) -> Seq<u8> {
        self.encryptor.spec_key()
    }

    pub closed spec fn spec_compress(self) -> bool {
        self.compress
    }

    pub closed spec fn spec_root(self) -> Seq<char> {
        self.root@
    }

    /// What actually gets sealed for a plaintext: the gzip stream when
    /// compression is on, the plaintext itself otherwise.
    pub open spec fn spec_stored_plaintext(self, data: Seq<u8>) -> Seq<u8> {
        if self.spec_compress() {
            gzip_of(data)
        } else {
            data
        }
    }

    /// A vault over the extended-nonce cipher seeded from `km`, rooted at
    /// `storage`, without compression.  The key manager is consumed: its
    /// key seeds the cipher and its own copy is zeroized before release.
    pub fn new(km: KeyManager) -> (s: SecureFileOps)
        ensures
            s.spec_algo() == CipherAlgo::XChaCha20,
            s.spec_key() == km.spec_key(),
            s.spec_root() == "storage"@,
            !s.spec_compress(),
    {
        let mut km = km;
        let encryptor = Encryptor::new(km.cipher());
        km.erase();
        SecureFileOps { encryptor, root: "storage".to_owned(), compress: false }
    }

    /// The same vault rooted at `root` — normally the configured storage
    /// directory.
    pub fn with_root(self, root: String) -> (s: SecureFileOps)
        ensures
            s.spec_algo() == self.spec_algo(),
            s.spec_key() == self.spec_key(),
            s.spec_compress() == self.spec_compress(),
            s.spec_root() == root@,
    {
        SecureFileOps { encryptor: self.encryptor, root, compress: self.compress }
    }

    /// The same vault with compression switched on or off.
    pub fn with_compression(self, compress: bool) -> (s: SecureFileOps)
        ensures
            s.spec_algo() == self.spec_algo(),
            s.spec_key() == self.spec_key(),
            s.spec_root() == self.spec_root(),
            s.spec_compress() == compress,
    {
        SecureFileOps { encryptor: self.encryptor, root: self.root, compress }
    }

    /// The directory under which sealed payloads and metadata live.
    pub fn root(&self) -> (r: &String)
        ensures
            r@ == self.spec_root(),
    {
        &self.root
    }

    pub fn compressing(&self) -> (c: bool)
        ensures
            c == self.spec_compress(),
    {
        self.compress
    }

    /// Seal `data` for storage under `name`: the payload opens back to what
    /// was sealed, and the metadata record carries the name and the
    /// plaintext byte count.  Fails only when the random source does, or —
    /// with compression on — when the compressed stream exceeds the
    /// cipher's message limit.
    pub fn prepare_write(&self, name: &str, data: &[u8]) -> (r: Result<SealedWrite, VaultError>)
        requires
            !self.spec_compress() ==> self.spec_algo().plain_len_ok(data@.len()),
        ensures
            r is Ok ==> opens_to(
                self.spec_algo(),
                self.spec_key(),
                Seq::empty(),
                r->Ok_0.payload@,
                self.spec_stored_plaintext(data@),
            ),
            r is Ok ==> r->Ok_0.metadata.filename@ == name@ && r->Ok_0.metadata.size
                == data@.len(),
            r is Err ==> r->Err_0 == VaultError::RandomSourceError || r->Err_0
                == VaultError::CompressionError,
            (r is Err && r->Err_0 == VaultError::CompressionError) <==> (self.spec_compress()
                && !self.spec_algo().plain_len_ok(gzip_of(data@).len())),
    {
        let sealed = if self.compress {
            self.encryptor.encrypt_compressed(data, None)
        } else {
            self.encryptor.encrypt(data, None)
        };
        match sealed {
            Ok(payload) => {
                let metadata = FileMetadata::new(name.to_owned(), data.len() as u64);
                Ok(SealedWrite { payload, metadata })
            },
            Err(e) => Err(e),
        }
    }

    /// Open what was read back for a name: `None` (no such file) becomes
    /// `NotFound`; stored bytes are opened — and, with compression on,
    /// decompressed — exactly as `decrypt` and `decrypt_compressed`
    /// promise, so every payload this vault sealed comes back verbatim.
    pub fn process_read(&self, stored: Option<Vec<u8>>) -> (r: Result<Vec<u8>, VaultError>)
        ensures
            (stored is None) <==> (r is Err && r->Err_0 == VaultError::NotFound),
            stored is Some ==> ({
                let d = stored->0@;
                &&& r is Err ==> r->Err_0 == VaultError::AuthenticationError || (
                self.spec_compress() && r->Err_0 == VaultError::CompressionError)
                &&& !self.spec_compress() ==> {
                    &&& r is Ok ==> opens_to(
                        self.spec_algo(),
                        self.spec_key(),
                        Seq::empty(),
                        d,
                        r->Ok_0@,
                    )
                    &&& forall|pt: Seq<u8>|
                        self.spec_algo().sealable(0, pt.len()) && opens_to(
                            self.spec_algo(),
                            self.spec_key(),
                            Seq::empty(),
                            d,
                            pt,
                        ) ==> r is Ok && r->Ok_0@ == pt
                }
                &&& self.spec_compress() ==> {
                    &&& r is Ok ==> exists|c: Seq<u8>|
                        opens_to(self.spec_algo(), self.spec_key(), Seq::empty(), d, c)
                            && gunzip_of(c) == Some(r->Ok_0@)
                    &&& r is Err && r->Err_0 == VaultError::CompressionError ==> exists|
                        c: Seq<u8>,
                    |
                        opens_to(self.spec_algo(), self.spec_key(), Seq::empty(), d, c)
                            && gunzip_of(c) is None
                    &&& forall|pt: Seq<u8>|
                        self.spec_algo().sealable(0, gzip_of(pt).len()) && opens_to(
                            self.spec_algo(),
                            self.spec_key(),
                            Seq::empty(),
                            d,
                            gzip_of(pt),
                        ) ==> r is Ok && r->Ok_0@ == pt
                }
            }),
    {
        match stored {
            None => Err(VaultError::NotFound),
            Some(data) => {
                if self.compress {
                    let r = self.encryptor.decrypt_compressed(data.as_slice(), None);
                    proof {
                        let a = spec_aad(None::<&[u8]>);
                        assert(a =~= Seq::<u8>::empty());
                        if r is Ok {
                            let c = choose|c: Seq<u8>|
                                opens_to(self.spec_algo(), self.spec_key(), a, data@, c)
                                    && gunzip_of(c) == Some(r->Ok_0@);
                            assert(opens_to(
                                self.spec_algo(),
                                self.spec_key(),
                                Seq::<u8>::empty(),
                                data@,
                                c,
                            ) && gunzip_of(c) == Some(r->Ok_0@));
                        }
                        if r is Err && r->Err_0 == VaultError::CompressionError {
                            let c = choose|c: Seq<u8>|
                                opens_to(self.spec_algo(), self.spec_key(), a, data@, c)
                                    && gunzip_of(c) is None;
                            assert(opens_to(
                                self.spec_algo(),
                                self.spec_key(),
                                Seq::<u8>::empty(),
                                data@,
                                c,
                            ) && gunzip_of(c) is None);
                        }
                        assert forall|pt: Seq<u8>|
                            self.spec_algo().sealable(0, gzip_of(pt).len()) && opens_to(
                                self.spec_algo(),
                                self.spec_key(),
                                Seq::<u8>::empty(),
                                data@,
                                gzip_of(pt),
                            ) implies r is Ok && r->Ok_0@ == pt by {
                            assert(opens_to(
                                self.spec_algo(),
                                self.spec_key(),
                                a,
                                data@,
                                gzip_of(pt),
                            ));
                        }
                    }
                    r
                } else {
                    let r = self.encryptor.decrypt(data.as_slice(), None);
                    proof {
                        let a = spec_aad(None::<&[u8]>);
                        assert(a =~= Seq::<u8>::empty());
                        assert forall|pt: Seq<u8>|
                            self.spec_algo().sealable(0, pt.len()) && opens_to(
                                self.spec_algo(),
                                self.spec_key(),
                                Seq::<u8>::empty(),
                                data@,
                                pt,
                            ) implies r is Ok && r->Ok_0@ == pt by {
                            assert(opens_to(self.spec_algo(), self.spec_key(), a, data@, pt));
                        }
                    }
                    r
                }
            },
        }
    }
}

} // verus!
