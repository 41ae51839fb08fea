use vstd::prelude::*;

verus! {

/// What gzip compression at the default level produces for a byte sequence.
/// Deterministic: flate2 writes no timestamp (mtime 0) and a fixed
/// operating-system byte into the header.
pub uninterp spec fn gzip_of(data: Seq<u8>) -> Seq<u8>;

/// Relies on flate2: `write::GzEncoder` at `Compression::default()` emits a
/// gzip stream that is a function of the input bytes alone.  Writing into an
/// in-memory `Vec` sink cannot fail.
#[verifier::external_body]
pub(crate) fn gzip_compress(data: &[u8]) -> (r: Vec<u8>)
    ensures
        r@ == gzip_of(data@),
{
    let mut encoder = flate2::write::GzEncoder::new(Vec::new(), flate2::Compression::default());
    std::io::Write::write_all(&mut encoder, data)
        .expect("writing to an in-memory gzip encoder cannot fail");
    encoder.finish().expect("finishing an in-memory gzip encoder cannot fail")
}

/// What gzip decompression returns for a byte stream: the inflated bytes,
/// or nothing when the stream is not well-formed gzip.  Deterministic in
/// the input bytes alone.
pub uninterp spec fn gunzip_of(data: Seq<u8>) -> Option<Seq<u8>>;

/// Relies on flate2: `write::GzDecoder` inverts `write::GzEncoder`, so a
/// stream produced by compression decodes to exactly the bytes that were
/// compressed, and a malformed stream makes the decoder report an error.
#[verifier::external_body]
pub(crate) fn gzip_decompress(data: &[u8]) -> (r: Option<Vec<u8>>)
    ensures
        r is Some ==> gunzip_of(data@) == Some(r->0@),
        r is None ==> gunzip_of(data@) is None,
        forall|p: Seq<u8>| data@ == gzip_of(p) ==> r is Some && r->0@ == p,
{
    let mut decoder = flate2::write::GzDecoder::new(Vec::new());
    match std::io::Write::write_all(&mut decoder, data) {
        Ok(()) => decoder.finish().ok(),
        Err(_) => None,
    }
}

} // verus!
