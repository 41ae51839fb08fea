use vstd::prelude::*;

verus! {

/// Relies on rand_core: `OsRng::try_fill_bytes` fills the buffer from the
/// operating system's secure random source and reports failure instead of
/// panicking.  Nothing is promised of the bytes themselves.
#[verifier::external_body]
pub(crate) fn os_random_bytes(n: usize) -> (r: Option<Vec<u8>>)
    ensures
        r is Some ==> r->0@.len() == n,
{
    let mut buf = vec![0u8; n];
    match rand_core::RngCore::try_fill_bytes(&mut rand_core::OsRng, &mut buf) {
        Ok(()) => Some(buf),
        Err(_) => None,
    }
}

} // verus!
