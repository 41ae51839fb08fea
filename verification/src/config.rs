use vstd::prelude::*;

verus! {

/// Startup configuration: where the key lives and where sealed files go.
/// Loading it from disk is a collaborator's job; the core only carries the
/// two paths.
pub struct Config {
    pub key_path: String,
    pub storage_dir: String,
}

} // verus!
