//! Storage-interface plugin options.

use vstd::prelude::*;

verus! {

/// Mount options for a storage-interface volume.
#[derive(Debug, Clone, Default)]
pub struct CSIMountOptions {
    pub fs_type: Option<String>,
    pub mount_flags: Vec<String>,
    pub extra_keys_hcl: Vec<String>,
}

} // verus!
