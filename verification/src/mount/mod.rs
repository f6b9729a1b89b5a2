//! MOUNT protocol (RFC 1813 appendix I) constants and argument types.
pub mod mnt;
pub mod umnt;

use vstd::prelude::*;

verus! {

/// RPC program number of MOUNT.
pub const MOUNT_PROGRAM: u32 = 100005;
/// The MOUNT version served.
pub const MOUNT_VERSION: u32 = 3;
/// Longest directory path a MOUNT request may carry, in bytes.
pub const MOUNT_DIRPATH_LEN: usize = 1024;

} // verus!
