//! File-system facing value types that requests carry.
pub mod file;

use vstd::prelude::*;

verus! {

/// Longest path, in bytes, that a request may name.
pub const MAX_PATH_LEN: usize = 4096;

/// What an exported file system allows.
#[derive(Debug, Clone, Copy, PartialEq, Eq)]
pub enum Capabilities {
    ReadOnly,
    ReadWrite,
}

} // verus!
