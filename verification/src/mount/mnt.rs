//! Arguments of the MOUNT `MNT` procedure.
use vstd::prelude::*;

use crate::vfs::file::Path;

verus! {

/// Arguments of `MNT`: the directory path.
#[derive(Debug, Clone, PartialEq, Eq)]
pub struct Args {
    pub dirpath: Path,
}

impl View for Args {
    type V = Seq<char>;

    open spec fn view(&self) -> Seq<char> {
        self.dirpath@
    }
}

} // verus!
