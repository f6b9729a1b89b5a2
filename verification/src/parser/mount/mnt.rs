//! Parsing of the arguments of the MOUNT `MNT` procedure.
use vstd::prelude::*;

use crate::mount::mnt::Args;
use crate::parser::cursor::{parsed_as, Cursor};
use crate::parser::mount::{dirpath, spec_dirpath};
use crate::parser::stop::stop_mount_args;
use crate::rpc::Error;

verus! {

/// Parses the arguments of `MNT`: a directory path.
pub fn mount(src: &mut Cursor) -> (r: Result<Args, Error>)
    requires
        old(src).wf(),
    ensures
        parsed_as(*old(src), *final(src), r, spec_dirpath(old(src).bytes(), old(src).pos())),
        r is Err ==> final(src).pos() == stop_mount_args(old(src).bytes(), old(src).pos(), 1),
{
    let dirpath = dirpath(src)?;
    Ok(Args { dirpath })
}

} // verus!
