//! Parsing of the arguments of the MOUNT `UMNT` procedure.
use vstd::prelude::*;

use crate::mount::umnt::Args;
use crate::parser::cursor::{parsed_as, Cursor};
use crate::parser::mount::{dirpath, spec_dirpath};
use crate::parser::stop::stop_mount_args;
use crate::rpc::Error;

verus! {

/// Parses the arguments of `UMNT`: a directory path.
pub fn unmount(src: &mut Cursor) -> (r: Result<Args, Error>)
    requires
        old(src).wf(),
    ensures
        parsed_as(*old(src), *final(src), r, spec_dirpath(old(src).bytes(), old(src).pos())),
        r is Err ==> final(src).pos() == stop_mount_args(old(src).bytes(), old(src).pos(), 3),
{
    let dirpath = dirpath(src)?;
    Ok(Args { dirpath })
}

} // verus!
