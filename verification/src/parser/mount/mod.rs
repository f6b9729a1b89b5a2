//! Parsing of MOUNT procedure arguments.
pub mod mnt;
pub mod umnt;

use vstd::prelude::*;

use crate::mount::MOUNT_DIRPATH_LEN;
use crate::parser::cursor::Cursor;
use crate::parser::primitive::{self, spec_string_max_size};
use crate::parser::stop::stop_mount_args;
use crate::rpc::{Error, Parsed};
use crate::vfs::file::Path;

verus! {

/// A MOUNT directory path: a string of at most [`MOUNT_DIRPATH_LEN`] bytes.
pub open spec fn spec_dirpath(s: Seq<u8>, at: int) -> Parsed<Seq<char>> {
    spec_string_max_size(s, at, MOUNT_DIRPATH_LEN as int)
}

/// Parses a MOUNT directory path.
pub fn dirpath(src: &mut Cursor) -> (r: Result<Path, Error>)
    requires
        old(src).wf(),
    ensures
        crate::parser::cursor::parsed_as(*old(src), *final(src), r, spec_dirpath(old(src).bytes(), old(src).pos())),
        r is Err ==> final(src).pos() == stop_mount_args(old(src).bytes(), old(src).pos(), 1),
{
    let s = primitive::string_max_size(src, MOUNT_DIRPATH_LEN)?;
    proof {
        vstd::utf8::decode_utf8_encode_utf8(
            primitive::spec_vec_max_size(old(src).bytes(), old(src).pos(), MOUNT_DIRPATH_LEN as int).unwrap().0,
        );
    }
    Path::new(s)
}

} // verus!
