//! Parsing of NLMv4 procedure arguments.
pub mod lock;
pub mod test;
pub mod unlock;

use vstd::prelude::*;

use crate::nlm::{range_valid, LM_MAXSTRLEN};
use crate::parser::cursor::{spec_u64, Cursor};
use crate::parser::nfsv3::spec_nfs_fh3;
use crate::parser::primitive::{spec_i32, spec_string_max_size, spec_vector};
use crate::rpc::{and_then, Error, Parsed};

verus! {

/// The description of a lock: caller name, file handle, owner handle,
/// owner id, offset and length; a range that cannot be described is
/// reported as a bad file handle.
pub open spec fn spec_nlm4_lock(s: Seq<u8>, at: int) -> Parsed<
    (Seq<char>, Seq<u8>, Seq<u8>, i32, u64, u64),
> {
    and_then(spec_string_max_size(s, at, LM_MAXSTRLEN as int), |name: Seq<char>, p1: int|
        spec_lock_body(s, p1, name))
}

/// The fields of a lock description, whatever range they describe.
pub open spec fn spec_lock_fields(s: Seq<u8>, at: int) -> Parsed<
    (Seq<char>, Seq<u8>, Seq<u8>, i32, u64, u64),
> {
    and_then(spec_string_max_size(s, at, LM_MAXSTRLEN as int), |name: Seq<char>, p1: int|
        and_then(spec_nfs_fh3(s, p1), |fh: Seq<u8>, p2: int|
            and_then(spec_vector(s, p2), |oh: Seq<u8>, p3: int|
                and_then(spec_i32(s, p3), |svid: i32, p4: int|
                    and_then(spec_u64(s, p4), |offset: u64, p5: int|
                        and_then(spec_u64(s, p5), |length: u64, p6: int|
                            Ok(((name, fh, oh, svid, offset, length), p6))))))))
}

/// The fields of a lock description decode, ending at `end`, but describe
/// a range that cannot be locked.
pub open spec fn lock_refused_at(s: Seq<u8>, at: int, end: int) -> bool {
    spec_lock_fields(s, at) matches Ok((l, e)) && e == end && !range_valid(l.4, l.5)
}

/// The lock description after the caller name.
pub open spec fn spec_lock_body(s: Seq<u8>, at: int, name: Seq<char>) -> Parsed<
    (Seq<char>, Seq<u8>, Seq<u8>, i32, u64, u64),
> {
    and_then(spec_nfs_fh3(s, at), |fh: Seq<u8>, p2: int|
        and_then(spec_vector(s, p2), |oh: Seq<u8>, p3: int|
            and_then(spec_i32(s, p3), |svid: i32, p4: int|
                and_then(spec_u64(s, p4), |offset: u64, p5: int|
                    and_then(spec_u64(s, p5), |length: u64, p6: int|
                        if range_valid(offset, length) {
                            Ok(((name, fh, oh, svid, offset, length), p6))
                        } else {
                            Err(Error::BadFileHandle)
                        })))))
}

} // verus!
