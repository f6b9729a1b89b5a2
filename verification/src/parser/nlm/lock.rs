//! Implements parsing for [`Nlm4LockArgs`] structure.
use vstd::prelude::*;

use crate::nlm::procedures::Nlm4LockArgs;
use crate::nlm::{range_valid, Cookie, Nlm4Lock, OpaqueHandle, LM_MAXSTRLEN};
use crate::parser::cursor::{parsed_as, spec_u32, spec_u64, Cursor};
use crate::parser::nfsv3::nfs_fh3;
use crate::parser::nlm::spec_lock_body;
use crate::parser::primitive::{self, spec_bool, spec_string_max_size};
use crate::rpc::{and_then, Error, Parsed};

verus! {

/// The fields of `LOCK` up to the lock description: caller name, cookie,
/// block and exclusive flags, file handle, owner handle, owner id, offset and length.
pub open spec fn spec_lock_head(s: Seq<u8>, at: int) -> Parsed<(Seq<char>, u64, bool, bool)> {
    and_then(spec_string_max_size(s, at, LM_MAXSTRLEN as int), |name: Seq<char>, p1: int|
        and_then(spec_u64(s, p1), |cookie: u64, p2: int|
            and_then(spec_bool(s, p2), |block: bool, p3: int|
                and_then(spec_bool(s, p3), |exclusive: bool, p4: int|
                    Ok(((name, cookie, block, exclusive), p4))))))
}

/// Arguments of `LOCK`, in the order the parser reads them.
pub open spec fn spec_lock_args(s: Seq<u8>, at: int) -> Parsed<
    (u64, bool, bool, (Seq<char>, Seq<u8>, Seq<u8>, i32, u64, u64), bool, u32),
> {
    and_then(spec_lock_head(s, at), |h: (Seq<char>, u64, bool, bool), p: int|
        and_then(spec_lock_body(s, p, h.0), |lock: (Seq<char>, Seq<u8>, Seq<u8>, i32, u64, u64), q: int|
            and_then(spec_bool(s, q), |reclaim: bool, q2: int|
                and_then(spec_u32(s, q2), |state: u32, e: int|
                    Ok(((h.1, h.2, h.3, lock, reclaim, state), e))))))
}

/// The lock range in the bytes at `at` is one a lock can describe (a
/// `LOCK` request whose range cannot be described is not accepted).
pub open spec fn lock_range_describable(s: Seq<u8>, at: int) -> bool {
    match spec_lock_head(s, at) {
        Ok((_, p)) => spec_lock_body(s, p, Seq::empty()) != Err::<
            ((Seq<char>, Seq<u8>, Seq<u8>, i32, u64, u64), int),
            Error,
        >(Error::BadFileHandle),
        Err(_) => true,
    }
}

/// Parses the arguments for an NLMv4 `LOCK` operation from the source.
pub fn lock(src: &mut Cursor) -> (r: Result<Nlm4LockArgs, Error>)
    requires
        old(src).wf(),
        lock_range_describable(old(src).bytes(), old(src).pos()),
    ensures
        parsed_as(*old(src), *final(src), r, spec_lock_args(old(src).bytes(), old(src).pos())),
{
    let caller_name = primitive::string_max_size(src, LM_MAXSTRLEN)?;
    let cookie = Cookie::new(primitive::u64(src)?);
    let block = primitive::bool(src)?;
    let exclusive = primitive::bool(src)?;
    let fh = nfs_fh3(src)?;
    let oh = OpaqueHandle::new(primitive::vector(src)?);
    let svid = primitive::i32(src)?;
    let offset = primitive::u64(src)?;
    let length = primitive::u64(src)?;
    let lock = match Nlm4Lock::new(caller_name, fh, oh, svid, offset, length) {
        Ok(l) => l,
        Err(_) => return Err(Error::BadFileHandle),
    };
    let reclaim = primitive::bool(src)?;
    let state = primitive::u32(src)?;
    Ok(Nlm4LockArgs { cookie, block, exclusive, lock, reclaim, state })
}

} // verus!
