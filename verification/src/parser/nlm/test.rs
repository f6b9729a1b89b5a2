//! Implements parsing for [`Nlm4TestArgs`] structure.
use vstd::prelude::*;

use crate::nlm::procedures::Nlm4TestArgs;
use crate::nlm::{Cookie, Nlm4Lock, OpaqueHandle, LM_MAXSTRLEN};
use crate::parser::cursor::{parsed_as, spec_u64, Cursor};
use crate::parser::nfsv3::nfs_fh3;
use crate::parser::nlm::{lock_refused_at, spec_nlm4_lock};
use crate::parser::primitive::{self, spec_bool};
use crate::rpc::{and_then, Error, Parsed};

verus! {

/// Arguments of `TEST`: the lock description, the cookie, the exclusive flag.
pub open spec fn spec_test_args(s: Seq<u8>, at: int) -> Parsed<
    (u64, bool, (Seq<char>, Seq<u8>, Seq<u8>, i32, u64, u64)),
> {
    and_then(spec_nlm4_lock(s, at), |lock: (Seq<char>, Seq<u8>, Seq<u8>, i32, u64, u64), p: int|
        and_then(spec_u64(s, p), |cookie: u64, q: int|
            and_then(spec_bool(s, q), |exclusive: bool, e: int| Ok(((cookie, exclusive, lock), e)))))
}

/// Parses the arguments for an NLMv4 `TEST` operation from the source.
pub fn test(src: &mut Cursor) -> (r: Result<Nlm4TestArgs, Error>)
    requires
        old(src).wf(),
    ensures
        parsed_as(*old(src), *final(src), r, spec_test_args(old(src).bytes(), old(src).pos())),
        forall|end: int|
            #[trigger] lock_refused_at(old(src).bytes(), old(src).pos(), end) ==> r == Err::<Nlm4TestArgs, Error>(
                Error::BadFileHandle,
            ) && final(src).pos() == end,
{
    let caller_name = primitive::string_max_size(src, LM_MAXSTRLEN)?;
    let fh = nfs_fh3(src)?;
    let oh = OpaqueHandle::new(primitive::vector(src)?);
    let svid = primitive::i32(src)?;
    let offset = primitive::u64(src)?;
    let length = primitive::u64(src)?;
    let lock = match Nlm4Lock::new(caller_name, fh, oh, svid, offset, length) {
        Ok(l) => l,
        Err(_) => return Err(Error::BadFileHandle),
    };
    let cookie = Cookie::new(primitive::u64(src)?);
    let exclusive = primitive::bool(src)?;
    Ok(Nlm4TestArgs { cookie, exclusive, lock })
}

} // verus!
