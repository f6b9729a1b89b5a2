//! NFS version 4 (RFC 7530): `NULL` and `COMPOUND`.
use vstd::prelude::*;

use crate::parser::cursor::Cursor;
use crate::protocol::xdr::nfs4::operations::compound_args_decoding;
use crate::protocol::xdr::nfs4::{NFSFh4, NFSOpNum4, StateId4};
use crate::protocol::xdr::rpc::{
    accepted_header, call_body, proc_unavail_reply, prog_mismatch_bytes, prog_mismatch_reply,
    success_header, success_reply,
};
use crate::protocol::xdr::DeserializeEnum;
use crate::rpc::Error;
use compound::{compound_reply, nfsproc4_compound};

pub mod compound;
pub mod operations;

verus! {

/// The NFS version served by this module.
pub const VERSION: u32 = 4;

/// Handles `NULL`: an empty success reply.
pub fn nfsproc4_null(xid: u32) -> (r: Vec<u8>)
    ensures
        r@ == success_header(xid),
{
    success_reply(xid)
}

/// The operation that procedure number `procedure` names; a number that
/// names none is `ILLEGAL`.
pub open spec fn opnum_of(procedure: u32) -> NFSOpNum4 {
    if procedure <= i32::MAX {
        match NFSOpNum4::of_discriminant(procedure as i32) {
            Some(op) => op,
            None => NFSOpNum4::OpIllegal,
        }
    } else {
        NFSOpNum4::OpIllegal
    }
}

/// The operation that procedure number `procedure` names.
fn opnum_from_u32(procedure: u32) -> (r: NFSOpNum4)
    ensures
        r == opnum_of(procedure),
{
    if procedure > 0x7fff_ffff {
        return NFSOpNum4::OpIllegal;
    }
    match NFSOpNum4::from_i32(procedure as i32) {
        Some(op) => op,
        None => NFSOpNum4::OpIllegal,
    }
}

/// Handles a version 4 call: a call of another version is answered with
/// the version served, `NULL` with an empty success, `COMPOUND` by
/// [`nfsproc4_compound`], and any other procedure with `PROC_UNAVAIL`.
pub fn handle_nfs(xid: u32, call: &call_body, input: &mut Cursor) -> (r: Result<Vec<u8>, Error>)
    requires
        old(input).wf(),
    ensures
        final(input).bytes() == old(input).bytes(),
        final(input).wf(),
        call.vers != VERSION ==> (r matches Ok(b) && b@ == prog_mismatch_bytes(xid, VERSION, VERSION)),
        call.vers == VERSION ==> match opnum_of(call.proc) {
            NFSOpNum4::OpNull => r matches Ok(b) && b@ == success_header(xid),
            NFSOpNum4::OpCompound => match compound_args_decoding(old(input).bytes(), old(input).pos()) {
                Err(e) => r == Err::<Vec<u8>, Error>(e),
                Ok((args, end)) => final(input).pos() == end && (r matches Ok(b) && b@ == compound_reply(
                    xid,
                    args.tag,
                )),
            },
            _ => r matches Ok(b) && b@ == accepted_header(xid, 3),
        },
{
    if call.vers != VERSION {
        return Ok(prog_mismatch_reply(xid, VERSION, VERSION));
    }
    match opnum_from_u32(call.proc) {
        NFSOpNum4::OpNull => Ok(nfsproc4_null(xid)),
        NFSOpNum4::OpCompound => nfsproc4_compound(xid, input),
        _ => Ok(proc_unavail_reply(xid)),
    }
}

/// What one compound request works on while it runs (RFC 7530 section
/// 16.2.3): the current and saved file handles and state ids, and the minor
/// version.
#[derive(Debug)]
pub struct NFSv4Context {
    current_file_handler: NFSFh4,
    saved_file_handler: NFSFh4,
    current_stateid: StateId4,
    saved_stateid: StateId4,
    minor_version: u32,
}

impl NFSv4Context {
    /// The bytes of the current file handle.
    pub closed spec fn current_fh(&self) -> Seq<u8> {
        self.current_file_handler.data@
    }

    /// The bytes of the saved file handle.
    pub closed spec fn saved_fh(&self) -> Seq<u8> {
        self.saved_file_handler.data@
    }

    /// Both state ids are the anonymous one.
    pub closed spec fn stateids_anonymous(&self) -> bool {
        self.current_stateid.is_anonymous() && self.saved_stateid.is_anonymous()
    }

    /// The minor version of the request.
    pub closed spec fn minor(&self) -> u32 {
        self.minor_version
    }

    /// The context a request starts in: both file handles at the root
    /// `root`, both state ids anonymous, minor version 0.
    pub fn new(root: &NFSFh4) -> (r: NFSv4Context)
        ensures
            r.current_fh() == root.data@,
            r.saved_fh() == root.data@,
            r.stateids_anonymous(),
            r.minor() == 0,
    {
        NFSv4Context {
            current_file_handler: NFSFh4 { data: copy_bytes(&root.data) },
            saved_file_handler: NFSFh4 { data: copy_bytes(&root.data) },
            current_stateid: StateId4::anonymous(),
            saved_stateid: StateId4::anonymous(),
            minor_version: 0,
        }
    }
}

/// A copy of `b`.
fn copy_bytes(b: &Vec<u8>) -> (r: Vec<u8>)
    ensures
        r@ == b@,
{
    let mut out: Vec<u8> = Vec::with_capacity(b.len());
    let mut i: usize = 0;
    while i < b.len()
        invariant
            0 <= i <= b@.len(),
            out@ == b@.take(i as int),
        decreases b@.len() - i,
    {
        out.push(b[i]);
        i = i + 1;
        assert(out@ =~= b@.take(i as int));
    }
    assert(b@.take(b@.len() as int) =~= b@);
    out
}

} // verus!
