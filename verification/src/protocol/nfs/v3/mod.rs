//! NFS version 3 procedure handlers (RFC 1813 section 3.3).
//!
//! A handler alternates questions to the export table and the file system
//! with decisions. Each handler here is the decision part: given the call's
//! arguments and the answers gathered so far ([`Answers`]), it either asks
//! the next question ([`VfsRequest`]) or gives the complete reply. The caller
//! performs each request, records the answer in the slot the request names,
//! and asks again until the reply comes.
use vstd::prelude::*;

use crate::parser::cursor::{parsed_as, Cursor};
use crate::protocol::xdr::nfs3::dir::{MkDir3Args, MkDir3ArgsView};
use crate::protocol::xdr::nfs3::file::{LINK3args, LINK3argsView, READ3args, WRITE3args, WRITE3argsView};
use crate::protocol::xdr::nfs3::fs::PATHCONF3args;
use crate::protocol::xdr::nfs3::fs_object::GETATTR3args;
use crate::protocol::xdr::nfs3::{FAttr3, NFSFh3, NFSStat3};
use crate::protocol::xdr::rpc::{accepted_header, proc_unavail_reply, success_header, success_reply};
use crate::protocol::xdr::{Deserialize, Serialize};
use crate::rpc::{Error, Parsed};
use crate::vfs::Capabilities;
use getattr::{getattr_step, nfsproc3_getattr};
use link::{link_step, nfsproc3_link};
use mkdir::{mkdir_step, nfsproc3_mkdir};
use pathconf::{nfsproc3_pathconf, pathconf_step};
use read::{nfsproc3_read, read_step};
use write::{nfsproc3_write, write_step};

pub mod getattr;
pub mod link;
pub mod mkdir;
pub mod pathconf;
pub mod read;
pub mod write;

verus! {

/// The next question a handler asks; each names the slot of [`Answers`]
/// its answer goes to.
#[derive(Debug, Clone, Copy, PartialEq, Eq)]
pub enum VfsRequest {
    /// Look up the export of file system `fs_id`; answer in `export`.
    FindExport(u64),
    /// Map the handle of the object acted on to its id; answer in `file_id`.
    FileId(NFSFh3),
    /// Map the handle of a directory to its id; answer in `dir_id`.
    DirId(NFSFh3),
    /// Attributes before the operation; answer in `attr_before`.
    AttrBefore(u64),
    /// Read `count` bytes at `offset` of a file; answer in `outcome`.
    Read(u64, u64, u32),
    /// Write the call's data at `offset` of a file; answer in `outcome`.
    Write(u64, u64),
    /// Link a file into a directory under the call's name; answer in `outcome`.
    Link(u64, u64),
    /// Create a directory under the call's name; answer in `outcome`.
    MkDir(u64),
    /// Attributes of a directory after the operation; answer in `attr_after`.
    AttrAfter(u64),
    /// Attributes of the file acted on after the operation; answer in `file_attr`.
    FileAttr(u64),
    /// The handle of object `id` of file system `fs_id`; answer in `handle`.
    Handle(u64, u64),
    /// The server's write verifier; answer in `server_id`.
    ServerId,
}

/// The result of the operation a handler asked for.
#[derive(Debug)]
pub enum Outcome {
    /// Attributes after a write or a link, or why it failed.
    Attr(Result<FAttr3, NFSStat3>),
    /// Bytes read and whether the end of the file was reached, or why not.
    Read(Result<(Vec<u8>, bool), NFSStat3>),
    /// The id and attributes of a new object, or why it was not made.
    Created(Result<(u64, FAttr3), NFSStat3>),
}

/// The answers gathered so far for one call; `None` where nothing was asked.
#[derive(Debug)]
pub struct Answers {
    /// The export of the file system: `Some(None)` when there is none, else
    /// what it allows.
    pub export: Option<Option<Capabilities>>,
    pub file_id: Option<Result<u64, NFSStat3>>,
    pub dir_id: Option<Result<u64, NFSStat3>>,
    pub attr_before: Option<Result<FAttr3, NFSStat3>>,
    pub outcome: Option<Outcome>,
    pub attr_after: Option<Result<FAttr3, NFSStat3>>,
    pub file_attr: Option<Result<FAttr3, NFSStat3>>,
    pub handle: Option<NFSFh3>,
    pub server_id: Option<[u8; 8]>,
}

impl Answers {
    /// Nothing answered yet.
    pub fn new() -> (r: Answers)
        ensures
            r.export is None,
            r.file_id is None,
            r.dir_id is None,
            r.attr_before is None,
            r.outcome is None,
            r.attr_after is None,
            r.file_attr is None,
            r.handle is None,
            r.server_id is None,
    {
        Answers {
            export: None,
            file_id: None,
            dir_id: None,
            attr_before: None,
            outcome: None,
            attr_after: None,
            file_attr: None,
            handle: None,
            server_id: None,
        }
    }
}

/// What a handler does next.
#[derive(Debug)]
pub enum Step {
    /// Ask this question.
    Ask(VfsRequest),
    /// Send these bytes as the reply.
    Reply(Vec<u8>),
    /// Give up with this error: the arguments could not be decoded, or
    /// the reply cannot be encoded.
    Fail(Error),
}

/// What a handler does next, with the reply by its bytes.
pub enum Next {
    Ask(VfsRequest),
    Reply(Seq<u8>),
    Fail(Error),
}

/// `r` is the step `n`.
pub open spec fn step_is(r: Step, n: Next) -> bool {
    match n {
        Next::Ask(q) => r matches Step::Ask(q2) && q2 == q,
        Next::Reply(b) => r matches Step::Reply(v) && v@ == b,
        Next::Fail(e) => r matches Step::Fail(e2) && e2 == e,
    }
}

/// Attributes when they were obtained.
pub open spec fn attr_ok(r: Result<FAttr3, NFSStat3>) -> Option<FAttr3> {
    match r {
        Ok(a) => Some(a),
        Err(_) => None,
    }
}

/// Attributes when they were obtained.
pub fn ok_attr(r: &Result<FAttr3, NFSStat3>) -> (a: Option<FAttr3>)
    ensures
        a == attr_ok(*r),
{
    match r {
        Ok(a) => Some(*a),
        Err(_) => None,
    }
}

/// Appends the encoding of a value that has one.
pub fn push<T: Serialize>(v: &T, out: &mut Vec<u8>)
    requires
        v.encodable(),
    ensures
        final(out)@ == old(out)@ + v.encoding(),
{
    let _ = v.serialize(out);
}

/// The arguments of an NFS version 3 call, by procedure, for the
/// procedures handled here; `INVALID` stands for any other procedure.
#[allow(non_camel_case_types)]
#[derive(Debug)]
pub enum NFSv3_args {
    NULL,
    GETATTR(GETATTR3args),
    READ(READ3args),
    WRITE(WRITE3args),
    MKDIR(MkDir3Args),
    LINK(LINK3args),
    PATHCONF(PATHCONF3args),
    INVALID,
}

/// [`NFSv3_args`] with its arguments by their views.
#[allow(non_camel_case_types)]
pub enum NFSv3_argsView {
    NULL,
    GETATTR(GETATTR3args),
    READ(READ3args),
    WRITE(WRITE3argsView),
    MKDIR(MkDir3ArgsView),
    LINK(LINK3argsView),
    PATHCONF(PATHCONF3args),
    INVALID,
}

impl View for NFSv3_args {
    type V = NFSv3_argsView;

    open spec fn view(&self) -> NFSv3_argsView {
        match self {
            NFSv3_args::NULL => NFSv3_argsView::NULL,
            NFSv3_args::GETATTR(a) => NFSv3_argsView::GETATTR(*a),
            NFSv3_args::READ(a) => NFSv3_argsView::READ(*a),
            NFSv3_args::WRITE(a) => NFSv3_argsView::WRITE(a@),
            NFSv3_args::MKDIR(a) => NFSv3_argsView::MKDIR(a@),
            NFSv3_args::LINK(a) => NFSv3_argsView::LINK(a@),
            NFSv3_args::PATHCONF(a) => NFSv3_argsView::PATHCONF(*a),
            NFSv3_args::INVALID => NFSv3_argsView::INVALID,
        }
    }
}

/// NULL.
pub const NFSPROC3_NULL: u32 = 0;

/// GETATTR.
pub const NFSPROC3_GETATTR: u32 = 1;

/// READ.
pub const NFSPROC3_READ: u32 = 6;

/// WRITE.
pub const NFSPROC3_WRITE: u32 = 7;

/// MKDIR.
pub const NFSPROC3_MKDIR: u32 = 9;

/// LINK.
pub const NFSPROC3_LINK: u32 = 15;

/// PATHCONF.
pub const NFSPROC3_PATHCONF: u32 = 20;

/// Wraps what `r` decoded into a variant of the arguments.
pub open spec fn wrap_args<A>(r: Parsed<A>, f: spec_fn(A) -> NFSv3_argsView) -> Parsed<NFSv3_argsView> {
    match r {
        Ok((a, end)) => Ok((f(a), end)),
        Err(e) => Err(e),
    }
}

/// Decoding the arguments of procedure `procedure` at `at`; a procedure
/// not handled here reads nothing.
pub open spec fn nfs3_args_decoding(s: Seq<u8>, at: int, procedure: u32) -> Parsed<NFSv3_argsView> {
    if procedure == NFSPROC3_NULL {
        Ok((NFSv3_argsView::NULL, at))
    } else if procedure == NFSPROC3_GETATTR {
        wrap_args(<GETATTR3args as Deserialize>::decoding(s, at), |a| NFSv3_argsView::GETATTR(a))
    } else if procedure == NFSPROC3_READ {
        wrap_args(<READ3args as Deserialize>::decoding(s, at), |a| NFSv3_argsView::READ(a))
    } else if procedure == NFSPROC3_WRITE {
        wrap_args(<WRITE3args as Deserialize>::decoding(s, at), |a| NFSv3_argsView::WRITE(a))
    } else if procedure == NFSPROC3_MKDIR {
        wrap_args(<MkDir3Args as Deserialize>::decoding(s, at), |a| NFSv3_argsView::MKDIR(a))
    } else if procedure == NFSPROC3_LINK {
        wrap_args(<LINK3args as Deserialize>::decoding(s, at), |a| NFSv3_argsView::LINK(a))
    } else if procedure == NFSPROC3_PATHCONF {
        wrap_args(<PATHCONF3args as Deserialize>::decoding(s, at), |a| NFSv3_argsView::PATHCONF(a))
    } else {
        Ok((NFSv3_argsView::INVALID, at))
    }
}

/// Decodes the arguments of a call of procedure `procedure` from `input`.
pub fn parse_nfs3_args(procedure: u32, input: &mut Cursor) -> (r: Result<NFSv3_args, Error>)
    requires
        old(input).wf(),
    ensures
        parsed_as(*old(input), *final(input), r, nfs3_args_decoding(old(input).bytes(), old(input).pos(), procedure)),
{
    if procedure == NFSPROC3_NULL {
        Ok(NFSv3_args::NULL)
    } else if procedure == NFSPROC3_GETATTR {
        Ok(NFSv3_args::GETATTR(<GETATTR3args as Deserialize>::deserialize(input)?))
    } else if procedure == NFSPROC3_READ {
        Ok(NFSv3_args::READ(<READ3args as Deserialize>::deserialize(input)?))
    } else if procedure == NFSPROC3_WRITE {
        Ok(NFSv3_args::WRITE(<WRITE3args as Deserialize>::deserialize(input)?))
    } else if procedure == NFSPROC3_MKDIR {
        Ok(NFSv3_args::MKDIR(<MkDir3Args as Deserialize>::deserialize(input)?))
    } else if procedure == NFSPROC3_LINK {
        Ok(NFSv3_args::LINK(<LINK3args as Deserialize>::deserialize(input)?))
    } else if procedure == NFSPROC3_PATHCONF {
        Ok(NFSv3_args::PATHCONF(<PATHCONF3args as Deserialize>::deserialize(input)?))
    } else {
        Ok(NFSv3_args::INVALID)
    }
}

/// What the call `arg` does next, given the answers `k`: `NULL` replies
/// with an empty success, an unknown procedure with `PROC_UNAVAIL`, and
/// the others go to their handler.
pub open spec fn nfs_step(xid: u32, arg: NFSv3_args, k: Answers) -> Next {
    match arg {
        NFSv3_args::NULL => Next::Reply(success_header(xid)),
        NFSv3_args::GETATTR(a) => getattr_step(xid, a, k),
        NFSv3_args::READ(a) => read_step(xid, a, k),
        NFSv3_args::WRITE(a) => write_step(xid, a, k),
        NFSv3_args::MKDIR(a) => mkdir_step(xid, a, k),
        NFSv3_args::LINK(a) => link_step(xid, a, k),
        NFSv3_args::PATHCONF(a) => pathconf_step(xid, a.object, k),
        NFSv3_args::INVALID => Next::Reply(accepted_header(xid, 3)),
    }
}

/// Dispatches the decoded call `arg` to the handler of its procedure; a
/// call whose arguments could not be decoded fails with the decoding
/// error and nothing is sent.
pub fn handle_nfs(xid: u32, arg: &Result<NFSv3_args, Error>, known: &Answers) -> (r: Step)
    ensures
        match *arg {
            Ok(a) => step_is(r, nfs_step(xid, a, *known)),
            Err(e) => r matches Step::Fail(e2) && e2 == e,
        },
{
    let arg = match arg {
        Ok(a) => a,
        Err(e) => return Step::Fail(*e),
    };
    match arg {
        NFSv3_args::NULL => Step::Reply(success_reply(xid)),
        NFSv3_args::GETATTR(a) => nfsproc3_getattr(xid, a, known),
        NFSv3_args::READ(a) => nfsproc3_read(xid, a, known),
        NFSv3_args::WRITE(a) => nfsproc3_write(xid, a, known),
        NFSv3_args::MKDIR(a) => nfsproc3_mkdir(xid, a, known),
        NFSv3_args::LINK(a) => nfsproc3_link(xid, a, known),
        NFSv3_args::PATHCONF(a) => nfsproc3_pathconf(xid, &a.object, known),
        NFSv3_args::INVALID => Step::Reply(proc_unavail_reply(xid)),
    }
}

/// Each decoded call goes to the handler of its own procedure; `NULL` is
/// answered with an empty success and a procedure not served with
/// `PROC_UNAVAIL`.
pub proof fn law_each_call_goes_to_its_handler(xid: u32, arg: NFSv3_args, k: Answers)
    ensures
        match arg {
            NFSv3_args::NULL => nfs_step(xid, arg, k) == Next::Reply(success_header(xid)),
            NFSv3_args::GETATTR(a) => nfs_step(xid, arg, k) == getattr_step(xid, a, k),
            NFSv3_args::READ(a) => nfs_step(xid, arg, k) == read_step(xid, a, k),
            NFSv3_args::WRITE(a) => nfs_step(xid, arg, k) == write_step(xid, a, k),
            NFSv3_args::MKDIR(a) => nfs_step(xid, arg, k) == mkdir_step(xid, a, k),
            NFSv3_args::LINK(a) => nfs_step(xid, arg, k) == link_step(xid, a, k),
            NFSv3_args::PATHCONF(a) => nfs_step(xid, arg, k) == pathconf_step(xid, a.object, k),
            NFSv3_args::INVALID => nfs_step(xid, arg, k) == Next::Reply(accepted_header(xid, 3)),
        },
{
}

} // verus!
