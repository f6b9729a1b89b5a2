//! Decoding of whole RPC requests from the bytes a connection delivered.
//!
//! A request is one record-marked fragment (RFC 5531 section 11): a 4-byte
//! mark with the last-fragment bit and the fragment length, which here
//! counts the mark itself, then the call header up to the credential, and
//! right after it the procedure's arguments (RFC 1813 for NFSv3, appendix I
//! for MOUNT).
//!
//! [`RpcParser`] holds the bytes that arrived and not yet consumed. When they
//! end before a request does, nothing is consumed and the caller feeds more
//! bytes and asks again. After a protocol rejection (wrong message type, RPC
//! version, program, version, procedure or credential flavor) the rest of the
//! fragment is discarded, so the next request starts on a record boundary;
//! after any other error the stream stands where decoding stopped (see
//! [`crate::parser::stop`]).
use vstd::prelude::*;

use crate::mount::{MOUNT_PROGRAM, MOUNT_VERSION};
use crate::nfsv3::{
    ACCESS, COMMIT, CREATE, FSINFO, FSSTAT, GETATTR, LINK, LOOKUP, MKDIR, MKNOD, NFS_PROGRAM,
    NFS_VERSION, NULL, PATHCONF, READ, READDIR, READDIRPLUS, READLINK, REMOVE, RENAME, RMDIR,
    SETATTR, SYMLINK, WRITE,
};
use crate::parser::arguments::{Arguments, ArgumentsView};
use crate::parser::cursor::{eof, spec_u32, Cursor};
use crate::parser::mount::mnt::mount;
use crate::parser::mount::spec_dirpath;
use crate::parser::mount::umnt::unmount;
use crate::parser::primitive;
use crate::parser::procedures::{
    access_args, commit_args, create_args, fs_info_args, fs_stat_args, get_attr_args, link_args, lookup_args, mk_dir_args, mk_node_args, path_conf_args, read_args, read_dir_args, read_dir_plus_args, read_link_args, remove_args, rename_args, rm_dir_args, set_attr_args, spec_access_args, spec_commit_args, spec_create_args, spec_fs_info_args, spec_fs_stat_args, spec_get_attr_args, spec_link_args, spec_lookup_args, spec_mk_dir_args, spec_mk_node_args, spec_path_conf_args, spec_read_args, spec_read_dir_args, spec_read_dir_plus_args, spec_read_link_args, spec_remove_args, spec_rename_args, spec_rm_dir_args, spec_set_attr_args, spec_symlink_args, spec_write_args, symlink_args, write_args,
};
use crate::parser::rpc::{auth, spec_auth, RpcMessage};
use crate::parser::stop::{stop_auth, stop_mount_args, stop_nfs_args};
use crate::rpc::{
    is_protocol_rejection, AuthFlavor, AuthStat, Error, IoErrorKind, Parsed, RpcBody,
    VersionMismatch, RPC_VERSION,
};

verus! {

/// Size of the record mark that precedes each fragment.
pub const RMS_HEADER_SIZE: usize = 4;

/// Largest fragment accepted, and the default read size: enough for any
/// NFSv3 or MOUNT call but the data of a large `WRITE`.
pub const DEFAULT_SIZE: usize = 131072;

/// A spec parse whose failure also tells where the stream stands after it:
/// right after the last item read whole.
pub type Stepped<T> = Result<(T, int), (Error, int)>;

/// A decoded call: its header and its arguments.
#[derive(Debug)]
pub struct ParsedRpcCall {
    pub header: RpcMessage,
    pub arguments: Box<Arguments>,
}

/// A request that could not be decoded, with its transaction id when it was
/// read.
#[derive(Debug, Clone, Copy, PartialEq, Eq)]
pub struct ParseFailure {
    pub xid: Option<u32>,
    pub error: Error,
}

/// What decoding the next request of a byte stream gives.
pub enum RequestOutcome {
    /// A call, whose fragment ends at the given offset.
    Parsed(RpcMessage, ArgumentsView, int),
    /// A refused request: its transaction id when read, the error, and the
    /// offset where the stream then stands.
    Rejected(Option<u32>, Error, int),
    /// The bytes end before the request does; the transaction id when read.
    Incomplete(Option<u32>),
}

/// The last-fragment bit of a record mark.
pub open spec fn record_is_last(mark: u32) -> bool {
    (mark & 0x8000_0000u32) != 0
}

/// The fragment length of a record mark; a request's length counts its
/// mark too.
pub open spec fn record_frame_size(mark: u32) -> u32 {
    mark & 0x7FFF_FFFFu32
}

/// The flavors whose credentials are accepted.
pub open spec fn accepted_flavor(f: AuthFlavor) -> bool {
    f is AuthNone || f is Sys
}

/// The mismatch reported for a protocol whose only version is `v`.
pub open spec fn only_version(v: u32) -> VersionMismatch {
    VersionMismatch { low: v, high: v }
}

/// The call header after the transaction id: message type, RPC version,
/// program, version, procedure and credential.
pub open spec fn spec_call_header(s: Seq<u8>, at: int, xid: u32) -> Stepped<RpcMessage> {
    match spec_u32(s, at) {
        Err(e) => Err((e, at)),
        Ok((msg_type, p1)) => if msg_type != 0 {
            Err((Error::MessageTypeMismatch, p1))
        } else {
            match spec_u32(s, p1) {
                Err(e) => Err((e, p1)),
                Ok((rpc_version, p2)) => if rpc_version != RPC_VERSION {
                    Err((Error::RpcVersionMismatch(only_version(RPC_VERSION)), p2))
                } else {
                    spec_call_target(s, p2, xid)
                },
            }
        },
    }
}

/// Program, version, procedure, then the credential; the arguments follow
/// it directly.
pub open spec fn spec_call_target(s: Seq<u8>, at: int, xid: u32) -> Stepped<RpcMessage> {
    match spec_u32(s, at) {
        Err(e) => Err((e, at)),
        Ok((program, p1)) => match spec_u32(s, p1) {
            Err(e) => Err((e, p1)),
            Ok((version, p2)) => match spec_u32(s, p2) {
                Err(e) => Err((e, p2)),
                Ok((procedure, p3)) => match spec_auth(s, p3) {
                    Err(e) => Err((e, stop_auth(s, p3))),
                    Ok((cred, p4)) => if !accepted_flavor(cred.0) {
                        Err((Error::AuthError(AuthStat::BadCred), p4))
                    } else {
                        Ok((RpcMessage { xid, program, procedure, version, auth_flavor: cred.0 }, p4))
                    },
                },
            },
        },
    }
}

/// Wraps the arguments that `r` parsed into their variant.
pub open spec fn args_as<A>(r: Parsed<A>, f: spec_fn(A) -> ArgumentsView) -> Parsed<ArgumentsView> {
    match r {
        Ok((a, end)) => Ok((f(a), end)),
        Err(e) => Err(e),
    }
}

/// The arguments of NFSv3 procedure `procedure`.
pub open spec fn spec_nfs_args(s: Seq<u8>, at: int, procedure: u32) -> Parsed<ArgumentsView> {
    if procedure == NULL {
        Ok((ArgumentsView::Null, at))
    } else if procedure == GETATTR {
        args_as(spec_get_attr_args(s, at), |a| ArgumentsView::GetAttr(a))
    } else if procedure == SETATTR {
        args_as(spec_set_attr_args(s, at), |a| ArgumentsView::SetAttr(a))
    } else if procedure == LOOKUP {
        args_as(spec_lookup_args(s, at), |a| ArgumentsView::LookUp(a))
    } else if procedure == ACCESS {
        args_as(spec_access_args(s, at), |a| ArgumentsView::Access(a))
    } else if procedure == READLINK {
        args_as(spec_read_link_args(s, at), |a| ArgumentsView::ReadLink(a))
    } else if procedure == READ {
        args_as(spec_read_args(s, at), |a| ArgumentsView::Read(a))
    } else if procedure == WRITE {
        args_as(spec_write_args(s, at), |a| ArgumentsView::Write(a))
    } else if procedure == CREATE {
        args_as(spec_create_args(s, at), |a| ArgumentsView::Create(a))
    } else if procedure == MKDIR {
        args_as(spec_mk_dir_args(s, at), |a| ArgumentsView::MkDir(a))
    } else if procedure == SYMLINK {
        args_as(spec_symlink_args(s, at), |a| ArgumentsView::SymLink(a))
    } else if procedure == MKNOD {
        args_as(spec_mk_node_args(s, at), |a| ArgumentsView::MkNod(a))
    } else if procedure == REMOVE {
        args_as(spec_remove_args(s, at), |a| ArgumentsView::Remove(a))
    } else if procedure == RMDIR {
        args_as(spec_rm_dir_args(s, at), |a| ArgumentsView::RmDir(a))
    } else if procedure == RENAME {
        args_as(spec_rename_args(s, at), |a| ArgumentsView::Rename(a))
    } else if procedure == LINK {
        args_as(spec_link_args(s, at), |a| ArgumentsView::Link(a))
    } else if procedure == READDIR {
        args_as(spec_read_dir_args(s, at), |a| ArgumentsView::ReadDir(a))
    } else if procedure == READDIRPLUS {
        args_as(spec_read_dir_plus_args(s, at), |a| ArgumentsView::ReadDirPlus(a))
    } else if procedure == FSSTAT {
        args_as(spec_fs_stat_args(s, at), |a| ArgumentsView::FsStat(a))
    } else if procedure == FSINFO {
        args_as(spec_fs_info_args(s, at), |a| ArgumentsView::FsInfo(a))
    } else if procedure == PATHCONF {
        args_as(spec_path_conf_args(s, at), |a| ArgumentsView::PathConf(a))
    } else if procedure == COMMIT {
        args_as(spec_commit_args(s, at), |a| ArgumentsView::Commit(a))
    } else {
        Err(Error::ProcedureMismatch)
    }
}

/// The arguments of MOUNT procedure `procedure`.
pub open spec fn spec_mount_args(s: Seq<u8>, at: int, procedure: u32) -> Parsed<ArgumentsView> {
    if procedure == 0 {
        Ok((ArgumentsView::Null, at))
    } else if procedure == 1 {
        args_as(spec_dirpath(s, at), |a| ArgumentsView::Mount(a))
    } else if procedure == 2 {
        Ok((ArgumentsView::Dump, at))
    } else if procedure == 3 {
        args_as(spec_dirpath(s, at), |a| ArgumentsView::Unmount(a))
    } else if procedure == 4 {
        Ok((ArgumentsView::UnmountAll, at))
    } else if procedure == 5 {
        Ok((ArgumentsView::Export, at))
    } else {
        Err(Error::ProcedureMismatch)
    }
}

/// The arguments of the call `head`, by program and version.
pub open spec fn spec_proc(s: Seq<u8>, at: int, head: RpcMessage) -> Parsed<ArgumentsView> {
    if head.program == NFS_PROGRAM {
        if head.version != NFS_VERSION {
            Err(Error::ProgramVersionMismatch(only_version(NFS_VERSION)))
        } else {
            spec_nfs_args(s, at, head.procedure)
        }
    } else if head.program == MOUNT_PROGRAM {
        if head.version != MOUNT_VERSION {
            Err(Error::ProgramVersionMismatch(only_version(MOUNT_VERSION)))
        } else {
            spec_mount_args(s, at, head.procedure)
        }
    } else {
        Err(Error::ProgramMismatch)
    }
}

/// Where decoding the arguments of the call `head` stops when it fails.
pub open spec fn stop_proc(s: Seq<u8>, at: int, head: RpcMessage) -> int {
    if head.program == NFS_PROGRAM && head.version == NFS_VERSION {
        stop_nfs_args(s, at, head.procedure)
    } else if head.program == MOUNT_PROGRAM && head.version == MOUNT_VERSION {
        stop_mount_args(s, at, head.procedure)
    } else {
        at
    }
}

/// A call after its transaction id: header, then arguments.
pub open spec fn spec_call(s: Seq<u8>, at: int, xid: u32) -> Stepped<(RpcMessage, ArgumentsView)> {
    match spec_call_header(s, at, xid) {
        Err(x) => Err(x),
        Ok((head, p)) => match spec_proc(s, p, head) {
            Ok((args, end)) => Ok(((head, args), end)),
            Err(e) => Err((e, stop_proc(s, p, head))),
        },
    }
}

/// The next request of `s`, which starts at offset 0 with its record mark.
pub open spec fn spec_parse_request(s: Seq<u8>) -> RequestOutcome {
    match spec_u32(s, 0) {
        Err(_) => RequestOutcome::Incomplete(None),
        Ok((mark, p)) => {
            let frame = record_frame_size(mark);
            if frame < RMS_HEADER_SIZE || frame > DEFAULT_SIZE {
                RequestOutcome::Rejected(None, Error::IO(IoErrorKind::InvalidData), p)
            } else if !record_is_last(mark) {
                RequestOutcome::Rejected(None, Error::IO(IoErrorKind::Unsupported), p)
            } else {
                match spec_u32(s, p) {
                    Err(_) => RequestOutcome::Incomplete(None),
                    Ok((xid, q)) => {
                        let end = frame as int;
                        match spec_call(s, q, xid) {
                            Ok(((head, args), r)) => if r == end {
                                RequestOutcome::Parsed(head, args, end)
                            } else {
                                RequestOutcome::Rejected(Some(xid), Error::IO(IoErrorKind::InvalidData), r)
                            },
                            Err((e, r)) => if e == eof() {
                                RequestOutcome::Incomplete(Some(xid))
                            } else if !is_protocol_rejection(e) {
                                RequestOutcome::Rejected(Some(xid), e, r)
                            } else if r > end {
                                RequestOutcome::Rejected(Some(xid), Error::IO(IoErrorKind::InvalidData), r)
                            } else if end > s.len() {
                                RequestOutcome::Incomplete(Some(xid))
                            } else {
                                RequestOutcome::Rejected(Some(xid), e, end)
                            },
                        }
                    },
                }
            }
        },
    }
}

/// `res` is what `spec` describes for a parse from `before` to `after`; a
/// failure leaves the position at `stop`.
pub open spec fn dispatched_as<T: View>(
    before: Cursor,
    after: Cursor,
    res: Result<T, Error>,
    spec: Parsed<T::V>,
    stop: int,
) -> bool {
    &&& after.bytes() == before.bytes()
    &&& after.wf()
    &&& before.pos() <= after.pos()
    &&& match spec {
        Ok((v, end)) => {
            &&& res matches Ok(x) && x@ == v
            &&& before.pos() <= end <= before.bytes().len()
            &&& after.pos() == end
        },
        Err(e) => {
            &&& res == Err::<T, Error>(e)
            &&& after.pos() == stop
        },
    }
}

/// `res` is what `spec` describes for a parse from `before` to `after`; a
/// failure leaves the position at the one it reports.
pub open spec fn stepped_as<T: View>(
    before: Cursor,
    after: Cursor,
    res: Result<T, Error>,
    spec: Stepped<T::V>,
) -> bool {
    &&& after.bytes() == before.bytes()
    &&& after.wf()
    &&& before.pos() <= after.pos()
    &&& match spec {
        Ok((v, end)) => {
            &&& res matches Ok(x) && x@ == v
            &&& before.pos() <= end <= before.bytes().len()
            &&& after.pos() == end
        },
        Err((e, p)) => {
            &&& res == Err::<T, Error>(e)
            &&& after.pos() == p
        },
    }
}

/// Parses the credential; only `AUTH_NONE` and `AUTH_SYS` are accepted.
fn parse_authentication(src: &mut Cursor) -> (r: Result<AuthFlavor, Error>)
    requires
        old(src).wf(),
    ensures
        final(src).bytes() == old(src).bytes(),
        final(src).wf(),
        match spec_auth(old(src).bytes(), old(src).pos()) {
            Ok((cred, end)) => final(src).pos() == end && if accepted_flavor(cred.0) {
                r == Ok::<AuthFlavor, Error>(cred.0)
            } else {
                r == Err::<AuthFlavor, Error>(Error::AuthError(AuthStat::BadCred))
            },
            Err(e) => r == Err::<AuthFlavor, Error>(e) && !is_protocol_rejection(e) && final(src).pos()
                == stop_auth(old(src).bytes(), old(src).pos()),
        },
{
    let cred = auth(src)?;
    match cred.flavor {
        AuthFlavor::AuthNone | AuthFlavor::Sys => Ok(cred.flavor),
        _ => Err(Error::AuthError(AuthStat::BadCred)),
    }
}

/// Parses the call header that follows the transaction id `xid`.
fn parse_rpc_header(src: &mut Cursor, xid: u32) -> (r: Result<RpcMessage, Error>)
    requires
        old(src).wf(),
    ensures
        stepped_as(*old(src), *final(src), r, spec_call_header(old(src).bytes(), old(src).pos(), xid)),
{
    let msg_type = primitive::u32(src)?;
    if msg_type != RpcBody::Call.to_u32() {
        return Err(Error::MessageTypeMismatch);
    }
    let rpc_version = primitive::u32(src)?;
    if rpc_version != RPC_VERSION {
        return Err(Error::RpcVersionMismatch(VersionMismatch { low: RPC_VERSION, high: RPC_VERSION }));
    }
    let program = primitive::u32(src)?;
    let version = primitive::u32(src)?;
    let procedure = primitive::u32(src)?;
    let auth_flavor = parse_authentication(src)?;
    Ok(RpcMessage { xid, program, procedure, version, auth_flavor })
}

/// Parses the arguments of an NFSv3 call.
#[verifier::rlimit(40)]
fn parse_nfs_proc(src: &mut Cursor, head: &RpcMessage) -> (r: Result<Box<Arguments>, Error>)
    requires
        old(src).wf(),
        head.program == NFS_PROGRAM,
    ensures
        dispatched_as(
            *old(src),
            *final(src),
            r,
            spec_proc(old(src).bytes(), old(src).pos(), *head),
            stop_proc(old(src).bytes(), old(src).pos(), *head),
        ),
{
    if head.version != NFS_VERSION {
        return Err(Error::ProgramVersionMismatch(VersionMismatch { low: NFS_VERSION, high: NFS_VERSION }));
    }
    let p = head.procedure;
    let args = if p == NULL {
        Arguments::Null
    } else if p == GETATTR {
        Arguments::GetAttr(get_attr_args(src)?)
    } else if p == SETATTR {
        Arguments::SetAttr(set_attr_args(src)?)
    } else if p == LOOKUP {
        Arguments::LookUp(lookup_args(src)?)
    } else if p == ACCESS {
        Arguments::Access(access_args(src)?)
    } else if p == READLINK {
        Arguments::ReadLink(read_link_args(src)?)
    } else if p == READ {
        Arguments::Read(read_args(src)?)
    } else if p == WRITE {
        Arguments::Write(write_args(src)?)
    } else if p == CREATE {
        Arguments::Create(create_args(src)?)
    } else if p == MKDIR {
        Arguments::MkDir(mk_dir_args(src)?)
    } else if p == SYMLINK {
        Arguments::SymLink(symlink_args(src)?)
    } else if p == MKNOD {
        Arguments::MkNod(mk_node_args(src)?)
    } else if p == REMOVE {
        Arguments::Remove(remove_args(src)?)
    } else if p == RMDIR {
        Arguments::RmDir(rm_dir_args(src)?)
    } else if p == RENAME {
        Arguments::Rename(rename_args(src)?)
    } else if p == LINK {
        Arguments::Link(link_args(src)?)
    } else if p == READDIR {
        Arguments::ReadDir(read_dir_args(src)?)
    } else if p == READDIRPLUS {
        Arguments::ReadDirPlus(read_dir_plus_args(src)?)
    } else if p == FSSTAT {
        Arguments::FsStat(fs_stat_args(src)?)
    } else if p == FSINFO {
        Arguments::FsInfo(fs_info_args(src)?)
    } else if p == PATHCONF {
        Arguments::PathConf(path_conf_args(src)?)
    } else if p == COMMIT {
        Arguments::Commit(commit_args(src)?)
    } else {
        return Err(Error::ProcedureMismatch);
    };
    Ok(Box::new(args))
}

/// Parses the arguments of a MOUNT call.
fn parse_mount_proc(src: &mut Cursor, head: &RpcMessage) -> (r: Result<Box<Arguments>, Error>)
    requires
        old(src).wf(),
        head.program == MOUNT_PROGRAM,
    ensures
        dispatched_as(
            *old(src),
            *final(src),
            r,
            spec_proc(old(src).bytes(), old(src).pos(), *head),
            stop_proc(old(src).bytes(), old(src).pos(), *head),
        ),
{
    if head.version != MOUNT_VERSION {
        return Err(Error::ProgramVersionMismatch(VersionMismatch { low: MOUNT_VERSION, high: MOUNT_VERSION }));
    }
    let p = head.procedure;
    let args = if p == 0 {
        Arguments::Null
    } else if p == 1 {
        Arguments::Mount(mount(src)?)
    } else if p == 2 {
        Arguments::Dump
    } else if p == 3 {
        Arguments::Unmount(unmount(src)?)
    } else if p == 4 {
        Arguments::UnmountAll
    } else if p == 5 {
        Arguments::Export
    } else {
        return Err(Error::ProcedureMismatch);
    };
    Ok(Box::new(args))
}

/// Parses the arguments of the call `head`, by program.
fn parse_proc(src: &mut Cursor, head: &RpcMessage) -> (r: Result<Box<Arguments>, Error>)
    requires
        old(src).wf(),
    ensures
        dispatched_as(
            *old(src),
            *final(src),
            r,
            spec_proc(old(src).bytes(), old(src).pos(), *head),
            stop_proc(old(src).bytes(), old(src).pos(), *head),
        ),
{
    if head.program == NFS_PROGRAM {
        parse_nfs_proc(src, head)
    } else if head.program == MOUNT_PROGRAM {
        parse_mount_proc(src, head)
    } else {
        Err(Error::ProgramMismatch)
    }
}

/// The error is the one reported when the bytes run out.
fn is_eof(e: &Error) -> (r: bool)
    ensures
        r == (*e == eof()),
{
    match e {
        Error::IO(IoErrorKind::UnexpectedEof) => true,
        _ => false,
    }
}

/// Reads the record mark and the transaction id of the request that starts
/// at offset 0; gives the fragment length and the id.
fn read_message_header(src: &mut Cursor) -> (r: Result<(usize, u32), Error>)
    requires
        old(src).wf(),
        old(src).pos() == 0,
    ensures
        final(src).bytes() == old(src).bytes(),
        final(src).wf(),
        match spec_u32(old(src).bytes(), 0) {
            Err(_) => r == Err::<(usize, u32), Error>(eof()),
            Ok((mark, p)) => {
                let frame = record_frame_size(mark);
                if frame < RMS_HEADER_SIZE || frame > DEFAULT_SIZE {
                    r == Err::<(usize, u32), Error>(Error::IO(IoErrorKind::InvalidData))
                        && final(src).pos() == p
                } else if !record_is_last(mark) {
                    r == Err::<(usize, u32), Error>(Error::IO(IoErrorKind::Unsupported))
                        && final(src).pos() == p
                } else {
                    match spec_u32(old(src).bytes(), p) {
                        Err(_) => r == Err::<(usize, u32), Error>(eof()),
                        Ok((xid, q)) => r == Ok::<(usize, u32), Error>((frame as usize, xid))
                            && final(src).pos() == q,
                    }
                }
            },
        },
{
    let mark = primitive::u32(src)?;
    let frame: u32 = mark & 0x7FFF_FFFFu32;
    if (frame as usize) < RMS_HEADER_SIZE || (frame as usize) > DEFAULT_SIZE {
        return Err(Error::IO(IoErrorKind::InvalidData));
    }
    if (mark & 0x8000_0000u32) == 0 {
        return Err(Error::IO(IoErrorKind::Unsupported));
    }
    let xid = primitive::u32(src)?;
    Ok((frame as usize, xid))
}

/// Checks that the request read so far, its record mark included, fills
/// its fragment exactly.
fn finalize_parsing(src: &Cursor, frame_size: usize) -> (r: Result<(), Error>)
    ensures
        r is Ok <==> src.pos() == frame_size,
        r is Err ==> r == Err::<(), Error>(Error::IO(IoErrorKind::InvalidData)),
{
    let pos = src.offset();
    if pos != frame_size {
        return Err(Error::IO(IoErrorKind::InvalidData));
    }
    Ok(())
}

/// Skips what is left of the fragment that ends at `end`.
fn discard_current_message(src: &mut Cursor, end: usize) -> (r: Result<(), Error>)
    requires
        old(src).wf(),
        end >= RMS_HEADER_SIZE,
    ensures
        final(src).bytes() == old(src).bytes(),
        final(src).wf(),
        old(src).pos() <= final(src).pos(),
        if old(src).pos() > end {
            r == Err::<(), Error>(Error::IO(IoErrorKind::InvalidData)) && final(src).pos()
                == old(src).pos()
        } else if end > old(src).bytes().len() {
            r == Err::<(), Error>(eof())
        } else {
            r is Ok && final(src).pos() == end
        },
{
    let pos = src.offset();
    if pos > end {
        return Err(Error::IO(IoErrorKind::InvalidData));
    }
    src.skip(end - pos, Error::IO(IoErrorKind::UnexpectedEof))?;
    finalize_parsing(src, end)
}

/// After a protocol rejection, discards the rest of the fragment that ends
/// at `end`; an error of the discard replaces `error`. Other errors pass
/// through and leave the position alone.
fn match_errors(src: &mut Cursor, error: Error, end: usize) -> (r: Error)
    requires
        old(src).wf(),
        end >= RMS_HEADER_SIZE,
    ensures
        final(src).bytes() == old(src).bytes(),
        final(src).wf(),
        old(src).pos() <= final(src).pos(),
        if is_protocol_rejection(error) {
            if old(src).pos() > end {
                r == Error::IO(IoErrorKind::InvalidData) && final(src).pos() == old(src).pos()
            } else if end > old(src).bytes().len() {
                r == eof()
            } else {
                r == error && final(src).pos() == end
            }
        } else {
            r == error && final(src).pos() == old(src).pos()
        },
{
    if crate::rpc::is_expected_protocol_rejection(&error) {
        match discard_current_message(src, end) {
            Ok(()) => error,
            Err(e) => e,
        }
    } else {
        error
    }
}

/// The failure that `outcome` reports, if any.
pub open spec fn outcome_failure(outcome: RequestOutcome) -> Option<ParseFailure> {
    match outcome {
        RequestOutcome::Parsed(_, _, _) => None,
        RequestOutcome::Rejected(xid, error, _) => Some(ParseFailure { xid, error }),
        RequestOutcome::Incomplete(xid) => Some(ParseFailure { xid, error: eof() }),
    }
}

/// What is left of the bytes `before` once the next request was decoded:
/// the bytes after it, all of them when it was incomplete, and after a
/// refusal the bytes from where the stream then stands.
pub open spec fn pending_after(before: Seq<u8>, after: Seq<u8>) -> bool {
    match spec_parse_request(before) {
        RequestOutcome::Parsed(_, _, end) => after == before.subrange(end, before.len() as int),
        RequestOutcome::Rejected(_, _, end) => after == before.subrange(end, before.len() as int),
        RequestOutcome::Incomplete(_) => after == before,
    }
}

/// With no bytes at all there is no request yet, and no transaction id.
pub proof fn lemma_nothing_pending_is_incomplete()
    ensures
        spec_parse_request(Seq::<u8>::empty()) == RequestOutcome::Incomplete(None),
{
}

/// `r` is what decoding the next request of `before` gives.
pub open spec fn request_result(before: Seq<u8>, r: Result<ParsedRpcCall, ParseFailure>) -> bool {
    match spec_parse_request(before) {
        RequestOutcome::Parsed(head, args, _) => r matches Ok(call) && call.header == head
            && call.arguments@ == args,
        _ => r == Err::<ParsedRpcCall, ParseFailure>(
            outcome_failure(spec_parse_request(before)).unwrap(),
        ),
    }
}

/// Decodes RPC requests from the bytes a connection delivers.
#[derive(Debug)]
pub struct RpcParser {
    src: Cursor,
    capacity: usize,
}

impl RpcParser {
    /// The bytes received and not consumed yet.
    pub closed spec fn pending(&self) -> Seq<u8> {
        self.src.rest()
    }

    /// How many bytes the connection is asked for at a time.
    pub closed spec fn read_size(&self) -> nat {
        self.capacity as nat
    }

    /// The parser's position lies within its bytes.
    pub closed spec fn wf(&self) -> bool {
        self.src.wf()
    }

    /// A parser with nothing received, reading [`DEFAULT_SIZE`] bytes at a time.
    pub fn new() -> (p: RpcParser)
        ensures
            p.wf(),
            p.pending() == Seq::<u8>::empty(),
            p.read_size() == DEFAULT_SIZE,
    {
        RpcParser::with_capacity(DEFAULT_SIZE)
    }

    /// A parser with nothing received, reading `size` bytes at a time.
    pub fn with_capacity(size: usize) -> (p: RpcParser)
        ensures
            p.wf(),
            p.pending() == Seq::<u8>::empty(),
            p.read_size() == size,
    {
        let src = Cursor::new(Vec::new());
        proof {
            assert(src.rest() =~= Seq::<u8>::empty());
        }
        RpcParser { src, capacity: size }
    }

    /// How many bytes the connection is asked for at a time.
    pub fn capacity(&self) -> (r: usize)
        ensures
            r == self.read_size(),
    {
        self.capacity
    }

    /// Drops every byte received and not consumed yet.
    pub fn discard_pending(&mut self)
        requires
            old(self).wf(),
        ensures
            final(self).wf(),
            final(self).pending() == Seq::<u8>::empty(),
            final(self).read_size() == old(self).read_size(),
    {
        let len = self.src.get_ref().len();
        self.src.set_position(len);
        proof {
            assert(self.src.rest() =~= Seq::<u8>::empty());
        }
    }

    /// Adds bytes that arrived from the connection.
    pub fn feed(&mut self, bytes: &[u8])
        requires
            old(self).wf(),
        ensures
            final(self).wf(),
            final(self).pending() == old(self).pending() + bytes@,
            final(self).read_size() == old(self).read_size(),
    {
        self.src.append(bytes);
        proof {
            assert(self.src.rest() =~= old(self).src.rest() + bytes@);
        }
    }

    /// Decodes the next request. A failure with an `UnexpectedEof` error
    /// means the bytes end before the request does: nothing was consumed,
    /// and the request can be decoded once more bytes are fed.
    #[verifier::spinoff_prover]
    #[verifier::rlimit(100)]
    pub fn parse_request_full(&mut self) -> (r: Result<ParsedRpcCall, ParseFailure>)
        requires
            old(self).wf(),
        ensures
            final(self).wf(),
            final(self).read_size() == old(self).read_size(),
            request_result(old(self).pending(), r),
            pending_after(old(self).pending(), final(self).pending()),
            (r matches Err(f) && f.xid is Some) ==> old(self).pending().len() >= 8,
            r is Ok ==> final(self).pending().len() < old(self).pending().len(),
            (r matches Err(f) && f.error != eof()) ==> final(self).pending().len() < old(self).pending().len(),
    {
        self.src.compact();
        let ghost s = self.src.bytes();
        let (frame_size, xid) = match read_message_header(&mut self.src) {
            Ok(header) => header,
            Err(error) => {
                if is_eof(&error) {
                    self.src.set_position(0);
                    proof {
                        assert(self.src.rest() =~= s);
                    }
                }
                return Err(ParseFailure { xid: None, error });
            },
        };
        let end = frame_size;
        assert(self.src.pos() == 8 && s.len() >= 8);
        let head = match parse_rpc_header(&mut self.src, xid) {
            Ok(head) => head,
            Err(error) => {
                let error = match_errors(&mut self.src, error, end);
                if is_eof(&error) {
                    self.src.set_position(0);
                    proof {
                        assert(self.src.rest() =~= s);
                    }
                }
                return Err(ParseFailure { xid: Some(xid), error });
            },
        };
        let arguments = match parse_proc(&mut self.src, &head) {
            Ok(arguments) => arguments,
            Err(error) => {
                let error = match_errors(&mut self.src, error, end);
                if is_eof(&error) {
                    self.src.set_position(0);
                    proof {
                        assert(self.src.rest() =~= s);
                    }
                }
                return Err(ParseFailure { xid: Some(xid), error });
            },
        };
        if let Err(error) = finalize_parsing(&self.src, frame_size) {
            return Err(ParseFailure { xid: Some(xid), error });
        }
        Ok(ParsedRpcCall { header: head, arguments })
    }

    /// Decodes the next request; a failure gives its error only.
    pub fn parse_request(&mut self) -> (r: Result<ParsedRpcCall, Error>)
        requires
            old(self).wf(),
        ensures
            final(self).wf(),
            final(self).read_size() == old(self).read_size(),
            pending_after(old(self).pending(), final(self).pending()),
            match spec_parse_request(old(self).pending()) {
                RequestOutcome::Parsed(head, args, _) => r matches Ok(call) && call.header == head
                    && call.arguments@ == args,
                _ => r == Err::<ParsedRpcCall, Error>(
                    outcome_failure(spec_parse_request(old(self).pending())).unwrap().error,
                ),
            },
    {
        match self.parse_request_full() {
            Ok(call) => Ok(call),
            Err(failure) => Err(failure.error),
        }
    }

    /// Decodes the next request and gives its arguments.
    pub fn parse_message(&mut self) -> (r: Result<Box<Arguments>, Error>)
        requires
            old(self).wf(),
        ensures
            final(self).wf(),
            final(self).read_size() == old(self).read_size(),
            pending_after(old(self).pending(), final(self).pending()),
            match spec_parse_request(old(self).pending()) {
                RequestOutcome::Parsed(_, args, _) => r matches Ok(a) && a@ == args,
                _ => r == Err::<Box<Arguments>, Error>(
                    outcome_failure(spec_parse_request(old(self).pending())).unwrap().error,
                ),
            },
    {
        match self.parse_request() {
            Ok(call) => Ok(call.arguments),
            Err(e) => Err(e),
        }
    }
}

} // verus!
