//! `MKDIR` (procedure 9): a new directory.
use vstd::prelude::*;

use crate::protocol::nfs::v3::write::wcc_none;
use crate::protocol::nfs::v3::{attr_ok, ok_attr, push, step_is, Answers, Next, Outcome, Step, VfsRequest};
use crate::protocol::xdr::nfs3::dir::MkDir3Args;
use crate::protocol::xdr::nfs3::{wcc_of, FAttr3, NFSFh3, NFSStat3, WCCAttr, WCCData};
use crate::protocol::xdr::rpc::{success_header, success_reply};
use crate::protocol::xdr::Serialize;
use crate::vfs::Capabilities;

verus! {

/// What `MKDIR` of `args` does next, given the answers `k`: find the
/// export, refuse a read-only one, map the directory's handle, read its
/// attributes, create, read its attributes again, get the new handle, then
/// reply.
pub open spec fn mkdir_step(xid: u32, args: MkDir3Args, k: Answers) -> Next {
    let fs_id = args.dirops.dir.fs_id;
    match k.export {
        None => Next::Ask(VfsRequest::FindExport(fs_id)),
        Some(None) => Next::Reply(success_header(xid) + NFSStat3::NFS3ErrBadHandle.encoding() + wcc_none()),
        Some(Some(caps)) => if caps != Capabilities::ReadWrite {
            Next::Reply(success_header(xid) + NFSStat3::NFS3ErrROFS.encoding() + wcc_none())
        } else {
            match k.dir_id {
                None => Next::Ask(VfsRequest::DirId(args.dirops.dir)),
                Some(Err(stat)) => Next::Reply(success_header(xid) + stat.encoding() + wcc_none()),
                Some(Ok(dir)) => match k.attr_before {
                    None => Next::Ask(VfsRequest::AttrBefore(dir)),
                    Some(Err(stat)) => Next::Reply(success_header(xid) + stat.encoding() + wcc_none()),
                    Some(Ok(pre)) => match k.outcome {
                        Some(Outcome::Created(res)) => match k.attr_after {
                            None => Next::Ask(VfsRequest::AttrAfter(dir)),
                            Some(post) => {
                                let wcc = WCCData { before: Some(wcc_of(pre)), after: attr_ok(post) };
                                match res {
                                    Ok((fid, attr)) => match k.handle {
                                        None => Next::Ask(VfsRequest::Handle(fid, fs_id)),
                                        Some(fh) => Next::Reply(
                                            success_header(xid) + NFSStat3::NFS3Ok.encoding()
                                                + Some(fh).encoding() + Some(attr).encoding()
                                                + wcc.encoding(),
                                        ),
                                    },
                                    Err(stat) => Next::Reply(
                                        success_header(xid) + stat.encoding() + wcc.encoding(),
                                    ),
                                }
                            },
                        },
                        _ => Next::Ask(VfsRequest::MkDir(dir)),
                    },
                },
            }
        },
    }
}

/// Handles `MKDIR`.
pub fn nfsproc3_mkdir(xid: u32, args: &MkDir3Args, known: &Answers) -> (r: Step)
    ensures
        step_is(r, mkdir_step(xid, *args, *known)),
{
    let fs_id = args.dirops.dir.fs_id;
    let mut out = success_reply(xid);
    let no_wcc = WCCData { before: None, after: None };
    match &known.export {
        None => return Step::Ask(VfsRequest::FindExport(fs_id)),
        Some(None) => {
            push(&NFSStat3::NFS3ErrBadHandle, &mut out);
            push(&no_wcc, &mut out);
            return Step::Reply(out);
        },
        Some(Some(caps)) => {
            if !matches!(caps, Capabilities::ReadWrite) {
                push(&NFSStat3::NFS3ErrROFS, &mut out);
                push(&no_wcc, &mut out);
                return Step::Reply(out);
            }
        },
    }
    let dir = match &known.dir_id {
        None => return Step::Ask(VfsRequest::DirId(args.dirops.dir)),
        Some(Err(stat)) => {
            push(stat, &mut out);
            push(&no_wcc, &mut out);
            return Step::Reply(out);
        },
        Some(Ok(id)) => *id,
    };
    let pre = match &known.attr_before {
        None => return Step::Ask(VfsRequest::AttrBefore(dir)),
        Some(Err(stat)) => {
            push(stat, &mut out);
            push(&no_wcc, &mut out);
            return Step::Reply(out);
        },
        Some(Ok(a)) => WCCAttr { size: a.size, mtime: a.mtime, ctime: a.ctime },
    };
    let res = match &known.outcome {
        Some(Outcome::Created(res)) => res,
        _ => return Step::Ask(VfsRequest::MkDir(dir)),
    };
    let wcc = match &known.attr_after {
        None => return Step::Ask(VfsRequest::AttrAfter(dir)),
        Some(post) => WCCData { before: Some(pre), after: ok_attr(post) },
    };
    match res {
        Ok((fid, attr)) => match &known.handle {
            None => Step::Ask(VfsRequest::Handle(*fid, fs_id)),
            Some(fh) => {
                let handle: Option<NFSFh3> = Some(*fh);
                let attributes: Option<FAttr3> = Some(*attr);
                push(&NFSStat3::NFS3Ok, &mut out);
                push(&handle, &mut out);
                push(&attributes, &mut out);
                push(&wcc, &mut out);
                Step::Reply(out)
            },
        },
        Err(stat) => {
            push(stat, &mut out);
            push(&wcc, &mut out);
            Step::Reply(out)
        },
    }
}

/// `MKDIR` asks to create only on a read-write export, in the directory its
/// handle maps to.
pub proof fn law_mkdir_creates_only_when_allowed(xid: u32, args: MkDir3Args, k: Answers, dir: u64)
    requires
        mkdir_step(xid, args, k) == Next::Ask(VfsRequest::MkDir(dir)),
    ensures
        k.export == Some(Some(Capabilities::ReadWrite)),
        k.dir_id == Some(Ok::<u64, NFSStat3>(dir)),
{
}

/// The handle `MKDIR` asks for is the new directory's, in the file system
/// of the call.
pub proof fn law_mkdir_asks_the_new_handle(xid: u32, args: MkDir3Args, k: Answers, id: u64, fs_id: u64)
    requires
        mkdir_step(xid, args, k) == Next::Ask(VfsRequest::Handle(id, fs_id)),
    ensures
        fs_id == args.dirops.dir.fs_id,
        k.outcome matches Some(Outcome::Created(Ok((fid, _)))) && fid == id,
{
}

/// On an export that is not read-write, `MKDIR` is refused with
/// `NFS3ERR_ROFS` and empty weak cache consistency data.
pub proof fn law_mkdir_refuses_read_only_exports(xid: u32, args: MkDir3Args, k: Answers, caps: Capabilities)
    requires
        k.export == Some(Some(caps)),
        caps != Capabilities::ReadWrite,
    ensures
        mkdir_step(xid, args, k) == Next::Reply(
            success_header(xid) + NFSStat3::NFS3ErrROFS.encoding() + (WCCData { before: None, after: None }).encoding(),
        ),
{
}

/// A successful `MKDIR` replies `NFS3_OK`, the new directory's handle and
/// the attributes its creation gave, then the parent's size and times
/// before and attributes after.
pub proof fn law_mkdir_reports_the_new_directory(
    xid: u32,
    args: MkDir3Args,
    k: Answers,
    dir: u64,
    pre: FAttr3,
    fid: u64,
    attr: FAttr3,
    post: Result<FAttr3, NFSStat3>,
    fh: NFSFh3,
)
    requires
        k.export == Some(Some(Capabilities::ReadWrite)),
        k.dir_id == Some(Ok::<u64, NFSStat3>(dir)),
        k.attr_before == Some(Ok::<FAttr3, NFSStat3>(pre)),
        k.outcome == Some(Outcome::Created(Ok::<(u64, FAttr3), NFSStat3>((fid, attr)))),
        k.attr_after == Some(post),
        k.handle == Some(fh),
    ensures
        mkdir_step(xid, args, k) == Next::Reply(
            success_header(xid) + NFSStat3::NFS3Ok.encoding() + Some(fh).encoding() + Some(attr).encoding()
                + (WCCData {
                before: Some(WCCAttr { size: pre.size, mtime: pre.mtime, ctime: pre.ctime }),
                after: attr_ok(post),
            }).encoding(),
        ),
{
}

/// A failed creation is replied with the status the file system gave and
/// the parent's weak cache consistency data.
pub proof fn law_mkdir_reports_the_create_failure(
    xid: u32,
    args: MkDir3Args,
    k: Answers,
    dir: u64,
    pre: FAttr3,
    stat: NFSStat3,
    post: Result<FAttr3, NFSStat3>,
)
    requires
        k.export == Some(Some(Capabilities::ReadWrite)),
        k.dir_id == Some(Ok::<u64, NFSStat3>(dir)),
        k.attr_before == Some(Ok::<FAttr3, NFSStat3>(pre)),
        k.outcome == Some(Outcome::Created(Err::<(u64, FAttr3), NFSStat3>(stat))),
        k.attr_after == Some(post),
    ensures
        mkdir_step(xid, args, k) == Next::Reply(
            success_header(xid) + stat.encoding() + (WCCData {
                before: Some(WCCAttr { size: pre.size, mtime: pre.mtime, ctime: pre.ctime }),
                after: attr_ok(post),
            }).encoding(),
        ),
{
}

/// Every question `MKDIR` asks is about the call's own directory or the
/// directory it made, one at a time, and beyond finding the export only on
/// a read-write export.
pub proof fn law_mkdir_asks_about_the_calls_directory(xid: u32, args: MkDir3Args, k: Answers, q: VfsRequest)
    requires
        mkdir_step(xid, args, k) == Next::Ask(q),
    ensures
        match q {
            VfsRequest::FindExport(fs) => fs == args.dirops.dir.fs_id && k.export is None,
            VfsRequest::DirId(h) => h == args.dirops.dir && k.export == Some(Some(Capabilities::ReadWrite))
                && k.dir_id is None,
            VfsRequest::AttrBefore(d) => k.dir_id == Some(Ok::<u64, NFSStat3>(d)) && k.attr_before is None,
            VfsRequest::MkDir(d) => k.dir_id == Some(Ok::<u64, NFSStat3>(d)) && k.export == Some(
                Some(Capabilities::ReadWrite),
            ) && (k.attr_before matches Some(Ok(_))),
            VfsRequest::AttrAfter(d) => k.dir_id == Some(Ok::<u64, NFSStat3>(d)) && (k.outcome matches Some(Outcome::Created(_))) && k.attr_after is None,
            VfsRequest::Handle(id, fs) => fs == args.dirops.dir.fs_id && (k.outcome matches Some(Outcome::Created(Ok((fid, _)))) && fid == id) && k.handle is None,
            _ => false,
        },
{
}

/// `MKDIR` under a handle with no export is refused with
/// `NFS3ERR_BADHANDLE`, and one whose directory handle or attributes fail
/// with the status of that failure.
pub proof fn law_mkdir_refuses_unknown_directories(xid: u32, args: MkDir3Args, k: Answers, stat: NFSStat3)
    ensures
        k.export == Some(None::<Capabilities>) ==> mkdir_step(xid, args, k) == Next::Reply(
            success_header(xid) + NFSStat3::NFS3ErrBadHandle.encoding() + (WCCData { before: None, after: None }).encoding(),
        ),
        k.export == Some(Some(Capabilities::ReadWrite)) && k.dir_id == Some(Err::<u64, NFSStat3>(stat)) ==> mkdir_step(
            xid,
            args,
            k,
        ) == Next::Reply(success_header(xid) + stat.encoding() + (WCCData { before: None, after: None }).encoding()),
        k.export == Some(Some(Capabilities::ReadWrite)) && (k.dir_id matches Some(Ok(_))) && k.attr_before == Some(
            Err::<FAttr3, NFSStat3>(stat),
        ) ==> mkdir_step(xid, args, k) == Next::Reply(success_header(xid) + stat.encoding() + (WCCData { before: None, after: None }).encoding()),
{
}

} // verus!
