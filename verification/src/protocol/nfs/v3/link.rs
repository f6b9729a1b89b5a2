//! `LINK` (procedure 15): a second name for a file.
use vstd::prelude::*;

use crate::protocol::nfs::v3::write::{pre_op, pre_op_of, wcc_none};
use crate::protocol::nfs::v3::{attr_ok, ok_attr, push, step_is, Answers, Next, Outcome, Step, VfsRequest};
use crate::protocol::xdr::nfs3::file::LINK3args;
use crate::protocol::xdr::nfs3::{FAttr3, NFSStat3, WCCAttr, WCCData};
use crate::protocol::xdr::rpc::{success_header, success_reply};
use crate::protocol::xdr::Serialize;
use crate::vfs::Capabilities;

verus! {

/// The failure reply of `LINK` with status `stat` and no attributes.
pub open spec fn link_failure(xid: u32, stat: NFSStat3) -> Seq<u8> {
    success_header(xid) + stat.encoding() + Option::<FAttr3>::None.encoding() + wcc_none()
}

/// What `LINK` of `args` does next, given the answers `k`: refuse a link
/// across file systems, find the export, refuse a read-only one, map both
/// handles, read the directory's attributes, link, then read the
/// attributes the reply carries.
pub open spec fn link_step(xid: u32, args: LINK3args, k: Answers) -> Next {
    if args.file.fs_id != args.link.dir.fs_id {
        Next::Reply(link_failure(xid, NFSStat3::NFS3ErrXdev))
    } else {
        match k.export {
            None => Next::Ask(VfsRequest::FindExport(args.file.fs_id)),
            Some(None) => Next::Reply(link_failure(xid, NFSStat3::NFS3ErrBadHandle)),
            Some(Some(caps)) => if caps != Capabilities::ReadWrite {
                Next::Reply(link_failure(xid, NFSStat3::NFS3ErrROFS))
            } else {
                match k.file_id {
                    None => Next::Ask(VfsRequest::FileId(args.file)),
                    Some(Err(stat)) => Next::Reply(link_failure(xid, stat)),
                    Some(Ok(file)) => match k.dir_id {
                        None => Next::Ask(VfsRequest::DirId(args.link.dir)),
                        Some(Err(stat)) => Next::Reply(link_failure(xid, stat)),
                        Some(Ok(dir)) => match k.attr_before {
                            None => Next::Ask(VfsRequest::AttrBefore(dir)),
                            Some(pre) => match k.outcome {
                                Some(Outcome::Attr(Ok(attr))) => match k.attr_after {
                                    None => Next::Ask(VfsRequest::AttrAfter(dir)),
                                    Some(post) => Next::Reply(
                                        success_header(xid) + NFSStat3::NFS3Ok.encoding()
                                            + Some(attr).encoding() + (WCCData {
                                            before: pre_op_of(attr_ok(pre)),
                                            after: attr_ok(post),
                                        }).encoding(),
                                    ),
                                },
                                Some(Outcome::Attr(Err(stat))) => match k.file_attr {
                                    None => Next::Ask(VfsRequest::FileAttr(file)),
                                    Some(fa) => match k.attr_after {
                                        None => Next::Ask(VfsRequest::AttrAfter(dir)),
                                        Some(post) => Next::Reply(
                                            success_header(xid) + stat.encoding()
                                                + attr_ok(fa).encoding() + (WCCData {
                                                before: pre_op_of(attr_ok(pre)),
                                                after: attr_ok(post),
                                            }).encoding(),
                                        ),
                                    },
                                },
                                _ => Next::Ask(VfsRequest::Link(file, dir)),
                            },
                        },
                    },
                }
            },
        }
    }
}

/// Handles `LINK`.
pub fn nfsproc3_link(xid: u32, args: &LINK3args, known: &Answers) -> (r: Step)
    ensures
        step_is(r, link_step(xid, *args, *known)),
{
    let mut out = success_reply(xid);
    let no_wcc = WCCData { before: None, after: None };
    let no_attr: Option<FAttr3> = None;
    if args.file.fs_id != args.link.dir.fs_id {
        push(&NFSStat3::NFS3ErrXdev, &mut out);
        push(&no_attr, &mut out);
        push(&no_wcc, &mut out);
        return Step::Reply(out);
    }
    match &known.export {
        None => return Step::Ask(VfsRequest::FindExport(args.file.fs_id)),
        Some(None) => {
            push(&NFSStat3::NFS3ErrBadHandle, &mut out);
            push(&no_attr, &mut out);
            push(&no_wcc, &mut out);
            return Step::Reply(out);
        },
        Some(Some(caps)) => {
            if !matches!(caps, Capabilities::ReadWrite) {
                push(&NFSStat3::NFS3ErrROFS, &mut out);
                push(&no_attr, &mut out);
                push(&no_wcc, &mut out);
                return Step::Reply(out);
            }
        },
    }
    let file = match &known.file_id {
        None => return Step::Ask(VfsRequest::FileId(args.file)),
        Some(Err(stat)) => {
            push(stat, &mut out);
            push(&no_attr, &mut out);
            push(&no_wcc, &mut out);
            return Step::Reply(out);
        },
        Some(Ok(id)) => *id,
    };
    let dir = match &known.dir_id {
        None => return Step::Ask(VfsRequest::DirId(args.link.dir)),
        Some(Err(stat)) => {
            push(stat, &mut out);
            push(&no_attr, &mut out);
            push(&no_wcc, &mut out);
            return Step::Reply(out);
        },
        Some(Ok(id)) => *id,
    };
    let before = match &known.attr_before {
        None => return Step::Ask(VfsRequest::AttrBefore(dir)),
        Some(pre) => pre_op(ok_attr(pre)),
    };
    match &known.outcome {
        Some(Outcome::Attr(Ok(attr))) => match &known.attr_after {
            None => Step::Ask(VfsRequest::AttrAfter(dir)),
            Some(post) => {
                let file_attr = Some(*attr);
                let wcc = WCCData { before, after: ok_attr(post) };
                push(&NFSStat3::NFS3Ok, &mut out);
                push(&file_attr, &mut out);
                push(&wcc, &mut out);
                Step::Reply(out)
            },
        },
        Some(Outcome::Attr(Err(stat))) => match &known.file_attr {
            None => Step::Ask(VfsRequest::FileAttr(file)),
            Some(fa) => match &known.attr_after {
                None => Step::Ask(VfsRequest::AttrAfter(dir)),
                Some(post) => {
                    let file_attr = ok_attr(fa);
                    let wcc = WCCData { before, after: ok_attr(post) };
                    push(stat, &mut out);
                    push(&file_attr, &mut out);
                    push(&wcc, &mut out);
                    Step::Reply(out)
                },
            },
        },
        _ => Step::Ask(VfsRequest::Link(file, dir)),
    }
}

/// `LINK` asks to link only within one file system, on a read-write
/// export, the file and directory its handles map to.
pub proof fn law_link_links_only_when_allowed(xid: u32, args: LINK3args, k: Answers, file: u64, dir: u64)
    requires
        link_step(xid, args, k) == Next::Ask(VfsRequest::Link(file, dir)),
    ensures
        args.file.fs_id == args.link.dir.fs_id,
        k.export == Some(Some(Capabilities::ReadWrite)),
        k.file_id == Some(Ok::<u64, NFSStat3>(file)),
        k.dir_id == Some(Ok::<u64, NFSStat3>(dir)),
{
}

/// On an export that is not read-write, `LINK` within one file system is
/// refused with `NFS3ERR_ROFS`, no attributes and empty weak cache
/// consistency data.
pub proof fn law_link_refuses_read_only_exports(xid: u32, args: LINK3args, k: Answers, caps: Capabilities)
    requires
        args.file.fs_id == args.link.dir.fs_id,
        k.export == Some(Some(caps)),
        caps != Capabilities::ReadWrite,
    ensures
        link_step(xid, args, k) == Next::Reply(
            success_header(xid) + NFSStat3::NFS3ErrROFS.encoding() + Option::<FAttr3>::None.encoding()
                + (WCCData { before: None, after: None }).encoding(),
        ),
{
}

/// `LINK` across two file systems is refused with `NFS3ERR_XDEV`, whatever
/// is known.
pub proof fn law_link_refuses_other_file_systems(xid: u32, args: LINK3args, k: Answers)
    requires
        args.file.fs_id != args.link.dir.fs_id,
    ensures
        link_step(xid, args, k) == Next::Reply(
            success_header(xid) + NFSStat3::NFS3ErrXdev.encoding() + Option::<FAttr3>::None.encoding()
                + (WCCData { before: None, after: None }).encoding(),
        ),
{
}

/// A successful `LINK` replies `NFS3_OK`, the file's attributes after the
/// link, and the directory's size and times before and attributes after.
pub proof fn law_link_replies_the_linked_file(
    xid: u32,
    args: LINK3args,
    k: Answers,
    file: u64,
    dir: u64,
    pre: FAttr3,
    attr: FAttr3,
    post: Result<FAttr3, NFSStat3>,
)
    requires
        args.file.fs_id == args.link.dir.fs_id,
        k.export == Some(Some(Capabilities::ReadWrite)),
        k.file_id == Some(Ok::<u64, NFSStat3>(file)),
        k.dir_id == Some(Ok::<u64, NFSStat3>(dir)),
        k.attr_before == Some(Ok::<FAttr3, NFSStat3>(pre)),
        k.outcome == Some(Outcome::Attr(Ok::<FAttr3, NFSStat3>(attr))),
        k.attr_after == Some(post),
    ensures
        link_step(xid, args, k) == Next::Reply(
            success_header(xid) + NFSStat3::NFS3Ok.encoding() + Some(attr).encoding() + (WCCData {
                before: Some(WCCAttr { size: pre.size, mtime: pre.mtime, ctime: pre.ctime }),
                after: attr_ok(post),
            }).encoding(),
        ),
{
}

/// Every question `LINK` asks is about the call's own file and directory,
/// one at a time, and beyond finding the export only within one file
/// system on a read-write export.
pub proof fn law_link_asks_about_the_calls_objects(xid: u32, args: LINK3args, k: Answers, q: VfsRequest)
    requires
        link_step(xid, args, k) == Next::Ask(q),
    ensures
        args.file.fs_id == args.link.dir.fs_id,
        match q {
            VfsRequest::FindExport(fs) => fs == args.file.fs_id && k.export is None,
            VfsRequest::FileId(h) => h == args.file && k.export == Some(Some(Capabilities::ReadWrite)) && k.file_id is None,
            VfsRequest::DirId(h) => h == args.link.dir && (k.file_id matches Some(Ok(_))) && k.dir_id is None,
            VfsRequest::AttrBefore(d) => k.dir_id == Some(Ok::<u64, NFSStat3>(d)) && k.attr_before is None,
            VfsRequest::Link(f, d) => k.file_id == Some(Ok::<u64, NFSStat3>(f)) && k.dir_id == Some(Ok::<u64, NFSStat3>(d))
                && k.export == Some(Some(Capabilities::ReadWrite)),
            VfsRequest::AttrAfter(d) => k.dir_id == Some(Ok::<u64, NFSStat3>(d)) && k.outcome is Some
                && k.attr_after is None,
            VfsRequest::FileAttr(f) => k.file_id == Some(Ok::<u64, NFSStat3>(f)) && (k.outcome matches Some(Outcome::Attr(Err(_)))) && k.file_attr is None,
            _ => false,
        },
{
}

/// `LINK` of a handle with no export is refused with `NFS3ERR_BADHANDLE`,
/// and a file or directory handle that maps to nothing with the status of
/// that failure.
pub proof fn law_link_refuses_unknown_objects(xid: u32, args: LINK3args, k: Answers, stat: NFSStat3)
    ensures
        args.file.fs_id == args.link.dir.fs_id && k.export == Some(None::<Capabilities>) ==> link_step(xid, args, k)
            == Next::Reply(
            success_header(xid) + NFSStat3::NFS3ErrBadHandle.encoding() + Option::<FAttr3>::None.encoding() + (WCCData { before: None, after: None }).encoding(),
        ),
        args.file.fs_id == args.link.dir.fs_id && k.export == Some(Some(Capabilities::ReadWrite)) && k.file_id == Some(
            Err::<u64, NFSStat3>(stat),
        ) ==> link_step(xid, args, k) == Next::Reply(success_header(xid) + stat.encoding() + Option::<FAttr3>::None.encoding() + (WCCData { before: None, after: None }).encoding()),
        args.file.fs_id == args.link.dir.fs_id && k.export == Some(Some(Capabilities::ReadWrite))
            && (k.file_id matches Some(Ok(_))) && k.dir_id == Some(Err::<u64, NFSStat3>(stat)) ==> link_step(xid, args, k)
            == Next::Reply(success_header(xid) + stat.encoding() + Option::<FAttr3>::None.encoding() + (WCCData { before: None, after: None }).encoding()),
{
}

/// A failed link is replied with the status the file system gave, the
/// file's attributes and the directory's weak cache consistency data.
pub proof fn law_link_reports_the_link_failure(
    xid: u32,
    args: LINK3args,
    k: Answers,
    file: u64,
    dir: u64,
    pre: FAttr3,
    stat: NFSStat3,
    fa: Result<FAttr3, NFSStat3>,
    post: Result<FAttr3, NFSStat3>,
)
    requires
        args.file.fs_id == args.link.dir.fs_id,
        k.export == Some(Some(Capabilities::ReadWrite)),
        k.file_id == Some(Ok::<u64, NFSStat3>(file)),
        k.dir_id == Some(Ok::<u64, NFSStat3>(dir)),
        k.attr_before == Some(Ok::<FAttr3, NFSStat3>(pre)),
        k.outcome == Some(Outcome::Attr(Err::<FAttr3, NFSStat3>(stat))),
        k.file_attr == Some(fa),
        k.attr_after == Some(post),
    ensures
        link_step(xid, args, k) == Next::Reply(
            success_header(xid) + stat.encoding() + attr_ok(fa).encoding() + (WCCData {
                before: Some(WCCAttr { size: pre.size, mtime: pre.mtime, ctime: pre.ctime }),
                after: attr_ok(post),
            }).encoding(),
        ),
{
}

} // verus!
