//! `WRITE` (procedure 7): bytes into a file.
use vstd::prelude::*;

use crate::protocol::nfs::v3::{attr_ok, ok_attr, push, step_is, Answers, Next, Outcome, Step, VfsRequest};
use crate::protocol::xdr::nfs3::file::{stable_how, WRITE3args, WRITE3resok};
use crate::protocol::xdr::nfs3::{wcc_of, FAttr3, NFSStat3, WCCAttr, WCCData};
use crate::protocol::xdr::rpc::{accepted_header, garbage_args_reply, success_header, success_reply};
use crate::encoding::be32_bytes;
use crate::protocol::xdr::{fixed_opaque_encoding, Serialize};
use crate::vfs::Capabilities;

verus! {

/// The encoding of weak cache consistency data with neither attributes.
pub open spec fn wcc_none() -> Seq<u8> {
    (WCCData { before: None, after: None }).encoding()
}

/// The weak cache consistency part of attributes, when there are any.
pub open spec fn pre_op_of(a: Option<FAttr3>) -> Option<WCCAttr> {
    match a {
        Some(x) => Some(wcc_of(x)),
        None => None,
    }
}

/// The weak cache consistency part of attributes, when there are any.
pub fn pre_op(a: Option<FAttr3>) -> (r: Option<WCCAttr>)
    ensures
        r == pre_op_of(a),
{
    match a {
        Some(x) => Some(WCCAttr { size: x.size, mtime: x.mtime, ctime: x.ctime }),
        None => None,
    }
}

/// What `WRITE` of `args` does next, given the answers `k`: find the
/// export, refuse a read-only one, refuse data whose length is not the
/// count, map the handle, read the attributes, write, get the write
/// verifier, then reply.
pub open spec fn write_step(xid: u32, args: WRITE3args, k: Answers) -> Next {
    match k.export {
        None => Next::Ask(VfsRequest::FindExport(args.file.fs_id)),
        Some(None) => Next::Reply(success_header(xid) + NFSStat3::NFS3ErrBadHandle.encoding() + wcc_none()),
        Some(Some(caps)) => if caps != Capabilities::ReadWrite {
            Next::Reply(success_header(xid) + NFSStat3::NFS3ErrROFS.encoding() + wcc_none())
        } else if args.data@.len() != args.count {
            Next::Reply(accepted_header(xid, 4))
        } else {
            match k.file_id {
                None => Next::Ask(VfsRequest::FileId(args.file)),
                Some(Err(stat)) => Next::Reply(success_header(xid) + stat.encoding() + wcc_none()),
                Some(Ok(id)) => match k.attr_before {
                    None => Next::Ask(VfsRequest::AttrBefore(id)),
                    Some(a) => match k.outcome {
                        Some(Outcome::Attr(Ok(attr))) => match k.server_id {
                            None => Next::Ask(VfsRequest::ServerId),
                            Some(verf) => Next::Reply(
                                success_header(xid) + NFSStat3::NFS3Ok.encoding() + (WRITE3resok {
                                    file_wcc: WCCData { before: pre_op_of(attr_ok(a)), after: Some(attr) },
                                    count: args.count,
                                    committed: stable_how::FILE_SYNC,
                                    verf,
                                }).encoding(),
                            ),
                        },
                        Some(Outcome::Attr(Err(stat))) => Next::Reply(
                            success_header(xid) + stat.encoding() + wcc_none(),
                        ),
                        _ => Next::Ask(VfsRequest::Write(id, args.offset)),
                    },
                },
            }
        },
    }
}

/// Handles `WRITE`.
pub fn nfsproc3_write(xid: u32, args: &WRITE3args, known: &Answers) -> (r: Step)
    ensures
        step_is(r, write_step(xid, *args, *known)),
{
    let mut out = success_reply(xid);
    let no_wcc = WCCData { before: None, after: None };
    match &known.export {
        None => return Step::Ask(VfsRequest::FindExport(args.file.fs_id)),
        Some(None) => {
            push(&NFSStat3::NFS3ErrBadHandle, &mut out);
            push(&no_wcc, &mut out);
            return Step::Reply(out);
        },
        Some(Some(caps)) => {
            if !matches!(caps, Capabilities::ReadWrite) {
                push(&NFSStat3::NFS3ErrROFS, &mut out);
                push(&no_wcc, &mut out);
                return Step::Reply(out);
            }
        },
    }
    if args.data.len() != args.count as usize {
        return Step::Reply(garbage_args_reply(xid));
    }
    let id = match &known.file_id {
        None => return Step::Ask(VfsRequest::FileId(args.file)),
        Some(Err(stat)) => {
            push(stat, &mut out);
            push(&no_wcc, &mut out);
            return Step::Reply(out);
        },
        Some(Ok(id)) => *id,
    };
    let pre = match &known.attr_before {
        None => return Step::Ask(VfsRequest::AttrBefore(id)),
        Some(a) => pre_op(ok_attr(a)),
    };
    match &known.outcome {
        Some(Outcome::Attr(Ok(attr))) => match &known.server_id {
            None => Step::Ask(VfsRequest::ServerId),
            Some(verf) => {
                let res = WRITE3resok {
                    file_wcc: WCCData { before: pre, after: Some(*attr) },
                    count: args.count,
                    committed: stable_how::FILE_SYNC,
                    verf: *verf,
                };
                push(&NFSStat3::NFS3Ok, &mut out);
                push(&res, &mut out);
                Step::Reply(out)
            },
        },
        Some(Outcome::Attr(Err(stat))) => {
            push(stat, &mut out);
            push(&no_wcc, &mut out);
            Step::Reply(out)
        },
        _ => Step::Ask(VfsRequest::Write(id, args.offset)),
    }
}

/// `WRITE` asks to write only on a read-write export, with data as long as
/// the call's count, into the file its handle maps to, at the call's
/// offset.
pub proof fn law_write_writes_at_the_offset_of_a_writable_export(xid: u32, args: WRITE3args, k: Answers, id: u64, offset: u64)
    requires
        write_step(xid, args, k) == Next::Ask(VfsRequest::Write(id, offset)),
    ensures
        k.export == Some(Some(Capabilities::ReadWrite)),
        args.data@.len() == args.count,
        k.file_id == Some(Ok::<u64, NFSStat3>(id)),
        offset == args.offset,
{
}

/// On an export that is not read-write, `WRITE` is refused with
/// `NFS3ERR_ROFS` and empty weak cache consistency data.
pub proof fn law_write_refuses_read_only_exports(xid: u32, args: WRITE3args, k: Answers, caps: Capabilities)
    requires
        k.export == Some(Some(caps)),
        caps != Capabilities::ReadWrite,
    ensures
        write_step(xid, args, k) == Next::Reply(
            success_header(xid) + NFSStat3::NFS3ErrROFS.encoding() + (WCCData { before: None, after: None }).encoding(),
        ),
{
}

/// A failed write is replied with the status the file system gave, and
/// empty weak cache consistency data.
pub proof fn law_write_reports_the_write_failure(
    xid: u32,
    args: WRITE3args,
    k: Answers,
    id: u64,
    a: Result<FAttr3, NFSStat3>,
    stat: NFSStat3,
)
    requires
        k.export == Some(Some(Capabilities::ReadWrite)),
        args.data@.len() == args.count,
        k.file_id == Some(Ok::<u64, NFSStat3>(id)),
        k.attr_before == Some(a),
        k.outcome == Some(Outcome::Attr(Err::<FAttr3, NFSStat3>(stat))),
    ensures
        write_step(xid, args, k) == Next::Reply(
            success_header(xid) + stat.encoding() + (WCCData { before: None, after: None }).encoding(),
        ),
{
}

/// A successful write is replied with `NFS3_OK`, the file's size and times
/// before and its attributes after, the call's count, `FILE_SYNC` and the
/// server's verifier.
pub proof fn law_write_replies_what_was_written(
    xid: u32,
    args: WRITE3args,
    k: Answers,
    id: u64,
    a: FAttr3,
    attr: FAttr3,
    verf: [u8; 8],
)
    requires
        k.export == Some(Some(Capabilities::ReadWrite)),
        args.data@.len() == args.count,
        k.file_id == Some(Ok::<u64, NFSStat3>(id)),
        k.attr_before == Some(Ok::<FAttr3, NFSStat3>(a)),
        k.outcome == Some(Outcome::Attr(Ok::<FAttr3, NFSStat3>(attr))),
        k.server_id == Some(verf),
    ensures
        write_step(xid, args, k) == Next::Reply(
            success_header(xid) + be32_bytes(0) + (WCCData {
                before: Some(WCCAttr { size: a.size, mtime: a.mtime, ctime: a.ctime }),
                after: Some(attr),
            }).encoding() + be32_bytes(args.count) + be32_bytes(2) + fixed_opaque_encoding(verf@),
        ),
{
    let wcc = WCCData { before: Some(WCCAttr { size: a.size, mtime: a.mtime, ctime: a.ctime }), after: Some(attr) };
    let resok = WRITE3resok { file_wcc: wcc, count: args.count, committed: stable_how::FILE_SYNC, verf };
    assert(NFSStat3::NFS3Ok.encoding() =~= be32_bytes(0));
    assert(stable_how::FILE_SYNC.encoding() =~= be32_bytes(2));
    assert(resok.encoding() =~= wcc.encoding() + be32_bytes(args.count) + be32_bytes(2) + fixed_opaque_encoding(verf@));
    assert(pre_op_of(attr_ok(Ok::<FAttr3, NFSStat3>(a))) == wcc.before);
    assert(write_step(xid, args, k) == Next::Reply(success_header(xid) + NFSStat3::NFS3Ok.encoding() + resok.encoding()));
    let h = success_header(xid);
    assert(h + be32_bytes(0) + (wcc.encoding() + be32_bytes(args.count) + be32_bytes(2) + fixed_opaque_encoding(verf@))
        =~= h + be32_bytes(0) + wcc.encoding() + be32_bytes(args.count) + be32_bytes(2) + fixed_opaque_encoding(verf@));
}

/// Every question `WRITE` asks is about the call's own file, one at a time,
/// and only what a read-write export with data of the announced length
/// allows beyond finding the export.
pub proof fn law_write_asks_about_the_calls_file(xid: u32, args: WRITE3args, k: Answers, q: VfsRequest)
    requires
        write_step(xid, args, k) == Next::Ask(q),
    ensures
        match q {
            VfsRequest::FindExport(fs) => fs == args.file.fs_id && k.export is None,
            VfsRequest::FileId(h) => h == args.file && k.export == Some(Some(Capabilities::ReadWrite))
                && args.data@.len() == args.count && k.file_id is None,
            VfsRequest::AttrBefore(id) => k.file_id == Some(Ok::<u64, NFSStat3>(id)) && k.attr_before is None
                && k.export == Some(Some(Capabilities::ReadWrite)),
            VfsRequest::Write(id, offset) => k.file_id == Some(Ok::<u64, NFSStat3>(id)) && offset == args.offset
                && k.export == Some(Some(Capabilities::ReadWrite)) && args.data@.len() == args.count,
            VfsRequest::ServerId => (k.outcome matches Some(Outcome::Attr(Ok(_)))) && k.server_id is None,
            _ => false,
        },
{
}

/// `WRITE` of a handle with no export is refused with `NFS3ERR_BADHANDLE`,
/// data whose length is not the call's count with `GARBAGE_ARGS`, and a
/// handle that maps to no file with the status of that failure.
pub proof fn law_write_refuses_bad_calls(xid: u32, args: WRITE3args, k: Answers, stat: NFSStat3)
    ensures
        k.export == Some(None::<Capabilities>) ==> write_step(xid, args, k) == Next::Reply(
            success_header(xid) + NFSStat3::NFS3ErrBadHandle.encoding() + (WCCData { before: None, after: None }).encoding(),
        ),
        k.export == Some(Some(Capabilities::ReadWrite)) && args.data@.len() != args.count ==> write_step(xid, args, k)
            == Next::Reply(accepted_header(xid, 4)),
        k.export == Some(Some(Capabilities::ReadWrite)) && args.data@.len() == args.count && k.file_id == Some(
            Err::<u64, NFSStat3>(stat),
        ) ==> write_step(xid, args, k) == Next::Reply(success_header(xid) + stat.encoding() + (WCCData { before: None, after: None }).encoding()),
{
}

} // verus!
