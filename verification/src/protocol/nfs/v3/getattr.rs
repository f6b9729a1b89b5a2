//! `GETATTR` (procedure 1): the attributes of an object.
use vstd::prelude::*;

use crate::protocol::nfs::v3::{push, step_is, Answers, Next, Step, VfsRequest};
use crate::protocol::xdr::nfs3::fs_object::GETATTR3args;
use crate::encoding::be32_bytes;
use crate::protocol::xdr::nfs3::{FAttr3, NFSStat3};
use crate::vfs::Capabilities;
use crate::protocol::xdr::rpc::{success_header, success_reply};
use crate::protocol::xdr::Serialize;

verus! {

/// What `GETATTR` of `args` does next, given the answers `k`: find the
/// export, map the handle, read the attributes, then reply with them or
/// with the first failure.
pub open spec fn getattr_step(xid: u32, args: GETATTR3args, k: Answers) -> Next {
    match k.export {
        None => Next::Ask(VfsRequest::FindExport(args.object.fs_id)),
        Some(None) => Next::Reply(success_header(xid) + NFSStat3::NFS3ErrBadHandle.encoding()),
        Some(Some(_)) => match k.file_id {
            None => Next::Ask(VfsRequest::FileId(args.object)),
            Some(Err(stat)) => Next::Reply(success_header(xid) + stat.encoding()),
            Some(Ok(id)) => match k.attr_before {
                None => Next::Ask(VfsRequest::AttrBefore(id)),
                Some(Ok(attr)) => Next::Reply(
                    success_header(xid) + NFSStat3::NFS3Ok.encoding() + attr.encoding(),
                ),
                Some(Err(stat)) => Next::Reply(success_header(xid) + stat.encoding()),
            },
        },
    }
}

/// Handles `GETATTR`.
pub fn nfsproc3_getattr(xid: u32, args: &GETATTR3args, known: &Answers) -> (r: Step)
    ensures
        step_is(r, getattr_step(xid, *args, *known)),
{
    let mut out = success_reply(xid);
    match &known.export {
        None => return Step::Ask(VfsRequest::FindExport(args.object.fs_id)),
        Some(None) => {
            push(&NFSStat3::NFS3ErrBadHandle, &mut out);
            return Step::Reply(out);
        },
        Some(Some(_)) => {},
    }
    let id = match &known.file_id {
        None => return Step::Ask(VfsRequest::FileId(args.object)),
        Some(Err(stat)) => {
            push(stat, &mut out);
            return Step::Reply(out);
        },
        Some(Ok(id)) => *id,
    };
    match &known.attr_before {
        None => Step::Ask(VfsRequest::AttrBefore(id)),
        Some(Ok(attr)) => {
            push(&NFSStat3::NFS3Ok, &mut out);
            push(attr, &mut out);
            Step::Reply(out)
        },
        Some(Err(stat)) => {
            push(stat, &mut out);
            Step::Reply(out)
        },
    }
}

/// Every question `GETATTR` asks is about the call's own object, one at a
/// time.
pub proof fn law_getattr_asks_about_the_calls_object(xid: u32, args: GETATTR3args, k: Answers, q: VfsRequest)
    requires
        getattr_step(xid, args, k) == Next::Ask(q),
    ensures
        match q {
            VfsRequest::FindExport(fs) => fs == args.object.fs_id && k.export is None,
            VfsRequest::FileId(h) => h == args.object && (k.export matches Some(Some(_))) && k.file_id is None,
            VfsRequest::AttrBefore(id) => k.file_id == Some(Ok::<u64, NFSStat3>(id)) && k.attr_before is None,
            _ => false,
        },
{
}

/// `GETATTR` replies `NFS3_OK` and the attributes the file system gave for
/// the object the handle maps to, or the status of the first failure: no
/// export, no such object, or attributes that could not be read.
pub proof fn law_getattr_replies_the_attributes(xid: u32, args: GETATTR3args, k: Answers, id: u64, stat: NFSStat3, attr: FAttr3)
    ensures
        k.export == Some(None::<Capabilities>) ==> getattr_step(xid, args, k) == Next::Reply(
            success_header(xid) + NFSStat3::NFS3ErrBadHandle.encoding(),
        ),
        (k.export matches Some(Some(_))) && k.file_id == Some(Err::<u64, NFSStat3>(stat)) ==> getattr_step(xid, args, k)
            == Next::Reply(success_header(xid) + stat.encoding()),
        (k.export matches Some(Some(_))) && k.file_id == Some(Ok::<u64, NFSStat3>(id)) && k.attr_before == Some(
            Ok::<FAttr3, NFSStat3>(attr),
        ) ==> getattr_step(xid, args, k) == Next::Reply(success_header(xid) + be32_bytes(0) + attr.encoding()),
        (k.export matches Some(Some(_))) && k.file_id == Some(Ok::<u64, NFSStat3>(id)) && k.attr_before == Some(
            Err::<FAttr3, NFSStat3>(stat),
        ) ==> getattr_step(xid, args, k) == Next::Reply(success_header(xid) + stat.encoding()),
{
    assert(NFSStat3::NFS3Ok.encoding() =~= be32_bytes(0));
}

} // verus!
