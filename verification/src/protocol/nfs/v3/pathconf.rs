//! `PATHCONF` (procedure 20): the limits on names of a file system.
use vstd::prelude::*;

use crate::protocol::nfs::v3::{attr_ok, ok_attr, push, step_is, Answers, Next, Step, VfsRequest};
use crate::protocol::xdr::nfs3::fs::PATHCONF3resok;
use crate::protocol::xdr::nfs3::{FAttr3, NFSFh3, NFSStat3};
use crate::protocol::xdr::rpc::{success_header, success_reply};
use crate::encoding::be32_bytes;
use crate::protocol::xdr::Serialize;
use crate::vfs::Capabilities;

verus! {

/// The limits this server reports for every file system, with the
/// attributes `attr`: no hard links, names of up to 32768 bytes refused
/// when longer, owner changes restricted, names case sensitive and kept.
pub open spec fn pathconf_of(attr: Option<FAttr3>) -> PATHCONF3resok {
    PATHCONF3resok {
        obj_attributes: attr,
        linkmax: 0,
        name_max: 32768,
        no_trunc: true,
        chown_restricted: true,
        case_insensitive: false,
        case_preserving: true,
    }
}

/// What `PATHCONF` of `handle` does next, given the answers `k`.
pub open spec fn pathconf_step(xid: u32, handle: NFSFh3, k: Answers) -> Next {
    match k.export {
        None => Next::Ask(VfsRequest::FindExport(handle.fs_id)),
        Some(None) => Next::Reply(
            success_header(xid) + NFSStat3::NFS3ErrBadHandle.encoding() + Option::<FAttr3>::None.encoding(),
        ),
        Some(Some(_)) => match k.file_id {
            None => Next::Ask(VfsRequest::FileId(handle)),
            Some(Err(stat)) => Next::Reply(
                success_header(xid) + stat.encoding() + Option::<FAttr3>::None.encoding(),
            ),
            Some(Ok(id)) => match k.attr_before {
                None => Next::Ask(VfsRequest::AttrBefore(id)),
                Some(a) => Next::Reply(
                    success_header(xid) + NFSStat3::NFS3Ok.encoding() + pathconf_of(attr_ok(a)).encoding(),
                ),
            },
        },
    }
}

/// Handles `PATHCONF`.
pub fn nfsproc3_pathconf(xid: u32, handle: &NFSFh3, known: &Answers) -> (r: Step)
    ensures
        step_is(r, pathconf_step(xid, *handle, *known)),
{
    let mut out = success_reply(xid);
    let no_attr: Option<FAttr3> = None;
    match &known.export {
        None => return Step::Ask(VfsRequest::FindExport(handle.fs_id)),
        Some(None) => {
            push(&NFSStat3::NFS3ErrBadHandle, &mut out);
            push(&no_attr, &mut out);
            return Step::Reply(out);
        },
        Some(Some(_)) => {},
    }
    let id = match &known.file_id {
        None => return Step::Ask(VfsRequest::FileId(*handle)),
        Some(Err(stat)) => {
            push(stat, &mut out);
            push(&no_attr, &mut out);
            return Step::Reply(out);
        },
        Some(Ok(id)) => *id,
    };
    match &known.attr_before {
        None => Step::Ask(VfsRequest::AttrBefore(id)),
        Some(a) => {
            let res = PATHCONF3resok {
                obj_attributes: ok_attr(a),
                linkmax: 0,
                name_max: 32768,
                no_trunc: true,
                chown_restricted: true,
                case_insensitive: false,
                case_preserving: true,
            };
            push(&NFSStat3::NFS3Ok, &mut out);
            push(&res, &mut out);
            Step::Reply(out)
        },
    }
}

/// A successful `PATHCONF` replies `NFS3_OK`, the object's attributes, and
/// the same limits for every file system: `linkmax` 0, `name_max` 32768,
/// `no_trunc` true, `chown_restricted` true, `case_insensitive` false and
/// `case_preserving` true.
pub proof fn law_pathconf_reports_the_limits(
    xid: u32,
    handle: NFSFh3,
    k: Answers,
    caps: Capabilities,
    id: u64,
    a: Result<FAttr3, NFSStat3>,
)
    requires
        k.export == Some(Some(caps)),
        k.file_id == Some(Ok::<u64, NFSStat3>(id)),
        k.attr_before == Some(a),
    ensures
        pathconf_step(xid, handle, k) == Next::Reply(
            success_header(xid) + be32_bytes(0) + attr_ok(a).encoding() + be32_bytes(0) + be32_bytes(32768)
                + be32_bytes(1) + be32_bytes(1) + be32_bytes(0) + be32_bytes(1),
        ),
{
    let attr = attr_ok(a).encoding();
    let h = success_header(xid);
    assert(NFSStat3::NFS3Ok.encoding() =~= be32_bytes(0));
    assert(pathconf_of(attr_ok(a)).encoding() =~= attr + be32_bytes(0) + be32_bytes(32768) + be32_bytes(1)
        + be32_bytes(1) + be32_bytes(0) + be32_bytes(1));
    assert(h + be32_bytes(0) + (attr + be32_bytes(0) + be32_bytes(32768) + be32_bytes(1) + be32_bytes(1)
        + be32_bytes(0) + be32_bytes(1)) =~= h + be32_bytes(0) + attr + be32_bytes(0) + be32_bytes(32768)
        + be32_bytes(1) + be32_bytes(1) + be32_bytes(0) + be32_bytes(1));
}

/// Every question `PATHCONF` asks is about the call's own object, one at a
/// time.
pub proof fn law_pathconf_asks_about_the_calls_object(xid: u32, handle: NFSFh3, k: Answers, q: VfsRequest)
    requires
        pathconf_step(xid, handle, k) == Next::Ask(q),
    ensures
        match q {
            VfsRequest::FindExport(fs) => fs == handle.fs_id && k.export is None,
            VfsRequest::FileId(h) => h == handle && (k.export matches Some(Some(_))) && k.file_id is None,
            VfsRequest::AttrBefore(id) => k.file_id == Some(Ok::<u64, NFSStat3>(id)) && k.attr_before is None,
            _ => false,
        },
{
}

/// `PATHCONF` of a handle with no export is refused with
/// `NFS3ERR_BADHANDLE`, and one that maps to no object with the status of
/// that failure; neither carries attributes.
pub proof fn law_pathconf_refuses_unknown_objects(xid: u32, handle: NFSFh3, k: Answers, stat: NFSStat3)
    ensures
        k.export == Some(None::<Capabilities>) ==> pathconf_step(xid, handle, k) == Next::Reply(
            success_header(xid) + NFSStat3::NFS3ErrBadHandle.encoding() + Option::<FAttr3>::None.encoding(),
        ),
        (k.export matches Some(Some(_))) && k.file_id == Some(Err::<u64, NFSStat3>(stat)) ==> pathconf_step(
            xid,
            handle,
            k,
        ) == Next::Reply(success_header(xid) + stat.encoding() + Option::<FAttr3>::None.encoding()),
{
}

} // verus!
