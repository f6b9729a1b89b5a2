//! `READ` (procedure 6): bytes of a file.
use vstd::prelude::*;

use crate::encoding::be32_bytes;
use crate::protocol::nfs::v3::{attr_ok, ok_attr, push, step_is, Answers, Next, Outcome, Step, VfsRequest};
use crate::protocol::xdr::nfs3::file::READ3args;
use crate::protocol::xdr::nfs3::{FAttr3, NFSStat3};
use crate::vfs::Capabilities;
use crate::protocol::xdr::rpc::{success_header, success_reply};
use crate::protocol::xdr::{bool_code, invalid_data, opaque_encoding, write_opaque, Serialize};

verus! {

/// The results of a successful `READ`: the attributes, the count, the end
/// of file flag and the data.
pub open spec fn read_resok_encoding(attr: Option<FAttr3>, data: Seq<u8>, eof: bool) -> Seq<u8> {
    attr.encoding() + be32_bytes(data.len() as u32) + be32_bytes(bool_code(eof)) + opaque_encoding(data)
}

/// What `READ` of `args` does next, given the answers `k`: find the export,
/// map the handle, read the attributes, read the data, then reply.
pub open spec fn read_step(xid: u32, args: READ3args, k: Answers) -> Next {
    match k.export {
        None => Next::Ask(VfsRequest::FindExport(args.file.fs_id)),
        Some(None) => Next::Reply(
            success_header(xid) + NFSStat3::NFS3ErrBadHandle.encoding() + Option::<FAttr3>::None.encoding(),
        ),
        Some(Some(_)) => match k.file_id {
            None => Next::Ask(VfsRequest::FileId(args.file)),
            Some(Err(stat)) => Next::Reply(
                success_header(xid) + stat.encoding() + Option::<FAttr3>::None.encoding(),
            ),
            Some(Ok(id)) => match k.attr_before {
                None => Next::Ask(VfsRequest::AttrBefore(id)),
                Some(a) => match k.outcome {
                    Some(Outcome::Read(Ok((bytes, eof)))) => if bytes@.len() <= u32::MAX {
                        Next::Reply(
                            success_header(xid) + NFSStat3::NFS3Ok.encoding() + read_resok_encoding(
                                attr_ok(a),
                                bytes@,
                                eof,
                            ),
                        )
                    } else {
                        Next::Fail(invalid_data())
                    },
                    Some(Outcome::Read(Err(stat))) => Next::Reply(
                        success_header(xid) + stat.encoding() + attr_ok(a).encoding(),
                    ),
                    _ => Next::Ask(VfsRequest::Read(id, args.offset, args.count)),
                },
            },
        },
    }
}

/// Handles `READ`.
#[verifier::spinoff_prover]
#[verifier::rlimit(40)]
pub fn nfsproc3_read(xid: u32, args: &READ3args, known: &Answers) -> (r: Step)
    ensures
        step_is(r, read_step(xid, *args, *known)),
{
    let mut out = success_reply(xid);
    let no_attr: Option<FAttr3> = None;
    match &known.export {
        None => return Step::Ask(VfsRequest::FindExport(args.file.fs_id)),
        Some(None) => {
            push(&NFSStat3::NFS3ErrBadHandle, &mut out);
            push(&no_attr, &mut out);
            return Step::Reply(out);
        },
        Some(Some(_)) => {},
    }
    let id = match &known.file_id {
        None => return Step::Ask(VfsRequest::FileId(args.file)),
        Some(Err(stat)) => {
            push(stat, &mut out);
            push(&no_attr, &mut out);
            return Step::Reply(out);
        },
        Some(Ok(id)) => *id,
    };
    let obj_attr = match &known.attr_before {
        None => return Step::Ask(VfsRequest::AttrBefore(id)),
        Some(a) => ok_attr(a),
    };
    match &known.outcome {
        Some(Outcome::Read(Ok((bytes, eof)))) => {
            push(&NFSStat3::NFS3Ok, &mut out);
            push(&obj_attr, &mut out);
            let count: u32 = #[verifier::truncate] (bytes.len() as u32);
            push(&count, &mut out);
            push(eof, &mut out);
            match write_opaque(&mut out, bytes.as_slice()) {
                Ok(()) => {
                    assert(out@ =~= success_header(xid) + NFSStat3::NFS3Ok.encoding()
                        + read_resok_encoding(obj_attr, bytes@, *eof));
                    Step::Reply(out)
                },
                Err(e) => Step::Fail(e),
            }
        },
        Some(Outcome::Read(Err(stat))) => {
            push(stat, &mut out);
            push(&obj_attr, &mut out);
            Step::Reply(out)
        },
        _ => Step::Ask(VfsRequest::Read(id, args.offset, args.count)),
    }
}

/// The only read `READ` ever asks for is of the file its handle maps to, at
/// the call's offset and for the call's count.
pub proof fn law_read_asks_for_the_calls_range(xid: u32, args: READ3args, k: Answers, id: u64, offset: u64, count: u32)
    requires
        read_step(xid, args, k) == Next::Ask(VfsRequest::Read(id, offset, count)),
    ensures
        k.file_id == Some(Ok::<u64, NFSStat3>(id)),
        offset == args.offset,
        count == args.count,
{
}

/// Once the file is found and its attributes asked, `READ` asks to read
/// the file at the call's offset for the call's count until it has an
/// answer.
pub proof fn law_read_reads_at_the_offset(xid: u32, args: READ3args, k: Answers, caps: Capabilities, id: u64)
    requires
        k.export == Some(Some(caps)),
        k.file_id == Some(Ok::<u64, NFSStat3>(id)),
        k.attr_before is Some,
        !(k.outcome matches Some(Outcome::Read(_))),
    ensures
        read_step(xid, args, k) == Next::Ask(VfsRequest::Read(id, args.offset, args.count)),
{
}

/// A successful `READ` replies `NFS3_OK`, the file's attributes, the number
/// of bytes read, the end-of-file flag and the bytes read themselves.
pub proof fn law_read_replies_the_bytes_read(
    xid: u32,
    args: READ3args,
    k: Answers,
    caps: Capabilities,
    id: u64,
    a: Result<FAttr3, NFSStat3>,
    bytes: Vec<u8>,
    eof: bool,
)
    requires
        k.export == Some(Some(caps)),
        k.file_id == Some(Ok::<u64, NFSStat3>(id)),
        k.attr_before == Some(a),
        k.outcome == Some(Outcome::Read(Ok((bytes, eof)))),
        bytes@.len() <= u32::MAX,
    ensures
        read_step(xid, args, k) == Next::Reply(
            success_header(xid) + be32_bytes(0) + attr_ok(a).encoding() + be32_bytes(bytes@.len() as u32)
                + be32_bytes(bool_code(eof)) + opaque_encoding(bytes@),
        ),
{
    assert(NFSStat3::NFS3Ok.encoding() =~= be32_bytes(0));
    let h = success_header(xid);
    let attr = attr_ok(a).encoding();
    let n = be32_bytes(bytes@.len() as u32);
    let e = be32_bytes(bool_code(eof));
    let d = opaque_encoding(bytes@);
    assert(h + be32_bytes(0) + (attr + n + e + d) =~= h + be32_bytes(0) + attr + n + e + d);
}

/// A failed read is replied with the status the file system gave and the
/// file's attributes.
pub proof fn law_read_reports_the_read_failure(
    xid: u32,
    args: READ3args,
    k: Answers,
    caps: Capabilities,
    id: u64,
    a: Result<FAttr3, NFSStat3>,
    stat: NFSStat3,
)
    requires
        k.export == Some(Some(caps)),
        k.file_id == Some(Ok::<u64, NFSStat3>(id)),
        k.attr_before == Some(a),
        k.outcome == Some(Outcome::Read(Err::<(Vec<u8>, bool), NFSStat3>(stat))),
    ensures
        read_step(xid, args, k) == Next::Reply(success_header(xid) + stat.encoding() + attr_ok(a).encoding()),
{
}

/// Every question `READ` asks is about the call's own file, one at a time:
/// the export of its file system, the id of its handle, the attributes and
/// the data of the file that id names; each is asked only while its answer
/// is missing.
pub proof fn law_read_asks_about_the_calls_file(xid: u32, args: READ3args, k: Answers, q: VfsRequest)
    requires
        read_step(xid, args, k) == Next::Ask(q),
    ensures
        match q {
            VfsRequest::FindExport(fs) => fs == args.file.fs_id && k.export is None,
            VfsRequest::FileId(h) => h == args.file && (k.export matches Some(Some(_))) && k.file_id is None,
            VfsRequest::AttrBefore(id) => k.file_id == Some(Ok::<u64, NFSStat3>(id)) && k.attr_before is None,
            VfsRequest::Read(id, offset, count) => k.file_id == Some(Ok::<u64, NFSStat3>(id)) && k.attr_before is Some
                && offset == args.offset && count == args.count,
            _ => false,
        },
{
}

/// `READ` of a handle with no export is refused with `NFS3ERR_BADHANDLE`,
/// and one whose handle maps to no file with the status of that failure;
/// neither carries attributes.
pub proof fn law_read_refuses_unknown_files(xid: u32, args: READ3args, k: Answers, stat: NFSStat3)
    ensures
        k.export == Some(None::<Capabilities>) ==> read_step(xid, args, k) == Next::Reply(
            success_header(xid) + NFSStat3::NFS3ErrBadHandle.encoding() + Option::<FAttr3>::None.encoding(),
        ),
        (k.export matches Some(Some(_))) && k.file_id == Some(Err::<u64, NFSStat3>(stat)) ==> read_step(xid, args, k)
            == Next::Reply(success_header(xid) + stat.encoding() + Option::<FAttr3>::None.encoding()),
{
}

} // verus!
