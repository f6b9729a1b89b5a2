use nfs_mamont::protocol::nfs::v3::getattr::nfsproc3_getattr;
use nfs_mamont::protocol::nfs::v3::link::nfsproc3_link;
use nfs_mamont::protocol::nfs::v3::mkdir::nfsproc3_mkdir;
use nfs_mamont::protocol::nfs::v3::pathconf::nfsproc3_pathconf;
use nfs_mamont::protocol::nfs::v3::read::nfsproc3_read;
use nfs_mamont::protocol::nfs::v3::write::{nfsproc3_write, pre_op};
use nfs_mamont::parser::Cursor;
use nfs_mamont::protocol::nfs::v3::{handle_nfs, ok_attr, parse_nfs3_args, Answers, NFSv3_args, Outcome, Step, VfsRequest};
use nfs_mamont::protocol::xdr::nfs3::dir::MkDir3Args;
use nfs_mamont::protocol::xdr::nfs3::file::{stable_how, LINK3args, READ3args, WRITE3args};
use nfs_mamont::protocol::xdr::nfs3::fs_object::GETATTR3args;
use nfs_mamont::protocol::xdr::nfs3::{DiropArgs3, FAttr3, FType3, NFSFh3, NFSStat3, NFSString, NFSTime3, SAttr3, SpecData3};
use nfs_mamont::protocol::xdr::rpc::success_reply;
use nfs_mamont::protocol::xdr::Serialize;
use nfs_mamont::vfs::Capabilities;

const FH: NFSFh3 = NFSFh3 { gen: 0, fs_id: 1, id: 2 };

fn attr() -> FAttr3 {
    FAttr3 {
        ftype: FType3::NF3REG,
        mode: 0o644,
        nlink: 1,
        uid: 0,
        gid: 0,
        size: 3,
        used: 4096,
        rdev: SpecData3 { specdata1: 0, specdata2: 0 },
        fsid: 1,
        fileid: 2,
        atime: NFSTime3 { seconds: 10, nseconds: 0 },
        mtime: NFSTime3 { seconds: 11, nseconds: 0 },
        ctime: NFSTime3 { seconds: 12, nseconds: 0 },
    }
}

fn enc<T: Serialize>(v: &T) -> Vec<u8> {
    let mut out = Vec::new();
    v.serialize(&mut out).unwrap();
    out
}

fn ask(step: Step) -> VfsRequest {
    match step {
        Step::Ask(q) => q,
        other => panic!("expected a question, got {:?}", other),
    }
}

fn reply(step: Step) -> Vec<u8> {
    match step {
        Step::Reply(bytes) => bytes,
        other => panic!("expected a reply, got {:?}", other),
    }
}

#[test]
fn getattr_asks_then_replies_with_attributes() {
    let args = GETATTR3args { object: FH };
    let mut known = Answers::new();
    assert_eq!(ask(nfsproc3_getattr(7, &args, &known)), VfsRequest::FindExport(1));
    known.export = Some(Some(Capabilities::ReadOnly));
    assert_eq!(ask(nfsproc3_getattr(7, &args, &known)), VfsRequest::FileId(FH));
    known.file_id = Some(Ok(2));
    assert_eq!(ask(nfsproc3_getattr(7, &args, &known)), VfsRequest::AttrBefore(2));
    known.attr_before = Some(Ok(attr()));
    let mut expected = success_reply(7);
    expected.extend_from_slice(&[0, 0, 0, 0]);
    expected.extend_from_slice(&enc(&attr()));
    assert_eq!(reply(nfsproc3_getattr(7, &args, &known)), expected);
}

#[test]
fn getattr_without_export_is_a_bad_handle() {
    let args = GETATTR3args { object: FH };
    let mut known = Answers::new();
    known.export = Some(None);
    let mut expected = success_reply(3);
    expected.extend_from_slice(&[0, 0, 0x27, 0x11]);
    assert_eq!(reply(nfsproc3_getattr(3, &args, &known)), expected);
}

#[test]
fn getattr_reports_a_stale_handle() {
    let args = GETATTR3args { object: FH };
    let mut known = Answers::new();
    known.export = Some(Some(Capabilities::ReadWrite));
    known.file_id = Some(Err(NFSStat3::NFS3ErrStale));
    let mut expected = success_reply(4);
    expected.extend_from_slice(&[0, 0, 0, 70]);
    assert_eq!(reply(nfsproc3_getattr(4, &args, &known)), expected);
}

#[test]
fn read_returns_data_with_count_and_eof() {
    let args = READ3args { file: FH, offset: 0, count: 10 };
    let mut known = Answers::new();
    known.export = Some(Some(Capabilities::ReadOnly));
    known.file_id = Some(Ok(2));
    known.attr_before = Some(Err(NFSStat3::NFS3ErrIO));
    assert_eq!(ask(nfsproc3_read(1, &args, &known)), VfsRequest::Read(2, 0, 10));
    known.outcome = Some(Outcome::Read(Ok((vec![b'a', b'b', b'c'], true))));
    let mut expected = success_reply(1);
    expected.extend_from_slice(&[0, 0, 0, 0]); // NFS3_OK
    expected.extend_from_slice(&[0, 0, 0, 0]); // no attributes
    expected.extend_from_slice(&[0, 0, 0, 3]); // count
    expected.extend_from_slice(&[0, 0, 0, 1]); // eof
    expected.extend_from_slice(&[0, 0, 0, 3, b'a', b'b', b'c', 0]);
    assert_eq!(reply(nfsproc3_read(1, &args, &known)), expected);
}

#[test]
fn write_to_read_only_export_is_refused() {
    let args = WRITE3args { file: FH, offset: 0, count: 1, stable: stable_how::UNSTABLE, data: vec![1] };
    let mut known = Answers::new();
    known.export = Some(Some(Capabilities::ReadOnly));
    let mut expected = success_reply(2);
    expected.extend_from_slice(&[0, 0, 0, 30]);
    expected.extend_from_slice(&[0, 0, 0, 0, 0, 0, 0, 0]);
    assert_eq!(reply(nfsproc3_write(2, &args, &known)), expected);
}

#[test]
fn write_with_wrong_count_is_garbage() {
    let args = WRITE3args { file: FH, offset: 0, count: 5, stable: stable_how::UNSTABLE, data: vec![1] };
    let mut known = Answers::new();
    known.export = Some(Some(Capabilities::ReadWrite));
    let expected = vec![0, 0, 0, 2, 0, 0, 0, 1, 0, 0, 0, 0, 0, 0, 0, 0, 0, 0, 0, 0, 0, 0, 0, 4];
    assert_eq!(reply(nfsproc3_write(2, &args, &known)), expected);
}

#[test]
fn write_replies_with_file_sync_and_verifier() {
    let args = WRITE3args { file: FH, offset: 8, count: 1, stable: stable_how::UNSTABLE, data: vec![1] };
    let mut known = Answers::new();
    known.export = Some(Some(Capabilities::ReadWrite));
    known.file_id = Some(Ok(2));
    known.attr_before = Some(Ok(attr()));
    assert_eq!(ask(nfsproc3_write(9, &args, &known)), VfsRequest::Write(2, 8));
    known.outcome = Some(Outcome::Attr(Ok(attr())));
    assert_eq!(ask(nfsproc3_write(9, &args, &known)), VfsRequest::ServerId);
    known.server_id = Some([1, 2, 3, 4, 5, 6, 7, 8]);
    let bytes = reply(nfsproc3_write(9, &args, &known));
    let tail = &bytes[bytes.len() - 16..];
    assert_eq!(tail, &[0, 0, 0, 1, 0, 0, 0, 2, 1, 2, 3, 4, 5, 6, 7, 8]);
    let before = pre_op(ok_attr(&Ok(attr()))).unwrap();
    assert_eq!(before.size, 3);
    assert_eq!(before.ctime, NFSTime3 { seconds: 12, nseconds: 0 });
}

#[test]
fn pathconf_replies_with_limits() {
    let mut known = Answers::new();
    assert_eq!(ask(nfsproc3_pathconf(5, &FH, &known)), VfsRequest::FindExport(1));
    known.export = Some(Some(Capabilities::ReadOnly));
    known.file_id = Some(Ok(2));
    known.attr_before = Some(Err(NFSStat3::NFS3ErrIO));
    let bytes = reply(nfsproc3_pathconf(5, &FH, &known));
    assert_eq!(&bytes[24..32], &[0, 0, 0, 0, 0, 0, 0, 0]);
    assert_eq!(bytes.len(), 24 + 4 + 4 + 4 + 4 + 4 * 4);
}

#[test]
fn dispatch_by_procedure() {
    let known = Answers::new();
    let null = parse_nfs3_args(0, &mut Cursor::new(Vec::new()));
    assert_eq!(reply(handle_nfs(1, &null, &known)), success_reply(1));

    let mut input = Cursor::new(enc(&GETATTR3args { object: FH }));
    let getattr = parse_nfs3_args(1, &mut input);
    assert!(matches!(getattr, Ok(NFSv3_args::GETATTR(_))));
    assert_eq!(ask(handle_nfs(2, &getattr, &known)), VfsRequest::FindExport(1));

    let other = parse_nfs3_args(3, &mut Cursor::new(vec![1, 2, 3]));
    assert!(matches!(other, Ok(NFSv3_args::INVALID)));
    assert_eq!(
        reply(handle_nfs(3, &other, &known)),
        vec![0, 0, 0, 3, 0, 0, 0, 1, 0, 0, 0, 0, 0, 0, 0, 0, 0, 0, 0, 0, 0, 0, 0, 3]
    );

    let broken = parse_nfs3_args(6, &mut Cursor::new(vec![0, 0, 0, 24]));
    let expected = broken.as_ref().err().copied();
    assert!(expected.is_some());
    assert!(matches!(handle_nfs(4, &broken, &known), Step::Fail(e) if Some(e) == expected));
}

fn dirop(fs_id: u64) -> DiropArgs3 {
    DiropArgs3 { dir: NFSFh3 { gen: 0, fs_id, id: 7 }, name: NFSString(b"new".to_vec()) }
}

#[test]
fn link_across_file_systems_is_refused() {
    let args = LINK3args { file: FH, link: dirop(9) };
    let known = Answers::new();
    let mut expected = success_reply(6);
    expected.extend_from_slice(&[0, 0, 0, 18, 0, 0, 0, 0, 0, 0, 0, 0, 0, 0, 0, 0]);
    assert_eq!(reply(nfsproc3_link(6, &args, &known)), expected);
}

#[test]
fn link_asks_in_order_then_replies() {
    let args = LINK3args { file: FH, link: dirop(1) };
    let mut known = Answers::new();
    assert_eq!(ask(nfsproc3_link(7, &args, &known)), VfsRequest::FindExport(1));
    known.export = Some(Some(Capabilities::ReadWrite));
    assert_eq!(ask(nfsproc3_link(7, &args, &known)), VfsRequest::FileId(FH));
    known.file_id = Some(Ok(2));
    assert_eq!(ask(nfsproc3_link(7, &args, &known)), VfsRequest::DirId(args.link.dir));
    known.dir_id = Some(Ok(7));
    assert_eq!(ask(nfsproc3_link(7, &args, &known)), VfsRequest::AttrBefore(7));
    known.attr_before = Some(Err(NFSStat3::NFS3ErrIO));
    assert_eq!(ask(nfsproc3_link(7, &args, &known)), VfsRequest::Link(2, 7));
    known.outcome = Some(Outcome::Attr(Ok(attr())));
    assert_eq!(ask(nfsproc3_link(7, &args, &known)), VfsRequest::AttrAfter(7));
    known.attr_after = Some(Err(NFSStat3::NFS3ErrIO));
    let mut expected = success_reply(7);
    expected.extend_from_slice(&[0, 0, 0, 0, 0, 0, 0, 1]);
    expected.extend_from_slice(&enc(&attr()));
    expected.extend_from_slice(&[0, 0, 0, 0, 0, 0, 0, 0]);
    assert_eq!(reply(nfsproc3_link(7, &args, &known)), expected);
}

#[test]
fn mkdir_replies_with_the_new_handle() {
    let args = MkDir3Args { dirops: dirop(1), attributes: SAttr3::default() };
    let mut known = Answers::new();
    known.export = Some(Some(Capabilities::ReadWrite));
    known.dir_id = Some(Ok(7));
    known.attr_before = Some(Ok(attr()));
    assert_eq!(ask(nfsproc3_mkdir(8, &args, &known)), VfsRequest::MkDir(7));
    known.outcome = Some(Outcome::Created(Ok((11, attr()))));
    assert_eq!(ask(nfsproc3_mkdir(8, &args, &known)), VfsRequest::AttrAfter(7));
    known.attr_after = Some(Ok(attr()));
    assert_eq!(ask(nfsproc3_mkdir(8, &args, &known)), VfsRequest::Handle(11, 1));
    let fh = NFSFh3 { gen: 0, fs_id: 1, id: 11 };
    known.handle = Some(fh);
    let bytes = reply(nfsproc3_mkdir(8, &args, &known));
    assert_eq!(&bytes[24..32], &[0, 0, 0, 0, 0, 0, 0, 1]);
    assert_eq!(&bytes[32..60], enc(&fh).as_slice());
    known.export = Some(Some(Capabilities::ReadOnly));
    let mut refused = success_reply(8);
    refused.extend_from_slice(&[0, 0, 0, 30, 0, 0, 0, 0, 0, 0, 0, 0]);
    assert_eq!(reply(nfsproc3_mkdir(8, &args, &known)), refused);
}
