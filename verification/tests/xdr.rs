use nfs_mamont::parser::Cursor;
use nfs_mamont::parser::Error;
use nfs_mamont::protocol::xdr::nfs3::file::{createhow3, stable_how, WRITE3args};
use nfs_mamont::protocol::xdr::nfs3::{
    FAttr3, FType3, NFSFh3, NFSStat3, NFSString, NFSTime3, SAttr3, SetAtime, SetMtime, SpecData3,
    WCCAttr,
};
use nfs_mamont::protocol::xdr::rpc::{
    auth_flavor, call_body, garbage_args_reply, opaque_auth, prog_mismatch_reply,
    prog_unavail_reply, proc_unavail_reply, rpc_body, rpc_msg, rpc_vers_mismatch_reply,
    success_reply,
};
use nfs_mamont::protocol::xdr::{deserialize, read_opaque, write_opaque, Serialize};
use nfs_mamont::rpc::IoErrorKind;

fn bytes_of<T: Serialize>(v: &T) -> Vec<u8> {
    let mut out = Vec::new();
    v.serialize(&mut out).unwrap();
    out
}

fn sample_fattr() -> FAttr3 {
    FAttr3 {
        ftype: FType3::NF3DIR,
        mode: 0o755,
        nlink: 2,
        uid: 1000,
        gid: 1000,
        size: 4096,
        used: 8192,
        rdev: SpecData3 { specdata1: 0, specdata2: 0 },
        fsid: 7,
        fileid: 42,
        atime: NFSTime3 { seconds: 1, nseconds: 2 },
        mtime: NFSTime3 { seconds: 3, nseconds: 4 },
        ctime: NFSTime3 { seconds: 5, nseconds: 6 },
    }
}

#[test]
fn u32_and_u64_are_big_endian() {
    assert_eq!(bytes_of(&0x0102_0304u32), vec![1, 2, 3, 4]);
    assert_eq!(bytes_of(&0x0102_0304_0506_0708u64), vec![1, 2, 3, 4, 5, 6, 7, 8]);
    assert_eq!(bytes_of(&-1i32), vec![0xff, 0xff, 0xff, 0xff]);
    assert_eq!(bytes_of(&true), vec![0, 0, 0, 1]);
    assert_eq!(bytes_of(&false), vec![0, 0, 0, 0]);
}

#[test]
fn opaque_is_padded_to_four_bytes() {
    assert_eq!(bytes_of(&vec![1u8, 2, 3]), vec![0, 0, 0, 3, 1, 2, 3, 0]);
    assert_eq!(bytes_of(&vec![1u8, 2, 3, 4]), vec![0, 0, 0, 4, 1, 2, 3, 4]);
    assert_eq!(bytes_of(&Vec::<u8>::new()), vec![0, 0, 0, 0]);
    assert_eq!(bytes_of(&[9u8, 9, 9, 9, 9]), vec![9, 9, 9, 9, 9, 0, 0, 0]);
    assert_eq!(bytes_of(&String::from("ab")), vec![0, 0, 0, 2, b'a', b'b', 0, 0]);
    let mut out = Vec::new();
    write_opaque(&mut out, &[7u8]).unwrap();
    assert_eq!(out, vec![0, 0, 0, 1, 7, 0, 0, 0]);
}

#[test]
fn opaque_reads_back_and_skips_padding() {
    let mut src = Cursor::new(vec![0, 0, 0, 5, 1, 2, 3, 4, 5, 0, 0, 0, 0, 0, 0, 7]);
    assert_eq!(read_opaque(&mut src).unwrap(), vec![1, 2, 3, 4, 5]);
    assert_eq!(deserialize::<u32>(&mut src).unwrap(), 7);
}

#[test]
fn option_encodes_presence_first() {
    assert_eq!(bytes_of(&Some(5u32)), vec![0, 0, 0, 1, 0, 0, 0, 5]);
    assert_eq!(bytes_of(&None::<u32>), vec![0, 0, 0, 0]);
    let mut src = Cursor::new(vec![0, 0, 0, 1, 0, 0, 0, 9]);
    assert_eq!(deserialize::<Option<u32>>(&mut src).unwrap(), Some(9));
    let mut src = Cursor::new(vec![0, 0, 0, 2, 0, 0, 0, 9]);
    assert!(deserialize::<Option<u32>>(&mut src).is_err());
}

#[test]
fn file_handle_has_fixed_length_body() {
    let fh = NFSFh3 { gen: 1, fs_id: 2, id: 3 };
    let bytes = bytes_of(&fh);
    assert_eq!(
        bytes,
        vec![
            0, 0, 0, 24, 0, 0, 0, 0, 0, 0, 0, 1, 0, 0, 0, 0, 0, 0, 0, 2, 0, 0, 0, 0, 0, 0, 0, 3
        ]
    );
    let mut src = Cursor::new(bytes);
    assert_eq!(deserialize::<NFSFh3>(&mut src).unwrap(), fh);
    let mut bad = Cursor::new(vec![0, 0, 0, 8, 1, 2, 3, 4, 5, 6, 7, 8]);
    assert!(matches!(deserialize::<NFSFh3>(&mut bad), Err(Error::IO(IoErrorKind::InvalidData))));
}

#[test]
fn attributes_round_trip() {
    let attr = sample_fattr();
    let bytes = bytes_of(&attr);
    assert_eq!(bytes.len(), 84);
    assert_eq!(&bytes[..4], &[0, 0, 0, 2]);
    let mut src = Cursor::new(bytes);
    assert_eq!(deserialize::<FAttr3>(&mut src).unwrap(), attr);

    let wcc = WCCAttr::from(attr);
    assert_eq!(wcc.size, 4096);
    assert_eq!(wcc.mtime, NFSTime3 { seconds: 3, nseconds: 4 });
    let mut src = Cursor::new(bytes_of(&wcc));
    assert_eq!(deserialize::<WCCAttr>(&mut src).unwrap(), wcc);
}

#[test]
fn enum_rejects_unknown_discriminant() {
    assert_eq!(bytes_of(&NFSStat3::NFS3ErrNoEnt), vec![0, 0, 0, 2]);
    assert_eq!(bytes_of(&NFSStat3::NFS3ErrBadHandle), vec![0, 0, 0x27, 0x11]);
    let mut src = Cursor::new(vec![0, 0, 0, 3]);
    assert!(matches!(deserialize::<NFSStat3>(&mut src), Err(Error::IO(IoErrorKind::InvalidData))));
    let mut src = Cursor::new(vec![0, 0, 0, 70]);
    assert_eq!(deserialize::<NFSStat3>(&mut src).unwrap(), NFSStat3::NFS3ErrStale);
}

#[test]
fn unions_round_trip() {
    let sattr = SAttr3 {
        mode: Some(0o644),
        uid: None,
        gid: Some(5),
        size: Some(10),
        atime: SetAtime::SetToServerTime,
        mtime: SetMtime::SetToClientTime(NFSTime3 { seconds: 9, nseconds: 8 }),
    };
    let how = createhow3::GUARDED(sattr);
    let bytes = bytes_of(&how);
    assert_eq!(&bytes[..8], &[0, 0, 0, 1, 0, 0, 0, 1]);
    let mut src = Cursor::new(bytes);
    assert_eq!(deserialize::<createhow3>(&mut src).unwrap(), how);
}

#[test]
fn write_arguments_round_trip() {
    let args = WRITE3args {
        file: NFSFh3 { gen: 0, fs_id: 1, id: 2 },
        offset: 0x8000,
        count: 3,
        stable: stable_how::FILE_SYNC,
        data: vec![1, 2, 3],
    };
    let bytes = bytes_of(&args);
    assert_eq!(bytes.len(), 28 + 8 + 4 + 4 + 8);
    let mut src = Cursor::new(bytes);
    let back = deserialize::<WRITE3args>(&mut src).unwrap();
    assert_eq!(back, args);
    let name = NFSString(b"dir".to_vec());
    assert_eq!(name.len(), 3);
    assert!(!name.is_empty());
    assert_eq!(bytes_of(&name), vec![0, 0, 0, 3, b'd', b'i', b'r', 0]);
}

#[test]
fn call_message_round_trip() {
    let msg = rpc_msg {
        xid: 77,
        body: rpc_body::CALL(call_body {
            rpcvers: 2,
            prog: 100003,
            vers: 3,
            proc: 1,
            cred: opaque_auth { flavor: auth_flavor::AUTH_SYS, body: vec![1, 2, 3, 4] },
            verf: opaque_auth { flavor: auth_flavor::AUTH_NONE, body: Vec::new() },
        }),
    };
    let bytes = bytes_of(&msg);
    assert_eq!(&bytes[..8], &[0, 0, 0, 77, 0, 0, 0, 0]);
    let mut src = Cursor::new(bytes);
    assert_eq!(deserialize::<rpc_msg>(&mut src).unwrap(), msg);
}

fn accepted(xid: u32, stat: u8) -> Vec<u8> {
    vec![0, 0, 0, xid as u8, 0, 0, 0, 1, 0, 0, 0, 0, 0, 0, 0, 0, 0, 0, 0, 0, 0, 0, 0, stat]
}

#[test]
fn accepted_replies_have_fixed_bytes() {
    assert_eq!(success_reply(5), accepted(5, 0));
    assert_eq!(prog_unavail_reply(6), accepted(6, 1));
    assert_eq!(proc_unavail_reply(7), accepted(7, 3));
    assert_eq!(garbage_args_reply(8), accepted(8, 4));
    let mut expected = accepted(9, 2);
    expected.extend_from_slice(&[0, 0, 0, 3, 0, 0, 0, 4]);
    assert_eq!(prog_mismatch_reply(9, 3, 4), expected);
}

#[test]
fn rpc_version_mismatch_is_denied() {
    assert_eq!(
        rpc_vers_mismatch_reply(1),
        vec![0, 0, 0, 1, 0, 0, 0, 1, 0, 0, 0, 1, 0, 0, 0, 0, 0, 0, 0, 2, 0, 0, 0, 2]
    );
}
