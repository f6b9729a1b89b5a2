use nfs_mamont::parser::Cursor;
use nfs_mamont::protocol::nfs::mount::{
    machine_name_from_context, matches_export_path, mountproc3_dump, mountproc3_export,
    mountproc3_null, mountproc3_umnt, mountproc3_umnt_all,
};
use nfs_mamont::protocol::nfs::portmap::unset_port::{handle_portmap, pmapproc_unsetport};
use nfs_mamont::protocol::nfs::portmap::{key_code_of, PortmapKey, PortmapTable, IPPROTO_TCP, IPPROTO_UDP};
use nfs_mamont::protocol::nfs::v4::compound::nfsproc4_compound;
use nfs_mamont::protocol::nfs::v4::{handle_nfs, nfsproc4_null, NFSv4Context};
use nfs_mamont::protocol::xdr::nfs4::NFSFh4;
use nfs_mamont::protocol::nfs::mount::{handle_mount, parse_mount_args};
use nfs_mamont::protocol::xdr::mount::Args;
use nfs_mamont::protocol::nfs::v4::operations::{compound, null, Argument, Data, OpNum, Request, Status};
use nfs_mamont::protocol::xdr::rpc::{auth_flavor, auth_unix, call_body, opaque_auth};

fn header(xid: u8) -> Vec<u8> {
    vec![0, 0, 0, xid, 0, 0, 0, 1, 0, 0, 0, 0, 0, 0, 0, 0, 0, 0, 0, 0, 0, 0, 0, 0]
}

fn unix(name: &[u8]) -> Option<auth_unix> {
    Some(auth_unix { stamp: 0, machinename: name.to_vec(), uid: 0, gid: 0, gids: Vec::new() })
}

#[test]
fn export_path_matching() {
    assert!(matches_export_path("/export", "/export"));
    assert!(matches_export_path("/export/sub", "/export"));
    assert!(!matches_export_path("/exportx", "/export"));
    assert!(!matches_export_path("/exp", "/export"));
    assert!(matches_export_path("/anything", "/"));
    assert!(!matches_export_path("relative", "/"));
    assert!(!matches_export_path("", "/export"));
    assert!(matches_export_path("/é/x", "/é"));
    assert!(!matches_export_path("/éx", "/é"));
}

#[test]
fn mount_null_and_export_list() {
    assert_eq!(mountproc3_null(3), header(3));
    let reply = mountproc3_export(4, &vec![String::from("/a"), String::from("/bcd")]).unwrap();
    let mut expected = header(4);
    expected.extend_from_slice(&[0, 0, 0, 1, 0, 0, 0, 2, b'/', b'a', 0, 0, 0, 0, 0, 0]);
    expected.extend_from_slice(&[0, 0, 0, 1, 0, 0, 0, 4, b'/', b'b', b'c', b'd', 0, 0, 0, 0]);
    expected.extend_from_slice(&[0, 0, 0, 0]);
    assert_eq!(reply, expected);
    let mut empty = header(5);
    empty.extend_from_slice(&[0, 0, 0, 0]);
    assert_eq!(mountproc3_export(5, &Vec::new()).unwrap(), empty);
}

#[test]
fn mount_dump_lists_machine_and_path() {
    let reply = mountproc3_dump(6, &vec![(String::from("h"), String::from("/x"))]).unwrap();
    let mut expected = header(6);
    expected.extend_from_slice(&[0, 0, 0, 1, 0, 0, 0, 1, b'h', 0, 0, 0, 0, 0, 0, 2, b'/', b'x', 0, 0]);
    expected.extend_from_slice(&[0, 0, 0, 0]);
    assert_eq!(reply, expected);
}

#[test]
fn unmount_signals_the_first_matching_export() {
    let exports = vec![String::from("/other"), String::from("/data"), String::from("/")];
    let out = mountproc3_umnt(7, &b"/data/x".to_vec(), &exports, &unix(b"client"));
    let mut expected = header(7);
    expected.extend_from_slice(&[0, 0, 0, 0]);
    assert_eq!(out.reply, expected);
    assert_eq!(out.signal, Some(1));
    assert_eq!(out.forget, Some((String::from("client"), String::from("/data/x"))));

    let out = mountproc3_umnt(8, &b"/zzz".to_vec(), &vec![String::from("/a")], &None);
    assert_eq!(out.signal, None);
    assert_eq!(out.forget, None);

    let out = mountproc3_umnt(9, &vec![0xff, 0xfe], &exports, &None);
    assert!(out.reply.is_empty());
    assert_eq!(out.signal, None);
}

#[test]
fn unmount_all_names_the_caller() {
    let (reply, who) = mountproc3_umnt_all(10, &unix(b"box"));
    let mut expected = header(10);
    expected.extend_from_slice(&[0, 0, 0, 0]);
    assert_eq!(reply, expected);
    assert_eq!(who, Some(String::from("box")));
    assert_eq!(machine_name_from_context(&unix(&[0xc3])), None);
    assert_eq!(machine_name_from_context(&None), None);
}

#[test]
fn portmap_table_set_get_remove() {
    let mut table = PortmapTable::new();
    let key = PortmapKey { prog: 100003, vers: 3, prot: IPPROTO_TCP };
    assert_eq!(table.get(&key), None);
    table.set(&key, 2049);
    assert_eq!(table.get(&key), Some(2049));
    assert_eq!(table.get(&PortmapKey { prot: IPPROTO_UDP, ..key }), None);
    assert!(table.remove(&key));
    assert!(!table.remove(&key));
    assert_eq!(key_code_of(&PortmapKey { prog: 1, vers: 2, prot: 3 }), (1u128 << 64) | (2u128 << 32) | 3);
}

#[test]
fn unset_removes_both_protocols() {
    let mut table = PortmapTable::new();
    table.set(&PortmapKey { prog: 100005, vers: 3, prot: IPPROTO_TCP }, 1);
    table.set(&PortmapKey { prog: 100005, vers: 3, prot: IPPROTO_UDP }, 2);
    table.set(&PortmapKey { prog: 100005, vers: 1, prot: IPPROTO_TCP }, 3);
    let args = vec![0, 1, 0x86, 0xa5, 0, 0, 0, 3, 0, 0, 0, 99, 0, 0, 0, 0];
    let reply = pmapproc_unsetport(11, &mut Cursor::new(args.clone()), &mut table).unwrap();
    let mut expected = header(11);
    expected.extend_from_slice(&[0, 0, 0, 1]);
    assert_eq!(reply, expected);
    assert_eq!(table.get(&PortmapKey { prog: 100005, vers: 3, prot: IPPROTO_TCP }), None);
    assert_eq!(table.get(&PortmapKey { prog: 100005, vers: 3, prot: IPPROTO_UDP }), None);
    assert_eq!(table.get(&PortmapKey { prog: 100005, vers: 1, prot: IPPROTO_TCP }), Some(3));
    let again = pmapproc_unsetport(12, &mut Cursor::new(args), &mut table).unwrap();
    assert_eq!(&again[24..], &[0, 0, 0, 0]);
    assert!(pmapproc_unsetport(13, &mut Cursor::new(vec![0, 0]), &mut table).is_err());
}

fn v4_call(proc: u32) -> call_body {
    call_body {
        rpcvers: 2,
        prog: 100003,
        vers: 4,
        proc,
        cred: opaque_auth { flavor: auth_flavor::AUTH_NONE, body: Vec::new() },
        verf: opaque_auth { flavor: auth_flavor::AUTH_NONE, body: Vec::new() },
    }
}

#[test]
fn v4_null_and_requests() {
    assert_eq!(nfsproc4_null(1), header(1));
    let req = Request::deserialize_from_rpc(&v4_call(0), &mut Cursor::new(Vec::new())).unwrap();
    assert_eq!(req.argop, OpNum::Null);
    let resp = req.execute().unwrap();
    assert_eq!(resp.status, Status::Success);
    let mut out = Vec::new();
    resp.serialize_no_resop(&mut out).unwrap();
    assert!(out.is_empty());
    assert!(Request::deserialize_from_rpc(&v4_call(1), &mut Cursor::new(Vec::new())).is_err());
}

#[test]
fn compound_runs_until_a_nested_compound() {
    let null_req = || Request { argop: OpNum::Null, uin: Argument::Null(null::Args {}) };
    let inner = compound::Args { tag: String::new(), minor_version: 0, arg_array: Vec::new() };
    let args = compound::Args {
        tag: String::from("t"),
        minor_version: 0,
        arg_array: vec![
            null_req(),
            null_req(),
            Request { argop: OpNum::Compound, uin: Argument::Compound(inner) },
            null_req(),
        ],
    };
    let resp = Request { argop: OpNum::Compound, uin: Argument::Compound(args) }.execute().unwrap();
    assert_eq!(resp.status, Status::ErrOpIllegal);
    match resp.uin {
        Data::Compound(r) => {
            assert_eq!(r.tag, "t");
            assert_eq!(r.res_array.len(), 2);
        },
        _ => panic!("expected compound results"),
    }
}

fn compound_args(ops: &[u8], count: u8) -> Vec<u8> {
    let mut v = vec![0, 0, 0, 2, b'h', b'i', 0, 0, 0, 0, 0, 0, 0, 0, 0, count];
    v.extend_from_slice(ops);
    v
}

#[test]
fn v4_compound_replies_with_tag() {
    let ops = [0, 0, 0, 0, 0, 0, 0x27, 0x3c];
    let reply = nfsproc4_compound(9, &mut Cursor::new(compound_args(&ops, 2))).unwrap();
    let mut expected = header(9);
    expected.extend_from_slice(&[0, 0, 0, 0, 0, 0, 0, 2, b'h', b'i', 0, 0, 0, 0, 0, 0]);
    assert_eq!(reply, expected);
    let nested = compound_args(&[0, 0, 0, 1, 0, 0, 0, 0, 0, 0, 0, 0, 0, 0, 0, 0], 1);
    assert!(nfsproc4_compound(9, &mut Cursor::new(nested)).is_ok());
    assert!(nfsproc4_compound(9, &mut Cursor::new(compound_args(&[0, 0, 0, 3], 1))).is_err());
    assert!(nfsproc4_compound(9, &mut Cursor::new(compound_args(&[0, 0, 0, 0], 2))).is_err());
}

#[test]
fn v4_dispatch() {
    let mut call = v4_call(0);
    assert_eq!(handle_nfs(1, &call, &mut Cursor::new(Vec::new())).unwrap(), header(1));
    call.proc = 40;
    let mut unavail = header(2);
    unavail[23] = 3;
    assert_eq!(handle_nfs(2, &call, &mut Cursor::new(Vec::new())).unwrap(), unavail);
    call.vers = 3;
    let mut mismatch = header(3);
    mismatch[23] = 2;
    mismatch.extend_from_slice(&[0, 0, 0, 4, 0, 0, 0, 4]);
    assert_eq!(handle_nfs(3, &call, &mut Cursor::new(Vec::new())).unwrap(), mismatch);
    call.vers = 4;
    call.proc = 1;
    assert!(handle_nfs(4, &call, &mut Cursor::new(compound_args(&[], 0))).is_ok());
}

#[test]
fn mount_dispatch() {
    let exports = vec![String::from("/data")];
    let mounts = vec![(String::from("m"), String::from("/data"))];
    let null = parse_mount_args(0, &mut Cursor::new(Vec::new())).unwrap().unwrap();
    let r = handle_mount(1, &null, &exports, &mounts, &None).unwrap();
    assert_eq!(r.reply, header(1));
    let umnt = parse_mount_args(3, &mut Cursor::new(vec![0, 0, 0, 5, b'/', b'd', b'a', b't', b'a', 0, 0, 0])).unwrap().unwrap();
    assert!(matches!(&umnt, Args::Umnt(p) if p.as_slice() == b"/data"));
    let r = handle_mount(2, &umnt, &exports, &mounts, &unix(b"m")).unwrap();
    assert_eq!(r.signal, Some(0));
    assert_eq!(r.forget, Some((String::from("m"), String::from("/data"))));
    let all = parse_mount_args(4, &mut Cursor::new(Vec::new())).unwrap().unwrap();
    assert_eq!(handle_mount(3, &all, &exports, &mounts, &unix(b"m")).unwrap().forget_all, Some(String::from("m")));
    let mnt = parse_mount_args(1, &mut Cursor::new(vec![0, 0, 0, 1, b'/', 0, 0, 0])).unwrap().unwrap();
    let mut unavail = header(4);
    unavail[23] = 3;
    assert_eq!(handle_mount(4, &mnt, &exports, &mounts, &None).unwrap().reply, unavail);
    assert!(parse_mount_args(9, &mut Cursor::new(Vec::new())).unwrap().is_none());
    assert!(parse_mount_args(1, &mut Cursor::new(vec![0, 0, 0, 9])).is_err());
    let dump = handle_mount(5, &Args::Dump, &exports, &mounts, &None).unwrap();
    assert_eq!(dump.reply.len(), 24 + 4 + 8 + 12 + 4);
}

#[test]
fn v4_requests_decode() {
    use_request_decoding();
}

fn use_request_decoding() {
    let mut src = Cursor::new(vec![0, 0, 0, 0]);
    let req = nfs_mamont::protocol::xdr::deserialize::<Request>(&mut src).unwrap();
    assert_eq!(req.argop, OpNum::Null);
    let mut nested = vec![0, 0, 0, 1];
    nested.extend_from_slice(&compound_args(&[0, 0, 0, 0], 1));
    let req = nfs_mamont::protocol::xdr::deserialize::<Request>(&mut Cursor::new(nested)).unwrap();
    match req.uin {
        Argument::Compound(args) => {
            assert_eq!(args.tag, "hi");
            assert_eq!(args.arg_array.len(), 1);
            assert_eq!(args.arg_array[0].argop, OpNum::Null);
        },
        _ => panic!("expected compound arguments"),
    }
    assert!(nfs_mamont::protocol::xdr::deserialize::<Request>(&mut Cursor::new(vec![0, 0, 0, 3])).is_err());
}

#[test]
fn v4_compound_results_encode() {
    let inner = nfs_mamont::protocol::nfs::v4::operations::Response {
        status: Status::Success,
        resop: OpNum::Null,
        uin: Data::Null(null::Resp {}),
    };
    let resp = nfs_mamont::protocol::nfs::v4::operations::Response {
        status: Status::Success,
        resop: OpNum::Compound,
        uin: Data::Compound(compound::Resp { status: Status::Success, tag: String::from("t"), res_array: vec![inner] }),
    };
    let mut out = Vec::new();
    resp.serialize_no_resop(&mut out).unwrap();
    assert_eq!(out, vec![0, 0, 0, 0, 0, 0, 0, 1, b't', 0, 0, 0, 0, 0, 0, 1, 0, 0, 0, 0]);
}

#[test]
fn a_compound_starts_at_the_root_with_anonymous_state() {
    let root = NFSFh4::create(vec![7, 7, 7]).unwrap();
    let context = NFSv4Context::new(&root);
    let shown = format!("{:?}", context);
    assert_eq!(shown.matches("data: [7, 7, 7]").count(), 2);
    assert_eq!(shown.matches("seqid: 0").count(), 2);
    assert!(shown.contains("minor_version: 0"));
}

#[test]
fn portmap_answers_other_procedures_unavailable() {
    let mut table = PortmapTable::new();
    let mut input = Cursor::new(vec![1, 2, 3, 4]);
    let reply = handle_portmap(9, 3, &mut input, &mut table).unwrap();
    assert_eq!(reply, vec![0, 0, 0, 9, 0, 0, 0, 1, 0, 0, 0, 0, 0, 0, 0, 0, 0, 0, 0, 0, 0, 0, 0, 3]);
    assert_eq!(input.position(), 0);
}
