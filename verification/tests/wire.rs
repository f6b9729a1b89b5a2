use nfs_mamont::parser::Cursor;
use nfs_mamont::parser::Error;
use nfs_mamont::protocol::rpc::transaction_tracker::TransactionTracker;
use nfs_mamont::protocol::rpc::wire::{begin_call, handle_rpc, reply_for_route, route_call, Begin, Dispatch, Route};
use nfs_mamont::protocol::xdr::rpc::{
    accept_body, accepted_reply, auth_flavor, auth_unix, call_body, opaque_auth, reply_body,
    rpc_body, rpc_msg,
};
use nfs_mamont::protocol::xdr::Serialize;
use nfs_mamont::rpc::IoErrorKind;

fn enc<T: Serialize>(v: &T) -> Vec<u8> {
    let mut out = Vec::new();
    v.serialize(&mut out).unwrap();
    out
}

fn call(rpcvers: u32, prog: u32, vers: u32, cred: opaque_auth) -> call_body {
    call_body {
        rpcvers,
        prog,
        vers,
        proc: 0,
        cred,
        verf: opaque_auth { flavor: auth_flavor::AUTH_NONE, body: Vec::new() },
    }
}

fn none_cred() -> opaque_auth {
    opaque_auth { flavor: auth_flavor::AUTH_NONE, body: Vec::new() }
}

#[test]
fn call_is_handed_back_for_routing() {
    let msg = rpc_msg { xid: 11, body: rpc_body::CALL(call(2, 100003, 3, none_cred())) };
    let bytes = enc(&msg);
    let len = bytes.len();
    let mut input = Cursor::new(bytes);
    let mut output = Vec::new();
    match handle_rpc(&mut input, &mut output, &mut TransactionTracker::new(0), "peer").unwrap() {
        Dispatch::Call(xid, body, auth) => {
            assert_eq!(xid, 11);
            assert_eq!(body.prog, 100003);
            assert!(auth.is_none());
            assert_eq!(route_call(&body), Route::NfsV3);
        },
        _ => panic!("expected a call"),
    }
    assert!(output.is_empty());
    assert_eq!(input.offset(), len);
}

#[test]
fn unix_credentials_are_decoded() {
    let unix = auth_unix { stamp: 1, machinename: b"host".to_vec(), uid: 1000, gid: 100, gids: vec![4, 5] };
    let cred = opaque_auth { flavor: auth_flavor::AUTH_SYS, body: enc(&unix) };
    let msg = rpc_msg { xid: 12, body: rpc_body::CALL(call(2, 100005, 3, cred)) };
    let mut input = Cursor::new(enc(&msg));
    let mut output = Vec::new();
    match handle_rpc(&mut input, &mut output, &mut TransactionTracker::new(0), "peer").unwrap() {
        Dispatch::Call(_, body, auth) => {
            assert_eq!(auth, Some(unix));
            assert_eq!(route_call(&body), Route::Mount);
        },
        _ => panic!("expected a call"),
    }
}

#[test]
fn broken_credentials_fail() {
    let cred = opaque_auth { flavor: auth_flavor::AUTH_SYS, body: vec![0, 0, 0, 1] };
    let msg = rpc_msg { xid: 13, body: rpc_body::CALL(call(2, 100003, 3, cred)) };
    let mut input = Cursor::new(enc(&msg));
    let mut output = Vec::new();
    assert!(matches!(handle_rpc(&mut input, &mut output, &mut TransactionTracker::new(0), "peer"), Err(Error::IO(IoErrorKind::UnexpectedEof))));
    assert!(output.is_empty());
}

#[test]
fn wrong_rpc_version_is_answered() {
    let msg = rpc_msg { xid: 14, body: rpc_body::CALL(call(3, 100003, 3, none_cred())) };
    let mut input = Cursor::new(enc(&msg));
    let mut output = vec![0xee];
    assert!(matches!(handle_rpc(&mut input, &mut output, &mut TransactionTracker::new(0), "peer"), Ok(Dispatch::Replied)));
    assert_eq!(
        output,
        vec![0xee, 0, 0, 0, 14, 0, 0, 0, 1, 0, 0, 0, 1, 0, 0, 0, 0, 0, 0, 0, 2, 0, 0, 0, 2]
    );
}

#[test]
fn reply_message_is_refused() {
    let reply = reply_body::MSG_ACCEPTED(accepted_reply { verf: none_cred(), reply_data: accept_body::SUCCESS });
    let msg = rpc_msg { xid: 15, body: rpc_body::REPLY(reply) };
    let mut input = Cursor::new(enc(&msg));
    let mut output = Vec::new();
    assert!(matches!(handle_rpc(&mut input, &mut output, &mut TransactionTracker::new(0), "peer"), Err(Error::IO(IoErrorKind::Other))));
}

#[test]
fn truncated_message_fails() {
    let mut input = Cursor::new(vec![0, 0, 0, 1, 0, 0]);
    let mut output = Vec::new();
    assert!(matches!(handle_rpc(&mut input, &mut output, &mut TransactionTracker::new(0), "peer"), Err(Error::IO(IoErrorKind::UnexpectedEof))));
}

#[test]
fn routes_by_program_and_version() {
    let c = |prog, vers| call(2, prog, vers, none_cred());
    assert_eq!(route_call(&c(100003, 4)), Route::NfsV4);
    assert_eq!(route_call(&c(100003, 2)), Route::NfsVersionMismatch);
    assert_eq!(route_call(&c(100000, 2)), Route::Portmap);
    assert_eq!(route_call(&c(100227, 3)), Route::Unavailable);
    assert_eq!(reply_for_route(5, Route::NfsV3), None);
    assert_eq!(
        reply_for_route(5, Route::NfsVersionMismatch).unwrap(),
        vec![0, 0, 0, 5, 0, 0, 0, 1, 0, 0, 0, 0, 0, 0, 0, 0, 0, 0, 0, 0, 0, 0, 0, 2, 0, 0, 0, 3, 0, 0, 0, 4]
    );
    assert_eq!(
        reply_for_route(6, Route::Unavailable).unwrap(),
        vec![0, 0, 0, 6, 0, 0, 0, 1, 0, 0, 0, 0, 0, 0, 0, 0, 0, 0, 0, 0, 0, 0, 0, 1]
    );
}

#[test]
fn begin_call_records_and_routes() {
    let mut tracker = TransactionTracker::new(1_000_000_000);
    let msg = rpc_msg { xid: 21, body: rpc_body::CALL(call(2, 100003, 3, none_cred())) };
    let bytes = enc(&msg);
    let mut output = Vec::new();
    match begin_call(&mut Cursor::new(bytes.clone()), &mut output, &mut tracker, "peer").unwrap() {
        Begin::Serve(route, xid, _, _) => {
            assert_eq!(route, Route::NfsV3);
            assert_eq!(xid, 21);
        },
        other => panic!("expected a call to serve, got {:?}", other),
    }
    assert!(output.is_empty());
    assert!(matches!(
        begin_call(&mut Cursor::new(bytes), &mut output, &mut tracker, "peer").unwrap(),
        Begin::Retransmission
    ));
    let unknown = rpc_msg { xid: 22, body: rpc_body::CALL(call(2, 100227, 3, none_cred())) };
    assert!(matches!(
        begin_call(&mut Cursor::new(enc(&unknown)), &mut output, &mut tracker, "peer").unwrap(),
        Begin::Answered(22)
    ));
    assert_eq!(output, vec![0, 0, 0, 22, 0, 0, 0, 1, 0, 0, 0, 0, 0, 0, 0, 0, 0, 0, 0, 0, 0, 0, 0, 1]);
    let old_version = rpc_msg { xid: 23, body: rpc_body::CALL(call(1, 100003, 3, none_cred())) };
    let mut output = Vec::new();
    assert!(matches!(
        begin_call(&mut Cursor::new(enc(&old_version)), &mut output, &mut tracker, "peer").unwrap(),
        Begin::Replied
    ));
    assert_eq!(output.len(), 24);
}

#[test]
fn handle_rpc_tells_retransmissions() {
    let mut tracker = TransactionTracker::new(1_000_000_000);
    let msg = rpc_msg { xid: 31, body: rpc_body::CALL(call(2, 100003, 3, none_cred())) };
    let bytes = enc(&msg);
    let mut output = Vec::new();
    assert!(matches!(
        handle_rpc(&mut Cursor::new(bytes.clone()), &mut output, &mut tracker, "a").unwrap(),
        Dispatch::Call(31, _, _)
    ));
    assert!(matches!(
        handle_rpc(&mut Cursor::new(bytes.clone()), &mut output, &mut tracker, "a").unwrap(),
        Dispatch::Retransmission
    ));
    assert!(output.is_empty());
    assert!(matches!(
        handle_rpc(&mut Cursor::new(bytes), &mut output, &mut tracker, "b").unwrap(),
        Dispatch::Call(31, _, _)
    ));
}
