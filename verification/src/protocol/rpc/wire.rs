//! One RPC message (RFC 5531): decoding, the checks every call passes, and
//! the program that serves it.
use vstd::prelude::*;

use crate::parser::cursor::Cursor;
use crate::protocol::xdr::rpc::{
    auth_flavor, auth_unix, auth_unixView, call_body, prog_mismatch_bytes, prog_mismatch_reply,
    prog_unavail_reply, accepted_header, rpc_body, rpc_bodyView, rpc_mismatch_bytes, rpc_msg,
    rpc_vers_mismatch_reply, PROTOCOL_VERSION,
};
use crate::protocol::xdr::{copy_bytes, mount, nfs3, Deserialize};
use crate::protocol::rpc::transaction_tracker::{new_call, TransactionTracker};
use crate::rpc::{Error, IoErrorKind, Parsed};

verus! {

/// The NFS access control list program; not served.
pub const NFS_ACL_PROGRAM: u32 = 100227;

/// The NFS id mapping program; not served.
pub const NFS_ID_MAP_PROGRAM: u32 = 100270;

/// The NFS local I/O program; not served.
pub const NFS_LOCALIO_PROGRAM: u32 = 400122;

/// The NFS metadata program; not served.
pub const NFS_METADATA_PROGRAM: u32 = 200024;

/// The port mapper program.
pub const PORTMAP_PROGRAM: u32 = 100000;

/// NFS version 4.
pub const NFS_V4_VERSION: u32 = 4;

/// Reply buffers start with this capacity.
pub const DEFAULT_RESPONSE_BUFFER_CAPACITY: usize = 8192;

/// What became of a decoded message.
#[derive(Debug)]
pub enum Dispatch {
    /// The reply is written.
    Replied,
    /// A call seen before from the same client: nothing is written.
    Retransmission,
    /// A new call, now recorded, to route: its transaction id, its body and, for `AUTH_SYS`
    /// credentials, the caller's UNIX credentials.
    Call(u32, call_body, Option<auth_unix>),
}

/// The UNIX credentials a call carries: decoded from the credential body
/// for `AUTH_SYS`, none for other flavors.
pub open spec fn credentials_of(flavor: auth_flavor, body: Seq<u8>) -> Option<Parsed<auth_unixView>> {
    if flavor == auth_flavor::AUTH_SYS {
        Some(<auth_unix as Deserialize>::decoding(body, 0))
    } else {
        None
    }
}

/// `a` holds the credentials `c` decoded to.
pub open spec fn credentials_are(a: Option<auth_unix>, c: Option<Parsed<auth_unixView>>) -> bool {
    match c {
        Some(Ok((v, _))) => a matches Some(x) && x@ == v,
        _ => a is None,
    }
}

/// Decodes an RPC message from `input`. A reply is refused; a call with
/// `AUTH_SYS` credentials has them decoded; a call of an RPC version other
/// than 2 is answered with `RPC_MISMATCH` in `output`; any other call is
/// handed back.
fn decode_message(input: &mut Cursor, output: &mut Vec<u8>) -> (r: Result<Dispatch, Error>)
    requires
        old(input).wf(),
    ensures
        final(input).bytes() == old(input).bytes(),
        final(input).wf(),
        match <rpc_msg as Deserialize>::decoding(old(input).bytes(), old(input).pos()) {
            Err(e) => r == Err::<Dispatch, Error>(e) && final(output)@ == old(output)@,
            Ok((msg, end)) => final(input).pos() == end && match msg.body {
                rpc_bodyView::REPLY(_) => r == Err::<Dispatch, Error>(Error::IO(IoErrorKind::Other))
                    && final(output)@ == old(output)@,
                rpc_bodyView::CALL(call) => match credentials_of(call.cred.flavor, call.cred.body) {
                    Some(Err(e)) => r == Err::<Dispatch, Error>(e) && final(output)@ == old(output)@,
                    c => if call.rpcvers != PROTOCOL_VERSION {
                        r matches Ok(Dispatch::Replied) && final(output)@ == old(output)@
                            + rpc_mismatch_bytes(msg.xid)
                    } else {
                        &&& r matches Ok(Dispatch::Call(xid, body, auth))
                        &&& xid == msg.xid
                        &&& body@ == call
                        &&& credentials_are(auth, c)
                        &&& final(output)@ == old(output)@
                    },
                },
            },
        },
{
    let recv = <rpc_msg as Deserialize>::deserialize(input)?;
    let xid = recv.xid;
    let call = match recv.body {
        rpc_body::CALL(call) => call,
        rpc_body::REPLY(_) => return Err(Error::IO(IoErrorKind::Other)),
    };
    let auth = if matches!(call.cred.flavor, auth_flavor::AUTH_SYS) {
        let mut body = Cursor::new(copy_bytes(&call.cred.body));
        Some(<auth_unix as Deserialize>::deserialize(&mut body)?)
    } else {
        None
    };
    if call.rpcvers != PROTOCOL_VERSION {
        let reply = rpc_vers_mismatch_reply(xid);
        let mut i: usize = 0;
        while i < reply.len()
            invariant
                0 <= i <= reply@.len(),
                output@ == old(output)@ + reply@.take(i as int),
            decreases reply@.len() - i,
        {
            output.push(reply[i]);
            i = i + 1;
            assert(output@ =~= old(output)@ + reply@.take(i as int));
        }
        assert(reply@.take(reply@.len() as int) =~= reply@);
        return Ok(Dispatch::Replied);
    }
    Ok(Dispatch::Call(xid, call, auth))
}

/// The program that serves a call.
#[derive(Debug, Clone, Copy, PartialEq, Eq)]
pub enum Route {
    /// NFS version 3.
    NfsV3,
    /// NFS version 4.
    NfsV4,
    /// NFS in a version not served; answered with the range served.
    NfsVersionMismatch,
    /// The port mapper.
    Portmap,
    /// MOUNT.
    Mount,
    /// A program not served; answered with `PROG_UNAVAIL`.
    Unavailable,
}

/// The program that serves a call of program `prog`, version `vers`.
pub open spec fn route_of(prog: u32, vers: u32) -> Route {
    if prog == nfs3::PROGRAM {
        if vers == nfs3::VERSION {
            Route::NfsV3
        } else if vers == NFS_V4_VERSION {
            Route::NfsV4
        } else {
            Route::NfsVersionMismatch
        }
    } else if prog == PORTMAP_PROGRAM {
        Route::Portmap
    } else if prog == mount::PROGRAM {
        Route::Mount
    } else {
        Route::Unavailable
    }
}

/// Routes a call by program and version.
pub fn route_call(call: &call_body) -> (r: Route)
    ensures
        r == route_of(call.prog, call.vers),
{
    if call.prog == nfs3::PROGRAM {
        if call.vers == nfs3::VERSION {
            Route::NfsV3
        } else if call.vers == NFS_V4_VERSION {
            Route::NfsV4
        } else {
            Route::NfsVersionMismatch
        }
    } else if call.prog == PORTMAP_PROGRAM {
        Route::Portmap
    } else if call.prog == mount::PROGRAM {
        Route::Mount
    } else {
        Route::Unavailable
    }
}

/// The reply the router itself gives for `route`, if any: the range of NFS
/// versions served, or `PROG_UNAVAIL`.
pub open spec fn route_reply(xid: u32, route: Route) -> Option<Seq<u8>> {
    match route {
        Route::NfsVersionMismatch => Some(prog_mismatch_bytes(xid, nfs3::VERSION, NFS_V4_VERSION)),
        Route::Unavailable => Some(accepted_header(xid, 1)),
        _ => None,
    }
}

/// The reply the router itself gives for `route`, if any.
pub fn reply_for_route(xid: u32, route: Route) -> (r: Option<Vec<u8>>)
    ensures
        match route_reply(xid, route) {
            Some(b) => r matches Some(v) && v@ == b,
            None => r is None,
        },
{
    match route {
        Route::NfsVersionMismatch => Some(prog_mismatch_reply(xid, nfs3::VERSION, NFS_V4_VERSION)),
        Route::Unavailable => Some(prog_unavail_reply(xid)),
        _ => None,
    }
}

/// Decodes an RPC message from `input` and tells a new call from a
/// retransmission: a reply is refused; a call of an RPC version other than
/// 2 is answered with `RPC_MISMATCH` in `output`; a call whose transaction
/// id `tracker` already holds for `client_addr` is a retransmission, which
/// gets no reply and leaves the tracker as it was; any other call is
/// recorded in `tracker` and handed back, with the caller's UNIX
/// credentials for `AUTH_SYS`.
pub fn handle_rpc(input: &mut Cursor, output: &mut Vec<u8>, tracker: &mut TransactionTracker, client_addr: &str) -> (r:
    Result<Dispatch, Error>)
    requires
        old(input).wf(),
        old(tracker).wf(),
    ensures
        final(input).bytes() == old(input).bytes(),
        final(input).wf(),
        final(tracker).wf(),
        final(tracker).retention() == old(tracker).retention(),
        final(tracker).threshold() == old(tracker).threshold(),
        match <rpc_msg as Deserialize>::decoding(old(input).bytes(), old(input).pos()) {
            Err(e) => r == Err::<Dispatch, Error>(e) && final(output)@ == old(output)@ && final(tracker).calls()
                == old(tracker).calls() && final(tracker).count() == old(tracker).count(),
            Ok((msg, end)) => final(input).pos() == end && match msg.body {
                rpc_bodyView::REPLY(_) => r == Err::<Dispatch, Error>(Error::IO(IoErrorKind::Other))
                    && final(output)@ == old(output)@ && final(tracker).calls() == old(tracker).calls()
                    && final(tracker).count() == old(tracker).count(),
                rpc_bodyView::CALL(call) => match credentials_of(call.cred.flavor, call.cred.body) {
                    Some(Err(e)) => r == Err::<Dispatch, Error>(e) && final(output)@ == old(output)@
                        && final(tracker).calls() == old(tracker).calls() && final(tracker).count()
                        == old(tracker).count(),
                    c => if call.rpcvers != PROTOCOL_VERSION {
                        &&& r matches Ok(Dispatch::Replied)
                        &&& final(output)@ == old(output)@ + rpc_mismatch_bytes(msg.xid)
                        &&& final(tracker).calls() == old(tracker).calls()
                        &&& final(tracker).count() == old(tracker).count()
                    } else if old(tracker).calls().contains_key((msg.xid, client_addr@)) {
                        &&& r matches Ok(Dispatch::Retransmission)
                        &&& final(output)@ == old(output)@
                        &&& final(tracker).calls() == old(tracker).calls()
                        &&& final(tracker).count() == old(tracker).count()
                    } else {
                        &&& r matches Ok(Dispatch::Call(xid, body, auth))
                        &&& xid == msg.xid
                        &&& body@ == call
                        &&& credentials_are(auth, c)
                        &&& final(output)@ == old(output)@
                        &&& exists|cutoff: u128| #[trigger]
                            new_call(
                                old(tracker).calls(),
                                cutoff,
                                old(tracker).count(),
                                old(tracker).threshold(),
                                (msg.xid, client_addr@),
                            ) == final(tracker).calls()
                    },
                },
            },
        },
{
    let (xid, call, auth) = match decode_message(input, output)? {
        Dispatch::Call(xid, call, auth) => (xid, call, auth),
        other => return Ok(other),
    };
    if tracker.is_retransmission(xid, client_addr) {
        return Ok(Dispatch::Retransmission);
    }
    Ok(Dispatch::Call(xid, call, auth))
}

/// How a message starts to be served.
#[derive(Debug)]
pub enum Begin {
    /// Answered with `RPC_MISMATCH`, before the call was recorded.
    Replied,
    /// A call seen before: no reply.
    Retransmission,
    /// A new call, with this transaction id, that the router answered
    /// itself; it is to be marked processed.
    Answered(u32),
    /// A new call for the program `route` to serve, with its transaction id,
    /// its body and the caller's UNIX credentials; it is to be marked
    /// processed once served.
    Serve(Route, u32, call_body, Option<auth_unix>),
}

/// Decodes a message from `input` and starts to serve it (the part of RPC
/// handling before the program runs): [`handle_rpc`] decodes it and tells
/// a new call from a retransmission; a new call is then either answered by
/// the router (a program or NFS version not served) or handed back to be
/// served.
pub fn begin_call(input: &mut Cursor, output: &mut Vec<u8>, tracker: &mut TransactionTracker, client_addr: &str) -> (r:
    Result<Begin, Error>)
    requires
        old(input).wf(),
        old(tracker).wf(),
    ensures
        final(input).bytes() == old(input).bytes(),
        final(input).wf(),
        final(tracker).wf(),
        final(tracker).retention() == old(tracker).retention(),
        final(tracker).threshold() == old(tracker).threshold(),
        match <rpc_msg as Deserialize>::decoding(old(input).bytes(), old(input).pos()) {
            Err(e) => r == Err::<Begin, Error>(e) && final(output)@ == old(output)@ && final(tracker).calls()
                == old(tracker).calls(),
            Ok((msg, end)) => final(input).pos() == end && match msg.body {
                rpc_bodyView::REPLY(_) => r == Err::<Begin, Error>(Error::IO(IoErrorKind::Other))
                    && final(output)@ == old(output)@ && final(tracker).calls() == old(tracker).calls(),
                rpc_bodyView::CALL(call) => match credentials_of(call.cred.flavor, call.cred.body) {
                    Some(Err(e)) => r == Err::<Begin, Error>(e) && final(output)@ == old(output)@
                        && final(tracker).calls() == old(tracker).calls(),
                    c => if call.rpcvers != PROTOCOL_VERSION {
                        &&& r matches Ok(Begin::Replied)
                        &&& final(output)@ == old(output)@ + rpc_mismatch_bytes(msg.xid)
                        &&& final(tracker).calls() == old(tracker).calls()
                    } else if old(tracker).calls().contains_key((msg.xid, client_addr@)) {
                        &&& r matches Ok(Begin::Retransmission)
                        &&& final(output)@ == old(output)@
                        &&& final(tracker).calls() == old(tracker).calls()
                    } else {
                        &&& exists|cutoff: u128| #[trigger]
                            new_call(
                                old(tracker).calls(),
                                cutoff,
                                old(tracker).count(),
                                old(tracker).threshold(),
                                (msg.xid, client_addr@),
                            ) == final(tracker).calls()
                        &&& match route_reply(msg.xid, route_of(call.prog, call.vers)) {
                            Some(b) => r matches Ok(Begin::Answered(x)) && x == msg.xid && final(output)@ == old(output)@ + b,
                            None => {
                                &&& r matches Ok(Begin::Serve(route, xid, body, auth))
                                &&& route == route_of(call.prog, call.vers)
                                &&& xid == msg.xid
                                &&& body@ == call
                                &&& credentials_are(auth, c)
                                &&& final(output)@ == old(output)@
                            },
                        }
                    },
                },
            },
        },
{
    let (xid, call, auth) = match handle_rpc(input, output, tracker, client_addr)? {
        Dispatch::Replied => return Ok(Begin::Replied),
        Dispatch::Retransmission => return Ok(Begin::Retransmission),
        Dispatch::Call(xid, call, auth) => (xid, call, auth),
    };
    let route = route_call(&call);
    match reply_for_route(xid, route) {
        Some(reply) => {
            let ghost before = output@;
            let mut i: usize = 0;
            while i < reply.len()
                invariant
                    0 <= i <= reply@.len(),
                    output@ == before + reply@.take(i as int),
                decreases reply@.len() - i,
            {
                output.push(reply[i]);
                i = i + 1;
                assert(output@ =~= before + reply@.take(i as int));
            }
            assert(reply@.take(reply@.len() as int) =~= reply@);
            Ok(Begin::Answered(xid))
        },
        None => Ok(Begin::Serve(route, xid, call, auth)),
    }
}

} // verus!
