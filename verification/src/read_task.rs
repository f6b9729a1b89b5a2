//! The reading side of a connection: decoding requests from the bytes it
//! delivers and deciding what becomes of each.
//!
//! [`ReadTask`] holds the parser of one connection. The caller feeds it the
//! bytes read, tells it when the connection closed, and asks it for the next
//! event: a call to hand on, a refused request to answer, a request to read
//! more bytes for, or the end of the connection.
use vstd::prelude::*;

use crate::encoding::be32_bytes;
use crate::parser::cursor::eof;
use crate::parser::parser_struct::{
    outcome_failure, pending_after, spec_parse_request, ParseFailure, ParsedRpcCall, RequestOutcome,
    RpcParser,
};
use crate::protocol::xdr::rpc::{accepted_header, auth_stat, garbage_args_reply, prog_mismatch_bytes,
    prog_mismatch_reply, prog_unavail_reply, proc_unavail_reply, rejected_reply, rejected_reply_message,
    mismatch_info};
use crate::protocol::xdr::{SerializeEnum, Serialize};
use crate::rpc::{auth_stat_code, is_protocol_rejection, AuthStat, Error, IoErrorKind};

verus! {

/// What happens next on a connection.
#[derive(Debug)]
pub enum ReadEvent {
    /// A decoded call, to hand on.
    Forward(ParsedRpcCall),
    /// The bytes end inside a request: read more and ask again.
    ReadMore,
    /// The connection closed between requests: stop.
    Finish,
    /// A request that was refused: answer it, then go on.
    Reject(u32, Error),
    /// A request that cannot be answered: stop with this error.
    Fail(IoErrorKind),
}

/// The I/O error a refused request without transaction id ends the
/// connection with: an I/O error's own kind, else `InvalidData`.
pub open spec fn parser_error_kind(error: Error) -> IoErrorKind {
    match error {
        Error::IO(kind) => kind,
        _ => IoErrorKind::InvalidData,
    }
}

/// The I/O error a refused request without transaction id ends the
/// connection with.
pub fn map_parser_error(error: Error) -> (r: IoErrorKind)
    ensures
        r == parser_error_kind(error),
{
    match error {
        Error::IO(kind) => kind,
        _ => IoErrorKind::InvalidData,
    }
}

/// How many commands wait in a queue of `max_capacity` with `capacity`
/// free slots.
pub fn queue_depth(max_capacity: usize, capacity: usize) -> (r: usize)
    ensures
        r == (if capacity <= max_capacity {
            max_capacity - capacity
        } else {
            0
        }),
{
    max_capacity.saturating_sub(capacity)
}

/// The reader of one connection.
#[derive(Debug)]
pub struct ReadTask {
    parser: RpcParser,
    closed: bool,
}

impl ReadTask {
    /// The bytes received and not consumed yet.
    pub closed spec fn pending(&self) -> Seq<u8> {
        self.parser.pending()
    }

    /// The connection delivers no more bytes.
    pub closed spec fn is_closed(&self) -> bool {
        self.closed
    }

    /// The reader is in a consistent state.
    pub closed spec fn wf(&self) -> bool {
        self.parser.wf()
    }

    /// How many bytes to read from the connection at a time.
    pub closed spec fn read_size(&self) -> nat {
        self.parser.read_size()
    }

    /// A reader of a fresh connection that reads `read_buffer_size` bytes at
    /// a time.
    pub fn new(read_buffer_size: usize) -> (r: ReadTask)
        ensures
            r.wf(),
            r.pending() == Seq::<u8>::empty(),
            !r.is_closed(),
            r.read_size() == read_buffer_size,
    {
        ReadTask { parser: RpcParser::with_capacity(read_buffer_size), closed: false }
    }

    /// How many bytes to read from the connection at a time.
    pub fn read_buffer_size(&self) -> (r: usize)
        ensures
            r == self.read_size(),
    {
        self.parser.capacity()
    }

    /// Adds bytes read from the connection.
    pub fn on_bytes(&mut self, bytes: &[u8])
        requires
            old(self).wf(),
        ensures
            final(self).wf(),
            final(self).pending() == old(self).pending() + bytes@,
            final(self).is_closed() == old(self).is_closed(),
            final(self).read_size() == old(self).read_size(),
    {
        self.parser.feed(bytes);
    }

    /// Records that the connection delivers no more bytes.
    pub fn on_close(&mut self)
        ensures
            final(self).wf() == old(self).wf(),
            final(self).pending() == old(self).pending(),
            final(self).is_closed(),
            final(self).read_size() == old(self).read_size(),
    {
        self.closed = true;
    }

    /// Decodes the next request and decides what becomes of it: a call is
    /// handed on; a request cut short waits for more bytes unless the
    /// connection closed, when one without transaction id ends the
    /// connection quietly and one with an id is refused and its bytes
    /// dropped, so that the next event ends the connection; a refused
    /// request with an id is answered; one without ends the connection with
    /// an error.
    pub fn next(&mut self) -> (r: ReadEvent)
        requires
            old(self).wf(),
        ensures
            final(self).wf(),
            final(self).is_closed() == old(self).is_closed(),
            final(self).read_size() == old(self).read_size(),
            if old(self).is_closed() && spec_parse_request(old(self).pending()) matches RequestOutcome::Incomplete(
                Some(_),
            ) {
                final(self).pending() == Seq::<u8>::empty()
            } else {
                pending_after(old(self).pending(), final(self).pending())
            },
            old(self).is_closed() && !(r is Finish) && !(r is Fail) ==> final(self).pending().len()
                < old(self).pending().len(),
            match spec_parse_request(old(self).pending()) {
                RequestOutcome::Parsed(head, args, _) => r matches ReadEvent::Forward(call)
                    && call.header == head && call.arguments@ == args,
                RequestOutcome::Incomplete(xid) => if !old(self).is_closed() {
                    r is ReadMore
                } else {
                    match xid {
                        None => r is Finish,
                        Some(x) => r matches ReadEvent::Reject(y, e) && y == x && e == eof(),
                    }
                },
                RequestOutcome::Rejected(Some(x), e, _) => r matches ReadEvent::Reject(y, e2) && y == x
                    && e2 == e,
                RequestOutcome::Rejected(None, e, _) => r matches ReadEvent::Fail(k) && k
                    == parser_error_kind(e),
            },
    {
        match self.parser.parse_request_full() {
            Ok(call) => ReadEvent::Forward(call),
            Err(ParseFailure { xid, error }) => {
                let incomplete = matches!(error, Error::IO(IoErrorKind::UnexpectedEof));
                if incomplete && !self.closed {
                    return ReadEvent::ReadMore;
                }
                match xid {
                    Some(x) => {
                        if incomplete {
                            self.parser.discard_pending();
                        }
                        ReadEvent::Reject(x, error)
                    },
                    None => if incomplete {
                        ReadEvent::Finish
                    } else {
                        ReadEvent::Fail(map_parser_error(error))
                    },
                }
            },
        }
    }
}

/// The reply to a refused request: an RPC version mismatch or an
/// authentication error is denied (RFC 5531 `MSG_DENIED`); an unknown
/// program, version or procedure gets the accepted status that says so; any
/// other error means the arguments could not be decoded (`GARBAGE_ARGS`).
pub open spec fn rejection_bytes(xid: u32, e: Error) -> Seq<u8> {
    match e {
        Error::RpcVersionMismatch(vm) => be32_bytes(xid) + be32_bytes(1) + be32_bytes(1) + be32_bytes(0)
            + be32_bytes(vm.low) + be32_bytes(vm.high),
        Error::AuthError(stat) => be32_bytes(xid) + be32_bytes(1) + be32_bytes(1) + be32_bytes(1)
            + be32_bytes(auth_stat_code(stat)),
        Error::ProgramMismatch => accepted_header(xid, 1),
        Error::ProgramVersionMismatch(vm) => prog_mismatch_bytes(xid, vm.low, vm.high),
        Error::ProcedureMismatch => accepted_header(xid, 3),
        _ => accepted_header(xid, 4),
    }
}

/// The wire status of an authentication failure.
fn auth_stat_of(stat: AuthStat) -> (r: auth_stat)
    ensures
        r.discriminant() == auth_stat_code(stat) as i32,
{
    match stat {
        AuthStat::AuthOk => auth_stat::AUTH_OK,
        AuthStat::BadCred => auth_stat::AUTH_BADCRED,
        AuthStat::RejectedCred => auth_stat::AUTH_REJECTEDCRED,
        AuthStat::BadVerf => auth_stat::AUTH_BADVERF,
        AuthStat::RejectedVerf => auth_stat::AUTH_REJECTEDVERF,
        AuthStat::TooWeak => auth_stat::AUTH_TOOWEAK,
        AuthStat::InvalidResp => auth_stat::AUTH_INVALIDRESP,
        AuthStat::Failed => auth_stat::AUTH_FAILED,
        AuthStat::KerbGeneric => auth_stat::AUTH_KERB_GENERIC,
        AuthStat::TimeExpire => auth_stat::AUTH_TIMEEXPIRE,
        AuthStat::TktFile => auth_stat::AUTH_TKT_FILE,
        AuthStat::Decode => auth_stat::AUTH_DECODE,
        AuthStat::NetAddr => auth_stat::AUTH_NET_ADDR,
        AuthStat::RpcSecGssCredProblem => auth_stat::RPCSEC_GSS_CREDPROBLEM,
        AuthStat::RpcSecGssCtxProblem => auth_stat::RPCSEC_GSS_CTXPROBLEM,
    }
}

/// The reply to the request `xid` refused with `error`.
pub fn rejection_reply(xid: u32, error: Error) -> (r: Vec<u8>)
    ensures
        r@ == rejection_bytes(xid, error),
{
    match error {
        Error::RpcVersionMismatch(vm) => {
            let msg = rejected_reply_message(
                xid,
                rejected_reply::RPC_MISMATCH(mismatch_info { low: vm.low, high: vm.high }),
            );
            let mut out: Vec<u8> = Vec::new();
            let _ = msg.serialize(&mut out);
            assert(out@ =~= rejection_bytes(xid, error));
            out
        },
        Error::AuthError(stat) => {
            let msg = rejected_reply_message(xid, rejected_reply::AUTH_ERROR(auth_stat_of(stat)));
            let mut out: Vec<u8> = Vec::new();
            let _ = msg.serialize(&mut out);
            assert(out@ =~= rejection_bytes(xid, error));
            out
        },
        Error::ProgramMismatch => prog_unavail_reply(xid),
        Error::ProgramVersionMismatch(vm) => prog_mismatch_reply(xid, vm.low, vm.high),
        Error::ProcedureMismatch => proc_unavail_reply(xid),
        _ => garbage_args_reply(xid),
    }
}

} // verus!
