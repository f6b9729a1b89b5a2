//! ONC RPC (RFC 5531) vocabulary shared by the parser and the reply builders:
//! message and status enumerations, credentials, and the parser's error type.
use vstd::prelude::*;

verus! {

/// The RPC protocol version this server speaks.
pub const RPC_VERSION: u32 = 2;

/// Largest credential or verifier body accepted, in bytes (RFC 5531 section 8.2).
pub const MAX_AUTH_SIZE: usize = 400;

/// Status of an accepted call.
#[derive(Debug, Clone, Copy, PartialEq, Eq)]
pub enum AcceptStat {
    Success,
    ProgUnavail,
    ProgMismatch,
    ProcUnavail,
    GarbageArgs,
    SystemErr,
}

/// Why authentication failed.
#[derive(Debug, Clone, Copy, PartialEq, Eq)]
pub enum AuthStat {
    AuthOk,
    BadCred,
    RejectedCred,
    BadVerf,
    RejectedVerf,
    TooWeak,
    InvalidResp,
    Failed,
    KerbGeneric,
    TimeExpire,
    TktFile,
    Decode,
    NetAddr,
    RpcSecGssCredProblem,
    RpcSecGssCtxProblem,
}

/// The two kinds of RPC message.
#[derive(Debug, Clone, Copy, PartialEq, Eq)]
pub enum RpcBody {
    Call,
    Reply,
}

/// The two kinds of reply.
#[derive(Debug, Clone, Copy, PartialEq, Eq)]
pub enum ReplyBody {
    MsgAccepted,
    MsgDenied,
}

/// Why a call was rejected.
#[derive(Debug, Clone, Copy, PartialEq, Eq)]
pub enum RejectedReply {
    RpcMismatch,
    AuthError,
}

/// Authentication flavors.
#[derive(Debug, Clone, Copy, PartialEq, Eq)]
pub enum AuthFlavor {
    AuthNone,
    Sys,
    Short,
    Dh,
    RpcSecGss,
}

/// Wire number of an accept status.
pub open spec fn accept_stat_code(s: AcceptStat) -> u32 {
    match s {
        AcceptStat::Success => 0,
        AcceptStat::ProgUnavail => 1,
        AcceptStat::ProgMismatch => 2,
        AcceptStat::ProcUnavail => 3,
        AcceptStat::GarbageArgs => 4,
        AcceptStat::SystemErr => 5,
    }
}

/// Wire number of an authentication status.
pub open spec fn auth_stat_code(s: AuthStat) -> u32 {
    match s {
        AuthStat::AuthOk => 0,
        AuthStat::BadCred => 1,
        AuthStat::RejectedCred => 2,
        AuthStat::BadVerf => 3,
        AuthStat::RejectedVerf => 4,
        AuthStat::TooWeak => 5,
        AuthStat::InvalidResp => 6,
        AuthStat::Failed => 7,
        AuthStat::KerbGeneric => 8,
        AuthStat::TimeExpire => 9,
        AuthStat::TktFile => 10,
        AuthStat::Decode => 11,
        AuthStat::NetAddr => 12,
        AuthStat::RpcSecGssCredProblem => 13,
        AuthStat::RpcSecGssCtxProblem => 14,
    }
}

/// Wire number of an authentication flavor.
pub open spec fn auth_flavor_code(f: AuthFlavor) -> u32 {
    match f {
        AuthFlavor::AuthNone => 0,
        AuthFlavor::Sys => 1,
        AuthFlavor::Short => 2,
        AuthFlavor::Dh => 3,
        AuthFlavor::RpcSecGss => 6,
    }
}

/// The authentication flavor with wire number `v`, if any.
pub open spec fn auth_flavor_of(v: u32) -> Option<AuthFlavor> {
    if v == 0 {
        Some(AuthFlavor::AuthNone)
    } else if v == 1 {
        Some(AuthFlavor::Sys)
    } else if v == 2 {
        Some(AuthFlavor::Short)
    } else if v == 3 {
        Some(AuthFlavor::Dh)
    } else if v == 6 {
        Some(AuthFlavor::RpcSecGss)
    } else {
        None
    }
}

impl AcceptStat {
    /// Wire number of this status.
    pub fn to_u32(&self) -> (r: u32)
        ensures
            r == accept_stat_code(*self),
    {
        match self {
            AcceptStat::Success => 0,
            AcceptStat::ProgUnavail => 1,
            AcceptStat::ProgMismatch => 2,
            AcceptStat::ProcUnavail => 3,
            AcceptStat::GarbageArgs => 4,
            AcceptStat::SystemErr => 5,
        }
    }
}

impl RpcBody {
    /// Wire number of this message type.
    pub fn to_u32(&self) -> (r: u32)
        ensures
            r == (match *self {
                RpcBody::Call => 0u32,
                RpcBody::Reply => 1u32,
            }),
    {
        match self {
            RpcBody::Call => 0,
            RpcBody::Reply => 1,
        }
    }
}

impl AuthStat {
    /// Wire number of this status.
    pub fn to_u32(&self) -> (r: u32)
        ensures
            r == auth_stat_code(*self),
    {
        match self {
            AuthStat::AuthOk => 0,
            AuthStat::BadCred => 1,
            AuthStat::RejectedCred => 2,
            AuthStat::BadVerf => 3,
            AuthStat::RejectedVerf => 4,
            AuthStat::TooWeak => 5,
            AuthStat::InvalidResp => 6,
            AuthStat::Failed => 7,
            AuthStat::KerbGeneric => 8,
            AuthStat::TimeExpire => 9,
            AuthStat::TktFile => 10,
            AuthStat::Decode => 11,
            AuthStat::NetAddr => 12,
            AuthStat::RpcSecGssCredProblem => 13,
            AuthStat::RpcSecGssCtxProblem => 14,
        }
    }
}

impl AuthFlavor {
    /// Wire number of this flavor.
    pub fn to_u32(&self) -> (r: u32)
        ensures
            r == auth_flavor_code(*self),
    {
        match self {
            AuthFlavor::AuthNone => 0,
            AuthFlavor::Sys => 1,
            AuthFlavor::Short => 2,
            AuthFlavor::Dh => 3,
            AuthFlavor::RpcSecGss => 6,
        }
    }

    /// The flavor with wire number `v`, if there is one.
    pub fn from_u32(v: u32) -> (r: Option<AuthFlavor>)
        ensures
            r == auth_flavor_of(v),
    {
        if v == 0 {
            Some(AuthFlavor::AuthNone)
        } else if v == 1 {
            Some(AuthFlavor::Sys)
        } else if v == 2 {
            Some(AuthFlavor::Short)
        } else if v == 3 {
            Some(AuthFlavor::Dh)
        } else if v == 6 {
            Some(AuthFlavor::RpcSecGss)
        } else {
            None
        }
    }
}

/// A credential or verifier: a flavor and its opaque body.
#[derive(Debug, Clone, PartialEq, Eq)]
pub struct OpaqueAuth {
    pub flavor: AuthFlavor,
    pub body: Vec<u8>,
}

/// Lowest and highest supported versions of a program or of RPC itself.
#[derive(Debug, Clone, Copy, PartialEq, Eq)]
pub struct VersionMismatch {
    pub low: u32,
    pub high: u32,
}

/// What went wrong with reading from a byte source.
#[derive(Debug, Clone, Copy, PartialEq, Eq)]
pub enum IoErrorKind {
    /// The source ended before the item did.
    UnexpectedEof,
    /// The bytes do not form a valid message.
    InvalidData,
    /// A request made to the parser was inconsistent.
    InvalidInput,
    /// The message uses a feature this server does not support.
    Unsupported,
    /// Memory for the item could not be obtained.
    OutOfMemory,
    /// Any other failure of the transport.
    Other,
}

/// Errors that can occur during parsing.
#[derive(Debug, Clone, Copy, PartialEq, Eq)]
pub enum Error {
    /// The maximum element limit was exceeded.
    MaxElemLimit,
    /// An I/O error occurred.
    IO(IoErrorKind),
    /// An enum discriminant mismatch occurred.
    EnumDiscMismatch,
    /// Bytes that should have been UTF-8 were not.
    IncorrectString,
    /// An impossible type cast was attempted.
    ImpossibleTypeCast,
    /// A bad file handle was encountered.
    BadFileHandle,
    /// A message type mismatch occurred.
    MessageTypeMismatch,
    /// An RPC version mismatch occurred.
    RpcVersionMismatch(VersionMismatch),
    /// An authentication error occurred.
    AuthError(AuthStat),
    /// A program mismatch occurred.
    ProgramMismatch,
    /// A procedure mismatch occurred.
    ProcedureMismatch,
    /// A program version mismatch occurred.
    ProgramVersionMismatch(VersionMismatch),
    /// The alignment padding after opaque data was missing.
    IncorrectPadding,
    /// A counted vector was longer than its bound.
    VecTooLong,
    /// A counted string was longer than its bound.
    StringTooLong,
}

impl View for AcceptStat {
    type V = AcceptStat;

    open spec fn view(&self) -> AcceptStat {
        *self
    }
}

impl View for AuthStat {
    type V = AuthStat;

    open spec fn view(&self) -> AuthStat {
        *self
    }
}

impl View for AuthFlavor {
    type V = AuthFlavor;

    open spec fn view(&self) -> AuthFlavor {
        *self
    }
}

impl View for VersionMismatch {
    type V = VersionMismatch;

    open spec fn view(&self) -> VersionMismatch {
        *self
    }
}

/// Errors that reject a well-framed call for protocol reasons: after them
/// the rest of the call's record is skipped and a reply can still be sent.
pub open spec fn is_protocol_rejection(e: Error) -> bool {
    match e {
        Error::RpcVersionMismatch(_) => true,
        Error::ProgramMismatch => true,
        Error::ProcedureMismatch => true,
        Error::ProgramVersionMismatch(_) => true,
        Error::AuthError(_) => true,
        Error::MessageTypeMismatch => true,
        _ => false,
    }
}

/// Tells whether `error` is one of the protocol rejections after which the
/// call's record is skipped and a reply is sent.
pub fn is_expected_protocol_rejection(error: &Error) -> (r: bool)
    ensures
        r == is_protocol_rejection(*error),
{
    match error {
        Error::RpcVersionMismatch(_) => true,
        Error::ProgramMismatch => true,
        Error::ProcedureMismatch => true,
        Error::ProgramVersionMismatch(_) => true,
        Error::AuthError(_) => true,
        Error::MessageTypeMismatch => true,
        _ => false,
    }
}

/// A parse result in the specifications: the value and the position just
/// after it, or the error the parser reports.
pub type Parsed<T> = Result<(T, int), Error>;

/// Continues a spec parse with `f` after a successful step.
pub open spec fn and_then<A, B>(r: Parsed<A>, f: spec_fn(A, int) -> Parsed<B>) -> Parsed<B> {
    match r {
        Ok((a, end)) => f(a, end),
        Err(e) => Err(e),
    }
}

} // verus!
