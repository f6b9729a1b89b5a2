//! RPC message (RFC 5531) data types and their XDR encoding.
use vstd::prelude::*;
use vstd::seq_lib::lemma_concat_associative;

use crate::encoding::{be32_bytes, pad_len, write_be_u32};
use crate::parser::cursor::{spec_u32, Cursor};
use crate::protocol::xdr::{
    deserialize_enum, enum_decoding, enum_encoding, invalid_data, option_decoding, serialize_enum,
    zeros, Deserialize, DeserializeEnum, Serialize, SerializeEnum,
};
use crate::protocol::xdr::{lemma_holds_split, lemma_i32_u32, lemma_u32_at, RoundTrip};
use crate::rpc::{Error, IoErrorKind, Parsed};

verus! {

broadcast use crate::encoding::lemma_keeps_prefix_trans;

/// The RPC protocol version this server speaks.
pub const PROTOCOL_VERSION: u32 = 2;

/// Authentication flavor (mechanism) identifiers.
#[allow(non_camel_case_types)]
#[derive(Debug, Clone, Copy, PartialEq, Eq)]
pub enum auth_flavor {
    AUTH_NONE,
    AUTH_SYS,
    AUTH_SHORT,
    AUTH_DH,
    RPCSEC_GSS,
}

impl View for auth_flavor {
    type V = auth_flavor;

    open spec fn view(&self) -> auth_flavor {
        *self
    }
}

impl SerializeEnum for auth_flavor {
    open spec fn discriminant(&self) -> i32 {
        match self {
            auth_flavor::AUTH_NONE => 0i32,
            auth_flavor::AUTH_SYS => 1i32,
            auth_flavor::AUTH_SHORT => 2i32,
            auth_flavor::AUTH_DH => 3i32,
            auth_flavor::RPCSEC_GSS => 6i32,
        }
    }

    fn to_i32(&self) -> (r: i32) {
        match self {
            auth_flavor::AUTH_NONE => 0,
            auth_flavor::AUTH_SYS => 1,
            auth_flavor::AUTH_SHORT => 2,
            auth_flavor::AUTH_DH => 3,
            auth_flavor::RPCSEC_GSS => 6,
        }
    }
}

impl Serialize for auth_flavor {
    open spec fn encodable(&self) -> bool {
        true
    }

    open spec fn encoding(&self) -> Seq<u8> {
        enum_encoding(self.discriminant())
    }

    fn serialize(&self, dest: &mut Vec<u8>) -> (r: Result<(), Error>) {
        serialize_enum(self, dest);
        Ok(())
    }
}

impl DeserializeEnum for auth_flavor {
    open spec fn of_discriminant(d: i32) -> Option<auth_flavor> {
        if d == 0i32 {
            Some(auth_flavor::AUTH_NONE)
        } else if d == 1i32 {
            Some(auth_flavor::AUTH_SYS)
        } else if d == 2i32 {
            Some(auth_flavor::AUTH_SHORT)
        } else if d == 3i32 {
            Some(auth_flavor::AUTH_DH)
        } else if d == 6i32 {
            Some(auth_flavor::RPCSEC_GSS)
        } else {
            None
        }
    }

    fn from_i32(d: i32) -> (r: Option<auth_flavor>) {
        if d == 0 {
            Some(auth_flavor::AUTH_NONE)
        } else if d == 1 {
            Some(auth_flavor::AUTH_SYS)
        } else if d == 2 {
            Some(auth_flavor::AUTH_SHORT)
        } else if d == 3 {
            Some(auth_flavor::AUTH_DH)
        } else if d == 6 {
            Some(auth_flavor::RPCSEC_GSS)
        } else {
            None
        }
    }
}

impl Deserialize for auth_flavor {
    open spec fn decoding(s: Seq<u8>, at: int) -> Parsed<auth_flavor> {
        enum_decoding::<auth_flavor>(s, at)
    }

    fn deserialize(src: &mut Cursor) -> (r: Result<auth_flavor, Error>) {
        deserialize_enum(src)
    }
}

impl RoundTrip for auth_flavor {
    proof fn lemma_roundtrip(&self, s: Seq<u8>, at: int) {
        lemma_u32_at(s, at, self.discriminant() as u32);
        lemma_i32_u32(self.discriminant());
    }
}

/// Credentials or verifier: a flavor and data that only it interprets.
#[allow(non_camel_case_types)]
#[derive(Debug, PartialEq, Eq)]
pub struct opaque_auth {
    /// The authentication mechanism.
    pub flavor: auth_flavor,
    /// The data of that mechanism.
    pub body: Vec<u8>,
}

/// [`opaque_auth`] with every field by its view.
#[allow(non_camel_case_types)]
pub struct opaque_authView {
    pub flavor: auth_flavor,
    pub body: Seq<u8>,
}

impl View for opaque_auth {
    type V = opaque_authView;

    open spec fn view(&self) -> opaque_authView {
        opaque_authView { flavor: self.flavor@, body: self.body@ }
    }
}

impl Serialize for opaque_auth {
    open spec fn encodable(&self) -> bool {
        self.flavor.encodable() && self.body.encodable()
    }

    open spec fn encoding(&self) -> Seq<u8> {
        self.flavor.encoding() + self.body.encoding()
    }

    fn serialize(&self, dest: &mut Vec<u8>) -> (r: Result<(), Error>) {
        let ghost start = dest@;
        self.flavor.serialize(dest)?;
        self.body.serialize(dest)?;
        proof {
            lemma_concat_associative(start, self.flavor.encoding(), self.body.encoding());
        }
        Ok(())
    }
}

impl Deserialize for opaque_auth {
    open spec fn decoding(s: Seq<u8>, at: int) -> Parsed<opaque_authView> {
        match <auth_flavor as Deserialize>::decoding(s, at) {
            Err(e) => Err(e),
            Ok((v0, p0)) => match <Vec<u8> as Deserialize>::decoding(s, p0) {
                Err(e) => Err(e),
                Ok((v1, p1)) => Ok((opaque_authView { flavor: v0, body: v1 }, p1)),
            },
        }
    }

    fn deserialize(src: &mut Cursor) -> (r: Result<opaque_auth, Error>) {
        let flavor = <auth_flavor as Deserialize>::deserialize(src)?;
        let body = <Vec<u8> as Deserialize>::deserialize(src)?;
        Ok(opaque_auth { flavor, body })
    }
}

impl RoundTrip for opaque_auth {
    #[verifier::spinoff_prover]
    #[verifier::rlimit(100)]
    proof fn lemma_roundtrip(&self, s: Seq<u8>, at: int) {
        lemma_holds_split(s, at, self.flavor.encoding(), self.body.encoding());
        self.flavor.lemma_roundtrip(s, at);
        self.body.lemma_roundtrip(s, at + self.flavor.encoding().len());
    }
}

impl Default for opaque_auth {
    /// `AUTH_NONE` with no data.
    fn default() -> (r: opaque_auth)
        ensures
            r@ == (opaque_authView { flavor: auth_flavor::AUTH_NONE, body: Seq::empty() }),
    {
        opaque_auth { flavor: auth_flavor::AUTH_NONE, body: Vec::new() }
    }
}

/// UNIX-style credentials (`AUTH_SYS`).
#[allow(non_camel_case_types)]
#[derive(Debug, PartialEq, Eq)]
pub struct auth_unix {
    /// Arbitrary id the caller may generate.
    pub stamp: u32,
    /// The name of the caller's machine.
    pub machinename: Vec<u8>,
    /// The caller's effective user id.
    pub uid: u32,
    /// The caller's effective group id.
    pub gid: u32,
    /// The other groups the caller is a member of.
    pub gids: Vec<u32>,
}

/// [`auth_unix`] with every field by its view.
#[allow(non_camel_case_types)]
pub struct auth_unixView {
    pub stamp: u32,
    pub machinename: Seq<u8>,
    pub uid: u32,
    pub gid: u32,
    pub gids: Seq<u32>,
}

impl View for auth_unix {
    type V = auth_unixView;

    open spec fn view(&self) -> auth_unixView {
        auth_unixView { stamp: self.stamp@, machinename: self.machinename@, uid: self.uid@, gid: self.gid@, gids: self.gids@ }
    }
}

impl Serialize for auth_unix {
    open spec fn encodable(&self) -> bool {
        self.stamp.encodable() && self.machinename.encodable() && self.uid.encodable() && self.gid.encodable() && self.gids.encodable()
    }

    open spec fn encoding(&self) -> Seq<u8> {
        self.stamp.encoding() + self.machinename.encoding() + self.uid.encoding() + self.gid.encoding() + self.gids.encoding()
    }

    fn serialize(&self, dest: &mut Vec<u8>) -> (r: Result<(), Error>) {
        let ghost start = dest@;
        self.stamp.serialize(dest)?;
        self.machinename.serialize(dest)?;
        proof {
            lemma_concat_associative(start, self.stamp.encoding(), self.machinename.encoding());
        }
        self.uid.serialize(dest)?;
        proof {
            lemma_concat_associative(start, self.stamp.encoding() + self.machinename.encoding(), self.uid.encoding());
        }
        self.gid.serialize(dest)?;
        proof {
            lemma_concat_associative(start, self.stamp.encoding() + self.machinename.encoding() + self.uid.encoding(), self.gid.encoding());
        }
        self.gids.serialize(dest)?;
        proof {
            lemma_concat_associative(start, self.stamp.encoding() + self.machinename.encoding() + self.uid.encoding() + self.gid.encoding(), self.gids.encoding());
        }
        Ok(())
    }
}

impl Deserialize for auth_unix {
    open spec fn decoding(s: Seq<u8>, at: int) -> Parsed<auth_unixView> {
        match <u32 as Deserialize>::decoding(s, at) {
            Err(e) => Err(e),
            Ok((v0, p0)) => match <Vec<u8> as Deserialize>::decoding(s, p0) {
                Err(e) => Err(e),
                Ok((v1, p1)) => match <u32 as Deserialize>::decoding(s, p1) {
                    Err(e) => Err(e),
                    Ok((v2, p2)) => match <u32 as Deserialize>::decoding(s, p2) {
                        Err(e) => Err(e),
                        Ok((v3, p3)) => match <Vec<u32> as Deserialize>::decoding(s, p3) {
                            Err(e) => Err(e),
                            Ok((v4, p4)) => Ok((auth_unixView { stamp: v0, machinename: v1, uid: v2, gid: v3, gids: v4 }, p4)),
                        },
                    },
                },
            },
        }
    }

    fn deserialize(src: &mut Cursor) -> (r: Result<auth_unix, Error>) {
        let stamp = <u32 as Deserialize>::deserialize(src)?;
        let machinename = <Vec<u8> as Deserialize>::deserialize(src)?;
        let uid = <u32 as Deserialize>::deserialize(src)?;
        let gid = <u32 as Deserialize>::deserialize(src)?;
        let gids = <Vec<u32> as Deserialize>::deserialize(src)?;
        Ok(auth_unix { stamp, machinename, uid, gid, gids })
    }
}

impl RoundTrip for auth_unix {
    #[verifier::spinoff_prover]
    #[verifier::rlimit(100)]
    proof fn lemma_roundtrip(&self, s: Seq<u8>, at: int) {
        lemma_holds_split(s, at, self.stamp.encoding() + self.machinename.encoding() + self.uid.encoding() + self.gid.encoding(), self.gids.encoding());
        lemma_holds_split(s, at, self.stamp.encoding() + self.machinename.encoding() + self.uid.encoding(), self.gid.encoding());
        lemma_holds_split(s, at, self.stamp.encoding() + self.machinename.encoding(), self.uid.encoding());
        lemma_holds_split(s, at, self.stamp.encoding(), self.machinename.encoding());
        self.stamp.lemma_roundtrip(s, at);
        self.machinename.lemma_roundtrip(s, at + self.stamp.encoding().len());
        self.uid.lemma_roundtrip(s, at + (self.stamp.encoding() + self.machinename.encoding()).len());
        self.gid.lemma_roundtrip(s, at + (self.stamp.encoding() + self.machinename.encoding() + self.uid.encoding()).len());
        self.gids.lemma_roundtrip(s, at + (self.stamp.encoding() + self.machinename.encoding() + self.uid.encoding() + self.gid.encoding()).len());
    }
}

/// Why authentication failed.
#[allow(non_camel_case_types)]
#[derive(Debug, Clone, Copy, PartialEq, Eq)]
pub enum auth_stat {
    AUTH_OK,
    AUTH_BADCRED,
    AUTH_REJECTEDCRED,
    AUTH_BADVERF,
    AUTH_REJECTEDVERF,
    AUTH_TOOWEAK,
    AUTH_INVALIDRESP,
    AUTH_FAILED,
    AUTH_KERB_GENERIC,
    AUTH_TIMEEXPIRE,
    AUTH_TKT_FILE,
    AUTH_DECODE,
    AUTH_NET_ADDR,
    RPCSEC_GSS_CREDPROBLEM,
    RPCSEC_GSS_CTXPROBLEM,
}

impl View for auth_stat {
    type V = auth_stat;

    open spec fn view(&self) -> auth_stat {
        *self
    }
}

impl SerializeEnum for auth_stat {
    open spec fn discriminant(&self) -> i32 {
        match self {
            auth_stat::AUTH_OK => 0i32,
            auth_stat::AUTH_BADCRED => 1i32,
            auth_stat::AUTH_REJECTEDCRED => 2i32,
            auth_stat::AUTH_BADVERF => 3i32,
            auth_stat::AUTH_REJECTEDVERF => 4i32,
            auth_stat::AUTH_TOOWEAK => 5i32,
            auth_stat::AUTH_INVALIDRESP => 6i32,
            auth_stat::AUTH_FAILED => 7i32,
            auth_stat::AUTH_KERB_GENERIC => 8i32,
            auth_stat::AUTH_TIMEEXPIRE => 9i32,
            auth_stat::AUTH_TKT_FILE => 10i32,
            auth_stat::AUTH_DECODE => 11i32,
            auth_stat::AUTH_NET_ADDR => 12i32,
            auth_stat::RPCSEC_GSS_CREDPROBLEM => 13i32,
            auth_stat::RPCSEC_GSS_CTXPROBLEM => 14i32,
        }
    }

    fn to_i32(&self) -> (r: i32) {
        match self {
            auth_stat::AUTH_OK => 0,
            auth_stat::AUTH_BADCRED => 1,
            auth_stat::AUTH_REJECTEDCRED => 2,
            auth_stat::AUTH_BADVERF => 3,
            auth_stat::AUTH_REJECTEDVERF => 4,
            auth_stat::AUTH_TOOWEAK => 5,
            auth_stat::AUTH_INVALIDRESP => 6,
            auth_stat::AUTH_FAILED => 7,
            auth_stat::AUTH_KERB_GENERIC => 8,
            auth_stat::AUTH_TIMEEXPIRE => 9,
            auth_stat::AUTH_TKT_FILE => 10,
            auth_stat::AUTH_DECODE => 11,
            auth_stat::AUTH_NET_ADDR => 12,
            auth_stat::RPCSEC_GSS_CREDPROBLEM => 13,
            auth_stat::RPCSEC_GSS_CTXPROBLEM => 14,
        }
    }
}

impl Serialize for auth_stat {
    open spec fn encodable(&self) -> bool {
        true
    }

    open spec fn encoding(&self) -> Seq<u8> {
        enum_encoding(self.discriminant())
    }

    fn serialize(&self, dest: &mut Vec<u8>) -> (r: Result<(), Error>) {
        serialize_enum(self, dest);
        Ok(())
    }
}

impl DeserializeEnum for auth_stat {
    open spec fn of_discriminant(d: i32) -> Option<auth_stat> {
        if d == 0i32 {
            Some(auth_stat::AUTH_OK)
        } else if d == 1i32 {
            Some(auth_stat::AUTH_BADCRED)
        } else if d == 2i32 {
            Some(auth_stat::AUTH_REJECTEDCRED)
        } else if d == 3i32 {
            Some(auth_stat::AUTH_BADVERF)
        } else if d == 4i32 {
            Some(auth_stat::AUTH_REJECTEDVERF)
        } else if d == 5i32 {
            Some(auth_stat::AUTH_TOOWEAK)
        } else if d == 6i32 {
            Some(auth_stat::AUTH_INVALIDRESP)
        } else if d == 7i32 {
            Some(auth_stat::AUTH_FAILED)
        } else if d == 8i32 {
            Some(auth_stat::AUTH_KERB_GENERIC)
        } else if d == 9i32 {
            Some(auth_stat::AUTH_TIMEEXPIRE)
        } else if d == 10i32 {
            Some(auth_stat::AUTH_TKT_FILE)
        } else if d == 11i32 {
            Some(auth_stat::AUTH_DECODE)
        } else if d == 12i32 {
            Some(auth_stat::AUTH_NET_ADDR)
        } else if d == 13i32 {
            Some(auth_stat::RPCSEC_GSS_CREDPROBLEM)
        } else if d == 14i32 {
            Some(auth_stat::RPCSEC_GSS_CTXPROBLEM)
        } else {
            None
        }
    }

    fn from_i32(d: i32) -> (r: Option<auth_stat>) {
        if d == 0 {
            Some(auth_stat::AUTH_OK)
        } else if d == 1 {
            Some(auth_stat::AUTH_BADCRED)
        } else if d == 2 {
            Some(auth_stat::AUTH_REJECTEDCRED)
        } else if d == 3 {
            Some(auth_stat::AUTH_BADVERF)
        } else if d == 4 {
            Some(auth_stat::AUTH_REJECTEDVERF)
        } else if d == 5 {
            Some(auth_stat::AUTH_TOOWEAK)
        } else if d == 6 {
            Some(auth_stat::AUTH_INVALIDRESP)
        } else if d == 7 {
            Some(auth_stat::AUTH_FAILED)
        } else if d == 8 {
            Some(auth_stat::AUTH_KERB_GENERIC)
        } else if d == 9 {
            Some(auth_stat::AUTH_TIMEEXPIRE)
        } else if d == 10 {
            Some(auth_stat::AUTH_TKT_FILE)
        } else if d == 11 {
            Some(auth_stat::AUTH_DECODE)
        } else if d == 12 {
            Some(auth_stat::AUTH_NET_ADDR)
        } else if d == 13 {
            Some(auth_stat::RPCSEC_GSS_CREDPROBLEM)
        } else if d == 14 {
            Some(auth_stat::RPCSEC_GSS_CTXPROBLEM)
        } else {
            None
        }
    }
}

impl Deserialize for auth_stat {
    open spec fn decoding(s: Seq<u8>, at: int) -> Parsed<auth_stat> {
        enum_decoding::<auth_stat>(s, at)
    }

    fn deserialize(src: &mut Cursor) -> (r: Result<auth_stat, Error>) {
        deserialize_enum(src)
    }
}

impl RoundTrip for auth_stat {
    proof fn lemma_roundtrip(&self, s: Seq<u8>, at: int) {
        lemma_u32_at(s, at, self.discriminant() as u32);
        lemma_i32_u32(self.discriminant());
    }
}

impl Default for auth_stat {
    fn default() -> (r: auth_stat)
        ensures
            r == auth_stat::AUTH_OK,
    {
        auth_stat::AUTH_OK
    }
}

/// The range of versions a server supports.
#[allow(non_camel_case_types)]
#[derive(Debug, Clone, Copy, PartialEq, Eq)]
pub struct mismatch_info {
    /// Lowest version supported.
    pub low: u32,
    /// Highest version supported.
    pub high: u32,
}

impl View for mismatch_info {
    type V = mismatch_info;

    open spec fn view(&self) -> mismatch_info {
        *self
    }
}

impl Serialize for mismatch_info {
    open spec fn encodable(&self) -> bool {
        self.low.encodable() && self.high.encodable()
    }

    open spec fn encoding(&self) -> Seq<u8> {
        self.low.encoding() + self.high.encoding()
    }

    fn serialize(&self, dest: &mut Vec<u8>) -> (r: Result<(), Error>) {
        let ghost start = dest@;
        self.low.serialize(dest)?;
        self.high.serialize(dest)?;
        proof {
            lemma_concat_associative(start, self.low.encoding(), self.high.encoding());
        }
        Ok(())
    }
}

impl Deserialize for mismatch_info {
    open spec fn decoding(s: Seq<u8>, at: int) -> Parsed<mismatch_info> {
        match <u32 as Deserialize>::decoding(s, at) {
            Err(e) => Err(e),
            Ok((v0, p0)) => match <u32 as Deserialize>::decoding(s, p0) {
                Err(e) => Err(e),
                Ok((v1, p1)) => Ok((mismatch_info { low: v0, high: v1 }, p1)),
            },
        }
    }

    fn deserialize(src: &mut Cursor) -> (r: Result<mismatch_info, Error>) {
        let low = <u32 as Deserialize>::deserialize(src)?;
        let high = <u32 as Deserialize>::deserialize(src)?;
        Ok(mismatch_info { low, high })
    }
}

impl RoundTrip for mismatch_info {
    #[verifier::spinoff_prover]
    #[verifier::rlimit(100)]
    proof fn lemma_roundtrip(&self, s: Seq<u8>, at: int) {
        lemma_holds_split(s, at, self.low.encoding(), self.high.encoding());
        self.low.lemma_roundtrip(s, at);
        self.high.lemma_roundtrip(s, at + self.low.encoding().len());
    }
}

/// The outcome of an accepted call, by `accept_stat`.
#[allow(non_camel_case_types)]
#[derive(Debug, Clone, Copy, PartialEq, Eq)]
pub enum accept_body {
    /// The call completed; its results follow.
    SUCCESS,
    /// The program is not exported.
    PROG_UNAVAIL,
    /// The program version is not supported.
    PROG_MISMATCH(mismatch_info),
    /// The procedure is not supported.
    PROC_UNAVAIL,
    /// The arguments could not be decoded.
    GARBAGE_ARGS,
}

impl View for accept_body {
    type V = accept_body;

    open spec fn view(&self) -> accept_body {
        *self
    }
}

impl Serialize for accept_body {
    open spec fn encodable(&self) -> bool {
        match self {
            accept_body::SUCCESS => true,
            accept_body::PROG_UNAVAIL => true,
            accept_body::PROG_MISMATCH(x) => x.encodable(),
            accept_body::PROC_UNAVAIL => true,
            accept_body::GARBAGE_ARGS => true,
        }
    }

    open spec fn encoding(&self) -> Seq<u8> {
        match self {
            accept_body::SUCCESS => be32_bytes(0u32),
            accept_body::PROG_UNAVAIL => be32_bytes(1u32),
            accept_body::PROG_MISMATCH(x) => be32_bytes(2u32) + x.encoding(),
            accept_body::PROC_UNAVAIL => be32_bytes(3u32),
            accept_body::GARBAGE_ARGS => be32_bytes(4u32),
        }
    }

    fn serialize(&self, dest: &mut Vec<u8>) -> (r: Result<(), Error>) {
        match self {
            accept_body::SUCCESS => {
                write_be_u32(dest, 0);
                Ok(())
            },
            accept_body::PROG_UNAVAIL => {
                write_be_u32(dest, 1);
                Ok(())
            },
            accept_body::PROG_MISMATCH(x) => {
                write_be_u32(dest, 2);
                let r = x.serialize(dest);
                assert(r is Ok ==> dest@ =~= old(dest)@ + self.encoding());
                r
            },
            accept_body::PROC_UNAVAIL => {
                write_be_u32(dest, 3);
                Ok(())
            },
            accept_body::GARBAGE_ARGS => {
                write_be_u32(dest, 4);
                Ok(())
            },
        }
    }
}

impl Deserialize for accept_body {
    open spec fn decoding(s: Seq<u8>, at: int) -> Parsed<accept_body> {
        match spec_u32(s, at) {
            Err(e) => Err(e),
            Ok((tag, p)) => if tag == 0 {
                Ok((accept_body::SUCCESS, p))
            } else if tag == 1 {
                Ok((accept_body::PROG_UNAVAIL, p))
            } else if tag == 2 {
                match <mismatch_info as Deserialize>::decoding(s, p) {
                    Ok((x, end)) => Ok((accept_body::PROG_MISMATCH(x), end)),
                    Err(e) => Err(e),
                }
            } else if tag == 3 {
                Ok((accept_body::PROC_UNAVAIL, p))
            } else if tag == 4 {
                Ok((accept_body::GARBAGE_ARGS, p))
            } else {
                Err(invalid_data())
            },
        }
    }

    fn deserialize(src: &mut Cursor) -> (r: Result<accept_body, Error>) {
        let tag = src.read_u32()?;
        if tag == 0 {
            Ok(accept_body::SUCCESS)
        } else if tag == 1 {
            Ok(accept_body::PROG_UNAVAIL)
        } else if tag == 2 {
            Ok(accept_body::PROG_MISMATCH(<mismatch_info as Deserialize>::deserialize(src)?))
        } else if tag == 3 {
            Ok(accept_body::PROC_UNAVAIL)
        } else if tag == 4 {
            Ok(accept_body::GARBAGE_ARGS)
        } else {
            Err(Error::IO(IoErrorKind::InvalidData))
        }
    }
}

impl RoundTrip for accept_body {
    #[verifier::spinoff_prover]
    #[verifier::rlimit(100)]
    proof fn lemma_roundtrip(&self, s: Seq<u8>, at: int) {
        match self {
            accept_body::SUCCESS => {
                lemma_u32_at(s, at, 0u32);
            },
            accept_body::PROG_UNAVAIL => {
                lemma_u32_at(s, at, 1u32);
            },
            accept_body::PROG_MISMATCH(x) => {
                lemma_holds_split(s, at, be32_bytes(2u32), x.encoding());
                lemma_u32_at(s, at, 2u32);
                x.lemma_roundtrip(s, at + 4);
            },
            accept_body::PROC_UNAVAIL => {
                lemma_u32_at(s, at, 3u32);
            },
            accept_body::GARBAGE_ARGS => {
                lemma_u32_at(s, at, 4u32);
            },
        }
    }
}

impl Default for accept_body {
    fn default() -> (r: accept_body)
        ensures
            r == accept_body::SUCCESS,
    {
        accept_body::SUCCESS
    }
}

/// Why a call was rejected, by `reject_stat`.
#[allow(non_camel_case_types)]
#[derive(Debug, Clone, Copy, PartialEq, Eq)]
pub enum rejected_reply {
    /// The RPC version is not supported.
    RPC_MISMATCH(mismatch_info),
    /// The caller could not be authenticated.
    AUTH_ERROR(auth_stat),
}

impl View for rejected_reply {
    type V = rejected_reply;

    open spec fn view(&self) -> rejected_reply {
        *self
    }
}

impl Serialize for rejected_reply {
    open spec fn encodable(&self) -> bool {
        match self {
            rejected_reply::RPC_MISMATCH(x) => x.encodable(),
            rejected_reply::AUTH_ERROR(x) => x.encodable(),
        }
    }

    open spec fn encoding(&self) -> Seq<u8> {
        match self {
            rejected_reply::RPC_MISMATCH(x) => be32_bytes(0u32) + x.encoding(),
            rejected_reply::AUTH_ERROR(x) => be32_bytes(1u32) + x.encoding(),
        }
    }

    fn serialize(&self, dest: &mut Vec<u8>) -> (r: Result<(), Error>) {
        match self {
            rejected_reply::RPC_MISMATCH(x) => {
                write_be_u32(dest, 0);
                let r = x.serialize(dest);
                assert(r is Ok ==> dest@ =~= old(dest)@ + self.encoding());
                r
            },
            rejected_reply::AUTH_ERROR(x) => {
                write_be_u32(dest, 1);
                let r = x.serialize(dest);
                assert(r is Ok ==> dest@ =~= old(dest)@ + self.encoding());
                r
            },
        }
    }
}

impl Deserialize for rejected_reply {
    open spec fn decoding(s: Seq<u8>, at: int) -> Parsed<rejected_reply> {
        match spec_u32(s, at) {
            Err(e) => Err(e),
            Ok((tag, p)) => if tag == 0 {
                match <mismatch_info as Deserialize>::decoding(s, p) {
                    Ok((x, end)) => Ok((rejected_reply::RPC_MISMATCH(x), end)),
                    Err(e) => Err(e),
                }
            } else if tag == 1 {
                match <auth_stat as Deserialize>::decoding(s, p) {
                    Ok((x, end)) => Ok((rejected_reply::AUTH_ERROR(x), end)),
                    Err(e) => Err(e),
                }
            } else {
                Err(invalid_data())
            },
        }
    }

    fn deserialize(src: &mut Cursor) -> (r: Result<rejected_reply, Error>) {
        let tag = src.read_u32()?;
        if tag == 0 {
            Ok(rejected_reply::RPC_MISMATCH(<mismatch_info as Deserialize>::deserialize(src)?))
        } else if tag == 1 {
            Ok(rejected_reply::AUTH_ERROR(<auth_stat as Deserialize>::deserialize(src)?))
        } else {
            Err(Error::IO(IoErrorKind::InvalidData))
        }
    }
}

impl RoundTrip for rejected_reply {
    #[verifier::spinoff_prover]
    #[verifier::rlimit(100)]
    proof fn lemma_roundtrip(&self, s: Seq<u8>, at: int) {
        match self {
            rejected_reply::RPC_MISMATCH(x) => {
                lemma_holds_split(s, at, be32_bytes(0u32), x.encoding());
                lemma_u32_at(s, at, 0u32);
                x.lemma_roundtrip(s, at + 4);
            },
            rejected_reply::AUTH_ERROR(x) => {
                lemma_holds_split(s, at, be32_bytes(1u32), x.encoding());
                lemma_u32_at(s, at, 1u32);
                x.lemma_roundtrip(s, at + 4);
            },
        }
    }
}

impl Default for rejected_reply {
    fn default() -> (r: rejected_reply)
        ensures
            r == rejected_reply::AUTH_ERROR(auth_stat::AUTH_OK),
    {
        rejected_reply::AUTH_ERROR(auth_stat::AUTH_OK)
    }
}

/// A reply to an accepted call.
#[allow(non_camel_case_types)]
#[derive(Debug, PartialEq, Eq)]
pub struct accepted_reply {
    /// The server's verifier.
    pub verf: opaque_auth,
    /// The outcome, by `accept_stat`.
    pub reply_data: accept_body,
}

/// [`accepted_reply`] with every field by its view.
#[allow(non_camel_case_types)]
pub struct accepted_replyView {
    pub verf: opaque_authView,
    pub reply_data: accept_body,
}

impl View for accepted_reply {
    type V = accepted_replyView;

    open spec fn view(&self) -> accepted_replyView {
        accepted_replyView { verf: self.verf@, reply_data: self.reply_data@ }
    }
}

impl Serialize for accepted_reply {
    open spec fn encodable(&self) -> bool {
        self.verf.encodable() && self.reply_data.encodable()
    }

    open spec fn encoding(&self) -> Seq<u8> {
        self.verf.encoding() + self.reply_data.encoding()
    }

    fn serialize(&self, dest: &mut Vec<u8>) -> (r: Result<(), Error>) {
        let ghost start = dest@;
        self.verf.serialize(dest)?;
        self.reply_data.serialize(dest)?;
        proof {
            lemma_concat_associative(start, self.verf.encoding(), self.reply_data.encoding());
        }
        Ok(())
    }
}

impl Deserialize for accepted_reply {
    open spec fn decoding(s: Seq<u8>, at: int) -> Parsed<accepted_replyView> {
        match <opaque_auth as Deserialize>::decoding(s, at) {
            Err(e) => Err(e),
            Ok((v0, p0)) => match <accept_body as Deserialize>::decoding(s, p0) {
                Err(e) => Err(e),
                Ok((v1, p1)) => Ok((accepted_replyView { verf: v0, reply_data: v1 }, p1)),
            },
        }
    }

    fn deserialize(src: &mut Cursor) -> (r: Result<accepted_reply, Error>) {
        let verf = <opaque_auth as Deserialize>::deserialize(src)?;
        let reply_data = <accept_body as Deserialize>::deserialize(src)?;
        Ok(accepted_reply { verf, reply_data })
    }
}

impl RoundTrip for accepted_reply {
    #[verifier::spinoff_prover]
    #[verifier::rlimit(100)]
    proof fn lemma_roundtrip(&self, s: Seq<u8>, at: int) {
        lemma_holds_split(s, at, self.verf.encoding(), self.reply_data.encoding());
        self.verf.lemma_roundtrip(s, at);
        self.reply_data.lemma_roundtrip(s, at + self.verf.encoding().len());
    }
}

/// The body of a reply, by `reply_stat`.
#[allow(non_camel_case_types)]
#[derive(Debug, PartialEq, Eq)]
pub enum reply_body {
    MSG_ACCEPTED(accepted_reply),
    MSG_DENIED(rejected_reply),
}

/// [`reply_body`] with its payload by its view.
#[allow(non_camel_case_types)]
pub enum reply_bodyView {
    MSG_ACCEPTED(accepted_replyView),
    MSG_DENIED(rejected_reply),
}

impl View for reply_body {
    type V = reply_bodyView;

    open spec fn view(&self) -> reply_bodyView {
        match self {
            reply_body::MSG_ACCEPTED(x) => reply_bodyView::MSG_ACCEPTED(x@),
            reply_body::MSG_DENIED(x) => reply_bodyView::MSG_DENIED(x@),
        }
    }
}

impl Serialize for reply_body {
    open spec fn encodable(&self) -> bool {
        match self {
            reply_body::MSG_ACCEPTED(x) => x.encodable(),
            reply_body::MSG_DENIED(x) => x.encodable(),
        }
    }

    open spec fn encoding(&self) -> Seq<u8> {
        match self {
            reply_body::MSG_ACCEPTED(x) => be32_bytes(0u32) + x.encoding(),
            reply_body::MSG_DENIED(x) => be32_bytes(1u32) + x.encoding(),
        }
    }

    fn serialize(&self, dest: &mut Vec<u8>) -> (r: Result<(), Error>) {
        match self {
            reply_body::MSG_ACCEPTED(x) => {
                write_be_u32(dest, 0);
                let r = x.serialize(dest);
                assert(r is Ok ==> dest@ =~= old(dest)@ + self.encoding());
                r
            },
            reply_body::MSG_DENIED(x) => {
                write_be_u32(dest, 1);
                let r = x.serialize(dest);
                assert(r is Ok ==> dest@ =~= old(dest)@ + self.encoding());
                r
            },
        }
    }
}

impl Deserialize for reply_body {
    open spec fn decoding(s: Seq<u8>, at: int) -> Parsed<reply_bodyView> {
        match spec_u32(s, at) {
            Err(e) => Err(e),
            Ok((tag, p)) => if tag == 0 {
                match <accepted_reply as Deserialize>::decoding(s, p) {
                    Ok((x, end)) => Ok((reply_bodyView::MSG_ACCEPTED(x), end)),
                    Err(e) => Err(e),
                }
            } else if tag == 1 {
                match <rejected_reply as Deserialize>::decoding(s, p) {
                    Ok((x, end)) => Ok((reply_bodyView::MSG_DENIED(x), end)),
                    Err(e) => Err(e),
                }
            } else {
                Err(invalid_data())
            },
        }
    }

    fn deserialize(src: &mut Cursor) -> (r: Result<reply_body, Error>) {
        let tag = src.read_u32()?;
        if tag == 0 {
            Ok(reply_body::MSG_ACCEPTED(<accepted_reply as Deserialize>::deserialize(src)?))
        } else if tag == 1 {
            Ok(reply_body::MSG_DENIED(<rejected_reply as Deserialize>::deserialize(src)?))
        } else {
            Err(Error::IO(IoErrorKind::InvalidData))
        }
    }
}

impl RoundTrip for reply_body {
    #[verifier::spinoff_prover]
    #[verifier::rlimit(100)]
    proof fn lemma_roundtrip(&self, s: Seq<u8>, at: int) {
        match self {
            reply_body::MSG_ACCEPTED(x) => {
                lemma_holds_split(s, at, be32_bytes(0u32), x.encoding());
                lemma_u32_at(s, at, 0u32);
                x.lemma_roundtrip(s, at + 4);
            },
            reply_body::MSG_DENIED(x) => {
                lemma_holds_split(s, at, be32_bytes(1u32), x.encoding());
                lemma_u32_at(s, at, 1u32);
                x.lemma_roundtrip(s, at + 4);
            },
        }
    }
}

/// The body of a call; the procedure's arguments follow it.
#[allow(non_camel_case_types)]
#[derive(Debug, PartialEq, Eq)]
pub struct call_body {
    /// The RPC version, 2.
    pub rpcvers: u32,
    /// The program called.
    pub prog: u32,
    /// The program version.
    pub vers: u32,
    /// The procedure called.
    pub proc: u32,
    /// The caller's credentials.
    pub cred: opaque_auth,
    /// The caller's verifier.
    pub verf: opaque_auth,
}

/// [`call_body`] with every field by its view.
#[allow(non_camel_case_types)]
pub struct call_bodyView {
    pub rpcvers: u32,
    pub prog: u32,
    pub vers: u32,
    pub proc: u32,
    pub cred: opaque_authView,
    pub verf: opaque_authView,
}

impl View for call_body {
    type V = call_bodyView;

    open spec fn view(&self) -> call_bodyView {
        call_bodyView { rpcvers: self.rpcvers@, prog: self.prog@, vers: self.vers@, proc: self.proc@, cred: self.cred@, verf: self.verf@ }
    }
}

impl Serialize for call_body {
    open spec fn encodable(&self) -> bool {
        self.rpcvers.encodable() && self.prog.encodable() && self.vers.encodable() && self.proc.encodable() && self.cred.encodable() && self.verf.encodable()
    }

    open spec fn encoding(&self) -> Seq<u8> {
        self.rpcvers.encoding() + self.prog.encoding() + self.vers.encoding() + self.proc.encoding() + self.cred.encoding() + self.verf.encoding()
    }

    fn serialize(&self, dest: &mut Vec<u8>) -> (r: Result<(), Error>) {
        let ghost start = dest@;
        self.rpcvers.serialize(dest)?;
        self.prog.serialize(dest)?;
        proof {
            lemma_concat_associative(start, self.rpcvers.encoding(), self.prog.encoding());
        }
        self.vers.serialize(dest)?;
        proof {
            lemma_concat_associative(start, self.rpcvers.encoding() + self.prog.encoding(), self.vers.encoding());
        }
        self.proc.serialize(dest)?;
        proof {
            lemma_concat_associative(start, self.rpcvers.encoding() + self.prog.encoding() + self.vers.encoding(), self.proc.encoding());
        }
        self.cred.serialize(dest)?;
        proof {
            lemma_concat_associative(start, self.rpcvers.encoding() + self.prog.encoding() + self.vers.encoding() + self.proc.encoding(), self.cred.encoding());
        }
        self.verf.serialize(dest)?;
        proof {
            lemma_concat_associative(start, self.rpcvers.encoding() + self.prog.encoding() + self.vers.encoding() + self.proc.encoding() + self.cred.encoding(), self.verf.encoding());
        }
        Ok(())
    }
}

impl Deserialize for call_body {
    open spec fn decoding(s: Seq<u8>, at: int) -> Parsed<call_bodyView> {
        match <u32 as Deserialize>::decoding(s, at) {
            Err(e) => Err(e),
            Ok((v0, p0)) => match <u32 as Deserialize>::decoding(s, p0) {
                Err(e) => Err(e),
                Ok((v1, p1)) => match <u32 as Deserialize>::decoding(s, p1) {
                    Err(e) => Err(e),
                    Ok((v2, p2)) => match <u32 as Deserialize>::decoding(s, p2) {
                        Err(e) => Err(e),
                        Ok((v3, p3)) => match <opaque_auth as Deserialize>::decoding(s, p3) {
                            Err(e) => Err(e),
                            Ok((v4, p4)) => match <opaque_auth as Deserialize>::decoding(s, p4) {
                                Err(e) => Err(e),
                                Ok((v5, p5)) => Ok((call_bodyView { rpcvers: v0, prog: v1, vers: v2, proc: v3, cred: v4, verf: v5 }, p5)),
                            },
                        },
                    },
                },
            },
        }
    }

    fn deserialize(src: &mut Cursor) -> (r: Result<call_body, Error>) {
        let rpcvers = <u32 as Deserialize>::deserialize(src)?;
        let prog = <u32 as Deserialize>::deserialize(src)?;
        let vers = <u32 as Deserialize>::deserialize(src)?;
        let proc = <u32 as Deserialize>::deserialize(src)?;
        let cred = <opaque_auth as Deserialize>::deserialize(src)?;
        let verf = <opaque_auth as Deserialize>::deserialize(src)?;
        Ok(call_body { rpcvers, prog, vers, proc, cred, verf })
    }
}

impl RoundTrip for call_body {
    #[verifier::spinoff_prover]
    #[verifier::rlimit(100)]
    proof fn lemma_roundtrip(&self, s: Seq<u8>, at: int) {
        lemma_holds_split(s, at, self.rpcvers.encoding() + self.prog.encoding() + self.vers.encoding() + self.proc.encoding() + self.cred.encoding(), self.verf.encoding());
        lemma_holds_split(s, at, self.rpcvers.encoding() + self.prog.encoding() + self.vers.encoding() + self.proc.encoding(), self.cred.encoding());
        lemma_holds_split(s, at, self.rpcvers.encoding() + self.prog.encoding() + self.vers.encoding(), self.proc.encoding());
        lemma_holds_split(s, at, self.rpcvers.encoding() + self.prog.encoding(), self.vers.encoding());
        lemma_holds_split(s, at, self.rpcvers.encoding(), self.prog.encoding());
        self.rpcvers.lemma_roundtrip(s, at);
        self.prog.lemma_roundtrip(s, at + self.rpcvers.encoding().len());
        self.vers.lemma_roundtrip(s, at + (self.rpcvers.encoding() + self.prog.encoding()).len());
        self.proc.lemma_roundtrip(s, at + (self.rpcvers.encoding() + self.prog.encoding() + self.vers.encoding()).len());
        self.cred.lemma_roundtrip(s, at + (self.rpcvers.encoding() + self.prog.encoding() + self.vers.encoding() + self.proc.encoding()).len());
        self.verf.lemma_roundtrip(s, at + (self.rpcvers.encoding() + self.prog.encoding() + self.vers.encoding() + self.proc.encoding() + self.cred.encoding()).len());
    }
}

/// The body of a message, by `msg_type`.
#[allow(non_camel_case_types)]
#[derive(Debug, PartialEq, Eq)]
pub enum rpc_body {
    CALL(call_body),
    REPLY(reply_body),
}

/// [`rpc_body`] with its payload by its view.
#[allow(non_camel_case_types)]
pub enum rpc_bodyView {
    CALL(call_bodyView),
    REPLY(reply_bodyView),
}

impl View for rpc_body {
    type V = rpc_bodyView;

    open spec fn view(&self) -> rpc_bodyView {
        match self {
            rpc_body::CALL(x) => rpc_bodyView::CALL(x@),
            rpc_body::REPLY(x) => rpc_bodyView::REPLY(x@),
        }
    }
}

impl Serialize for rpc_body {
    open spec fn encodable(&self) -> bool {
        match self {
            rpc_body::CALL(x) => x.encodable(),
            rpc_body::REPLY(x) => x.encodable(),
        }
    }

    open spec fn encoding(&self) -> Seq<u8> {
        match self {
            rpc_body::CALL(x) => be32_bytes(0u32) + x.encoding(),
            rpc_body::REPLY(x) => be32_bytes(1u32) + x.encoding(),
        }
    }

    fn serialize(&self, dest: &mut Vec<u8>) -> (r: Result<(), Error>) {
        match self {
            rpc_body::CALL(x) => {
                write_be_u32(dest, 0);
                let r = x.serialize(dest);
                assert(r is Ok ==> dest@ =~= old(dest)@ + self.encoding());
                r
            },
            rpc_body::REPLY(x) => {
                write_be_u32(dest, 1);
                let r = x.serialize(dest);
                assert(r is Ok ==> dest@ =~= old(dest)@ + self.encoding());
                r
            },
        }
    }
}

impl Deserialize for rpc_body {
    open spec fn decoding(s: Seq<u8>, at: int) -> Parsed<rpc_bodyView> {
        match spec_u32(s, at) {
            Err(e) => Err(e),
            Ok((tag, p)) => if tag == 0 {
                match <call_body as Deserialize>::decoding(s, p) {
                    Ok((x, end)) => Ok((rpc_bodyView::CALL(x), end)),
                    Err(e) => Err(e),
                }
            } else if tag == 1 {
                match <reply_body as Deserialize>::decoding(s, p) {
                    Ok((x, end)) => Ok((rpc_bodyView::REPLY(x), end)),
                    Err(e) => Err(e),
                }
            } else {
                Err(invalid_data())
            },
        }
    }

    fn deserialize(src: &mut Cursor) -> (r: Result<rpc_body, Error>) {
        let tag = src.read_u32()?;
        if tag == 0 {
            Ok(rpc_body::CALL(<call_body as Deserialize>::deserialize(src)?))
        } else if tag == 1 {
            Ok(rpc_body::REPLY(<reply_body as Deserialize>::deserialize(src)?))
        } else {
            Err(Error::IO(IoErrorKind::InvalidData))
        }
    }
}

impl RoundTrip for rpc_body {
    #[verifier::spinoff_prover]
    #[verifier::rlimit(100)]
    proof fn lemma_roundtrip(&self, s: Seq<u8>, at: int) {
        match self {
            rpc_body::CALL(x) => {
                lemma_holds_split(s, at, be32_bytes(0u32), x.encoding());
                lemma_u32_at(s, at, 0u32);
                x.lemma_roundtrip(s, at + 4);
            },
            rpc_body::REPLY(x) => {
                lemma_holds_split(s, at, be32_bytes(1u32), x.encoding());
                lemma_u32_at(s, at, 1u32);
                x.lemma_roundtrip(s, at + 4);
            },
        }
    }
}

/// An RPC message.
#[allow(non_camel_case_types)]
#[derive(Debug, PartialEq, Eq)]
pub struct rpc_msg {
    /// Transaction id that matches a reply to its call.
    pub xid: u32,
    /// A call or a reply.
    pub body: rpc_body,
}

/// [`rpc_msg`] with every field by its view.
#[allow(non_camel_case_types)]
pub struct rpc_msgView {
    pub xid: u32,
    pub body: rpc_bodyView,
}

impl View for rpc_msg {
    type V = rpc_msgView;

    open spec fn view(&self) -> rpc_msgView {
        rpc_msgView { xid: self.xid@, body: self.body@ }
    }
}

impl Serialize for rpc_msg {
    open spec fn encodable(&self) -> bool {
        self.xid.encodable() && self.body.encodable()
    }

    open spec fn encoding(&self) -> Seq<u8> {
        self.xid.encoding() + self.body.encoding()
    }

    fn serialize(&self, dest: &mut Vec<u8>) -> (r: Result<(), Error>) {
        let ghost start = dest@;
        self.xid.serialize(dest)?;
        self.body.serialize(dest)?;
        proof {
            lemma_concat_associative(start, self.xid.encoding(), self.body.encoding());
        }
        Ok(())
    }
}

impl Deserialize for rpc_msg {
    open spec fn decoding(s: Seq<u8>, at: int) -> Parsed<rpc_msgView> {
        match <u32 as Deserialize>::decoding(s, at) {
            Err(e) => Err(e),
            Ok((v0, p0)) => match <rpc_body as Deserialize>::decoding(s, p0) {
                Err(e) => Err(e),
                Ok((v1, p1)) => Ok((rpc_msgView { xid: v0, body: v1 }, p1)),
            },
        }
    }

    fn deserialize(src: &mut Cursor) -> (r: Result<rpc_msg, Error>) {
        let xid = <u32 as Deserialize>::deserialize(src)?;
        let body = <rpc_body as Deserialize>::deserialize(src)?;
        Ok(rpc_msg { xid, body })
    }
}

impl RoundTrip for rpc_msg {
    #[verifier::spinoff_prover]
    #[verifier::rlimit(100)]
    proof fn lemma_roundtrip(&self, s: Seq<u8>, at: int) {
        lemma_holds_split(s, at, self.xid.encoding(), self.body.encoding());
        self.xid.lemma_roundtrip(s, at);
        self.body.lemma_roundtrip(s, at + self.xid.encoding().len());
    }
}

/// An accepted reply to `xid` with an empty verifier and the outcome `data`.
pub open spec fn accepted_reply_msg(xid: u32, data: accept_body) -> rpc_msgView {
    rpc_msgView {
        xid,
        body: rpc_bodyView::REPLY(
            reply_bodyView::MSG_ACCEPTED(
                accepted_replyView {
                    verf: opaque_authView { flavor: auth_flavor::AUTH_NONE, body: Seq::empty() },
                    reply_data: data,
                },
            ),
        ),
    }
}

/// The reply to a call whose arguments could not be decoded.
pub fn garbage_args_reply_message(xid: u32) -> (r: rpc_msg)
    ensures
        r@ == accepted_reply_msg(xid, accept_body::GARBAGE_ARGS),
{
    let reply = reply_body::MSG_ACCEPTED(
        accepted_reply { verf: opaque_auth::default(), reply_data: accept_body::GARBAGE_ARGS },
    );
    rpc_msg { xid, body: rpc_body::REPLY(reply) }
}

/// The reply header of a call that succeeded; its results follow it.
pub fn make_success_reply(xid: u32) -> (r: rpc_msg)
    ensures
        r@ == accepted_reply_msg(xid, accept_body::SUCCESS),
{
    let reply = reply_body::MSG_ACCEPTED(
        accepted_reply { verf: opaque_auth::default(), reply_data: accept_body::SUCCESS },
    );
    rpc_msg { xid, body: rpc_body::REPLY(reply) }
}

/// The reply to a call of a procedure the program does not have.
pub fn proc_unavail_reply_message(xid: u32) -> (r: rpc_msg)
    ensures
        r@ == accepted_reply_msg(xid, accept_body::PROC_UNAVAIL),
{
    let reply = reply_body::MSG_ACCEPTED(
        accepted_reply { verf: opaque_auth::default(), reply_data: accept_body::PROC_UNAVAIL },
    );
    rpc_msg { xid, body: rpc_body::REPLY(reply) }
}

/// The reply to a call of a program that is not served.
pub fn prog_unavail_reply_message(xid: u32) -> (r: rpc_msg)
    ensures
        r@ == accepted_reply_msg(xid, accept_body::PROG_UNAVAIL),
{
    let reply = reply_body::MSG_ACCEPTED(
        accepted_reply { verf: opaque_auth::default(), reply_data: accept_body::PROG_UNAVAIL },
    );
    rpc_msg { xid, body: rpc_body::REPLY(reply) }
}

/// The reply to a call of a program version other than `version`, the only
/// one served.
pub fn prog_mismatch_reply_message(xid: u32, version: u32) -> (r: rpc_msg)
    ensures
        r@ == accepted_reply_msg(xid, accept_body::PROG_MISMATCH(mismatch_info { low: version, high: version })),
{
    let reply = reply_body::MSG_ACCEPTED(
        accepted_reply {
            verf: opaque_auth::default(),
            reply_data: accept_body::PROG_MISMATCH(mismatch_info { low: version, high: version }),
        },
    );
    rpc_msg { xid, body: rpc_body::REPLY(reply) }
}

/// The reply to a call that was rejected for `why`.
pub fn rejected_reply_message(xid: u32, why: rejected_reply) -> (r: rpc_msg)
    ensures
        r@ == (rpc_msgView { xid, body: rpc_bodyView::REPLY(reply_bodyView::MSG_DENIED(why)) }),
{
    rpc_msg { xid, body: rpc_body::REPLY(reply_body::MSG_DENIED(why)) }
}

/// The bytes of an accepted reply header to `xid` with an empty verifier
/// and the accept status `stat`: what precedes the results.
pub open spec fn accepted_header(xid: u32, stat: u32) -> Seq<u8> {
    be32_bytes(xid) + be32_bytes(1) + be32_bytes(0) + be32_bytes(0) + be32_bytes(0) + be32_bytes(stat)
}

/// The bytes of [`make_success_reply`] for `xid`.
pub open spec fn success_header(xid: u32) -> Seq<u8> {
    accepted_header(xid, 0)
}

/// Serializes an accepted reply to `xid` whose outcome carries no data.
fn accepted_reply_bytes(msg: rpc_msg, Ghost(stat): Ghost<u32>) -> (r: Vec<u8>)
    requires
        msg.body matches rpc_body::REPLY(reply_body::MSG_ACCEPTED(a)) && a.verf.flavor
            == auth_flavor::AUTH_NONE && a.verf.body@.len() == 0 && a.reply_data.encoding()
            == be32_bytes(stat),
    ensures
        r@ == accepted_header(msg.xid, stat),
{
    let mut out: Vec<u8> = Vec::new();
    let _ = msg.serialize(&mut out);
    proof {
        assert(zeros(pad_len(0)) =~= Seq::<u8>::empty());
        assert(out@ =~= accepted_header(msg.xid, stat));
    }
    out
}

/// The bytes of a success reply header to `xid`; the results follow them.
pub fn success_reply(xid: u32) -> (r: Vec<u8>)
    ensures
        r@ == success_header(xid),
{
    accepted_reply_bytes(make_success_reply(xid), Ghost(0))
}

/// The bytes of the reply to a call whose arguments could not be decoded.
pub fn garbage_args_reply(xid: u32) -> (r: Vec<u8>)
    ensures
        r@ == accepted_header(xid, 4),
{
    accepted_reply_bytes(garbage_args_reply_message(xid), Ghost(4))
}

/// The bytes of the reply to a call of a procedure the program lacks.
pub fn proc_unavail_reply(xid: u32) -> (r: Vec<u8>)
    ensures
        r@ == accepted_header(xid, 3),
{
    accepted_reply_bytes(proc_unavail_reply_message(xid), Ghost(3))
}

/// The bytes of the reply to a call of a program that is not served.
pub fn prog_unavail_reply(xid: u32) -> (r: Vec<u8>)
    ensures
        r@ == accepted_header(xid, 1),
{
    accepted_reply_bytes(prog_unavail_reply_message(xid), Ghost(1))
}

/// The reply to a call of an RPC version other than 2.
pub fn rpc_vers_mismatch(xid: u32) -> (r: rpc_msg)
    ensures
        r@ == (rpc_msgView {
            xid,
            body: rpc_bodyView::REPLY(
                reply_bodyView::MSG_DENIED(
                    rejected_reply::RPC_MISMATCH(mismatch_info { low: PROTOCOL_VERSION, high: PROTOCOL_VERSION }),
                ),
            ),
        }),
{
    rejected_reply_message(
        xid,
        rejected_reply::RPC_MISMATCH(mismatch_info { low: PROTOCOL_VERSION, high: PROTOCOL_VERSION }),
    )
}

/// The reply to a call of a program version outside `low..=high`.
pub fn prog_version_range_mismatch_reply_message(xid: u32, low: u32, high: u32) -> (r: rpc_msg)
    ensures
        r@ == accepted_reply_msg(xid, accept_body::PROG_MISMATCH(mismatch_info { low, high })),
{
    let reply = reply_body::MSG_ACCEPTED(
        accepted_reply {
            verf: opaque_auth::default(),
            reply_data: accept_body::PROG_MISMATCH(mismatch_info { low, high }),
        },
    );
    rpc_msg { xid, body: rpc_body::REPLY(reply) }
}

/// The bytes of the reply to a call of an RPC version other than 2.
pub open spec fn rpc_mismatch_bytes(xid: u32) -> Seq<u8> {
    be32_bytes(xid) + be32_bytes(1) + be32_bytes(1) + be32_bytes(0) + be32_bytes(PROTOCOL_VERSION)
        + be32_bytes(PROTOCOL_VERSION)
}

/// Serializes the reply to a call of an RPC version other than 2.
pub fn rpc_vers_mismatch_reply(xid: u32) -> (r: Vec<u8>)
    ensures
        r@ == rpc_mismatch_bytes(xid),
{
    let mut out: Vec<u8> = Vec::new();
    let _ = rpc_vers_mismatch(xid).serialize(&mut out);
    assert(out@ =~= rpc_mismatch_bytes(xid));
    out
}

/// The bytes of the reply to a call of a program version outside `low..=high`.
pub open spec fn prog_mismatch_bytes(xid: u32, low: u32, high: u32) -> Seq<u8> {
    accepted_header(xid, 2) + be32_bytes(low) + be32_bytes(high)
}

/// Serializes the reply to a call of a program version outside `low..=high`.
pub fn prog_mismatch_reply(xid: u32, low: u32, high: u32) -> (r: Vec<u8>)
    ensures
        r@ == prog_mismatch_bytes(xid, low, high),
{
    let mut out: Vec<u8> = Vec::new();
    let _ = prog_version_range_mismatch_reply_message(xid, low, high).serialize(&mut out);
    proof {
        assert(zeros(pad_len(0)) =~= Seq::<u8>::empty());
        assert(out@ =~= prog_mismatch_bytes(xid, low, high));
    }
    out
}

} // verus!
