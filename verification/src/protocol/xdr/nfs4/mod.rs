//! NFS version 4 (RFC 7530) data types: status and operation codes, file
//! handles and the state the server keeps for its clients.
use vstd::prelude::*;
use vstd::seq_lib::lemma_concat_associative;

use crate::parser::cursor::{Cursor};
use crate::protocol::xdr::{
    deserialize_enum, enum_decoding, enum_encoding, invalid_data, option_decoding, serialize_enum,
    Deserialize, DeserializeEnum, Serialize, SerializeEnum,
};
use crate::protocol::xdr::{lemma_holds_split, lemma_i32_u32, lemma_u32_at, RoundTrip};
use crate::rpc::{Error, IoErrorKind, Parsed};

use std::sync::Arc;

pub mod operations;

verus! {

broadcast use crate::encoding::lemma_keeps_prefix_trans;

/// The maximum size in bytes of a version 4 file handle.
pub const NFS4_FH_SIZE: usize = 128;

/// Size in bytes of the opaque part of a state id.
pub const NFS4_OTHER_SIZE: usize = 12;

/// The status of an NFS version 4 operation.
#[allow(non_camel_case_types)]
#[derive(Debug, Clone, Copy, PartialEq, Eq)]
pub enum NFSStat4 {
    NFS4Ok,
    NFS4ErrPerm,
    NFS4ErrNoEnt,
    NFS4ErrIO,
    NFS4ErrNXIO,
    NFS4ErrAccess,
    NFS4ErrExist,
    NFS4ErrXDev,
    NFS4ErrNotDir,
    NFS4ErrIsDir,
    NFS4ErrInval,
    NFS4ErrFBig,
    NFS4ErrNoSpc,
    NFS4ErrROFs,
    NFS4ErrMLink,
    NFS4ErrNameTOOLONG,
    NFS4ErrNOTEMPTY,
    NFS4ErrDQUOT,
    NFS4ErrSTALE,
    NFS4ErrBADHANDLE,
    NFS4ErrBadCookie,
    NFS4ErrNotSupp,
    NFS4ErrTooSmall,
    NFS4ErrServerFault,
    NFS4ErrBadType,
    NFS4ErrDelay,
    NFS4ErrSame,
    NFS4ErrDenied,
    NFS4ErrExpired,
    NFS4ErrLocked,
    NFS4ErrGrace,
    NFS4ErrFhExpired,
    NFS4ErrShareDenied,
    NFS4ErrWrongSec,
    NFS4ErrCLIDInUse,
    NFS4ErrResource,
    NFS4ErrMoved,
    NFS4ErrNoFileHandle,
    NFS4ErrMinorVersMismatch,
    NFS4ErrStaleClientTID,
    NFS4ErrStaleStateID,
    NFS4ErrOldStateID,
    NFS4ErrBadStateID,
    NFS4ErrBadSeqID,
    NFS4ErrNotSame,
    NFS4ErrLockRange,
    NFS4ErrSymlink,
    NFS4ErrRestoreFh,
    NFS4ErrLeaseMoved,
    NFS4ErrATTRNOTSUPP,
    NFS4ErrNoGrace,
    NFS4ErrReclaimBad,
    NFS4ErrReclaimConflict,
    NFS4ErrBADXDR,
    NFS4ErrLocksHeld,
    NFS4ErrOpenMODE,
    NFS4ErrBADOWNER,
    NFS4ErrBADCHAR,
    NFS4ErrBADNAME,
    NFS4ErrBadRange,
    NFS4ErrLockNotSupp,
    NFS4ErrOpIllegal,
    NFS4ErrDeadLock,
    NFS4ErrFileOpen,
    NFS4ErrAdminRevoked,
    NFS4ErrCBPathDown,
    NFS4ErrBadIOMode,
    NFS4ErrBadLayout,
    NFS4ErrBadSessionDigest,
    NFS4ErrBadSession,
    NFS4ErrBadSlot,
    NFS4ErrCompleteAlready,
    NFS4ErrConnNotBoundToSession,
    NFS4ErrDelegAlreadyWanted,
    NFS4ErrBackChanBusy,
    NFS4ErrLayoutTryLater,
    NFS4ErrLayoutUnavailable,
    NFS4ErrNoMatchingLayout,
    NFS4ErrRecallConflict,
    NFS4ErrUnknownLayoutType,
    NFS4ErrSeqMisordered,
    NFS4ErrSequencePos,
    NFS4ErrReqTooBig,
    NFS4ErrRepTooBig,
    NFS4ErrRepTooBigToCache,
    NFS4ErrRetryUncachedRep,
    NFS4ErrUnsafeCompound,
    NFS4ErrTooManyOps,
    NFS4ErrOpNotInSession,
    NFS4ErrHashAlgUnsupp,
    NFS4ErrClientIDBusy,
    NFS4ErrPNFSIOHole,
    NFS4ErrSeqFalseRetry,
    NFS4ErrBadHighSlot,
    NFS4ErrDeadSession,
    NFS4ErrENCRAlgUnsupp,
    NFS4ErrPNFSNoLayout,
    NFS4ErrNotOnlyOp,
    NFS4ErrWrongCred,
    NFS4ErrWrongType,
    NFS4ErrDirDelegUnavail,
    NFS4ErrRejectDeleg,
    NFS4ErrReturnConflict,
    NFS4ErrDelegRevoked,
    NFS4ErrPartnerNotSupp,
    NFS4ErrPartnerNoAuth,
    NFS4ErrUnionNotSupp,
    NFS4ErrOffloadDenied,
    NFS4ErrWrongLFS,
    NFS4ErrBadLable,
    NFS4ErrOffloadNoREQS,
    NFS4ErrNoXattr,
    NFS4ErrXattrTooBig,
    NFS4ErrReplay,
}

impl View for NFSStat4 {
    type V = NFSStat4;

    open spec fn view(&self) -> NFSStat4 {
        *self
    }
}

impl SerializeEnum for NFSStat4 {
    open spec fn discriminant(&self) -> i32 {
        match self {
            NFSStat4::NFS4Ok => 0i32,
            NFSStat4::NFS4ErrPerm => 1i32,
            NFSStat4::NFS4ErrNoEnt => 2i32,
            NFSStat4::NFS4ErrIO => 5i32,
            NFSStat4::NFS4ErrNXIO => 6i32,
            NFSStat4::NFS4ErrAccess => 13i32,
            NFSStat4::NFS4ErrExist => 17i32,
            NFSStat4::NFS4ErrXDev => 18i32,
            NFSStat4::NFS4ErrNotDir => 20i32,
            NFSStat4::NFS4ErrIsDir => 21i32,
            NFSStat4::NFS4ErrInval => 22i32,
            NFSStat4::NFS4ErrFBig => 27i32,
            NFSStat4::NFS4ErrNoSpc => 28i32,
            NFSStat4::NFS4ErrROFs => 30i32,
            NFSStat4::NFS4ErrMLink => 31i32,
            NFSStat4::NFS4ErrNameTOOLONG => 63i32,
            NFSStat4::NFS4ErrNOTEMPTY => 66i32,
            NFSStat4::NFS4ErrDQUOT => 69i32,
            NFSStat4::NFS4ErrSTALE => 70i32,
            NFSStat4::NFS4ErrBADHANDLE => 10001i32,
            NFSStat4::NFS4ErrBadCookie => 10003i32,
            NFSStat4::NFS4ErrNotSupp => 10004i32,
            NFSStat4::NFS4ErrTooSmall => 10005i32,
            NFSStat4::NFS4ErrServerFault => 10006i32,
            NFSStat4::NFS4ErrBadType => 10007i32,
            NFSStat4::NFS4ErrDelay => 10008i32,
            NFSStat4::NFS4ErrSame => 10009i32,
            NFSStat4::NFS4ErrDenied => 10010i32,
            NFSStat4::NFS4ErrExpired => 10011i32,
            NFSStat4::NFS4ErrLocked => 10012i32,
            NFSStat4::NFS4ErrGrace => 10013i32,
            NFSStat4::NFS4ErrFhExpired => 10014i32,
            NFSStat4::NFS4ErrShareDenied => 10015i32,
            NFSStat4::NFS4ErrWrongSec => 10016i32,
            NFSStat4::NFS4ErrCLIDInUse => 10017i32,
            NFSStat4::NFS4ErrResource => 10018i32,
            NFSStat4::NFS4ErrMoved => 10019i32,
            NFSStat4::NFS4ErrNoFileHandle => 10020i32,
            NFSStat4::NFS4ErrMinorVersMismatch => 10021i32,
            NFSStat4::NFS4ErrStaleClientTID => 10022i32,
            NFSStat4::NFS4ErrStaleStateID => 10023i32,
            NFSStat4::NFS4ErrOldStateID => 10024i32,
            NFSStat4::NFS4ErrBadStateID => 10025i32,
            NFSStat4::NFS4ErrBadSeqID => 10026i32,
            NFSStat4::NFS4ErrNotSame => 10027i32,
            NFSStat4::NFS4ErrLockRange => 10028i32,
            NFSStat4::NFS4ErrSymlink => 10029i32,
            NFSStat4::NFS4ErrRestoreFh => 10030i32,
            NFSStat4::NFS4ErrLeaseMoved => 10031i32,
            NFSStat4::NFS4ErrATTRNOTSUPP => 10032i32,
            NFSStat4::NFS4ErrNoGrace => 10033i32,
            NFSStat4::NFS4ErrReclaimBad => 10034i32,
            NFSStat4::NFS4ErrReclaimConflict => 10035i32,
            NFSStat4::NFS4ErrBADXDR => 10036i32,
            NFSStat4::NFS4ErrLocksHeld => 10037i32,
            NFSStat4::NFS4ErrOpenMODE => 10038i32,
            NFSStat4::NFS4ErrBADOWNER => 10039i32,
            NFSStat4::NFS4ErrBADCHAR => 10040i32,
            NFSStat4::NFS4ErrBADNAME => 10041i32,
            NFSStat4::NFS4ErrBadRange => 10042i32,
            NFSStat4::NFS4ErrLockNotSupp => 10043i32,
            NFSStat4::NFS4ErrOpIllegal => 10044i32,
            NFSStat4::NFS4ErrDeadLock => 10045i32,
            NFSStat4::NFS4ErrFileOpen => 10046i32,
            NFSStat4::NFS4ErrAdminRevoked => 10047i32,
            NFSStat4::NFS4ErrCBPathDown => 10048i32,
            NFSStat4::NFS4ErrBadIOMode => 10049i32,
            NFSStat4::NFS4ErrBadLayout => 10050i32,
            NFSStat4::NFS4ErrBadSessionDigest => 10051i32,
            NFSStat4::NFS4ErrBadSession => 10052i32,
            NFSStat4::NFS4ErrBadSlot => 10053i32,
            NFSStat4::NFS4ErrCompleteAlready => 10054i32,
            NFSStat4::NFS4ErrConnNotBoundToSession => 10055i32,
            NFSStat4::NFS4ErrDelegAlreadyWanted => 10056i32,
            NFSStat4::NFS4ErrBackChanBusy => 10057i32,
            NFSStat4::NFS4ErrLayoutTryLater => 10058i32,
            NFSStat4::NFS4ErrLayoutUnavailable => 10059i32,
            NFSStat4::NFS4ErrNoMatchingLayout => 10060i32,
            NFSStat4::NFS4ErrRecallConflict => 10061i32,
            NFSStat4::NFS4ErrUnknownLayoutType => 10062i32,
            NFSStat4::NFS4ErrSeqMisordered => 10063i32,
            NFSStat4::NFS4ErrSequencePos => 10064i32,
            NFSStat4::NFS4ErrReqTooBig => 10065i32,
            NFSStat4::NFS4ErrRepTooBig => 10066i32,
            NFSStat4::NFS4ErrRepTooBigToCache => 10067i32,
            NFSStat4::NFS4ErrRetryUncachedRep => 10068i32,
            NFSStat4::NFS4ErrUnsafeCompound => 10069i32,
            NFSStat4::NFS4ErrTooManyOps => 10070i32,
            NFSStat4::NFS4ErrOpNotInSession => 10071i32,
            NFSStat4::NFS4ErrHashAlgUnsupp => 10072i32,
            NFSStat4::NFS4ErrClientIDBusy => 10074i32,
            NFSStat4::NFS4ErrPNFSIOHole => 10075i32,
            NFSStat4::NFS4ErrSeqFalseRetry => 10076i32,
            NFSStat4::NFS4ErrBadHighSlot => 10077i32,
            NFSStat4::NFS4ErrDeadSession => 10078i32,
            NFSStat4::NFS4ErrENCRAlgUnsupp => 10079i32,
            NFSStat4::NFS4ErrPNFSNoLayout => 10080i32,
            NFSStat4::NFS4ErrNotOnlyOp => 10081i32,
            NFSStat4::NFS4ErrWrongCred => 10082i32,
            NFSStat4::NFS4ErrWrongType => 10083i32,
            NFSStat4::NFS4ErrDirDelegUnavail => 10084i32,
            NFSStat4::NFS4ErrRejectDeleg => 10085i32,
            NFSStat4::NFS4ErrReturnConflict => 10086i32,
            NFSStat4::NFS4ErrDelegRevoked => 10087i32,
            NFSStat4::NFS4ErrPartnerNotSupp => 10088i32,
            NFSStat4::NFS4ErrPartnerNoAuth => 10089i32,
            NFSStat4::NFS4ErrUnionNotSupp => 10090i32,
            NFSStat4::NFS4ErrOffloadDenied => 10091i32,
            NFSStat4::NFS4ErrWrongLFS => 10092i32,
            NFSStat4::NFS4ErrBadLable => 10093i32,
            NFSStat4::NFS4ErrOffloadNoREQS => 10094i32,
            NFSStat4::NFS4ErrNoXattr => 10095i32,
            NFSStat4::NFS4ErrXattrTooBig => 10096i32,
            NFSStat4::NFS4ErrReplay => 11001i32,
        }
    }

    fn to_i32(&self) -> (r: i32) {
        match self {
            NFSStat4::NFS4Ok => 0,
            NFSStat4::NFS4ErrPerm => 1,
            NFSStat4::NFS4ErrNoEnt => 2,
            NFSStat4::NFS4ErrIO => 5,
            NFSStat4::NFS4ErrNXIO => 6,
            NFSStat4::NFS4ErrAccess => 13,
            NFSStat4::NFS4ErrExist => 17,
            NFSStat4::NFS4ErrXDev => 18,
            NFSStat4::NFS4ErrNotDir => 20,
            NFSStat4::NFS4ErrIsDir => 21,
            NFSStat4::NFS4ErrInval => 22,
            NFSStat4::NFS4ErrFBig => 27,
            NFSStat4::NFS4ErrNoSpc => 28,
            NFSStat4::NFS4ErrROFs => 30,
            NFSStat4::NFS4ErrMLink => 31,
            NFSStat4::NFS4ErrNameTOOLONG => 63,
            NFSStat4::NFS4ErrNOTEMPTY => 66,
            NFSStat4::NFS4ErrDQUOT => 69,
            NFSStat4::NFS4ErrSTALE => 70,
            NFSStat4::NFS4ErrBADHANDLE => 10001,
            NFSStat4::NFS4ErrBadCookie => 10003,
            NFSStat4::NFS4ErrNotSupp => 10004,
            NFSStat4::NFS4ErrTooSmall => 10005,
            NFSStat4::NFS4ErrServerFault => 10006,
            NFSStat4::NFS4ErrBadType => 10007,
            NFSStat4::NFS4ErrDelay => 10008,
            NFSStat4::NFS4ErrSame => 10009,
            NFSStat4::NFS4ErrDenied => 10010,
            NFSStat4::NFS4ErrExpired => 10011,
            NFSStat4::NFS4ErrLocked => 10012,
            NFSStat4::NFS4ErrGrace => 10013,
            NFSStat4::NFS4ErrFhExpired => 10014,
            NFSStat4::NFS4ErrShareDenied => 10015,
            NFSStat4::NFS4ErrWrongSec => 10016,
            NFSStat4::NFS4ErrCLIDInUse => 10017,
            NFSStat4::NFS4ErrResource => 10018,
            NFSStat4::NFS4ErrMoved => 10019,
            NFSStat4::NFS4ErrNoFileHandle => 10020,
            NFSStat4::NFS4ErrMinorVersMismatch => 10021,
            NFSStat4::NFS4ErrStaleClientTID => 10022,
            NFSStat4::NFS4ErrStaleStateID => 10023,
            NFSStat4::NFS4ErrOldStateID => 10024,
            NFSStat4::NFS4ErrBadStateID => 10025,
            NFSStat4::NFS4ErrBadSeqID => 10026,
            NFSStat4::NFS4ErrNotSame => 10027,
            NFSStat4::NFS4ErrLockRange => 10028,
            NFSStat4::NFS4ErrSymlink => 10029,
            NFSStat4::NFS4ErrRestoreFh => 10030,
            NFSStat4::NFS4ErrLeaseMoved => 10031,
            NFSStat4::NFS4ErrATTRNOTSUPP => 10032,
            NFSStat4::NFS4ErrNoGrace => 10033,
            NFSStat4::NFS4ErrReclaimBad => 10034,
            NFSStat4::NFS4ErrReclaimConflict => 10035,
            NFSStat4::NFS4ErrBADXDR => 10036,
            NFSStat4::NFS4ErrLocksHeld => 10037,
            NFSStat4::NFS4ErrOpenMODE => 10038,
            NFSStat4::NFS4ErrBADOWNER => 10039,
            NFSStat4::NFS4ErrBADCHAR => 10040,
            NFSStat4::NFS4ErrBADNAME => 10041,
            NFSStat4::NFS4ErrBadRange => 10042,
            NFSStat4::NFS4ErrLockNotSupp => 10043,
            NFSStat4::NFS4ErrOpIllegal => 10044,
            NFSStat4::NFS4ErrDeadLock => 10045,
            NFSStat4::NFS4ErrFileOpen => 10046,
            NFSStat4::NFS4ErrAdminRevoked => 10047,
            NFSStat4::NFS4ErrCBPathDown => 10048,
            NFSStat4::NFS4ErrBadIOMode => 10049,
            NFSStat4::NFS4ErrBadLayout => 10050,
            NFSStat4::NFS4ErrBadSessionDigest => 10051,
            NFSStat4::NFS4ErrBadSession => 10052,
            NFSStat4::NFS4ErrBadSlot => 10053,
            NFSStat4::NFS4ErrCompleteAlready => 10054,
            NFSStat4::NFS4ErrConnNotBoundToSession => 10055,
            NFSStat4::NFS4ErrDelegAlreadyWanted => 10056,
            NFSStat4::NFS4ErrBackChanBusy => 10057,
            NFSStat4::NFS4ErrLayoutTryLater => 10058,
            NFSStat4::NFS4ErrLayoutUnavailable => 10059,
            NFSStat4::NFS4ErrNoMatchingLayout => 10060,
            NFSStat4::NFS4ErrRecallConflict => 10061,
            NFSStat4::NFS4ErrUnknownLayoutType => 10062,
            NFSStat4::NFS4ErrSeqMisordered => 10063,
            NFSStat4::NFS4ErrSequencePos => 10064,
            NFSStat4::NFS4ErrReqTooBig => 10065,
            NFSStat4::NFS4ErrRepTooBig => 10066,
            NFSStat4::NFS4ErrRepTooBigToCache => 10067,
            NFSStat4::NFS4ErrRetryUncachedRep => 10068,
            NFSStat4::NFS4ErrUnsafeCompound => 10069,
            NFSStat4::NFS4ErrTooManyOps => 10070,
            NFSStat4::NFS4ErrOpNotInSession => 10071,
            NFSStat4::NFS4ErrHashAlgUnsupp => 10072,
            NFSStat4::NFS4ErrClientIDBusy => 10074,
            NFSStat4::NFS4ErrPNFSIOHole => 10075,
            NFSStat4::NFS4ErrSeqFalseRetry => 10076,
            NFSStat4::NFS4ErrBadHighSlot => 10077,
            NFSStat4::NFS4ErrDeadSession => 10078,
            NFSStat4::NFS4ErrENCRAlgUnsupp => 10079,
            NFSStat4::NFS4ErrPNFSNoLayout => 10080,
            NFSStat4::NFS4ErrNotOnlyOp => 10081,
            NFSStat4::NFS4ErrWrongCred => 10082,
            NFSStat4::NFS4ErrWrongType => 10083,
            NFSStat4::NFS4ErrDirDelegUnavail => 10084,
            NFSStat4::NFS4ErrRejectDeleg => 10085,
            NFSStat4::NFS4ErrReturnConflict => 10086,
            NFSStat4::NFS4ErrDelegRevoked => 10087,
            NFSStat4::NFS4ErrPartnerNotSupp => 10088,
            NFSStat4::NFS4ErrPartnerNoAuth => 10089,
            NFSStat4::NFS4ErrUnionNotSupp => 10090,
            NFSStat4::NFS4ErrOffloadDenied => 10091,
            NFSStat4::NFS4ErrWrongLFS => 10092,
            NFSStat4::NFS4ErrBadLable => 10093,
            NFSStat4::NFS4ErrOffloadNoREQS => 10094,
            NFSStat4::NFS4ErrNoXattr => 10095,
            NFSStat4::NFS4ErrXattrTooBig => 10096,
            NFSStat4::NFS4ErrReplay => 11001,
        }
    }
}

impl Serialize for NFSStat4 {
    open spec fn encodable(&self) -> bool {
        true
    }

    open spec fn encoding(&self) -> Seq<u8> {
        enum_encoding(self.discriminant())
    }

    fn serialize(&self, dest: &mut Vec<u8>) -> (r: Result<(), Error>) {
        serialize_enum(self, dest);
        Ok(())
    }
}

impl DeserializeEnum for NFSStat4 {
    open spec fn of_discriminant(d: i32) -> Option<NFSStat4> {
        if d == 0i32 {
            Some(NFSStat4::NFS4Ok)
        } else if d == 1i32 {
            Some(NFSStat4::NFS4ErrPerm)
        } else if d == 2i32 {
            Some(NFSStat4::NFS4ErrNoEnt)
        } else if d == 5i32 {
            Some(NFSStat4::NFS4ErrIO)
        } else if d == 6i32 {
            Some(NFSStat4::NFS4ErrNXIO)
        } else if d == 13i32 {
            Some(NFSStat4::NFS4ErrAccess)
        } else if d == 17i32 {
            Some(NFSStat4::NFS4ErrExist)
        } else if d == 18i32 {
            Some(NFSStat4::NFS4ErrXDev)
        } else if d == 20i32 {
            Some(NFSStat4::NFS4ErrNotDir)
        } else if d == 21i32 {
            Some(NFSStat4::NFS4ErrIsDir)
        } else if d == 22i32 {
            Some(NFSStat4::NFS4ErrInval)
        } else if d == 27i32 {
            Some(NFSStat4::NFS4ErrFBig)
        } else if d == 28i32 {
            Some(NFSStat4::NFS4ErrNoSpc)
        } else if d == 30i32 {
            Some(NFSStat4::NFS4ErrROFs)
        } else if d == 31i32 {
            Some(NFSStat4::NFS4ErrMLink)
        } else if d == 63i32 {
            Some(NFSStat4::NFS4ErrNameTOOLONG)
        } else if d == 66i32 {
            Some(NFSStat4::NFS4ErrNOTEMPTY)
        } else if d == 69i32 {
            Some(NFSStat4::NFS4ErrDQUOT)
        } else if d == 70i32 {
            Some(NFSStat4::NFS4ErrSTALE)
        } else if d == 10001i32 {
            Some(NFSStat4::NFS4ErrBADHANDLE)
        } else if d == 10003i32 {
            Some(NFSStat4::NFS4ErrBadCookie)
        } else if d == 10004i32 {
            Some(NFSStat4::NFS4ErrNotSupp)
        } else if d == 10005i32 {
            Some(NFSStat4::NFS4ErrTooSmall)
        } else if d == 10006i32 {
            Some(NFSStat4::NFS4ErrServerFault)
        } else if d == 10007i32 {
            Some(NFSStat4::NFS4ErrBadType)
        } else if d == 10008i32 {
            Some(NFSStat4::NFS4ErrDelay)
        } else if d == 10009i32 {
            Some(NFSStat4::NFS4ErrSame)
        } else if d == 10010i32 {
            Some(NFSStat4::NFS4ErrDenied)
        } else if d == 10011i32 {
            Some(NFSStat4::NFS4ErrExpired)
        } else if d == 10012i32 {
            Some(NFSStat4::NFS4ErrLocked)
        } else if d == 10013i32 {
            Some(NFSStat4::NFS4ErrGrace)
        } else if d == 10014i32 {
            Some(NFSStat4::NFS4ErrFhExpired)
        } else if d == 10015i32 {
            Some(NFSStat4::NFS4ErrShareDenied)
        } else if d == 10016i32 {
            Some(NFSStat4::NFS4ErrWrongSec)
        } else if d == 10017i32 {
            Some(NFSStat4::NFS4ErrCLIDInUse)
        } else if d == 10018i32 {
            Some(NFSStat4::NFS4ErrResource)
        } else if d == 10019i32 {
            Some(NFSStat4::NFS4ErrMoved)
        } else if d == 10020i32 {
            Some(NFSStat4::NFS4ErrNoFileHandle)
        } else if d == 10021i32 {
            Some(NFSStat4::NFS4ErrMinorVersMismatch)
        } else if d == 10022i32 {
            Some(NFSStat4::NFS4ErrStaleClientTID)
        } else if d == 10023i32 {
            Some(NFSStat4::NFS4ErrStaleStateID)
        } else if d == 10024i32 {
            Some(NFSStat4::NFS4ErrOldStateID)
        } else if d == 10025i32 {
            Some(NFSStat4::NFS4ErrBadStateID)
        } else if d == 10026i32 {
            Some(NFSStat4::NFS4ErrBadSeqID)
        } else if d == 10027i32 {
            Some(NFSStat4::NFS4ErrNotSame)
        } else if d == 10028i32 {
            Some(NFSStat4::NFS4ErrLockRange)
        } else if d == 10029i32 {
            Some(NFSStat4::NFS4ErrSymlink)
        } else if d == 10030i32 {
            Some(NFSStat4::NFS4ErrRestoreFh)
        } else if d == 10031i32 {
            Some(NFSStat4::NFS4ErrLeaseMoved)
        } else if d == 10032i32 {
            Some(NFSStat4::NFS4ErrATTRNOTSUPP)
        } else if d == 10033i32 {
            Some(NFSStat4::NFS4ErrNoGrace)
        } else if d == 10034i32 {
            Some(NFSStat4::NFS4ErrReclaimBad)
        } else if d == 10035i32 {
            Some(NFSStat4::NFS4ErrReclaimConflict)
        } else if d == 10036i32 {
            Some(NFSStat4::NFS4ErrBADXDR)
        } else if d == 10037i32 {
            Some(NFSStat4::NFS4ErrLocksHeld)
        } else if d == 10038i32 {
            Some(NFSStat4::NFS4ErrOpenMODE)
        } else if d == 10039i32 {
            Some(NFSStat4::NFS4ErrBADOWNER)
        } else if d == 10040i32 {
            Some(NFSStat4::NFS4ErrBADCHAR)
        } else if d == 10041i32 {
            Some(NFSStat4::NFS4ErrBADNAME)
        } else if d == 10042i32 {
            Some(NFSStat4::NFS4ErrBadRange)
        } else if d == 10043i32 {
            Some(NFSStat4::NFS4ErrLockNotSupp)
        } else if d == 10044i32 {
            Some(NFSStat4::NFS4ErrOpIllegal)
        } else if d == 10045i32 {
            Some(NFSStat4::NFS4ErrDeadLock)
        } else if d == 10046i32 {
            Some(NFSStat4::NFS4ErrFileOpen)
        } else if d == 10047i32 {
            Some(NFSStat4::NFS4ErrAdminRevoked)
        } else if d == 10048i32 {
            Some(NFSStat4::NFS4ErrCBPathDown)
        } else if d == 10049i32 {
            Some(NFSStat4::NFS4ErrBadIOMode)
        } else if d == 10050i32 {
            Some(NFSStat4::NFS4ErrBadLayout)
        } else if d == 10051i32 {
            Some(NFSStat4::NFS4ErrBadSessionDigest)
        } else if d == 10052i32 {
            Some(NFSStat4::NFS4ErrBadSession)
        } else if d == 10053i32 {
            Some(NFSStat4::NFS4ErrBadSlot)
        } else if d == 10054i32 {
            Some(NFSStat4::NFS4ErrCompleteAlready)
        } else if d == 10055i32 {
            Some(NFSStat4::NFS4ErrConnNotBoundToSession)
        } else if d == 10056i32 {
            Some(NFSStat4::NFS4ErrDelegAlreadyWanted)
        } else if d == 10057i32 {
            Some(NFSStat4::NFS4ErrBackChanBusy)
        } else if d == 10058i32 {
            Some(NFSStat4::NFS4ErrLayoutTryLater)
        } else if d == 10059i32 {
            Some(NFSStat4::NFS4ErrLayoutUnavailable)
        } else if d == 10060i32 {
            Some(NFSStat4::NFS4ErrNoMatchingLayout)
        } else if d == 10061i32 {
            Some(NFSStat4::NFS4ErrRecallConflict)
        } else if d == 10062i32 {
            Some(NFSStat4::NFS4ErrUnknownLayoutType)
        } else if d == 10063i32 {
            Some(NFSStat4::NFS4ErrSeqMisordered)
        } else if d == 10064i32 {
            Some(NFSStat4::NFS4ErrSequencePos)
        } else if d == 10065i32 {
            Some(NFSStat4::NFS4ErrReqTooBig)
        } else if d == 10066i32 {
            Some(NFSStat4::NFS4ErrRepTooBig)
        } else if d == 10067i32 {
            Some(NFSStat4::NFS4ErrRepTooBigToCache)
        } else if d == 10068i32 {
            Some(NFSStat4::NFS4ErrRetryUncachedRep)
        } else if d == 10069i32 {
            Some(NFSStat4::NFS4ErrUnsafeCompound)
        } else if d == 10070i32 {
            Some(NFSStat4::NFS4ErrTooManyOps)
        } else if d == 10071i32 {
            Some(NFSStat4::NFS4ErrOpNotInSession)
        } else if d == 10072i32 {
            Some(NFSStat4::NFS4ErrHashAlgUnsupp)
        } else if d == 10074i32 {
            Some(NFSStat4::NFS4ErrClientIDBusy)
        } else if d == 10075i32 {
            Some(NFSStat4::NFS4ErrPNFSIOHole)
        } else if d == 10076i32 {
            Some(NFSStat4::NFS4ErrSeqFalseRetry)
        } else if d == 10077i32 {
            Some(NFSStat4::NFS4ErrBadHighSlot)
        } else if d == 10078i32 {
            Some(NFSStat4::NFS4ErrDeadSession)
        } else if d == 10079i32 {
            Some(NFSStat4::NFS4ErrENCRAlgUnsupp)
        } else if d == 10080i32 {
            Some(NFSStat4::NFS4ErrPNFSNoLayout)
        } else if d == 10081i32 {
            Some(NFSStat4::NFS4ErrNotOnlyOp)
        } else if d == 10082i32 {
            Some(NFSStat4::NFS4ErrWrongCred)
        } else if d == 10083i32 {
            Some(NFSStat4::NFS4ErrWrongType)
        } else if d == 10084i32 {
            Some(NFSStat4::NFS4ErrDirDelegUnavail)
        } else if d == 10085i32 {
            Some(NFSStat4::NFS4ErrRejectDeleg)
        } else if d == 10086i32 {
            Some(NFSStat4::NFS4ErrReturnConflict)
        } else if d == 10087i32 {
            Some(NFSStat4::NFS4ErrDelegRevoked)
        } else if d == 10088i32 {
            Some(NFSStat4::NFS4ErrPartnerNotSupp)
        } else if d == 10089i32 {
            Some(NFSStat4::NFS4ErrPartnerNoAuth)
        } else if d == 10090i32 {
            Some(NFSStat4::NFS4ErrUnionNotSupp)
        } else if d == 10091i32 {
            Some(NFSStat4::NFS4ErrOffloadDenied)
        } else if d == 10092i32 {
            Some(NFSStat4::NFS4ErrWrongLFS)
        } else if d == 10093i32 {
            Some(NFSStat4::NFS4ErrBadLable)
        } else if d == 10094i32 {
            Some(NFSStat4::NFS4ErrOffloadNoREQS)
        } else if d == 10095i32 {
            Some(NFSStat4::NFS4ErrNoXattr)
        } else if d == 10096i32 {
            Some(NFSStat4::NFS4ErrXattrTooBig)
        } else if d == 11001i32 {
            Some(NFSStat4::NFS4ErrReplay)
        } else {
            None
        }
    }

    fn from_i32(d: i32) -> (r: Option<NFSStat4>) {
        if d == 0 {
            Some(NFSStat4::NFS4Ok)
        } else if d == 1 {
            Some(NFSStat4::NFS4ErrPerm)
        } else if d == 2 {
            Some(NFSStat4::NFS4ErrNoEnt)
        } else if d == 5 {
            Some(NFSStat4::NFS4ErrIO)
        } else if d == 6 {
            Some(NFSStat4::NFS4ErrNXIO)
        } else if d == 13 {
            Some(NFSStat4::NFS4ErrAccess)
        } else if d == 17 {
            Some(NFSStat4::NFS4ErrExist)
        } else if d == 18 {
            Some(NFSStat4::NFS4ErrXDev)
        } else if d == 20 {
            Some(NFSStat4::NFS4ErrNotDir)
        } else if d == 21 {
            Some(NFSStat4::NFS4ErrIsDir)
        } else if d == 22 {
            Some(NFSStat4::NFS4ErrInval)
        } else if d == 27 {
            Some(NFSStat4::NFS4ErrFBig)
        } else if d == 28 {
            Some(NFSStat4::NFS4ErrNoSpc)
        } else if d == 30 {
            Some(NFSStat4::NFS4ErrROFs)
        } else if d == 31 {
            Some(NFSStat4::NFS4ErrMLink)
        } else if d == 63 {
            Some(NFSStat4::NFS4ErrNameTOOLONG)
        } else if d == 66 {
            Some(NFSStat4::NFS4ErrNOTEMPTY)
        } else if d == 69 {
            Some(NFSStat4::NFS4ErrDQUOT)
        } else if d == 70 {
            Some(NFSStat4::NFS4ErrSTALE)
        } else if d == 10001 {
            Some(NFSStat4::NFS4ErrBADHANDLE)
        } else if d == 10003 {
            Some(NFSStat4::NFS4ErrBadCookie)
        } else if d == 10004 {
            Some(NFSStat4::NFS4ErrNotSupp)
        } else if d == 10005 {
            Some(NFSStat4::NFS4ErrTooSmall)
        } else if d == 10006 {
            Some(NFSStat4::NFS4ErrServerFault)
        } else if d == 10007 {
            Some(NFSStat4::NFS4ErrBadType)
        } else if d == 10008 {
            Some(NFSStat4::NFS4ErrDelay)
        } else if d == 10009 {
            Some(NFSStat4::NFS4ErrSame)
        } else if d == 10010 {
            Some(NFSStat4::NFS4ErrDenied)
        } else if d == 10011 {
            Some(NFSStat4::NFS4ErrExpired)
        } else if d == 10012 {
            Some(NFSStat4::NFS4ErrLocked)
        } else if d == 10013 {
            Some(NFSStat4::NFS4ErrGrace)
        } else if d == 10014 {
            Some(NFSStat4::NFS4ErrFhExpired)
        } else if d == 10015 {
            Some(NFSStat4::NFS4ErrShareDenied)
        } else if d == 10016 {
            Some(NFSStat4::NFS4ErrWrongSec)
        } else if d == 10017 {
            Some(NFSStat4::NFS4ErrCLIDInUse)
        } else if d == 10018 {
            Some(NFSStat4::NFS4ErrResource)
        } else if d == 10019 {
            Some(NFSStat4::NFS4ErrMoved)
        } else if d == 10020 {
            Some(NFSStat4::NFS4ErrNoFileHandle)
        } else if d == 10021 {
            Some(NFSStat4::NFS4ErrMinorVersMismatch)
        } else if d == 10022 {
            Some(NFSStat4::NFS4ErrStaleClientTID)
        } else if d == 10023 {
            Some(NFSStat4::NFS4ErrStaleStateID)
        } else if d == 10024 {
            Some(NFSStat4::NFS4ErrOldStateID)
        } else if d == 10025 {
            Some(NFSStat4::NFS4ErrBadStateID)
        } else if d == 10026 {
            Some(NFSStat4::NFS4ErrBadSeqID)
        } else if d == 10027 {
            Some(NFSStat4::NFS4ErrNotSame)
        } else if d == 10028 {
            Some(NFSStat4::NFS4ErrLockRange)
        } else if d == 10029 {
            Some(NFSStat4::NFS4ErrSymlink)
        } else if d == 10030 {
            Some(NFSStat4::NFS4ErrRestoreFh)
        } else if d == 10031 {
            Some(NFSStat4::NFS4ErrLeaseMoved)
        } else if d == 10032 {
            Some(NFSStat4::NFS4ErrATTRNOTSUPP)
        } else if d == 10033 {
            Some(NFSStat4::NFS4ErrNoGrace)
        } else if d == 10034 {
            Some(NFSStat4::NFS4ErrReclaimBad)
        } else if d == 10035 {
            Some(NFSStat4::NFS4ErrReclaimConflict)
        } else if d == 10036 {
            Some(NFSStat4::NFS4ErrBADXDR)
        } else if d == 10037 {
            Some(NFSStat4::NFS4ErrLocksHeld)
        } else if d == 10038 {
            Some(NFSStat4::NFS4ErrOpenMODE)
        } else if d == 10039 {
            Some(NFSStat4::NFS4ErrBADOWNER)
        } else if d == 10040 {
            Some(NFSStat4::NFS4ErrBADCHAR)
        } else if d == 10041 {
            Some(NFSStat4::NFS4ErrBADNAME)
        } else if d == 10042 {
            Some(NFSStat4::NFS4ErrBadRange)
        } else if d == 10043 {
            Some(NFSStat4::NFS4ErrLockNotSupp)
        } else if d == 10044 {
            Some(NFSStat4::NFS4ErrOpIllegal)
        } else if d == 10045 {
            Some(NFSStat4::NFS4ErrDeadLock)
        } else if d == 10046 {
            Some(NFSStat4::NFS4ErrFileOpen)
        } else if d == 10047 {
            Some(NFSStat4::NFS4ErrAdminRevoked)
        } else if d == 10048 {
            Some(NFSStat4::NFS4ErrCBPathDown)
        } else if d == 10049 {
            Some(NFSStat4::NFS4ErrBadIOMode)
        } else if d == 10050 {
            Some(NFSStat4::NFS4ErrBadLayout)
        } else if d == 10051 {
            Some(NFSStat4::NFS4ErrBadSessionDigest)
        } else if d == 10052 {
            Some(NFSStat4::NFS4ErrBadSession)
        } else if d == 10053 {
            Some(NFSStat4::NFS4ErrBadSlot)
        } else if d == 10054 {
            Some(NFSStat4::NFS4ErrCompleteAlready)
        } else if d == 10055 {
            Some(NFSStat4::NFS4ErrConnNotBoundToSession)
        } else if d == 10056 {
            Some(NFSStat4::NFS4ErrDelegAlreadyWanted)
        } else if d == 10057 {
            Some(NFSStat4::NFS4ErrBackChanBusy)
        } else if d == 10058 {
            Some(NFSStat4::NFS4ErrLayoutTryLater)
        } else if d == 10059 {
            Some(NFSStat4::NFS4ErrLayoutUnavailable)
        } else if d == 10060 {
            Some(NFSStat4::NFS4ErrNoMatchingLayout)
        } else if d == 10061 {
            Some(NFSStat4::NFS4ErrRecallConflict)
        } else if d == 10062 {
            Some(NFSStat4::NFS4ErrUnknownLayoutType)
        } else if d == 10063 {
            Some(NFSStat4::NFS4ErrSeqMisordered)
        } else if d == 10064 {
            Some(NFSStat4::NFS4ErrSequencePos)
        } else if d == 10065 {
            Some(NFSStat4::NFS4ErrReqTooBig)
        } else if d == 10066 {
            Some(NFSStat4::NFS4ErrRepTooBig)
        } else if d == 10067 {
            Some(NFSStat4::NFS4ErrRepTooBigToCache)
        } else if d == 10068 {
            Some(NFSStat4::NFS4ErrRetryUncachedRep)
        } else if d == 10069 {
            Some(NFSStat4::NFS4ErrUnsafeCompound)
        } else if d == 10070 {
            Some(NFSStat4::NFS4ErrTooManyOps)
        } else if d == 10071 {
            Some(NFSStat4::NFS4ErrOpNotInSession)
        } else if d == 10072 {
            Some(NFSStat4::NFS4ErrHashAlgUnsupp)
        } else if d == 10074 {
            Some(NFSStat4::NFS4ErrClientIDBusy)
        } else if d == 10075 {
            Some(NFSStat4::NFS4ErrPNFSIOHole)
        } else if d == 10076 {
            Some(NFSStat4::NFS4ErrSeqFalseRetry)
        } else if d == 10077 {
            Some(NFSStat4::NFS4ErrBadHighSlot)
        } else if d == 10078 {
            Some(NFSStat4::NFS4ErrDeadSession)
        } else if d == 10079 {
            Some(NFSStat4::NFS4ErrENCRAlgUnsupp)
        } else if d == 10080 {
            Some(NFSStat4::NFS4ErrPNFSNoLayout)
        } else if d == 10081 {
            Some(NFSStat4::NFS4ErrNotOnlyOp)
        } else if d == 10082 {
            Some(NFSStat4::NFS4ErrWrongCred)
        } else if d == 10083 {
            Some(NFSStat4::NFS4ErrWrongType)
        } else if d == 10084 {
            Some(NFSStat4::NFS4ErrDirDelegUnavail)
        } else if d == 10085 {
            Some(NFSStat4::NFS4ErrRejectDeleg)
        } else if d == 10086 {
            Some(NFSStat4::NFS4ErrReturnConflict)
        } else if d == 10087 {
            Some(NFSStat4::NFS4ErrDelegRevoked)
        } else if d == 10088 {
            Some(NFSStat4::NFS4ErrPartnerNotSupp)
        } else if d == 10089 {
            Some(NFSStat4::NFS4ErrPartnerNoAuth)
        } else if d == 10090 {
            Some(NFSStat4::NFS4ErrUnionNotSupp)
        } else if d == 10091 {
            Some(NFSStat4::NFS4ErrOffloadDenied)
        } else if d == 10092 {
            Some(NFSStat4::NFS4ErrWrongLFS)
        } else if d == 10093 {
            Some(NFSStat4::NFS4ErrBadLable)
        } else if d == 10094 {
            Some(NFSStat4::NFS4ErrOffloadNoREQS)
        } else if d == 10095 {
            Some(NFSStat4::NFS4ErrNoXattr)
        } else if d == 10096 {
            Some(NFSStat4::NFS4ErrXattrTooBig)
        } else if d == 11001 {
            Some(NFSStat4::NFS4ErrReplay)
        } else {
            None
        }
    }
}

impl Deserialize for NFSStat4 {
    open spec fn decoding(s: Seq<u8>, at: int) -> Parsed<NFSStat4> {
        enum_decoding::<NFSStat4>(s, at)
    }

    fn deserialize(src: &mut Cursor) -> (r: Result<NFSStat4, Error>) {
        deserialize_enum(src)
    }
}

impl RoundTrip for NFSStat4 {
    proof fn lemma_roundtrip(&self, s: Seq<u8>, at: int) {
        lemma_u32_at(s, at, self.discriminant() as u32);
        lemma_i32_u32(self.discriminant());
    }
}

/// The operations of NFS version 4, by number.
#[allow(non_camel_case_types)]
#[derive(Debug, Clone, Copy, PartialEq, Eq)]
pub enum NFSOpNum4 {
    OpNull,
    OpCompound,
    OpAccess,
    OpClose,
    OpCommit,
    OpCreate,
    OpDelegPurge,
    OpDelegReturn,
    OpGetAttr,
    OpGetFh,
    OpLink,
    OpLock,
    OpLockT,
    OpLockU,
    OpLookup,
    OpLookupP,
    OpNVerify,
    OpOpen,
    OpOpenAttr,
    OpOpenConfirm,
    OpOpenDowngrade,
    OpPutFh,
    OpPutPubFh,
    OpPutRootFh,
    OpRead,
    OpReadDir,
    OpReadLink,
    OpRemove,
    OpRename,
    OpRenew,
    OpRestoreFh,
    OpSaveFh,
    OpSecInfo,
    OpSetAttr,
    OpSetClientTID,
    OpSetClientIdConfirm,
    OpVerify,
    OpWrite,
    OpReleaseLockOwner,
    OpBackChannelCTL,
    OpBindConnToSession,
    OpExchangeId,
    OpCreateSession,
    OpDestroySession,
    OpFreeStateId,
    OpGetDirDelegation,
    OpGetDeviceInfo,
    OpGetDeviceList,
    OpLayoutCommit,
    OpLayoutGet,
    OpLayoutReturn,
    OpSecInfoNoName,
    OpSequence,
    OpSetSSV,
    OpTestStateId,
    OpWantDelegation,
    OpDestroyClientId,
    OpReclaimComplete,
    OpAllocate,
    OpCopy,
    OpCopyNotify,
    OpDeallocate,
    OpIOAdvise,
    OpLayoutError,
    OpLayoutStats,
    OpOffloadCancle,
    OpOffloadStatus,
    OpReadPlus,
    OpSeek,
    OpWriteSame,
    OpClone,
    OpGetXattr,
    OpSetXattr,
    OpListXattr,
    OpRemoveExtra,
    OpIllegal,
}

impl View for NFSOpNum4 {
    type V = NFSOpNum4;

    open spec fn view(&self) -> NFSOpNum4 {
        *self
    }
}

impl SerializeEnum for NFSOpNum4 {
    open spec fn discriminant(&self) -> i32 {
        match self {
            NFSOpNum4::OpNull => 0i32,
            NFSOpNum4::OpCompound => 1i32,
            NFSOpNum4::OpAccess => 3i32,
            NFSOpNum4::OpClose => 4i32,
            NFSOpNum4::OpCommit => 5i32,
            NFSOpNum4::OpCreate => 6i32,
            NFSOpNum4::OpDelegPurge => 7i32,
            NFSOpNum4::OpDelegReturn => 8i32,
            NFSOpNum4::OpGetAttr => 9i32,
            NFSOpNum4::OpGetFh => 10i32,
            NFSOpNum4::OpLink => 11i32,
            NFSOpNum4::OpLock => 12i32,
            NFSOpNum4::OpLockT => 13i32,
            NFSOpNum4::OpLockU => 14i32,
            NFSOpNum4::OpLookup => 15i32,
            NFSOpNum4::OpLookupP => 16i32,
            NFSOpNum4::OpNVerify => 17i32,
            NFSOpNum4::OpOpen => 18i32,
            NFSOpNum4::OpOpenAttr => 19i32,
            NFSOpNum4::OpOpenConfirm => 20i32,
            NFSOpNum4::OpOpenDowngrade => 21i32,
            NFSOpNum4::OpPutFh => 22i32,
            NFSOpNum4::OpPutPubFh => 23i32,
            NFSOpNum4::OpPutRootFh => 24i32,
            NFSOpNum4::OpRead => 25i32,
            NFSOpNum4::OpReadDir => 26i32,
            NFSOpNum4::OpReadLink => 27i32,
            NFSOpNum4::OpRemove => 28i32,
            NFSOpNum4::OpRename => 29i32,
            NFSOpNum4::OpRenew => 30i32,
            NFSOpNum4::OpRestoreFh => 31i32,
            NFSOpNum4::OpSaveFh => 32i32,
            NFSOpNum4::OpSecInfo => 33i32,
            NFSOpNum4::OpSetAttr => 34i32,
            NFSOpNum4::OpSetClientTID => 35i32,
            NFSOpNum4::OpSetClientIdConfirm => 36i32,
            NFSOpNum4::OpVerify => 37i32,
            NFSOpNum4::OpWrite => 38i32,
            NFSOpNum4::OpReleaseLockOwner => 39i32,
            NFSOpNum4::OpBackChannelCTL => 40i32,
            NFSOpNum4::OpBindConnToSession => 41i32,
            NFSOpNum4::OpExchangeId => 42i32,
            NFSOpNum4::OpCreateSession => 43i32,
            NFSOpNum4::OpDestroySession => 44i32,
            NFSOpNum4::OpFreeStateId => 45i32,
            NFSOpNum4::OpGetDirDelegation => 46i32,
            NFSOpNum4::OpGetDeviceInfo => 47i32,
            NFSOpNum4::OpGetDeviceList => 48i32,
            NFSOpNum4::OpLayoutCommit => 49i32,
            NFSOpNum4::OpLayoutGet => 50i32,
            NFSOpNum4::OpLayoutReturn => 51i32,
            NFSOpNum4::OpSecInfoNoName => 52i32,
            NFSOpNum4::OpSequence => 53i32,
            NFSOpNum4::OpSetSSV => 54i32,
            NFSOpNum4::OpTestStateId => 55i32,
            NFSOpNum4::OpWantDelegation => 56i32,
            NFSOpNum4::OpDestroyClientId => 57i32,
            NFSOpNum4::OpReclaimComplete => 58i32,
            NFSOpNum4::OpAllocate => 59i32,
            NFSOpNum4::OpCopy => 60i32,
            NFSOpNum4::OpCopyNotify => 61i32,
            NFSOpNum4::OpDeallocate => 62i32,
            NFSOpNum4::OpIOAdvise => 63i32,
            NFSOpNum4::OpLayoutError => 64i32,
            NFSOpNum4::OpLayoutStats => 65i32,
            NFSOpNum4::OpOffloadCancle => 66i32,
            NFSOpNum4::OpOffloadStatus => 67i32,
            NFSOpNum4::OpReadPlus => 68i32,
            NFSOpNum4::OpSeek => 69i32,
            NFSOpNum4::OpWriteSame => 70i32,
            NFSOpNum4::OpClone => 71i32,
            NFSOpNum4::OpGetXattr => 72i32,
            NFSOpNum4::OpSetXattr => 73i32,
            NFSOpNum4::OpListXattr => 74i32,
            NFSOpNum4::OpRemoveExtra => 75i32,
            NFSOpNum4::OpIllegal => 10044i32,
        }
    }

    fn to_i32(&self) -> (r: i32) {
        match self {
            NFSOpNum4::OpNull => 0,
            NFSOpNum4::OpCompound => 1,
            NFSOpNum4::OpAccess => 3,
            NFSOpNum4::OpClose => 4,
            NFSOpNum4::OpCommit => 5,
            NFSOpNum4::OpCreate => 6,
            NFSOpNum4::OpDelegPurge => 7,
            NFSOpNum4::OpDelegReturn => 8,
            NFSOpNum4::OpGetAttr => 9,
            NFSOpNum4::OpGetFh => 10,
            NFSOpNum4::OpLink => 11,
            NFSOpNum4::OpLock => 12,
            NFSOpNum4::OpLockT => 13,
            NFSOpNum4::OpLockU => 14,
            NFSOpNum4::OpLookup => 15,
            NFSOpNum4::OpLookupP => 16,
            NFSOpNum4::OpNVerify => 17,
            NFSOpNum4::OpOpen => 18,
            NFSOpNum4::OpOpenAttr => 19,
            NFSOpNum4::OpOpenConfirm => 20,
            NFSOpNum4::OpOpenDowngrade => 21,
            NFSOpNum4::OpPutFh => 22,
            NFSOpNum4::OpPutPubFh => 23,
            NFSOpNum4::OpPutRootFh => 24,
            NFSOpNum4::OpRead => 25,
            NFSOpNum4::OpReadDir => 26,
            NFSOpNum4::OpReadLink => 27,
            NFSOpNum4::OpRemove => 28,
            NFSOpNum4::OpRename => 29,
            NFSOpNum4::OpRenew => 30,
            NFSOpNum4::OpRestoreFh => 31,
            NFSOpNum4::OpSaveFh => 32,
            NFSOpNum4::OpSecInfo => 33,
            NFSOpNum4::OpSetAttr => 34,
            NFSOpNum4::OpSetClientTID => 35,
            NFSOpNum4::OpSetClientIdConfirm => 36,
            NFSOpNum4::OpVerify => 37,
            NFSOpNum4::OpWrite => 38,
            NFSOpNum4::OpReleaseLockOwner => 39,
            NFSOpNum4::OpBackChannelCTL => 40,
            NFSOpNum4::OpBindConnToSession => 41,
            NFSOpNum4::OpExchangeId => 42,
            NFSOpNum4::OpCreateSession => 43,
            NFSOpNum4::OpDestroySession => 44,
            NFSOpNum4::OpFreeStateId => 45,
            NFSOpNum4::OpGetDirDelegation => 46,
            NFSOpNum4::OpGetDeviceInfo => 47,
            NFSOpNum4::OpGetDeviceList => 48,
            NFSOpNum4::OpLayoutCommit => 49,
            NFSOpNum4::OpLayoutGet => 50,
            NFSOpNum4::OpLayoutReturn => 51,
            NFSOpNum4::OpSecInfoNoName => 52,
            NFSOpNum4::OpSequence => 53,
            NFSOpNum4::OpSetSSV => 54,
            NFSOpNum4::OpTestStateId => 55,
            NFSOpNum4::OpWantDelegation => 56,
            NFSOpNum4::OpDestroyClientId => 57,
            NFSOpNum4::OpReclaimComplete => 58,
            NFSOpNum4::OpAllocate => 59,
            NFSOpNum4::OpCopy => 60,
            NFSOpNum4::OpCopyNotify => 61,
            NFSOpNum4::OpDeallocate => 62,
            NFSOpNum4::OpIOAdvise => 63,
            NFSOpNum4::OpLayoutError => 64,
            NFSOpNum4::OpLayoutStats => 65,
            NFSOpNum4::OpOffloadCancle => 66,
            NFSOpNum4::OpOffloadStatus => 67,
            NFSOpNum4::OpReadPlus => 68,
            NFSOpNum4::OpSeek => 69,
            NFSOpNum4::OpWriteSame => 70,
            NFSOpNum4::OpClone => 71,
            NFSOpNum4::OpGetXattr => 72,
            NFSOpNum4::OpSetXattr => 73,
            NFSOpNum4::OpListXattr => 74,
            NFSOpNum4::OpRemoveExtra => 75,
            NFSOpNum4::OpIllegal => 10044,
        }
    }
}

impl Serialize for NFSOpNum4 {
    open spec fn encodable(&self) -> bool {
        true
    }

    open spec fn encoding(&self) -> Seq<u8> {
        enum_encoding(self.discriminant())
    }

    fn serialize(&self, dest: &mut Vec<u8>) -> (r: Result<(), Error>) {
        serialize_enum(self, dest);
        Ok(())
    }
}

impl DeserializeEnum for NFSOpNum4 {
    open spec fn of_discriminant(d: i32) -> Option<NFSOpNum4> {
        if d == 0i32 {
            Some(NFSOpNum4::OpNull)
        } else if d == 1i32 {
            Some(NFSOpNum4::OpCompound)
        } else if d == 3i32 {
            Some(NFSOpNum4::OpAccess)
        } else if d == 4i32 {
            Some(NFSOpNum4::OpClose)
        } else if d == 5i32 {
            Some(NFSOpNum4::OpCommit)
        } else if d == 6i32 {
            Some(NFSOpNum4::OpCreate)
        } else if d == 7i32 {
            Some(NFSOpNum4::OpDelegPurge)
        } else if d == 8i32 {
            Some(NFSOpNum4::OpDelegReturn)
        } else if d == 9i32 {
            Some(NFSOpNum4::OpGetAttr)
        } else if d == 10i32 {
            Some(NFSOpNum4::OpGetFh)
        } else if d == 11i32 {
            Some(NFSOpNum4::OpLink)
        } else if d == 12i32 {
            Some(NFSOpNum4::OpLock)
        } else if d == 13i32 {
            Some(NFSOpNum4::OpLockT)
        } else if d == 14i32 {
            Some(NFSOpNum4::OpLockU)
        } else if d == 15i32 {
            Some(NFSOpNum4::OpLookup)
        } else if d == 16i32 {
            Some(NFSOpNum4::OpLookupP)
        } else if d == 17i32 {
            Some(NFSOpNum4::OpNVerify)
        } else if d == 18i32 {
            Some(NFSOpNum4::OpOpen)
        } else if d == 19i32 {
            Some(NFSOpNum4::OpOpenAttr)
        } else if d == 20i32 {
            Some(NFSOpNum4::OpOpenConfirm)
        } else if d == 21i32 {
            Some(NFSOpNum4::OpOpenDowngrade)
        } else if d == 22i32 {
            Some(NFSOpNum4::OpPutFh)
        } else if d == 23i32 {
            Some(NFSOpNum4::OpPutPubFh)
        } else if d == 24i32 {
            Some(NFSOpNum4::OpPutRootFh)
        } else if d == 25i32 {
            Some(NFSOpNum4::OpRead)
        } else if d == 26i32 {
            Some(NFSOpNum4::OpReadDir)
        } else if d == 27i32 {
            Some(NFSOpNum4::OpReadLink)
        } else if d == 28i32 {
            Some(NFSOpNum4::OpRemove)
        } else if d == 29i32 {
            Some(NFSOpNum4::OpRename)
        } else if d == 30i32 {
            Some(NFSOpNum4::OpRenew)
        } else if d == 31i32 {
            Some(NFSOpNum4::OpRestoreFh)
        } else if d == 32i32 {
            Some(NFSOpNum4::OpSaveFh)
        } else if d == 33i32 {
            Some(NFSOpNum4::OpSecInfo)
        } else if d == 34i32 {
            Some(NFSOpNum4::OpSetAttr)
        } else if d == 35i32 {
            Some(NFSOpNum4::OpSetClientTID)
        } else if d == 36i32 {
            Some(NFSOpNum4::OpSetClientIdConfirm)
        } else if d == 37i32 {
            Some(NFSOpNum4::OpVerify)
        } else if d == 38i32 {
            Some(NFSOpNum4::OpWrite)
        } else if d == 39i32 {
            Some(NFSOpNum4::OpReleaseLockOwner)
        } else if d == 40i32 {
            Some(NFSOpNum4::OpBackChannelCTL)
        } else if d == 41i32 {
            Some(NFSOpNum4::OpBindConnToSession)
        } else if d == 42i32 {
            Some(NFSOpNum4::OpExchangeId)
        } else if d == 43i32 {
            Some(NFSOpNum4::OpCreateSession)
        } else if d == 44i32 {
            Some(NFSOpNum4::OpDestroySession)
        } else if d == 45i32 {
            Some(NFSOpNum4::OpFreeStateId)
        } else if d == 46i32 {
            Some(NFSOpNum4::OpGetDirDelegation)
        } else if d == 47i32 {
            Some(NFSOpNum4::OpGetDeviceInfo)
        } else if d == 48i32 {
            Some(NFSOpNum4::OpGetDeviceList)
        } else if d == 49i32 {
            Some(NFSOpNum4::OpLayoutCommit)
        } else if d == 50i32 {
            Some(NFSOpNum4::OpLayoutGet)
        } else if d == 51i32 {
            Some(NFSOpNum4::OpLayoutReturn)
        } else if d == 52i32 {
            Some(NFSOpNum4::OpSecInfoNoName)
        } else if d == 53i32 {
            Some(NFSOpNum4::OpSequence)
        } else if d == 54i32 {
            Some(NFSOpNum4::OpSetSSV)
        } else if d == 55i32 {
            Some(NFSOpNum4::OpTestStateId)
        } else if d == 56i32 {
            Some(NFSOpNum4::OpWantDelegation)
        } else if d == 57i32 {
            Some(NFSOpNum4::OpDestroyClientId)
        } else if d == 58i32 {
            Some(NFSOpNum4::OpReclaimComplete)
        } else if d == 59i32 {
            Some(NFSOpNum4::OpAllocate)
        } else if d == 60i32 {
            Some(NFSOpNum4::OpCopy)
        } else if d == 61i32 {
            Some(NFSOpNum4::OpCopyNotify)
        } else if d == 62i32 {
            Some(NFSOpNum4::OpDeallocate)
        } else if d == 63i32 {
            Some(NFSOpNum4::OpIOAdvise)
        } else if d == 64i32 {
            Some(NFSOpNum4::OpLayoutError)
        } else if d == 65i32 {
            Some(NFSOpNum4::OpLayoutStats)
        } else if d == 66i32 {
            Some(NFSOpNum4::OpOffloadCancle)
        } else if d == 67i32 {
            Some(NFSOpNum4::OpOffloadStatus)
        } else if d == 68i32 {
            Some(NFSOpNum4::OpReadPlus)
        } else if d == 69i32 {
            Some(NFSOpNum4::OpSeek)
        } else if d == 70i32 {
            Some(NFSOpNum4::OpWriteSame)
        } else if d == 71i32 {
            Some(NFSOpNum4::OpClone)
        } else if d == 72i32 {
            Some(NFSOpNum4::OpGetXattr)
        } else if d == 73i32 {
            Some(NFSOpNum4::OpSetXattr)
        } else if d == 74i32 {
            Some(NFSOpNum4::OpListXattr)
        } else if d == 75i32 {
            Some(NFSOpNum4::OpRemoveExtra)
        } else if d == 10044i32 {
            Some(NFSOpNum4::OpIllegal)
        } else {
            None
        }
    }

    fn from_i32(d: i32) -> (r: Option<NFSOpNum4>) {
        if d == 0 {
            Some(NFSOpNum4::OpNull)
        } else if d == 1 {
            Some(NFSOpNum4::OpCompound)
        } else if d == 3 {
            Some(NFSOpNum4::OpAccess)
        } else if d == 4 {
            Some(NFSOpNum4::OpClose)
        } else if d == 5 {
            Some(NFSOpNum4::OpCommit)
        } else if d == 6 {
            Some(NFSOpNum4::OpCreate)
        } else if d == 7 {
            Some(NFSOpNum4::OpDelegPurge)
        } else if d == 8 {
            Some(NFSOpNum4::OpDelegReturn)
        } else if d == 9 {
            Some(NFSOpNum4::OpGetAttr)
        } else if d == 10 {
            Some(NFSOpNum4::OpGetFh)
        } else if d == 11 {
            Some(NFSOpNum4::OpLink)
        } else if d == 12 {
            Some(NFSOpNum4::OpLock)
        } else if d == 13 {
            Some(NFSOpNum4::OpLockT)
        } else if d == 14 {
            Some(NFSOpNum4::OpLockU)
        } else if d == 15 {
            Some(NFSOpNum4::OpLookup)
        } else if d == 16 {
            Some(NFSOpNum4::OpLookupP)
        } else if d == 17 {
            Some(NFSOpNum4::OpNVerify)
        } else if d == 18 {
            Some(NFSOpNum4::OpOpen)
        } else if d == 19 {
            Some(NFSOpNum4::OpOpenAttr)
        } else if d == 20 {
            Some(NFSOpNum4::OpOpenConfirm)
        } else if d == 21 {
            Some(NFSOpNum4::OpOpenDowngrade)
        } else if d == 22 {
            Some(NFSOpNum4::OpPutFh)
        } else if d == 23 {
            Some(NFSOpNum4::OpPutPubFh)
        } else if d == 24 {
            Some(NFSOpNum4::OpPutRootFh)
        } else if d == 25 {
            Some(NFSOpNum4::OpRead)
        } else if d == 26 {
            Some(NFSOpNum4::OpReadDir)
        } else if d == 27 {
            Some(NFSOpNum4::OpReadLink)
        } else if d == 28 {
            Some(NFSOpNum4::OpRemove)
        } else if d == 29 {
            Some(NFSOpNum4::OpRename)
        } else if d == 30 {
            Some(NFSOpNum4::OpRenew)
        } else if d == 31 {
            Some(NFSOpNum4::OpRestoreFh)
        } else if d == 32 {
            Some(NFSOpNum4::OpSaveFh)
        } else if d == 33 {
            Some(NFSOpNum4::OpSecInfo)
        } else if d == 34 {
            Some(NFSOpNum4::OpSetAttr)
        } else if d == 35 {
            Some(NFSOpNum4::OpSetClientTID)
        } else if d == 36 {
            Some(NFSOpNum4::OpSetClientIdConfirm)
        } else if d == 37 {
            Some(NFSOpNum4::OpVerify)
        } else if d == 38 {
            Some(NFSOpNum4::OpWrite)
        } else if d == 39 {
            Some(NFSOpNum4::OpReleaseLockOwner)
        } else if d == 40 {
            Some(NFSOpNum4::OpBackChannelCTL)
        } else if d == 41 {
            Some(NFSOpNum4::OpBindConnToSession)
        } else if d == 42 {
            Some(NFSOpNum4::OpExchangeId)
        } else if d == 43 {
            Some(NFSOpNum4::OpCreateSession)
        } else if d == 44 {
            Some(NFSOpNum4::OpDestroySession)
        } else if d == 45 {
            Some(NFSOpNum4::OpFreeStateId)
        } else if d == 46 {
            Some(NFSOpNum4::OpGetDirDelegation)
        } else if d == 47 {
            Some(NFSOpNum4::OpGetDeviceInfo)
        } else if d == 48 {
            Some(NFSOpNum4::OpGetDeviceList)
        } else if d == 49 {
            Some(NFSOpNum4::OpLayoutCommit)
        } else if d == 50 {
            Some(NFSOpNum4::OpLayoutGet)
        } else if d == 51 {
            Some(NFSOpNum4::OpLayoutReturn)
        } else if d == 52 {
            Some(NFSOpNum4::OpSecInfoNoName)
        } else if d == 53 {
            Some(NFSOpNum4::OpSequence)
        } else if d == 54 {
            Some(NFSOpNum4::OpSetSSV)
        } else if d == 55 {
            Some(NFSOpNum4::OpTestStateId)
        } else if d == 56 {
            Some(NFSOpNum4::OpWantDelegation)
        } else if d == 57 {
            Some(NFSOpNum4::OpDestroyClientId)
        } else if d == 58 {
            Some(NFSOpNum4::OpReclaimComplete)
        } else if d == 59 {
            Some(NFSOpNum4::OpAllocate)
        } else if d == 60 {
            Some(NFSOpNum4::OpCopy)
        } else if d == 61 {
            Some(NFSOpNum4::OpCopyNotify)
        } else if d == 62 {
            Some(NFSOpNum4::OpDeallocate)
        } else if d == 63 {
            Some(NFSOpNum4::OpIOAdvise)
        } else if d == 64 {
            Some(NFSOpNum4::OpLayoutError)
        } else if d == 65 {
            Some(NFSOpNum4::OpLayoutStats)
        } else if d == 66 {
            Some(NFSOpNum4::OpOffloadCancle)
        } else if d == 67 {
            Some(NFSOpNum4::OpOffloadStatus)
        } else if d == 68 {
            Some(NFSOpNum4::OpReadPlus)
        } else if d == 69 {
            Some(NFSOpNum4::OpSeek)
        } else if d == 70 {
            Some(NFSOpNum4::OpWriteSame)
        } else if d == 71 {
            Some(NFSOpNum4::OpClone)
        } else if d == 72 {
            Some(NFSOpNum4::OpGetXattr)
        } else if d == 73 {
            Some(NFSOpNum4::OpSetXattr)
        } else if d == 74 {
            Some(NFSOpNum4::OpListXattr)
        } else if d == 75 {
            Some(NFSOpNum4::OpRemoveExtra)
        } else if d == 10044 {
            Some(NFSOpNum4::OpIllegal)
        } else {
            None
        }
    }
}

impl Deserialize for NFSOpNum4 {
    open spec fn decoding(s: Seq<u8>, at: int) -> Parsed<NFSOpNum4> {
        enum_decoding::<NFSOpNum4>(s, at)
    }

    fn deserialize(src: &mut Cursor) -> (r: Result<NFSOpNum4, Error>) {
        deserialize_enum(src)
    }
}

impl RoundTrip for NFSOpNum4 {
    proof fn lemma_roundtrip(&self, s: Seq<u8>, at: int) {
        lemma_u32_at(s, at, self.discriminant() as u32);
        lemma_i32_u32(self.discriminant());
    }
}

/// An NFS version 4 file handle: opaque data of at most [`NFS4_FH_SIZE`] bytes.
#[derive(Debug)]
pub struct NFSFh4 {
    pub data: Vec<u8>,
}

impl NFSFh4 {
    /// A file handle with the bytes `arg`; longer ones than [`NFS4_FH_SIZE`]
    /// are refused with `InvalidInput`.
    pub fn create(arg: Vec<u8>) -> (r: Result<NFSFh4, Error>)
        ensures
            arg@.len() <= NFS4_FH_SIZE ==> (r matches Ok(fh) && fh.data@ == arg@),
            arg@.len() > NFS4_FH_SIZE ==> r == Err::<NFSFh4, Error>(Error::IO(IoErrorKind::InvalidInput)),
    {
        if arg.len() > NFS4_FH_SIZE {
            return Err(Error::IO(IoErrorKind::InvalidInput));
        }
        Ok(NFSFh4 { data: arg })
    }
}

/// A state id: a sequence number and an opaque part.
#[derive(Debug, Clone, Copy)]
pub struct StateId4 {
    seqid: u32,
    other: [u8; 12],
}

impl StateId4 {
    /// The state id is the anonymous one: all its fields zero (RFC 7530
    /// section 9.1.4.3).
    pub closed spec fn is_anonymous(&self) -> bool {
        self.seqid == 0 && forall|i: int| 0 <= i < 12 ==> self.other@[i] == 0
    }

    /// The anonymous state id.
    pub fn anonymous() -> (r: StateId4)
        ensures
            r.is_anonymous(),
    {
        StateId4 { seqid: 0, other: [0u8; 12] }
    }
}

/// The type of a file system object in version 4.
#[derive(Debug, Clone, Copy, PartialEq, Eq)]
pub enum NFSFType4 {
    NoFileType,
    RegularFile,
    CharacterFile,
    BlockFile,
    SymbolicLink,
    SocketFile,
    FIFOFile,
    Directory,
}

/// The kind of a delegation.
#[derive(Debug, Clone, Copy, PartialEq, Eq)]
pub enum DelegationType4 {
    OpenDelegateRead,
    OpenDelegateWrite,
}

/// The owner of a piece of state.
#[derive(Debug)]
pub enum StateOwnerType {
    Invalid,
    Open(OpenOwner),
    Lock(LockOwner),
    Delegation(u64),
}

/// The state of an open file.
#[derive(Debug)]
pub struct OpenState {
    stateid: StateId4,
    filehandle: FileHandle,
    open_owner: OpenOwner,
    share_access: u32,
    share_deny: u32,
}

/// The kind of a byte-range lock.
#[derive(Debug, Clone, Copy, PartialEq, Eq)]
pub enum NFSLockType4 {
    /// Shared read lock.
    ReadLt,
    /// Exclusive write lock.
    WriteLt,
    /// Blocking read lock.
    ReadWLt,
    /// Blocking write lock.
    WriteWLt,
}

/// The state of a byte-range lock.
#[derive(Debug)]
pub struct LockState {
    stateid: StateId4,
    open_state: OpenState,
    lock_owner: LockOwner,
    lock_type: NFSLockType4,
    range: (u64, u64),
    filehandle: FileHandle,
}

/// A file the server handed out a handle for.
#[derive(Debug)]
pub struct FileHandle {
    obj_type: NFSFType4,
    nfs_fh4: NFSFh4,
    fileid: u64,
}

/// A client and the opaque name of one of its owners.
#[derive(Debug)]
struct Owner4 {
    clientid: u64,
    owner: Vec<u8>,
}

/// An open owner and the state ids it holds.
#[derive(Debug)]
pub struct OpenOwner {
    open_owner4: Arc<Owner4>,
    states: Vec<StateId4>,
    last_sequid: u32,
    generation_number: u64,
}

/// A lock owner, the open owner it came from, and the state ids it holds.
#[derive(Debug)]
pub struct LockOwner {
    lock_owner4: Arc<Owner4>,
    open_owner: Arc<Owner4>,
    states: Vec<StateId4>,
    last_sequid: u32,
    generation_number: u64,
}

/// A delegation: authority handed to a client to cache a file's data
/// (RFC 7530 section 10).
#[derive(Debug)]
pub struct DelegationState {
    stateid: StateId4,
    open_state: OpenState,
    delegation_type: DelegationType4,
    nfs_client_id: Arc<NFSClientId>,
    filehandle: FileHandle,
}

/// A piece of server state, by kind.
#[derive(Debug)]
pub enum StateType {
    StateTypeNone,
    /// An open file (RFC 7530 section 16.18).
    StateTypeOpen(OpenState),
    /// A delegation (RFC 7530 section 10).
    StateTypeDeleg(DelegationState),
    /// A byte-range lock (RFC 7530 section 16.12).
    StateTypeLock(LockState),
}

/// Where a client id stands in its confirmation (RFC 7530 section 9.1.2).
#[derive(Debug, Clone, Copy, PartialEq, Eq)]
enum NFSClientIdConfirmState {
    Unconfirmed,
    Confirmed,
    Expired,
    Stale,
}

/// A client's credentials: their flavor and length.
#[derive(Debug, Clone, Copy, PartialEq, Eq)]
struct NFSCredentials {
    flavour: u32,
    length: u32,
}

/// How the server calls a client back: an identifier, the client's
/// callback address as text, and the RPC program and version it serves.
#[derive(Debug)]
pub struct CallbackInfo {
    identifier: u32,
    address: String,
    rpc_program: u32,
    rpc_version: u32,
}

/// What the server keeps of a client (RFC 7530 section 9.1.2); the lease
/// is kept in nanoseconds, its expiry on the server's clock.
#[derive(Debug)]
pub struct NFSClientId {
    clientid: u64,
    verifier: [u8; 8],
    last_verifier: [u8; 8],
    lease_duration: u128,
    lease_time: u128,
    confirm_status: NFSClientIdConfirmState,
    credentials: NFSCredentials,
    open_owners: Vec<OpenOwner>,
    lock_owners: Vec<LockOwner>,
    delegations: Vec<NFSFh4>,
    callback_info: CallbackInfo,
}

} // verus!
