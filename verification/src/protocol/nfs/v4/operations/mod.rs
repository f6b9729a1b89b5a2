//! NFS version 4 operations: their codes, arguments, results and execution.
use vstd::prelude::*;

use crate::encoding::be32_bytes;
use crate::parser::cursor::{parsed_as, spec_u32, Cursor};
use crate::protocol::xdr::rpc::call_body;
use crate::protocol::xdr::{
    deserialize_enum, enum_decoding, enum_encoding, invalid_data, serialize_enum, Deserialize,
    DeserializeEnum, Serialize, SerializeEnum,
};
use crate::rpc::{is_protocol_rejection, Error, IoErrorKind, Parsed};

pub mod compound;
pub mod null;

verus! {

broadcast use crate::encoding::lemma_keeps_prefix_trans;

/// The operations of NFS version 4, by number.
#[allow(non_camel_case_types)]
#[derive(Debug, Clone, Copy, PartialEq, Eq)]
pub enum OpNum {
    Null,
    Compound,
    Access,
    Close,
    Commit,
    Create,
    Delegpurge,
    Delegreturn,
    Getattr,
    Getfh,
    Link,
    Lock,
    Lockt,
    Locku,
    Lookup,
    Lookupp,
    Nverify,
    Open,
    Openattr,
    OpenConfirm,
    OpenDowngrade,
    Putfh,
    Putpubfh,
    Putrootfh,
    Read,
    Readdir,
    Readlink,
    Remove,
    Rename,
    Renew,
    Restorefh,
    Savefh,
    Secinfo,
    Setattr,
    Setclientid,
    SetclientidConfirm,
    Verify,
    Write,
    ReleaseLockowner,
    BackchannelCtl,
    BindConnToSession,
    ExchangeId,
    CreateSession,
    DestroySession,
    FreeStateid,
    GetDirDelegation,
    Getdeviceinfo,
    Getdevicelist,
    Layoutcommit,
    Layoutget,
    Layoutreturn,
    SecinfoNoName,
    Sequence,
    SetSsv,
    TestStateid,
    WantDelegation,
    DestroyClientid,
    ReclaimComplete,
    Allocate,
    Copy,
    CopyNotify,
    Deallocate,
    IoAdvise,
    Layouterror,
    Layoutstats,
    OffloadCancel,
    OffloadStatus,
    ReadPlus,
    Seek,
    WriteSame,
    Clone,
    Getxattr,
    Setxattr,
    Listxattr,
    Removexattr,
    LastOne,
    Illegal,
}

impl View for OpNum {
    type V = OpNum;

    open spec fn view(&self) -> OpNum {
        *self
    }
}

impl SerializeEnum for OpNum {
    open spec fn discriminant(&self) -> i32 {
        match self {
            OpNum::Null => 0i32,
            OpNum::Compound => 1i32,
            OpNum::Access => 3i32,
            OpNum::Close => 4i32,
            OpNum::Commit => 5i32,
            OpNum::Create => 6i32,
            OpNum::Delegpurge => 7i32,
            OpNum::Delegreturn => 8i32,
            OpNum::Getattr => 9i32,
            OpNum::Getfh => 10i32,
            OpNum::Link => 11i32,
            OpNum::Lock => 12i32,
            OpNum::Lockt => 13i32,
            OpNum::Locku => 14i32,
            OpNum::Lookup => 15i32,
            OpNum::Lookupp => 16i32,
            OpNum::Nverify => 17i32,
            OpNum::Open => 18i32,
            OpNum::Openattr => 19i32,
            OpNum::OpenConfirm => 20i32,
            OpNum::OpenDowngrade => 21i32,
            OpNum::Putfh => 22i32,
            OpNum::Putpubfh => 23i32,
            OpNum::Putrootfh => 24i32,
            OpNum::Read => 25i32,
            OpNum::Readdir => 26i32,
            OpNum::Readlink => 27i32,
            OpNum::Remove => 28i32,
            OpNum::Rename => 29i32,
            OpNum::Renew => 30i32,
            OpNum::Restorefh => 31i32,
            OpNum::Savefh => 32i32,
            OpNum::Secinfo => 33i32,
            OpNum::Setattr => 34i32,
            OpNum::Setclientid => 35i32,
            OpNum::SetclientidConfirm => 36i32,
            OpNum::Verify => 37i32,
            OpNum::Write => 38i32,
            OpNum::ReleaseLockowner => 39i32,
            OpNum::BackchannelCtl => 40i32,
            OpNum::BindConnToSession => 41i32,
            OpNum::ExchangeId => 42i32,
            OpNum::CreateSession => 43i32,
            OpNum::DestroySession => 44i32,
            OpNum::FreeStateid => 45i32,
            OpNum::GetDirDelegation => 46i32,
            OpNum::Getdeviceinfo => 47i32,
            OpNum::Getdevicelist => 48i32,
            OpNum::Layoutcommit => 49i32,
            OpNum::Layoutget => 50i32,
            OpNum::Layoutreturn => 51i32,
            OpNum::SecinfoNoName => 52i32,
            OpNum::Sequence => 53i32,
            OpNum::SetSsv => 54i32,
            OpNum::TestStateid => 55i32,
            OpNum::WantDelegation => 56i32,
            OpNum::DestroyClientid => 57i32,
            OpNum::ReclaimComplete => 58i32,
            OpNum::Allocate => 59i32,
            OpNum::Copy => 60i32,
            OpNum::CopyNotify => 61i32,
            OpNum::Deallocate => 62i32,
            OpNum::IoAdvise => 63i32,
            OpNum::Layouterror => 64i32,
            OpNum::Layoutstats => 65i32,
            OpNum::OffloadCancel => 66i32,
            OpNum::OffloadStatus => 67i32,
            OpNum::ReadPlus => 68i32,
            OpNum::Seek => 69i32,
            OpNum::WriteSame => 70i32,
            OpNum::Clone => 71i32,
            OpNum::Getxattr => 72i32,
            OpNum::Setxattr => 73i32,
            OpNum::Listxattr => 74i32,
            OpNum::Removexattr => 75i32,
            OpNum::LastOne => 76i32,
            OpNum::Illegal => 10044i32,
        }
    }

    fn to_i32(&self) -> (r: i32) {
        match self {
            OpNum::Null => 0,
            OpNum::Compound => 1,
            OpNum::Access => 3,
            OpNum::Close => 4,
            OpNum::Commit => 5,
            OpNum::Create => 6,
            OpNum::Delegpurge => 7,
            OpNum::Delegreturn => 8,
            OpNum::Getattr => 9,
            OpNum::Getfh => 10,
            OpNum::Link => 11,
            OpNum::Lock => 12,
            OpNum::Lockt => 13,
            OpNum::Locku => 14,
            OpNum::Lookup => 15,
            OpNum::Lookupp => 16,
            OpNum::Nverify => 17,
            OpNum::Open => 18,
            OpNum::Openattr => 19,
            OpNum::OpenConfirm => 20,
            OpNum::OpenDowngrade => 21,
            OpNum::Putfh => 22,
            OpNum::Putpubfh => 23,
            OpNum::Putrootfh => 24,
            OpNum::Read => 25,
            OpNum::Readdir => 26,
            OpNum::Readlink => 27,
            OpNum::Remove => 28,
            OpNum::Rename => 29,
            OpNum::Renew => 30,
            OpNum::Restorefh => 31,
            OpNum::Savefh => 32,
            OpNum::Secinfo => 33,
            OpNum::Setattr => 34,
            OpNum::Setclientid => 35,
            OpNum::SetclientidConfirm => 36,
            OpNum::Verify => 37,
            OpNum::Write => 38,
            OpNum::ReleaseLockowner => 39,
            OpNum::BackchannelCtl => 40,
            OpNum::BindConnToSession => 41,
            OpNum::ExchangeId => 42,
            OpNum::CreateSession => 43,
            OpNum::DestroySession => 44,
            OpNum::FreeStateid => 45,
            OpNum::GetDirDelegation => 46,
            OpNum::Getdeviceinfo => 47,
            OpNum::Getdevicelist => 48,
            OpNum::Layoutcommit => 49,
            OpNum::Layoutget => 50,
            OpNum::Layoutreturn => 51,
            OpNum::SecinfoNoName => 52,
            OpNum::Sequence => 53,
            OpNum::SetSsv => 54,
            OpNum::TestStateid => 55,
            OpNum::WantDelegation => 56,
            OpNum::DestroyClientid => 57,
            OpNum::ReclaimComplete => 58,
            OpNum::Allocate => 59,
            OpNum::Copy => 60,
            OpNum::CopyNotify => 61,
            OpNum::Deallocate => 62,
            OpNum::IoAdvise => 63,
            OpNum::Layouterror => 64,
            OpNum::Layoutstats => 65,
            OpNum::OffloadCancel => 66,
            OpNum::OffloadStatus => 67,
            OpNum::ReadPlus => 68,
            OpNum::Seek => 69,
            OpNum::WriteSame => 70,
            OpNum::Clone => 71,
            OpNum::Getxattr => 72,
            OpNum::Setxattr => 73,
            OpNum::Listxattr => 74,
            OpNum::Removexattr => 75,
            OpNum::LastOne => 76,
            OpNum::Illegal => 10044,
        }
    }
}

impl Serialize for OpNum {
    open spec fn encodable(&self) -> bool {
        true
    }

    open spec fn encoding(&self) -> Seq<u8> {
        enum_encoding(self.discriminant())
    }

    fn serialize(&self, dest: &mut Vec<u8>) -> (r: Result<(), Error>) {
        serialize_enum(self, dest);
        Ok(())
    }
}

impl DeserializeEnum for OpNum {
    open spec fn of_discriminant(d: i32) -> Option<OpNum> {
        if d == 0i32 {
            Some(OpNum::Null)
        } else if d == 1i32 {
            Some(OpNum::Compound)
        } else if d == 3i32 {
            Some(OpNum::Access)
        } else if d == 4i32 {
            Some(OpNum::Close)
        } else if d == 5i32 {
            Some(OpNum::Commit)
        } else if d == 6i32 {
            Some(OpNum::Create)
        } else if d == 7i32 {
            Some(OpNum::Delegpurge)
        } else if d == 8i32 {
            Some(OpNum::Delegreturn)
        } else if d == 9i32 {
            Some(OpNum::Getattr)
        } else if d == 10i32 {
            Some(OpNum::Getfh)
        } else if d == 11i32 {
            Some(OpNum::Link)
        } else if d == 12i32 {
            Some(OpNum::Lock)
        } else if d == 13i32 {
            Some(OpNum::Lockt)
        } else if d == 14i32 {
            Some(OpNum::Locku)
        } else if d == 15i32 {
            Some(OpNum::Lookup)
        } else if d == 16i32 {
            Some(OpNum::Lookupp)
        } else if d == 17i32 {
            Some(OpNum::Nverify)
        } else if d == 18i32 {
            Some(OpNum::Open)
        } else if d == 19i32 {
            Some(OpNum::Openattr)
        } else if d == 20i32 {
            Some(OpNum::OpenConfirm)
        } else if d == 21i32 {
            Some(OpNum::OpenDowngrade)
        } else if d == 22i32 {
            Some(OpNum::Putfh)
        } else if d == 23i32 {
            Some(OpNum::Putpubfh)
        } else if d == 24i32 {
            Some(OpNum::Putrootfh)
        } else if d == 25i32 {
            Some(OpNum::Read)
        } else if d == 26i32 {
            Some(OpNum::Readdir)
        } else if d == 27i32 {
            Some(OpNum::Readlink)
        } else if d == 28i32 {
            Some(OpNum::Remove)
        } else if d == 29i32 {
            Some(OpNum::Rename)
        } else if d == 30i32 {
            Some(OpNum::Renew)
        } else if d == 31i32 {
            Some(OpNum::Restorefh)
        } else if d == 32i32 {
            Some(OpNum::Savefh)
        } else if d == 33i32 {
            Some(OpNum::Secinfo)
        } else if d == 34i32 {
            Some(OpNum::Setattr)
        } else if d == 35i32 {
            Some(OpNum::Setclientid)
        } else if d == 36i32 {
            Some(OpNum::SetclientidConfirm)
        } else if d == 37i32 {
            Some(OpNum::Verify)
        } else if d == 38i32 {
            Some(OpNum::Write)
        } else if d == 39i32 {
            Some(OpNum::ReleaseLockowner)
        } else if d == 40i32 {
            Some(OpNum::BackchannelCtl)
        } else if d == 41i32 {
            Some(OpNum::BindConnToSession)
        } else if d == 42i32 {
            Some(OpNum::ExchangeId)
        } else if d == 43i32 {
            Some(OpNum::CreateSession)
        } else if d == 44i32 {
            Some(OpNum::DestroySession)
        } else if d == 45i32 {
            Some(OpNum::FreeStateid)
        } else if d == 46i32 {
            Some(OpNum::GetDirDelegation)
        } else if d == 47i32 {
            Some(OpNum::Getdeviceinfo)
        } else if d == 48i32 {
            Some(OpNum::Getdevicelist)
        } else if d == 49i32 {
            Some(OpNum::Layoutcommit)
        } else if d == 50i32 {
            Some(OpNum::Layoutget)
        } else if d == 51i32 {
            Some(OpNum::Layoutreturn)
        } else if d == 52i32 {
            Some(OpNum::SecinfoNoName)
        } else if d == 53i32 {
            Some(OpNum::Sequence)
        } else if d == 54i32 {
            Some(OpNum::SetSsv)
        } else if d == 55i32 {
            Some(OpNum::TestStateid)
        } else if d == 56i32 {
            Some(OpNum::WantDelegation)
        } else if d == 57i32 {
            Some(OpNum::DestroyClientid)
        } else if d == 58i32 {
            Some(OpNum::ReclaimComplete)
        } else if d == 59i32 {
            Some(OpNum::Allocate)
        } else if d == 60i32 {
            Some(OpNum::Copy)
        } else if d == 61i32 {
            Some(OpNum::CopyNotify)
        } else if d == 62i32 {
            Some(OpNum::Deallocate)
        } else if d == 63i32 {
            Some(OpNum::IoAdvise)
        } else if d == 64i32 {
            Some(OpNum::Layouterror)
        } else if d == 65i32 {
            Some(OpNum::Layoutstats)
        } else if d == 66i32 {
            Some(OpNum::OffloadCancel)
        } else if d == 67i32 {
            Some(OpNum::OffloadStatus)
        } else if d == 68i32 {
            Some(OpNum::ReadPlus)
        } else if d == 69i32 {
            Some(OpNum::Seek)
        } else if d == 70i32 {
            Some(OpNum::WriteSame)
        } else if d == 71i32 {
            Some(OpNum::Clone)
        } else if d == 72i32 {
            Some(OpNum::Getxattr)
        } else if d == 73i32 {
            Some(OpNum::Setxattr)
        } else if d == 74i32 {
            Some(OpNum::Listxattr)
        } else if d == 75i32 {
            Some(OpNum::Removexattr)
        } else if d == 76i32 {
            Some(OpNum::LastOne)
        } else if d == 10044i32 {
            Some(OpNum::Illegal)
        } else {
            None
        }
    }

    fn from_i32(d: i32) -> (r: Option<OpNum>) {
        if d == 0 {
            Some(OpNum::Null)
        } else if d == 1 {
            Some(OpNum::Compound)
        } else if d == 3 {
            Some(OpNum::Access)
        } else if d == 4 {
            Some(OpNum::Close)
        } else if d == 5 {
            Some(OpNum::Commit)
        } else if d == 6 {
            Some(OpNum::Create)
        } else if d == 7 {
            Some(OpNum::Delegpurge)
        } else if d == 8 {
            Some(OpNum::Delegreturn)
        } else if d == 9 {
            Some(OpNum::Getattr)
        } else if d == 10 {
            Some(OpNum::Getfh)
        } else if d == 11 {
            Some(OpNum::Link)
        } else if d == 12 {
            Some(OpNum::Lock)
        } else if d == 13 {
            Some(OpNum::Lockt)
        } else if d == 14 {
            Some(OpNum::Locku)
        } else if d == 15 {
            Some(OpNum::Lookup)
        } else if d == 16 {
            Some(OpNum::Lookupp)
        } else if d == 17 {
            Some(OpNum::Nverify)
        } else if d == 18 {
            Some(OpNum::Open)
        } else if d == 19 {
            Some(OpNum::Openattr)
        } else if d == 20 {
            Some(OpNum::OpenConfirm)
        } else if d == 21 {
            Some(OpNum::OpenDowngrade)
        } else if d == 22 {
            Some(OpNum::Putfh)
        } else if d == 23 {
            Some(OpNum::Putpubfh)
        } else if d == 24 {
            Some(OpNum::Putrootfh)
        } else if d == 25 {
            Some(OpNum::Read)
        } else if d == 26 {
            Some(OpNum::Readdir)
        } else if d == 27 {
            Some(OpNum::Readlink)
        } else if d == 28 {
            Some(OpNum::Remove)
        } else if d == 29 {
            Some(OpNum::Rename)
        } else if d == 30 {
            Some(OpNum::Renew)
        } else if d == 31 {
            Some(OpNum::Restorefh)
        } else if d == 32 {
            Some(OpNum::Savefh)
        } else if d == 33 {
            Some(OpNum::Secinfo)
        } else if d == 34 {
            Some(OpNum::Setattr)
        } else if d == 35 {
            Some(OpNum::Setclientid)
        } else if d == 36 {
            Some(OpNum::SetclientidConfirm)
        } else if d == 37 {
            Some(OpNum::Verify)
        } else if d == 38 {
            Some(OpNum::Write)
        } else if d == 39 {
            Some(OpNum::ReleaseLockowner)
        } else if d == 40 {
            Some(OpNum::BackchannelCtl)
        } else if d == 41 {
            Some(OpNum::BindConnToSession)
        } else if d == 42 {
            Some(OpNum::ExchangeId)
        } else if d == 43 {
            Some(OpNum::CreateSession)
        } else if d == 44 {
            Some(OpNum::DestroySession)
        } else if d == 45 {
            Some(OpNum::FreeStateid)
        } else if d == 46 {
            Some(OpNum::GetDirDelegation)
        } else if d == 47 {
            Some(OpNum::Getdeviceinfo)
        } else if d == 48 {
            Some(OpNum::Getdevicelist)
        } else if d == 49 {
            Some(OpNum::Layoutcommit)
        } else if d == 50 {
            Some(OpNum::Layoutget)
        } else if d == 51 {
            Some(OpNum::Layoutreturn)
        } else if d == 52 {
            Some(OpNum::SecinfoNoName)
        } else if d == 53 {
            Some(OpNum::Sequence)
        } else if d == 54 {
            Some(OpNum::SetSsv)
        } else if d == 55 {
            Some(OpNum::TestStateid)
        } else if d == 56 {
            Some(OpNum::WantDelegation)
        } else if d == 57 {
            Some(OpNum::DestroyClientid)
        } else if d == 58 {
            Some(OpNum::ReclaimComplete)
        } else if d == 59 {
            Some(OpNum::Allocate)
        } else if d == 60 {
            Some(OpNum::Copy)
        } else if d == 61 {
            Some(OpNum::CopyNotify)
        } else if d == 62 {
            Some(OpNum::Deallocate)
        } else if d == 63 {
            Some(OpNum::IoAdvise)
        } else if d == 64 {
            Some(OpNum::Layouterror)
        } else if d == 65 {
            Some(OpNum::Layoutstats)
        } else if d == 66 {
            Some(OpNum::OffloadCancel)
        } else if d == 67 {
            Some(OpNum::OffloadStatus)
        } else if d == 68 {
            Some(OpNum::ReadPlus)
        } else if d == 69 {
            Some(OpNum::Seek)
        } else if d == 70 {
            Some(OpNum::WriteSame)
        } else if d == 71 {
            Some(OpNum::Clone)
        } else if d == 72 {
            Some(OpNum::Getxattr)
        } else if d == 73 {
            Some(OpNum::Setxattr)
        } else if d == 74 {
            Some(OpNum::Listxattr)
        } else if d == 75 {
            Some(OpNum::Removexattr)
        } else if d == 76 {
            Some(OpNum::LastOne)
        } else if d == 10044 {
            Some(OpNum::Illegal)
        } else {
            None
        }
    }
}

impl Deserialize for OpNum {
    open spec fn decoding(s: Seq<u8>, at: int) -> Parsed<OpNum> {
        enum_decoding::<OpNum>(s, at)
    }

    fn deserialize(src: &mut Cursor) -> (r: Result<OpNum, Error>) {
        deserialize_enum(src)
    }
}

/// The status of an NFS version 4 operation.
#[allow(non_camel_case_types)]
#[derive(Debug, Clone, Copy, PartialEq, Eq)]
pub enum Status {
    Success,
    ErrPerm,
    ErrNoent,
    ErrIo,
    ErrNxio,
    ErrAccess,
    ErrExist,
    ErrXdev,
    ErrNotDir,
    ErrIsDir,
    ErrInval,
    ErrFbig,
    ErrNoSpc,
    ErrRofs,
    ErrMlink,
    ErrNameTooLong,
    ErrNotEmpty,
    ErrDquot,
    ErrStale,
    ErrBadHandle,
    ErrBadCookie,
    ErrNotSupp,
    ErrTooSmall,
    ErrServerFault,
    ErrBadType,
    ErrDelay,
    ErrSame,
    ErrDenied,
    ErrExpired,
    ErrLocked,
    ErrGrace,
    ErrFhexpired,
    ErrShareDenied,
    ErrWrongSec,
    ErrClidInuse,
    ErrResource,
    ErrMoved,
    ErrNoFilehandle,
    ErrMinorVersMismatch,
    ErrStaleClientid,
    ErrStaleStateid,
    ErrOldStateid,
    ErrBadStateid,
    ErrBadSeqid,
    ErrNotSame,
    ErrLockRange,
    ErrSymlink,
    ErrRestorefh,
    ErrLeaseMoved,
    ErrAttrnotsupp,
    ErrNoGrace,
    ErrReclaimBad,
    ErrReclaimConflict,
    ErrBadxdr,
    ErrLocksHeld,
    ErrOpenmode,
    ErrBadowner,
    ErrBadchar,
    ErrBadname,
    ErrBadRange,
    ErrLockNotsupp,
    ErrOpIllegal,
    ErrDeadlock,
    ErrFileOpen,
    ErrAdminRevoked,
    ErrCbPathDown,
    ErrBadiomode,
    ErrBadlayout,
    ErrBadSessionDigest,
    ErrBadsession,
    ErrBadslot,
    ErrCompleteAlready,
    ErrConnNotBoundToSession,
    ErrDelegAlreadyWanted,
    ErrBackChanBusy,
    ErrLayouttrylater,
    ErrLayoutunavailable,
    ErrNomatchingLayout,
    ErrRecallconflict,
    ErrUnknownLayouttype,
    ErrSeqMisordered,
    ErrSequencePos,
    ErrReqTooBig,
    ErrRepTooBig,
    ErrRepTooBigToCache,
    ErrRetryUncachedRep,
    ErrUnsafeCompound,
    ErrTooManyOps,
    ErrOpNotInSession,
    ErrHashAlgUnsupp,
    ErrClientidBusy,
    ErrPnfsIoHole,
    ErrSeqFalseRetry,
    ErrBadHighSlot,
    ErrDeadsession,
    ErrEncrAlgUnsupp,
    ErrPnfsNoLayout,
    ErrNotOnlyOp,
    ErrWrongCred,
    ErrWrongType,
    ErrDirdelegUnavail,
    ErrRejectDeleg,
    ErrReturnconflict,
    ErrDelegRevoked,
    ErrPartnerNotsupp,
    ErrPartnerNoAuth,
    ErrUnionNotsupp,
    ErrOffloadDenied,
    ErrWrongLfs,
    ErrBadlabel,
    ErrOffloadNoReqs,
    ErrNoxattr,
    ErrXattr2big,
    ErrReplay,
}

impl View for Status {
    type V = Status;

    open spec fn view(&self) -> Status {
        *self
    }
}

impl SerializeEnum for Status {
    open spec fn discriminant(&self) -> i32 {
        match self {
            Status::Success => 0i32,
            Status::ErrPerm => 1i32,
            Status::ErrNoent => 2i32,
            Status::ErrIo => 5i32,
            Status::ErrNxio => 6i32,
            Status::ErrAccess => 13i32,
            Status::ErrExist => 17i32,
            Status::ErrXdev => 18i32,
            Status::ErrNotDir => 20i32,
            Status::ErrIsDir => 21i32,
            Status::ErrInval => 22i32,
            Status::ErrFbig => 27i32,
            Status::ErrNoSpc => 28i32,
            Status::ErrRofs => 30i32,
            Status::ErrMlink => 31i32,
            Status::ErrNameTooLong => 63i32,
            Status::ErrNotEmpty => 66i32,
            Status::ErrDquot => 69i32,
            Status::ErrStale => 70i32,
            Status::ErrBadHandle => 10001i32,
            Status::ErrBadCookie => 10003i32,
            Status::ErrNotSupp => 10004i32,
            Status::ErrTooSmall => 10005i32,
            Status::ErrServerFault => 10006i32,
            Status::ErrBadType => 10007i32,
            Status::ErrDelay => 10008i32,
            Status::ErrSame => 10009i32,
            Status::ErrDenied => 10010i32,
            Status::ErrExpired => 10011i32,
            Status::ErrLocked => 10012i32,
            Status::ErrGrace => 10013i32,
            Status::ErrFhexpired => 10014i32,
            Status::ErrShareDenied => 10015i32,
            Status::ErrWrongSec => 10016i32,
            Status::ErrClidInuse => 10017i32,
            Status::ErrResource => 10018i32,
            Status::ErrMoved => 10019i32,
            Status::ErrNoFilehandle => 10020i32,
            Status::ErrMinorVersMismatch => 10021i32,
            Status::ErrStaleClientid => 10022i32,
            Status::ErrStaleStateid => 10023i32,
            Status::ErrOldStateid => 10024i32,
            Status::ErrBadStateid => 10025i32,
            Status::ErrBadSeqid => 10026i32,
            Status::ErrNotSame => 10027i32,
            Status::ErrLockRange => 10028i32,
            Status::ErrSymlink => 10029i32,
            Status::ErrRestorefh => 10030i32,
            Status::ErrLeaseMoved => 10031i32,
            Status::ErrAttrnotsupp => 10032i32,
            Status::ErrNoGrace => 10033i32,
            Status::ErrReclaimBad => 10034i32,
            Status::ErrReclaimConflict => 10035i32,
            Status::ErrBadxdr => 10036i32,
            Status::ErrLocksHeld => 10037i32,
            Status::ErrOpenmode => 10038i32,
            Status::ErrBadowner => 10039i32,
            Status::ErrBadchar => 10040i32,
            Status::ErrBadname => 10041i32,
            Status::ErrBadRange => 10042i32,
            Status::ErrLockNotsupp => 10043i32,
            Status::ErrOpIllegal => 10044i32,
            Status::ErrDeadlock => 10045i32,
            Status::ErrFileOpen => 10046i32,
            Status::ErrAdminRevoked => 10047i32,
            Status::ErrCbPathDown => 10048i32,
            Status::ErrBadiomode => 10049i32,
            Status::ErrBadlayout => 10050i32,
            Status::ErrBadSessionDigest => 10051i32,
            Status::ErrBadsession => 10052i32,
            Status::ErrBadslot => 10053i32,
            Status::ErrCompleteAlready => 10054i32,
            Status::ErrConnNotBoundToSession => 10055i32,
            Status::ErrDelegAlreadyWanted => 10056i32,
            Status::ErrBackChanBusy => 10057i32,
            Status::ErrLayouttrylater => 10058i32,
            Status::ErrLayoutunavailable => 10059i32,
            Status::ErrNomatchingLayout => 10060i32,
            Status::ErrRecallconflict => 10061i32,
            Status::ErrUnknownLayouttype => 10062i32,
            Status::ErrSeqMisordered => 10063i32,
            Status::ErrSequencePos => 10064i32,
            Status::ErrReqTooBig => 10065i32,
            Status::ErrRepTooBig => 10066i32,
            Status::ErrRepTooBigToCache => 10067i32,
            Status::ErrRetryUncachedRep => 10068i32,
            Status::ErrUnsafeCompound => 10069i32,
            Status::ErrTooManyOps => 10070i32,
            Status::ErrOpNotInSession => 10071i32,
            Status::ErrHashAlgUnsupp => 10072i32,
            Status::ErrClientidBusy => 10074i32,
            Status::ErrPnfsIoHole => 10075i32,
            Status::ErrSeqFalseRetry => 10076i32,
            Status::ErrBadHighSlot => 10077i32,
            Status::ErrDeadsession => 10078i32,
            Status::ErrEncrAlgUnsupp => 10079i32,
            Status::ErrPnfsNoLayout => 10080i32,
            Status::ErrNotOnlyOp => 10081i32,
            Status::ErrWrongCred => 10082i32,
            Status::ErrWrongType => 10083i32,
            Status::ErrDirdelegUnavail => 10084i32,
            Status::ErrRejectDeleg => 10085i32,
            Status::ErrReturnconflict => 10086i32,
            Status::ErrDelegRevoked => 10087i32,
            Status::ErrPartnerNotsupp => 10088i32,
            Status::ErrPartnerNoAuth => 10089i32,
            Status::ErrUnionNotsupp => 10090i32,
            Status::ErrOffloadDenied => 10091i32,
            Status::ErrWrongLfs => 10092i32,
            Status::ErrBadlabel => 10093i32,
            Status::ErrOffloadNoReqs => 10094i32,
            Status::ErrNoxattr => 10095i32,
            Status::ErrXattr2big => 10096i32,
            Status::ErrReplay => 11001i32,
        }
    }

    fn to_i32(&self) -> (r: i32) {
        match self {
            Status::Success => 0,
            Status::ErrPerm => 1,
            Status::ErrNoent => 2,
            Status::ErrIo => 5,
            Status::ErrNxio => 6,
            Status::ErrAccess => 13,
            Status::ErrExist => 17,
            Status::ErrXdev => 18,
            Status::ErrNotDir => 20,
            Status::ErrIsDir => 21,
            Status::ErrInval => 22,
            Status::ErrFbig => 27,
            Status::ErrNoSpc => 28,
            Status::ErrRofs => 30,
            Status::ErrMlink => 31,
            Status::ErrNameTooLong => 63,
            Status::ErrNotEmpty => 66,
            Status::ErrDquot => 69,
            Status::ErrStale => 70,
            Status::ErrBadHandle => 10001,
            Status::ErrBadCookie => 10003,
            Status::ErrNotSupp => 10004,
            Status::ErrTooSmall => 10005,
            Status::ErrServerFault => 10006,
            Status::ErrBadType => 10007,
            Status::ErrDelay => 10008,
            Status::ErrSame => 10009,
            Status::ErrDenied => 10010,
            Status::ErrExpired => 10011,
            Status::ErrLocked => 10012,
            Status::ErrGrace => 10013,
            Status::ErrFhexpired => 10014,
            Status::ErrShareDenied => 10015,
            Status::ErrWrongSec => 10016,
            Status::ErrClidInuse => 10017,
            Status::ErrResource => 10018,
            Status::ErrMoved => 10019,
            Status::ErrNoFilehandle => 10020,
            Status::ErrMinorVersMismatch => 10021,
            Status::ErrStaleClientid => 10022,
            Status::ErrStaleStateid => 10023,
            Status::ErrOldStateid => 10024,
            Status::ErrBadStateid => 10025,
            Status::ErrBadSeqid => 10026,
            Status::ErrNotSame => 10027,
            Status::ErrLockRange => 10028,
            Status::ErrSymlink => 10029,
            Status::ErrRestorefh => 10030,
            Status::ErrLeaseMoved => 10031,
            Status::ErrAttrnotsupp => 10032,
            Status::ErrNoGrace => 10033,
            Status::ErrReclaimBad => 10034,
            Status::ErrReclaimConflict => 10035,
            Status::ErrBadxdr => 10036,
            Status::ErrLocksHeld => 10037,
            Status::ErrOpenmode => 10038,
            Status::ErrBadowner => 10039,
            Status::ErrBadchar => 10040,
            Status::ErrBadname => 10041,
            Status::ErrBadRange => 10042,
            Status::ErrLockNotsupp => 10043,
            Status::ErrOpIllegal => 10044,
            Status::ErrDeadlock => 10045,
            Status::ErrFileOpen => 10046,
            Status::ErrAdminRevoked => 10047,
            Status::ErrCbPathDown => 10048,
            Status::ErrBadiomode => 10049,
            Status::ErrBadlayout => 10050,
            Status::ErrBadSessionDigest => 10051,
            Status::ErrBadsession => 10052,
            Status::ErrBadslot => 10053,
            Status::ErrCompleteAlready => 10054,
            Status::ErrConnNotBoundToSession => 10055,
            Status::ErrDelegAlreadyWanted => 10056,
            Status::ErrBackChanBusy => 10057,
            Status::ErrLayouttrylater => 10058,
            Status::ErrLayoutunavailable => 10059,
            Status::ErrNomatchingLayout => 10060,
            Status::ErrRecallconflict => 10061,
            Status::ErrUnknownLayouttype => 10062,
            Status::ErrSeqMisordered => 10063,
            Status::ErrSequencePos => 10064,
            Status::ErrReqTooBig => 10065,
            Status::ErrRepTooBig => 10066,
            Status::ErrRepTooBigToCache => 10067,
            Status::ErrRetryUncachedRep => 10068,
            Status::ErrUnsafeCompound => 10069,
            Status::ErrTooManyOps => 10070,
            Status::ErrOpNotInSession => 10071,
            Status::ErrHashAlgUnsupp => 10072,
            Status::ErrClientidBusy => 10074,
            Status::ErrPnfsIoHole => 10075,
            Status::ErrSeqFalseRetry => 10076,
            Status::ErrBadHighSlot => 10077,
            Status::ErrDeadsession => 10078,
            Status::ErrEncrAlgUnsupp => 10079,
            Status::ErrPnfsNoLayout => 10080,
            Status::ErrNotOnlyOp => 10081,
            Status::ErrWrongCred => 10082,
            Status::ErrWrongType => 10083,
            Status::ErrDirdelegUnavail => 10084,
            Status::ErrRejectDeleg => 10085,
            Status::ErrReturnconflict => 10086,
            Status::ErrDelegRevoked => 10087,
            Status::ErrPartnerNotsupp => 10088,
            Status::ErrPartnerNoAuth => 10089,
            Status::ErrUnionNotsupp => 10090,
            Status::ErrOffloadDenied => 10091,
            Status::ErrWrongLfs => 10092,
            Status::ErrBadlabel => 10093,
            Status::ErrOffloadNoReqs => 10094,
            Status::ErrNoxattr => 10095,
            Status::ErrXattr2big => 10096,
            Status::ErrReplay => 11001,
        }
    }
}

impl Serialize for Status {
    open spec fn encodable(&self) -> bool {
        true
    }

    open spec fn encoding(&self) -> Seq<u8> {
        enum_encoding(self.discriminant())
    }

    fn serialize(&self, dest: &mut Vec<u8>) -> (r: Result<(), Error>) {
        serialize_enum(self, dest);
        Ok(())
    }
}

impl Default for Status {
    fn default() -> (r: Status)
        ensures
            r == Status::Success,
    {
        Status::Success
    }
}

/// The state a `COMPOUND` runs in.
#[derive(Debug)]
pub struct Compound {}

/// One operation to run, with its arguments.
#[derive(Debug)]
pub struct Request {
    pub argop: OpNum,
    pub uin: Argument,
}

/// The arguments of an operation, by operation.
#[derive(Debug)]
pub enum Argument {
    Null(null::Args),
    Compound(compound::Args),
    Access,
}

/// The result of one operation.
#[derive(Debug)]
pub struct Response {
    pub status: Status,
    pub resop: OpNum,
    pub uin: Data,
}

/// The results of an operation, by operation.
#[derive(Debug)]
pub enum Data {
    Null(null::Resp),
    Compound(compound::Resp),
}

/// The result of a `NULL` operation: success.
pub open spec fn null_response(r: Response) -> bool {
    r.status == Status::Success && r.resop == OpNum::Null && r.uin is Null
}

/// The encoding of a result without its operation code.
pub open spec fn data_encoding(d: Data) -> Seq<u8>
    decreases d, 1nat,
{
    match d {
        Data::Null(_) => Seq::empty(),
        Data::Compound(resp) => resp.status.encoding() + resp.tag.encoding() + be32_bytes(
            resp.res_array@.len() as u32,
        ) + responses_encoding(resp.res_array@),
    }
}

/// A result whose lengths all fit in 32 bits: the tag and the number of
/// results of a `COMPOUND`, and those of the results within.
pub open spec fn data_encodable(d: Data) -> bool
    decreases d, 1nat,
{
    match d {
        Data::Null(_) => true,
        Data::Compound(resp) => resp.tag.encodable() && resp.res_array@.len() <= u32::MAX
            && responses_encodable(resp.res_array@),
    }
}

/// Results whose lengths all fit in 32 bits.
pub open spec fn responses_encodable(s: Seq<Response>) -> bool
    decreases s, 0nat,
{
    if s.len() == 0 {
        true
    } else {
        responses_encodable(s.drop_last()) && data_encodable(s.last().uin)
    }
}

/// Results that fit have prefixes that fit.
proof fn lemma_responses_encodable_prefix(s: Seq<Response>, k: int)
    requires
        0 <= k <= s.len(),
        responses_encodable(s),
    ensures
        responses_encodable(s.take(k)),
    decreases s.len(),
{
    if k < s.len() {
        assert(s.drop_last().take(k) =~= s.take(k));
        lemma_responses_encodable_prefix(s.drop_last(), k);
    } else {
        assert(s.take(k) =~= s);
    }
}

/// The encoding of a list of results, without its length.
pub open spec fn responses_encoding(s: Seq<Response>) -> Seq<u8>
    decreases s, 0nat,
{
    if s.len() == 0 {
        Seq::empty()
    } else {
        responses_encoding(s.drop_last()) + s.last().resop.encoding() + data_encoding(s.last().uin)
    }
}

impl Request {
    /// The request that a version 4 call of procedure `call.proc` carries:
    /// `NULL`, which takes no arguments; a number of no operation is
    /// `EnumDiscMismatch`, any other operation `Unsupported`. Nothing is read
    /// from `input`.
    pub fn deserialize_from_rpc(call: &call_body, input: &mut Cursor) -> (r: Result<Request, Error>)
        ensures
            *final(input) == *old(input),
            match OpNum::of_discriminant(call.proc as i32) {
                None => r == Err::<Request, Error>(Error::EnumDiscMismatch),
                Some(OpNum::Null) => r matches Ok(req) && req.argop == OpNum::Null && req.uin is Null,
                Some(_) => r == Err::<Request, Error>(Error::IO(IoErrorKind::Unsupported)),
            },
    {
        let argop = match OpNum::from_i32(#[verifier::truncate] (call.proc as i32)) {
            Some(op) => op,
            None => return Err(Error::EnumDiscMismatch),
        };
        match argop {
            OpNum::Null => Ok(Request { argop, uin: Argument::Null(null::Args {}) }),
            _ => Err(Error::IO(IoErrorKind::Unsupported)),
        }
    }

    /// Runs the operation: `NULL` and `COMPOUND` run; any other answers
    /// `ErrInval`.
    pub fn execute(&self) -> (r: Result<Response, Error>)
        requires
            self.uin matches Argument::Compound(args) ==> compound::runnable(args.arg_array@),
        ensures
            match self.uin {
                Argument::Null(_) => r matches Ok(resp) && null_response(resp),
                Argument::Compound(args) => r matches Ok(resp) && compound::compound_result(args, resp),
                Argument::Access => r matches Ok(resp) && resp.status == Status::ErrInval
                    && resp.resop == OpNum::Null && resp.uin is Null,
            },
    {
        match &self.uin {
            Argument::Null(args) => args.execute(),
            Argument::Compound(args) => args.execute(),
            _ => Ok(Response { status: Status::ErrInval, resop: OpNum::Null, uin: Data::Null(null::Resp {}) }),
        }
    }
}

/// Appends the encoding of a list of results.
fn serialize_responses(s: &Vec<Response>, dest: &mut Vec<u8>) -> (r: Result<(), Error>)
    ensures
        r is Ok <==> responses_encodable(s@),
        r is Ok ==> final(dest)@ == old(dest)@ + responses_encoding(s@),
        r is Err ==> r == Err::<(), Error>(invalid_data()),
    decreases s@, 0nat,
{
    let mut i: usize = 0;
    while i < s.len()
        invariant
            0 <= i <= s@.len(),
            responses_encodable(s@.take(i as int)),
            dest@ == old(dest)@ + responses_encoding(s@.take(i as int)),
        decreases s@.len() - i,
    {
        let ghost before = dest@;
        serialize_enum(&s[i].resop, dest);
        assert(s@.take(i + 1).drop_last() =~= s@.take(i as int));
        proof {
            assert(decreases_to!(s@ => s@[i as int]));
        }
        if serialize_data(&s[i].uin, dest).is_err() {
            proof {
                if responses_encodable(s@) {
                    lemma_responses_encodable_prefix(s@, i + 1);
                }
            }
            return Err(Error::IO(IoErrorKind::InvalidData));
        }
        i = i + 1;
        assert(dest@ =~= old(dest)@ + responses_encoding(s@.take(i as int)));
    }
    assert(s@.take(s@.len() as int) =~= s@);
    Ok(())
}

/// Appends the encoding of a result without its operation code.
fn serialize_data(d: &Data, dest: &mut Vec<u8>) -> (r: Result<(), Error>)
    ensures
        r is Ok <==> data_encodable(*d),
        r is Ok ==> final(dest)@ == old(dest)@ + data_encoding(*d),
        r is Err ==> r == Err::<(), Error>(invalid_data()),
    decreases *d, 1nat,
{
    match d {
        Data::Null(_) => Ok(()),
        Data::Compound(resp) => {
            let ghost start = dest@;
            resp.status.serialize(dest)?;
            resp.tag.serialize(dest)?;
            let n = match crate::encoding::usize_to_u32(resp.res_array.len()) {
                Some(n) => n,
                None => return Err(Error::IO(IoErrorKind::InvalidData)),
            };
            crate::encoding::write_be_u32(dest, n);
            let ghost mid = dest@;
            serialize_responses(&resp.res_array, dest)?;
            assert(dest@ =~= start + data_encoding(*d));
            Ok(())
        },
    }
}

impl Response {
    /// Appends the encoding of the result without its operation code; a
    /// result with a length that does not fit in 32 bits is refused with
    /// `InvalidData`.
    pub fn serialize_no_resop(&self, dest: &mut Vec<u8>) -> (r: Result<(), Error>)
        ensures
            r is Ok <==> data_encodable(self.uin),
            r is Ok ==> final(dest)@ == old(dest)@ + data_encoding(self.uin),
            r is Err ==> r == Err::<(), Error>(invalid_data()),
    {
        serialize_data(&self.uin, dest)
    }
}

/// [`compound::Args`] with its fields by their views.
pub struct CompoundArgsView {
    pub tag: Seq<char>,
    pub minor_version: u32,
    pub arg_array: Seq<RequestView>,
}

/// [`Request`] with its arguments by their views.
pub struct RequestView {
    pub argop: OpNum,
    pub uin: ArgumentView,
}

/// [`Argument`] with its arguments by their views.
pub enum ArgumentView {
    Null,
    Compound(CompoundArgsView),
    Access,
}

/// The view of `COMPOUND` arguments.
pub open spec fn compound_args_view(a: compound::Args) -> CompoundArgsView
    decreases a, 1nat,
{
    CompoundArgsView { tag: a.tag@, minor_version: a.minor_version, arg_array: requests_view(a.arg_array@) }
}

/// The views of a list of requests.
pub open spec fn requests_view(s: Seq<Request>) -> Seq<RequestView>
    decreases s, 0nat,
{
    if s.len() == 0 {
        Seq::empty()
    } else {
        let r = s[0];
        seq![RequestView {
            argop: r.argop,
            uin: match r.uin {
                Argument::Null(_) => ArgumentView::Null,
                Argument::Compound(c) => ArgumentView::Compound(compound_args_view(c)),
                Argument::Access => ArgumentView::Access,
            },
        }] + requests_view(s.skip(1))
    }
}

impl View for compound::Args {
    type V = CompoundArgsView;

    open spec fn view(&self) -> CompoundArgsView {
        compound_args_view(*self)
    }
}

impl View for Request {
    type V = RequestView;

    open spec fn view(&self) -> RequestView {
        requests_view(seq![*self])[0]
    }
}

/// Decoding `COMPOUND` arguments: the tag, the minor version, then the
/// counted requests.
pub open spec fn compound_args_decoding(s: Seq<u8>, at: int) -> Parsed<CompoundArgsView>
    decreases s.len() - at, 2nat, 0nat,
{
    match <String as Deserialize>::decoding(s, at) {
        Err(e) => Err(e),
        Ok((tag, p1)) => match spec_u32(s, p1) {
            Err(e) => Err(e),
            Ok((minor_version, p2)) => match spec_u32(s, p2) {
                Err(e) => Err(e),
                Ok((n, p3)) => if p3 <= at {
                    Err(invalid_data())
                } else {
                    match requests_decoding(s, p3, n as nat) {
                        Err(e) => Err(e),
                        Ok((arg_array, end)) => Ok((CompoundArgsView { tag, minor_version, arg_array }, end)),
                    }
                },
            },
        },
    }
}

/// Decoding `n` requests in a row.
pub open spec fn requests_decoding(s: Seq<u8>, at: int, n: nat) -> Parsed<Seq<RequestView>>
    decreases s.len() - at, 1nat, n,
{
    if n == 0 {
        Ok((Seq::empty(), at))
    } else {
        match request_decoding(s, at) {
            Err(e) => Err(e),
            Ok((r, p)) => if p <= at || p > s.len() {
                Err(invalid_data())
            } else {
                match requests_decoding(s, p, (n - 1) as nat) {
                    Err(e) => Err(e),
                    Ok((rest, end)) => Ok((seq![r] + rest, end)),
                }
            },
        }
    }
}

/// Decoding one request: its operation, then the arguments of `NULL`
/// (none) or of a nested `COMPOUND`; any other operation is refused.
pub open spec fn request_decoding(s: Seq<u8>, at: int) -> Parsed<RequestView>
    decreases s.len() - at, 0nat, 0nat,
{
    match <OpNum as Deserialize>::decoding(s, at) {
        Err(e) => Err(e),
        Ok((argop, p)) => if p <= at || p > s.len() {
            Err(invalid_data())
        } else if argop == OpNum::Null {
            Ok((RequestView { argop, uin: ArgumentView::Null }, p))
        } else if argop == OpNum::Compound {
            match compound_args_decoding(s, p) {
                Err(e) => Err(e),
                Ok((c, end)) => Ok((RequestView { argop, uin: ArgumentView::Compound(c) }, end)),
            }
        } else {
            Err(Error::IO(IoErrorKind::InvalidInput))
        }
    }
}

/// A successful decoding moves forward and stays within the bytes.
pub proof fn lemma_compound_args_end(s: Seq<u8>, at: int)
    ensures
        compound_args_decoding(s, at) matches Ok((_, end)) ==> at < end <= s.len(),
        request_decoding(s, at) matches Ok((_, end)) ==> at < end <= s.len(),
    decreases s.len() - at, 2nat,
{
    if at < s.len() {
        match <String as Deserialize>::decoding(s, at) {
            Ok((_, p1)) => match spec_u32(s, p1) {
                Ok((_, p2)) => match spec_u32(s, p2) {
                    Ok((n, p3)) => if p3 > at {
                        lemma_requests_end(s, p3, n as nat);
                    },
                    _ => {},
                },
                _ => {},
            },
            _ => {},
        }
        match <OpNum as Deserialize>::decoding(s, at) {
            Ok((_, p)) => if at < p <= s.len() {
                lemma_compound_args_end(s, p);
            },
            _ => {},
        }
    }
}

/// Decoding a row of requests ends within the bytes, not before it began.
pub proof fn lemma_requests_end(s: Seq<u8>, at: int, n: nat)
    requires
        at <= s.len(),
    ensures
        requests_decoding(s, at, n) matches Ok((_, end)) ==> at <= end <= s.len(),
    decreases s.len() - at, 1nat,
{
    if n > 0 {
        match request_decoding(s, at) {
            Ok((_, p)) => if at < p <= s.len() {
                lemma_requests_end(s, p, (n - 1) as nat);
            },
            _ => {},
        }
    }
}

/// The error of bytes that encode no value.
fn invalid_data_error() -> (e: Error)
    ensures
        e == invalid_data(),
{
    Error::IO(IoErrorKind::InvalidData)
}

/// Decodes `COMPOUND` arguments.
fn decode_compound_args(src: &mut Cursor) -> (r: Result<compound::Args, Error>)
    requires
        old(src).wf(),
    ensures
        parsed_as(*old(src), *final(src), r, compound_args_decoding(old(src).bytes(), old(src).pos())),
    decreases old(src).bytes().len() - old(src).pos(), 2nat, 0nat,
{
    let start = src.offset();
    let tag = <String as Deserialize>::deserialize(src)?;
    let minor_version = src.read_u32()?;
    let n = src.read_u32()?;
    if src.offset() <= start {
        return Err(invalid_data_error());
    }
    let ghost p3 = src.pos();
    let arg_array = decode_requests(src, n)?;
    proof {
        lemma_requests_end(old(src).bytes(), p3, n as nat);
    }
    Ok(compound::Args { tag, minor_version, arg_array })
}

/// Decodes `n` requests in a row.
fn decode_requests(src: &mut Cursor, n: u32) -> (r: Result<Vec<Request>, Error>)
    requires
        old(src).wf(),
    ensures
        final(src).bytes() == old(src).bytes(),
        final(src).wf(),
        old(src).pos() <= final(src).pos(),
        (r matches Err(e) ==> !is_protocol_rejection(e)),
        match requests_decoding(old(src).bytes(), old(src).pos(), n as nat) {
            Ok((v, end)) => r matches Ok(x) && requests_view(x@) == v && final(src).pos() == end,
            Err(e) => r == Err::<Vec<Request>, Error>(e),
        },
    decreases old(src).bytes().len() - old(src).pos(), 1nat, n,
{
    if n == 0 {
        assert(requests_view(Seq::<Request>::empty()) =~= Seq::<RequestView>::empty());
        return Ok(Vec::new());
    }
    let start = src.offset();
    let req = decode_request(src)?;
    let pos = src.offset();
    if pos <= start || pos > src.get_ref().len() {
        return Err(invalid_data_error());
    }
    let mut rest = decode_requests(src, n - 1)?;
    let ghost tail = rest@;
    rest.insert(0, req);
    proof {
        assert(rest@.skip(1) =~= tail);
        assert(requests_view(rest@) =~= seq![requests_view(seq![req])[0]] + requests_view(tail)) by {
            assert(seq![req].skip(1) =~= Seq::<Request>::empty());
        }
    }
    Ok(rest)
}

/// Decodes one request.
fn decode_request(src: &mut Cursor) -> (r: Result<Request, Error>)
    requires
        old(src).wf(),
    ensures
        parsed_as(*old(src), *final(src), r, request_decoding(old(src).bytes(), old(src).pos())),
    decreases old(src).bytes().len() - old(src).pos(), 0nat, 0nat,
{
    let start = src.offset();
    let argop = <OpNum as Deserialize>::deserialize(src)?;
    let pos = src.offset();
    if pos <= start || pos > src.get_ref().len() {
        return Err(invalid_data_error());
    }
    match argop {
        OpNum::Null => Ok(Request { argop, uin: Argument::Null(null::Args {  }) }),
        OpNum::Compound => {
            let args = decode_compound_args(src)?;
            Ok(Request { argop, uin: Argument::Compound(args) })
        },
        _ => Err(Error::IO(IoErrorKind::InvalidInput)),
    }
}

impl Deserialize for Request {
    open spec fn decoding(s: Seq<u8>, at: int) -> Parsed<RequestView> {
        request_decoding(s, at)
    }

    fn deserialize(src: &mut Cursor) -> (r: Result<Request, Error>) {
        decode_request(src)
    }
}

impl Deserialize for compound::Args {
    open spec fn decoding(s: Seq<u8>, at: int) -> Parsed<CompoundArgsView> {
        compound_args_decoding(s, at)
    }

    fn deserialize(src: &mut Cursor) -> (r: Result<compound::Args, Error>) {
        decode_compound_args(src)
    }
}

} // verus!
