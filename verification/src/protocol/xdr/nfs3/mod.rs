//! NFS version 3 (RFC 1813) data types and their XDR encoding.
use vstd::prelude::*;
use vstd::seq_lib::lemma_concat_associative;

use crate::encoding::{be32_bytes, be64_bytes, write_be_u32};
use crate::parser::cursor::{spec_u32, Cursor};
use crate::protocol::xdr::{
    deserialize_enum, enum_decoding, enum_encoding, invalid_data, option_decoding, serialize_enum,
    Deserialize, DeserializeEnum, Serialize, SerializeEnum,
};
use crate::protocol::xdr::{lemma_holds_split, lemma_i32_u32, lemma_u32_at, RoundTrip};
use crate::rpc::{Error, IoErrorKind, Parsed};

pub mod dir;
pub mod file;
pub mod fs;
pub mod fs_object;

verus! {

broadcast use crate::encoding::lemma_keeps_prefix_trans;

/// The RPC program number of NFS.
pub const PROGRAM: u32 = 100003;

/// The NFS version served.
pub const VERSION: u32 = 3;

/// The maximum size in bytes of an opaque file handle.
pub const NFS3_FH_SIZE: u32 = 64;

/// Size in bytes of the cookie verifier of `READDIR` and `READDIRPLUS`.
pub const NFS3_COOKIE_VERF_SIZE: u32 = 8;

/// Size in bytes of the verifier of an exclusive `CREATE`.
pub const NFS3_CREATE_VERF_SIZE: u32 = 8;

/// Size in bytes of the verifier of an asynchronous `WRITE`.
pub const NFS3_WRITE_VERF_SIZE: u32 = 8;

/// Permission to read data or list a directory.
pub const ACCESS3_READ: u32 = 0x0001;

/// Permission to look up names in a directory.
pub const ACCESS3_LOOKUP: u32 = 0x0002;

/// Permission to modify existing data.
pub const ACCESS3_MODIFY: u32 = 0x0004;

/// Permission to grow a file or add directory entries.
pub const ACCESS3_EXTEND: u32 = 0x0008;

/// Permission to delete an entry.
pub const ACCESS3_DELETE: u32 = 0x0010;

/// Permission to execute a file or search a directory.
pub const ACCESS3_EXECUTE: u32 = 0x0020;

/// Length of the body of an encoded [`NFSFh3`]: three 64-bit values.
pub const NFS_FH3_LEN: u32 = 24;

/// A file name or path, as the bytes the client sent.
#[derive(Debug, PartialEq, Eq)]
pub struct NFSString(pub Vec<u8>);

impl View for NFSString {
    type V = Seq<u8>;

    open spec fn view(&self) -> Seq<u8> {
        self.0@
    }
}

impl NFSString {
    /// Length in bytes.
    pub fn len(&self) -> (r: usize)
        ensures
            r == self@.len(),
    {
        self.0.len()
    }

    /// Whether the string has no bytes.
    pub fn is_empty(&self) -> (r: bool)
        ensures
            r == (self@.len() == 0),
    {
        self.0.len() == 0
    }
}

impl Serialize for NFSString {
    open spec fn encodable(&self) -> bool {
        self.0.encodable()
    }

    open spec fn encoding(&self) -> Seq<u8> {
        self.0.encoding()
    }

    fn serialize(&self, dest: &mut Vec<u8>) -> (r: Result<(), Error>) {
        self.0.serialize(dest)
    }
}

impl Deserialize for NFSString {
    open spec fn decoding(s: Seq<u8>, at: int) -> Parsed<Seq<u8>> {
        <Vec<u8> as Deserialize>::decoding(s, at)
    }

    fn deserialize(src: &mut Cursor) -> (r: Result<NFSString, Error>) {
        Ok(NFSString(<Vec<u8> as Deserialize>::deserialize(src)?))
    }
}

impl RoundTrip for NFSString {
    proof fn lemma_roundtrip(&self, s: Seq<u8>, at: int) {
        self.0.lemma_roundtrip(s, at);
    }
}

/// The procedures of NFS version 3, by number.
#[allow(non_camel_case_types)]
#[derive(Debug, Clone, Copy, PartialEq, Eq)]
pub enum NFSProgram {
    NFSProc3Null,
    NFSProc3GetAttr,
    NFSProc3SetAttr,
    NFSProc3Lookup,
    NFSProc3Access,
    NFSProc3ReadLink,
    NFSProc3Read,
    NFSProc3Write,
    NFSProc3Create,
    NFSProc3MkDir,
    NFSProc3Symlink,
    NFSProc3MkNod,
    NFSProc3Remove,
    NFSProc3RmDir,
    NFSProc3Rename,
    NFSProc3Link,
    NFSProc3ReadDir,
    NFSProc3ReadDirPlus,
    NFSProc3FsStat,
    NFSProc3FsInfo,
    NFSProc3PathConf,
    NFSProc3Commit,
    Invalid,
}

impl View for NFSProgram {
    type V = NFSProgram;

    open spec fn view(&self) -> NFSProgram {
        *self
    }
}

impl DeserializeEnum for NFSProgram {
    open spec fn of_discriminant(d: i32) -> Option<NFSProgram> {
        if d == 0i32 {
            Some(NFSProgram::NFSProc3Null)
        } else if d == 1i32 {
            Some(NFSProgram::NFSProc3GetAttr)
        } else if d == 2i32 {
            Some(NFSProgram::NFSProc3SetAttr)
        } else if d == 3i32 {
            Some(NFSProgram::NFSProc3Lookup)
        } else if d == 4i32 {
            Some(NFSProgram::NFSProc3Access)
        } else if d == 5i32 {
            Some(NFSProgram::NFSProc3ReadLink)
        } else if d == 6i32 {
            Some(NFSProgram::NFSProc3Read)
        } else if d == 7i32 {
            Some(NFSProgram::NFSProc3Write)
        } else if d == 8i32 {
            Some(NFSProgram::NFSProc3Create)
        } else if d == 9i32 {
            Some(NFSProgram::NFSProc3MkDir)
        } else if d == 10i32 {
            Some(NFSProgram::NFSProc3Symlink)
        } else if d == 11i32 {
            Some(NFSProgram::NFSProc3MkNod)
        } else if d == 12i32 {
            Some(NFSProgram::NFSProc3Remove)
        } else if d == 13i32 {
            Some(NFSProgram::NFSProc3RmDir)
        } else if d == 14i32 {
            Some(NFSProgram::NFSProc3Rename)
        } else if d == 15i32 {
            Some(NFSProgram::NFSProc3Link)
        } else if d == 16i32 {
            Some(NFSProgram::NFSProc3ReadDir)
        } else if d == 17i32 {
            Some(NFSProgram::NFSProc3ReadDirPlus)
        } else if d == 18i32 {
            Some(NFSProgram::NFSProc3FsStat)
        } else if d == 19i32 {
            Some(NFSProgram::NFSProc3FsInfo)
        } else if d == 20i32 {
            Some(NFSProgram::NFSProc3PathConf)
        } else if d == 21i32 {
            Some(NFSProgram::NFSProc3Commit)
        } else if d == 22i32 {
            Some(NFSProgram::Invalid)
        } else {
            None
        }
    }

    fn from_i32(d: i32) -> (r: Option<NFSProgram>) {
        if d == 0 {
            Some(NFSProgram::NFSProc3Null)
        } else if d == 1 {
            Some(NFSProgram::NFSProc3GetAttr)
        } else if d == 2 {
            Some(NFSProgram::NFSProc3SetAttr)
        } else if d == 3 {
            Some(NFSProgram::NFSProc3Lookup)
        } else if d == 4 {
            Some(NFSProgram::NFSProc3Access)
        } else if d == 5 {
            Some(NFSProgram::NFSProc3ReadLink)
        } else if d == 6 {
            Some(NFSProgram::NFSProc3Read)
        } else if d == 7 {
            Some(NFSProgram::NFSProc3Write)
        } else if d == 8 {
            Some(NFSProgram::NFSProc3Create)
        } else if d == 9 {
            Some(NFSProgram::NFSProc3MkDir)
        } else if d == 10 {
            Some(NFSProgram::NFSProc3Symlink)
        } else if d == 11 {
            Some(NFSProgram::NFSProc3MkNod)
        } else if d == 12 {
            Some(NFSProgram::NFSProc3Remove)
        } else if d == 13 {
            Some(NFSProgram::NFSProc3RmDir)
        } else if d == 14 {
            Some(NFSProgram::NFSProc3Rename)
        } else if d == 15 {
            Some(NFSProgram::NFSProc3Link)
        } else if d == 16 {
            Some(NFSProgram::NFSProc3ReadDir)
        } else if d == 17 {
            Some(NFSProgram::NFSProc3ReadDirPlus)
        } else if d == 18 {
            Some(NFSProgram::NFSProc3FsStat)
        } else if d == 19 {
            Some(NFSProgram::NFSProc3FsInfo)
        } else if d == 20 {
            Some(NFSProgram::NFSProc3PathConf)
        } else if d == 21 {
            Some(NFSProgram::NFSProc3Commit)
        } else if d == 22 {
            Some(NFSProgram::Invalid)
        } else {
            None
        }
    }
}

impl Deserialize for NFSProgram {
    open spec fn decoding(s: Seq<u8>, at: int) -> Parsed<NFSProgram> {
        enum_decoding::<NFSProgram>(s, at)
    }

    fn deserialize(src: &mut Cursor) -> (r: Result<NFSProgram, Error>) {
        deserialize_enum(src)
    }
}

/// The status of an NFS version 3 operation.
#[allow(non_camel_case_types)]
#[derive(Debug, Clone, Copy, PartialEq, Eq)]
pub enum NFSStat3 {
    NFS3Ok,
    NFS3ErrPerm,
    NFS3ErrNoEnt,
    NFS3ErrIO,
    NFS3ErrNXIO,
    NFS3ErrAccess,
    NFS3ErrExist,
    NFS3ErrXdev,
    NFS3ErrNoDev,
    NFS3ErrNotDir,
    NFS3ErrIsDir,
    NFS3ErrInval,
    NFS3ErrFBig,
    NFS3ErrNoSpc,
    NFS3ErrROFS,
    NFS3ErrMLink,
    NFS3ErNameTooLong,
    NFS3ErrNotEempty,
    NFS3ErrDQout,
    NFS3ErrStale,
    NFS3ErrRemote,
    NFS3ErrBadHandle,
    NFS3ErrNotSync,
    NFS3ErrBadCookie,
    NFS3ErrNotSupp,
    NFS3ErrTooSmall,
    NFS3ErrServerFault,
    NFS3ErrBadType,
    NFS3ErrJukeBox,
}

impl View for NFSStat3 {
    type V = NFSStat3;

    open spec fn view(&self) -> NFSStat3 {
        *self
    }
}

impl SerializeEnum for NFSStat3 {
    open spec fn discriminant(&self) -> i32 {
        match self {
            NFSStat3::NFS3Ok => 0i32,
            NFSStat3::NFS3ErrPerm => 1i32,
            NFSStat3::NFS3ErrNoEnt => 2i32,
            NFSStat3::NFS3ErrIO => 5i32,
            NFSStat3::NFS3ErrNXIO => 6i32,
            NFSStat3::NFS3ErrAccess => 13i32,
            NFSStat3::NFS3ErrExist => 17i32,
            NFSStat3::NFS3ErrXdev => 18i32,
            NFSStat3::NFS3ErrNoDev => 19i32,
            NFSStat3::NFS3ErrNotDir => 20i32,
            NFSStat3::NFS3ErrIsDir => 21i32,
            NFSStat3::NFS3ErrInval => 22i32,
            NFSStat3::NFS3ErrFBig => 27i32,
            NFSStat3::NFS3ErrNoSpc => 28i32,
            NFSStat3::NFS3ErrROFS => 30i32,
            NFSStat3::NFS3ErrMLink => 31i32,
            NFSStat3::NFS3ErNameTooLong => 63i32,
            NFSStat3::NFS3ErrNotEempty => 66i32,
            NFSStat3::NFS3ErrDQout => 69i32,
            NFSStat3::NFS3ErrStale => 70i32,
            NFSStat3::NFS3ErrRemote => 71i32,
            NFSStat3::NFS3ErrBadHandle => 10001i32,
            NFSStat3::NFS3ErrNotSync => 10002i32,
            NFSStat3::NFS3ErrBadCookie => 10003i32,
            NFSStat3::NFS3ErrNotSupp => 10004i32,
            NFSStat3::NFS3ErrTooSmall => 10005i32,
            NFSStat3::NFS3ErrServerFault => 10006i32,
            NFSStat3::NFS3ErrBadType => 10007i32,
            NFSStat3::NFS3ErrJukeBox => 10008i32,
        }
    }

    fn to_i32(&self) -> (r: i32) {
        match self {
            NFSStat3::NFS3Ok => 0,
            NFSStat3::NFS3ErrPerm => 1,
            NFSStat3::NFS3ErrNoEnt => 2,
            NFSStat3::NFS3ErrIO => 5,
            NFSStat3::NFS3ErrNXIO => 6,
            NFSStat3::NFS3ErrAccess => 13,
            NFSStat3::NFS3ErrExist => 17,
            NFSStat3::NFS3ErrXdev => 18,
            NFSStat3::NFS3ErrNoDev => 19,
            NFSStat3::NFS3ErrNotDir => 20,
            NFSStat3::NFS3ErrIsDir => 21,
            NFSStat3::NFS3ErrInval => 22,
            NFSStat3::NFS3ErrFBig => 27,
            NFSStat3::NFS3ErrNoSpc => 28,
            NFSStat3::NFS3ErrROFS => 30,
            NFSStat3::NFS3ErrMLink => 31,
            NFSStat3::NFS3ErNameTooLong => 63,
            NFSStat3::NFS3ErrNotEempty => 66,
            NFSStat3::NFS3ErrDQout => 69,
            NFSStat3::NFS3ErrStale => 70,
            NFSStat3::NFS3ErrRemote => 71,
            NFSStat3::NFS3ErrBadHandle => 10001,
            NFSStat3::NFS3ErrNotSync => 10002,
            NFSStat3::NFS3ErrBadCookie => 10003,
            NFSStat3::NFS3ErrNotSupp => 10004,
            NFSStat3::NFS3ErrTooSmall => 10005,
            NFSStat3::NFS3ErrServerFault => 10006,
            NFSStat3::NFS3ErrBadType => 10007,
            NFSStat3::NFS3ErrJukeBox => 10008,
        }
    }
}

impl Serialize for NFSStat3 {
    open spec fn encodable(&self) -> bool {
        true
    }

    open spec fn encoding(&self) -> Seq<u8> {
        enum_encoding(self.discriminant())
    }

    fn serialize(&self, dest: &mut Vec<u8>) -> (r: Result<(), Error>) {
        serialize_enum(self, dest);
        Ok(())
    }
}

impl DeserializeEnum for NFSStat3 {
    open spec fn of_discriminant(d: i32) -> Option<NFSStat3> {
        if d == 0i32 {
            Some(NFSStat3::NFS3Ok)
        } else if d == 1i32 {
            Some(NFSStat3::NFS3ErrPerm)
        } else if d == 2i32 {
            Some(NFSStat3::NFS3ErrNoEnt)
        } else if d == 5i32 {
            Some(NFSStat3::NFS3ErrIO)
        } else if d == 6i32 {
            Some(NFSStat3::NFS3ErrNXIO)
        } else if d == 13i32 {
            Some(NFSStat3::NFS3ErrAccess)
        } else if d == 17i32 {
            Some(NFSStat3::NFS3ErrExist)
        } else if d == 18i32 {
            Some(NFSStat3::NFS3ErrXdev)
        } else if d == 19i32 {
            Some(NFSStat3::NFS3ErrNoDev)
        } else if d == 20i32 {
            Some(NFSStat3::NFS3ErrNotDir)
        } else if d == 21i32 {
            Some(NFSStat3::NFS3ErrIsDir)
        } else if d == 22i32 {
            Some(NFSStat3::NFS3ErrInval)
        } else if d == 27i32 {
            Some(NFSStat3::NFS3ErrFBig)
        } else if d == 28i32 {
            Some(NFSStat3::NFS3ErrNoSpc)
        } else if d == 30i32 {
            Some(NFSStat3::NFS3ErrROFS)
        } else if d == 31i32 {
            Some(NFSStat3::NFS3ErrMLink)
        } else if d == 63i32 {
            Some(NFSStat3::NFS3ErNameTooLong)
        } else if d == 66i32 {
            Some(NFSStat3::NFS3ErrNotEempty)
        } else if d == 69i32 {
            Some(NFSStat3::NFS3ErrDQout)
        } else if d == 70i32 {
            Some(NFSStat3::NFS3ErrStale)
        } else if d == 71i32 {
            Some(NFSStat3::NFS3ErrRemote)
        } else if d == 10001i32 {
            Some(NFSStat3::NFS3ErrBadHandle)
        } else if d == 10002i32 {
            Some(NFSStat3::NFS3ErrNotSync)
        } else if d == 10003i32 {
            Some(NFSStat3::NFS3ErrBadCookie)
        } else if d == 10004i32 {
            Some(NFSStat3::NFS3ErrNotSupp)
        } else if d == 10005i32 {
            Some(NFSStat3::NFS3ErrTooSmall)
        } else if d == 10006i32 {
            Some(NFSStat3::NFS3ErrServerFault)
        } else if d == 10007i32 {
            Some(NFSStat3::NFS3ErrBadType)
        } else if d == 10008i32 {
            Some(NFSStat3::NFS3ErrJukeBox)
        } else {
            None
        }
    }

    fn from_i32(d: i32) -> (r: Option<NFSStat3>) {
        if d == 0 {
            Some(NFSStat3::NFS3Ok)
        } else if d == 1 {
            Some(NFSStat3::NFS3ErrPerm)
        } else if d == 2 {
            Some(NFSStat3::NFS3ErrNoEnt)
        } else if d == 5 {
            Some(NFSStat3::NFS3ErrIO)
        } else if d == 6 {
            Some(NFSStat3::NFS3ErrNXIO)
        } else if d == 13 {
            Some(NFSStat3::NFS3ErrAccess)
        } else if d == 17 {
            Some(NFSStat3::NFS3ErrExist)
        } else if d == 18 {
            Some(NFSStat3::NFS3ErrXdev)
        } else if d == 19 {
            Some(NFSStat3::NFS3ErrNoDev)
        } else if d == 20 {
            Some(NFSStat3::NFS3ErrNotDir)
        } else if d == 21 {
            Some(NFSStat3::NFS3ErrIsDir)
        } else if d == 22 {
            Some(NFSStat3::NFS3ErrInval)
        } else if d == 27 {
            Some(NFSStat3::NFS3ErrFBig)
        } else if d == 28 {
            Some(NFSStat3::NFS3ErrNoSpc)
        } else if d == 30 {
            Some(NFSStat3::NFS3ErrROFS)
        } else if d == 31 {
            Some(NFSStat3::NFS3ErrMLink)
        } else if d == 63 {
            Some(NFSStat3::NFS3ErNameTooLong)
        } else if d == 66 {
            Some(NFSStat3::NFS3ErrNotEempty)
        } else if d == 69 {
            Some(NFSStat3::NFS3ErrDQout)
        } else if d == 70 {
            Some(NFSStat3::NFS3ErrStale)
        } else if d == 71 {
            Some(NFSStat3::NFS3ErrRemote)
        } else if d == 10001 {
            Some(NFSStat3::NFS3ErrBadHandle)
        } else if d == 10002 {
            Some(NFSStat3::NFS3ErrNotSync)
        } else if d == 10003 {
            Some(NFSStat3::NFS3ErrBadCookie)
        } else if d == 10004 {
            Some(NFSStat3::NFS3ErrNotSupp)
        } else if d == 10005 {
            Some(NFSStat3::NFS3ErrTooSmall)
        } else if d == 10006 {
            Some(NFSStat3::NFS3ErrServerFault)
        } else if d == 10007 {
            Some(NFSStat3::NFS3ErrBadType)
        } else if d == 10008 {
            Some(NFSStat3::NFS3ErrJukeBox)
        } else {
            None
        }
    }
}

impl Deserialize for NFSStat3 {
    open spec fn decoding(s: Seq<u8>, at: int) -> Parsed<NFSStat3> {
        enum_decoding::<NFSStat3>(s, at)
    }

    fn deserialize(src: &mut Cursor) -> (r: Result<NFSStat3, Error>) {
        deserialize_enum(src)
    }
}

impl RoundTrip for NFSStat3 {
    proof fn lemma_roundtrip(&self, s: Seq<u8>, at: int) {
        lemma_u32_at(s, at, self.discriminant() as u32);
        lemma_i32_u32(self.discriminant());
    }
}

/// The type of a file system object.
#[allow(non_camel_case_types)]
#[derive(Debug, Clone, Copy, PartialEq, Eq)]
pub enum FType3 {
    /// Regular file.
    NF3REG,
    /// Directory.
    NF3DIR,
    /// Block special device.
    NF3BLK,
    /// Character special device.
    NF3CHR,
    /// Symbolic link.
    NF3LNK,
    /// Socket.
    NF3SOCK,
    /// Named pipe.
    NF3FIFO,
}

impl View for FType3 {
    type V = FType3;

    open spec fn view(&self) -> FType3 {
        *self
    }
}

impl SerializeEnum for FType3 {
    open spec fn discriminant(&self) -> i32 {
        match self {
            FType3::NF3REG => 1i32,
            FType3::NF3DIR => 2i32,
            FType3::NF3BLK => 3i32,
            FType3::NF3CHR => 4i32,
            FType3::NF3LNK => 5i32,
            FType3::NF3SOCK => 6i32,
            FType3::NF3FIFO => 7i32,
        }
    }

    fn to_i32(&self) -> (r: i32) {
        match self {
            FType3::NF3REG => 1,
            FType3::NF3DIR => 2,
            FType3::NF3BLK => 3,
            FType3::NF3CHR => 4,
            FType3::NF3LNK => 5,
            FType3::NF3SOCK => 6,
            FType3::NF3FIFO => 7,
        }
    }
}

impl Serialize for FType3 {
    open spec fn encodable(&self) -> bool {
        true
    }

    open spec fn encoding(&self) -> Seq<u8> {
        enum_encoding(self.discriminant())
    }

    fn serialize(&self, dest: &mut Vec<u8>) -> (r: Result<(), Error>) {
        serialize_enum(self, dest);
        Ok(())
    }
}

impl DeserializeEnum for FType3 {
    open spec fn of_discriminant(d: i32) -> Option<FType3> {
        if d == 1i32 {
            Some(FType3::NF3REG)
        } else if d == 2i32 {
            Some(FType3::NF3DIR)
        } else if d == 3i32 {
            Some(FType3::NF3BLK)
        } else if d == 4i32 {
            Some(FType3::NF3CHR)
        } else if d == 5i32 {
            Some(FType3::NF3LNK)
        } else if d == 6i32 {
            Some(FType3::NF3SOCK)
        } else if d == 7i32 {
            Some(FType3::NF3FIFO)
        } else {
            None
        }
    }

    fn from_i32(d: i32) -> (r: Option<FType3>) {
        if d == 1 {
            Some(FType3::NF3REG)
        } else if d == 2 {
            Some(FType3::NF3DIR)
        } else if d == 3 {
            Some(FType3::NF3BLK)
        } else if d == 4 {
            Some(FType3::NF3CHR)
        } else if d == 5 {
            Some(FType3::NF3LNK)
        } else if d == 6 {
            Some(FType3::NF3SOCK)
        } else if d == 7 {
            Some(FType3::NF3FIFO)
        } else {
            None
        }
    }
}

impl Deserialize for FType3 {
    open spec fn decoding(s: Seq<u8>, at: int) -> Parsed<FType3> {
        enum_decoding::<FType3>(s, at)
    }

    fn deserialize(src: &mut Cursor) -> (r: Result<FType3, Error>) {
        deserialize_enum(src)
    }
}

impl RoundTrip for FType3 {
    proof fn lemma_roundtrip(&self, s: Seq<u8>, at: int) {
        lemma_u32_at(s, at, self.discriminant() as u32);
        lemma_i32_u32(self.discriminant());
    }
}

impl Default for FType3 {
    fn default() -> (r: FType3)
        ensures
            r == FType3::NF3REG,
    {
        FType3::NF3REG
    }
}

/// Major and minor numbers of a special device.
#[allow(non_camel_case_types)]
#[derive(Debug, Clone, Copy, PartialEq, Eq)]
pub struct SpecData3 {
    /// Major device number.
    pub specdata1: u32,
    /// Minor device number.
    pub specdata2: u32,
}

impl View for SpecData3 {
    type V = SpecData3;

    open spec fn view(&self) -> SpecData3 {
        *self
    }
}

impl Serialize for SpecData3 {
    open spec fn encodable(&self) -> bool {
        self.specdata1.encodable() && self.specdata2.encodable()
    }

    open spec fn encoding(&self) -> Seq<u8> {
        self.specdata1.encoding() + self.specdata2.encoding()
    }

    fn serialize(&self, dest: &mut Vec<u8>) -> (r: Result<(), Error>) {
        let ghost start = dest@;
        self.specdata1.serialize(dest)?;
        self.specdata2.serialize(dest)?;
        proof {
            lemma_concat_associative(start, self.specdata1.encoding(), self.specdata2.encoding());
        }
        Ok(())
    }
}

impl Deserialize for SpecData3 {
    open spec fn decoding(s: Seq<u8>, at: int) -> Parsed<SpecData3> {
        match <u32 as Deserialize>::decoding(s, at) {
            Err(e) => Err(e),
            Ok((v0, p0)) => match <u32 as Deserialize>::decoding(s, p0) {
                Err(e) => Err(e),
                Ok((v1, p1)) => Ok((SpecData3 { specdata1: v0, specdata2: v1 }, p1)),
            },
        }
    }

    fn deserialize(src: &mut Cursor) -> (r: Result<SpecData3, Error>) {
        let specdata1 = <u32 as Deserialize>::deserialize(src)?;
        let specdata2 = <u32 as Deserialize>::deserialize(src)?;
        Ok(SpecData3 { specdata1, specdata2 })
    }
}

impl RoundTrip for SpecData3 {
    #[verifier::spinoff_prover]
    #[verifier::rlimit(100)]
    proof fn lemma_roundtrip(&self, s: Seq<u8>, at: int) {
        lemma_holds_split(s, at, self.specdata1.encoding(), self.specdata2.encoding());
        self.specdata1.lemma_roundtrip(s, at);
        self.specdata2.lemma_roundtrip(s, at + self.specdata1.encoding().len());
    }
}

/// An NFS version 3 file handle: variable-length opaque data on the wire,
/// whose body is the three values here.
#[derive(Debug, Clone, Copy, PartialEq, Eq)]
pub struct NFSFh3 {
    /// Generation, for stale handle detection.
    pub gen: u64,
    /// File system identifier.
    pub fs_id: u64,
    /// File identifier within the file system.
    pub id: u64,
}

impl View for NFSFh3 {
    type V = NFSFh3;

    open spec fn view(&self) -> NFSFh3 {
        *self
    }
}

impl Default for NFSFh3 {
    fn default() -> (r: NFSFh3)
        ensures
            r == (NFSFh3 { gen: 0, fs_id: 0, id: 0 }),
    {
        NFSFh3 { gen: 0, fs_id: 0, id: 0 }
    }
}

impl Serialize for NFSFh3 {
    open spec fn encodable(&self) -> bool {
        true
    }

    open spec fn encoding(&self) -> Seq<u8> {
        be32_bytes(NFS_FH3_LEN) + be64_bytes(self.gen) + be64_bytes(self.fs_id) + be64_bytes(self.id)
    }

    fn serialize(&self, dest: &mut Vec<u8>) -> (r: Result<(), Error>) {
        write_be_u32(dest, NFS_FH3_LEN);
        self.gen.serialize(dest)?;
        self.fs_id.serialize(dest)?;
        self.id.serialize(dest)?;
        assert(dest@ =~= old(dest)@ + self.encoding());
        Ok(())
    }
}

impl Deserialize for NFSFh3 {
    open spec fn decoding(s: Seq<u8>, at: int) -> Parsed<NFSFh3> {
        match spec_u32(s, at) {
            Err(e) => Err(e),
            Ok((n, p)) => if n != NFS_FH3_LEN {
                Err(invalid_data())
            } else {
                match <u64 as Deserialize>::decoding(s, p) {
                    Err(e) => Err(e),
                    Ok((gen, p1)) => match <u64 as Deserialize>::decoding(s, p1) {
                        Err(e) => Err(e),
                        Ok((fs_id, p2)) => match <u64 as Deserialize>::decoding(s, p2) {
                            Err(e) => Err(e),
                            Ok((id, p3)) => Ok((NFSFh3 { gen, fs_id, id }, p3)),
                        },
                    },
                }
            },
        }
    }

    fn deserialize(src: &mut Cursor) -> (r: Result<NFSFh3, Error>) {
        let n = src.read_u32()?;
        if n != NFS_FH3_LEN {
            return Err(Error::IO(IoErrorKind::InvalidData));
        }
        let gen = <u64 as Deserialize>::deserialize(src)?;
        let fs_id = <u64 as Deserialize>::deserialize(src)?;
        let id = <u64 as Deserialize>::deserialize(src)?;
        Ok(NFSFh3 { gen, fs_id, id })
    }
}

impl RoundTrip for NFSFh3 {
    proof fn lemma_roundtrip(&self, s: Seq<u8>, at: int) {
        let len = be32_bytes(NFS_FH3_LEN);
        let (g, f, i) = (be64_bytes(self.gen), be64_bytes(self.fs_id), be64_bytes(self.id));
        lemma_holds_split(s, at, len + g + f, i);
        lemma_holds_split(s, at, len + g, f);
        lemma_holds_split(s, at, len, g);
        lemma_u32_at(s, at, NFS_FH3_LEN);
        self.gen.lemma_roundtrip(s, at + 4);
        self.fs_id.lemma_roundtrip(s, at + 12);
        self.id.lemma_roundtrip(s, at + 20);
    }
}

/// A time: seconds and nanoseconds since the Unix epoch.
#[allow(non_camel_case_types)]
#[derive(Debug, Clone, Copy, PartialEq, Eq)]
pub struct NFSTime3 {
    /// Seconds since 1970-01-01.
    pub seconds: u32,
    /// Nanoseconds, below one second.
    pub nseconds: u32,
}

impl View for NFSTime3 {
    type V = NFSTime3;

    open spec fn view(&self) -> NFSTime3 {
        *self
    }
}

impl Serialize for NFSTime3 {
    open spec fn encodable(&self) -> bool {
        self.seconds.encodable() && self.nseconds.encodable()
    }

    open spec fn encoding(&self) -> Seq<u8> {
        self.seconds.encoding() + self.nseconds.encoding()
    }

    fn serialize(&self, dest: &mut Vec<u8>) -> (r: Result<(), Error>) {
        let ghost start = dest@;
        self.seconds.serialize(dest)?;
        self.nseconds.serialize(dest)?;
        proof {
            lemma_concat_associative(start, self.seconds.encoding(), self.nseconds.encoding());
        }
        Ok(())
    }
}

impl Deserialize for NFSTime3 {
    open spec fn decoding(s: Seq<u8>, at: int) -> Parsed<NFSTime3> {
        match <u32 as Deserialize>::decoding(s, at) {
            Err(e) => Err(e),
            Ok((v0, p0)) => match <u32 as Deserialize>::decoding(s, p0) {
                Err(e) => Err(e),
                Ok((v1, p1)) => Ok((NFSTime3 { seconds: v0, nseconds: v1 }, p1)),
            },
        }
    }

    fn deserialize(src: &mut Cursor) -> (r: Result<NFSTime3, Error>) {
        let seconds = <u32 as Deserialize>::deserialize(src)?;
        let nseconds = <u32 as Deserialize>::deserialize(src)?;
        Ok(NFSTime3 { seconds, nseconds })
    }
}

impl RoundTrip for NFSTime3 {
    #[verifier::spinoff_prover]
    #[verifier::rlimit(100)]
    proof fn lemma_roundtrip(&self, s: Seq<u8>, at: int) {
        lemma_holds_split(s, at, self.seconds.encoding(), self.nseconds.encoding());
        self.seconds.lemma_roundtrip(s, at);
        self.nseconds.lemma_roundtrip(s, at + self.seconds.encoding().len());
    }
}

/// The attributes of a file system object.
#[allow(non_camel_case_types)]
#[derive(Debug, Clone, Copy, PartialEq, Eq)]
pub struct FAttr3 {
    /// Type of the object.
    pub ftype: FType3,
    /// Access mode bits.
    pub mode: u32,
    /// Number of hard links.
    pub nlink: u32,
    /// Owner.
    pub uid: u32,
    /// Group.
    pub gid: u32,
    /// Size in bytes.
    pub size: u64,
    /// Bytes allocated on disk.
    pub used: u64,
    /// Device numbers of a special file.
    pub rdev: SpecData3,
    /// File system identifier.
    pub fsid: u64,
    /// File identifier within the file system.
    pub fileid: u64,
    /// Last access.
    pub atime: NFSTime3,
    /// Last modification of the data.
    pub mtime: NFSTime3,
    /// Last change of the attributes.
    pub ctime: NFSTime3,
}

impl View for FAttr3 {
    type V = FAttr3;

    open spec fn view(&self) -> FAttr3 {
        *self
    }
}

impl Serialize for FAttr3 {
    open spec fn encodable(&self) -> bool {
        self.ftype.encodable() && self.mode.encodable() && self.nlink.encodable() && self.uid.encodable() && self.gid.encodable() && self.size.encodable() && self.used.encodable() && self.rdev.encodable() && self.fsid.encodable() && self.fileid.encodable() && self.atime.encodable() && self.mtime.encodable() && self.ctime.encodable()
    }

    open spec fn encoding(&self) -> Seq<u8> {
        self.ftype.encoding() + self.mode.encoding() + self.nlink.encoding() + self.uid.encoding() + self.gid.encoding() + self.size.encoding() + self.used.encoding() + self.rdev.encoding() + self.fsid.encoding() + self.fileid.encoding() + self.atime.encoding() + self.mtime.encoding() + self.ctime.encoding()
    }

    fn serialize(&self, dest: &mut Vec<u8>) -> (r: Result<(), Error>) {
        let ghost start = dest@;
        self.ftype.serialize(dest)?;
        self.mode.serialize(dest)?;
        proof {
            lemma_concat_associative(start, self.ftype.encoding(), self.mode.encoding());
        }
        self.nlink.serialize(dest)?;
        proof {
            lemma_concat_associative(start, self.ftype.encoding() + self.mode.encoding(), self.nlink.encoding());
        }
        self.uid.serialize(dest)?;
        proof {
            lemma_concat_associative(start, self.ftype.encoding() + self.mode.encoding() + self.nlink.encoding(), self.uid.encoding());
        }
        self.gid.serialize(dest)?;
        proof {
            lemma_concat_associative(start, self.ftype.encoding() + self.mode.encoding() + self.nlink.encoding() + self.uid.encoding(), self.gid.encoding());
        }
        self.size.serialize(dest)?;
        proof {
            lemma_concat_associative(start, self.ftype.encoding() + self.mode.encoding() + self.nlink.encoding() + self.uid.encoding() + self.gid.encoding(), self.size.encoding());
        }
        self.used.serialize(dest)?;
        proof {
            lemma_concat_associative(start, self.ftype.encoding() + self.mode.encoding() + self.nlink.encoding() + self.uid.encoding() + self.gid.encoding() + self.size.encoding(), self.used.encoding());
        }
        self.rdev.serialize(dest)?;
        proof {
            lemma_concat_associative(start, self.ftype.encoding() + self.mode.encoding() + self.nlink.encoding() + self.uid.encoding() + self.gid.encoding() + self.size.encoding() + self.used.encoding(), self.rdev.encoding());
        }
        self.fsid.serialize(dest)?;
        proof {
            lemma_concat_associative(start, self.ftype.encoding() + self.mode.encoding() + self.nlink.encoding() + self.uid.encoding() + self.gid.encoding() + self.size.encoding() + self.used.encoding() + self.rdev.encoding(), self.fsid.encoding());
        }
        self.fileid.serialize(dest)?;
        proof {
            lemma_concat_associative(start, self.ftype.encoding() + self.mode.encoding() + self.nlink.encoding() + self.uid.encoding() + self.gid.encoding() + self.size.encoding() + self.used.encoding() + self.rdev.encoding() + self.fsid.encoding(), self.fileid.encoding());
        }
        self.atime.serialize(dest)?;
        proof {
            lemma_concat_associative(start, self.ftype.encoding() + self.mode.encoding() + self.nlink.encoding() + self.uid.encoding() + self.gid.encoding() + self.size.encoding() + self.used.encoding() + self.rdev.encoding() + self.fsid.encoding() + self.fileid.encoding(), self.atime.encoding());
        }
        self.mtime.serialize(dest)?;
        proof {
            lemma_concat_associative(start, self.ftype.encoding() + self.mode.encoding() + self.nlink.encoding() + self.uid.encoding() + self.gid.encoding() + self.size.encoding() + self.used.encoding() + self.rdev.encoding() + self.fsid.encoding() + self.fileid.encoding() + self.atime.encoding(), self.mtime.encoding());
        }
        self.ctime.serialize(dest)?;
        proof {
            lemma_concat_associative(start, self.ftype.encoding() + self.mode.encoding() + self.nlink.encoding() + self.uid.encoding() + self.gid.encoding() + self.size.encoding() + self.used.encoding() + self.rdev.encoding() + self.fsid.encoding() + self.fileid.encoding() + self.atime.encoding() + self.mtime.encoding(), self.ctime.encoding());
        }
        Ok(())
    }
}

impl Deserialize for FAttr3 {
    open spec fn decoding(s: Seq<u8>, at: int) -> Parsed<FAttr3> {
        match <FType3 as Deserialize>::decoding(s, at) {
            Err(e) => Err(e),
            Ok((v0, p0)) => match <u32 as Deserialize>::decoding(s, p0) {
                Err(e) => Err(e),
                Ok((v1, p1)) => match <u32 as Deserialize>::decoding(s, p1) {
                    Err(e) => Err(e),
                    Ok((v2, p2)) => match <u32 as Deserialize>::decoding(s, p2) {
                        Err(e) => Err(e),
                        Ok((v3, p3)) => match <u32 as Deserialize>::decoding(s, p3) {
                            Err(e) => Err(e),
                            Ok((v4, p4)) => match <u64 as Deserialize>::decoding(s, p4) {
                                Err(e) => Err(e),
                                Ok((v5, p5)) => match <u64 as Deserialize>::decoding(s, p5) {
                                    Err(e) => Err(e),
                                    Ok((v6, p6)) => match <SpecData3 as Deserialize>::decoding(s, p6) {
                                        Err(e) => Err(e),
                                        Ok((v7, p7)) => match <u64 as Deserialize>::decoding(s, p7) {
                                            Err(e) => Err(e),
                                            Ok((v8, p8)) => match <u64 as Deserialize>::decoding(s, p8) {
                                                Err(e) => Err(e),
                                                Ok((v9, p9)) => match <NFSTime3 as Deserialize>::decoding(s, p9) {
                                                    Err(e) => Err(e),
                                                    Ok((v10, p10)) => match <NFSTime3 as Deserialize>::decoding(s, p10) {
                                                        Err(e) => Err(e),
                                                        Ok((v11, p11)) => match <NFSTime3 as Deserialize>::decoding(s, p11) {
                                                            Err(e) => Err(e),
                                                            Ok((v12, p12)) => Ok((FAttr3 { ftype: v0, mode: v1, nlink: v2, uid: v3, gid: v4, size: v5, used: v6, rdev: v7, fsid: v8, fileid: v9, atime: v10, mtime: v11, ctime: v12 }, p12)),
                                                        },
                                                    },
                                                },
                                            },
                                        },
                                    },
                                },
                            },
                        },
                    },
                },
            },
        }
    }

    fn deserialize(src: &mut Cursor) -> (r: Result<FAttr3, Error>) {
        let ftype = <FType3 as Deserialize>::deserialize(src)?;
        let mode = <u32 as Deserialize>::deserialize(src)?;
        let nlink = <u32 as Deserialize>::deserialize(src)?;
        let uid = <u32 as Deserialize>::deserialize(src)?;
        let gid = <u32 as Deserialize>::deserialize(src)?;
        let size = <u64 as Deserialize>::deserialize(src)?;
        let used = <u64 as Deserialize>::deserialize(src)?;
        let rdev = <SpecData3 as Deserialize>::deserialize(src)?;
        let fsid = <u64 as Deserialize>::deserialize(src)?;
        let fileid = <u64 as Deserialize>::deserialize(src)?;
        let atime = <NFSTime3 as Deserialize>::deserialize(src)?;
        let mtime = <NFSTime3 as Deserialize>::deserialize(src)?;
        let ctime = <NFSTime3 as Deserialize>::deserialize(src)?;
        Ok(FAttr3 { ftype, mode, nlink, uid, gid, size, used, rdev, fsid, fileid, atime, mtime, ctime })
    }
}

impl RoundTrip for FAttr3 {
    #[verifier::spinoff_prover]
    #[verifier::rlimit(100)]
    proof fn lemma_roundtrip(&self, s: Seq<u8>, at: int) {
        lemma_holds_split(s, at, self.ftype.encoding() + self.mode.encoding() + self.nlink.encoding() + self.uid.encoding() + self.gid.encoding() + self.size.encoding() + self.used.encoding() + self.rdev.encoding() + self.fsid.encoding() + self.fileid.encoding() + self.atime.encoding() + self.mtime.encoding(), self.ctime.encoding());
        lemma_holds_split(s, at, self.ftype.encoding() + self.mode.encoding() + self.nlink.encoding() + self.uid.encoding() + self.gid.encoding() + self.size.encoding() + self.used.encoding() + self.rdev.encoding() + self.fsid.encoding() + self.fileid.encoding() + self.atime.encoding(), self.mtime.encoding());
        lemma_holds_split(s, at, self.ftype.encoding() + self.mode.encoding() + self.nlink.encoding() + self.uid.encoding() + self.gid.encoding() + self.size.encoding() + self.used.encoding() + self.rdev.encoding() + self.fsid.encoding() + self.fileid.encoding(), self.atime.encoding());
        lemma_holds_split(s, at, self.ftype.encoding() + self.mode.encoding() + self.nlink.encoding() + self.uid.encoding() + self.gid.encoding() + self.size.encoding() + self.used.encoding() + self.rdev.encoding() + self.fsid.encoding(), self.fileid.encoding());
        lemma_holds_split(s, at, self.ftype.encoding() + self.mode.encoding() + self.nlink.encoding() + self.uid.encoding() + self.gid.encoding() + self.size.encoding() + self.used.encoding() + self.rdev.encoding(), self.fsid.encoding());
        lemma_holds_split(s, at, self.ftype.encoding() + self.mode.encoding() + self.nlink.encoding() + self.uid.encoding() + self.gid.encoding() + self.size.encoding() + self.used.encoding(), self.rdev.encoding());
        lemma_holds_split(s, at, self.ftype.encoding() + self.mode.encoding() + self.nlink.encoding() + self.uid.encoding() + self.gid.encoding() + self.size.encoding(), self.used.encoding());
        lemma_holds_split(s, at, self.ftype.encoding() + self.mode.encoding() + self.nlink.encoding() + self.uid.encoding() + self.gid.encoding(), self.size.encoding());
        lemma_holds_split(s, at, self.ftype.encoding() + self.mode.encoding() + self.nlink.encoding() + self.uid.encoding(), self.gid.encoding());
        lemma_holds_split(s, at, self.ftype.encoding() + self.mode.encoding() + self.nlink.encoding(), self.uid.encoding());
        lemma_holds_split(s, at, self.ftype.encoding() + self.mode.encoding(), self.nlink.encoding());
        lemma_holds_split(s, at, self.ftype.encoding(), self.mode.encoding());
        self.ftype.lemma_roundtrip(s, at);
        self.mode.lemma_roundtrip(s, at + self.ftype.encoding().len());
        self.nlink.lemma_roundtrip(s, at + (self.ftype.encoding() + self.mode.encoding()).len());
        self.uid.lemma_roundtrip(s, at + (self.ftype.encoding() + self.mode.encoding() + self.nlink.encoding()).len());
        self.gid.lemma_roundtrip(s, at + (self.ftype.encoding() + self.mode.encoding() + self.nlink.encoding() + self.uid.encoding()).len());
        self.size.lemma_roundtrip(s, at + (self.ftype.encoding() + self.mode.encoding() + self.nlink.encoding() + self.uid.encoding() + self.gid.encoding()).len());
        self.used.lemma_roundtrip(s, at + (self.ftype.encoding() + self.mode.encoding() + self.nlink.encoding() + self.uid.encoding() + self.gid.encoding() + self.size.encoding()).len());
        self.rdev.lemma_roundtrip(s, at + (self.ftype.encoding() + self.mode.encoding() + self.nlink.encoding() + self.uid.encoding() + self.gid.encoding() + self.size.encoding() + self.used.encoding()).len());
        self.fsid.lemma_roundtrip(s, at + (self.ftype.encoding() + self.mode.encoding() + self.nlink.encoding() + self.uid.encoding() + self.gid.encoding() + self.size.encoding() + self.used.encoding() + self.rdev.encoding()).len());
        self.fileid.lemma_roundtrip(s, at + (self.ftype.encoding() + self.mode.encoding() + self.nlink.encoding() + self.uid.encoding() + self.gid.encoding() + self.size.encoding() + self.used.encoding() + self.rdev.encoding() + self.fsid.encoding()).len());
        self.atime.lemma_roundtrip(s, at + (self.ftype.encoding() + self.mode.encoding() + self.nlink.encoding() + self.uid.encoding() + self.gid.encoding() + self.size.encoding() + self.used.encoding() + self.rdev.encoding() + self.fsid.encoding() + self.fileid.encoding()).len());
        self.mtime.lemma_roundtrip(s, at + (self.ftype.encoding() + self.mode.encoding() + self.nlink.encoding() + self.uid.encoding() + self.gid.encoding() + self.size.encoding() + self.used.encoding() + self.rdev.encoding() + self.fsid.encoding() + self.fileid.encoding() + self.atime.encoding()).len());
        self.ctime.lemma_roundtrip(s, at + (self.ftype.encoding() + self.mode.encoding() + self.nlink.encoding() + self.uid.encoding() + self.gid.encoding() + self.size.encoding() + self.used.encoding() + self.rdev.encoding() + self.fsid.encoding() + self.fileid.encoding() + self.atime.encoding() + self.mtime.encoding()).len());
    }
}

/// The attributes compared for weak cache consistency.
#[allow(non_camel_case_types)]
#[derive(Debug, Clone, Copy, PartialEq, Eq)]
pub struct WCCAttr {
    /// Size in bytes.
    pub size: u64,
    /// Last modification of the data.
    pub mtime: NFSTime3,
    /// Last change of the attributes.
    pub ctime: NFSTime3,
}

impl View for WCCAttr {
    type V = WCCAttr;

    open spec fn view(&self) -> WCCAttr {
        *self
    }
}

impl Serialize for WCCAttr {
    open spec fn encodable(&self) -> bool {
        self.size.encodable() && self.mtime.encodable() && self.ctime.encodable()
    }

    open spec fn encoding(&self) -> Seq<u8> {
        self.size.encoding() + self.mtime.encoding() + self.ctime.encoding()
    }

    fn serialize(&self, dest: &mut Vec<u8>) -> (r: Result<(), Error>) {
        let ghost start = dest@;
        self.size.serialize(dest)?;
        self.mtime.serialize(dest)?;
        proof {
            lemma_concat_associative(start, self.size.encoding(), self.mtime.encoding());
        }
        self.ctime.serialize(dest)?;
        proof {
            lemma_concat_associative(start, self.size.encoding() + self.mtime.encoding(), self.ctime.encoding());
        }
        Ok(())
    }
}

impl Deserialize for WCCAttr {
    open spec fn decoding(s: Seq<u8>, at: int) -> Parsed<WCCAttr> {
        match <u64 as Deserialize>::decoding(s, at) {
            Err(e) => Err(e),
            Ok((v0, p0)) => match <NFSTime3 as Deserialize>::decoding(s, p0) {
                Err(e) => Err(e),
                Ok((v1, p1)) => match <NFSTime3 as Deserialize>::decoding(s, p1) {
                    Err(e) => Err(e),
                    Ok((v2, p2)) => Ok((WCCAttr { size: v0, mtime: v1, ctime: v2 }, p2)),
                },
            },
        }
    }

    fn deserialize(src: &mut Cursor) -> (r: Result<WCCAttr, Error>) {
        let size = <u64 as Deserialize>::deserialize(src)?;
        let mtime = <NFSTime3 as Deserialize>::deserialize(src)?;
        let ctime = <NFSTime3 as Deserialize>::deserialize(src)?;
        Ok(WCCAttr { size, mtime, ctime })
    }
}

impl RoundTrip for WCCAttr {
    #[verifier::spinoff_prover]
    #[verifier::rlimit(100)]
    proof fn lemma_roundtrip(&self, s: Seq<u8>, at: int) {
        lemma_holds_split(s, at, self.size.encoding() + self.mtime.encoding(), self.ctime.encoding());
        lemma_holds_split(s, at, self.size.encoding(), self.mtime.encoding());
        self.size.lemma_roundtrip(s, at);
        self.mtime.lemma_roundtrip(s, at + self.size.encoding().len());
        self.ctime.lemma_roundtrip(s, at + (self.size.encoding() + self.mtime.encoding()).len());
    }
}

/// The weak cache consistency part of `attr`.
pub open spec fn wcc_of(attr: FAttr3) -> WCCAttr {
    WCCAttr { size: attr.size, mtime: attr.mtime, ctime: attr.ctime }
}

impl From<FAttr3> for WCCAttr {
    fn from(attr: FAttr3) -> (r: WCCAttr) {
        WCCAttr { size: attr.size, mtime: attr.mtime, ctime: attr.ctime }
    }
}

impl vstd::std_specs::convert::FromSpecImpl<FAttr3> for WCCAttr {
    open spec fn obeys_from_spec() -> bool {
        true
    }

    open spec fn from_spec(attr: FAttr3) -> WCCAttr {
        wcc_of(attr)
    }
}

impl RoundTrip for Option<WCCAttr> {
    proof fn lemma_roundtrip(&self, s: Seq<u8>, at: int) {
        match self {
            Some(v) => {
                lemma_holds_split(s, at, be32_bytes(1), v.encoding());
                lemma_u32_at(s, at, 1);
                v.lemma_roundtrip(s, at + 4);
            },
            None => {
                lemma_u32_at(s, at, 0);
            },
        }
    }
}

impl Deserialize for Option<WCCAttr> {
    open spec fn decoding(s: Seq<u8>, at: int) -> Parsed<Option<WCCAttr>> {
        option_decoding(s, at, |s: Seq<u8>, p: int| <WCCAttr as Deserialize>::decoding(s, p))
    }

    fn deserialize(src: &mut Cursor) -> (r: Result<Option<WCCAttr>, Error>) {
        if <bool as Deserialize>::deserialize(src)? {
            Ok(Some(<WCCAttr as Deserialize>::deserialize(src)?))
        } else {
            Ok(None)
        }
    }
}

impl RoundTrip for Option<FAttr3> {
    proof fn lemma_roundtrip(&self, s: Seq<u8>, at: int) {
        match self {
            Some(v) => {
                lemma_holds_split(s, at, be32_bytes(1), v.encoding());
                lemma_u32_at(s, at, 1);
                v.lemma_roundtrip(s, at + 4);
            },
            None => {
                lemma_u32_at(s, at, 0);
            },
        }
    }
}

impl Deserialize for Option<FAttr3> {
    open spec fn decoding(s: Seq<u8>, at: int) -> Parsed<Option<FAttr3>> {
        option_decoding(s, at, |s: Seq<u8>, p: int| <FAttr3 as Deserialize>::decoding(s, p))
    }

    fn deserialize(src: &mut Cursor) -> (r: Result<Option<FAttr3>, Error>) {
        if <bool as Deserialize>::deserialize(src)? {
            Ok(Some(<FAttr3 as Deserialize>::deserialize(src)?))
        } else {
            Ok(None)
        }
    }
}

impl RoundTrip for Option<NFSTime3> {
    proof fn lemma_roundtrip(&self, s: Seq<u8>, at: int) {
        match self {
            Some(v) => {
                lemma_holds_split(s, at, be32_bytes(1), v.encoding());
                lemma_u32_at(s, at, 1);
                v.lemma_roundtrip(s, at + 4);
            },
            None => {
                lemma_u32_at(s, at, 0);
            },
        }
    }
}

impl Deserialize for Option<NFSTime3> {
    open spec fn decoding(s: Seq<u8>, at: int) -> Parsed<Option<NFSTime3>> {
        option_decoding(s, at, |s: Seq<u8>, p: int| <NFSTime3 as Deserialize>::decoding(s, p))
    }

    fn deserialize(src: &mut Cursor) -> (r: Result<Option<NFSTime3>, Error>) {
        if <bool as Deserialize>::deserialize(src)? {
            Ok(Some(<NFSTime3 as Deserialize>::deserialize(src)?))
        } else {
            Ok(None)
        }
    }
}

impl RoundTrip for Option<NFSFh3> {
    proof fn lemma_roundtrip(&self, s: Seq<u8>, at: int) {
        match self {
            Some(v) => {
                lemma_holds_split(s, at, be32_bytes(1), v.encoding());
                lemma_u32_at(s, at, 1);
                v.lemma_roundtrip(s, at + 4);
            },
            None => {
                lemma_u32_at(s, at, 0);
            },
        }
    }
}

impl Deserialize for Option<NFSFh3> {
    open spec fn decoding(s: Seq<u8>, at: int) -> Parsed<Option<NFSFh3>> {
        option_decoding(s, at, |s: Seq<u8>, p: int| <NFSFh3 as Deserialize>::decoding(s, p))
    }

    fn deserialize(src: &mut Cursor) -> (r: Result<Option<NFSFh3>, Error>) {
        if <bool as Deserialize>::deserialize(src)? {
            Ok(Some(<NFSFh3 as Deserialize>::deserialize(src)?))
        } else {
            Ok(None)
        }
    }
}

/// Attributes before and after an operation, for weak cache consistency.
#[allow(non_camel_case_types)]
#[derive(Debug, Clone, Copy, PartialEq, Eq)]
pub struct WCCData {
    /// Attributes before the operation.
    pub before: Option<WCCAttr>,
    /// Attributes after the operation.
    pub after: Option<FAttr3>,
}

impl View for WCCData {
    type V = WCCData;

    open spec fn view(&self) -> WCCData {
        *self
    }
}

impl Serialize for WCCData {
    open spec fn encodable(&self) -> bool {
        self.before.encodable() && self.after.encodable()
    }

    open spec fn encoding(&self) -> Seq<u8> {
        self.before.encoding() + self.after.encoding()
    }

    fn serialize(&self, dest: &mut Vec<u8>) -> (r: Result<(), Error>) {
        let ghost start = dest@;
        self.before.serialize(dest)?;
        self.after.serialize(dest)?;
        proof {
            lemma_concat_associative(start, self.before.encoding(), self.after.encoding());
        }
        Ok(())
    }
}

impl Deserialize for WCCData {
    open spec fn decoding(s: Seq<u8>, at: int) -> Parsed<WCCData> {
        match <Option<WCCAttr> as Deserialize>::decoding(s, at) {
            Err(e) => Err(e),
            Ok((v0, p0)) => match <Option<FAttr3> as Deserialize>::decoding(s, p0) {
                Err(e) => Err(e),
                Ok((v1, p1)) => Ok((WCCData { before: v0, after: v1 }, p1)),
            },
        }
    }

    fn deserialize(src: &mut Cursor) -> (r: Result<WCCData, Error>) {
        let before = <Option<WCCAttr> as Deserialize>::deserialize(src)?;
        let after = <Option<FAttr3> as Deserialize>::deserialize(src)?;
        Ok(WCCData { before, after })
    }
}

impl RoundTrip for WCCData {
    #[verifier::spinoff_prover]
    #[verifier::rlimit(100)]
    proof fn lemma_roundtrip(&self, s: Seq<u8>, at: int) {
        lemma_holds_split(s, at, self.before.encoding(), self.after.encoding());
        self.before.lemma_roundtrip(s, at);
        self.after.lemma_roundtrip(s, at + self.before.encoding().len());
    }
}

impl Default for WCCData {
    /// Neither attributes.
    fn default() -> (r: WCCData)
        ensures
            r == (WCCData { before: None, after: None }),
    {
        WCCData { before: None, after: None }
    }
}

/// How `SETATTR` changes the time of last access.
#[allow(non_camel_case_types)]
#[derive(Debug, Clone, Copy, PartialEq, Eq)]
pub enum SetAtime {
    /// Leave it unchanged.
    DontChange,
    /// Set it to the server's time.
    SetToServerTime,
    /// Set it to the time given.
    SetToClientTime(NFSTime3),
}

impl View for SetAtime {
    type V = SetAtime;

    open spec fn view(&self) -> SetAtime {
        *self
    }
}

impl Serialize for SetAtime {
    open spec fn encodable(&self) -> bool {
        match self {
            SetAtime::DontChange => true,
            SetAtime::SetToServerTime => true,
            SetAtime::SetToClientTime(x) => x.encodable(),
        }
    }

    open spec fn encoding(&self) -> Seq<u8> {
        match self {
            SetAtime::DontChange => be32_bytes(0u32),
            SetAtime::SetToServerTime => be32_bytes(1u32),
            SetAtime::SetToClientTime(x) => be32_bytes(2u32) + x.encoding(),
        }
    }

    fn serialize(&self, dest: &mut Vec<u8>) -> (r: Result<(), Error>) {
        match self {
            SetAtime::DontChange => {
                write_be_u32(dest, 0);
                Ok(())
            },
            SetAtime::SetToServerTime => {
                write_be_u32(dest, 1);
                Ok(())
            },
            SetAtime::SetToClientTime(x) => {
                write_be_u32(dest, 2);
                let r = x.serialize(dest);
                assert(r is Ok ==> dest@ =~= old(dest)@ + self.encoding());
                r
            },
        }
    }
}

impl Deserialize for SetAtime {
    open spec fn decoding(s: Seq<u8>, at: int) -> Parsed<SetAtime> {
        match spec_u32(s, at) {
            Err(e) => Err(e),
            Ok((tag, p)) => if tag == 0 {
                Ok((SetAtime::DontChange, p))
            } else if tag == 1 {
                Ok((SetAtime::SetToServerTime, p))
            } else if tag == 2 {
                match <NFSTime3 as Deserialize>::decoding(s, p) {
                    Ok((x, end)) => Ok((SetAtime::SetToClientTime(x), end)),
                    Err(e) => Err(e),
                }
            } else {
                Err(invalid_data())
            },
        }
    }

    fn deserialize(src: &mut Cursor) -> (r: Result<SetAtime, Error>) {
        let tag = src.read_u32()?;
        if tag == 0 {
            Ok(SetAtime::DontChange)
        } else if tag == 1 {
            Ok(SetAtime::SetToServerTime)
        } else if tag == 2 {
            Ok(SetAtime::SetToClientTime(<NFSTime3 as Deserialize>::deserialize(src)?))
        } else {
            Err(Error::IO(IoErrorKind::InvalidData))
        }
    }
}

impl RoundTrip for SetAtime {
    #[verifier::spinoff_prover]
    #[verifier::rlimit(100)]
    proof fn lemma_roundtrip(&self, s: Seq<u8>, at: int) {
        match self {
            SetAtime::DontChange => {
                lemma_u32_at(s, at, 0u32);
            },
            SetAtime::SetToServerTime => {
                lemma_u32_at(s, at, 1u32);
            },
            SetAtime::SetToClientTime(x) => {
                lemma_holds_split(s, at, be32_bytes(2u32), x.encoding());
                lemma_u32_at(s, at, 2u32);
                x.lemma_roundtrip(s, at + 4);
            },
        }
    }
}

/// How `SETATTR` changes the time of last modification.
#[allow(non_camel_case_types)]
#[derive(Debug, Clone, Copy, PartialEq, Eq)]
pub enum SetMtime {
    /// Leave it unchanged.
    DontChange,
    /// Set it to the server's time.
    SetToServerTime,
    /// Set it to the time given.
    SetToClientTime(NFSTime3),
}

impl View for SetMtime {
    type V = SetMtime;

    open spec fn view(&self) -> SetMtime {
        *self
    }
}

impl Serialize for SetMtime {
    open spec fn encodable(&self) -> bool {
        match self {
            SetMtime::DontChange => true,
            SetMtime::SetToServerTime => true,
            SetMtime::SetToClientTime(x) => x.encodable(),
        }
    }

    open spec fn encoding(&self) -> Seq<u8> {
        match self {
            SetMtime::DontChange => be32_bytes(0u32),
            SetMtime::SetToServerTime => be32_bytes(1u32),
            SetMtime::SetToClientTime(x) => be32_bytes(2u32) + x.encoding(),
        }
    }

    fn serialize(&self, dest: &mut Vec<u8>) -> (r: Result<(), Error>) {
        match self {
            SetMtime::DontChange => {
                write_be_u32(dest, 0);
                Ok(())
            },
            SetMtime::SetToServerTime => {
                write_be_u32(dest, 1);
                Ok(())
            },
            SetMtime::SetToClientTime(x) => {
                write_be_u32(dest, 2);
                let r = x.serialize(dest);
                assert(r is Ok ==> dest@ =~= old(dest)@ + self.encoding());
                r
            },
        }
    }
}

impl Deserialize for SetMtime {
    open spec fn decoding(s: Seq<u8>, at: int) -> Parsed<SetMtime> {
        match spec_u32(s, at) {
            Err(e) => Err(e),
            Ok((tag, p)) => if tag == 0 {
                Ok((SetMtime::DontChange, p))
            } else if tag == 1 {
                Ok((SetMtime::SetToServerTime, p))
            } else if tag == 2 {
                match <NFSTime3 as Deserialize>::decoding(s, p) {
                    Ok((x, end)) => Ok((SetMtime::SetToClientTime(x), end)),
                    Err(e) => Err(e),
                }
            } else {
                Err(invalid_data())
            },
        }
    }

    fn deserialize(src: &mut Cursor) -> (r: Result<SetMtime, Error>) {
        let tag = src.read_u32()?;
        if tag == 0 {
            Ok(SetMtime::DontChange)
        } else if tag == 1 {
            Ok(SetMtime::SetToServerTime)
        } else if tag == 2 {
            Ok(SetMtime::SetToClientTime(<NFSTime3 as Deserialize>::deserialize(src)?))
        } else {
            Err(Error::IO(IoErrorKind::InvalidData))
        }
    }
}

impl RoundTrip for SetMtime {
    #[verifier::spinoff_prover]
    #[verifier::rlimit(100)]
    proof fn lemma_roundtrip(&self, s: Seq<u8>, at: int) {
        match self {
            SetMtime::DontChange => {
                lemma_u32_at(s, at, 0u32);
            },
            SetMtime::SetToServerTime => {
                lemma_u32_at(s, at, 1u32);
            },
            SetMtime::SetToClientTime(x) => {
                lemma_holds_split(s, at, be32_bytes(2u32), x.encoding());
                lemma_u32_at(s, at, 2u32);
                x.lemma_roundtrip(s, at + 4);
            },
        }
    }
}

/// The attributes a `SETATTR` or a creation sets.
#[allow(non_camel_case_types)]
#[derive(Debug, Clone, Copy, PartialEq, Eq)]
pub struct SAttr3 {
    /// New access mode bits.
    pub mode: Option<u32>,
    /// New owner.
    pub uid: Option<u32>,
    /// New group.
    pub gid: Option<u32>,
    /// New size.
    pub size: Option<u64>,
    /// New last access time.
    pub atime: SetAtime,
    /// New last modification time.
    pub mtime: SetMtime,
}

impl View for SAttr3 {
    type V = SAttr3;

    open spec fn view(&self) -> SAttr3 {
        *self
    }
}

impl Serialize for SAttr3 {
    open spec fn encodable(&self) -> bool {
        self.mode.encodable() && self.uid.encodable() && self.gid.encodable() && self.size.encodable() && self.atime.encodable() && self.mtime.encodable()
    }

    open spec fn encoding(&self) -> Seq<u8> {
        self.mode.encoding() + self.uid.encoding() + self.gid.encoding() + self.size.encoding() + self.atime.encoding() + self.mtime.encoding()
    }

    fn serialize(&self, dest: &mut Vec<u8>) -> (r: Result<(), Error>) {
        let ghost start = dest@;
        self.mode.serialize(dest)?;
        self.uid.serialize(dest)?;
        proof {
            lemma_concat_associative(start, self.mode.encoding(), self.uid.encoding());
        }
        self.gid.serialize(dest)?;
        proof {
            lemma_concat_associative(start, self.mode.encoding() + self.uid.encoding(), self.gid.encoding());
        }
        self.size.serialize(dest)?;
        proof {
            lemma_concat_associative(start, self.mode.encoding() + self.uid.encoding() + self.gid.encoding(), self.size.encoding());
        }
        self.atime.serialize(dest)?;
        proof {
            lemma_concat_associative(start, self.mode.encoding() + self.uid.encoding() + self.gid.encoding() + self.size.encoding(), self.atime.encoding());
        }
        self.mtime.serialize(dest)?;
        proof {
            lemma_concat_associative(start, self.mode.encoding() + self.uid.encoding() + self.gid.encoding() + self.size.encoding() + self.atime.encoding(), self.mtime.encoding());
        }
        Ok(())
    }
}

impl Deserialize for SAttr3 {
    open spec fn decoding(s: Seq<u8>, at: int) -> Parsed<SAttr3> {
        match <Option<u32> as Deserialize>::decoding(s, at) {
            Err(e) => Err(e),
            Ok((v0, p0)) => match <Option<u32> as Deserialize>::decoding(s, p0) {
                Err(e) => Err(e),
                Ok((v1, p1)) => match <Option<u32> as Deserialize>::decoding(s, p1) {
                    Err(e) => Err(e),
                    Ok((v2, p2)) => match <Option<u64> as Deserialize>::decoding(s, p2) {
                        Err(e) => Err(e),
                        Ok((v3, p3)) => match <SetAtime as Deserialize>::decoding(s, p3) {
                            Err(e) => Err(e),
                            Ok((v4, p4)) => match <SetMtime as Deserialize>::decoding(s, p4) {
                                Err(e) => Err(e),
                                Ok((v5, p5)) => Ok((SAttr3 { mode: v0, uid: v1, gid: v2, size: v3, atime: v4, mtime: v5 }, p5)),
                            },
                        },
                    },
                },
            },
        }
    }

    fn deserialize(src: &mut Cursor) -> (r: Result<SAttr3, Error>) {
        let mode = <Option<u32> as Deserialize>::deserialize(src)?;
        let uid = <Option<u32> as Deserialize>::deserialize(src)?;
        let gid = <Option<u32> as Deserialize>::deserialize(src)?;
        let size = <Option<u64> as Deserialize>::deserialize(src)?;
        let atime = <SetAtime as Deserialize>::deserialize(src)?;
        let mtime = <SetMtime as Deserialize>::deserialize(src)?;
        Ok(SAttr3 { mode, uid, gid, size, atime, mtime })
    }
}

impl RoundTrip for SAttr3 {
    #[verifier::spinoff_prover]
    #[verifier::rlimit(100)]
    proof fn lemma_roundtrip(&self, s: Seq<u8>, at: int) {
        lemma_holds_split(s, at, self.mode.encoding() + self.uid.encoding() + self.gid.encoding() + self.size.encoding() + self.atime.encoding(), self.mtime.encoding());
        lemma_holds_split(s, at, self.mode.encoding() + self.uid.encoding() + self.gid.encoding() + self.size.encoding(), self.atime.encoding());
        lemma_holds_split(s, at, self.mode.encoding() + self.uid.encoding() + self.gid.encoding(), self.size.encoding());
        lemma_holds_split(s, at, self.mode.encoding() + self.uid.encoding(), self.gid.encoding());
        lemma_holds_split(s, at, self.mode.encoding(), self.uid.encoding());
        self.mode.lemma_roundtrip(s, at);
        self.uid.lemma_roundtrip(s, at + self.mode.encoding().len());
        self.gid.lemma_roundtrip(s, at + (self.mode.encoding() + self.uid.encoding()).len());
        self.size.lemma_roundtrip(s, at + (self.mode.encoding() + self.uid.encoding() + self.gid.encoding()).len());
        self.atime.lemma_roundtrip(s, at + (self.mode.encoding() + self.uid.encoding() + self.gid.encoding() + self.size.encoding()).len());
        self.mtime.lemma_roundtrip(s, at + (self.mode.encoding() + self.uid.encoding() + self.gid.encoding() + self.size.encoding() + self.atime.encoding()).len());
    }
}

impl Default for SAttr3 {
    /// Changes nothing.
    fn default() -> (r: SAttr3)
        ensures
            r == (SAttr3 {
                mode: None,
                uid: None,
                gid: None,
                size: None,
                atime: SetAtime::DontChange,
                mtime: SetMtime::DontChange,
            }),
    {
        SAttr3 {
            mode: None,
            uid: None,
            gid: None,
            size: None,
            atime: SetAtime::DontChange,
            mtime: SetMtime::DontChange,
        }
    }
}

/// A directory and a name in it.
#[allow(non_camel_case_types)]
#[derive(Debug, PartialEq, Eq)]
pub struct DiropArgs3 {
    /// The directory.
    pub dir: NFSFh3,
    /// The name of the entry.
    pub name: NFSString,
}

/// [`DiropArgs3`] with every field by its view.
#[allow(non_camel_case_types)]
pub struct DiropArgs3View {
    pub dir: NFSFh3,
    pub name: Seq<u8>,
}

impl View for DiropArgs3 {
    type V = DiropArgs3View;

    open spec fn view(&self) -> DiropArgs3View {
        DiropArgs3View { dir: self.dir@, name: self.name@ }
    }
}

impl Serialize for DiropArgs3 {
    open spec fn encodable(&self) -> bool {
        self.dir.encodable() && self.name.encodable()
    }

    open spec fn encoding(&self) -> Seq<u8> {
        self.dir.encoding() + self.name.encoding()
    }

    fn serialize(&self, dest: &mut Vec<u8>) -> (r: Result<(), Error>) {
        let ghost start = dest@;
        self.dir.serialize(dest)?;
        self.name.serialize(dest)?;
        proof {
            lemma_concat_associative(start, self.dir.encoding(), self.name.encoding());
        }
        Ok(())
    }
}

impl Deserialize for DiropArgs3 {
    open spec fn decoding(s: Seq<u8>, at: int) -> Parsed<DiropArgs3View> {
        match <NFSFh3 as Deserialize>::decoding(s, at) {
            Err(e) => Err(e),
            Ok((v0, p0)) => match <NFSString as Deserialize>::decoding(s, p0) {
                Err(e) => Err(e),
                Ok((v1, p1)) => Ok((DiropArgs3View { dir: v0, name: v1 }, p1)),
            },
        }
    }

    fn deserialize(src: &mut Cursor) -> (r: Result<DiropArgs3, Error>) {
        let dir = <NFSFh3 as Deserialize>::deserialize(src)?;
        let name = <NFSString as Deserialize>::deserialize(src)?;
        Ok(DiropArgs3 { dir, name })
    }
}

impl RoundTrip for DiropArgs3 {
    #[verifier::spinoff_prover]
    #[verifier::rlimit(100)]
    proof fn lemma_roundtrip(&self, s: Seq<u8>, at: int) {
        lemma_holds_split(s, at, self.dir.encoding(), self.name.encoding());
        self.dir.lemma_roundtrip(s, at);
        self.name.lemma_roundtrip(s, at + self.dir.encoding().len());
    }
}

/// The attributes and target of a new symbolic link.
#[allow(non_camel_case_types)]
#[derive(Debug, PartialEq, Eq)]
pub struct SymlinkData3 {
    /// Attributes of the link.
    pub symlink_attributes: SAttr3,
    /// The path the link points to.
    pub symlink_data: NFSString,
}

/// [`SymlinkData3`] with every field by its view.
#[allow(non_camel_case_types)]
pub struct SymlinkData3View {
    pub symlink_attributes: SAttr3,
    pub symlink_data: Seq<u8>,
}

impl View for SymlinkData3 {
    type V = SymlinkData3View;

    open spec fn view(&self) -> SymlinkData3View {
        SymlinkData3View { symlink_attributes: self.symlink_attributes@, symlink_data: self.symlink_data@ }
    }
}

impl Serialize for SymlinkData3 {
    open spec fn encodable(&self) -> bool {
        self.symlink_attributes.encodable() && self.symlink_data.encodable()
    }

    open spec fn encoding(&self) -> Seq<u8> {
        self.symlink_attributes.encoding() + self.symlink_data.encoding()
    }

    fn serialize(&self, dest: &mut Vec<u8>) -> (r: Result<(), Error>) {
        let ghost start = dest@;
        self.symlink_attributes.serialize(dest)?;
        self.symlink_data.serialize(dest)?;
        proof {
            lemma_concat_associative(start, self.symlink_attributes.encoding(), self.symlink_data.encoding());
        }
        Ok(())
    }
}

impl Deserialize for SymlinkData3 {
    open spec fn decoding(s: Seq<u8>, at: int) -> Parsed<SymlinkData3View> {
        match <SAttr3 as Deserialize>::decoding(s, at) {
            Err(e) => Err(e),
            Ok((v0, p0)) => match <NFSString as Deserialize>::decoding(s, p0) {
                Err(e) => Err(e),
                Ok((v1, p1)) => Ok((SymlinkData3View { symlink_attributes: v0, symlink_data: v1 }, p1)),
            },
        }
    }

    fn deserialize(src: &mut Cursor) -> (r: Result<SymlinkData3, Error>) {
        let symlink_attributes = <SAttr3 as Deserialize>::deserialize(src)?;
        let symlink_data = <NFSString as Deserialize>::deserialize(src)?;
        Ok(SymlinkData3 { symlink_attributes, symlink_data })
    }
}

impl RoundTrip for SymlinkData3 {
    #[verifier::spinoff_prover]
    #[verifier::rlimit(100)]
    proof fn lemma_roundtrip(&self, s: Seq<u8>, at: int) {
        lemma_holds_split(s, at, self.symlink_attributes.encoding(), self.symlink_data.encoding());
        self.symlink_attributes.lemma_roundtrip(s, at);
        self.symlink_data.lemma_roundtrip(s, at + self.symlink_attributes.encoding().len());
    }
}

/// The file handle given for the root of a mount.
pub fn get_root_mount_handle() -> (r: Vec<u8>)
    ensures
        r@ == seq![0u8],
{
    let mut v: Vec<u8> = Vec::new();
    v.push(0u8);
    assert(v@ =~= seq![0u8]);
    v
}

/// How `CREATE` treats an existing file.
#[allow(non_camel_case_types)]
#[derive(Debug, Clone, Copy, PartialEq, Eq)]
pub enum CreateMode3 {
    /// Create, or keep the existing file.
    Unchecked,
    /// Fail if the file exists.
    Guarded,
    /// Create with a verifier, for retries.
    Exclusive,
}

impl View for CreateMode3 {
    type V = CreateMode3;

    open spec fn view(&self) -> CreateMode3 {
        *self
    }
}

impl SerializeEnum for CreateMode3 {
    open spec fn discriminant(&self) -> i32 {
        match self {
            CreateMode3::Unchecked => 0i32,
            CreateMode3::Guarded => 1i32,
            CreateMode3::Exclusive => 2i32,
        }
    }

    fn to_i32(&self) -> (r: i32) {
        match self {
            CreateMode3::Unchecked => 0,
            CreateMode3::Guarded => 1,
            CreateMode3::Exclusive => 2,
        }
    }
}

impl Serialize for CreateMode3 {
    open spec fn encodable(&self) -> bool {
        true
    }

    open spec fn encoding(&self) -> Seq<u8> {
        enum_encoding(self.discriminant())
    }

    fn serialize(&self, dest: &mut Vec<u8>) -> (r: Result<(), Error>) {
        serialize_enum(self, dest);
        Ok(())
    }
}

impl DeserializeEnum for CreateMode3 {
    open spec fn of_discriminant(d: i32) -> Option<CreateMode3> {
        if d == 0i32 {
            Some(CreateMode3::Unchecked)
        } else if d == 1i32 {
            Some(CreateMode3::Guarded)
        } else if d == 2i32 {
            Some(CreateMode3::Exclusive)
        } else {
            None
        }
    }

    fn from_i32(d: i32) -> (r: Option<CreateMode3>) {
        if d == 0 {
            Some(CreateMode3::Unchecked)
        } else if d == 1 {
            Some(CreateMode3::Guarded)
        } else if d == 2 {
            Some(CreateMode3::Exclusive)
        } else {
            None
        }
    }
}

impl Deserialize for CreateMode3 {
    open spec fn decoding(s: Seq<u8>, at: int) -> Parsed<CreateMode3> {
        enum_decoding::<CreateMode3>(s, at)
    }

    fn deserialize(src: &mut Cursor) -> (r: Result<CreateMode3, Error>) {
        deserialize_enum(src)
    }
}

impl RoundTrip for CreateMode3 {
    proof fn lemma_roundtrip(&self, s: Seq<u8>, at: int) {
        lemma_u32_at(s, at, self.discriminant() as u32);
        lemma_i32_u32(self.discriminant());
    }
}

impl Default for CreateMode3 {
    fn default() -> (r: CreateMode3)
        ensures
            r == CreateMode3::Unchecked,
    {
        CreateMode3::Unchecked
    }
}

/// Arguments of `SETATTR`.
#[allow(non_camel_case_types)]
#[derive(Debug, Clone, Copy, PartialEq, Eq)]
pub struct SETATTR3args {
    /// The file.
    pub object: NFSFh3,
    /// The attributes to set.
    pub new_attribute: SAttr3,
    /// The change time the object must have, if any.
    pub guard: Option<NFSTime3>,
}

impl View for SETATTR3args {
    type V = SETATTR3args;

    open spec fn view(&self) -> SETATTR3args {
        *self
    }
}

impl Serialize for SETATTR3args {
    open spec fn encodable(&self) -> bool {
        self.object.encodable() && self.new_attribute.encodable() && self.guard.encodable()
    }

    open spec fn encoding(&self) -> Seq<u8> {
        self.object.encoding() + self.new_attribute.encoding() + self.guard.encoding()
    }

    fn serialize(&self, dest: &mut Vec<u8>) -> (r: Result<(), Error>) {
        let ghost start = dest@;
        self.object.serialize(dest)?;
        self.new_attribute.serialize(dest)?;
        proof {
            lemma_concat_associative(start, self.object.encoding(), self.new_attribute.encoding());
        }
        self.guard.serialize(dest)?;
        proof {
            lemma_concat_associative(start, self.object.encoding() + self.new_attribute.encoding(), self.guard.encoding());
        }
        Ok(())
    }
}

impl Deserialize for SETATTR3args {
    open spec fn decoding(s: Seq<u8>, at: int) -> Parsed<SETATTR3args> {
        match <NFSFh3 as Deserialize>::decoding(s, at) {
            Err(e) => Err(e),
            Ok((v0, p0)) => match <SAttr3 as Deserialize>::decoding(s, p0) {
                Err(e) => Err(e),
                Ok((v1, p1)) => match <Option<NFSTime3> as Deserialize>::decoding(s, p1) {
                    Err(e) => Err(e),
                    Ok((v2, p2)) => Ok((SETATTR3args { object: v0, new_attribute: v1, guard: v2 }, p2)),
                },
            },
        }
    }

    fn deserialize(src: &mut Cursor) -> (r: Result<SETATTR3args, Error>) {
        let object = <NFSFh3 as Deserialize>::deserialize(src)?;
        let new_attribute = <SAttr3 as Deserialize>::deserialize(src)?;
        let guard = <Option<NFSTime3> as Deserialize>::deserialize(src)?;
        Ok(SETATTR3args { object, new_attribute, guard })
    }
}

impl RoundTrip for SETATTR3args {
    #[verifier::spinoff_prover]
    #[verifier::rlimit(100)]
    proof fn lemma_roundtrip(&self, s: Seq<u8>, at: int) {
        lemma_holds_split(s, at, self.object.encoding() + self.new_attribute.encoding(), self.guard.encoding());
        lemma_holds_split(s, at, self.object.encoding(), self.new_attribute.encoding());
        self.object.lemma_roundtrip(s, at);
        self.new_attribute.lemma_roundtrip(s, at + self.object.encoding().len());
        self.guard.lemma_roundtrip(s, at + (self.object.encoding() + self.new_attribute.encoding()).len());
    }
}

} // verus!
