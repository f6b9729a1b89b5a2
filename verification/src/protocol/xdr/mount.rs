//! MOUNT protocol (RFC 1813 appendix I) data types and their XDR encoding.
use vstd::prelude::*;
use vstd::seq_lib::lemma_concat_associative;

use crate::encoding::{be32_bytes, write_be_u32};
use crate::parser::cursor::{spec_u32, Cursor};
use crate::protocol::xdr::{
    deserialize_enum, enum_decoding, enum_encoding, invalid_data, option_decoding, serialize_enum,
    Deserialize, DeserializeEnum, Serialize, SerializeEnum,
};
use crate::protocol::xdr::{lemma_holds_split, lemma_i32_u32, lemma_u32_at, RoundTrip};
use crate::rpc::{Error, IoErrorKind, Parsed};

verus! {

broadcast use crate::encoding::lemma_keeps_prefix_trans;

/// The RPC program number of MOUNT.
pub const PROGRAM: u32 = 100005;

/// The MOUNT version served.
pub const VERSION: u32 = 3;

/// Maximum bytes in a path name.
pub const MNTPATHLEN: u32 = 1024;

/// Maximum bytes in a name.
pub const MNTNAMLEN: u32 = 255;

/// Maximum bytes in a file handle.
pub const FHSIZE3: u32 = 64;

/// The status of a MOUNT operation.
#[allow(non_camel_case_types)]
#[derive(Debug, Clone, Copy, PartialEq, Eq)]
pub enum mountstat3 {
    MNT3_OK,
    MNT3ERR_PERM,
    MNT3ERR_NOENT,
    MNT3ERR_IO,
    MNT3ERR_ACCES,
    MNT3ERR_NOTDIR,
    MNT3ERR_INVAL,
    MNT3ERR_NAMETOOLONG,
    MNT3ERR_NOTSUPP,
    MNT3ERR_SERVERFAULT,
}

impl View for mountstat3 {
    type V = mountstat3;

    open spec fn view(&self) -> mountstat3 {
        *self
    }
}

impl SerializeEnum for mountstat3 {
    open spec fn discriminant(&self) -> i32 {
        match self {
            mountstat3::MNT3_OK => 0i32,
            mountstat3::MNT3ERR_PERM => 1i32,
            mountstat3::MNT3ERR_NOENT => 2i32,
            mountstat3::MNT3ERR_IO => 5i32,
            mountstat3::MNT3ERR_ACCES => 13i32,
            mountstat3::MNT3ERR_NOTDIR => 20i32,
            mountstat3::MNT3ERR_INVAL => 22i32,
            mountstat3::MNT3ERR_NAMETOOLONG => 63i32,
            mountstat3::MNT3ERR_NOTSUPP => 10004i32,
            mountstat3::MNT3ERR_SERVERFAULT => 10006i32,
        }
    }

    fn to_i32(&self) -> (r: i32) {
        match self {
            mountstat3::MNT3_OK => 0,
            mountstat3::MNT3ERR_PERM => 1,
            mountstat3::MNT3ERR_NOENT => 2,
            mountstat3::MNT3ERR_IO => 5,
            mountstat3::MNT3ERR_ACCES => 13,
            mountstat3::MNT3ERR_NOTDIR => 20,
            mountstat3::MNT3ERR_INVAL => 22,
            mountstat3::MNT3ERR_NAMETOOLONG => 63,
            mountstat3::MNT3ERR_NOTSUPP => 10004,
            mountstat3::MNT3ERR_SERVERFAULT => 10006,
        }
    }
}

impl Serialize for mountstat3 {
    open spec fn encodable(&self) -> bool {
        true
    }

    open spec fn encoding(&self) -> Seq<u8> {
        enum_encoding(self.discriminant())
    }

    fn serialize(&self, dest: &mut Vec<u8>) -> (r: Result<(), Error>) {
        serialize_enum(self, dest);
        Ok(())
    }
}

impl DeserializeEnum for mountstat3 {
    open spec fn of_discriminant(d: i32) -> Option<mountstat3> {
        if d == 0i32 {
            Some(mountstat3::MNT3_OK)
        } else if d == 1i32 {
            Some(mountstat3::MNT3ERR_PERM)
        } else if d == 2i32 {
            Some(mountstat3::MNT3ERR_NOENT)
        } else if d == 5i32 {
            Some(mountstat3::MNT3ERR_IO)
        } else if d == 13i32 {
            Some(mountstat3::MNT3ERR_ACCES)
        } else if d == 20i32 {
            Some(mountstat3::MNT3ERR_NOTDIR)
        } else if d == 22i32 {
            Some(mountstat3::MNT3ERR_INVAL)
        } else if d == 63i32 {
            Some(mountstat3::MNT3ERR_NAMETOOLONG)
        } else if d == 10004i32 {
            Some(mountstat3::MNT3ERR_NOTSUPP)
        } else if d == 10006i32 {
            Some(mountstat3::MNT3ERR_SERVERFAULT)
        } else {
            None
        }
    }

    fn from_i32(d: i32) -> (r: Option<mountstat3>) {
        if d == 0 {
            Some(mountstat3::MNT3_OK)
        } else if d == 1 {
            Some(mountstat3::MNT3ERR_PERM)
        } else if d == 2 {
            Some(mountstat3::MNT3ERR_NOENT)
        } else if d == 5 {
            Some(mountstat3::MNT3ERR_IO)
        } else if d == 13 {
            Some(mountstat3::MNT3ERR_ACCES)
        } else if d == 20 {
            Some(mountstat3::MNT3ERR_NOTDIR)
        } else if d == 22 {
            Some(mountstat3::MNT3ERR_INVAL)
        } else if d == 63 {
            Some(mountstat3::MNT3ERR_NAMETOOLONG)
        } else if d == 10004 {
            Some(mountstat3::MNT3ERR_NOTSUPP)
        } else if d == 10006 {
            Some(mountstat3::MNT3ERR_SERVERFAULT)
        } else {
            None
        }
    }
}

impl Deserialize for mountstat3 {
    open spec fn decoding(s: Seq<u8>, at: int) -> Parsed<mountstat3> {
        enum_decoding::<mountstat3>(s, at)
    }

    fn deserialize(src: &mut Cursor) -> (r: Result<mountstat3, Error>) {
        deserialize_enum(src)
    }
}

impl RoundTrip for mountstat3 {
    proof fn lemma_roundtrip(&self, s: Seq<u8>, at: int) {
        lemma_u32_at(s, at, self.discriminant() as u32);
        lemma_i32_u32(self.discriminant());
    }
}

/// Results of a successful `MNT`.
#[allow(non_camel_case_types)]
#[derive(Debug, PartialEq, Eq)]
pub struct mountres3_ok {
    /// The file handle of the mounted directory.
    pub fhandle: Vec<u8>,
    /// The authentication flavors the server accepts.
    pub auth_flavors: Vec<u32>,
}

/// [`mountres3_ok`] with every field by its view.
#[allow(non_camel_case_types)]
pub struct mountres3_okView {
    pub fhandle: Seq<u8>,
    pub auth_flavors: Seq<u32>,
}

impl View for mountres3_ok {
    type V = mountres3_okView;

    open spec fn view(&self) -> mountres3_okView {
        mountres3_okView { fhandle: self.fhandle@, auth_flavors: self.auth_flavors@ }
    }
}

impl Serialize for mountres3_ok {
    open spec fn encodable(&self) -> bool {
        self.fhandle.encodable() && self.auth_flavors.encodable()
    }

    open spec fn encoding(&self) -> Seq<u8> {
        self.fhandle.encoding() + self.auth_flavors.encoding()
    }

    fn serialize(&self, dest: &mut Vec<u8>) -> (r: Result<(), Error>) {
        let ghost start = dest@;
        self.fhandle.serialize(dest)?;
        self.auth_flavors.serialize(dest)?;
        proof {
            lemma_concat_associative(start, self.fhandle.encoding(), self.auth_flavors.encoding());
        }
        Ok(())
    }
}

impl Deserialize for mountres3_ok {
    open spec fn decoding(s: Seq<u8>, at: int) -> Parsed<mountres3_okView> {
        match <Vec<u8> as Deserialize>::decoding(s, at) {
            Err(e) => Err(e),
            Ok((v0, p0)) => match <Vec<u32> as Deserialize>::decoding(s, p0) {
                Err(e) => Err(e),
                Ok((v1, p1)) => Ok((mountres3_okView { fhandle: v0, auth_flavors: v1 }, p1)),
            },
        }
    }

    fn deserialize(src: &mut Cursor) -> (r: Result<mountres3_ok, Error>) {
        let fhandle = <Vec<u8> as Deserialize>::deserialize(src)?;
        let auth_flavors = <Vec<u32> as Deserialize>::deserialize(src)?;
        Ok(mountres3_ok { fhandle, auth_flavors })
    }
}

impl RoundTrip for mountres3_ok {
    #[verifier::spinoff_prover]
    #[verifier::rlimit(100)]
    proof fn lemma_roundtrip(&self, s: Seq<u8>, at: int) {
        lemma_holds_split(s, at, self.fhandle.encoding(), self.auth_flavors.encoding());
        self.fhandle.lemma_roundtrip(s, at);
        self.auth_flavors.lemma_roundtrip(s, at + self.fhandle.encoding().len());
    }
}

/// The procedures of MOUNT version 3, by number.
#[allow(non_camel_case_types)]
#[derive(Debug, Clone, Copy, PartialEq, Eq)]
pub enum MountProgram {
    MOUNTPROC3_NULL,
    MOUNTPROC3_MNT,
    MOUNTPROC3_DUMP,
    MOUNTPROC3_UMNT,
    MOUNTPROC3_UMNTALL,
    MOUNTPROC3_EXPORT,
    INVALID,
}

impl View for MountProgram {
    type V = MountProgram;

    open spec fn view(&self) -> MountProgram {
        *self
    }
}

impl SerializeEnum for MountProgram {
    open spec fn discriminant(&self) -> i32 {
        match self {
            MountProgram::MOUNTPROC3_NULL => 0i32,
            MountProgram::MOUNTPROC3_MNT => 1i32,
            MountProgram::MOUNTPROC3_DUMP => 2i32,
            MountProgram::MOUNTPROC3_UMNT => 3i32,
            MountProgram::MOUNTPROC3_UMNTALL => 4i32,
            MountProgram::MOUNTPROC3_EXPORT => 5i32,
            MountProgram::INVALID => 6i32,
        }
    }

    fn to_i32(&self) -> (r: i32) {
        match self {
            MountProgram::MOUNTPROC3_NULL => 0,
            MountProgram::MOUNTPROC3_MNT => 1,
            MountProgram::MOUNTPROC3_DUMP => 2,
            MountProgram::MOUNTPROC3_UMNT => 3,
            MountProgram::MOUNTPROC3_UMNTALL => 4,
            MountProgram::MOUNTPROC3_EXPORT => 5,
            MountProgram::INVALID => 6,
        }
    }
}

impl Serialize for MountProgram {
    open spec fn encodable(&self) -> bool {
        true
    }

    open spec fn encoding(&self) -> Seq<u8> {
        enum_encoding(self.discriminant())
    }

    fn serialize(&self, dest: &mut Vec<u8>) -> (r: Result<(), Error>) {
        serialize_enum(self, dest);
        Ok(())
    }
}

impl DeserializeEnum for MountProgram {
    open spec fn of_discriminant(d: i32) -> Option<MountProgram> {
        if d == 0i32 {
            Some(MountProgram::MOUNTPROC3_NULL)
        } else if d == 1i32 {
            Some(MountProgram::MOUNTPROC3_MNT)
        } else if d == 2i32 {
            Some(MountProgram::MOUNTPROC3_DUMP)
        } else if d == 3i32 {
            Some(MountProgram::MOUNTPROC3_UMNT)
        } else if d == 4i32 {
            Some(MountProgram::MOUNTPROC3_UMNTALL)
        } else if d == 5i32 {
            Some(MountProgram::MOUNTPROC3_EXPORT)
        } else if d == 6i32 {
            Some(MountProgram::INVALID)
        } else {
            None
        }
    }

    fn from_i32(d: i32) -> (r: Option<MountProgram>) {
        if d == 0 {
            Some(MountProgram::MOUNTPROC3_NULL)
        } else if d == 1 {
            Some(MountProgram::MOUNTPROC3_MNT)
        } else if d == 2 {
            Some(MountProgram::MOUNTPROC3_DUMP)
        } else if d == 3 {
            Some(MountProgram::MOUNTPROC3_UMNT)
        } else if d == 4 {
            Some(MountProgram::MOUNTPROC3_UMNTALL)
        } else if d == 5 {
            Some(MountProgram::MOUNTPROC3_EXPORT)
        } else if d == 6 {
            Some(MountProgram::INVALID)
        } else {
            None
        }
    }
}

impl Deserialize for MountProgram {
    open spec fn decoding(s: Seq<u8>, at: int) -> Parsed<MountProgram> {
        enum_decoding::<MountProgram>(s, at)
    }

    fn deserialize(src: &mut Cursor) -> (r: Result<MountProgram, Error>) {
        deserialize_enum(src)
    }
}

impl RoundTrip for MountProgram {
    proof fn lemma_roundtrip(&self, s: Seq<u8>, at: int) {
        lemma_u32_at(s, at, self.discriminant() as u32);
        lemma_i32_u32(self.discriminant());
    }
}

/// The arguments of a MOUNT call, by procedure.
#[derive(Debug)]
pub enum Args {
    Null,
    /// The directory path to mount.
    Mnt(Vec<u8>),
    Dump,
    /// The directory path to unmount.
    Umnt(Vec<u8>),
    Umntall,
    Export,
}

/// [`Args`] with the paths by their bytes.
pub enum ArgsView {
    Null,
    Mnt(Seq<u8>),
    Dump,
    Umnt(Seq<u8>),
    Umntall,
    Export,
}

impl View for Args {
    type V = ArgsView;

    open spec fn view(&self) -> ArgsView {
        match self {
            Args::Null => ArgsView::Null,
            Args::Mnt(p) => ArgsView::Mnt(p@),
            Args::Dump => ArgsView::Dump,
            Args::Umnt(p) => ArgsView::Umnt(p@),
            Args::Umntall => ArgsView::Umntall,
            Args::Export => ArgsView::Export,
        }
    }
}

} // verus!
