//! Data types of the NFS version 3 procedures on directories.
use vstd::prelude::*;
use vstd::seq_lib::lemma_concat_associative;

use crate::encoding::{be32_bytes, be64_bytes, write_be_u32};
use crate::parser::cursor::{spec_u32, Cursor};
use crate::protocol::xdr::{
    deserialize_enum, enum_decoding, enum_encoding, invalid_data, option_decoding, serialize_enum,
    Deserialize, DeserializeEnum, Serialize, SerializeEnum,
};
use crate::protocol::xdr::{lemma_holds_split, lemma_i32_u32, lemma_u32_at, RoundTrip};
use crate::rpc::{Error, IoErrorKind, Parsed};
use crate::protocol::xdr::nfs3::{DiropArgs3, DiropArgs3View, FAttr3, FType3, NFSFh3, NFSString, SAttr3, SpecData3, SymlinkData3, SymlinkData3View};

verus! {

broadcast use crate::encoding::lemma_keeps_prefix_trans;

/// The kind of special file `MKNOD` creates.
#[allow(non_camel_case_types)]
#[derive(Debug, Clone, Copy, PartialEq, Eq)]
pub enum DeviceType3 {
    NF3Chr,
    NF3Blk,
    NF3Sock,
    NF3Fifo,
}

impl View for DeviceType3 {
    type V = DeviceType3;

    open spec fn view(&self) -> DeviceType3 {
        *self
    }
}

impl SerializeEnum for DeviceType3 {
    open spec fn discriminant(&self) -> i32 {
        match self {
            DeviceType3::NF3Chr => 0i32,
            DeviceType3::NF3Blk => 1i32,
            DeviceType3::NF3Sock => 2i32,
            DeviceType3::NF3Fifo => 3i32,
        }
    }

    fn to_i32(&self) -> (r: i32) {
        match self {
            DeviceType3::NF3Chr => 0,
            DeviceType3::NF3Blk => 1,
            DeviceType3::NF3Sock => 2,
            DeviceType3::NF3Fifo => 3,
        }
    }
}

impl Serialize for DeviceType3 {
    open spec fn encodable(&self) -> bool {
        true
    }

    open spec fn encoding(&self) -> Seq<u8> {
        enum_encoding(self.discriminant())
    }

    fn serialize(&self, dest: &mut Vec<u8>) -> (r: Result<(), Error>) {
        serialize_enum(self, dest);
        Ok(())
    }
}

impl DeserializeEnum for DeviceType3 {
    open spec fn of_discriminant(d: i32) -> Option<DeviceType3> {
        if d == 0i32 {
            Some(DeviceType3::NF3Chr)
        } else if d == 1i32 {
            Some(DeviceType3::NF3Blk)
        } else if d == 2i32 {
            Some(DeviceType3::NF3Sock)
        } else if d == 3i32 {
            Some(DeviceType3::NF3Fifo)
        } else {
            None
        }
    }

    fn from_i32(d: i32) -> (r: Option<DeviceType3>) {
        if d == 0 {
            Some(DeviceType3::NF3Chr)
        } else if d == 1 {
            Some(DeviceType3::NF3Blk)
        } else if d == 2 {
            Some(DeviceType3::NF3Sock)
        } else if d == 3 {
            Some(DeviceType3::NF3Fifo)
        } else {
            None
        }
    }
}

impl Deserialize for DeviceType3 {
    open spec fn decoding(s: Seq<u8>, at: int) -> Parsed<DeviceType3> {
        enum_decoding::<DeviceType3>(s, at)
    }

    fn deserialize(src: &mut Cursor) -> (r: Result<DeviceType3, Error>) {
        deserialize_enum(src)
    }
}

impl RoundTrip for DeviceType3 {
    proof fn lemma_roundtrip(&self, s: Seq<u8>, at: int) {
        lemma_u32_at(s, at, self.discriminant() as u32);
        lemma_i32_u32(self.discriminant());
    }
}

impl Default for DeviceType3 {
    fn default() -> (r: DeviceType3)
        ensures
            r == DeviceType3::NF3Chr,
    {
        DeviceType3::NF3Chr
    }
}

/// Arguments of `MKDIR`.
#[allow(non_camel_case_types)]
#[derive(Debug, PartialEq, Eq)]
pub struct MkDir3Args {
    /// Where to create the directory.
    pub dirops: DiropArgs3,
    /// Its initial attributes.
    pub attributes: SAttr3,
}

/// [`MkDir3Args`] with every field by its view.
#[allow(non_camel_case_types)]
pub struct MkDir3ArgsView {
    pub dirops: DiropArgs3View,
    pub attributes: SAttr3,
}

impl View for MkDir3Args {
    type V = MkDir3ArgsView;

    open spec fn view(&self) -> MkDir3ArgsView {
        MkDir3ArgsView { dirops: self.dirops@, attributes: self.attributes@ }
    }
}

impl Serialize for MkDir3Args {
    open spec fn encodable(&self) -> bool {
        self.dirops.encodable() && self.attributes.encodable()
    }

    open spec fn encoding(&self) -> Seq<u8> {
        self.dirops.encoding() + self.attributes.encoding()
    }

    fn serialize(&self, dest: &mut Vec<u8>) -> (r: Result<(), Error>) {
        let ghost start = dest@;
        self.dirops.serialize(dest)?;
        self.attributes.serialize(dest)?;
        proof {
            lemma_concat_associative(start, self.dirops.encoding(), self.attributes.encoding());
        }
        Ok(())
    }
}

impl Deserialize for MkDir3Args {
    open spec fn decoding(s: Seq<u8>, at: int) -> Parsed<MkDir3ArgsView> {
        match <DiropArgs3 as Deserialize>::decoding(s, at) {
            Err(e) => Err(e),
            Ok((v0, p0)) => match <SAttr3 as Deserialize>::decoding(s, p0) {
                Err(e) => Err(e),
                Ok((v1, p1)) => Ok((MkDir3ArgsView { dirops: v0, attributes: v1 }, p1)),
            },
        }
    }

    fn deserialize(src: &mut Cursor) -> (r: Result<MkDir3Args, Error>) {
        let dirops = <DiropArgs3 as Deserialize>::deserialize(src)?;
        let attributes = <SAttr3 as Deserialize>::deserialize(src)?;
        Ok(MkDir3Args { dirops, attributes })
    }
}

impl RoundTrip for MkDir3Args {
    #[verifier::spinoff_prover]
    #[verifier::rlimit(100)]
    proof fn lemma_roundtrip(&self, s: Seq<u8>, at: int) {
        lemma_holds_split(s, at, self.dirops.encoding(), self.attributes.encoding());
        self.dirops.lemma_roundtrip(s, at);
        self.attributes.lemma_roundtrip(s, at + self.dirops.encoding().len());
    }
}

/// Arguments of `SYMLINK`.
#[allow(non_camel_case_types)]
#[derive(Debug, PartialEq, Eq)]
pub struct Symlink3Args {
    /// Where to create the link.
    pub dirops: DiropArgs3,
    /// Its attributes and target.
    pub symlink: SymlinkData3,
}

/// [`Symlink3Args`] with every field by its view.
#[allow(non_camel_case_types)]
pub struct Symlink3ArgsView {
    pub dirops: DiropArgs3View,
    pub symlink: SymlinkData3View,
}

impl View for Symlink3Args {
    type V = Symlink3ArgsView;

    open spec fn view(&self) -> Symlink3ArgsView {
        Symlink3ArgsView { dirops: self.dirops@, symlink: self.symlink@ }
    }
}

impl Serialize for Symlink3Args {
    open spec fn encodable(&self) -> bool {
        self.dirops.encodable() && self.symlink.encodable()
    }

    open spec fn encoding(&self) -> Seq<u8> {
        self.dirops.encoding() + self.symlink.encoding()
    }

    fn serialize(&self, dest: &mut Vec<u8>) -> (r: Result<(), Error>) {
        let ghost start = dest@;
        self.dirops.serialize(dest)?;
        self.symlink.serialize(dest)?;
        proof {
            lemma_concat_associative(start, self.dirops.encoding(), self.symlink.encoding());
        }
        Ok(())
    }
}

impl Deserialize for Symlink3Args {
    open spec fn decoding(s: Seq<u8>, at: int) -> Parsed<Symlink3ArgsView> {
        match <DiropArgs3 as Deserialize>::decoding(s, at) {
            Err(e) => Err(e),
            Ok((v0, p0)) => match <SymlinkData3 as Deserialize>::decoding(s, p0) {
                Err(e) => Err(e),
                Ok((v1, p1)) => Ok((Symlink3ArgsView { dirops: v0, symlink: v1 }, p1)),
            },
        }
    }

    fn deserialize(src: &mut Cursor) -> (r: Result<Symlink3Args, Error>) {
        let dirops = <DiropArgs3 as Deserialize>::deserialize(src)?;
        let symlink = <SymlinkData3 as Deserialize>::deserialize(src)?;
        Ok(Symlink3Args { dirops, symlink })
    }
}

impl RoundTrip for Symlink3Args {
    #[verifier::spinoff_prover]
    #[verifier::rlimit(100)]
    proof fn lemma_roundtrip(&self, s: Seq<u8>, at: int) {
        lemma_holds_split(s, at, self.dirops.encoding(), self.symlink.encoding());
        self.dirops.lemma_roundtrip(s, at);
        self.symlink.lemma_roundtrip(s, at + self.dirops.encoding().len());
    }
}

/// A directory entry of `READDIR`.
#[allow(non_camel_case_types)]
#[derive(Debug, PartialEq, Eq)]
pub struct Entry3 {
    /// File identifier.
    pub fileid: u64,
    /// Name of the entry.
    pub name: NFSString,
    /// Where to resume reading after it.
    pub cookie: u64,
}

/// [`Entry3`] with every field by its view.
#[allow(non_camel_case_types)]
pub struct Entry3View {
    pub fileid: u64,
    pub name: Seq<u8>,
    pub cookie: u64,
}

impl View for Entry3 {
    type V = Entry3View;

    open spec fn view(&self) -> Entry3View {
        Entry3View { fileid: self.fileid@, name: self.name@, cookie: self.cookie@ }
    }
}

impl Serialize for Entry3 {
    open spec fn encodable(&self) -> bool {
        self.fileid.encodable() && self.name.encodable() && self.cookie.encodable()
    }

    open spec fn encoding(&self) -> Seq<u8> {
        self.fileid.encoding() + self.name.encoding() + self.cookie.encoding()
    }

    fn serialize(&self, dest: &mut Vec<u8>) -> (r: Result<(), Error>) {
        let ghost start = dest@;
        self.fileid.serialize(dest)?;
        self.name.serialize(dest)?;
        proof {
            lemma_concat_associative(start, self.fileid.encoding(), self.name.encoding());
        }
        self.cookie.serialize(dest)?;
        proof {
            lemma_concat_associative(start, self.fileid.encoding() + self.name.encoding(), self.cookie.encoding());
        }
        Ok(())
    }
}

impl Deserialize for Entry3 {
    open spec fn decoding(s: Seq<u8>, at: int) -> Parsed<Entry3View> {
        match <u64 as Deserialize>::decoding(s, at) {
            Err(e) => Err(e),
            Ok((v0, p0)) => match <NFSString as Deserialize>::decoding(s, p0) {
                Err(e) => Err(e),
                Ok((v1, p1)) => match <u64 as Deserialize>::decoding(s, p1) {
                    Err(e) => Err(e),
                    Ok((v2, p2)) => Ok((Entry3View { fileid: v0, name: v1, cookie: v2 }, p2)),
                },
            },
        }
    }

    fn deserialize(src: &mut Cursor) -> (r: Result<Entry3, Error>) {
        let fileid = <u64 as Deserialize>::deserialize(src)?;
        let name = <NFSString as Deserialize>::deserialize(src)?;
        let cookie = <u64 as Deserialize>::deserialize(src)?;
        Ok(Entry3 { fileid, name, cookie })
    }
}

impl RoundTrip for Entry3 {
    #[verifier::spinoff_prover]
    #[verifier::rlimit(100)]
    proof fn lemma_roundtrip(&self, s: Seq<u8>, at: int) {
        lemma_holds_split(s, at, self.fileid.encoding() + self.name.encoding(), self.cookie.encoding());
        lemma_holds_split(s, at, self.fileid.encoding(), self.name.encoding());
        self.fileid.lemma_roundtrip(s, at);
        self.name.lemma_roundtrip(s, at + self.fileid.encoding().len());
        self.cookie.lemma_roundtrip(s, at + (self.fileid.encoding() + self.name.encoding()).len());
    }
}

/// Arguments of `READDIR`.
#[allow(non_camel_case_types)]
#[derive(Debug, Clone, Copy, PartialEq, Eq)]
pub struct READDIR3args {
    /// The directory.
    pub dir: NFSFh3,
    /// Where to resume.
    pub cookie: u64,
    /// Verifier of the cookie.
    pub cookieverf: [u8; 8],
    /// Maximum size of the reply.
    pub dircount: u32,
}

/// [`READDIR3args`] with every field by its view.
#[allow(non_camel_case_types)]
pub struct READDIR3argsView {
    pub dir: NFSFh3,
    pub cookie: u64,
    pub cookieverf: Seq<u8>,
    pub dircount: u32,
}

impl View for READDIR3args {
    type V = READDIR3argsView;

    open spec fn view(&self) -> READDIR3argsView {
        READDIR3argsView { dir: self.dir@, cookie: self.cookie@, cookieverf: self.cookieverf@, dircount: self.dircount@ }
    }
}

impl Serialize for READDIR3args {
    open spec fn encodable(&self) -> bool {
        self.dir.encodable() && self.cookie.encodable() && self.cookieverf.encodable() && self.dircount.encodable()
    }

    open spec fn encoding(&self) -> Seq<u8> {
        self.dir.encoding() + self.cookie.encoding() + self.cookieverf.encoding() + self.dircount.encoding()
    }

    fn serialize(&self, dest: &mut Vec<u8>) -> (r: Result<(), Error>) {
        let ghost start = dest@;
        self.dir.serialize(dest)?;
        self.cookie.serialize(dest)?;
        proof {
            lemma_concat_associative(start, self.dir.encoding(), self.cookie.encoding());
        }
        self.cookieverf.serialize(dest)?;
        proof {
            lemma_concat_associative(start, self.dir.encoding() + self.cookie.encoding(), self.cookieverf.encoding());
        }
        self.dircount.serialize(dest)?;
        proof {
            lemma_concat_associative(start, self.dir.encoding() + self.cookie.encoding() + self.cookieverf.encoding(), self.dircount.encoding());
        }
        Ok(())
    }
}

impl Deserialize for READDIR3args {
    open spec fn decoding(s: Seq<u8>, at: int) -> Parsed<READDIR3argsView> {
        match <NFSFh3 as Deserialize>::decoding(s, at) {
            Err(e) => Err(e),
            Ok((v0, p0)) => match <u64 as Deserialize>::decoding(s, p0) {
                Err(e) => Err(e),
                Ok((v1, p1)) => match <[u8; 8] as Deserialize>::decoding(s, p1) {
                    Err(e) => Err(e),
                    Ok((v2, p2)) => match <u32 as Deserialize>::decoding(s, p2) {
                        Err(e) => Err(e),
                        Ok((v3, p3)) => Ok((READDIR3argsView { dir: v0, cookie: v1, cookieverf: v2, dircount: v3 }, p3)),
                    },
                },
            },
        }
    }

    fn deserialize(src: &mut Cursor) -> (r: Result<READDIR3args, Error>) {
        let dir = <NFSFh3 as Deserialize>::deserialize(src)?;
        let cookie = <u64 as Deserialize>::deserialize(src)?;
        let cookieverf = <[u8; 8] as Deserialize>::deserialize(src)?;
        let dircount = <u32 as Deserialize>::deserialize(src)?;
        Ok(READDIR3args { dir, cookie, cookieverf, dircount })
    }
}

impl RoundTrip for READDIR3args {
    #[verifier::spinoff_prover]
    #[verifier::rlimit(100)]
    proof fn lemma_roundtrip(&self, s: Seq<u8>, at: int) {
        lemma_holds_split(s, at, self.dir.encoding() + self.cookie.encoding() + self.cookieverf.encoding(), self.dircount.encoding());
        lemma_holds_split(s, at, self.dir.encoding() + self.cookie.encoding(), self.cookieverf.encoding());
        lemma_holds_split(s, at, self.dir.encoding(), self.cookie.encoding());
        self.dir.lemma_roundtrip(s, at);
        self.cookie.lemma_roundtrip(s, at + self.dir.encoding().len());
        self.cookieverf.lemma_roundtrip(s, at + (self.dir.encoding() + self.cookie.encoding()).len());
        self.dircount.lemma_roundtrip(s, at + (self.dir.encoding() + self.cookie.encoding() + self.cookieverf.encoding()).len());
    }
}

/// A directory entry of `READDIRPLUS`.
#[allow(non_camel_case_types)]
#[derive(Debug, PartialEq, Eq)]
pub struct EntryPlus3 {
    /// File identifier.
    pub fileid: u64,
    /// Name of the entry.
    pub name: NFSString,
    /// Where to resume reading after it.
    pub cookie: u64,
    /// Attributes of the entry.
    pub name_attributes: Option<FAttr3>,
    /// File handle of the entry.
    pub name_handle: Option<NFSFh3>,
}

/// [`EntryPlus3`] with every field by its view.
#[allow(non_camel_case_types)]
pub struct EntryPlus3View {
    pub fileid: u64,
    pub name: Seq<u8>,
    pub cookie: u64,
    pub name_attributes: Option<FAttr3>,
    pub name_handle: Option<NFSFh3>,
}

impl View for EntryPlus3 {
    type V = EntryPlus3View;

    open spec fn view(&self) -> EntryPlus3View {
        EntryPlus3View { fileid: self.fileid@, name: self.name@, cookie: self.cookie@, name_attributes: self.name_attributes@, name_handle: self.name_handle@ }
    }
}

impl Serialize for EntryPlus3 {
    open spec fn encodable(&self) -> bool {
        self.fileid.encodable() && self.name.encodable() && self.cookie.encodable() && self.name_attributes.encodable() && self.name_handle.encodable()
    }

    open spec fn encoding(&self) -> Seq<u8> {
        self.fileid.encoding() + self.name.encoding() + self.cookie.encoding() + self.name_attributes.encoding() + self.name_handle.encoding()
    }

    fn serialize(&self, dest: &mut Vec<u8>) -> (r: Result<(), Error>) {
        let ghost start = dest@;
        self.fileid.serialize(dest)?;
        self.name.serialize(dest)?;
        proof {
            lemma_concat_associative(start, self.fileid.encoding(), self.name.encoding());
        }
        self.cookie.serialize(dest)?;
        proof {
            lemma_concat_associative(start, self.fileid.encoding() + self.name.encoding(), self.cookie.encoding());
        }
        self.name_attributes.serialize(dest)?;
        proof {
            lemma_concat_associative(start, self.fileid.encoding() + self.name.encoding() + self.cookie.encoding(), self.name_attributes.encoding());
        }
        self.name_handle.serialize(dest)?;
        proof {
            lemma_concat_associative(start, self.fileid.encoding() + self.name.encoding() + self.cookie.encoding() + self.name_attributes.encoding(), self.name_handle.encoding());
        }
        Ok(())
    }
}

impl Deserialize for EntryPlus3 {
    open spec fn decoding(s: Seq<u8>, at: int) -> Parsed<EntryPlus3View> {
        match <u64 as Deserialize>::decoding(s, at) {
            Err(e) => Err(e),
            Ok((v0, p0)) => match <NFSString as Deserialize>::decoding(s, p0) {
                Err(e) => Err(e),
                Ok((v1, p1)) => match <u64 as Deserialize>::decoding(s, p1) {
                    Err(e) => Err(e),
                    Ok((v2, p2)) => match <Option<FAttr3> as Deserialize>::decoding(s, p2) {
                        Err(e) => Err(e),
                        Ok((v3, p3)) => match <Option<NFSFh3> as Deserialize>::decoding(s, p3) {
                            Err(e) => Err(e),
                            Ok((v4, p4)) => Ok((EntryPlus3View { fileid: v0, name: v1, cookie: v2, name_attributes: v3, name_handle: v4 }, p4)),
                        },
                    },
                },
            },
        }
    }

    fn deserialize(src: &mut Cursor) -> (r: Result<EntryPlus3, Error>) {
        let fileid = <u64 as Deserialize>::deserialize(src)?;
        let name = <NFSString as Deserialize>::deserialize(src)?;
        let cookie = <u64 as Deserialize>::deserialize(src)?;
        let name_attributes = <Option<FAttr3> as Deserialize>::deserialize(src)?;
        let name_handle = <Option<NFSFh3> as Deserialize>::deserialize(src)?;
        Ok(EntryPlus3 { fileid, name, cookie, name_attributes, name_handle })
    }
}

impl RoundTrip for EntryPlus3 {
    #[verifier::spinoff_prover]
    #[verifier::rlimit(100)]
    proof fn lemma_roundtrip(&self, s: Seq<u8>, at: int) {
        lemma_holds_split(s, at, self.fileid.encoding() + self.name.encoding() + self.cookie.encoding() + self.name_attributes.encoding(), self.name_handle.encoding());
        lemma_holds_split(s, at, self.fileid.encoding() + self.name.encoding() + self.cookie.encoding(), self.name_attributes.encoding());
        lemma_holds_split(s, at, self.fileid.encoding() + self.name.encoding(), self.cookie.encoding());
        lemma_holds_split(s, at, self.fileid.encoding(), self.name.encoding());
        self.fileid.lemma_roundtrip(s, at);
        self.name.lemma_roundtrip(s, at + self.fileid.encoding().len());
        self.cookie.lemma_roundtrip(s, at + (self.fileid.encoding() + self.name.encoding()).len());
        self.name_attributes.lemma_roundtrip(s, at + (self.fileid.encoding() + self.name.encoding() + self.cookie.encoding()).len());
        self.name_handle.lemma_roundtrip(s, at + (self.fileid.encoding() + self.name.encoding() + self.cookie.encoding() + self.name_attributes.encoding()).len());
    }
}

/// Arguments of `READDIRPLUS`.
#[allow(non_camel_case_types)]
#[derive(Debug, Clone, Copy, PartialEq, Eq)]
pub struct READDIRPLUS3args {
    /// The directory.
    pub dir: NFSFh3,
    /// Where to resume.
    pub cookie: u64,
    /// Verifier of the cookie.
    pub cookieverf: [u8; 8],
    /// Maximum size of the directory information.
    pub dircount: u32,
    /// Maximum size of the reply.
    pub maxcount: u32,
}

/// [`READDIRPLUS3args`] with every field by its view.
#[allow(non_camel_case_types)]
pub struct READDIRPLUS3argsView {
    pub dir: NFSFh3,
    pub cookie: u64,
    pub cookieverf: Seq<u8>,
    pub dircount: u32,
    pub maxcount: u32,
}

impl View for READDIRPLUS3args {
    type V = READDIRPLUS3argsView;

    open spec fn view(&self) -> READDIRPLUS3argsView {
        READDIRPLUS3argsView { dir: self.dir@, cookie: self.cookie@, cookieverf: self.cookieverf@, dircount: self.dircount@, maxcount: self.maxcount@ }
    }
}

impl Serialize for READDIRPLUS3args {
    open spec fn encodable(&self) -> bool {
        self.dir.encodable() && self.cookie.encodable() && self.cookieverf.encodable() && self.dircount.encodable() && self.maxcount.encodable()
    }

    open spec fn encoding(&self) -> Seq<u8> {
        self.dir.encoding() + self.cookie.encoding() + self.cookieverf.encoding() + self.dircount.encoding() + self.maxcount.encoding()
    }

    fn serialize(&self, dest: &mut Vec<u8>) -> (r: Result<(), Error>) {
        let ghost start = dest@;
        self.dir.serialize(dest)?;
        self.cookie.serialize(dest)?;
        proof {
            lemma_concat_associative(start, self.dir.encoding(), self.cookie.encoding());
        }
        self.cookieverf.serialize(dest)?;
        proof {
            lemma_concat_associative(start, self.dir.encoding() + self.cookie.encoding(), self.cookieverf.encoding());
        }
        self.dircount.serialize(dest)?;
        proof {
            lemma_concat_associative(start, self.dir.encoding() + self.cookie.encoding() + self.cookieverf.encoding(), self.dircount.encoding());
        }
        self.maxcount.serialize(dest)?;
        proof {
            lemma_concat_associative(start, self.dir.encoding() + self.cookie.encoding() + self.cookieverf.encoding() + self.dircount.encoding(), self.maxcount.encoding());
        }
        Ok(())
    }
}

impl Deserialize for READDIRPLUS3args {
    open spec fn decoding(s: Seq<u8>, at: int) -> Parsed<READDIRPLUS3argsView> {
        match <NFSFh3 as Deserialize>::decoding(s, at) {
            Err(e) => Err(e),
            Ok((v0, p0)) => match <u64 as Deserialize>::decoding(s, p0) {
                Err(e) => Err(e),
                Ok((v1, p1)) => match <[u8; 8] as Deserialize>::decoding(s, p1) {
                    Err(e) => Err(e),
                    Ok((v2, p2)) => match <u32 as Deserialize>::decoding(s, p2) {
                        Err(e) => Err(e),
                        Ok((v3, p3)) => match <u32 as Deserialize>::decoding(s, p3) {
                            Err(e) => Err(e),
                            Ok((v4, p4)) => Ok((READDIRPLUS3argsView { dir: v0, cookie: v1, cookieverf: v2, dircount: v3, maxcount: v4 }, p4)),
                        },
                    },
                },
            },
        }
    }

    fn deserialize(src: &mut Cursor) -> (r: Result<READDIRPLUS3args, Error>) {
        let dir = <NFSFh3 as Deserialize>::deserialize(src)?;
        let cookie = <u64 as Deserialize>::deserialize(src)?;
        let cookieverf = <[u8; 8] as Deserialize>::deserialize(src)?;
        let dircount = <u32 as Deserialize>::deserialize(src)?;
        let maxcount = <u32 as Deserialize>::deserialize(src)?;
        Ok(READDIRPLUS3args { dir, cookie, cookieverf, dircount, maxcount })
    }
}

impl RoundTrip for READDIRPLUS3args {
    #[verifier::spinoff_prover]
    #[verifier::rlimit(100)]
    proof fn lemma_roundtrip(&self, s: Seq<u8>, at: int) {
        lemma_holds_split(s, at, self.dir.encoding() + self.cookie.encoding() + self.cookieverf.encoding() + self.dircount.encoding(), self.maxcount.encoding());
        lemma_holds_split(s, at, self.dir.encoding() + self.cookie.encoding() + self.cookieverf.encoding(), self.dircount.encoding());
        lemma_holds_split(s, at, self.dir.encoding() + self.cookie.encoding(), self.cookieverf.encoding());
        lemma_holds_split(s, at, self.dir.encoding(), self.cookie.encoding());
        self.dir.lemma_roundtrip(s, at);
        self.cookie.lemma_roundtrip(s, at + self.dir.encoding().len());
        self.cookieverf.lemma_roundtrip(s, at + (self.dir.encoding() + self.cookie.encoding()).len());
        self.dircount.lemma_roundtrip(s, at + (self.dir.encoding() + self.cookie.encoding() + self.cookieverf.encoding()).len());
        self.maxcount.lemma_roundtrip(s, at + (self.dir.encoding() + self.cookie.encoding() + self.cookieverf.encoding() + self.dircount.encoding()).len());
    }
}

/// A device to create.
#[allow(non_camel_case_types)]
#[derive(Debug, Clone, Copy, PartialEq, Eq)]
pub struct DeviceData3 {
    /// Its kind.
    pub dev_type: DeviceType3,
    /// Its device numbers.
    pub device: SpecData3,
}

impl View for DeviceData3 {
    type V = DeviceData3;

    open spec fn view(&self) -> DeviceData3 {
        *self
    }
}

impl Serialize for DeviceData3 {
    open spec fn encodable(&self) -> bool {
        self.dev_type.encodable() && self.device.encodable()
    }

    open spec fn encoding(&self) -> Seq<u8> {
        self.dev_type.encoding() + self.device.encoding()
    }

    fn serialize(&self, dest: &mut Vec<u8>) -> (r: Result<(), Error>) {
        let ghost start = dest@;
        self.dev_type.serialize(dest)?;
        self.device.serialize(dest)?;
        proof {
            lemma_concat_associative(start, self.dev_type.encoding(), self.device.encoding());
        }
        Ok(())
    }
}

impl Deserialize for DeviceData3 {
    open spec fn decoding(s: Seq<u8>, at: int) -> Parsed<DeviceData3> {
        match <DeviceType3 as Deserialize>::decoding(s, at) {
            Err(e) => Err(e),
            Ok((v0, p0)) => match <SpecData3 as Deserialize>::decoding(s, p0) {
                Err(e) => Err(e),
                Ok((v1, p1)) => Ok((DeviceData3 { dev_type: v0, device: v1 }, p1)),
            },
        }
    }

    fn deserialize(src: &mut Cursor) -> (r: Result<DeviceData3, Error>) {
        let dev_type = <DeviceType3 as Deserialize>::deserialize(src)?;
        let device = <SpecData3 as Deserialize>::deserialize(src)?;
        Ok(DeviceData3 { dev_type, device })
    }
}

impl RoundTrip for DeviceData3 {
    #[verifier::spinoff_prover]
    #[verifier::rlimit(100)]
    proof fn lemma_roundtrip(&self, s: Seq<u8>, at: int) {
        lemma_holds_split(s, at, self.dev_type.encoding(), self.device.encoding());
        self.dev_type.lemma_roundtrip(s, at);
        self.device.lemma_roundtrip(s, at + self.dev_type.encoding().len());
    }
}

/// What `MKNOD` creates.
#[allow(non_camel_case_types)]
#[derive(Debug, Clone, Copy, PartialEq, Eq)]
pub struct MkNodData3 {
    /// The type of the new object.
    pub mknod_type: FType3,
    /// The device it stands for.
    pub device: DeviceData3,
}

impl View for MkNodData3 {
    type V = MkNodData3;

    open spec fn view(&self) -> MkNodData3 {
        *self
    }
}

impl Serialize for MkNodData3 {
    open spec fn encodable(&self) -> bool {
        self.mknod_type.encodable() && self.device.encodable()
    }

    open spec fn encoding(&self) -> Seq<u8> {
        self.mknod_type.encoding() + self.device.encoding()
    }

    fn serialize(&self, dest: &mut Vec<u8>) -> (r: Result<(), Error>) {
        let ghost start = dest@;
        self.mknod_type.serialize(dest)?;
        self.device.serialize(dest)?;
        proof {
            lemma_concat_associative(start, self.mknod_type.encoding(), self.device.encoding());
        }
        Ok(())
    }
}

impl Deserialize for MkNodData3 {
    open spec fn decoding(s: Seq<u8>, at: int) -> Parsed<MkNodData3> {
        match <FType3 as Deserialize>::decoding(s, at) {
            Err(e) => Err(e),
            Ok((v0, p0)) => match <DeviceData3 as Deserialize>::decoding(s, p0) {
                Err(e) => Err(e),
                Ok((v1, p1)) => Ok((MkNodData3 { mknod_type: v0, device: v1 }, p1)),
            },
        }
    }

    fn deserialize(src: &mut Cursor) -> (r: Result<MkNodData3, Error>) {
        let mknod_type = <FType3 as Deserialize>::deserialize(src)?;
        let device = <DeviceData3 as Deserialize>::deserialize(src)?;
        Ok(MkNodData3 { mknod_type, device })
    }
}

impl RoundTrip for MkNodData3 {
    #[verifier::spinoff_prover]
    #[verifier::rlimit(100)]
    proof fn lemma_roundtrip(&self, s: Seq<u8>, at: int) {
        lemma_holds_split(s, at, self.mknod_type.encoding(), self.device.encoding());
        self.mknod_type.lemma_roundtrip(s, at);
        self.device.lemma_roundtrip(s, at + self.mknod_type.encoding().len());
    }
}

/// Arguments of `MKNOD`.
#[allow(non_camel_case_types)]
#[derive(Debug, PartialEq, Eq)]
pub struct MKNOD3args {
    /// Where to create the object.
    pub where_dir: DiropArgs3,
    /// What to create.
    pub what: MkNodData3,
}

/// [`MKNOD3args`] with every field by its view.
#[allow(non_camel_case_types)]
pub struct MKNOD3argsView {
    pub where_dir: DiropArgs3View,
    pub what: MkNodData3,
}

impl View for MKNOD3args {
    type V = MKNOD3argsView;

    open spec fn view(&self) -> MKNOD3argsView {
        MKNOD3argsView { where_dir: self.where_dir@, what: self.what@ }
    }
}

impl Serialize for MKNOD3args {
    open spec fn encodable(&self) -> bool {
        self.where_dir.encodable() && self.what.encodable()
    }

    open spec fn encoding(&self) -> Seq<u8> {
        self.where_dir.encoding() + self.what.encoding()
    }

    fn serialize(&self, dest: &mut Vec<u8>) -> (r: Result<(), Error>) {
        let ghost start = dest@;
        self.where_dir.serialize(dest)?;
        self.what.serialize(dest)?;
        proof {
            lemma_concat_associative(start, self.where_dir.encoding(), self.what.encoding());
        }
        Ok(())
    }
}

impl Deserialize for MKNOD3args {
    open spec fn decoding(s: Seq<u8>, at: int) -> Parsed<MKNOD3argsView> {
        match <DiropArgs3 as Deserialize>::decoding(s, at) {
            Err(e) => Err(e),
            Ok((v0, p0)) => match <MkNodData3 as Deserialize>::decoding(s, p0) {
                Err(e) => Err(e),
                Ok((v1, p1)) => Ok((MKNOD3argsView { where_dir: v0, what: v1 }, p1)),
            },
        }
    }

    fn deserialize(src: &mut Cursor) -> (r: Result<MKNOD3args, Error>) {
        let where_dir = <DiropArgs3 as Deserialize>::deserialize(src)?;
        let what = <MkNodData3 as Deserialize>::deserialize(src)?;
        Ok(MKNOD3args { where_dir, what })
    }
}

impl RoundTrip for MKNOD3args {
    #[verifier::spinoff_prover]
    #[verifier::rlimit(100)]
    proof fn lemma_roundtrip(&self, s: Seq<u8>, at: int) {
        lemma_holds_split(s, at, self.where_dir.encoding(), self.what.encoding());
        self.where_dir.lemma_roundtrip(s, at);
        self.what.lemma_roundtrip(s, at + self.where_dir.encoding().len());
    }
}

} // verus!
