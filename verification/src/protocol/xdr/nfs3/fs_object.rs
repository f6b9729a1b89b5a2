//! Data types of the NFS version 3 procedures on single objects.
use vstd::prelude::*;
use vstd::seq_lib::lemma_concat_associative;

use crate::encoding::{be32_bytes, be64_bytes, write_be_u32};
use crate::parser::cursor::{spec_u32, Cursor};
use crate::protocol::xdr::{
    deserialize_enum, enum_decoding, enum_encoding, invalid_data, option_decoding, serialize_enum,
    Deserialize, DeserializeEnum, Serialize, SerializeEnum,
};
use crate::protocol::xdr::{lemma_holds_split, lemma_i32_u32, lemma_u32_at, RoundTrip};
use crate::rpc::{Error, IoErrorKind, Parsed};
use crate::protocol::xdr::nfs3::{DiropArgs3, DiropArgs3View, NFSFh3, NFSTime3, SAttr3, SpecData3, SymlinkData3, SymlinkData3View};

verus! {

broadcast use crate::encoding::lemma_keeps_prefix_trans;

/// Arguments of `ACCESS`.
#[allow(non_camel_case_types)]
#[derive(Debug, Clone, Copy, PartialEq, Eq)]
pub struct ACCESS3args {
    /// The object.
    pub object: NFSFh3,
    /// The `ACCESS3_` bits asked about.
    pub access: u32,
}

impl View for ACCESS3args {
    type V = ACCESS3args;

    open spec fn view(&self) -> ACCESS3args {
        *self
    }
}

impl Serialize for ACCESS3args {
    open spec fn encodable(&self) -> bool {
        self.object.encodable() && self.access.encodable()
    }

    open spec fn encoding(&self) -> Seq<u8> {
        self.object.encoding() + self.access.encoding()
    }

    fn serialize(&self, dest: &mut Vec<u8>) -> (r: Result<(), Error>) {
        let ghost start = dest@;
        self.object.serialize(dest)?;
        self.access.serialize(dest)?;
        proof {
            lemma_concat_associative(start, self.object.encoding(), self.access.encoding());
        }
        Ok(())
    }
}

impl Deserialize for ACCESS3args {
    open spec fn decoding(s: Seq<u8>, at: int) -> Parsed<ACCESS3args> {
        match <NFSFh3 as Deserialize>::decoding(s, at) {
            Err(e) => Err(e),
            Ok((v0, p0)) => match <u32 as Deserialize>::decoding(s, p0) {
                Err(e) => Err(e),
                Ok((v1, p1)) => Ok((ACCESS3args { object: v0, access: v1 }, p1)),
            },
        }
    }

    fn deserialize(src: &mut Cursor) -> (r: Result<ACCESS3args, Error>) {
        let object = <NFSFh3 as Deserialize>::deserialize(src)?;
        let access = <u32 as Deserialize>::deserialize(src)?;
        Ok(ACCESS3args { object, access })
    }
}

impl RoundTrip for ACCESS3args {
    #[verifier::spinoff_prover]
    #[verifier::rlimit(100)]
    proof fn lemma_roundtrip(&self, s: Seq<u8>, at: int) {
        lemma_holds_split(s, at, self.object.encoding(), self.access.encoding());
        self.object.lemma_roundtrip(s, at);
        self.access.lemma_roundtrip(s, at + self.object.encoding().len());
    }
}

/// Arguments of `GETATTR`.
#[allow(non_camel_case_types)]
#[derive(Debug, Clone, Copy, PartialEq, Eq)]
pub struct GETATTR3args {
    /// The object.
    pub object: NFSFh3,
}

impl View for GETATTR3args {
    type V = GETATTR3args;

    open spec fn view(&self) -> GETATTR3args {
        *self
    }
}

impl Serialize for GETATTR3args {
    open spec fn encodable(&self) -> bool {
        self.object.encodable()
    }

    open spec fn encoding(&self) -> Seq<u8> {
        self.object.encoding()
    }

    fn serialize(&self, dest: &mut Vec<u8>) -> (r: Result<(), Error>) {
        let ghost start = dest@;
        self.object.serialize(dest)?;
        Ok(())
    }
}

impl Deserialize for GETATTR3args {
    open spec fn decoding(s: Seq<u8>, at: int) -> Parsed<GETATTR3args> {
        match <NFSFh3 as Deserialize>::decoding(s, at) {
            Err(e) => Err(e),
            Ok((v0, p0)) => Ok((GETATTR3args { object: v0 }, p0)),
        }
    }

    fn deserialize(src: &mut Cursor) -> (r: Result<GETATTR3args, Error>) {
        let object = <NFSFh3 as Deserialize>::deserialize(src)?;
        Ok(GETATTR3args { object })
    }
}

impl RoundTrip for GETATTR3args {
    proof fn lemma_roundtrip(&self, s: Seq<u8>, at: int) {
        self.object.lemma_roundtrip(s, at);
    }
}

/// Arguments of `SETATTR`.
#[allow(non_camel_case_types)]
#[derive(Debug, Clone, Copy, PartialEq, Eq)]
pub struct SETATTR3args {
    /// The object.
    pub object: NFSFh3,
    /// The attributes to set.
    pub new_attribute: SAttr3,
    /// The change time the object must have, if any.
    pub guard: Option<NFSTime3>,
}

impl View for SETATTR3args {
    type V = SETATTR3args;

    open spec fn view(&self) -> SETATTR3args {
        *self
    }
}

impl Serialize for SETATTR3args {
    open spec fn encodable(&self) -> bool {
        self.object.encodable() && self.new_attribute.encodable() && self.guard.encodable()
    }

    open spec fn encoding(&self) -> Seq<u8> {
        self.object.encoding() + self.new_attribute.encoding() + self.guard.encoding()
    }

    fn serialize(&self, dest: &mut Vec<u8>) -> (r: Result<(), Error>) {
        let ghost start = dest@;
        self.object.serialize(dest)?;
        self.new_attribute.serialize(dest)?;
        proof {
            lemma_concat_associative(start, self.object.encoding(), self.new_attribute.encoding());
        }
        self.guard.serialize(dest)?;
        proof {
            lemma_concat_associative(start, self.object.encoding() + self.new_attribute.encoding(), self.guard.encoding());
        }
        Ok(())
    }
}

impl Deserialize for SETATTR3args {
    open spec fn decoding(s: Seq<u8>, at: int) -> Parsed<SETATTR3args> {
        match <NFSFh3 as Deserialize>::decoding(s, at) {
            Err(e) => Err(e),
            Ok((v0, p0)) => match <SAttr3 as Deserialize>::decoding(s, p0) {
                Err(e) => Err(e),
                Ok((v1, p1)) => match <Option<NFSTime3> as Deserialize>::decoding(s, p1) {
                    Err(e) => Err(e),
                    Ok((v2, p2)) => Ok((SETATTR3args { object: v0, new_attribute: v1, guard: v2 }, p2)),
                },
            },
        }
    }

    fn deserialize(src: &mut Cursor) -> (r: Result<SETATTR3args, Error>) {
        let object = <NFSFh3 as Deserialize>::deserialize(src)?;
        let new_attribute = <SAttr3 as Deserialize>::deserialize(src)?;
        let guard = <Option<NFSTime3> as Deserialize>::deserialize(src)?;
        Ok(SETATTR3args { object, new_attribute, guard })
    }
}

impl RoundTrip for SETATTR3args {
    #[verifier::spinoff_prover]
    #[verifier::rlimit(100)]
    proof fn lemma_roundtrip(&self, s: Seq<u8>, at: int) {
        lemma_holds_split(s, at, self.object.encoding() + self.new_attribute.encoding(), self.guard.encoding());
        lemma_holds_split(s, at, self.object.encoding(), self.new_attribute.encoding());
        self.object.lemma_roundtrip(s, at);
        self.new_attribute.lemma_roundtrip(s, at + self.object.encoding().len());
        self.guard.lemma_roundtrip(s, at + (self.object.encoding() + self.new_attribute.encoding()).len());
    }
}

/// Arguments of `RENAME`.
#[allow(non_camel_case_types)]
#[derive(Debug, PartialEq, Eq)]
pub struct RENAME3args {
    /// The entry to rename.
    pub from: DiropArgs3,
    /// Its new place and name.
    pub to: DiropArgs3,
}

/// [`RENAME3args`] with every field by its view.
#[allow(non_camel_case_types)]
pub struct RENAME3argsView {
    pub from: DiropArgs3View,
    pub to: DiropArgs3View,
}

impl View for RENAME3args {
    type V = RENAME3argsView;

    open spec fn view(&self) -> RENAME3argsView {
        RENAME3argsView { from: self.from@, to: self.to@ }
    }
}

impl Serialize for RENAME3args {
    open spec fn encodable(&self) -> bool {
        self.from.encodable() && self.to.encodable()
    }

    open spec fn encoding(&self) -> Seq<u8> {
        self.from.encoding() + self.to.encoding()
    }

    fn serialize(&self, dest: &mut Vec<u8>) -> (r: Result<(), Error>) {
        let ghost start = dest@;
        self.from.serialize(dest)?;
        self.to.serialize(dest)?;
        proof {
            lemma_concat_associative(start, self.from.encoding(), self.to.encoding());
        }
        Ok(())
    }
}

impl Deserialize for RENAME3args {
    open spec fn decoding(s: Seq<u8>, at: int) -> Parsed<RENAME3argsView> {
        match <DiropArgs3 as Deserialize>::decoding(s, at) {
            Err(e) => Err(e),
            Ok((v0, p0)) => match <DiropArgs3 as Deserialize>::decoding(s, p0) {
                Err(e) => Err(e),
                Ok((v1, p1)) => Ok((RENAME3argsView { from: v0, to: v1 }, p1)),
            },
        }
    }

    fn deserialize(src: &mut Cursor) -> (r: Result<RENAME3args, Error>) {
        let from = <DiropArgs3 as Deserialize>::deserialize(src)?;
        let to = <DiropArgs3 as Deserialize>::deserialize(src)?;
        Ok(RENAME3args { from, to })
    }
}

impl RoundTrip for RENAME3args {
    #[verifier::spinoff_prover]
    #[verifier::rlimit(100)]
    proof fn lemma_roundtrip(&self, s: Seq<u8>, at: int) {
        lemma_holds_split(s, at, self.from.encoding(), self.to.encoding());
        self.from.lemma_roundtrip(s, at);
        self.to.lemma_roundtrip(s, at + self.from.encoding().len());
    }
}

/// Arguments of `READLINK`.
#[allow(non_camel_case_types)]
#[derive(Debug, Clone, Copy, PartialEq, Eq)]
pub struct READLINK3args {
    /// The symbolic link.
    pub symlink: NFSFh3,
}

impl View for READLINK3args {
    type V = READLINK3args;

    open spec fn view(&self) -> READLINK3args {
        *self
    }
}

impl Serialize for READLINK3args {
    open spec fn encodable(&self) -> bool {
        self.symlink.encodable()
    }

    open spec fn encoding(&self) -> Seq<u8> {
        self.symlink.encoding()
    }

    fn serialize(&self, dest: &mut Vec<u8>) -> (r: Result<(), Error>) {
        let ghost start = dest@;
        self.symlink.serialize(dest)?;
        Ok(())
    }
}

impl Deserialize for READLINK3args {
    open spec fn decoding(s: Seq<u8>, at: int) -> Parsed<READLINK3args> {
        match <NFSFh3 as Deserialize>::decoding(s, at) {
            Err(e) => Err(e),
            Ok((v0, p0)) => Ok((READLINK3args { symlink: v0 }, p0)),
        }
    }

    fn deserialize(src: &mut Cursor) -> (r: Result<READLINK3args, Error>) {
        let symlink = <NFSFh3 as Deserialize>::deserialize(src)?;
        Ok(READLINK3args { symlink })
    }
}

impl RoundTrip for READLINK3args {
    proof fn lemma_roundtrip(&self, s: Seq<u8>, at: int) {
        self.symlink.lemma_roundtrip(s, at);
    }
}

/// Arguments of `REMOVE`.
#[allow(non_camel_case_types)]
#[derive(Debug, PartialEq, Eq)]
pub struct REMOVE3args {
    /// The entry to remove.
    pub object: DiropArgs3,
}

/// [`REMOVE3args`] with every field by its view.
#[allow(non_camel_case_types)]
pub struct REMOVE3argsView {
    pub object: DiropArgs3View,
}

impl View for REMOVE3args {
    type V = REMOVE3argsView;

    open spec fn view(&self) -> REMOVE3argsView {
        REMOVE3argsView { object: self.object@ }
    }
}

impl Serialize for REMOVE3args {
    open spec fn encodable(&self) -> bool {
        self.object.encodable()
    }

    open spec fn encoding(&self) -> Seq<u8> {
        self.object.encoding()
    }

    fn serialize(&self, dest: &mut Vec<u8>) -> (r: Result<(), Error>) {
        let ghost start = dest@;
        self.object.serialize(dest)?;
        Ok(())
    }
}

impl Deserialize for REMOVE3args {
    open spec fn decoding(s: Seq<u8>, at: int) -> Parsed<REMOVE3argsView> {
        match <DiropArgs3 as Deserialize>::decoding(s, at) {
            Err(e) => Err(e),
            Ok((v0, p0)) => Ok((REMOVE3argsView { object: v0 }, p0)),
        }
    }

    fn deserialize(src: &mut Cursor) -> (r: Result<REMOVE3args, Error>) {
        let object = <DiropArgs3 as Deserialize>::deserialize(src)?;
        Ok(REMOVE3args { object })
    }
}

impl RoundTrip for REMOVE3args {
    proof fn lemma_roundtrip(&self, s: Seq<u8>, at: int) {
        self.object.lemma_roundtrip(s, at);
    }
}

/// Arguments of `SYMLINK`.
#[allow(non_camel_case_types)]
#[derive(Debug, PartialEq, Eq)]
pub struct SYMLINK3args {
    /// Where to create the link.
    pub dirops: DiropArgs3,
    /// Its attributes and target.
    pub symlink: SymlinkData3,
}

/// [`SYMLINK3args`] with every field by its view.
#[allow(non_camel_case_types)]
pub struct SYMLINK3argsView {
    pub dirops: DiropArgs3View,
    pub symlink: SymlinkData3View,
}

impl View for SYMLINK3args {
    type V = SYMLINK3argsView;

    open spec fn view(&self) -> SYMLINK3argsView {
        SYMLINK3argsView { dirops: self.dirops@, symlink: self.symlink@ }
    }
}

impl Serialize for SYMLINK3args {
    open spec fn encodable(&self) -> bool {
        self.dirops.encodable() && self.symlink.encodable()
    }

    open spec fn encoding(&self) -> Seq<u8> {
        self.dirops.encoding() + self.symlink.encoding()
    }

    fn serialize(&self, dest: &mut Vec<u8>) -> (r: Result<(), Error>) {
        let ghost start = dest@;
        self.dirops.serialize(dest)?;
        self.symlink.serialize(dest)?;
        proof {
            lemma_concat_associative(start, self.dirops.encoding(), self.symlink.encoding());
        }
        Ok(())
    }
}

impl Deserialize for SYMLINK3args {
    open spec fn decoding(s: Seq<u8>, at: int) -> Parsed<SYMLINK3argsView> {
        match <DiropArgs3 as Deserialize>::decoding(s, at) {
            Err(e) => Err(e),
            Ok((v0, p0)) => match <SymlinkData3 as Deserialize>::decoding(s, p0) {
                Err(e) => Err(e),
                Ok((v1, p1)) => Ok((SYMLINK3argsView { dirops: v0, symlink: v1 }, p1)),
            },
        }
    }

    fn deserialize(src: &mut Cursor) -> (r: Result<SYMLINK3args, Error>) {
        let dirops = <DiropArgs3 as Deserialize>::deserialize(src)?;
        let symlink = <SymlinkData3 as Deserialize>::deserialize(src)?;
        Ok(SYMLINK3args { dirops, symlink })
    }
}

impl RoundTrip for SYMLINK3args {
    #[verifier::spinoff_prover]
    #[verifier::rlimit(100)]
    proof fn lemma_roundtrip(&self, s: Seq<u8>, at: int) {
        lemma_holds_split(s, at, self.dirops.encoding(), self.symlink.encoding());
        self.dirops.lemma_roundtrip(s, at);
        self.symlink.lemma_roundtrip(s, at + self.dirops.encoding().len());
    }
}

/// The attributes and numbers of a device to create.
#[allow(non_camel_case_types)]
#[derive(Debug, Clone, Copy, PartialEq, Eq)]
pub struct devicedata3 {
    /// Its attributes.
    pub attr: SAttr3,
    /// Its device numbers.
    pub device: SpecData3,
}

impl View for devicedata3 {
    type V = devicedata3;

    open spec fn view(&self) -> devicedata3 {
        *self
    }
}

impl Serialize for devicedata3 {
    open spec fn encodable(&self) -> bool {
        self.attr.encodable() && self.device.encodable()
    }

    open spec fn encoding(&self) -> Seq<u8> {
        self.attr.encoding() + self.device.encoding()
    }

    fn serialize(&self, dest: &mut Vec<u8>) -> (r: Result<(), Error>) {
        let ghost start = dest@;
        self.attr.serialize(dest)?;
        self.device.serialize(dest)?;
        proof {
            lemma_concat_associative(start, self.attr.encoding(), self.device.encoding());
        }
        Ok(())
    }
}

impl Deserialize for devicedata3 {
    open spec fn decoding(s: Seq<u8>, at: int) -> Parsed<devicedata3> {
        match <SAttr3 as Deserialize>::decoding(s, at) {
            Err(e) => Err(e),
            Ok((v0, p0)) => match <SpecData3 as Deserialize>::decoding(s, p0) {
                Err(e) => Err(e),
                Ok((v1, p1)) => Ok((devicedata3 { attr: v0, device: v1 }, p1)),
            },
        }
    }

    fn deserialize(src: &mut Cursor) -> (r: Result<devicedata3, Error>) {
        let attr = <SAttr3 as Deserialize>::deserialize(src)?;
        let device = <SpecData3 as Deserialize>::deserialize(src)?;
        Ok(devicedata3 { attr, device })
    }
}

impl RoundTrip for devicedata3 {
    #[verifier::spinoff_prover]
    #[verifier::rlimit(100)]
    proof fn lemma_roundtrip(&self, s: Seq<u8>, at: int) {
        lemma_holds_split(s, at, self.attr.encoding(), self.device.encoding());
        self.attr.lemma_roundtrip(s, at);
        self.device.lemma_roundtrip(s, at + self.attr.encoding().len());
    }
}

/// What `MKNOD` creates, by `FType3`.
#[allow(non_camel_case_types)]
#[derive(Debug, Clone, Copy, PartialEq, Eq)]
pub enum mknoddata3 {
    NF3REG,
    NF3DIR,
    NF3BLK(devicedata3),
    NF3CHR(devicedata3),
    NF3LNK,
    NF3SOCK(SAttr3),
    NF3FIFO(SAttr3),
}

impl View for mknoddata3 {
    type V = mknoddata3;

    open spec fn view(&self) -> mknoddata3 {
        *self
    }
}

impl Serialize for mknoddata3 {
    open spec fn encodable(&self) -> bool {
        match self {
            mknoddata3::NF3REG => true,
            mknoddata3::NF3DIR => true,
            mknoddata3::NF3BLK(x) => x.encodable(),
            mknoddata3::NF3CHR(x) => x.encodable(),
            mknoddata3::NF3LNK => true,
            mknoddata3::NF3SOCK(x) => x.encodable(),
            mknoddata3::NF3FIFO(x) => x.encodable(),
        }
    }

    open spec fn encoding(&self) -> Seq<u8> {
        match self {
            mknoddata3::NF3REG => be32_bytes(1u32),
            mknoddata3::NF3DIR => be32_bytes(2u32),
            mknoddata3::NF3BLK(x) => be32_bytes(3u32) + x.encoding(),
            mknoddata3::NF3CHR(x) => be32_bytes(4u32) + x.encoding(),
            mknoddata3::NF3LNK => be32_bytes(5u32),
            mknoddata3::NF3SOCK(x) => be32_bytes(6u32) + x.encoding(),
            mknoddata3::NF3FIFO(x) => be32_bytes(7u32) + x.encoding(),
        }
    }

    fn serialize(&self, dest: &mut Vec<u8>) -> (r: Result<(), Error>) {
        match self {
            mknoddata3::NF3REG => {
                write_be_u32(dest, 1);
                Ok(())
            },
            mknoddata3::NF3DIR => {
                write_be_u32(dest, 2);
                Ok(())
            },
            mknoddata3::NF3BLK(x) => {
                write_be_u32(dest, 3);
                let r = x.serialize(dest);
                assert(r is Ok ==> dest@ =~= old(dest)@ + self.encoding());
                r
            },
            mknoddata3::NF3CHR(x) => {
                write_be_u32(dest, 4);
                let r = x.serialize(dest);
                assert(r is Ok ==> dest@ =~= old(dest)@ + self.encoding());
                r
            },
            mknoddata3::NF3LNK => {
                write_be_u32(dest, 5);
                Ok(())
            },
            mknoddata3::NF3SOCK(x) => {
                write_be_u32(dest, 6);
                let r = x.serialize(dest);
                assert(r is Ok ==> dest@ =~= old(dest)@ + self.encoding());
                r
            },
            mknoddata3::NF3FIFO(x) => {
                write_be_u32(dest, 7);
                let r = x.serialize(dest);
                assert(r is Ok ==> dest@ =~= old(dest)@ + self.encoding());
                r
            },
        }
    }
}

impl Deserialize for mknoddata3 {
    open spec fn decoding(s: Seq<u8>, at: int) -> Parsed<mknoddata3> {
        match spec_u32(s, at) {
            Err(e) => Err(e),
            Ok((tag, p)) => if tag == 1 {
                Ok((mknoddata3::NF3REG, p))
            } else if tag == 2 {
                Ok((mknoddata3::NF3DIR, p))
            } else if tag == 3 {
                match <devicedata3 as Deserialize>::decoding(s, p) {
                    Ok((x, end)) => Ok((mknoddata3::NF3BLK(x), end)),
                    Err(e) => Err(e),
                }
            } else if tag == 4 {
                match <devicedata3 as Deserialize>::decoding(s, p) {
                    Ok((x, end)) => Ok((mknoddata3::NF3CHR(x), end)),
                    Err(e) => Err(e),
                }
            } else if tag == 5 {
                Ok((mknoddata3::NF3LNK, p))
            } else if tag == 6 {
                match <SAttr3 as Deserialize>::decoding(s, p) {
                    Ok((x, end)) => Ok((mknoddata3::NF3SOCK(x), end)),
                    Err(e) => Err(e),
                }
            } else if tag == 7 {
                match <SAttr3 as Deserialize>::decoding(s, p) {
                    Ok((x, end)) => Ok((mknoddata3::NF3FIFO(x), end)),
                    Err(e) => Err(e),
                }
            } else {
                Err(invalid_data())
            },
        }
    }

    fn deserialize(src: &mut Cursor) -> (r: Result<mknoddata3, Error>) {
        let tag = src.read_u32()?;
        if tag == 1 {
            Ok(mknoddata3::NF3REG)
        } else if tag == 2 {
            Ok(mknoddata3::NF3DIR)
        } else if tag == 3 {
            Ok(mknoddata3::NF3BLK(<devicedata3 as Deserialize>::deserialize(src)?))
        } else if tag == 4 {
            Ok(mknoddata3::NF3CHR(<devicedata3 as Deserialize>::deserialize(src)?))
        } else if tag == 5 {
            Ok(mknoddata3::NF3LNK)
        } else if tag == 6 {
            Ok(mknoddata3::NF3SOCK(<SAttr3 as Deserialize>::deserialize(src)?))
        } else if tag == 7 {
            Ok(mknoddata3::NF3FIFO(<SAttr3 as Deserialize>::deserialize(src)?))
        } else {
            Err(Error::IO(IoErrorKind::InvalidData))
        }
    }
}

impl RoundTrip for mknoddata3 {
    #[verifier::spinoff_prover]
    #[verifier::rlimit(100)]
    proof fn lemma_roundtrip(&self, s: Seq<u8>, at: int) {
        match self {
            mknoddata3::NF3REG => {
                lemma_u32_at(s, at, 1u32);
            },
            mknoddata3::NF3DIR => {
                lemma_u32_at(s, at, 2u32);
            },
            mknoddata3::NF3BLK(x) => {
                lemma_holds_split(s, at, be32_bytes(3u32), x.encoding());
                lemma_u32_at(s, at, 3u32);
                x.lemma_roundtrip(s, at + 4);
            },
            mknoddata3::NF3CHR(x) => {
                lemma_holds_split(s, at, be32_bytes(4u32), x.encoding());
                lemma_u32_at(s, at, 4u32);
                x.lemma_roundtrip(s, at + 4);
            },
            mknoddata3::NF3LNK => {
                lemma_u32_at(s, at, 5u32);
            },
            mknoddata3::NF3SOCK(x) => {
                lemma_holds_split(s, at, be32_bytes(6u32), x.encoding());
                lemma_u32_at(s, at, 6u32);
                x.lemma_roundtrip(s, at + 4);
            },
            mknoddata3::NF3FIFO(x) => {
                lemma_holds_split(s, at, be32_bytes(7u32), x.encoding());
                lemma_u32_at(s, at, 7u32);
                x.lemma_roundtrip(s, at + 4);
            },
        }
    }
}

impl Default for mknoddata3 {
    fn default() -> (r: mknoddata3)
        ensures
            r == mknoddata3::NF3REG,
    {
        mknoddata3::NF3REG
    }
}

/// Arguments of `MKNOD`.
#[allow(non_camel_case_types)]
#[derive(Debug, PartialEq, Eq)]
pub struct MKNOD3args {
    /// Where to create the object.
    pub where_dir: DiropArgs3,
    /// What to create.
    pub what: mknoddata3,
}

/// [`MKNOD3args`] with every field by its view.
#[allow(non_camel_case_types)]
pub struct MKNOD3argsView {
    pub where_dir: DiropArgs3View,
    pub what: mknoddata3,
}

impl View for MKNOD3args {
    type V = MKNOD3argsView;

    open spec fn view(&self) -> MKNOD3argsView {
        MKNOD3argsView { where_dir: self.where_dir@, what: self.what@ }
    }
}

impl Serialize for MKNOD3args {
    open spec fn encodable(&self) -> bool {
        self.where_dir.encodable() && self.what.encodable()
    }

    open spec fn encoding(&self) -> Seq<u8> {
        self.where_dir.encoding() + self.what.encoding()
    }

    fn serialize(&self, dest: &mut Vec<u8>) -> (r: Result<(), Error>) {
        let ghost start = dest@;
        self.where_dir.serialize(dest)?;
        self.what.serialize(dest)?;
        proof {
            lemma_concat_associative(start, self.where_dir.encoding(), self.what.encoding());
        }
        Ok(())
    }
}

impl Deserialize for MKNOD3args {
    open spec fn decoding(s: Seq<u8>, at: int) -> Parsed<MKNOD3argsView> {
        match <DiropArgs3 as Deserialize>::decoding(s, at) {
            Err(e) => Err(e),
            Ok((v0, p0)) => match <mknoddata3 as Deserialize>::decoding(s, p0) {
                Err(e) => Err(e),
                Ok((v1, p1)) => Ok((MKNOD3argsView { where_dir: v0, what: v1 }, p1)),
            },
        }
    }

    fn deserialize(src: &mut Cursor) -> (r: Result<MKNOD3args, Error>) {
        let where_dir = <DiropArgs3 as Deserialize>::deserialize(src)?;
        let what = <mknoddata3 as Deserialize>::deserialize(src)?;
        Ok(MKNOD3args { where_dir, what })
    }
}

impl RoundTrip for MKNOD3args {
    #[verifier::spinoff_prover]
    #[verifier::rlimit(100)]
    proof fn lemma_roundtrip(&self, s: Seq<u8>, at: int) {
        lemma_holds_split(s, at, self.where_dir.encoding(), self.what.encoding());
        self.where_dir.lemma_roundtrip(s, at);
        self.what.lemma_roundtrip(s, at + self.where_dir.encoding().len());
    }
}

} // verus!
