//! Data types of the NFS version 3 procedures on file data.
use vstd::prelude::*;
use vstd::seq_lib::lemma_concat_associative;

use crate::encoding::{be32_bytes, be64_bytes, write_be_u32};
use crate::parser::cursor::{spec_u32, Cursor};
use crate::protocol::xdr::{
    deserialize_enum, enum_decoding, enum_encoding, invalid_data, option_decoding, serialize_enum,
    Deserialize, DeserializeEnum, Serialize, SerializeEnum,
};
use crate::protocol::xdr::{lemma_holds_split, lemma_i32_u32, lemma_u32_at, RoundTrip};
use crate::rpc::{Error, IoErrorKind, Parsed};
use crate::protocol::xdr::nfs3::{DiropArgs3, DiropArgs3View, FAttr3, NFSFh3, SAttr3, SetAtime, SetMtime, WCCData};

verus! {

broadcast use crate::encoding::lemma_keeps_prefix_trans;

/// Arguments of `READ`.
#[allow(non_camel_case_types)]
#[derive(Debug, Clone, Copy, PartialEq, Eq)]
pub struct READ3args {
    /// The file.
    pub file: NFSFh3,
    /// Where to start.
    pub offset: u64,
    /// How many bytes.
    pub count: u32,
}

impl View for READ3args {
    type V = READ3args;

    open spec fn view(&self) -> READ3args {
        *self
    }
}

impl Serialize for READ3args {
    open spec fn encodable(&self) -> bool {
        self.file.encodable() && self.offset.encodable() && self.count.encodable()
    }

    open spec fn encoding(&self) -> Seq<u8> {
        self.file.encoding() + self.offset.encoding() + self.count.encoding()
    }

    fn serialize(&self, dest: &mut Vec<u8>) -> (r: Result<(), Error>) {
        let ghost start = dest@;
        self.file.serialize(dest)?;
        self.offset.serialize(dest)?;
        proof {
            lemma_concat_associative(start, self.file.encoding(), self.offset.encoding());
        }
        self.count.serialize(dest)?;
        proof {
            lemma_concat_associative(start, self.file.encoding() + self.offset.encoding(), self.count.encoding());
        }
        Ok(())
    }
}

impl Deserialize for READ3args {
    open spec fn decoding(s: Seq<u8>, at: int) -> Parsed<READ3args> {
        match <NFSFh3 as Deserialize>::decoding(s, at) {
            Err(e) => Err(e),
            Ok((v0, p0)) => match <u64 as Deserialize>::decoding(s, p0) {
                Err(e) => Err(e),
                Ok((v1, p1)) => match <u32 as Deserialize>::decoding(s, p1) {
                    Err(e) => Err(e),
                    Ok((v2, p2)) => Ok((READ3args { file: v0, offset: v1, count: v2 }, p2)),
                },
            },
        }
    }

    fn deserialize(src: &mut Cursor) -> (r: Result<READ3args, Error>) {
        let file = <NFSFh3 as Deserialize>::deserialize(src)?;
        let offset = <u64 as Deserialize>::deserialize(src)?;
        let count = <u32 as Deserialize>::deserialize(src)?;
        Ok(READ3args { file, offset, count })
    }
}

impl RoundTrip for READ3args {
    #[verifier::spinoff_prover]
    #[verifier::rlimit(100)]
    proof fn lemma_roundtrip(&self, s: Seq<u8>, at: int) {
        lemma_holds_split(s, at, self.file.encoding() + self.offset.encoding(), self.count.encoding());
        lemma_holds_split(s, at, self.file.encoding(), self.offset.encoding());
        self.file.lemma_roundtrip(s, at);
        self.offset.lemma_roundtrip(s, at + self.file.encoding().len());
        self.count.lemma_roundtrip(s, at + (self.file.encoding() + self.offset.encoding()).len());
    }
}

/// Results of a successful `READ`.
#[allow(non_camel_case_types)]
#[derive(Debug, PartialEq, Eq)]
pub struct READ3resok {
    /// The file's attributes afterwards.
    pub file_attributes: Option<FAttr3>,
    /// Bytes read.
    pub count: u32,
    /// Whether the read reached the end of the file.
    pub eof: bool,
    /// The bytes read.
    pub data: Vec<u8>,
}

/// [`READ3resok`] with every field by its view.
#[allow(non_camel_case_types)]
pub struct READ3resokView {
    pub file_attributes: Option<FAttr3>,
    pub count: u32,
    pub eof: bool,
    pub data: Seq<u8>,
}

impl View for READ3resok {
    type V = READ3resokView;

    open spec fn view(&self) -> READ3resokView {
        READ3resokView { file_attributes: self.file_attributes@, count: self.count@, eof: self.eof@, data: self.data@ }
    }
}

impl Serialize for READ3resok {
    open spec fn encodable(&self) -> bool {
        self.file_attributes.encodable() && self.count.encodable() && self.eof.encodable() && self.data.encodable()
    }

    open spec fn encoding(&self) -> Seq<u8> {
        self.file_attributes.encoding() + self.count.encoding() + self.eof.encoding() + self.data.encoding()
    }

    fn serialize(&self, dest: &mut Vec<u8>) -> (r: Result<(), Error>) {
        let ghost start = dest@;
        self.file_attributes.serialize(dest)?;
        self.count.serialize(dest)?;
        proof {
            lemma_concat_associative(start, self.file_attributes.encoding(), self.count.encoding());
        }
        self.eof.serialize(dest)?;
        proof {
            lemma_concat_associative(start, self.file_attributes.encoding() + self.count.encoding(), self.eof.encoding());
        }
        self.data.serialize(dest)?;
        proof {
            lemma_concat_associative(start, self.file_attributes.encoding() + self.count.encoding() + self.eof.encoding(), self.data.encoding());
        }
        Ok(())
    }
}

impl Deserialize for READ3resok {
    open spec fn decoding(s: Seq<u8>, at: int) -> Parsed<READ3resokView> {
        match <Option<FAttr3> as Deserialize>::decoding(s, at) {
            Err(e) => Err(e),
            Ok((v0, p0)) => match <u32 as Deserialize>::decoding(s, p0) {
                Err(e) => Err(e),
                Ok((v1, p1)) => match <bool as Deserialize>::decoding(s, p1) {
                    Err(e) => Err(e),
                    Ok((v2, p2)) => match <Vec<u8> as Deserialize>::decoding(s, p2) {
                        Err(e) => Err(e),
                        Ok((v3, p3)) => Ok((READ3resokView { file_attributes: v0, count: v1, eof: v2, data: v3 }, p3)),
                    },
                },
            },
        }
    }

    fn deserialize(src: &mut Cursor) -> (r: Result<READ3resok, Error>) {
        let file_attributes = <Option<FAttr3> as Deserialize>::deserialize(src)?;
        let count = <u32 as Deserialize>::deserialize(src)?;
        let eof = <bool as Deserialize>::deserialize(src)?;
        let data = <Vec<u8> as Deserialize>::deserialize(src)?;
        Ok(READ3resok { file_attributes, count, eof, data })
    }
}

impl RoundTrip for READ3resok {
    #[verifier::spinoff_prover]
    #[verifier::rlimit(100)]
    proof fn lemma_roundtrip(&self, s: Seq<u8>, at: int) {
        lemma_holds_split(s, at, self.file_attributes.encoding() + self.count.encoding() + self.eof.encoding(), self.data.encoding());
        lemma_holds_split(s, at, self.file_attributes.encoding() + self.count.encoding(), self.eof.encoding());
        lemma_holds_split(s, at, self.file_attributes.encoding(), self.count.encoding());
        self.file_attributes.lemma_roundtrip(s, at);
        self.count.lemma_roundtrip(s, at + self.file_attributes.encoding().len());
        self.eof.lemma_roundtrip(s, at + (self.file_attributes.encoding() + self.count.encoding()).len());
        self.data.lemma_roundtrip(s, at + (self.file_attributes.encoding() + self.count.encoding() + self.eof.encoding()).len());
    }
}

/// Arguments of `COMMIT`.
#[allow(non_camel_case_types)]
#[derive(Debug, Clone, Copy, PartialEq, Eq)]
pub struct COMMIT3args {
    /// The file.
    pub file: NFSFh3,
    /// Start of the range to commit.
    pub offset: u64,
    /// Length of the range; 0 means to the end.
    pub count: u32,
}

impl View for COMMIT3args {
    type V = COMMIT3args;

    open spec fn view(&self) -> COMMIT3args {
        *self
    }
}

impl Serialize for COMMIT3args {
    open spec fn encodable(&self) -> bool {
        self.file.encodable() && self.offset.encodable() && self.count.encodable()
    }

    open spec fn encoding(&self) -> Seq<u8> {
        self.file.encoding() + self.offset.encoding() + self.count.encoding()
    }

    fn serialize(&self, dest: &mut Vec<u8>) -> (r: Result<(), Error>) {
        let ghost start = dest@;
        self.file.serialize(dest)?;
        self.offset.serialize(dest)?;
        proof {
            lemma_concat_associative(start, self.file.encoding(), self.offset.encoding());
        }
        self.count.serialize(dest)?;
        proof {
            lemma_concat_associative(start, self.file.encoding() + self.offset.encoding(), self.count.encoding());
        }
        Ok(())
    }
}

impl Deserialize for COMMIT3args {
    open spec fn decoding(s: Seq<u8>, at: int) -> Parsed<COMMIT3args> {
        match <NFSFh3 as Deserialize>::decoding(s, at) {
            Err(e) => Err(e),
            Ok((v0, p0)) => match <u64 as Deserialize>::decoding(s, p0) {
                Err(e) => Err(e),
                Ok((v1, p1)) => match <u32 as Deserialize>::decoding(s, p1) {
                    Err(e) => Err(e),
                    Ok((v2, p2)) => Ok((COMMIT3args { file: v0, offset: v1, count: v2 }, p2)),
                },
            },
        }
    }

    fn deserialize(src: &mut Cursor) -> (r: Result<COMMIT3args, Error>) {
        let file = <NFSFh3 as Deserialize>::deserialize(src)?;
        let offset = <u64 as Deserialize>::deserialize(src)?;
        let count = <u32 as Deserialize>::deserialize(src)?;
        Ok(COMMIT3args { file, offset, count })
    }
}

impl RoundTrip for COMMIT3args {
    #[verifier::spinoff_prover]
    #[verifier::rlimit(100)]
    proof fn lemma_roundtrip(&self, s: Seq<u8>, at: int) {
        lemma_holds_split(s, at, self.file.encoding() + self.offset.encoding(), self.count.encoding());
        lemma_holds_split(s, at, self.file.encoding(), self.offset.encoding());
        self.file.lemma_roundtrip(s, at);
        self.offset.lemma_roundtrip(s, at + self.file.encoding().len());
        self.count.lemma_roundtrip(s, at + (self.file.encoding() + self.offset.encoding()).len());
    }
}

/// Results of a successful `COMMIT`.
#[allow(non_camel_case_types)]
#[derive(Debug, Clone, Copy, PartialEq, Eq)]
pub struct COMMIT3resok {
    /// The file's attributes before and after.
    pub file_wcc: WCCData,
    /// The server's write verifier.
    pub verf: [u8; 8],
}

/// [`COMMIT3resok`] with every field by its view.
#[allow(non_camel_case_types)]
pub struct COMMIT3resokView {
    pub file_wcc: WCCData,
    pub verf: Seq<u8>,
}

impl View for COMMIT3resok {
    type V = COMMIT3resokView;

    open spec fn view(&self) -> COMMIT3resokView {
        COMMIT3resokView { file_wcc: self.file_wcc@, verf: self.verf@ }
    }
}

impl Serialize for COMMIT3resok {
    open spec fn encodable(&self) -> bool {
        self.file_wcc.encodable() && self.verf.encodable()
    }

    open spec fn encoding(&self) -> Seq<u8> {
        self.file_wcc.encoding() + self.verf.encoding()
    }

    fn serialize(&self, dest: &mut Vec<u8>) -> (r: Result<(), Error>) {
        let ghost start = dest@;
        self.file_wcc.serialize(dest)?;
        self.verf.serialize(dest)?;
        proof {
            lemma_concat_associative(start, self.file_wcc.encoding(), self.verf.encoding());
        }
        Ok(())
    }
}

impl Deserialize for COMMIT3resok {
    open spec fn decoding(s: Seq<u8>, at: int) -> Parsed<COMMIT3resokView> {
        match <WCCData as Deserialize>::decoding(s, at) {
            Err(e) => Err(e),
            Ok((v0, p0)) => match <[u8; 8] as Deserialize>::decoding(s, p0) {
                Err(e) => Err(e),
                Ok((v1, p1)) => Ok((COMMIT3resokView { file_wcc: v0, verf: v1 }, p1)),
            },
        }
    }

    fn deserialize(src: &mut Cursor) -> (r: Result<COMMIT3resok, Error>) {
        let file_wcc = <WCCData as Deserialize>::deserialize(src)?;
        let verf = <[u8; 8] as Deserialize>::deserialize(src)?;
        Ok(COMMIT3resok { file_wcc, verf })
    }
}

impl RoundTrip for COMMIT3resok {
    #[verifier::spinoff_prover]
    #[verifier::rlimit(100)]
    proof fn lemma_roundtrip(&self, s: Seq<u8>, at: int) {
        lemma_holds_split(s, at, self.file_wcc.encoding(), self.verf.encoding());
        self.file_wcc.lemma_roundtrip(s, at);
        self.verf.lemma_roundtrip(s, at + self.file_wcc.encoding().len());
    }
}

/// Arguments of `LINK`.
#[allow(non_camel_case_types)]
#[derive(Debug, PartialEq, Eq)]
pub struct LINK3args {
    /// The existing file.
    pub file: NFSFh3,
    /// Where to make the new name.
    pub link: DiropArgs3,
}

/// [`LINK3args`] with every field by its view.
#[allow(non_camel_case_types)]
pub struct LINK3argsView {
    pub file: NFSFh3,
    pub link: DiropArgs3View,
}

impl View for LINK3args {
    type V = LINK3argsView;

    open spec fn view(&self) -> LINK3argsView {
        LINK3argsView { file: self.file@, link: self.link@ }
    }
}

impl Serialize for LINK3args {
    open spec fn encodable(&self) -> bool {
        self.file.encodable() && self.link.encodable()
    }

    open spec fn encoding(&self) -> Seq<u8> {
        self.file.encoding() + self.link.encoding()
    }

    fn serialize(&self, dest: &mut Vec<u8>) -> (r: Result<(), Error>) {
        let ghost start = dest@;
        self.file.serialize(dest)?;
        self.link.serialize(dest)?;
        proof {
            lemma_concat_associative(start, self.file.encoding(), self.link.encoding());
        }
        Ok(())
    }
}

impl Deserialize for LINK3args {
    open spec fn decoding(s: Seq<u8>, at: int) -> Parsed<LINK3argsView> {
        match <NFSFh3 as Deserialize>::decoding(s, at) {
            Err(e) => Err(e),
            Ok((v0, p0)) => match <DiropArgs3 as Deserialize>::decoding(s, p0) {
                Err(e) => Err(e),
                Ok((v1, p1)) => Ok((LINK3argsView { file: v0, link: v1 }, p1)),
            },
        }
    }

    fn deserialize(src: &mut Cursor) -> (r: Result<LINK3args, Error>) {
        let file = <NFSFh3 as Deserialize>::deserialize(src)?;
        let link = <DiropArgs3 as Deserialize>::deserialize(src)?;
        Ok(LINK3args { file, link })
    }
}

impl RoundTrip for LINK3args {
    #[verifier::spinoff_prover]
    #[verifier::rlimit(100)]
    proof fn lemma_roundtrip(&self, s: Seq<u8>, at: int) {
        lemma_holds_split(s, at, self.file.encoding(), self.link.encoding());
        self.file.lemma_roundtrip(s, at);
        self.link.lemma_roundtrip(s, at + self.file.encoding().len());
    }
}

/// How far a `WRITE` must reach stable storage before the reply.
#[allow(non_camel_case_types)]
#[derive(Debug, Clone, Copy, PartialEq, Eq)]
pub enum stable_how {
    UNSTABLE,
    DATA_SYNC,
    FILE_SYNC,
}

impl View for stable_how {
    type V = stable_how;

    open spec fn view(&self) -> stable_how {
        *self
    }
}

impl SerializeEnum for stable_how {
    open spec fn discriminant(&self) -> i32 {
        match self {
            stable_how::UNSTABLE => 0i32,
            stable_how::DATA_SYNC => 1i32,
            stable_how::FILE_SYNC => 2i32,
        }
    }

    fn to_i32(&self) -> (r: i32) {
        match self {
            stable_how::UNSTABLE => 0,
            stable_how::DATA_SYNC => 1,
            stable_how::FILE_SYNC => 2,
        }
    }
}

impl Serialize for stable_how {
    open spec fn encodable(&self) -> bool {
        true
    }

    open spec fn encoding(&self) -> Seq<u8> {
        enum_encoding(self.discriminant())
    }

    fn serialize(&self, dest: &mut Vec<u8>) -> (r: Result<(), Error>) {
        serialize_enum(self, dest);
        Ok(())
    }
}

impl DeserializeEnum for stable_how {
    open spec fn of_discriminant(d: i32) -> Option<stable_how> {
        if d == 0i32 {
            Some(stable_how::UNSTABLE)
        } else if d == 1i32 {
            Some(stable_how::DATA_SYNC)
        } else if d == 2i32 {
            Some(stable_how::FILE_SYNC)
        } else {
            None
        }
    }

    fn from_i32(d: i32) -> (r: Option<stable_how>) {
        if d == 0 {
            Some(stable_how::UNSTABLE)
        } else if d == 1 {
            Some(stable_how::DATA_SYNC)
        } else if d == 2 {
            Some(stable_how::FILE_SYNC)
        } else {
            None
        }
    }
}

impl Deserialize for stable_how {
    open spec fn decoding(s: Seq<u8>, at: int) -> Parsed<stable_how> {
        enum_decoding::<stable_how>(s, at)
    }

    fn deserialize(src: &mut Cursor) -> (r: Result<stable_how, Error>) {
        deserialize_enum(src)
    }
}

impl RoundTrip for stable_how {
    proof fn lemma_roundtrip(&self, s: Seq<u8>, at: int) {
        lemma_u32_at(s, at, self.discriminant() as u32);
        lemma_i32_u32(self.discriminant());
    }
}

impl Default for stable_how {
    fn default() -> (r: stable_how)
        ensures
            r == stable_how::UNSTABLE,
    {
        stable_how::UNSTABLE
    }
}

/// Arguments of `WRITE`.
#[allow(non_camel_case_types)]
#[derive(Debug, PartialEq, Eq)]
pub struct WRITE3args {
    /// The file.
    pub file: NFSFh3,
    /// Where to start.
    pub offset: u64,
    /// How many bytes.
    pub count: u32,
    /// How stable the write must be.
    pub stable: stable_how,
    /// The bytes to write.
    pub data: Vec<u8>,
}

/// [`WRITE3args`] with every field by its view.
#[allow(non_camel_case_types)]
pub struct WRITE3argsView {
    pub file: NFSFh3,
    pub offset: u64,
    pub count: u32,
    pub stable: stable_how,
    pub data: Seq<u8>,
}

impl View for WRITE3args {
    type V = WRITE3argsView;

    open spec fn view(&self) -> WRITE3argsView {
        WRITE3argsView { file: self.file@, offset: self.offset@, count: self.count@, stable: self.stable@, data: self.data@ }
    }
}

impl Serialize for WRITE3args {
    open spec fn encodable(&self) -> bool {
        self.file.encodable() && self.offset.encodable() && self.count.encodable() && self.stable.encodable() && self.data.encodable()
    }

    open spec fn encoding(&self) -> Seq<u8> {
        self.file.encoding() + self.offset.encoding() + self.count.encoding() + self.stable.encoding() + self.data.encoding()
    }

    fn serialize(&self, dest: &mut Vec<u8>) -> (r: Result<(), Error>) {
        let ghost start = dest@;
        self.file.serialize(dest)?;
        self.offset.serialize(dest)?;
        proof {
            lemma_concat_associative(start, self.file.encoding(), self.offset.encoding());
        }
        self.count.serialize(dest)?;
        proof {
            lemma_concat_associative(start, self.file.encoding() + self.offset.encoding(), self.count.encoding());
        }
        self.stable.serialize(dest)?;
        proof {
            lemma_concat_associative(start, self.file.encoding() + self.offset.encoding() + self.count.encoding(), self.stable.encoding());
        }
        self.data.serialize(dest)?;
        proof {
            lemma_concat_associative(start, self.file.encoding() + self.offset.encoding() + self.count.encoding() + self.stable.encoding(), self.data.encoding());
        }
        Ok(())
    }
}

impl Deserialize for WRITE3args {
    open spec fn decoding(s: Seq<u8>, at: int) -> Parsed<WRITE3argsView> {
        match <NFSFh3 as Deserialize>::decoding(s, at) {
            Err(e) => Err(e),
            Ok((v0, p0)) => match <u64 as Deserialize>::decoding(s, p0) {
                Err(e) => Err(e),
                Ok((v1, p1)) => match <u32 as Deserialize>::decoding(s, p1) {
                    Err(e) => Err(e),
                    Ok((v2, p2)) => match <stable_how as Deserialize>::decoding(s, p2) {
                        Err(e) => Err(e),
                        Ok((v3, p3)) => match <Vec<u8> as Deserialize>::decoding(s, p3) {
                            Err(e) => Err(e),
                            Ok((v4, p4)) => Ok((WRITE3argsView { file: v0, offset: v1, count: v2, stable: v3, data: v4 }, p4)),
                        },
                    },
                },
            },
        }
    }

    fn deserialize(src: &mut Cursor) -> (r: Result<WRITE3args, Error>) {
        let file = <NFSFh3 as Deserialize>::deserialize(src)?;
        let offset = <u64 as Deserialize>::deserialize(src)?;
        let count = <u32 as Deserialize>::deserialize(src)?;
        let stable = <stable_how as Deserialize>::deserialize(src)?;
        let data = <Vec<u8> as Deserialize>::deserialize(src)?;
        Ok(WRITE3args { file, offset, count, stable, data })
    }
}

impl RoundTrip for WRITE3args {
    #[verifier::spinoff_prover]
    #[verifier::rlimit(100)]
    proof fn lemma_roundtrip(&self, s: Seq<u8>, at: int) {
        lemma_holds_split(s, at, self.file.encoding() + self.offset.encoding() + self.count.encoding() + self.stable.encoding(), self.data.encoding());
        lemma_holds_split(s, at, self.file.encoding() + self.offset.encoding() + self.count.encoding(), self.stable.encoding());
        lemma_holds_split(s, at, self.file.encoding() + self.offset.encoding(), self.count.encoding());
        lemma_holds_split(s, at, self.file.encoding(), self.offset.encoding());
        self.file.lemma_roundtrip(s, at);
        self.offset.lemma_roundtrip(s, at + self.file.encoding().len());
        self.count.lemma_roundtrip(s, at + (self.file.encoding() + self.offset.encoding()).len());
        self.stable.lemma_roundtrip(s, at + (self.file.encoding() + self.offset.encoding() + self.count.encoding()).len());
        self.data.lemma_roundtrip(s, at + (self.file.encoding() + self.offset.encoding() + self.count.encoding() + self.stable.encoding()).len());
    }
}

/// Results of a successful `WRITE`.
#[allow(non_camel_case_types)]
#[derive(Debug, Clone, Copy, PartialEq, Eq)]
pub struct WRITE3resok {
    /// The file's attributes before and after.
    pub file_wcc: WCCData,
    /// Bytes written.
    pub count: u32,
    /// How stable the write is.
    pub committed: stable_how,
    /// The server's write verifier.
    pub verf: [u8; 8],
}

/// [`WRITE3resok`] with every field by its view.
#[allow(non_camel_case_types)]
pub struct WRITE3resokView {
    pub file_wcc: WCCData,
    pub count: u32,
    pub committed: stable_how,
    pub verf: Seq<u8>,
}

impl View for WRITE3resok {
    type V = WRITE3resokView;

    open spec fn view(&self) -> WRITE3resokView {
        WRITE3resokView { file_wcc: self.file_wcc@, count: self.count@, committed: self.committed@, verf: self.verf@ }
    }
}

impl Serialize for WRITE3resok {
    open spec fn encodable(&self) -> bool {
        self.file_wcc.encodable() && self.count.encodable() && self.committed.encodable() && self.verf.encodable()
    }

    open spec fn encoding(&self) -> Seq<u8> {
        self.file_wcc.encoding() + self.count.encoding() + self.committed.encoding() + self.verf.encoding()
    }

    fn serialize(&self, dest: &mut Vec<u8>) -> (r: Result<(), Error>) {
        let ghost start = dest@;
        self.file_wcc.serialize(dest)?;
        self.count.serialize(dest)?;
        proof {
            lemma_concat_associative(start, self.file_wcc.encoding(), self.count.encoding());
        }
        self.committed.serialize(dest)?;
        proof {
            lemma_concat_associative(start, self.file_wcc.encoding() + self.count.encoding(), self.committed.encoding());
        }
        self.verf.serialize(dest)?;
        proof {
            lemma_concat_associative(start, self.file_wcc.encoding() + self.count.encoding() + self.committed.encoding(), self.verf.encoding());
        }
        Ok(())
    }
}

impl Deserialize for WRITE3resok {
    open spec fn decoding(s: Seq<u8>, at: int) -> Parsed<WRITE3resokView> {
        match <WCCData as Deserialize>::decoding(s, at) {
            Err(e) => Err(e),
            Ok((v0, p0)) => match <u32 as Deserialize>::decoding(s, p0) {
                Err(e) => Err(e),
                Ok((v1, p1)) => match <stable_how as Deserialize>::decoding(s, p1) {
                    Err(e) => Err(e),
                    Ok((v2, p2)) => match <[u8; 8] as Deserialize>::decoding(s, p2) {
                        Err(e) => Err(e),
                        Ok((v3, p3)) => Ok((WRITE3resokView { file_wcc: v0, count: v1, committed: v2, verf: v3 }, p3)),
                    },
                },
            },
        }
    }

    fn deserialize(src: &mut Cursor) -> (r: Result<WRITE3resok, Error>) {
        let file_wcc = <WCCData as Deserialize>::deserialize(src)?;
        let count = <u32 as Deserialize>::deserialize(src)?;
        let committed = <stable_how as Deserialize>::deserialize(src)?;
        let verf = <[u8; 8] as Deserialize>::deserialize(src)?;
        Ok(WRITE3resok { file_wcc, count, committed, verf })
    }
}

impl RoundTrip for WRITE3resok {
    #[verifier::spinoff_prover]
    #[verifier::rlimit(100)]
    proof fn lemma_roundtrip(&self, s: Seq<u8>, at: int) {
        lemma_holds_split(s, at, self.file_wcc.encoding() + self.count.encoding() + self.committed.encoding(), self.verf.encoding());
        lemma_holds_split(s, at, self.file_wcc.encoding() + self.count.encoding(), self.committed.encoding());
        lemma_holds_split(s, at, self.file_wcc.encoding(), self.count.encoding());
        self.file_wcc.lemma_roundtrip(s, at);
        self.count.lemma_roundtrip(s, at + self.file_wcc.encoding().len());
        self.committed.lemma_roundtrip(s, at + (self.file_wcc.encoding() + self.count.encoding()).len());
        self.verf.lemma_roundtrip(s, at + (self.file_wcc.encoding() + self.count.encoding() + self.committed.encoding()).len());
    }
}

/// Arguments of `LOOKUP`.
#[allow(non_camel_case_types)]
#[derive(Debug, PartialEq, Eq)]
pub struct LOOKUP3args {
    /// The directory and the name to look up.
    pub object: DiropArgs3,
}

/// [`LOOKUP3args`] with every field by its view.
#[allow(non_camel_case_types)]
pub struct LOOKUP3argsView {
    pub object: DiropArgs3View,
}

impl View for LOOKUP3args {
    type V = LOOKUP3argsView;

    open spec fn view(&self) -> LOOKUP3argsView {
        LOOKUP3argsView { object: self.object@ }
    }
}

impl Serialize for LOOKUP3args {
    open spec fn encodable(&self) -> bool {
        self.object.encodable()
    }

    open spec fn encoding(&self) -> Seq<u8> {
        self.object.encoding()
    }

    fn serialize(&self, dest: &mut Vec<u8>) -> (r: Result<(), Error>) {
        let ghost start = dest@;
        self.object.serialize(dest)?;
        Ok(())
    }
}

impl Deserialize for LOOKUP3args {
    open spec fn decoding(s: Seq<u8>, at: int) -> Parsed<LOOKUP3argsView> {
        match <DiropArgs3 as Deserialize>::decoding(s, at) {
            Err(e) => Err(e),
            Ok((v0, p0)) => Ok((LOOKUP3argsView { object: v0 }, p0)),
        }
    }

    fn deserialize(src: &mut Cursor) -> (r: Result<LOOKUP3args, Error>) {
        let object = <DiropArgs3 as Deserialize>::deserialize(src)?;
        Ok(LOOKUP3args { object })
    }
}

impl RoundTrip for LOOKUP3args {
    proof fn lemma_roundtrip(&self, s: Seq<u8>, at: int) {
        self.object.lemma_roundtrip(s, at);
    }
}

/// How `CREATE` makes the file, by `CreateMode3`.
#[allow(non_camel_case_types)]
#[derive(Debug, Clone, Copy, PartialEq, Eq)]
pub enum createhow3 {
    UNCHECKED(SAttr3),
    GUARDED(SAttr3),
    EXCLUSIVE([u8; 8]),
}

/// [`createhow3`] with its payload by its view.
#[allow(non_camel_case_types)]
pub enum createhow3View {
    UNCHECKED(SAttr3),
    GUARDED(SAttr3),
    EXCLUSIVE(Seq<u8>),
}

impl View for createhow3 {
    type V = createhow3View;

    open spec fn view(&self) -> createhow3View {
        match self {
            createhow3::UNCHECKED(x) => createhow3View::UNCHECKED(x@),
            createhow3::GUARDED(x) => createhow3View::GUARDED(x@),
            createhow3::EXCLUSIVE(x) => createhow3View::EXCLUSIVE(x@),
        }
    }
}

impl Serialize for createhow3 {
    open spec fn encodable(&self) -> bool {
        match self {
            createhow3::UNCHECKED(x) => x.encodable(),
            createhow3::GUARDED(x) => x.encodable(),
            createhow3::EXCLUSIVE(x) => x.encodable(),
        }
    }

    open spec fn encoding(&self) -> Seq<u8> {
        match self {
            createhow3::UNCHECKED(x) => be32_bytes(0u32) + x.encoding(),
            createhow3::GUARDED(x) => be32_bytes(1u32) + x.encoding(),
            createhow3::EXCLUSIVE(x) => be32_bytes(2u32) + x.encoding(),
        }
    }

    fn serialize(&self, dest: &mut Vec<u8>) -> (r: Result<(), Error>) {
        match self {
            createhow3::UNCHECKED(x) => {
                write_be_u32(dest, 0);
                let r = x.serialize(dest);
                assert(r is Ok ==> dest@ =~= old(dest)@ + self.encoding());
                r
            },
            createhow3::GUARDED(x) => {
                write_be_u32(dest, 1);
                let r = x.serialize(dest);
                assert(r is Ok ==> dest@ =~= old(dest)@ + self.encoding());
                r
            },
            createhow3::EXCLUSIVE(x) => {
                write_be_u32(dest, 2);
                let r = x.serialize(dest);
                assert(r is Ok ==> dest@ =~= old(dest)@ + self.encoding());
                r
            },
        }
    }
}

impl Deserialize for createhow3 {
    open spec fn decoding(s: Seq<u8>, at: int) -> Parsed<createhow3View> {
        match spec_u32(s, at) {
            Err(e) => Err(e),
            Ok((tag, p)) => if tag == 0 {
                match <SAttr3 as Deserialize>::decoding(s, p) {
                    Ok((x, end)) => Ok((createhow3View::UNCHECKED(x), end)),
                    Err(e) => Err(e),
                }
            } else if tag == 1 {
                match <SAttr3 as Deserialize>::decoding(s, p) {
                    Ok((x, end)) => Ok((createhow3View::GUARDED(x), end)),
                    Err(e) => Err(e),
                }
            } else if tag == 2 {
                match <[u8; 8] as Deserialize>::decoding(s, p) {
                    Ok((x, end)) => Ok((createhow3View::EXCLUSIVE(x), end)),
                    Err(e) => Err(e),
                }
            } else {
                Err(invalid_data())
            },
        }
    }

    fn deserialize(src: &mut Cursor) -> (r: Result<createhow3, Error>) {
        let tag = src.read_u32()?;
        if tag == 0 {
            Ok(createhow3::UNCHECKED(<SAttr3 as Deserialize>::deserialize(src)?))
        } else if tag == 1 {
            Ok(createhow3::GUARDED(<SAttr3 as Deserialize>::deserialize(src)?))
        } else if tag == 2 {
            Ok(createhow3::EXCLUSIVE(<[u8; 8] as Deserialize>::deserialize(src)?))
        } else {
            Err(Error::IO(IoErrorKind::InvalidData))
        }
    }
}

impl RoundTrip for createhow3 {
    #[verifier::spinoff_prover]
    #[verifier::rlimit(100)]
    proof fn lemma_roundtrip(&self, s: Seq<u8>, at: int) {
        match self {
            createhow3::UNCHECKED(x) => {
                lemma_holds_split(s, at, be32_bytes(0u32), x.encoding());
                lemma_u32_at(s, at, 0u32);
                x.lemma_roundtrip(s, at + 4);
            },
            createhow3::GUARDED(x) => {
                lemma_holds_split(s, at, be32_bytes(1u32), x.encoding());
                lemma_u32_at(s, at, 1u32);
                x.lemma_roundtrip(s, at + 4);
            },
            createhow3::EXCLUSIVE(x) => {
                lemma_holds_split(s, at, be32_bytes(2u32), x.encoding());
                lemma_u32_at(s, at, 2u32);
                x.lemma_roundtrip(s, at + 4);
            },
        }
    }
}

impl Default for createhow3 {
    fn default() -> (r: createhow3)
        ensures
            r matches createhow3::UNCHECKED(a) && a == (SAttr3 {
                mode: None,
                uid: None,
                gid: None,
                size: None,
                atime: SetAtime::DontChange,
                mtime: SetMtime::DontChange,
            }),
    {
        createhow3::UNCHECKED(SAttr3::default())
    }
}

/// Arguments of `CREATE`.
#[allow(non_camel_case_types)]
#[derive(Debug, PartialEq, Eq)]
pub struct CREATE3args {
    /// Where to create the file.
    pub dirops: DiropArgs3,
    /// How to create it.
    pub how: createhow3,
}

/// [`CREATE3args`] with every field by its view.
#[allow(non_camel_case_types)]
pub struct CREATE3argsView {
    pub dirops: DiropArgs3View,
    pub how: createhow3View,
}

impl View for CREATE3args {
    type V = CREATE3argsView;

    open spec fn view(&self) -> CREATE3argsView {
        CREATE3argsView { dirops: self.dirops@, how: self.how@ }
    }
}

impl Serialize for CREATE3args {
    open spec fn encodable(&self) -> bool {
        self.dirops.encodable() && self.how.encodable()
    }

    open spec fn encoding(&self) -> Seq<u8> {
        self.dirops.encoding() + self.how.encoding()
    }

    fn serialize(&self, dest: &mut Vec<u8>) -> (r: Result<(), Error>) {
        let ghost start = dest@;
        self.dirops.serialize(dest)?;
        self.how.serialize(dest)?;
        proof {
            lemma_concat_associative(start, self.dirops.encoding(), self.how.encoding());
        }
        Ok(())
    }
}

impl Deserialize for CREATE3args {
    open spec fn decoding(s: Seq<u8>, at: int) -> Parsed<CREATE3argsView> {
        match <DiropArgs3 as Deserialize>::decoding(s, at) {
            Err(e) => Err(e),
            Ok((v0, p0)) => match <createhow3 as Deserialize>::decoding(s, p0) {
                Err(e) => Err(e),
                Ok((v1, p1)) => Ok((CREATE3argsView { dirops: v0, how: v1 }, p1)),
            },
        }
    }

    fn deserialize(src: &mut Cursor) -> (r: Result<CREATE3args, Error>) {
        let dirops = <DiropArgs3 as Deserialize>::deserialize(src)?;
        let how = <createhow3 as Deserialize>::deserialize(src)?;
        Ok(CREATE3args { dirops, how })
    }
}

impl RoundTrip for CREATE3args {
    #[verifier::spinoff_prover]
    #[verifier::rlimit(100)]
    proof fn lemma_roundtrip(&self, s: Seq<u8>, at: int) {
        lemma_holds_split(s, at, self.dirops.encoding(), self.how.encoding());
        self.dirops.lemma_roundtrip(s, at);
        self.how.lemma_roundtrip(s, at + self.dirops.encoding().len());
    }
}

} // verus!
