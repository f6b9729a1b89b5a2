//! Data types of the NFS version 3 procedures on whole file systems.
use vstd::prelude::*;
use vstd::seq_lib::lemma_concat_associative;

use crate::encoding::{be32_bytes, be64_bytes, write_be_u32};
use crate::parser::cursor::{spec_u32, Cursor};
use crate::protocol::xdr::{
    deserialize_enum, enum_decoding, enum_encoding, invalid_data, option_decoding, serialize_enum,
    Deserialize, DeserializeEnum, Serialize, SerializeEnum,
};
use crate::protocol::xdr::{lemma_holds_split, lemma_i32_u32, lemma_u32_at, RoundTrip};
use crate::rpc::{Error, IoErrorKind, Parsed};
use crate::protocol::xdr::nfs3::{FAttr3, NFSFh3, NFSTime3};

verus! {

broadcast use crate::encoding::lemma_keeps_prefix_trans;

/// The file system supports hard links.
pub const FSF_LINK: u32 = 0x0001;

/// The file system supports symbolic links.
pub const FSF_SYMLINK: u32 = 0x0002;

/// `PATHCONF` gives the same answer for every file.
pub const FSF_HOMOGENEOUS: u32 = 0x0008;

/// The server can set times through `SETATTR`.
pub const FSF_CANSETTIME: u32 = 0x0010;

/// Arguments of `FSINFO`.
#[allow(non_camel_case_types)]
#[derive(Debug, Clone, Copy, PartialEq, Eq)]
pub struct FSINFO3args {
    /// The root of the file system.
    pub fsroot: NFSFh3,
}

impl View for FSINFO3args {
    type V = FSINFO3args;

    open spec fn view(&self) -> FSINFO3args {
        *self
    }
}

impl Serialize for FSINFO3args {
    open spec fn encodable(&self) -> bool {
        self.fsroot.encodable()
    }

    open spec fn encoding(&self) -> Seq<u8> {
        self.fsroot.encoding()
    }

    fn serialize(&self, dest: &mut Vec<u8>) -> (r: Result<(), Error>) {
        let ghost start = dest@;
        self.fsroot.serialize(dest)?;
        Ok(())
    }
}

impl Deserialize for FSINFO3args {
    open spec fn decoding(s: Seq<u8>, at: int) -> Parsed<FSINFO3args> {
        match <NFSFh3 as Deserialize>::decoding(s, at) {
            Err(e) => Err(e),
            Ok((v0, p0)) => Ok((FSINFO3args { fsroot: v0 }, p0)),
        }
    }

    fn deserialize(src: &mut Cursor) -> (r: Result<FSINFO3args, Error>) {
        let fsroot = <NFSFh3 as Deserialize>::deserialize(src)?;
        Ok(FSINFO3args { fsroot })
    }
}

impl RoundTrip for FSINFO3args {
    proof fn lemma_roundtrip(&self, s: Seq<u8>, at: int) {
        self.fsroot.lemma_roundtrip(s, at);
    }
}

/// Static information on a file system.
#[allow(non_camel_case_types)]
#[derive(Debug, Clone, Copy, PartialEq, Eq)]
pub struct fsinfo3 {
    /// Attributes of the root.
    pub obj_attributes: Option<FAttr3>,
    /// Largest `READ`.
    pub rtmax: u32,
    /// Preferred `READ` size.
    pub rtpref: u32,
    /// Suggested multiple of `READ` sizes.
    pub rtmult: u32,
    /// Largest `WRITE`.
    pub wtmax: u32,
    /// Preferred `WRITE` size.
    pub wtpref: u32,
    /// Suggested multiple of `WRITE` sizes.
    pub wtmult: u32,
    /// Preferred `READDIR` size.
    pub dtpref: u32,
    /// Largest file size.
    pub maxfilesize: u64,
    /// Granularity of times.
    pub time_delta: NFSTime3,
    /// `FSF_` flags.
    pub properties: u32,
}

impl View for fsinfo3 {
    type V = fsinfo3;

    open spec fn view(&self) -> fsinfo3 {
        *self
    }
}

impl Serialize for fsinfo3 {
    open spec fn encodable(&self) -> bool {
        self.obj_attributes.encodable() && self.rtmax.encodable() && self.rtpref.encodable() && self.rtmult.encodable() && self.wtmax.encodable() && self.wtpref.encodable() && self.wtmult.encodable() && self.dtpref.encodable() && self.maxfilesize.encodable() && self.time_delta.encodable() && self.properties.encodable()
    }

    open spec fn encoding(&self) -> Seq<u8> {
        self.obj_attributes.encoding() + self.rtmax.encoding() + self.rtpref.encoding() + self.rtmult.encoding() + self.wtmax.encoding() + self.wtpref.encoding() + self.wtmult.encoding() + self.dtpref.encoding() + self.maxfilesize.encoding() + self.time_delta.encoding() + self.properties.encoding()
    }

    fn serialize(&self, dest: &mut Vec<u8>) -> (r: Result<(), Error>) {
        let ghost start = dest@;
        self.obj_attributes.serialize(dest)?;
        self.rtmax.serialize(dest)?;
        proof {
            lemma_concat_associative(start, self.obj_attributes.encoding(), self.rtmax.encoding());
        }
        self.rtpref.serialize(dest)?;
        proof {
            lemma_concat_associative(start, self.obj_attributes.encoding() + self.rtmax.encoding(), self.rtpref.encoding());
        }
        self.rtmult.serialize(dest)?;
        proof {
            lemma_concat_associative(start, self.obj_attributes.encoding() + self.rtmax.encoding() + self.rtpref.encoding(), self.rtmult.encoding());
        }
        self.wtmax.serialize(dest)?;
        proof {
            lemma_concat_associative(start, self.obj_attributes.encoding() + self.rtmax.encoding() + self.rtpref.encoding() + self.rtmult.encoding(), self.wtmax.encoding());
        }
        self.wtpref.serialize(dest)?;
        proof {
            lemma_concat_associative(start, self.obj_attributes.encoding() + self.rtmax.encoding() + self.rtpref.encoding() + self.rtmult.encoding() + self.wtmax.encoding(), self.wtpref.encoding());
        }
        self.wtmult.serialize(dest)?;
        proof {
            lemma_concat_associative(start, self.obj_attributes.encoding() + self.rtmax.encoding() + self.rtpref.encoding() + self.rtmult.encoding() + self.wtmax.encoding() + self.wtpref.encoding(), self.wtmult.encoding());
        }
        self.dtpref.serialize(dest)?;
        proof {
            lemma_concat_associative(start, self.obj_attributes.encoding() + self.rtmax.encoding() + self.rtpref.encoding() + self.rtmult.encoding() + self.wtmax.encoding() + self.wtpref.encoding() + self.wtmult.encoding(), self.dtpref.encoding());
        }
        self.maxfilesize.serialize(dest)?;
        proof {
            lemma_concat_associative(start, self.obj_attributes.encoding() + self.rtmax.encoding() + self.rtpref.encoding() + self.rtmult.encoding() + self.wtmax.encoding() + self.wtpref.encoding() + self.wtmult.encoding() + self.dtpref.encoding(), self.maxfilesize.encoding());
        }
        self.time_delta.serialize(dest)?;
        proof {
            lemma_concat_associative(start, self.obj_attributes.encoding() + self.rtmax.encoding() + self.rtpref.encoding() + self.rtmult.encoding() + self.wtmax.encoding() + self.wtpref.encoding() + self.wtmult.encoding() + self.dtpref.encoding() + self.maxfilesize.encoding(), self.time_delta.encoding());
        }
        self.properties.serialize(dest)?;
        proof {
            lemma_concat_associative(start, self.obj_attributes.encoding() + self.rtmax.encoding() + self.rtpref.encoding() + self.rtmult.encoding() + self.wtmax.encoding() + self.wtpref.encoding() + self.wtmult.encoding() + self.dtpref.encoding() + self.maxfilesize.encoding() + self.time_delta.encoding(), self.properties.encoding());
        }
        Ok(())
    }
}

impl Deserialize for fsinfo3 {
    open spec fn decoding(s: Seq<u8>, at: int) -> Parsed<fsinfo3> {
        match <Option<FAttr3> as Deserialize>::decoding(s, at) {
            Err(e) => Err(e),
            Ok((v0, p0)) => match <u32 as Deserialize>::decoding(s, p0) {
                Err(e) => Err(e),
                Ok((v1, p1)) => match <u32 as Deserialize>::decoding(s, p1) {
                    Err(e) => Err(e),
                    Ok((v2, p2)) => match <u32 as Deserialize>::decoding(s, p2) {
                        Err(e) => Err(e),
                        Ok((v3, p3)) => match <u32 as Deserialize>::decoding(s, p3) {
                            Err(e) => Err(e),
                            Ok((v4, p4)) => match <u32 as Deserialize>::decoding(s, p4) {
                                Err(e) => Err(e),
                                Ok((v5, p5)) => match <u32 as Deserialize>::decoding(s, p5) {
                                    Err(e) => Err(e),
                                    Ok((v6, p6)) => match <u32 as Deserialize>::decoding(s, p6) {
                                        Err(e) => Err(e),
                                        Ok((v7, p7)) => match <u64 as Deserialize>::decoding(s, p7) {
                                            Err(e) => Err(e),
                                            Ok((v8, p8)) => match <NFSTime3 as Deserialize>::decoding(s, p8) {
                                                Err(e) => Err(e),
                                                Ok((v9, p9)) => match <u32 as Deserialize>::decoding(s, p9) {
                                                    Err(e) => Err(e),
                                                    Ok((v10, p10)) => Ok((fsinfo3 { obj_attributes: v0, rtmax: v1, rtpref: v2, rtmult: v3, wtmax: v4, wtpref: v5, wtmult: v6, dtpref: v7, maxfilesize: v8, time_delta: v9, properties: v10 }, p10)),
                                                },
                                            },
                                        },
                                    },
                                },
                            },
                        },
                    },
                },
            },
        }
    }

    fn deserialize(src: &mut Cursor) -> (r: Result<fsinfo3, Error>) {
        let obj_attributes = <Option<FAttr3> as Deserialize>::deserialize(src)?;
        let rtmax = <u32 as Deserialize>::deserialize(src)?;
        let rtpref = <u32 as Deserialize>::deserialize(src)?;
        let rtmult = <u32 as Deserialize>::deserialize(src)?;
        let wtmax = <u32 as Deserialize>::deserialize(src)?;
        let wtpref = <u32 as Deserialize>::deserialize(src)?;
        let wtmult = <u32 as Deserialize>::deserialize(src)?;
        let dtpref = <u32 as Deserialize>::deserialize(src)?;
        let maxfilesize = <u64 as Deserialize>::deserialize(src)?;
        let time_delta = <NFSTime3 as Deserialize>::deserialize(src)?;
        let properties = <u32 as Deserialize>::deserialize(src)?;
        Ok(fsinfo3 { obj_attributes, rtmax, rtpref, rtmult, wtmax, wtpref, wtmult, dtpref, maxfilesize, time_delta, properties })
    }
}

impl RoundTrip for fsinfo3 {
    #[verifier::spinoff_prover]
    #[verifier::rlimit(100)]
    proof fn lemma_roundtrip(&self, s: Seq<u8>, at: int) {
        lemma_holds_split(s, at, self.obj_attributes.encoding() + self.rtmax.encoding() + self.rtpref.encoding() + self.rtmult.encoding() + self.wtmax.encoding() + self.wtpref.encoding() + self.wtmult.encoding() + self.dtpref.encoding() + self.maxfilesize.encoding() + self.time_delta.encoding(), self.properties.encoding());
        lemma_holds_split(s, at, self.obj_attributes.encoding() + self.rtmax.encoding() + self.rtpref.encoding() + self.rtmult.encoding() + self.wtmax.encoding() + self.wtpref.encoding() + self.wtmult.encoding() + self.dtpref.encoding() + self.maxfilesize.encoding(), self.time_delta.encoding());
        lemma_holds_split(s, at, self.obj_attributes.encoding() + self.rtmax.encoding() + self.rtpref.encoding() + self.rtmult.encoding() + self.wtmax.encoding() + self.wtpref.encoding() + self.wtmult.encoding() + self.dtpref.encoding(), self.maxfilesize.encoding());
        lemma_holds_split(s, at, self.obj_attributes.encoding() + self.rtmax.encoding() + self.rtpref.encoding() + self.rtmult.encoding() + self.wtmax.encoding() + self.wtpref.encoding() + self.wtmult.encoding(), self.dtpref.encoding());
        lemma_holds_split(s, at, self.obj_attributes.encoding() + self.rtmax.encoding() + self.rtpref.encoding() + self.rtmult.encoding() + self.wtmax.encoding() + self.wtpref.encoding(), self.wtmult.encoding());
        lemma_holds_split(s, at, self.obj_attributes.encoding() + self.rtmax.encoding() + self.rtpref.encoding() + self.rtmult.encoding() + self.wtmax.encoding(), self.wtpref.encoding());
        lemma_holds_split(s, at, self.obj_attributes.encoding() + self.rtmax.encoding() + self.rtpref.encoding() + self.rtmult.encoding(), self.wtmax.encoding());
        lemma_holds_split(s, at, self.obj_attributes.encoding() + self.rtmax.encoding() + self.rtpref.encoding(), self.rtmult.encoding());
        lemma_holds_split(s, at, self.obj_attributes.encoding() + self.rtmax.encoding(), self.rtpref.encoding());
        lemma_holds_split(s, at, self.obj_attributes.encoding(), self.rtmax.encoding());
        self.obj_attributes.lemma_roundtrip(s, at);
        self.rtmax.lemma_roundtrip(s, at + self.obj_attributes.encoding().len());
        self.rtpref.lemma_roundtrip(s, at + (self.obj_attributes.encoding() + self.rtmax.encoding()).len());
        self.rtmult.lemma_roundtrip(s, at + (self.obj_attributes.encoding() + self.rtmax.encoding() + self.rtpref.encoding()).len());
        self.wtmax.lemma_roundtrip(s, at + (self.obj_attributes.encoding() + self.rtmax.encoding() + self.rtpref.encoding() + self.rtmult.encoding()).len());
        self.wtpref.lemma_roundtrip(s, at + (self.obj_attributes.encoding() + self.rtmax.encoding() + self.rtpref.encoding() + self.rtmult.encoding() + self.wtmax.encoding()).len());
        self.wtmult.lemma_roundtrip(s, at + (self.obj_attributes.encoding() + self.rtmax.encoding() + self.rtpref.encoding() + self.rtmult.encoding() + self.wtmax.encoding() + self.wtpref.encoding()).len());
        self.dtpref.lemma_roundtrip(s, at + (self.obj_attributes.encoding() + self.rtmax.encoding() + self.rtpref.encoding() + self.rtmult.encoding() + self.wtmax.encoding() + self.wtpref.encoding() + self.wtmult.encoding()).len());
        self.maxfilesize.lemma_roundtrip(s, at + (self.obj_attributes.encoding() + self.rtmax.encoding() + self.rtpref.encoding() + self.rtmult.encoding() + self.wtmax.encoding() + self.wtpref.encoding() + self.wtmult.encoding() + self.dtpref.encoding()).len());
        self.time_delta.lemma_roundtrip(s, at + (self.obj_attributes.encoding() + self.rtmax.encoding() + self.rtpref.encoding() + self.rtmult.encoding() + self.wtmax.encoding() + self.wtpref.encoding() + self.wtmult.encoding() + self.dtpref.encoding() + self.maxfilesize.encoding()).len());
        self.properties.lemma_roundtrip(s, at + (self.obj_attributes.encoding() + self.rtmax.encoding() + self.rtpref.encoding() + self.rtmult.encoding() + self.wtmax.encoding() + self.wtpref.encoding() + self.wtmult.encoding() + self.dtpref.encoding() + self.maxfilesize.encoding() + self.time_delta.encoding()).len());
    }
}

/// Arguments of `FSSTAT`.
#[allow(non_camel_case_types)]
#[derive(Debug, Clone, Copy, PartialEq, Eq)]
pub struct FSSTAT3args {
    /// The root of the file system.
    pub fsroot: NFSFh3,
}

impl View for FSSTAT3args {
    type V = FSSTAT3args;

    open spec fn view(&self) -> FSSTAT3args {
        *self
    }
}

impl Serialize for FSSTAT3args {
    open spec fn encodable(&self) -> bool {
        self.fsroot.encodable()
    }

    open spec fn encoding(&self) -> Seq<u8> {
        self.fsroot.encoding()
    }

    fn serialize(&self, dest: &mut Vec<u8>) -> (r: Result<(), Error>) {
        let ghost start = dest@;
        self.fsroot.serialize(dest)?;
        Ok(())
    }
}

impl Deserialize for FSSTAT3args {
    open spec fn decoding(s: Seq<u8>, at: int) -> Parsed<FSSTAT3args> {
        match <NFSFh3 as Deserialize>::decoding(s, at) {
            Err(e) => Err(e),
            Ok((v0, p0)) => Ok((FSSTAT3args { fsroot: v0 }, p0)),
        }
    }

    fn deserialize(src: &mut Cursor) -> (r: Result<FSSTAT3args, Error>) {
        let fsroot = <NFSFh3 as Deserialize>::deserialize(src)?;
        Ok(FSSTAT3args { fsroot })
    }
}

impl RoundTrip for FSSTAT3args {
    proof fn lemma_roundtrip(&self, s: Seq<u8>, at: int) {
        self.fsroot.lemma_roundtrip(s, at);
    }
}

/// Results of a successful `FSSTAT`.
#[allow(non_camel_case_types)]
#[derive(Debug, Clone, Copy, PartialEq, Eq)]
pub struct FSSTAT3resok {
    /// Attributes of the root.
    pub obj_attributes: Option<FAttr3>,
    /// Total size in bytes.
    pub tbytes: u64,
    /// Free bytes.
    pub fbytes: u64,
    /// Free bytes available to the caller.
    pub abytes: u64,
    /// Total file slots.
    pub tfiles: u64,
    /// Free file slots.
    pub ffiles: u64,
    /// Free file slots available to the caller.
    pub afiles: u64,
    /// Seconds for which the answer stays valid.
    pub invarsec: u32,
}

impl View for FSSTAT3resok {
    type V = FSSTAT3resok;

    open spec fn view(&self) -> FSSTAT3resok {
        *self
    }
}

impl Serialize for FSSTAT3resok {
    open spec fn encodable(&self) -> bool {
        self.obj_attributes.encodable() && self.tbytes.encodable() && self.fbytes.encodable() && self.abytes.encodable() && self.tfiles.encodable() && self.ffiles.encodable() && self.afiles.encodable() && self.invarsec.encodable()
    }

    open spec fn encoding(&self) -> Seq<u8> {
        self.obj_attributes.encoding() + self.tbytes.encoding() + self.fbytes.encoding() + self.abytes.encoding() + self.tfiles.encoding() + self.ffiles.encoding() + self.afiles.encoding() + self.invarsec.encoding()
    }

    fn serialize(&self, dest: &mut Vec<u8>) -> (r: Result<(), Error>) {
        let ghost start = dest@;
        self.obj_attributes.serialize(dest)?;
        self.tbytes.serialize(dest)?;
        proof {
            lemma_concat_associative(start, self.obj_attributes.encoding(), self.tbytes.encoding());
        }
        self.fbytes.serialize(dest)?;
        proof {
            lemma_concat_associative(start, self.obj_attributes.encoding() + self.tbytes.encoding(), self.fbytes.encoding());
        }
        self.abytes.serialize(dest)?;
        proof {
            lemma_concat_associative(start, self.obj_attributes.encoding() + self.tbytes.encoding() + self.fbytes.encoding(), self.abytes.encoding());
        }
        self.tfiles.serialize(dest)?;
        proof {
            lemma_concat_associative(start, self.obj_attributes.encoding() + self.tbytes.encoding() + self.fbytes.encoding() + self.abytes.encoding(), self.tfiles.encoding());
        }
        self.ffiles.serialize(dest)?;
        proof {
            lemma_concat_associative(start, self.obj_attributes.encoding() + self.tbytes.encoding() + self.fbytes.encoding() + self.abytes.encoding() + self.tfiles.encoding(), self.ffiles.encoding());
        }
        self.afiles.serialize(dest)?;
        proof {
            lemma_concat_associative(start, self.obj_attributes.encoding() + self.tbytes.encoding() + self.fbytes.encoding() + self.abytes.encoding() + self.tfiles.encoding() + self.ffiles.encoding(), self.afiles.encoding());
        }
        self.invarsec.serialize(dest)?;
        proof {
            lemma_concat_associative(start, self.obj_attributes.encoding() + self.tbytes.encoding() + self.fbytes.encoding() + self.abytes.encoding() + self.tfiles.encoding() + self.ffiles.encoding() + self.afiles.encoding(), self.invarsec.encoding());
        }
        Ok(())
    }
}

impl Deserialize for FSSTAT3resok {
    open spec fn decoding(s: Seq<u8>, at: int) -> Parsed<FSSTAT3resok> {
        match <Option<FAttr3> as Deserialize>::decoding(s, at) {
            Err(e) => Err(e),
            Ok((v0, p0)) => match <u64 as Deserialize>::decoding(s, p0) {
                Err(e) => Err(e),
                Ok((v1, p1)) => match <u64 as Deserialize>::decoding(s, p1) {
                    Err(e) => Err(e),
                    Ok((v2, p2)) => match <u64 as Deserialize>::decoding(s, p2) {
                        Err(e) => Err(e),
                        Ok((v3, p3)) => match <u64 as Deserialize>::decoding(s, p3) {
                            Err(e) => Err(e),
                            Ok((v4, p4)) => match <u64 as Deserialize>::decoding(s, p4) {
                                Err(e) => Err(e),
                                Ok((v5, p5)) => match <u64 as Deserialize>::decoding(s, p5) {
                                    Err(e) => Err(e),
                                    Ok((v6, p6)) => match <u32 as Deserialize>::decoding(s, p6) {
                                        Err(e) => Err(e),
                                        Ok((v7, p7)) => Ok((FSSTAT3resok { obj_attributes: v0, tbytes: v1, fbytes: v2, abytes: v3, tfiles: v4, ffiles: v5, afiles: v6, invarsec: v7 }, p7)),
                                    },
                                },
                            },
                        },
                    },
                },
            },
        }
    }

    fn deserialize(src: &mut Cursor) -> (r: Result<FSSTAT3resok, Error>) {
        let obj_attributes = <Option<FAttr3> as Deserialize>::deserialize(src)?;
        let tbytes = <u64 as Deserialize>::deserialize(src)?;
        let fbytes = <u64 as Deserialize>::deserialize(src)?;
        let abytes = <u64 as Deserialize>::deserialize(src)?;
        let tfiles = <u64 as Deserialize>::deserialize(src)?;
        let ffiles = <u64 as Deserialize>::deserialize(src)?;
        let afiles = <u64 as Deserialize>::deserialize(src)?;
        let invarsec = <u32 as Deserialize>::deserialize(src)?;
        Ok(FSSTAT3resok { obj_attributes, tbytes, fbytes, abytes, tfiles, ffiles, afiles, invarsec })
    }
}

impl RoundTrip for FSSTAT3resok {
    #[verifier::spinoff_prover]
    #[verifier::rlimit(100)]
    proof fn lemma_roundtrip(&self, s: Seq<u8>, at: int) {
        lemma_holds_split(s, at, self.obj_attributes.encoding() + self.tbytes.encoding() + self.fbytes.encoding() + self.abytes.encoding() + self.tfiles.encoding() + self.ffiles.encoding() + self.afiles.encoding(), self.invarsec.encoding());
        lemma_holds_split(s, at, self.obj_attributes.encoding() + self.tbytes.encoding() + self.fbytes.encoding() + self.abytes.encoding() + self.tfiles.encoding() + self.ffiles.encoding(), self.afiles.encoding());
        lemma_holds_split(s, at, self.obj_attributes.encoding() + self.tbytes.encoding() + self.fbytes.encoding() + self.abytes.encoding() + self.tfiles.encoding(), self.ffiles.encoding());
        lemma_holds_split(s, at, self.obj_attributes.encoding() + self.tbytes.encoding() + self.fbytes.encoding() + self.abytes.encoding(), self.tfiles.encoding());
        lemma_holds_split(s, at, self.obj_attributes.encoding() + self.tbytes.encoding() + self.fbytes.encoding(), self.abytes.encoding());
        lemma_holds_split(s, at, self.obj_attributes.encoding() + self.tbytes.encoding(), self.fbytes.encoding());
        lemma_holds_split(s, at, self.obj_attributes.encoding(), self.tbytes.encoding());
        self.obj_attributes.lemma_roundtrip(s, at);
        self.tbytes.lemma_roundtrip(s, at + self.obj_attributes.encoding().len());
        self.fbytes.lemma_roundtrip(s, at + (self.obj_attributes.encoding() + self.tbytes.encoding()).len());
        self.abytes.lemma_roundtrip(s, at + (self.obj_attributes.encoding() + self.tbytes.encoding() + self.fbytes.encoding()).len());
        self.tfiles.lemma_roundtrip(s, at + (self.obj_attributes.encoding() + self.tbytes.encoding() + self.fbytes.encoding() + self.abytes.encoding()).len());
        self.ffiles.lemma_roundtrip(s, at + (self.obj_attributes.encoding() + self.tbytes.encoding() + self.fbytes.encoding() + self.abytes.encoding() + self.tfiles.encoding()).len());
        self.afiles.lemma_roundtrip(s, at + (self.obj_attributes.encoding() + self.tbytes.encoding() + self.fbytes.encoding() + self.abytes.encoding() + self.tfiles.encoding() + self.ffiles.encoding()).len());
        self.invarsec.lemma_roundtrip(s, at + (self.obj_attributes.encoding() + self.tbytes.encoding() + self.fbytes.encoding() + self.abytes.encoding() + self.tfiles.encoding() + self.ffiles.encoding() + self.afiles.encoding()).len());
    }
}

/// Arguments of `PATHCONF`.
#[allow(non_camel_case_types)]
#[derive(Debug, Clone, Copy, PartialEq, Eq)]
pub struct PATHCONF3args {
    /// The file asked about.
    pub object: NFSFh3,
}

impl View for PATHCONF3args {
    type V = PATHCONF3args;

    open spec fn view(&self) -> PATHCONF3args {
        *self
    }
}

impl Serialize for PATHCONF3args {
    open spec fn encodable(&self) -> bool {
        self.object.encodable()
    }

    open spec fn encoding(&self) -> Seq<u8> {
        self.object.encoding()
    }

    fn serialize(&self, dest: &mut Vec<u8>) -> (r: Result<(), Error>) {
        let ghost start = dest@;
        self.object.serialize(dest)?;
        Ok(())
    }
}

impl Deserialize for PATHCONF3args {
    open spec fn decoding(s: Seq<u8>, at: int) -> Parsed<PATHCONF3args> {
        match <NFSFh3 as Deserialize>::decoding(s, at) {
            Err(e) => Err(e),
            Ok((v0, p0)) => Ok((PATHCONF3args { object: v0 }, p0)),
        }
    }

    fn deserialize(src: &mut Cursor) -> (r: Result<PATHCONF3args, Error>) {
        let object = <NFSFh3 as Deserialize>::deserialize(src)?;
        Ok(PATHCONF3args { object })
    }
}

impl RoundTrip for PATHCONF3args {
    proof fn lemma_roundtrip(&self, s: Seq<u8>, at: int) {
        self.object.lemma_roundtrip(s, at);
    }
}

/// Results of a successful `PATHCONF`.
#[allow(non_camel_case_types)]
#[derive(Debug, Clone, Copy, PartialEq, Eq)]
pub struct PATHCONF3resok {
    /// Attributes of the object.
    pub obj_attributes: Option<FAttr3>,
    /// Most hard links.
    pub linkmax: u32,
    /// Longest name.
    pub name_max: u32,
    /// Long names are refused, not truncated.
    pub no_trunc: bool,
    /// Only a privileged user may change owners.
    pub chown_restricted: bool,
    /// Names are compared without case.
    pub case_insensitive: bool,
    /// The case of names is kept.
    pub case_preserving: bool,
}

impl View for PATHCONF3resok {
    type V = PATHCONF3resok;

    open spec fn view(&self) -> PATHCONF3resok {
        *self
    }
}

impl Serialize for PATHCONF3resok {
    open spec fn encodable(&self) -> bool {
        self.obj_attributes.encodable() && self.linkmax.encodable() && self.name_max.encodable() && self.no_trunc.encodable() && self.chown_restricted.encodable() && self.case_insensitive.encodable() && self.case_preserving.encodable()
    }

    open spec fn encoding(&self) -> Seq<u8> {
        self.obj_attributes.encoding() + self.linkmax.encoding() + self.name_max.encoding() + self.no_trunc.encoding() + self.chown_restricted.encoding() + self.case_insensitive.encoding() + self.case_preserving.encoding()
    }

    fn serialize(&self, dest: &mut Vec<u8>) -> (r: Result<(), Error>) {
        let ghost start = dest@;
        self.obj_attributes.serialize(dest)?;
        self.linkmax.serialize(dest)?;
        proof {
            lemma_concat_associative(start, self.obj_attributes.encoding(), self.linkmax.encoding());
        }
        self.name_max.serialize(dest)?;
        proof {
            lemma_concat_associative(start, self.obj_attributes.encoding() + self.linkmax.encoding(), self.name_max.encoding());
        }
        self.no_trunc.serialize(dest)?;
        proof {
            lemma_concat_associative(start, self.obj_attributes.encoding() + self.linkmax.encoding() + self.name_max.encoding(), self.no_trunc.encoding());
        }
        self.chown_restricted.serialize(dest)?;
        proof {
            lemma_concat_associative(start, self.obj_attributes.encoding() + self.linkmax.encoding() + self.name_max.encoding() + self.no_trunc.encoding(), self.chown_restricted.encoding());
        }
        self.case_insensitive.serialize(dest)?;
        proof {
            lemma_concat_associative(start, self.obj_attributes.encoding() + self.linkmax.encoding() + self.name_max.encoding() + self.no_trunc.encoding() + self.chown_restricted.encoding(), self.case_insensitive.encoding());
        }
        self.case_preserving.serialize(dest)?;
        proof {
            lemma_concat_associative(start, self.obj_attributes.encoding() + self.linkmax.encoding() + self.name_max.encoding() + self.no_trunc.encoding() + self.chown_restricted.encoding() + self.case_insensitive.encoding(), self.case_preserving.encoding());
        }
        Ok(())
    }
}

impl Deserialize for PATHCONF3resok {
    open spec fn decoding(s: Seq<u8>, at: int) -> Parsed<PATHCONF3resok> {
        match <Option<FAttr3> as Deserialize>::decoding(s, at) {
            Err(e) => Err(e),
            Ok((v0, p0)) => match <u32 as Deserialize>::decoding(s, p0) {
                Err(e) => Err(e),
                Ok((v1, p1)) => match <u32 as Deserialize>::decoding(s, p1) {
                    Err(e) => Err(e),
                    Ok((v2, p2)) => match <bool as Deserialize>::decoding(s, p2) {
                        Err(e) => Err(e),
                        Ok((v3, p3)) => match <bool as Deserialize>::decoding(s, p3) {
                            Err(e) => Err(e),
                            Ok((v4, p4)) => match <bool as Deserialize>::decoding(s, p4) {
                                Err(e) => Err(e),
                                Ok((v5, p5)) => match <bool as Deserialize>::decoding(s, p5) {
                                    Err(e) => Err(e),
                                    Ok((v6, p6)) => Ok((PATHCONF3resok { obj_attributes: v0, linkmax: v1, name_max: v2, no_trunc: v3, chown_restricted: v4, case_insensitive: v5, case_preserving: v6 }, p6)),
                                },
                            },
                        },
                    },
                },
            },
        }
    }

    fn deserialize(src: &mut Cursor) -> (r: Result<PATHCONF3resok, Error>) {
        let obj_attributes = <Option<FAttr3> as Deserialize>::deserialize(src)?;
        let linkmax = <u32 as Deserialize>::deserialize(src)?;
        let name_max = <u32 as Deserialize>::deserialize(src)?;
        let no_trunc = <bool as Deserialize>::deserialize(src)?;
        let chown_restricted = <bool as Deserialize>::deserialize(src)?;
        let case_insensitive = <bool as Deserialize>::deserialize(src)?;
        let case_preserving = <bool as Deserialize>::deserialize(src)?;
        Ok(PATHCONF3resok { obj_attributes, linkmax, name_max, no_trunc, chown_restricted, case_insensitive, case_preserving })
    }
}

impl RoundTrip for PATHCONF3resok {
    #[verifier::spinoff_prover]
    #[verifier::rlimit(100)]
    proof fn lemma_roundtrip(&self, s: Seq<u8>, at: int) {
        lemma_holds_split(s, at, self.obj_attributes.encoding() + self.linkmax.encoding() + self.name_max.encoding() + self.no_trunc.encoding() + self.chown_restricted.encoding() + self.case_insensitive.encoding(), self.case_preserving.encoding());
        lemma_holds_split(s, at, self.obj_attributes.encoding() + self.linkmax.encoding() + self.name_max.encoding() + self.no_trunc.encoding() + self.chown_restricted.encoding(), self.case_insensitive.encoding());
        lemma_holds_split(s, at, self.obj_attributes.encoding() + self.linkmax.encoding() + self.name_max.encoding() + self.no_trunc.encoding(), self.chown_restricted.encoding());
        lemma_holds_split(s, at, self.obj_attributes.encoding() + self.linkmax.encoding() + self.name_max.encoding(), self.no_trunc.encoding());
        lemma_holds_split(s, at, self.obj_attributes.encoding() + self.linkmax.encoding(), self.name_max.encoding());
        lemma_holds_split(s, at, self.obj_attributes.encoding(), self.linkmax.encoding());
        self.obj_attributes.lemma_roundtrip(s, at);
        self.linkmax.lemma_roundtrip(s, at + self.obj_attributes.encoding().len());
        self.name_max.lemma_roundtrip(s, at + (self.obj_attributes.encoding() + self.linkmax.encoding()).len());
        self.no_trunc.lemma_roundtrip(s, at + (self.obj_attributes.encoding() + self.linkmax.encoding() + self.name_max.encoding()).len());
        self.chown_restricted.lemma_roundtrip(s, at + (self.obj_attributes.encoding() + self.linkmax.encoding() + self.name_max.encoding() + self.no_trunc.encoding()).len());
        self.case_insensitive.lemma_roundtrip(s, at + (self.obj_attributes.encoding() + self.linkmax.encoding() + self.name_max.encoding() + self.no_trunc.encoding() + self.chown_restricted.encoding()).len());
        self.case_preserving.lemma_roundtrip(s, at + (self.obj_attributes.encoding() + self.linkmax.encoding() + self.name_max.encoding() + self.no_trunc.encoding() + self.chown_restricted.encoding() + self.case_insensitive.encoding()).len());
    }
}

} // verus!
