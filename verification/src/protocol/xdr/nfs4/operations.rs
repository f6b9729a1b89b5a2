//! NFS version 4 `NULL` and `COMPOUND` arguments and results.
use vstd::prelude::*;

use crate::encoding::{be32_bytes, keeps_prefix, usize_to_u32, write_be_u32};
use crate::parser::cursor::{parsed_as, spec_u32, Cursor};
use crate::protocol::xdr::nfs4::{NFSOpNum4, NFSStat4};
use crate::protocol::xdr::{invalid_data, Deserialize, Serialize};
use crate::rpc::{is_protocol_rejection, Error, IoErrorKind, Parsed};

verus! {

broadcast use crate::encoding::lemma_keeps_prefix_trans;

/// Arguments of `NULL`: none.
#[allow(non_camel_case_types)]
#[derive(Debug, Clone, Copy, PartialEq, Eq)]
pub struct NULL4args {
}

impl View for NULL4args {
    type V = NULL4args;

    open spec fn view(&self) -> NULL4args {
        *self
    }
}

impl Deserialize for NULL4args {
    open spec fn decoding(s: Seq<u8>, at: int) -> Parsed<NULL4args> {
        Ok((NULL4args {  }, at))
    }

    fn deserialize(src: &mut Cursor) -> (r: Result<NULL4args, Error>) {
        Ok(NULL4args {  })
    }
}

/// Results of `NULL`: none.
#[allow(non_camel_case_types)]
#[derive(Debug, Clone, Copy, PartialEq, Eq)]
pub struct NULL4res {
}

impl View for NULL4res {
    type V = NULL4res;

    open spec fn view(&self) -> NULL4res {
        *self
    }
}

impl Serialize for NULL4res {
    open spec fn encodable(&self) -> bool {
        true
    }

    open spec fn encoding(&self) -> Seq<u8> {
        Seq::empty()
    }

    fn serialize(&self, dest: &mut Vec<u8>) -> (r: Result<(), Error>) {
        Ok(())
    }
}

/// The result of an illegal operation.
#[allow(non_camel_case_types)]
#[derive(Debug, Clone, Copy, PartialEq, Eq)]
pub struct IllegalResp {
    /// The status reported.
    pub status: NFSStat4,
}

impl View for IllegalResp {
    type V = IllegalResp;

    open spec fn view(&self) -> IllegalResp {
        *self
    }
}

impl Serialize for IllegalResp {
    open spec fn encodable(&self) -> bool {
        self.status.encodable()
    }

    open spec fn encoding(&self) -> Seq<u8> {
        self.status.encoding()
    }

    fn serialize(&self, dest: &mut Vec<u8>) -> (r: Result<(), Error>) {
        let ghost start = dest@;
        self.status.serialize(dest)?;
        Ok(())
    }
}

/// Arguments of `COMPOUND`: a tag, a minor version and the operations.
#[derive(Debug)]
pub struct COMPOUND4args {
    pub tag: String,
    pub minorversion: u32,
    pub argarray: Vec<NFSArgOp4>,
}

/// Results of `COMPOUND`: the status of the last operation run, the tag,
/// and the results of the operations run.
#[derive(Debug)]
pub struct COMPOUND4res {
    pub status: NFSStat4,
    pub tag: String,
    pub resarray: Vec<NFSResOp4>,
}

/// One operation of a `COMPOUND`.
#[derive(Debug)]
pub struct NFSArgOp4 {
    pub argop: NFSOpNum4,
    pub op_data: NFSArgOp4U,
}

/// The result of one operation of a `COMPOUND`.
#[derive(Debug)]
pub struct NFSResOp4 {
    pub resop: NFSOpNum4,
    pub op_result: NFSResOp4U,
}

/// The arguments of one operation, by operation.
#[derive(Debug)]
pub enum NFSArgOp4U {
    OpNull(NULL4args),
    OpCompound(COMPOUND4args),
    OpIllegal,
}

/// The result of one operation, by operation.
#[derive(Debug)]
pub enum NFSResOp4U {
    OpNull(NULL4res),
    OpCompound(COMPOUND4res),
    OpIllegal(IllegalResp),
}

/// [`COMPOUND4args`] with its fields by their views.
pub struct COMPOUND4argsView {
    pub tag: Seq<char>,
    pub minorversion: u32,
    pub argarray: Seq<NFSArgOp4View>,
}

/// [`NFSArgOp4`] with its arguments by their views.
pub struct NFSArgOp4View {
    pub argop: NFSOpNum4,
    pub op_data: NFSArgOp4UView,
}

/// [`NFSArgOp4U`] with its arguments by their views.
pub enum NFSArgOp4UView {
    OpNull(NULL4args),
    OpCompound(COMPOUND4argsView),
    OpIllegal,
}

/// The view of `COMPOUND` arguments.
pub open spec fn compound_args_view(a: COMPOUND4args) -> COMPOUND4argsView
    decreases a, 1nat,
{
    COMPOUND4argsView { tag: a.tag@, minorversion: a.minorversion, argarray: argops_view(a.argarray@) }
}

/// The views of a list of operations.
pub open spec fn argops_view(s: Seq<NFSArgOp4>) -> Seq<NFSArgOp4View>
    decreases s, 0nat,
{
    if s.len() == 0 {
        Seq::empty()
    } else {
        let op = s[0];
        seq![NFSArgOp4View {
            argop: op.argop,
            op_data: match op.op_data {
                NFSArgOp4U::OpNull(x) => NFSArgOp4UView::OpNull(x),
                NFSArgOp4U::OpCompound(c) => NFSArgOp4UView::OpCompound(compound_args_view(c)),
                NFSArgOp4U::OpIllegal => NFSArgOp4UView::OpIllegal,
            },
        }] + argops_view(s.skip(1))
    }
}

impl View for COMPOUND4args {
    type V = COMPOUND4argsView;

    open spec fn view(&self) -> COMPOUND4argsView {
        compound_args_view(*self)
    }
}

impl View for NFSArgOp4 {
    type V = NFSArgOp4View;

    open spec fn view(&self) -> NFSArgOp4View {
        argops_view(seq![*self])[0]
    }
}

/// Decoding `COMPOUND` arguments: the tag, the minor version, then the
/// counted operations.
pub open spec fn compound_args_decoding(s: Seq<u8>, at: int) -> Parsed<COMPOUND4argsView>
    decreases s.len() - at, 2nat, 0nat,
{
    match <String as Deserialize>::decoding(s, at) {
        Err(e) => Err(e),
        Ok((tag, p1)) => match spec_u32(s, p1) {
            Err(e) => Err(e),
            Ok((minorversion, p2)) => match spec_u32(s, p2) {
                Err(e) => Err(e),
                Ok((n, p3)) => if p3 <= at {
                    Err(invalid_data())
                } else {
                    match argops_decoding(s, p3, n as nat) {
                        Err(e) => Err(e),
                        Ok((argarray, end)) => Ok((COMPOUND4argsView { tag, minorversion, argarray }, end)),
                    }
                },
            },
        },
    }
}

/// Decoding `n` operations in a row.
pub open spec fn argops_decoding(s: Seq<u8>, at: int, n: nat) -> Parsed<Seq<NFSArgOp4View>>
    decreases s.len() - at, 1nat, n,
{
    if n == 0 {
        Ok((Seq::empty(), at))
    } else {
        match argop_decoding(s, at) {
            Err(e) => Err(e),
            Ok((op, p)) => if p <= at || p > s.len() {
                Err(invalid_data())
            } else {
                match argops_decoding(s, p, (n - 1) as nat) {
                    Err(e) => Err(e),
                    Ok((rest, end)) => Ok((seq![op] + rest, end)),
                }
            },
        }
    }
}

/// Decoding one operation: its number, then the arguments of `NULL` (none)
/// or of a nested `COMPOUND`; `ILLEGAL` has none, and any other operation
/// is refused.
pub open spec fn argop_decoding(s: Seq<u8>, at: int) -> Parsed<NFSArgOp4View>
    decreases s.len() - at, 0nat, 0nat,
{
    match <NFSOpNum4 as Deserialize>::decoding(s, at) {
        Err(e) => Err(e),
        Ok((argop, p)) => if p <= at || p > s.len() {
            Err(invalid_data())
        } else if argop == NFSOpNum4::OpNull {
            Ok((NFSArgOp4View { argop, op_data: NFSArgOp4UView::OpNull(NULL4args {  }) }, p))
        } else if argop == NFSOpNum4::OpCompound {
            match compound_args_decoding(s, p) {
                Err(e) => Err(e),
                Ok((c, end)) => Ok((NFSArgOp4View { argop, op_data: NFSArgOp4UView::OpCompound(c) }, end)),
            }
        } else if argop == NFSOpNum4::OpIllegal {
            Ok((NFSArgOp4View { argop, op_data: NFSArgOp4UView::OpIllegal }, p))
        } else {
            Err(Error::IO(IoErrorKind::Other))
        }
    }
}

/// A successful decoding moves forward and stays within the bytes.
pub proof fn lemma_compound_args_end(s: Seq<u8>, at: int)
    ensures
        compound_args_decoding(s, at) matches Ok((_, end)) ==> at < end <= s.len(),
        argop_decoding(s, at) matches Ok((_, end)) ==> at < end <= s.len(),
    decreases s.len() - at, 2nat,
{
    if at < s.len() {
        match <String as Deserialize>::decoding(s, at) {
            Ok((_, p1)) => match spec_u32(s, p1) {
                Ok((_, p2)) => match spec_u32(s, p2) {
                    Ok((n, p3)) => if p3 > at {
                        lemma_argops_end(s, p3, n as nat);
                    },
                    _ => {},
                },
                _ => {},
            },
            _ => {},
        }
        match <NFSOpNum4 as Deserialize>::decoding(s, at) {
            Ok((_, p)) => if at < p <= s.len() {
                lemma_compound_args_end(s, p);
            },
            _ => {},
        }
    }
}

/// Decoding a row of operations ends within the bytes, not before it began.
pub proof fn lemma_argops_end(s: Seq<u8>, at: int, n: nat)
    requires
        at <= s.len(),
    ensures
        argops_decoding(s, at, n) matches Ok((_, end)) ==> at <= end <= s.len(),
    decreases s.len() - at, 1nat,
{
    if n > 0 {
        match argop_decoding(s, at) {
            Ok((_, p)) => if at < p <= s.len() {
                lemma_argops_end(s, p, (n - 1) as nat);
            },
            _ => {},
        }
    }
}

/// Decodes `COMPOUND` arguments.
fn decode_compound_args(src: &mut Cursor) -> (r: Result<COMPOUND4args, Error>)
    requires
        old(src).wf(),
    ensures
        parsed_as(*old(src), *final(src), r, compound_args_decoding(old(src).bytes(), old(src).pos())),
    decreases old(src).bytes().len() - old(src).pos(), 2nat, 0nat,
{
    let start = src.offset();
    let tag = <String as Deserialize>::deserialize(src)?;
    let minorversion = src.read_u32()?;
    let n = src.read_u32()?;
    if src.offset() <= start {
        return Err(invalid_data_error());
    }
    let ghost p3 = src.pos();
    let argarray = decode_argops(src, n)?;
    proof {
        lemma_argops_end(old(src).bytes(), p3, n as nat);
    }
    Ok(COMPOUND4args { tag, minorversion, argarray })
}

/// Decodes `n` operations in a row.
fn decode_argops(src: &mut Cursor, n: u32) -> (r: Result<Vec<NFSArgOp4>, Error>)
    requires
        old(src).wf(),
    ensures
        final(src).bytes() == old(src).bytes(),
        final(src).wf(),
        old(src).pos() <= final(src).pos(),
        (r matches Err(e) ==> !is_protocol_rejection(e)),
        match argops_decoding(old(src).bytes(), old(src).pos(), n as nat) {
            Ok((v, end)) => r matches Ok(x) && argops_view(x@) == v && final(src).pos() == end,
            Err(e) => r == Err::<Vec<NFSArgOp4>, Error>(e),
        },
    decreases old(src).bytes().len() - old(src).pos(), 1nat, n,
{
    if n == 0 {
        assert(argops_view(Seq::<NFSArgOp4>::empty()) =~= Seq::<NFSArgOp4View>::empty());
        return Ok(Vec::new());
    }
    let start = src.offset();
    let op = decode_argop(src)?;
    let pos = src.offset();
    if pos <= start || pos > src.get_ref().len() {
        return Err(invalid_data_error());
    }
    let mut rest = decode_argops(src, n - 1)?;
    let ghost tail = rest@;
    rest.insert(0, op);
    proof {
        assert(rest@.skip(1) =~= tail);
        assert(argops_view(rest@) =~= seq![argops_view(seq![op])[0]] + argops_view(tail)) by {
            assert(seq![op].skip(1) =~= Seq::<NFSArgOp4>::empty());
        }
    }
    Ok(rest)
}

/// Decodes one operation.
fn decode_argop(src: &mut Cursor) -> (r: Result<NFSArgOp4, Error>)
    requires
        old(src).wf(),
    ensures
        parsed_as(*old(src), *final(src), r, argop_decoding(old(src).bytes(), old(src).pos())),
    decreases old(src).bytes().len() - old(src).pos(), 0nat, 0nat,
{
    let start = src.offset();
    let argop = <NFSOpNum4 as Deserialize>::deserialize(src)?;
    let pos = src.offset();
    if pos <= start || pos > src.get_ref().len() {
        return Err(invalid_data_error());
    }
    match argop {
        NFSOpNum4::OpNull => {
            let args = <NULL4args as Deserialize>::deserialize(src)?;
            Ok(NFSArgOp4 { argop, op_data: NFSArgOp4U::OpNull(args) })
        },
        NFSOpNum4::OpCompound => {
            let args = decode_compound_args(src)?;
            Ok(NFSArgOp4 { argop, op_data: NFSArgOp4U::OpCompound(args) })
        },
        NFSOpNum4::OpIllegal => Ok(NFSArgOp4 { argop, op_data: NFSArgOp4U::OpIllegal }),
        _ => Err(Error::IO(IoErrorKind::Other)),
    }
}

/// The error of bytes that encode no value.
fn invalid_data_error() -> (e: Error)
    ensures
        e == invalid_data(),
{
    Error::IO(IoErrorKind::InvalidData)
}

impl Deserialize for COMPOUND4args {
    open spec fn decoding(s: Seq<u8>, at: int) -> Parsed<COMPOUND4argsView> {
        compound_args_decoding(s, at)
    }

    fn deserialize(src: &mut Cursor) -> (r: Result<COMPOUND4args, Error>) {
        decode_compound_args(src)
    }
}

impl Deserialize for NFSArgOp4 {
    open spec fn decoding(s: Seq<u8>, at: int) -> Parsed<NFSArgOp4View> {
        argop_decoding(s, at)
    }

    fn deserialize(src: &mut Cursor) -> (r: Result<NFSArgOp4, Error>) {
        decode_argop(src)
    }
}

/// `COMPOUND` results whose lengths all fit in 32 bits.
pub open spec fn compound_res_encodable(r: COMPOUND4res) -> bool
    decreases r, 1nat,
{
    &&& r.tag.encodable()
    &&& r.resarray@.len() <= u32::MAX
    &&& resops_encodable(r.resarray@)
}

/// Results of operations whose lengths all fit in 32 bits.
pub open spec fn resops_encodable(s: Seq<NFSResOp4>) -> bool
    decreases s, 0nat,
{
    if s.len() == 0 {
        true
    } else {
        resops_encodable(s.drop_last()) && resop_encodable(s.last())
    }
}

/// The result of an operation whose lengths all fit in 32 bits.
pub open spec fn resop_encodable(op: NFSResOp4) -> bool
    decreases op, 0nat,
{
    match op.op_result {
        NFSResOp4U::OpCompound(c) => compound_res_encodable(c),
        _ => true,
    }
}

/// The encoding of `COMPOUND` results: status, tag, then the counted
/// results.
pub open spec fn compound_res_encoding(r: COMPOUND4res) -> Seq<u8>
    decreases r, 1nat,
{
    r.status.encoding() + r.tag.encoding() + be32_bytes(r.resarray@.len() as u32) + resops_encoding(
        r.resarray@,
    )
}

/// The encodings of results of operations, one after the other.
pub open spec fn resops_encoding(s: Seq<NFSResOp4>) -> Seq<u8>
    decreases s, 0nat,
{
    if s.len() == 0 {
        Seq::empty()
    } else {
        resops_encoding(s.drop_last()) + resop_encoding(s.last())
    }
}

/// The encoding of the result of one operation: its number, then its
/// results.
pub open spec fn resop_encoding(op: NFSResOp4) -> Seq<u8>
    decreases op, 0nat,
{
    op.resop.encoding() + match op.op_result {
        NFSResOp4U::OpNull(x) => x.encoding(),
        NFSResOp4U::OpCompound(c) => compound_res_encoding(c),
        NFSResOp4U::OpIllegal(x) => x.encoding(),
    }
}

impl Serialize for COMPOUND4res {
    open spec fn encodable(&self) -> bool {
        compound_res_encodable(*self)
    }

    open spec fn encoding(&self) -> Seq<u8> {
        compound_res_encoding(*self)
    }

    fn serialize(&self, dest: &mut Vec<u8>) -> (r: Result<(), Error>) {
        serialize_compound_res(self, dest)
    }
}

impl Serialize for NFSResOp4 {
    open spec fn encodable(&self) -> bool {
        resop_encodable(*self)
    }

    open spec fn encoding(&self) -> Seq<u8> {
        resop_encoding(*self)
    }

    fn serialize(&self, dest: &mut Vec<u8>) -> (r: Result<(), Error>) {
        serialize_resop(self, dest)
    }
}

/// Appends the encoding of `COMPOUND` results.
fn serialize_compound_res(r: &COMPOUND4res, dest: &mut Vec<u8>) -> (res: Result<(), Error>)
    ensures
        res is Ok <==> compound_res_encodable(*r),
        res is Ok ==> final(dest)@ == old(dest)@ + compound_res_encoding(*r),
        keeps_prefix(old(dest)@, final(dest)@),
        res is Err ==> res == Err::<(), Error>(invalid_data()),
    decreases *r, 1nat,
{
    let ghost start = dest@;
    r.status.serialize(dest)?;
    r.tag.serialize(dest)?;
    let n = match usize_to_u32(r.resarray.len()) {
        Some(n) => n,
        None => return Err(invalid_data_error()),
    };
    write_be_u32(dest, n);
    serialize_resops(&r.resarray, dest)?;
    assert(dest@ =~= start + compound_res_encoding(*r));
    Ok(())
}

/// Appends the encodings of results of operations.
fn serialize_resops(s: &Vec<NFSResOp4>, dest: &mut Vec<u8>) -> (res: Result<(), Error>)
    ensures
        res is Ok <==> resops_encodable(s@),
        res is Ok ==> final(dest)@ == old(dest)@ + resops_encoding(s@),
        keeps_prefix(old(dest)@, final(dest)@),
        res is Err ==> res == Err::<(), Error>(invalid_data()),
    decreases s@, 0nat,
{
    let mut i: usize = 0;
    while i < s.len()
        invariant
            0 <= i <= s@.len(),
            resops_encodable(s@.take(i as int)),
            dest@ == old(dest)@ + resops_encoding(s@.take(i as int)),
            keeps_prefix(old(dest)@, dest@),
        decreases s@.len() - i,
    {
        assert(s@.take(i + 1).drop_last() =~= s@.take(i as int));
        proof {
            assert(decreases_to!(s@ => s@[i as int]));
        }
        if serialize_resop(&s[i], dest).is_err() {
            proof {
                if resops_encodable(s@) {
                    lemma_resops_encodable_prefix(s@, i + 1);
                }
            }
            return Err(invalid_data_error());
        }
        i = i + 1;
        assert(dest@ =~= old(dest)@ + resops_encoding(s@.take(i as int)));
    }
    assert(s@.take(s@.len() as int) =~= s@);
    Ok(())
}

/// Results of operations that fit have prefixes that fit.
proof fn lemma_resops_encodable_prefix(s: Seq<NFSResOp4>, k: int)
    requires
        0 <= k <= s.len(),
        resops_encodable(s),
    ensures
        resops_encodable(s.take(k)),
    decreases s.len(),
{
    if k < s.len() {
        assert(s.drop_last().take(k) =~= s.take(k));
        lemma_resops_encodable_prefix(s.drop_last(), k);
    } else {
        assert(s.take(k) =~= s);
    }
}

/// Appends the encoding of the result of one operation.
fn serialize_resop(op: &NFSResOp4, dest: &mut Vec<u8>) -> (res: Result<(), Error>)
    ensures
        res is Ok <==> resop_encodable(*op),
        res is Ok ==> final(dest)@ == old(dest)@ + resop_encoding(*op),
        keeps_prefix(old(dest)@, final(dest)@),
        res is Err ==> res == Err::<(), Error>(invalid_data()),
    decreases *op, 0nat,
{
    let ghost start = dest@;
    op.resop.serialize(dest)?;
    match &op.op_result {
        NFSResOp4U::OpNull(x) => {
            x.serialize(dest)?;
        },
        NFSResOp4U::OpCompound(c) => {
            serialize_compound_res(c, dest)?;
        },
        NFSResOp4U::OpIllegal(x) => {
            x.serialize(dest)?;
        },
    }
    assert(dest@ =~= start + resop_encoding(*op));
    Ok(())
}

} // verus!
