//! XDR (RFC 4506) encoding and decoding of the values the server exchanges.
//!
//! Every type here states its encoding as a byte sequence ([`Serialize`])
//! and its decoding as a spec parse ([`Deserialize`]); the executable code
//! is proved to produce exactly those bytes and values.
use vstd::prelude::*;
use vstd::utf8::{decode_utf8, encode_utf8, encode_utf8_decode_utf8, encode_utf8_valid_utf8, valid_utf8};

use crate::encoding::{
    be32_at, be32_bytes, be64_bytes, lemma_be32_roundtrip, lemma_be64_roundtrip, lemma_pad_len, pad_len,
    padding_len,
    keeps_prefix, usize_to_u32, write_be_u32, write_be_u64,
};
use crate::parser::cursor::{eof, parsed_as, spec_bytes, spec_skip, spec_u32, spec_u64, Cursor};
use crate::rpc::{Error, IoErrorKind, Parsed};

pub mod mount;
pub mod nfs3;
pub mod nfs4;
pub mod rpc;

verus! {

/// The error of a value that has no encoding or of bytes that encode none.
pub open spec fn invalid_data() -> Error {
    Error::IO(IoErrorKind::InvalidData)
}

broadcast use crate::encoding::lemma_keeps_prefix_trans;

/// A value with an XDR encoding.
pub trait Serialize {
    /// Every length the value carries fits in 32 bits.
    spec fn encodable(&self) -> bool;

    /// The XDR encoding of the value.
    spec fn encoding(&self) -> Seq<u8>;

    /// Appends the encoding of the value to `dest`; a value without one is
    /// refused with `InvalidData`, after the parts of it that come before
    /// the refused one were appended. Either way the bytes `dest` held stay
    /// in front.
    fn serialize(&self, dest: &mut Vec<u8>) -> (r: Result<(), Error>)
        ensures
            r is Ok <==> self.encodable(),
            r is Ok ==> final(dest)@ == old(dest)@ + self.encoding(),
            r is Err ==> r == Err::<(), Error>(invalid_data()),
            keeps_prefix(old(dest)@, final(dest)@),
    ;
}

/// A value that can be decoded from XDR.
pub trait Deserialize: Sized + View {
    /// Decoding a value from the bytes `s` at offset `at`.
    spec fn decoding(s: Seq<u8>, at: int) -> Parsed<Self::V>;

    /// Decodes a value from `src`.
    fn deserialize(src: &mut Cursor) -> (r: Result<Self, Error>)
        requires
            old(src).wf(),
        ensures
            parsed_as(*old(src), *final(src), r, Self::decoding(old(src).bytes(), old(src).pos())),
    ;
}

/// The bytes `s` hold `e` at offset `at`.
pub open spec fn holds_at(s: Seq<u8>, at: int, e: Seq<u8>) -> bool {
    0 <= at && at + e.len() <= s.len() && s.subrange(at, at + e.len()) == e
}

/// A value whose decoding gives back what its encoding wrote.
pub trait RoundTrip: Serialize + Deserialize {
    /// Decoding the encoding of a value, wherever it stands in a byte
    /// sequence and whatever follows it, gives back the value and the offset
    /// just after the encoding.
    proof fn lemma_roundtrip(&self, s: Seq<u8>, at: int)
        requires
            self.encodable(),
            holds_at(s, at, self.encoding()),
        ensures
            Self::decoding(s, at) == Ok::<(Self::V, int), Error>((self@, at + self.encoding().len())),
    ;
}

/// Bytes that hold `a + b` at `at` hold `a` there and `b` right after it.
pub proof fn lemma_holds_split(s: Seq<u8>, at: int, a: Seq<u8>, b: Seq<u8>)
    requires
        holds_at(s, at, a + b),
    ensures
        holds_at(s, at, a),
        holds_at(s, at + a.len(), b),
{
    assert(s.subrange(at, at + a.len()) =~= (a + b).subrange(0, a.len() as int));
    assert((a + b).subrange(0, a.len() as int) =~= a);
    assert(s.subrange(at + a.len(), at + a.len() + b.len()) =~= b) by {
        assert forall|i: int| 0 <= i < b.len() implies s.subrange(at + a.len(), at + a.len() + b.len())[i] == b[i] by {
            assert(s.subrange(at, at + (a + b).len())[a.len() + i] == (a + b)[a.len() + i]);
        }
    }
}

/// Decoding a `u32` where its encoding stands gives it back.
pub proof fn lemma_u32_at(s: Seq<u8>, at: int, v: u32)
    requires
        holds_at(s, at, be32_bytes(v)),
    ensures
        spec_u32(s, at) == Ok::<(u32, int), Error>((v, at + 4)),
{
    lemma_be32_roundtrip(v);
    let t = s.subrange(at, at + 4);
    assert(t[0] == s[at] && t[1] == s[at + 1] && t[2] == s[at + 2] && t[3] == s[at + 3]);
    assert(be32_at(s, at) == be32_at(t, 0));
}

/// Reading a signed value as unsigned and back gives it back.
pub proof fn lemma_i32_u32(d: i32)
    ensures
        (d as u32) as i32 == d,
{
    assert((d as u32) as i32 == d) by (bit_vector);
}

/// Reading a signed 64-bit value as unsigned and back gives it back.
pub proof fn lemma_i64_u64(d: i64)
    ensures
        (d as u64) as i64 == d,
{
    assert((d as u64) as i64 == d) by (bit_vector);
}

/// Decoding a `u64` where its encoding stands gives it back.
pub proof fn lemma_u64_at(s: Seq<u8>, at: int, v: u64)
    requires
        holds_at(s, at, be64_bytes(v)),
    ensures
        spec_u64(s, at) == Ok::<(u64, int), Error>((v, at + 8)),
{
    let hi = (v / 0x1_0000_0000) as u32;
    let lo = (v % 0x1_0000_0000) as u32;
    lemma_be64_roundtrip(v);
    lemma_holds_split(s, at, be32_bytes(hi), be32_bytes(lo));
    lemma_u32_at(s, at, hi);
    lemma_u32_at(s, at + 4, lo);
    assert(hi as int * 0x1_0000_0000 + lo as int == v as int);
}

/// Decoding opaque data of `n` bytes where its fixed-length encoding
/// stands gives it back.
pub proof fn lemma_fixed_opaque_at(s: Seq<u8>, at: int, b: Seq<u8>)
    requires
        holds_at(s, at, fixed_opaque_encoding(b)),
    ensures
        fixed_opaque_decoding(s, at, b.len() as int) == Ok::<(Seq<u8>, int), Error>((
            b,
            at + fixed_opaque_encoding(b).len(),
        )),
{
    lemma_holds_split(s, at, b, zeros(pad_len(b.len() as int)));
}

/// Decoding variable-length opaque data where its encoding stands gives it
/// back.
pub proof fn lemma_opaque_at(s: Seq<u8>, at: int, b: Seq<u8>)
    requires
        b.len() <= u32::MAX,
        holds_at(s, at, opaque_encoding(b)),
    ensures
        opaque_decoding(s, at) == Ok::<(Seq<u8>, int), Error>((b, at + opaque_encoding(b).len())),
{
    lemma_holds_split(s, at, be32_bytes(b.len() as u32), fixed_opaque_encoding(b));
    lemma_u32_at(s, at, b.len() as u32);
    lemma_fixed_opaque_at(s, at + 4, b);
}

/// Opaque data and its padding end on an XDR boundary, with fewer padding
/// bytes than the alignment.
pub proof fn lemma_opaque_aligned(b: Seq<u8>)
    ensures
        fixed_opaque_encoding(b).len() % 4 == 0,
        fixed_opaque_encoding(b).len() - b.len() < 4,
        opaque_encoding(b).len() % 4 == 0,
{
    let n = b.len() as int;
    lemma_pad_len(n);
    lemma_be32_roundtrip(b.len() as u32);
    assert(fixed_opaque_encoding(b).len() == n + pad_len(n));
    assert(opaque_encoding(b).len() == 4 + (n + pad_len(n)));
}

/// Decodes a value of type `T` from `src`.
pub fn deserialize<T: Deserialize>(src: &mut Cursor) -> (r: Result<T, Error>)
    requires
        old(src).wf(),
    ensures
        parsed_as(*old(src), *final(src), r, T::decoding(old(src).bytes(), old(src).pos())),
{
    T::deserialize(src)
}

/// An XDR enumeration that is written as its discriminant.
pub trait SerializeEnum {
    /// The discriminant of the value.
    spec fn discriminant(&self) -> i32;

    /// The discriminant of the value.
    fn to_i32(&self) -> (r: i32)
        ensures
            r == self.discriminant(),
    ;
}

/// An XDR enumeration that is read from its discriminant.
pub trait DeserializeEnum: Sized + View {
    /// The value with discriminant `d`, if any.
    spec fn of_discriminant(d: i32) -> Option<Self::V>;

    /// The value with discriminant `d`, if any.
    fn from_i32(d: i32) -> (r: Option<Self>)
        ensures
            r is None <==> Self::of_discriminant(d) is None,
            r matches Some(v) ==> Self::of_discriminant(d) == Some(v@),
    ;
}

/// The XDR encoding of an enumeration value.
pub open spec fn enum_encoding(d: i32) -> Seq<u8> {
    be32_bytes(d as u32)
}

/// Decoding an enumeration of type `T`.
pub open spec fn enum_decoding<T: DeserializeEnum>(s: Seq<u8>, at: int) -> Parsed<T::V> {
    match spec_u32(s, at) {
        Ok((d, end)) => match T::of_discriminant(d as i32) {
            Some(v) => Ok((v, end)),
            None => Err(invalid_data()),
        },
        Err(e) => Err(e),
    }
}

/// Appends the encoding of an enumeration value.
pub fn serialize_enum<T: SerializeEnum>(v: &T, dest: &mut Vec<u8>)
    ensures
        final(dest)@ == old(dest)@ + enum_encoding(v.discriminant()),
{
    write_be_u32(dest, v.to_i32() as u32);
}

/// Decodes an enumeration value.
pub fn deserialize_enum<T: DeserializeEnum>(src: &mut Cursor) -> (r: Result<T, Error>)
    requires
        old(src).wf(),
    ensures
        parsed_as(*old(src), *final(src), r, enum_decoding::<T>(old(src).bytes(), old(src).pos())),
{
    let d = src.read_u32()?;
    match T::from_i32(#[verifier::truncate] (d as i32)) {
        Some(v) => Ok(v),
        None => Err(Error::IO(IoErrorKind::InvalidData)),
    }
}

/// `n` zero bytes.
pub open spec fn zeros(n: int) -> Seq<u8> {
    Seq::new(n as nat, |_i: int| 0u8)
}

/// Fixed-length opaque data: the bytes, then zeros up to a 4-byte boundary.
pub open spec fn fixed_opaque_encoding(b: Seq<u8>) -> Seq<u8> {
    b + zeros(pad_len(b.len() as int))
}

/// Variable-length opaque data: the length, the bytes, the padding.
pub open spec fn opaque_encoding(b: Seq<u8>) -> Seq<u8> {
    be32_bytes(b.len() as u32) + fixed_opaque_encoding(b)
}

/// Decoding `n` bytes of fixed-length opaque data and their padding.
pub open spec fn fixed_opaque_decoding(s: Seq<u8>, at: int, n: int) -> Parsed<Seq<u8>> {
    match spec_bytes(s, at, n) {
        Ok((b, p)) => match spec_skip(s, p, pad_len(n), eof()) {
            Ok((_, end)) => Ok((b, end)),
            Err(e) => Err(e),
        },
        Err(e) => Err(e),
    }
}

/// Decoding variable-length opaque data.
pub open spec fn opaque_decoding(s: Seq<u8>, at: int) -> Parsed<Seq<u8>> {
    match spec_u32(s, at) {
        Ok((n, p)) => fixed_opaque_decoding(s, p, n as int),
        Err(e) => Err(e),
    }
}

/// Appends `n` zero bytes.
fn write_zeros(dest: &mut Vec<u8>, n: usize)
    ensures
        final(dest)@ == old(dest)@ + zeros(n as int),
{
    let mut i: usize = 0;
    while i < n
        invariant
            0 <= i <= n,
            dest@ == old(dest)@ + zeros(i as int),
        decreases n - i,
    {
        dest.push(0u8);
        i = i + 1;
        assert(dest@ =~= old(dest)@ + zeros(i as int));
    }
}

/// Appends the bytes of `b`.
pub fn write_bytes(dest: &mut Vec<u8>, b: &[u8])
    ensures
        final(dest)@ == old(dest)@ + b@,
{
    let ghost before = dest@;
    dest.extend_from_slice(b);
    assert forall|i: int| 0 <= i < dest@.len() implies #[trigger] dest@[i] == (before + b@)[i] by {
        if i >= before.len() {
            assert(cloned::<u8>(b@[i - before.len()], dest@[i]));
        }
    }
    assert(dest@ =~= before + b@);
}

/// A copy of the bytes of `v`.
pub fn copy_bytes(v: &Vec<u8>) -> (r: Vec<u8>)
    ensures
        r@ == v@,
{
    let r = v.clone();
    assert forall|i: int| 0 <= i < v@.len() implies r@[i] == v@[i] by {
        assert(cloned::<u8>(v@[i], r@[i]));
    }
    assert(r@ =~= v@);
    r
}

/// Appends fixed-length opaque data and its padding.
fn write_fixed_opaque(dest: &mut Vec<u8>, b: &[u8])
    ensures
        final(dest)@ == old(dest)@ + fixed_opaque_encoding(b@),
{
    write_bytes(dest, b);
    write_zeros(dest, padding_len(b.len()));
    assert(final(dest)@ =~= old(dest)@ + fixed_opaque_encoding(b@));
}

/// Appends variable-length opaque data; refused when its length does not
/// fit in 32 bits.
pub fn write_opaque(dest: &mut Vec<u8>, b: &[u8]) -> (r: Result<(), Error>)
    ensures
        r is Ok <==> b@.len() <= u32::MAX,
        r is Ok ==> final(dest)@ == old(dest)@ + opaque_encoding(b@),
        r is Err ==> r == Err::<(), Error>(invalid_data()) && final(dest)@ == old(dest)@,
{
    let n = match usize_to_u32(b.len()) {
        Some(n) => n,
        None => return Err(Error::IO(IoErrorKind::InvalidData)),
    };
    write_be_u32(dest, n);
    write_fixed_opaque(dest, b);
    assert(final(dest)@ =~= old(dest)@ + opaque_encoding(b@));
    Ok(())
}

/// Decodes `n` bytes of fixed-length opaque data and skips their padding.
pub fn read_fixed_opaque(src: &mut Cursor, n: usize) -> (r: Result<Vec<u8>, Error>)
    requires
        old(src).wf(),
    ensures
        parsed_as(*old(src), *final(src), r, fixed_opaque_decoding(old(src).bytes(), old(src).pos(), n as int)),
{
    let b = src.read_exact(n)?;
    src.skip(padding_len(n), Error::IO(IoErrorKind::UnexpectedEof))?;
    Ok(b)
}

/// Decodes variable-length opaque data.
pub fn read_opaque(src: &mut Cursor) -> (r: Result<Vec<u8>, Error>)
    requires
        old(src).wf(),
    ensures
        parsed_as(*old(src), *final(src), r, opaque_decoding(old(src).bytes(), old(src).pos())),
{
    let n = src.read_u32()?;
    read_fixed_opaque(src, n as usize)
}

impl Serialize for u32 {
    open spec fn encodable(&self) -> bool {
        true
    }

    open spec fn encoding(&self) -> Seq<u8> {
        be32_bytes(*self)
    }

    fn serialize(&self, dest: &mut Vec<u8>) -> (r: Result<(), Error>) {
        write_be_u32(dest, *self);
        assert(self.encodable());
        assert(dest@ == old(dest)@ + self.encoding());
        Ok(())
    }
}

impl Deserialize for u32 {
    open spec fn decoding(s: Seq<u8>, at: int) -> Parsed<u32> {
        spec_u32(s, at)
    }

    fn deserialize(src: &mut Cursor) -> (r: Result<u32, Error>) {
        src.read_u32()
    }
}

impl Serialize for u64 {
    open spec fn encodable(&self) -> bool {
        true
    }

    open spec fn encoding(&self) -> Seq<u8> {
        be64_bytes(*self)
    }

    fn serialize(&self, dest: &mut Vec<u8>) -> (r: Result<(), Error>) {
        write_be_u64(dest, *self);
        assert(self.encodable());
        assert(dest@ == old(dest)@ + self.encoding());
        Ok(())
    }
}

impl Deserialize for u64 {
    open spec fn decoding(s: Seq<u8>, at: int) -> Parsed<u64> {
        spec_u64(s, at)
    }

    fn deserialize(src: &mut Cursor) -> (r: Result<u64, Error>) {
        src.read_u64()
    }
}

impl Serialize for i32 {
    open spec fn encodable(&self) -> bool {
        true
    }

    open spec fn encoding(&self) -> Seq<u8> {
        be32_bytes(*self as u32)
    }

    fn serialize(&self, dest: &mut Vec<u8>) -> (r: Result<(), Error>) {
        write_be_u32(dest, *self as u32);
        assert(self.encodable());
        Ok(())
    }
}

impl Deserialize for i32 {
    open spec fn decoding(s: Seq<u8>, at: int) -> Parsed<i32> {
        match spec_u32(s, at) {
            Ok((v, end)) => Ok((v as i32, end)),
            Err(e) => Err(e),
        }
    }

    fn deserialize(src: &mut Cursor) -> (r: Result<i32, Error>) {
        let v = src.read_u32()?;
        Ok(v as i32)
    }
}

impl Serialize for i64 {
    open spec fn encodable(&self) -> bool {
        true
    }

    open spec fn encoding(&self) -> Seq<u8> {
        be64_bytes(*self as u64)
    }

    fn serialize(&self, dest: &mut Vec<u8>) -> (r: Result<(), Error>) {
        write_be_u64(dest, *self as u64);
        assert(self.encodable());
        Ok(())
    }
}

impl Deserialize for i64 {
    open spec fn decoding(s: Seq<u8>, at: int) -> Parsed<i64> {
        match spec_u64(s, at) {
            Ok((v, end)) => Ok((v as i64, end)),
            Err(e) => Err(e),
        }
    }

    fn deserialize(src: &mut Cursor) -> (r: Result<i64, Error>) {
        let v = src.read_u64()?;
        Ok(v as i64)
    }
}

/// The discriminant of a boolean.
pub open spec fn bool_code(b: bool) -> u32 {
    if b {
        1
    } else {
        0
    }
}

impl Serialize for bool {
    open spec fn encodable(&self) -> bool {
        true
    }

    open spec fn encoding(&self) -> Seq<u8> {
        be32_bytes(bool_code(*self))
    }

    fn serialize(&self, dest: &mut Vec<u8>) -> (r: Result<(), Error>) {
        write_be_u32(dest, if *self { 1 } else { 0 });
        assert(self.encodable());
        Ok(())
    }
}

impl Deserialize for bool {
    open spec fn decoding(s: Seq<u8>, at: int) -> Parsed<bool> {
        match spec_u32(s, at) {
            Ok((v, end)) => if v == 0 {
                Ok((false, end))
            } else if v == 1 {
                Ok((true, end))
            } else {
                Err(invalid_data())
            },
            Err(e) => Err(e),
        }
    }

    fn deserialize(src: &mut Cursor) -> (r: Result<bool, Error>) {
        let v = src.read_u32()?;
        if v == 0 {
            Ok(false)
        } else if v == 1 {
            Ok(true)
        } else {
            Err(Error::IO(IoErrorKind::InvalidData))
        }
    }
}

impl<const N: usize> Serialize for [u8; N] {
    open spec fn encodable(&self) -> bool {
        true
    }

    open spec fn encoding(&self) -> Seq<u8> {
        fixed_opaque_encoding(self@)
    }

    fn serialize(&self, dest: &mut Vec<u8>) -> (r: Result<(), Error>) {
        write_fixed_opaque(dest, self.as_slice());
        assert(self.encodable());
        Ok(())
    }
}

impl<const N: usize> Deserialize for [u8; N] {
    open spec fn decoding(s: Seq<u8>, at: int) -> Parsed<Seq<u8>> {
        fixed_opaque_decoding(s, at, N as int)
    }

    fn deserialize(src: &mut Cursor) -> (r: Result<[u8; N], Error>) {
        let b = read_fixed_opaque(src, N)?;
        let mut out = [0u8; N];
        let mut i: usize = 0;
        while i < N
            invariant
                0 <= i <= N,
                b@.len() == N,
                out@.len() == N,
                forall|j: int| 0 <= j < i ==> out@[j] == b@[j],
            decreases N - i,
        {
            out[i] = b[i];
            i = i + 1;
        }
        assert(out@ =~= b@);
        Ok(out)
    }
}

impl Serialize for Vec<u8> {
    open spec fn encodable(&self) -> bool {
        self@.len() <= u32::MAX
    }

    open spec fn encoding(&self) -> Seq<u8> {
        opaque_encoding(self@)
    }

    fn serialize(&self, dest: &mut Vec<u8>) -> (r: Result<(), Error>) {
        write_opaque(dest, self.as_slice())
    }
}

impl Deserialize for Vec<u8> {
    open spec fn decoding(s: Seq<u8>, at: int) -> Parsed<Seq<u8>> {
        opaque_decoding(s, at)
    }

    fn deserialize(src: &mut Cursor) -> (r: Result<Vec<u8>, Error>) {
        read_opaque(src)
    }
}

impl Serialize for String {
    open spec fn encodable(&self) -> bool {
        encode_utf8(self@).len() <= u32::MAX
    }

    open spec fn encoding(&self) -> Seq<u8> {
        opaque_encoding(encode_utf8(self@))
    }

    fn serialize(&self, dest: &mut Vec<u8>) -> (r: Result<(), Error>) {
        write_opaque(dest, self.as_str().as_bytes())
    }
}

/// The characters of UTF-8 bytes; other bytes are refused.
pub open spec fn utf8_decoding(r: Parsed<Seq<u8>>) -> Parsed<Seq<char>> {
    match r {
        Ok((b, end)) => if valid_utf8(b) {
            Ok((decode_utf8(b), end))
        } else {
            Err(invalid_data())
        },
        Err(e) => Err(e),
    }
}

/// Converts UTF-8 bytes to a `String`.
///
/// Calls `String::from_utf8`, which std documents as succeeding exactly when
/// the bytes are valid UTF-8, keeping them as the string's contents.
#[verifier::external_body]
pub(crate) fn string_from_utf8(bytes: Vec<u8>) -> (r: Option<String>)
    ensures
        r is Some <==> valid_utf8(bytes@),
        r matches Some(s) ==> s@ == decode_utf8(bytes@),
{
    String::from_utf8(bytes).ok()
}

impl Deserialize for String {
    open spec fn decoding(s: Seq<u8>, at: int) -> Parsed<Seq<char>> {
        utf8_decoding(opaque_decoding(s, at))
    }

    fn deserialize(src: &mut Cursor) -> (r: Result<String, Error>) {
        let b = read_opaque(src)?;
        match string_from_utf8(b) {
            Some(s) => Ok(s),
            None => Err(Error::IO(IoErrorKind::InvalidData)),
        }
    }
}

/// The encoding of a `u32` list: its length, then each element.
pub open spec fn u32_list_encoding(v: Seq<u32>) -> Seq<u8>
    decreases v.len(),
{
    if v.len() == 0 {
        Seq::empty()
    } else {
        u32_list_encoding(v.drop_last()) + be32_bytes(v.last())
    }
}

impl Serialize for Vec<u32> {
    open spec fn encodable(&self) -> bool {
        self@.len() <= u32::MAX
    }

    open spec fn encoding(&self) -> Seq<u8> {
        be32_bytes(self@.len() as u32) + u32_list_encoding(self@)
    }

    fn serialize(&self, dest: &mut Vec<u8>) -> (r: Result<(), Error>) {
        let n = match usize_to_u32(self.len()) {
            Some(n) => n,
            None => return Err(Error::IO(IoErrorKind::InvalidData)),
        };
        write_be_u32(dest, n);
        let ghost start = dest@;
        let mut i: usize = 0;
        while i < self.len()
            invariant
                0 <= i <= self@.len(),
                dest@ == start + u32_list_encoding(self@.take(i as int)),
            decreases self@.len() - i,
        {
            write_be_u32(dest, self[i]);
            i = i + 1;
            assert(self@.take(i as int).drop_last() =~= self@.take(i - 1));
            assert(dest@ =~= start + u32_list_encoding(self@.take(i as int)));
        }
        assert(self@.take(self@.len() as int) =~= self@);
        assert(dest@ =~= old(dest)@ + (be32_bytes(self@.len() as u32) + u32_list_encoding(self@)));
        Ok(())
    }
}

/// The encoding of `n` values is `4 * n` bytes long.
pub proof fn lemma_u32_list_len(v: Seq<u32>)
    ensures
        u32_list_encoding(v).len() == 4 * v.len(),
    decreases v.len(),
{
    if v.len() > 0 {
        lemma_u32_list_len(v.drop_last());
    }
}

/// Decoding `n` consecutive `u32` values.
pub open spec fn u32_list_decoding(s: Seq<u8>, at: int, n: nat) -> Parsed<Seq<u32>>
    decreases n,
{
    if n == 0 {
        Ok((Seq::empty(), at))
    } else {
        match u32_list_decoding(s, at, (n - 1) as nat) {
            Ok((v, p)) => match spec_u32(s, p) {
                Ok((x, end)) => Ok((v.push(x), end)),
                Err(e) => Err(e),
            },
            Err(e) => Err(e),
        }
    }
}

/// Once decoding a list fails, decoding a longer one fails the same way.
proof fn lemma_u32_list_failure(s: Seq<u8>, at: int, k: nat, m: nat)
    requires
        k <= m,
        u32_list_decoding(s, at, k) is Err,
    ensures
        u32_list_decoding(s, at, m) == u32_list_decoding(s, at, k),
    decreases m,
{
    if m > k {
        lemma_u32_list_failure(s, at, k, (m - 1) as nat);
    }
}

impl Deserialize for Vec<u32> {
    open spec fn decoding(s: Seq<u8>, at: int) -> Parsed<Seq<u32>> {
        match spec_u32(s, at) {
            Ok((n, p)) => u32_list_decoding(s, p, n as nat),
            Err(e) => Err(e),
        }
    }

    fn deserialize(src: &mut Cursor) -> (r: Result<Vec<u32>, Error>) {
        let n = src.read_u32()?;
        let mut out: Vec<u32> = Vec::new();
        let mut i: u32 = 0;
        while i < n
            invariant
                0 <= i <= n,
                src.wf(),
                src.bytes() == old(src).bytes(),
                old(src).pos() + 4 <= src.bytes().len(),
                old(src).pos() + 4 <= src.pos(),
                spec_u32(old(src).bytes(), old(src).pos()) == Ok::<(u32, int), Error>((n, old(src).pos() + 4)),
                u32_list_decoding(src.bytes(), old(src).pos() + 4, i as nat) == Ok::<(Seq<u32>, int), Error>((out@, src.pos())),
            decreases n - i,
        {
            let x = match src.read_u32() {
                Ok(x) => x,
                Err(e) => {
                    proof {
                        assert(u32_list_decoding(src.bytes(), old(src).pos() + 4, (i + 1) as nat) == Err::<(Seq<u32>, int), Error>(e));
                        lemma_u32_list_failure(src.bytes(), old(src).pos() + 4, (i + 1) as nat, n as nat);
                    }
                    return Err(e);
                },
            };
            out.push(x);
            i = i + 1;
        }
        Ok(out)
    }
}

impl<T: Serialize> Serialize for Option<T> {
    open spec fn encodable(&self) -> bool {
        match self {
            Some(v) => v.encodable(),
            None => true,
        }
    }

    open spec fn encoding(&self) -> Seq<u8> {
        match self {
            Some(v) => be32_bytes(1) + v.encoding(),
            None => be32_bytes(0),
        }
    }

    fn serialize(&self, dest: &mut Vec<u8>) -> (r: Result<(), Error>) {
        match self {
            Some(v) => {
                write_be_u32(dest, 1);
                let r = v.serialize(dest);
                assert(r is Ok ==> final(dest)@ =~= old(dest)@ + self.encoding());
                r
            },
            None => {
                write_be_u32(dest, 0);
                Ok(())
            },
        }
    }
}

/// Decoding a list of `u32` values where its encoding stands gives it back.
pub proof fn lemma_u32_list_at(s: Seq<u8>, at: int, v: Seq<u32>)
    requires
        holds_at(s, at, u32_list_encoding(v)),
    ensures
        u32_list_decoding(s, at, v.len()) == Ok::<(Seq<u32>, int), Error>((v, at + 4 * v.len())),
    decreases v.len(),
{
    if v.len() > 0 {
        lemma_u32_list_len(v.drop_last());
        lemma_holds_split(s, at, u32_list_encoding(v.drop_last()), be32_bytes(v.last()));
        lemma_u32_list_at(s, at, v.drop_last());
        let n = (v.len() - 1) as nat;
        assert(v.drop_last().len() == n);
        assert(u32_list_encoding(v) == u32_list_encoding(v.drop_last()) + be32_bytes(v.last()));
        lemma_u32_at(s, at + 4 * n, v.last());
        assert(v.drop_last().push(v.last()) =~= v);
        assert(u32_list_decoding(s, at, n) == Ok::<(Seq<u32>, int), Error>((v.drop_last(), at + 4 * n)));
    } else {
        assert(v =~= Seq::<u32>::empty());
    }
}

/// Decoding optional data whose value `inner` decodes.
pub open spec fn option_decoding<V>(
    s: Seq<u8>,
    at: int,
    inner: spec_fn(Seq<u8>, int) -> Parsed<V>,
) -> Parsed<Option<V>> {
    match <bool as Deserialize>::decoding(s, at) {
        Ok((present, p)) => if present {
            match inner(s, p) {
                Ok((v, end)) => Ok((Some(v), end)),
                Err(e) => Err(e),
            }
        } else {
            Ok((None, p))
        },
        Err(e) => Err(e),
    }
}

impl Deserialize for Option<u32> {
    open spec fn decoding(s: Seq<u8>, at: int) -> Parsed<Option<u32>> {
        option_decoding(s, at, |s: Seq<u8>, p: int| <u32 as Deserialize>::decoding(s, p))
    }

    fn deserialize(src: &mut Cursor) -> (r: Result<Option<u32>, Error>) {
        if <bool as Deserialize>::deserialize(src)? {
            Ok(Some(<u32 as Deserialize>::deserialize(src)?))
        } else {
            Ok(None)
        }
    }
}

impl Deserialize for Option<u64> {
    open spec fn decoding(s: Seq<u8>, at: int) -> Parsed<Option<u64>> {
        option_decoding(s, at, |s: Seq<u8>, p: int| <u64 as Deserialize>::decoding(s, p))
    }

    fn deserialize(src: &mut Cursor) -> (r: Result<Option<u64>, Error>) {
        if <bool as Deserialize>::deserialize(src)? {
            Ok(Some(<u64 as Deserialize>::deserialize(src)?))
        } else {
            Ok(None)
        }
    }
}

/// An error that a handler reports in its reply rather than to its caller.
#[derive(Debug)]
pub enum ProtocolErrors {
    RpcRejected(rpc::rejected_reply),
    RpcAccepted(rpc::accept_body),
    NFSv3(nfs3::NFSStat3),
    Mount(mount::mountstat3),
}

impl RoundTrip for u32 {
    proof fn lemma_roundtrip(&self, s: Seq<u8>, at: int) {
        lemma_u32_at(s, at, *self);
    }
}

impl RoundTrip for u64 {
    proof fn lemma_roundtrip(&self, s: Seq<u8>, at: int) {
        lemma_u64_at(s, at, *self);
    }
}

impl RoundTrip for i32 {
    proof fn lemma_roundtrip(&self, s: Seq<u8>, at: int) {
        lemma_u32_at(s, at, *self as u32);
        lemma_i32_u32(*self);
    }
}

impl RoundTrip for i64 {
    proof fn lemma_roundtrip(&self, s: Seq<u8>, at: int) {
        lemma_u64_at(s, at, *self as u64);
        lemma_i64_u64(*self);
    }
}

impl RoundTrip for bool {
    proof fn lemma_roundtrip(&self, s: Seq<u8>, at: int) {
        lemma_u32_at(s, at, bool_code(*self));
    }
}

impl<const N: usize> RoundTrip for [u8; N] {
    proof fn lemma_roundtrip(&self, s: Seq<u8>, at: int) {
        lemma_fixed_opaque_at(s, at, self@);
    }
}

impl RoundTrip for Vec<u8> {
    proof fn lemma_roundtrip(&self, s: Seq<u8>, at: int) {
        lemma_opaque_at(s, at, self@);
    }
}

impl RoundTrip for String {
    proof fn lemma_roundtrip(&self, s: Seq<u8>, at: int) {
        lemma_opaque_at(s, at, encode_utf8(self@));
        encode_utf8_valid_utf8(self@);
        encode_utf8_decode_utf8(self@);
    }
}

impl RoundTrip for Vec<u32> {
    proof fn lemma_roundtrip(&self, s: Seq<u8>, at: int) {
        lemma_holds_split(s, at, be32_bytes(self@.len() as u32), u32_list_encoding(self@));
        lemma_u32_at(s, at, self@.len() as u32);
        lemma_u32_list_at(s, at + 4, self@);
        lemma_u32_list_len(self@);
    }
}

impl RoundTrip for Option<u32> {
    proof fn lemma_roundtrip(&self, s: Seq<u8>, at: int) {
        match *self {
            Some(v) => {
                lemma_holds_split(s, at, be32_bytes(1), v.encoding());
                lemma_u32_at(s, at, 1);
                v.lemma_roundtrip(s, at + 4);
            },
            None => {
                lemma_u32_at(s, at, 0);
            },
        }
    }
}

impl RoundTrip for Option<u64> {
    proof fn lemma_roundtrip(&self, s: Seq<u8>, at: int) {
        match *self {
            Some(v) => {
                lemma_holds_split(s, at, be32_bytes(1), v.encoding());
                lemma_u32_at(s, at, 1);
                v.lemma_roundtrip(s, at + 4);
            },
            None => {
                lemma_u32_at(s, at, 0);
            },
        }
    }
}

} // verus!
