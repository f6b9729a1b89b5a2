//! Big-endian integer encoding and XDR alignment, the arithmetic under every
//! XDR parser and serializer of this crate.
//!
//! The byte-level reads and writes are done by the `byteorder` crate; this
//! module states what they compute and proves that encoding and decoding are
//! inverse to each other.
use byteorder::{BigEndian, ByteOrder};
use num_traits::ToPrimitive;
use vstd::prelude::*;

verus! {

/// The XDR alignment in bytes.
pub const ALIGNMENT: usize = 4;

/// The unsigned value of four bytes, most significant first.
pub open spec fn be32(b0: u8, b1: u8, b2: u8, b3: u8) -> u32 {
    (b0 as int * 0x100_0000 + b1 as int * 0x1_0000 + b2 as int * 0x100 + b3 as int) as u32
}

/// The big-endian value of the four bytes of `s` that start at `at`.
pub open spec fn be32_at(s: Seq<u8>, at: int) -> u32 {
    be32(s[at], s[at + 1], s[at + 2], s[at + 3])
}

/// The unsigned value of the eight bytes of `s` that start at `at`, most significant first.
pub open spec fn be64_at(s: Seq<u8>, at: int) -> u64 {
    (be32_at(s, at) as int * 0x1_0000_0000 + be32_at(s, at + 4) as int) as u64
}

/// The four bytes of `v`, most significant first.
pub open spec fn be32_bytes(v: u32) -> Seq<u8> {
    seq![
        (v / 0x100_0000) as u8,
        ((v / 0x1_0000) % 0x100) as u8,
        ((v / 0x100) % 0x100) as u8,
        (v % 0x100) as u8,
    ]
}

/// The eight bytes of `v`, most significant first.
pub open spec fn be64_bytes(v: u64) -> Seq<u8> {
    be32_bytes((v / 0x1_0000_0000) as u32) + be32_bytes((v % 0x1_0000_0000) as u32)
}

/// Number of zero bytes that follow `n` bytes of opaque data so that the
/// next item starts on an XDR boundary.
pub open spec fn pad_len(n: int) -> int {
    (4 - n % 4) % 4
}

/// Decoding the encoding of a 32-bit value gives the value back.
pub proof fn lemma_be32_roundtrip(v: u32)
    ensures
        be32_bytes(v).len() == 4,
        be32_at(be32_bytes(v), 0) == v,
{
    let b = be32_bytes(v);
    assert(b[0] as int == v as int / 0x100_0000);
    assert(b[1] as int == (v as int / 0x1_0000) % 0x100);
    assert(b[2] as int == (v as int / 0x100) % 0x100);
    assert(b[3] as int == v as int % 0x100);
    assert(v as int == (v as int / 0x100_0000) * 0x100_0000 + ((v as int / 0x1_0000) % 0x100)
        * 0x1_0000 + ((v as int / 0x100) % 0x100) * 0x100 + v as int % 0x100)
        by (nonlinear_arith)
        requires
            0 <= v as int <= 0xffff_ffff,
    ;
}

/// Encoding the value of four bytes gives the bytes back.
pub proof fn lemma_be32_bytes_of_value(s: Seq<u8>, at: int)
    requires
        0 <= at,
        at + 4 <= s.len(),
    ensures
        be32_bytes(be32_at(s, at)) == s.subrange(at, at + 4),
{
    let (b0, b1, b2, b3) = (s[at] as int, s[at + 1] as int, s[at + 2] as int, s[at + 3] as int);
    let v = b0 * 0x100_0000 + b1 * 0x1_0000 + b2 * 0x100 + b3;
    assert(0 <= v <= 0xffff_ffff) by (nonlinear_arith)
        requires
            0 <= b0 < 256,
            0 <= b1 < 256,
            0 <= b2 < 256,
            0 <= b3 < 256,
            v == b0 * 0x100_0000 + b1 * 0x1_0000 + b2 * 0x100 + b3,
    ;
    assert(v / 0x100_0000 == b0 && (v / 0x1_0000) % 0x100 == b1 && (v / 0x100) % 0x100 == b2
        && v % 0x100 == b3) by (nonlinear_arith)
        requires
            0 <= b0 < 256,
            0 <= b1 < 256,
            0 <= b2 < 256,
            0 <= b3 < 256,
            v == b0 * 0x100_0000 + b1 * 0x1_0000 + b2 * 0x100 + b3,
    ;
    assert(be32_bytes(be32_at(s, at)) =~= s.subrange(at, at + 4));
}

/// Decoding the encoding of a 64-bit value gives the value back.
pub proof fn lemma_be64_roundtrip(v: u64)
    ensures
        be64_bytes(v).len() == 8,
        be64_at(be64_bytes(v), 0) == v,
{
    let hi = (v / 0x1_0000_0000) as u32;
    let lo = (v % 0x1_0000_0000) as u32;
    lemma_be32_roundtrip(hi);
    lemma_be32_roundtrip(lo);
    let b = be64_bytes(v);
    assert(be32_at(b, 0) == be32_at(be32_bytes(hi), 0));
    assert(be32_at(b, 4) == be32_at(be32_bytes(lo), 0));
    assert(hi as int * 0x1_0000_0000 + lo as int == v as int);
}

/// The padding is shorter than the alignment and restores alignment.
pub proof fn lemma_pad_len(n: int)
    requires
        0 <= n,
    ensures
        0 <= pad_len(n) < 4,
        (n + pad_len(n)) % 4 == 0,
{
}

/// Reads the big-endian `u32` that starts at `at` in `buf`.
///
/// Calls `byteorder::BigEndian::read_u32`, which the crate documents as
/// reading an unsigned 32 bit integer, most significant byte first, from the
/// first four bytes of its argument (it panics on fewer than four).
#[verifier::external_body]
pub(crate) fn read_be_u32(buf: &[u8], at: usize) -> (r: u32)
    requires
        at + 4 <= buf@.len(),
    ensures
        r == be32_at(buf@, at as int),
{
    BigEndian::read_u32(&buf[at..])
}

/// Reads the big-endian `u64` that starts at `at` in `buf`.
///
/// Calls `byteorder::BigEndian::read_u64`, which the crate documents as
/// reading an unsigned 64 bit integer, most significant byte first, from the
/// first eight bytes of its argument (it panics on fewer than eight).
#[verifier::external_body]
pub(crate) fn read_be_u64(buf: &[u8], at: usize) -> (r: u64)
    requires
        at + 8 <= buf@.len(),
    ensures
        r == be64_at(buf@, at as int),
{
    BigEndian::read_u64(&buf[at..])
}

/// The four big-endian bytes of `n`.
///
/// Calls `byteorder::BigEndian::write_u32`, which writes `n` most significant
/// byte first into the first four bytes of the buffer it is given.
#[verifier::external_body]
pub(crate) fn be_u32_array(n: u32) -> (r: [u8; 4])
    ensures
        r@ == be32_bytes(n),
{
    let mut buf = [0u8; 4];
    BigEndian::write_u32(&mut buf, n);
    buf
}

/// The eight big-endian bytes of `n`.
///
/// Calls `byteorder::BigEndian::write_u64`, which writes `n` most significant
/// byte first into the first eight bytes of the buffer it is given.
#[verifier::external_body]
pub(crate) fn be_u64_array(n: u64) -> (r: [u8; 8])
    ensures
        r@ == be64_bytes(n),
{
    let mut buf = [0u8; 8];
    BigEndian::write_u64(&mut buf, n);
    buf
}

/// Appends the four big-endian bytes of `n` to `dest`.
pub fn write_be_u32(dest: &mut Vec<u8>, n: u32)
    ensures
        final(dest)@ == old(dest)@ + be32_bytes(n),
{
    let b = be_u32_array(n);
    dest.push(b[0]);
    dest.push(b[1]);
    dest.push(b[2]);
    dest.push(b[3]);
    assert(final(dest)@ =~= old(dest)@ + be32_bytes(n));
}

/// Appends the eight big-endian bytes of `n` to `dest`.
pub fn write_be_u64(dest: &mut Vec<u8>, n: u64)
    ensures
        final(dest)@ == old(dest)@ + be64_bytes(n),
{
    let b = be_u64_array(n);
    let mut i: usize = 0;
    while i < 8
        invariant
            0 <= i <= 8,
            b@ == be64_bytes(n),
            dest@ == old(dest)@ + b@.take(i as int),
        decreases 8 - i,
    {
        dest.push(b[i]);
        i = i + 1;
        assert(dest@ =~= old(dest)@ + b@.take(i as int));
    }
    assert(b@.take(8) =~= b@);
}

/// Converts a `u32` length to `usize`.
///
/// Calls `num_traits::ToPrimitive::to_usize` on a `u32`, which returns the
/// value unchanged when it fits in `usize` and `None` otherwise.
#[verifier::external_body]
pub(crate) fn u32_to_usize(v: u32) -> (r: Option<usize>)
    ensures
        v as int <= usize::MAX ==> r == Some(v as usize),
        v as int > usize::MAX ==> r is None,
{
    v.to_usize()
}

/// Converts a `usize` length to `u32`.
///
/// Calls `num_traits::ToPrimitive::to_u32` on a `usize`, which returns the
/// value unchanged when it fits in `u32` and `None` otherwise.
#[verifier::external_body]
pub(crate) fn usize_to_u32(v: usize) -> (r: Option<u32>)
    ensures
        v as int <= u32::MAX ==> r == Some(v as u32),
        v as int > u32::MAX ==> r is None,
{
    v.to_u32()
}

/// Number of padding bytes that follow `n` bytes of opaque data.
pub fn padding_len(n: usize) -> (r: usize)
    ensures
        r as int == pad_len(n as int),
        r < ALIGNMENT,
        (n as int + r as int) % 4 == 0,
{
    (ALIGNMENT - n % ALIGNMENT) % ALIGNMENT
}

/// `after` begins with `before`.
pub open spec fn keeps_prefix(before: Seq<u8>, after: Seq<u8>) -> bool {
    before.len() <= after.len() && after.subrange(0, before.len() as int) =~= before
}

/// Beginning with a sequence that begins with `a` is beginning with `a`.
pub broadcast proof fn lemma_keeps_prefix_trans(a: Seq<u8>, b: Seq<u8>, c: Seq<u8>)
    requires
        #[trigger] keeps_prefix(a, b),
        #[trigger] keeps_prefix(b, c),
    ensures
        keeps_prefix(a, c),
{
    assert forall|i: int| 0 <= i < a.len() implies c.subrange(0, a.len() as int)[i] == a[i] by {
        assert(c.subrange(0, b.len() as int)[i] == b[i]);
        assert(b.subrange(0, a.len() as int)[i] == a[i]);
    }
}

} // verus!
