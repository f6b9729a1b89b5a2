//! Primitive XDR data type parsing (RFC 4506): integers, booleans, opaque
//! data, strings and paths.
use vstd::prelude::*;
use vstd::utf8::{decode_utf8, valid_utf8};

use crate::encoding::{be32_at, pad_len, padding_len, u32_to_usize};
use crate::protocol::xdr::string_from_utf8;
use crate::parser::cursor::{
    eof, parsed_as, spec_bytes, spec_skip, spec_u32, spec_u64, spec_u8, Cursor,
};
use crate::parser::stop::{
    stop_array, stop_bool, stop_option, stop_string, stop_string_max_size, stop_vec_max_size, stop_vector,
};
use crate::rpc::{Error, Parsed};
use crate::vfs::file::Path;
use crate::vfs::MAX_PATH_LEN;

pub use crate::encoding::ALIGNMENT;

verus! {

/// Skipping the padding after `n` bytes of opaque data.
pub open spec fn spec_padding(s: Seq<u8>, at: int, n: int) -> Parsed<()> {
    spec_skip(s, at, pad_len(n), Error::IncorrectPadding)
}

/// A signed 32-bit integer: the two's complement reading of a `u32`.
pub open spec fn spec_i32(s: Seq<u8>, at: int) -> Parsed<i32> {
    match spec_u32(s, at) {
        Ok((v, end)) => Ok((v as i32, end)),
        Err(e) => Err(e),
    }
}

/// A signed 64-bit integer: the two's complement reading of a `u64`.
pub open spec fn spec_i64(s: Seq<u8>, at: int) -> Parsed<i64> {
    match spec_u64(s, at) {
        Ok((v, end)) => Ok((v as i64, end)),
        Err(e) => Err(e),
    }
}

/// An XDR boolean: a `u32` that is 0 or 1.
pub open spec fn spec_bool(s: Seq<u8>, at: int) -> Parsed<bool> {
    match spec_u32(s, at) {
        Ok((v, end)) => if v == 0 {
            Ok((false, end))
        } else if v == 1 {
            Ok((true, end))
        } else {
            Err(Error::EnumDiscMismatch)
        },
        Err(e) => Err(e),
    }
}

/// A `u32` used as a length.
pub open spec fn spec_u32_as_usize(s: Seq<u8>, at: int) -> Parsed<usize> {
    match spec_u32(s, at) {
        Ok((v, end)) => Ok((v as usize, end)),
        Err(e) => Err(e),
    }
}

/// `n` bytes of opaque data followed by their padding.
pub open spec fn spec_array(s: Seq<u8>, at: int, n: int) -> Parsed<Seq<u8>> {
    match spec_bytes(s, at, n) {
        Ok((b, end)) => match spec_padding(s, end, n) {
            Ok((_, end2)) => Ok((b, end2)),
            Err(e) => Err(e),
        },
        Err(e) => Err(e),
    }
}

/// Variable-length opaque data: a `u32` count, the bytes, their padding.
pub open spec fn spec_vector(s: Seq<u8>, at: int) -> Parsed<Seq<u8>> {
    match spec_u32(s, at) {
        Ok((n, end)) => spec_array(s, end, n as int),
        Err(e) => Err(e),
    }
}

/// Variable-length opaque data of at most `max` bytes.
pub open spec fn spec_vec_max_size(s: Seq<u8>, at: int, max: int) -> Parsed<Seq<u8>> {
    match spec_u32(s, at) {
        Ok((n, end)) => if n > max {
            Err(Error::MaxElemLimit)
        } else {
            spec_array(s, end, n as int)
        },
        Err(e) => Err(e),
    }
}

/// The characters of UTF-8 bytes, or the error for bytes that are not UTF-8.
pub open spec fn utf8_chars(b: Seq<u8>, end: int) -> Parsed<Seq<char>> {
    if valid_utf8(b) {
        Ok((decode_utf8(b), end))
    } else {
        Err(Error::IncorrectString)
    }
}

/// An XDR string: opaque data that is UTF-8.
pub open spec fn spec_string(s: Seq<u8>, at: int) -> Parsed<Seq<char>> {
    match spec_vector(s, at) {
        Ok((b, end)) => utf8_chars(b, end),
        Err(e) => Err(e),
    }
}

/// An XDR string of at most `max` bytes.
pub open spec fn spec_string_max_size(s: Seq<u8>, at: int, max: int) -> Parsed<Seq<char>> {
    match spec_vec_max_size(s, at, max) {
        Ok((b, end)) => utf8_chars(b, end),
        Err(e) => Err(e),
    }
}

/// A path: a string of at most [`MAX_PATH_LEN`] bytes.
pub open spec fn spec_path(s: Seq<u8>, at: int) -> Parsed<Seq<char>> {
    spec_string_max_size(s, at, MAX_PATH_LEN as int)
}

/// An optional `u32`: a boolean, then the value when it is true.
pub open spec fn spec_option_u32(s: Seq<u8>, at: int) -> Parsed<Option<u32>> {
    match spec_bool(s, at) {
        Ok((present, end)) => if present {
            match spec_u32(s, end) {
                Ok((v, end2)) => Ok((Some(v), end2)),
                Err(e) => Err(e),
            }
        } else {
            Ok((None, end))
        },
        Err(e) => Err(e),
    }
}

/// An optional `u64`: a boolean, then the value when it is true.
pub open spec fn spec_option_u64(s: Seq<u8>, at: int) -> Parsed<Option<u64>> {
    match spec_bool(s, at) {
        Ok((present, end)) => if present {
            match spec_u64(s, end) {
                Ok((v, end2)) => Ok((Some(v), end2)),
                Err(e) => Err(e),
            }
        } else {
            Ok((None, end))
        },
        Err(e) => Err(e),
    }
}

/// Reads and discards padding bytes to ensure XDR alignment.
pub fn padding(src: &mut Cursor, n: usize) -> (r: Result<(), Error>)
    requires
        old(src).wf(),
    ensures
        parsed_as(*old(src), *final(src), r, spec_padding(old(src).bytes(), old(src).pos(), n as int)),
        r is Err ==> final(src).pos() == old(src).pos(),
{
    let pad = padding_len(n);
    src.skip(pad, Error::IncorrectPadding)
}

/// Parses a `u8` (byte) from the source.
pub fn u8(src: &mut Cursor) -> (r: Result<u8, Error>)
    requires
        old(src).wf(),
    ensures
        parsed_as(*old(src), *final(src), r, spec_u8(old(src).bytes(), old(src).pos())),
        r is Err ==> final(src).pos() == old(src).pos(),
{
    src.read_u8()
}

/// Parses a big-endian `u32` from the source.
pub fn u32(src: &mut Cursor) -> (r: Result<u32, Error>)
    requires
        old(src).wf(),
    ensures
        parsed_as(*old(src), *final(src), r, spec_u32(old(src).bytes(), old(src).pos())),
        r is Err ==> final(src).pos() == old(src).pos(),
{
    src.read_u32()
}

/// Parses a big-endian `u64` from the source.
pub fn u64(src: &mut Cursor) -> (r: Result<u64, Error>)
    requires
        old(src).wf(),
    ensures
        parsed_as(*old(src), *final(src), r, spec_u64(old(src).bytes(), old(src).pos())),
        r is Err ==> final(src).pos() == old(src).pos(),
{
    src.read_u64()
}

/// Parses a big-endian two's complement `i32` from the source.
pub fn i32(src: &mut Cursor) -> (r: Result<i32, Error>)
    requires
        old(src).wf(),
    ensures
        parsed_as(*old(src), *final(src), r, spec_i32(old(src).bytes(), old(src).pos())),
        r is Err ==> final(src).pos() == old(src).pos(),
{
    let v = src.read_u32()?;
    Ok(v as i32)
}

/// Parses a big-endian two's complement `i64` from the source.
pub fn i64(src: &mut Cursor) -> (r: Result<i64, Error>)
    requires
        old(src).wf(),
    ensures
        parsed_as(*old(src), *final(src), r, spec_i64(old(src).bytes(), old(src).pos())),
        r is Err ==> final(src).pos() == old(src).pos(),
{
    let v = src.read_u64()?;
    Ok(v as i64)
}

/// Parses an XDR boolean (encoded as a `u32`) from the source.
pub fn bool(src: &mut Cursor) -> (r: Result<bool, Error>)
    requires
        old(src).wf(),
    ensures
        parsed_as(*old(src), *final(src), r, spec_bool(old(src).bytes(), old(src).pos())),
        r == Err::<bool, Error>(Error::EnumDiscMismatch) ==> final(src).pos() == old(src).pos() + 4,
        r is Err ==> final(src).pos() == stop_bool(old(src).bytes(), old(src).pos()),
{
    let v = src.read_u32()?;
    if v == 0 {
        Ok(false)
    } else if v == 1 {
        Ok(true)
    } else {
        Err(Error::EnumDiscMismatch)
    }
}

/// Parses a `u32` from the source and converts it to `usize`.
pub fn u32_as_usize(src: &mut Cursor) -> (r: Result<usize, Error>)
    requires
        old(src).wf(),
    ensures
        parsed_as(*old(src), *final(src), r, spec_u32_as_usize(old(src).bytes(), old(src).pos())),
        r is Err ==> final(src).pos() == old(src).pos(),
{
    let v = src.read_u32()?;
    match u32_to_usize(v) {
        Some(n) => Ok(n),
        None => Err(Error::ImpossibleTypeCast),
    }
}

/// Parses `n` bytes of opaque data and their padding.
pub fn opaque(src: &mut Cursor, n: usize) -> (r: Result<Vec<u8>, Error>)
    requires
        old(src).wf(),
    ensures
        parsed_as(*old(src), *final(src), r, spec_array(old(src).bytes(), old(src).pos(), n as int)),
        r is Err ==> final(src).pos() == stop_array(old(src).bytes(), old(src).pos(), n as int),
{
    let v = src.read_exact(n)?;
    padding(src, n)?;
    Ok(v)
}

/// Parses a fixed-size array of bytes `[u8; N]` from the source, including padding.
pub fn array<const N: usize>(src: &mut Cursor) -> (r: Result<[u8; N], Error>)
    requires
        old(src).wf(),
    ensures
        parsed_as(*old(src), *final(src), r, spec_array(old(src).bytes(), old(src).pos(), N as int)),
        r is Err ==> final(src).pos() == stop_array(old(src).bytes(), old(src).pos(), N as int),
{
    let v = src.read_exact(N)?;
    let mut buf: [u8; N] = vstd::array::array_fill_for_copy_types(0u8);
    let mut i: usize = 0;
    while i < N
        invariant
            0 <= i <= N,
            v@.len() == N,
            buf@.len() == N,
            forall|j: int| 0 <= j < i ==> buf@[j] == v@[j],
        decreases N - i,
    {
        buf.set(i, v[i]);
        i = i + 1;
    }
    assert(buf@ =~= v@);
    padding(src, N)?;
    Ok(buf)
}

/// Parses a variable-length vector of bytes (opaque data) from the source.
/// The vector's length is encoded as a `u32` preceding the data.
pub fn vector(src: &mut Cursor) -> (r: Result<Vec<u8>, Error>)
    requires
        old(src).wf(),
    ensures
        parsed_as(*old(src), *final(src), r, spec_vector(old(src).bytes(), old(src).pos())),
        r is Err ==> final(src).pos() == stop_vector(old(src).bytes(), old(src).pos()),
{
    let size = u32_as_usize(src)?;
    opaque(src, size)
}

/// Parses opaque data into `dest`, reusing its allocation; `dest` holds
/// exactly the parsed bytes afterwards.
pub fn vector_into(src: &mut Cursor, dest: &mut Vec<u8>) -> (r: Result<(), Error>)
    requires
        old(src).wf(),
    ensures
        final(src).bytes() == old(src).bytes(),
        final(src).wf(),
        match spec_vector(old(src).bytes(), old(src).pos()) {
            Ok((b, end)) => r is Ok && final(dest)@ == b && final(src).pos() == end,
            Err(e) => r == Err::<(), Error>(e),
        },
        r is Err ==> final(src).pos() == stop_vector(old(src).bytes(), old(src).pos()),
{
    let v = vector(src)?;
    dest.clear();
    let mut i: usize = 0;
    while i < v.len()
        invariant
            0 <= i <= v@.len(),
            dest@ == v@.take(i as int),
        decreases v@.len() - i,
    {
        dest.push(v[i]);
        i = i + 1;
        assert(dest@ =~= v@.take(i as int));
    }
    assert(v@.take(v@.len() as int) =~= v@);
    Ok(())
}

/// Parses a variable-length vector of bytes with a maximum allowed size.
pub fn vec_max_size(src: &mut Cursor, max_size: usize) -> (r: Result<Vec<u8>, Error>)
    requires
        old(src).wf(),
    ensures
        parsed_as(
            *old(src),
            *final(src),
            r,
            spec_vec_max_size(old(src).bytes(), old(src).pos(), max_size as int),
        ),
        r == Err::<Vec<u8>, Error>(Error::MaxElemLimit) ==> final(src).pos() == old(src).pos() + 4,
        r is Err ==> final(src).pos() == stop_vec_max_size(old(src).bytes(), old(src).pos(), max_size as int),
{
    let size = u32_as_usize(src)?;
    if size > max_size {
        return Err(Error::MaxElemLimit);
    }
    opaque(src, size)
}

/// Skips opaque data of at most `max_size` bytes and its padding.
pub fn discard_opaque_max_size(src: &mut Cursor, max_size: usize) -> (r: Result<(), Error>)
    requires
        old(src).wf(),
    ensures
        final(src).bytes() == old(src).bytes(),
        final(src).wf(),
        match spec_vec_max_size(old(src).bytes(), old(src).pos(), max_size as int) {
            Ok((_, end)) => r is Ok && final(src).pos() == end,
            Err(e) => r == Err::<(), Error>(e),
        },
        r is Err ==> final(src).pos() == stop_vec_max_size(old(src).bytes(), old(src).pos(), max_size as int),
{
    let size = u32_as_usize(src)?;
    if size > max_size {
        return Err(Error::MaxElemLimit);
    }
    src.skip(size, Error::IO(crate::rpc::IoErrorKind::UnexpectedEof))?;
    padding(src, size)
}

/// Parses an XDR string with a maximum allowed size.
pub fn string_max_size(src: &mut Cursor, max_size: usize) -> (r: Result<String, Error>)
    requires
        old(src).wf(),
    ensures
        parsed_as(
            *old(src),
            *final(src),
            r,
            spec_string_max_size(old(src).bytes(), old(src).pos(), max_size as int),
        ),
        r is Err ==> final(src).pos() == stop_string_max_size(old(src).bytes(), old(src).pos(), max_size as int),
{
    let vec = vec_max_size(src, max_size)?;
    match string_from_utf8(vec) {
        Some(s) => Ok(s),
        None => Err(Error::IncorrectString),
    }
}

/// Parses an XDR string from the source.
pub fn string(src: &mut Cursor) -> (r: Result<String, Error>)
    requires
        old(src).wf(),
    ensures
        parsed_as(*old(src), *final(src), r, spec_string(old(src).bytes(), old(src).pos())),
        r is Err ==> final(src).pos() == stop_string(old(src).bytes(), old(src).pos()),
{
    let vec = vector(src)?;
    match string_from_utf8(vec) {
        Some(s) => Ok(s),
        None => Err(Error::IncorrectString),
    }
}

/// Parses an XDR string into `buffer`'s place: the string is returned and
/// `buffer` is left empty, its bytes moved into the result.
pub fn string_into(src: &mut Cursor, buffer: &mut Vec<u8>) -> (r: Result<String, Error>)
    requires
        old(src).wf(),
    ensures
        parsed_as(*old(src), *final(src), r, spec_string(old(src).bytes(), old(src).pos())),
        r is Ok ==> final(buffer)@.len() == 0,
        r is Err ==> final(src).pos() == stop_string(old(src).bytes(), old(src).pos()),
{
    vector_into(src, buffer)?;
    let mut bytes: Vec<u8> = Vec::new();
    core::mem::swap(&mut bytes, buffer);
    match string_from_utf8(bytes) {
        Some(s) => Ok(s),
        None => Err(Error::IncorrectString),
    }
}

/// Parses an XDR-encoded path from the source.
pub fn path(src: &mut Cursor) -> (r: Result<Path, Error>)
    requires
        old(src).wf(),
    ensures
        parsed_as(*old(src), *final(src), r, spec_path(old(src).bytes(), old(src).pos())),
        r is Err ==> final(src).pos() == stop_string_max_size(old(src).bytes(), old(src).pos(), MAX_PATH_LEN as int),
{
    let s = string_max_size(src, MAX_PATH_LEN)?;
    proof {
        vstd::utf8::decode_utf8_encode_utf8(
            spec_vec_max_size(old(src).bytes(), old(src).pos(), MAX_PATH_LEN as int).unwrap().0,
        );
    }
    Path::new(s)
}

/// Parses an optional `u32`.
pub fn option_u32(src: &mut Cursor) -> (r: Result<Option<u32>, Error>)
    requires
        old(src).wf(),
    ensures
        parsed_as(*old(src), *final(src), r, spec_option_u32(old(src).bytes(), old(src).pos())),
        r is Err ==> final(src).pos() == stop_option(old(src).bytes(), old(src).pos()),
{
    if bool(src)? {
        Ok(Some(u32(src)?))
    } else {
        Ok(None)
    }
}

/// Parses an optional `u64`.
pub fn option_u64(src: &mut Cursor) -> (r: Result<Option<u64>, Error>)
    requires
        old(src).wf(),
    ensures
        parsed_as(*old(src), *final(src), r, spec_option_u64(old(src).bytes(), old(src).pos())),
        r is Err ==> final(src).pos() == stop_option(old(src).bytes(), old(src).pos()),
{
    if bool(src)? {
        Ok(Some(u64(src)?))
    } else {
        Ok(None)
    }
}

} // verus!
