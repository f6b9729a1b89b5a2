//! An in-memory byte source with a read position: what the XDR parsers read from.
use vstd::prelude::*;

use crate::encoding::{be32_at, be64_at, read_be_u32, read_be_u64};
use crate::rpc::{is_protocol_rejection, Error, IoErrorKind, Parsed};

verus! {

/// A byte buffer and the position of the next byte to read.
#[derive(Debug)]
pub struct Cursor {
    data: Vec<u8>,
    pos: usize,
}

/// `res` is what the spec result `spec` describes, and the cursor moved from
/// `before` to `after` accordingly: forward only, and on success just after
/// the parsed item; its bytes never change. A data parser never reports a
/// protocol rejection.
pub open spec fn parsed_as<T: View>(
    before: Cursor,
    after: Cursor,
    res: Result<T, Error>,
    spec: Parsed<T::V>,
) -> bool {
    &&& after.bytes() == before.bytes()
    &&& after.wf()
    &&& before.pos() <= after.pos()
    &&& (res matches Err(e) ==> !is_protocol_rejection(e))
    &&& match spec {
        Ok((v, end)) => {
            &&& res matches Ok(x) && x@ == v
            &&& before.pos() <= end <= before.bytes().len()
            &&& after.pos() == end
        },
        Err(e) => res == Err::<T, Error>(e),
    }
}

/// The error of a source that ends too early.
pub open spec fn eof() -> Error {
    Error::IO(IoErrorKind::UnexpectedEof)
}

/// Reading `n` raw bytes at `at`.
pub open spec fn spec_bytes(s: Seq<u8>, at: int, n: int) -> Parsed<Seq<u8>> {
    if at + n <= s.len() {
        Ok((s.subrange(at, at + n), at + n))
    } else {
        Err(eof())
    }
}

/// Skipping `n` bytes at `at`; a short source is reported as `err`.
pub open spec fn spec_skip(s: Seq<u8>, at: int, n: int, err: Error) -> Parsed<()> {
    if at + n <= s.len() {
        Ok(((), at + n))
    } else {
        Err(err)
    }
}

/// Reading one byte at `at`.
pub open spec fn spec_u8(s: Seq<u8>, at: int) -> Parsed<u8> {
    if at + 1 <= s.len() {
        Ok((s[at], at + 1))
    } else {
        Err(eof())
    }
}

/// Reading a big-endian `u32` at `at`.
pub open spec fn spec_u32(s: Seq<u8>, at: int) -> Parsed<u32> {
    if at + 4 <= s.len() {
        Ok((be32_at(s, at), at + 4))
    } else {
        Err(eof())
    }
}

/// Reading a big-endian `u64` at `at`.
pub open spec fn spec_u64(s: Seq<u8>, at: int) -> Parsed<u64> {
    if at + 8 <= s.len() {
        Ok((be64_at(s, at), at + 8))
    } else {
        Err(eof())
    }
}

impl Cursor {
    /// All bytes of the source.
    pub closed spec fn bytes(&self) -> Seq<u8> {
        self.data@
    }

    /// Position of the next byte to read.
    pub closed spec fn pos(&self) -> int {
        self.pos as int
    }

    /// The position lies within the bytes.
    pub open spec fn wf(&self) -> bool {
        0 <= self.pos() <= self.bytes().len()
    }

    /// The bytes not read yet.
    pub open spec fn rest(&self) -> Seq<u8> {
        self.bytes().subrange(self.pos(), self.bytes().len() as int)
    }

    /// A cursor at the start of `data`.
    pub fn new(data: Vec<u8>) -> (c: Cursor)
        ensures
            c.bytes() == data@,
            c.pos() == 0,
            c.wf(),
    {
        Cursor { data, pos: 0 }
    }

    /// Position of the next byte to read.
    pub fn position(&self) -> (r: u64)
        ensures
            r == self.pos(),
    {
        self.pos as u64
    }

    /// Position of the next byte to read, as an index into the buffer.
    pub fn offset(&self) -> (r: usize)
        ensures
            r == self.pos(),
    {
        self.pos
    }

    /// The whole underlying buffer.
    pub fn get_ref(&self) -> (r: &Vec<u8>)
        ensures
            r@ == self.bytes(),
    {
        &self.data
    }

    /// Number of bytes not read yet.
    pub fn remaining(&self) -> (r: usize)
        requires
            self.wf(),
        ensures
            r == self.bytes().len() - self.pos(),
    {
        self.data.len() - self.pos
    }

    /// Consumes the cursor and returns its buffer.
    pub fn into_inner(self) -> (r: Vec<u8>)
        ensures
            r@ == self.bytes(),
    {
        self.data
    }

    /// Reads exactly `n` bytes.
    pub fn read_exact(&mut self, n: usize) -> (r: Result<Vec<u8>, Error>)
        requires
            old(self).wf(),
        ensures
            parsed_as(*old(self), *final(self), r, spec_bytes(old(self).bytes(), old(self).pos(), n as int)),
            r is Err ==> final(self).pos() == old(self).pos(),
    {
        if n > self.data.len() - self.pos {
            return Err(Error::IO(IoErrorKind::UnexpectedEof));
        }
        let mut out: Vec<u8> = Vec::with_capacity(n);
        let start = self.pos;
        let len = self.data.len();
        let mut i: usize = 0;
        while i < n
            invariant
                start == self.pos,
                len == self.data@.len(),
                start + n <= self.data@.len(),
                0 <= i <= n,
                out@ == self.data@.subrange(start as int, start + i),
            decreases n - i,
        {
            out.push(self.data[start + i]);
            i = i + 1;
            assert(out@ =~= self.data@.subrange(start as int, start + i));
        }
        self.pos = start + n;
        Ok(out)
    }

    /// Skips `n` bytes; reports `err` if fewer are left, and then moves nowhere.
    pub fn skip(&mut self, n: usize, err: Error) -> (r: Result<(), Error>)
        requires
            old(self).wf(),
            !is_protocol_rejection(err),
        ensures
            parsed_as(*old(self), *final(self), r, spec_skip(old(self).bytes(), old(self).pos(), n as int, err)),
            r is Err ==> *final(self) == *old(self),
    {
        if n > self.data.len() - self.pos {
            return Err(err);
        }
        self.pos = self.pos + n;
        Ok(())
    }

    /// Appends bytes that arrived after the ones held; the position stays.
    pub fn append(&mut self, more: &[u8])
        requires
            old(self).wf(),
        ensures
            final(self).bytes() == old(self).bytes() + more@,
            final(self).pos() == old(self).pos(),
            final(self).wf(),
    {
        let ghost before = self.data@;
        self.data.extend_from_slice(more);
        assert forall|i: int| 0 <= i < self.data@.len() implies #[trigger] self.data@[i] == (before
            + more@)[i] by {
            if i >= before.len() {
                assert(cloned::<u8>(more@[i - before.len()], self.data@[i]));
            }
        }
        assert(self.data@ =~= before + more@);
    }

    /// Drops the bytes already read: what is left becomes the whole buffer.
    pub fn compact(&mut self)
        requires
            old(self).wf(),
        ensures
            final(self).bytes() == old(self).rest(),
            final(self).pos() == 0,
            final(self).wf(),
    {
        let rest = self.data.split_off(self.pos);
        self.data = rest;
        self.pos = 0;
    }

    /// Moves the position back to `pos`.
    pub fn set_position(&mut self, pos: usize)
        requires
            pos <= old(self).bytes().len(),
        ensures
            final(self).bytes() == old(self).bytes(),
            final(self).pos() == pos,
            final(self).wf(),
    {
        self.pos = pos;
    }

    /// Reads one byte.
    pub fn read_u8(&mut self) -> (r: Result<u8, Error>)
        requires
            old(self).wf(),
        ensures
            parsed_as(*old(self), *final(self), r, spec_u8(old(self).bytes(), old(self).pos())),
            r is Err ==> final(self).pos() == old(self).pos(),
    {
        if self.pos >= self.data.len() {
            return Err(Error::IO(IoErrorKind::UnexpectedEof));
        }
        let b = self.data[self.pos];
        self.pos = self.pos + 1;
        Ok(b)
    }

    /// Reads a big-endian `u32`.
    pub fn read_u32(&mut self) -> (r: Result<u32, Error>)
        requires
            old(self).wf(),
        ensures
            parsed_as(*old(self), *final(self), r, spec_u32(old(self).bytes(), old(self).pos())),
            r is Err ==> final(self).pos() == old(self).pos(),
    {
        if 4 > self.data.len() - self.pos {
            return Err(Error::IO(IoErrorKind::UnexpectedEof));
        }
        let v = read_be_u32(self.data.as_slice(), self.pos);
        self.pos = self.pos + 4;
        Ok(v)
    }

    /// Reads a big-endian `u64`.
    pub fn read_u64(&mut self) -> (r: Result<u64, Error>)
        requires
            old(self).wf(),
        ensures
            parsed_as(*old(self), *final(self), r, spec_u64(old(self).bytes(), old(self).pos())),
            r is Err ==> final(self).pos() == old(self).pos(),
    {
        if 8 > self.data.len() - self.pos {
            return Err(Error::IO(IoErrorKind::UnexpectedEof));
        }
        let v = read_be_u64(self.data.as_slice(), self.pos);
        self.pos = self.pos + 8;
        Ok(v)
    }
}

} // verus!
