//! The buffer a reply is built in, and its record marking (RFC 5531
//! section 11) for the stream.
use vstd::prelude::*;

use crate::encoding::{be32_bytes, write_be_u32};
use crate::protocol::xdr::write_bytes;

verus! {

/// The last-fragment bit of a record mark.
pub const LAST_FG_MASK: u32 = 0x8000_0000;

/// The largest fragment a record mark can describe.
pub const MAX_RM_FRAGMENT_SIZE: usize = 0x7fff_ffff;

/// The record marking of `data`: fragments of at most
/// [`MAX_RM_FRAGMENT_SIZE`] bytes, each after its mark, the last one's mark
/// with the last-fragment bit. Empty data has no fragment.
pub open spec fn record_marking(data: Seq<u8>) -> Seq<u8>
    decreases data.len(),
{
    if data.len() == 0 {
        Seq::empty()
    } else if data.len() <= MAX_RM_FRAGMENT_SIZE {
        be32_bytes((data.len() + LAST_FG_MASK) as u32) + data
    } else {
        be32_bytes(MAX_RM_FRAGMENT_SIZE as u32) + data.take(MAX_RM_FRAGMENT_SIZE as int)
            + record_marking(data.skip(MAX_RM_FRAGMENT_SIZE as int))
    }
}

/// A reply being built, and whether it is to be sent.
#[derive(Debug)]
pub struct ResponseBuffer {
    buffer: Vec<u8>,
    has_content: bool,
}

impl View for ResponseBuffer {
    type V = (Seq<u8>, bool);

    closed spec fn view(&self) -> (Seq<u8>, bool) {
        (self.buffer@, self.has_content)
    }
}

impl ResponseBuffer {
    /// An empty buffer, not to be sent.
    pub fn with_capacity(capacity: usize) -> (r: ResponseBuffer)
        ensures
            r@ == (Seq::<u8>::empty(), false),
    {
        ResponseBuffer { buffer: Vec::with_capacity(capacity), has_content: false }
    }

    /// The bytes of the reply, to write to.
    pub fn get_mut_buffer(&mut self) -> (r: &mut Vec<u8>)
        ensures
            r@ == old(self)@.0,
            final(self)@ == (final(r)@, old(self)@.1),
    {
        &mut self.buffer
    }

    /// Marks the reply as one to send.
    pub fn mark_has_content(&mut self)
        ensures
            final(self)@ == (old(self)@.0, true),
    {
        self.has_content = true;
    }

    /// Whether the reply is to be sent.
    pub fn has_content(&self) -> (r: bool)
        ensures
            r == self@.1,
    {
        self.has_content
    }

    /// The bytes of the reply.
    pub fn into_inner(self) -> (r: Vec<u8>)
        ensures
            r@ == self@.0,
    {
        self.buffer
    }

    /// Empties the buffer for the next reply.
    pub fn clear(&mut self)
        ensures
            final(self)@ == (Seq::<u8>::empty(), false),
    {
        self.buffer.clear();
        self.has_content = false;
    }

    /// The bytes to write to the stream: the reply split into record-marked
    /// fragments.
    pub fn fragments(&self) -> (r: Vec<u8>)
        ensures
            r@ == record_marking(self@.0),
    {
        let data = &self.buffer;
        let len = data.len();
        let mut out: Vec<u8> = Vec::new();
        let mut offset: usize = 0;
        assert(data@.skip(0) =~= data@);
        assert(out@ + record_marking(data@) =~= record_marking(data@));
        while offset < len
            invariant
                0 <= offset <= len,
                len == data@.len(),
                out@ + record_marking(data@.skip(offset as int)) == record_marking(data@),
            decreases len - offset,
        {
            let remaining = len - offset;
            let fragment_size = if remaining < MAX_RM_FRAGMENT_SIZE {
                remaining
            } else {
                MAX_RM_FRAGMENT_SIZE
            };
            let is_last = offset + fragment_size >= len;
            let header: u32 = if is_last {
                fragment_size as u32 + LAST_FG_MASK
            } else {
                fragment_size as u32
            };
            let ghost rest = data@.skip(offset as int);
            let ghost before = out@;
            write_be_u32(&mut out, header);
            write_bytes(&mut out, vstd::slice::slice_subrange(data.as_slice(), offset, offset + fragment_size));
            proof {
                assert(rest.take(fragment_size as int) =~= data@.subrange(offset as int, offset + fragment_size));
                assert(rest.skip(fragment_size as int) =~= data@.skip(offset + fragment_size));
                if is_last {
                    assert(rest.take(fragment_size as int) =~= rest);
                    assert(data@.skip(offset + fragment_size) =~= Seq::<u8>::empty());
                    assert(out@ =~= before + record_marking(rest));
                } else {
                    assert(out@ =~= before + be32_bytes(MAX_RM_FRAGMENT_SIZE as u32) + rest.take(
                        MAX_RM_FRAGMENT_SIZE as int,
                    ));
                }
                assert(out@ + record_marking(data@.skip(offset + fragment_size)) =~= before + record_marking(rest));
            }
            offset = offset + fragment_size;
        }
        assert(data@.skip(len as int) =~= Seq::<u8>::empty());
        assert(out@ + Seq::<u8>::empty() =~= out@);
        out
    }
}

} // verus!
