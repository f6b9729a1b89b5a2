//! An RPC message read from a stream in record-marked fragments.
use vstd::prelude::*;

use crate::encoding::{be32_at, be32_bytes, lemma_be32_roundtrip};
use crate::parser::parser_struct::{record_frame_size, record_is_last};
use crate::protocol::xdr::write_bytes;
use crate::response_buffer::{record_marking, LAST_FG_MASK, MAX_RM_FRAGMENT_SIZE};

verus! {

/// What a record mark says: whether its fragment is the last, and its length.
pub open spec fn header_of(mark: u32) -> (bool, usize) {
    ((mark & LAST_FG_MASK) != 0, (mark & 0x7fff_ffffu32) as usize)
}

/// Splits a record mark into the last-fragment flag and the fragment length.
pub fn parse_header(arg: u32) -> (r: (bool, usize))
    ensures
        r == header_of(arg),
{
    ((arg & LAST_FG_MASK) > 0, (arg & 0x7fff_ffffu32) as usize)
}

/// The mark written for a fragment of `n` bytes reads back as `n`, with the
/// last-fragment flag as written; the request parser reads it the same way.
pub proof fn lemma_record_mark_roundtrip(n: u32, last: bool)
    requires
        n <= MAX_RM_FRAGMENT_SIZE,
    ensures
        ({
            let mark: u32 = if last {
                (n + LAST_FG_MASK) as u32
            } else {
                n
            };
            &&& header_of(mark) == (last, n as usize)
            &&& record_is_last(mark) == last
            &&& record_frame_size(mark) == n
        }),
{
    assert(((n + 0x8000_0000u32) as u32 & 0x8000_0000u32) != 0 && ((n + 0x8000_0000u32) as u32
        & 0x7fff_ffffu32) == n) by (bit_vector)
        requires
            n <= 0x7fff_ffffu32,
    ;
    assert((n & 0x8000_0000u32) == 0 && (n & 0x7fff_ffffu32) == n) by (bit_vector)
        requires
            n <= 0x7fff_ffffu32,
    ;
}

/// Reading back the record marking of a message of at most
/// [`MAX_RM_FRAGMENT_SIZE`] bytes gives one last fragment with the message.
pub proof fn lemma_single_fragment_roundtrip(data: Seq<u8>)
    requires
        0 < data.len() <= MAX_RM_FRAGMENT_SIZE,
    ensures
        record_marking(data).len() == data.len() + 4,
        record_marking(data).subrange(0, 4) == be32_bytes((data.len() + LAST_FG_MASK) as u32),
        header_of((data.len() + LAST_FG_MASK) as u32) == (true, data.len() as usize),
        record_marking(data).skip(4) == data,
{
    lemma_record_mark_roundtrip(data.len() as u32, true);
    assert(record_marking(data).subrange(0, 4) =~= be32_bytes((data.len() + LAST_FG_MASK) as u32));
    assert(record_marking(data).skip(4) =~= data);
}

/// The message that the record-marked bytes `s` carry: each fragment after
/// its mark, up to the one marked last; `None` when the bytes end first.
pub open spec fn reassembled(s: Seq<u8>) -> Option<Seq<u8>>
    decreases s.len(),
{
    if s.len() < 4 {
        None
    } else {
        let (last, n) = header_of(be32_at(s, 0));
        if 4 + n > s.len() {
            None
        } else if last {
            Some(s.subrange(4, 4 + n as int))
        } else {
            match reassembled(s.skip(4 + n as int)) {
                Some(rest) => Some(s.subrange(4, 4 + n as int) + rest),
                None => None,
            }
        }
    }
}

/// Reading back the record marking of a reply, fragment by fragment, gives
/// the reply, whatever its length.
pub proof fn lemma_record_marking_reassembles(data: Seq<u8>)
    requires
        data.len() > 0,
    ensures
        reassembled(record_marking(data)) == Some(data),
    decreases data.len(),
{
    let s = record_marking(data);
    if data.len() <= MAX_RM_FRAGMENT_SIZE {
        let mark = (data.len() + LAST_FG_MASK) as u32;
        lemma_be32_roundtrip(mark);
        lemma_record_mark_roundtrip(data.len() as u32, true);
        assert(be32_at(s, 0) == be32_at(be32_bytes(mark), 0));
        assert(s.subrange(4, 4 + data.len() as int) =~= data);
    } else {
        let m = MAX_RM_FRAGMENT_SIZE as int;
        let mark = MAX_RM_FRAGMENT_SIZE as u32;
        let rest = data.skip(m);
        lemma_be32_roundtrip(mark);
        lemma_record_mark_roundtrip(mark, false);
        lemma_record_marking_reassembles(rest);
        assert(be32_at(s, 0) == be32_at(be32_bytes(mark), 0));
        assert(s.subrange(4, 4 + m) =~= data.take(m));
        assert(s.skip(4 + m) =~= record_marking(rest));
        assert(data.take(m) + rest =~= data);
    }
}

/// An RPC message being assembled from its fragments.
#[derive(Debug)]
pub struct RpcCommand {
    pub data: Vec<u8>,
}

impl RpcCommand {
    /// A message with no fragment yet.
    pub fn new() -> (r: RpcCommand)
        ensures
            r.data@ == Seq::<u8>::empty(),
    {
        RpcCommand { data: Vec::new() }
    }

    /// Adds the fragment that followed the record mark `mark`; tells
    /// whether it was the last one.
    pub fn add_fragment(&mut self, mark: u32, fragment: &[u8]) -> (last: bool)
        requires
            fragment@.len() == header_of(mark).1,
        ensures
            final(self).data@ == old(self).data@ + fragment@,
            last == header_of(mark).0,
    {
        write_bytes(&mut self.data, fragment);
        let (is_last, _length) = parse_header(mark);
        is_last
    }
}

} // verus!
