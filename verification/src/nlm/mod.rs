//! NLMv4 byte-range locks: the lock description, its interval arithmetic and
//! conflict detection.
pub mod procedures;

use vstd::prelude::*;

use crate::nfsv3::nfs_fh3;

verus! {

/// Longest caller name accepted, in bytes.
pub const LM_MAXSTRLEN: usize = 1024;

/// One past the largest byte offset: where a lock of length 0 ends.
pub open spec fn offset_limit() -> int {
    0x1_0000_0000_0000_0000
}

/// A client-chosen value echoed in the reply.
#[derive(Debug, Clone, Copy, PartialEq, Eq)]
pub struct Cookie(pub u64);

impl Cookie {
    /// Wraps a cookie value.
    pub fn new(v: u64) -> (r: Cookie)
        ensures
            r.0 == v,
    {
        Cookie(v)
    }
}

/// An opaque lock owner handle.
#[derive(Debug, Clone, PartialEq, Eq)]
pub struct OpaqueHandle(pub Vec<u8>);

impl OpaqueHandle {
    /// Wraps owner handle bytes.
    pub fn new(v: Vec<u8>) -> (r: OpaqueHandle)
        ensures
            r.0@ == v@,
    {
        OpaqueHandle(v)
    }
}

/// A lock range whose end would lie beyond the largest byte offset.
#[derive(Debug, Clone, Copy, PartialEq, Eq)]
pub struct InvalidRange;

/// `offset` and `length` describe a lock: length 0 reaches to the end of
/// the file, any other length must end within the 64-bit offsets.
pub open spec fn range_valid(offset: u64, length: u64) -> bool {
    length == 0 || offset + length <= u64::MAX
}

/// The exclusive end of a lock: `None` for one that reaches the end of the file.
pub open spec fn spec_end(offset: u64, length: u64) -> Option<u64> {
    if length == 0 {
        None
    } else {
        Some((offset + length) as u64)
    }
}

/// The length of a lock from `start` to the exclusive end `end`.
pub open spec fn spec_length(start: u64, end: Option<u64>) -> u64 {
    match end {
        None => 0,
        Some(e) => (e - start) as u64,
    }
}

/// The exclusive end as a number; the end of the file is one past `u64::MAX`.
pub open spec fn end_bound(end: Option<u64>) -> int {
    match end {
        None => offset_limit(),
        Some(e) => e as int,
    }
}

/// The lock covers byte `x`.
pub open spec fn covers(start: u64, end: Option<u64>, x: int) -> bool {
    start <= x < end_bound(end)
}

/// A lock request's description.
#[derive(Debug, Clone, PartialEq, Eq)]
pub struct Nlm4Lock {
    pub caller_name: String,
    pub fh: nfs_fh3,
    pub oh: OpaqueHandle,
    pub svid: i32,
    pub offset: u64,
    pub length: u64,
}

impl View for Nlm4Lock {
    type V = (Seq<char>, Seq<u8>, Seq<u8>, i32, u64, u64);

    open spec fn view(&self) -> (Seq<char>, Seq<u8>, Seq<u8>, i32, u64, u64) {
        (self.caller_name@, self.fh@, self.oh.0@, self.svid, self.offset, self.length)
    }
}

impl Nlm4Lock {
    /// Describes a lock; fails when the range would end beyond the largest offset.
    pub fn new(
        caller_name: String,
        fh: nfs_fh3,
        oh: OpaqueHandle,
        svid: i32,
        offset: u64,
        length: u64,
    ) -> (r: Result<Nlm4Lock, InvalidRange>)
        ensures
            range_valid(offset, length) ==> (r matches Ok(l) && l@ == (
                caller_name@,
                fh@,
                oh.0@,
                svid,
                offset,
                length,
            )),
            !range_valid(offset, length) ==> r is Err,
    {
        if length != 0 && offset > u64::MAX - length {
            return Err(InvalidRange);
        }
        Ok(Nlm4Lock { caller_name, fh, oh, svid, offset, length })
    }

    /// First byte of the lock.
    pub fn start(&self) -> (r: u64)
        ensures
            r == self.offset,
    {
        self.offset
    }

    /// Exclusive end of the lock; `None` when it reaches the end of the file.
    pub fn end(&self) -> (r: Option<u64>)
        requires
            range_valid(self.offset, self.length),
        ensures
            r == spec_end(self.offset, self.length),
    {
        if self.length == 0 {
            None
        } else {
            Some(self.offset + self.length)
        }
    }
}

/// The length of the lock from `start` to the exclusive end `end`.
pub fn length_from_end(start: u64, end: Option<u64>) -> (r: u64)
    requires
        end matches Some(e) ==> start <= e,
    ensures
        r == spec_length(start, end),
{
    match end {
        None => 0,
        Some(e) => e - start,
    }
}

/// The two locks share at least one byte.
pub fn ranges_overlap(a: &Nlm4Lock, b: &Nlm4Lock) -> (r: bool)
    requires
        range_valid(a.offset, a.length),
        range_valid(b.offset, b.length),
    ensures
        r == (a.offset < end_bound(spec_end(b.offset, b.length)) && b.offset < end_bound(
            spec_end(a.offset, a.length),
        )),
{
    let a_before_b_end = match b.end() {
        None => true,
        Some(e) => a.offset < e,
    };
    let b_before_a_end = match a.end() {
        None => true,
        Some(e) => b.offset < e,
    };
    a_before_b_end && b_before_a_end
}

/// The locks `a` and `b` overlap, as [`ranges_overlap`] computes it.
pub open spec fn spec_overlap(a: Nlm4Lock, b: Nlm4Lock) -> bool {
    a.offset < end_bound(spec_end(b.offset, b.length)) && b.offset < end_bound(
        spec_end(a.offset, a.length),
    )
}

/// A lock held by a client, and whether it is exclusive.
#[derive(Debug, Clone, PartialEq, Eq)]
pub struct HeldLock {
    pub lock: Nlm4Lock,
    pub exclusive: bool,
}

/// The held lock and a request by another owner cannot both be granted.
pub open spec fn spec_conflicts(held: HeldLock, req: Nlm4Lock, exclusive: bool) -> bool {
    &&& spec_overlap(held.lock, req)
    &&& (held.exclusive || exclusive)
    &&& !(held.lock.caller_name@ == req.caller_name@ && held.lock.svid == req.svid)
}

/// Every held lock has a valid range.
pub open spec fn all_valid(held: Seq<HeldLock>) -> bool {
    forall|i: int| 0 <= i < held.len() ==> range_valid(#[trigger] held[i].lock.offset, held[i].lock.length)
}

/// Index of the first held lock that conflicts with the request, if any.
pub fn find_conflict(held: &Vec<HeldLock>, req: &Nlm4Lock, exclusive: bool) -> (r: Option<usize>)
    requires
        all_valid(held@),
        range_valid(req.offset, req.length),
    ensures
        r matches Some(i) ==> i < held@.len() && spec_conflicts(held@[i as int], *req, exclusive)
            && forall|j: int| 0 <= j < i ==> !spec_conflicts(#[trigger] held@[j], *req, exclusive),
        r is None ==> forall|j: int|
            0 <= j < held@.len() ==> !spec_conflicts(#[trigger] held@[j], *req, exclusive),
{
    let mut i: usize = 0;
    while i < held.len()
        invariant
            0 <= i <= held@.len(),
            all_valid(held@),
            range_valid(req.offset, req.length),
            forall|j: int| 0 <= j < i ==> !spec_conflicts(#[trigger] held@[j], *req, exclusive),
        decreases held@.len() - i,
    {
        let h = &held[i];
        assert(range_valid(held@[i as int].lock.offset, held@[i as int].lock.length));
        let same_owner = h.lock.caller_name == req.caller_name && h.lock.svid == req.svid;
        if ranges_overlap(&h.lock, req) && (h.exclusive || exclusive) && !same_owner {
            return Some(i);
        }
        i = i + 1;
    }
    None
}

/// A lock's end never precedes its start: a bounded lock ends after it begins.
pub proof fn lemma_end_after_start(offset: u64, length: u64)
    requires
        range_valid(offset, length),
    ensures
        spec_end(offset, length) matches Some(e) ==> offset < e,
        offset < end_bound(spec_end(offset, length)),
{
}

/// Length and end round-trip: the length recovered from a lock's end is its
/// length, and the end of the length recovered from an end is that end.
pub proof fn lemma_length_end_roundtrip(offset: u64, length: u64, end: Option<u64>)
    requires
        range_valid(offset, length),
        end matches Some(e) ==> offset < e,
    ensures
        spec_length(offset, spec_end(offset, length)) == length,
        range_valid(offset, spec_length(offset, end)),
        spec_end(offset, spec_length(offset, end)) == end,
{
}

/// Overlap is reflexive: every lock overlaps itself.
pub proof fn lemma_overlap_reflexive(a: Nlm4Lock)
    requires
        range_valid(a.offset, a.length),
    ensures
        spec_overlap(a, a),
{
}

/// Overlap is symmetric.
pub proof fn lemma_overlap_symmetric(a: Nlm4Lock, b: Nlm4Lock)
    ensures
        spec_overlap(a, b) == spec_overlap(b, a),
{
}

/// Two locks overlap exactly when some byte lies in both.
pub proof fn lemma_overlap_iff_shared_byte(a: Nlm4Lock, b: Nlm4Lock)
    requires
        range_valid(a.offset, a.length),
        range_valid(b.offset, b.length),
    ensures
        spec_overlap(a, b) <==> exists|x: int|
            covers(a.offset, spec_end(a.offset, a.length), x) && covers(
                b.offset,
                spec_end(b.offset, b.length),
                x,
            ),
{
    if spec_overlap(a, b) {
        let x = if a.offset >= b.offset {
            a.offset as int
        } else {
            b.offset as int
        };
        assert(covers(a.offset, spec_end(a.offset, a.length), x));
        assert(covers(b.offset, spec_end(b.offset, b.length), x));
    }
}

/// Conflict does not depend on which of two locks is the one held: a request
/// conflicts with a held lock exactly when, the roles swapped, the other
/// request conflicts with the other held lock.
pub proof fn lemma_conflict_symmetric(a: Nlm4Lock, a_excl: bool, b: Nlm4Lock, b_excl: bool)
    ensures
        spec_conflicts(HeldLock { lock: a, exclusive: a_excl }, b, b_excl) == spec_conflicts(
            HeldLock { lock: b, exclusive: b_excl },
            a,
            a_excl,
        ),
{
}

} // verus!
