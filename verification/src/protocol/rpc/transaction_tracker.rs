//! Detection of retransmitted RPC calls (RFC 5531 section 8.1): a call is
//! known by its transaction id and the address of its client, and one seen
//! before is not carried out again. Completed calls are forgotten once they
//! are older than the retention period; calls in progress never are.
use vstd::prelude::*;

use dashmap::DashMap;

verus! {

#[verifier::external_type_specification]
#[verifier::external_body]
#[verifier::reject_recursive_types(K)]
#[verifier::reject_recursive_types(V)]
#[verifier::reject_recursive_types(S)]
pub struct ExDashMap<K, V, S>(DashMap<K, V, S>);

/// What became of a call.
#[derive(Debug, Clone, Copy, PartialEq, Eq)]
pub enum TransactionState {
    /// Being carried out.
    InProgress,
    /// Carried out; completed at this time, in nanoseconds since the Unix
    /// epoch.
    Completed(u128),
}

/// Calls by transaction id and client address.
pub type Transactions = DashMap<(u32, String), TransactionState>;

/// The calls a map of transactions holds, by transaction id and client
/// address.
pub uninterp spec fn transactions_of(m: Transactions) -> Map<(u32, Seq<char>), TransactionState>;

/// No call at all.
pub open spec fn no_calls() -> Map<(u32, Seq<char>), TransactionState> {
    Map::empty()
}

/// An empty map of transactions (`DashMap::new`).
#[verifier::external_body]
fn empty_transactions() -> (r: Transactions)
    ensures
        transactions_of(r) == no_calls(),
{
    DashMap::new()
}

/// Whether the map holds the call `xid` of `client` (`DashMap::contains_key`).
#[verifier::external_body]
fn holds_transaction(m: &Transactions, xid: u32, client: &str) -> (r: bool)
    ensures
        r == transactions_of(*m).contains_key((xid, client@)),
{
    m.contains_key(&(xid, client.to_string()))
}

/// Records the call `xid` of `client` with `state`, replacing what was
/// recorded for it (`DashMap::insert`).
#[verifier::external_body]
fn record_transaction(
    m: &mut Transactions,
    xid: u32,
    client: &str,
    state: TransactionState,
)
    ensures
        transactions_of(*final(m)) == transactions_of(*old(m)).insert((xid, client@), state),
{
    m.insert((xid, client.to_string()), state);
}

/// Marks the call `xid` of `client` completed at `time`, when the map holds
/// it (`DashMap::alter`, which leaves a missing key alone).
#[verifier::external_body]
fn complete_transaction(m: &mut Transactions, xid: u32, client: &str, time: u128)
    ensures
        transactions_of(*final(m)) == if transactions_of(*old(m)).contains_key((xid, client@)) {
            transactions_of(*old(m)).insert((xid, client@), TransactionState::Completed(time))
        } else {
            transactions_of(*old(m))
        },
{
    m.alter(&(xid, client.to_string()), |_, _| completed_at(time));
}

/// Keeps the calls whose state `keeps_transaction` keeps for `cutoff`
/// (`DashMap::retain`).
#[verifier::external_body]
fn retain_transactions(m: &mut Transactions, cutoff: u128)
    ensures
        transactions_of(*final(m)) == pruned(transactions_of(*old(m)), cutoff),
{
    m.retain(|_, state| keeps_transaction(state, cutoff));
}

/// `SystemTime::elapsed` of `UNIX_EPOCH`: the time since the epoch by the
/// system clock, `None` for a clock set before it. Nothing is stated of the
/// value: it is the clock's.
#[verifier::external_body]
fn elapsed_since_epoch() -> (d: Option<std::time::Duration>) {
    match std::time::UNIX_EPOCH.elapsed() {
        Ok(d) => Some(d),
        Err(_) => None,
    }
}

/// `Duration::as_nanos`: the whole length of `d` in nanoseconds. A
/// `Duration` is opaque here, so nothing is stated of the number.
#[verifier::external_body]
fn duration_nanos(d: &std::time::Duration) -> (n: u128) {
    d.as_nanos()
}

/// The current time in nanoseconds since the Unix epoch, 0 for a clock set
/// before it.
fn now_nanos() -> (t: u128) {
    match elapsed_since_epoch() {
        Some(d) => duration_nanos(&d),
        None => 0,
    }
}

/// The state of a call completed at `time`.
fn completed_at(time: u128) -> (s: TransactionState)
    ensures
        s == TransactionState::Completed(time),
{
    TransactionState::Completed(time)
}

/// A call in progress is kept, a completed one while it completed no
/// earlier than `cutoff`.
pub open spec fn kept(state: TransactionState, cutoff: u128) -> bool {
    match state {
        TransactionState::InProgress => true,
        TransactionState::Completed(t) => t >= cutoff,
    }
}

/// Whether `state` is kept for `cutoff`.
fn keeps_transaction(state: &TransactionState, cutoff: u128) -> (r: bool)
    ensures
        r == kept(*state, cutoff),
{
    match state {
        TransactionState::InProgress => true,
        TransactionState::Completed(t) => *t >= cutoff,
    }
}

/// The calls of `m` that are kept for `cutoff`.
pub open spec fn pruned(m: Map<(u32, Seq<char>), TransactionState>, cutoff: u128) -> Map<
    (u32, Seq<char>),
    TransactionState,
> {
    Map::new(|k: (u32, Seq<char>)| m.contains_key(k) && kept(m[k], cutoff), |k: (u32, Seq<char>)| m[k])
}

/// The oldest completion time kept at `now` with retention `retention`.
pub open spec fn cutoff_at(now: u128, retention: u128) -> u128 {
    if now >= retention {
        (now - retention) as u128
    } else {
        0
    }
}

/// Forgets the completed calls older than `max_age` at time `now`.
pub fn housekeeping(transactions: &mut Transactions, max_age: u128, now: u128)
    ensures
        transactions_of(*final(transactions)) == pruned(transactions_of(*old(transactions)), cutoff_at(now, max_age)),
{
    let cutoff = now.saturating_sub(max_age);
    retain_transactions(transactions, cutoff);
}

/// How many calls pass between two cleanups.
pub const CLEANUP_THRESHOLD: u64 = 10_000;

/// Records calls to tell retransmissions from new calls.
pub struct TransactionTracker {
    retention_period: u128,
    transactions: Transactions,
    operation_count: u64,
    cleanup_threshold: u64,
}

impl TransactionTracker {
    /// The calls recorded.
    pub closed spec fn calls(&self) -> Map<(u32, Seq<char>), TransactionState> {
        transactions_of(self.transactions)
    }

    /// How long a completed call is remembered, in nanoseconds.
    pub closed spec fn retention(&self) -> u128 {
        self.retention_period
    }

    /// How many new calls were seen.
    pub closed spec fn count(&self) -> u64 {
        self.operation_count
    }

    /// A cleanup runs before every new call whose count is a multiple of
    /// this.
    pub closed spec fn threshold(&self) -> u64 {
        self.cleanup_threshold
    }

    /// The tracker is in a consistent state.
    pub closed spec fn wf(&self) -> bool {
        self.cleanup_threshold > 0
    }

    /// A tracker that remembers completed calls for `retention_period`
    /// nanoseconds.
    pub fn new(retention_period: u128) -> (r: TransactionTracker)
        ensures
            r.wf(),
            r.calls() == Map::<(u32, Seq<char>), TransactionState>::empty(),
            r.retention() == retention_period,
            r.count() == 0,
            r.threshold() == CLEANUP_THRESHOLD,
    {
        TransactionTracker {
            retention_period,
            transactions: empty_transactions(),
            operation_count: 0,
            cleanup_threshold: CLEANUP_THRESHOLD,
        }
    }

    /// Tells whether the call `xid` of `client_addr` was seen before. A new
    /// call is counted and recorded in progress; before it is recorded, the
    /// completed calls older than the retention period are forgotten when
    /// the count before it is a multiple of the threshold.
    pub fn is_retransmission(&mut self, xid: u32, client_addr: &str) -> (r: bool)
        requires
            old(self).wf(),
        ensures
            final(self).wf(),
            r == old(self).calls().contains_key((xid, client_addr@)),
            final(self).retention() == old(self).retention(),
            final(self).threshold() == old(self).threshold(),
            r ==> final(self).calls() == old(self).calls() && final(self).count() == old(self).count(),
            !r ==> final(self).count() == if old(self).count() == u64::MAX {
                0
            } else {
                (old(self).count() + 1) as u64
            },
            !r ==> exists|cutoff: u128| #[trigger]
                new_call(old(self).calls(), cutoff, old(self).count(), old(self).threshold(), (xid, client_addr@))
                    == final(self).calls(),
    {
        if holds_transaction(&self.transactions, xid, client_addr) {
            return true;
        }
        let count = self.operation_count;
        self.operation_count = count.wrapping_add(1);
        let ghost before = transactions_of(self.transactions);
        let ghost mut cutoff: u128 = 0;
        if count % self.cleanup_threshold == 0 {
            let now = now_nanos();
            housekeeping(&mut self.transactions, self.retention_period, now);
            proof {
                cutoff = cutoff_at(now, self.retention_period);
            }
        }
        record_transaction(&mut self.transactions, xid, client_addr, TransactionState::InProgress);
        assert(new_call(before, cutoff, count, self.cleanup_threshold, (xid, client_addr@)) == transactions_of(
            self.transactions,
        ));
        assert(new_call(old(self).calls(), cutoff, old(self).count(), old(self).threshold(), (xid, client_addr@))
            == self.calls());
        false
    }

    /// Marks the call `xid` of `client_addr` completed now, when it is
    /// recorded.
    pub fn mark_processed(&mut self, xid: u32, client_addr: &str)
        requires
            old(self).wf(),
        ensures
            final(self).wf(),
            final(self).retention() == old(self).retention(),
            final(self).threshold() == old(self).threshold(),
            final(self).count() == old(self).count(),
            final(self).calls().dom() == old(self).calls().dom(),
            forall|k: (u32, Seq<char>)| #[trigger]
                old(self).calls().contains_key(k) && k != (xid, client_addr@) ==> final(self).calls()[k]
                    == old(self).calls()[k],
            old(self).calls().contains_key((xid, client_addr@)) ==> final(self).calls()[(
                xid,
                client_addr@,
            )] is Completed,
    {
        let now = now_nanos();
        complete_transaction(&mut self.transactions, xid, client_addr, now);
    }
}

/// The calls recorded after the new call `key`: when `count` is a multiple
/// of `threshold`, the calls of `m` kept for `cutoff`, else all of them;
/// then `key` in progress.
pub open spec fn new_call(
    m: Map<(u32, Seq<char>), TransactionState>,
    cutoff: u128,
    count: u64,
    threshold: u64,
    key: (u32, Seq<char>),
) -> Map<(u32, Seq<char>), TransactionState> {
    let base = if count % threshold == 0 {
        pruned(m, cutoff)
    } else {
        m
    };
    base.insert(key, TransactionState::InProgress)
}

/// Forgetting old calls never forgets a call in progress, nor one completed
/// at or after the cutoff, and keeps what it keeps unchanged.
pub proof fn lemma_pruning_keeps_in_progress(m: Map<(u32, Seq<char>), TransactionState>, cutoff: u128, k: (u32, Seq<char>))
    requires
        m.contains_key(k),
        kept(m[k], cutoff),
    ensures
        pruned(m, cutoff).contains_key(k),
        pruned(m, cutoff)[k] == m[k],
{
}

/// A new call is recorded in progress right after it is seen, so the same
/// call seen again is a retransmission, whatever was forgotten meanwhile.
pub proof fn lemma_seen_call_is_retransmission(
    m: Map<(u32, Seq<char>), TransactionState>,
    cutoff: u128,
    count: u64,
    threshold: u64,
    key: (u32, Seq<char>),
)
    ensures
        new_call(m, cutoff, count, threshold, key).contains_key(key),
        new_call(m, cutoff, count, threshold, key)[key] == TransactionState::InProgress,
{
}

/// A recorded call stays recorded through a later new call, so it is still
/// a retransmission then, unless that new call's cleanup runs and drops it
/// (a call completed before the cutoff).
pub proof fn lemma_recorded_call_stays(
    m: Map<(u32, Seq<char>), TransactionState>,
    cutoff: u128,
    count: u64,
    threshold: u64,
    key: (u32, Seq<char>),
    other: (u32, Seq<char>),
)
    requires
        m.contains_key(key),
        count % threshold != 0 || kept(m[key], cutoff),
    ensures
        new_call(m, cutoff, count, threshold, other).contains_key(key),
{
}

} // verus!
