//! The staleness-bounded cache of the live snapshot.
//!
//! The cache is a state machine; the caller owns the lock and the clock.
//! A reader calls [`LiveCache::read`] under a shared lock. On
//! [`ReadStep::Stale`] it serves the snapshot it got and may take the
//! exclusive lock to call [`LiveCache::begin_refresh`], which checks again and
//! lets exactly one reader refresh; that reader aggregates without any lock
//! and hands the outcome to [`LiveCache::complete_refresh`]. On
//! [`ReadStep::Fetch`] (nothing held yet) the reader aggregates itself and
//! hands the outcome to [`LiveCache::complete_fetch`].

use crate::snapshot::{
    assembled, outcome_view, round_has_failure, FetchError, RoundResults, Snapshot, SnapshotView,
};
use vstd::prelude::*;

verus! {

/// Default staleness threshold, in milliseconds.
pub const DEFAULT_STALENESS_MS: u64 = 1000;

/// Why a read could not be served.
#[derive(Clone, Copy, Debug, PartialEq, Eq, Structural)]
pub enum CacheError {
    /// No snapshot was ever committed, and the aggregation that this read
    /// started failed for the given cause.
    EmptyCache(FetchError),
}

/// The cache: at most one snapshot, the staleness threshold, and whether a
/// refresh is in flight.
pub struct LiveCache {
    slot: Option<Snapshot>,
    threshold_ms: u64,
    refreshing: bool,
}

/// Mathematical content of a [`LiveCache`].
pub struct CacheView {
    pub slot: Option<SnapshotView>,
    pub threshold: u64,
    pub refreshing: bool,
}

impl View for LiveCache {
    type V = CacheView;

    closed spec fn view(&self) -> CacheView {
        CacheView {
            slot: match self.slot {
                Some(s) => Some(s@),
                None => None,
            },
            threshold: self.threshold_ms,
            refreshing: self.refreshing,
        }
    }
}

/// What a reader is to do.
#[derive(Debug)]
pub enum ReadStep {
    /// Serve this snapshot.
    Serve(Snapshot),
    /// Serve this snapshot; it is stale and no refresh is in flight.
    Stale(Snapshot),
    /// Nothing is held: aggregate now and wait for the outcome.
    Fetch,
}

/// Mathematical content of a [`ReadStep`].
pub enum ReadPlan {
    Serve(SnapshotView),
    Stale(SnapshotView),
    Fetch,
}

impl View for ReadStep {
    type V = ReadPlan;

    open spec fn view(&self) -> ReadPlan {
        match self {
            ReadStep::Serve(s) => ReadPlan::Serve(s@),
            ReadStep::Stale(s) => ReadPlan::Stale(s@),
            ReadStep::Fetch => ReadPlan::Fetch,
        }
    }
}

/// Milliseconds elapsed between the round that produced `s` and `now`.
pub open spec fn elapsed(s: SnapshotView, now: u64) -> int {
    now as int - s.fetched_at as int
}

/// A snapshot is stale once the threshold has elapsed since its round began.
pub open spec fn is_stale(s: SnapshotView, threshold: u64, now: u64) -> bool {
    elapsed(s, now) >= threshold as int
}

/// The step that a read at `now` yields.
pub open spec fn read_plan(c: CacheView, now: u64) -> ReadPlan {
    match c.slot {
        None => ReadPlan::Fetch,
        Some(s) => if is_stale(s, c.threshold, now) && !c.refreshing {
            ReadPlan::Stale(s)
        } else {
            ReadPlan::Serve(s)
        },
    }
}

/// Whether a reader asking at `now` becomes the one that refreshes.
pub open spec fn refresh_claimed(c: CacheView, now: u64) -> bool {
    &&& c.slot is Some
    &&& is_stale(c.slot->Some_0, c.threshold, now)
    &&& !c.refreshing
}

/// The cache after a reader asks at `now` to refresh.
pub open spec fn after_claim(c: CacheView, now: u64) -> CacheView {
    if refresh_claimed(c, now) {
        CacheView { refreshing: true, ..c }
    } else {
        c
    }
}

/// The slot after an aggregation outcome is committed: a new snapshot
/// replaces the held one whole, unless its round began earlier; a failure
/// leaves the slot as it was.
pub open spec fn committed(
    slot: Option<SnapshotView>,
    o: Result<SnapshotView, FetchError>,
) -> Option<SnapshotView> {
    match o {
        Ok(n) => match slot {
            Some(s) => if n.fetched_at >= s.fetched_at {
                Some(n)
            } else {
                slot
            },
            None => Some(n),
        },
        Err(_) => slot,
    }
}

/// The cache after the outcome of an aggregation begun on an empty cache.
pub open spec fn after_fetch(c: CacheView, o: Result<SnapshotView, FetchError>) -> CacheView {
    CacheView { slot: committed(c.slot, o), ..c }
}

/// The cache after the outcome of the refresh in flight.
pub open spec fn after_refresh(c: CacheView, o: Result<SnapshotView, FetchError>) -> CacheView {
    CacheView { slot: committed(c.slot, o), refreshing: false, ..c }
}

/// What the reader that handed in an outcome is served: the held snapshot
/// after the commit, or the cause when nothing is held.
pub open spec fn served_after(
    c: CacheView,
    o: Result<SnapshotView, FetchError>,
) -> Result<SnapshotView, CacheError> {
    match committed(c.slot, o) {
        Some(s) => Ok(s),
        None => Err(CacheError::EmptyCache(o->Err_0)),
    }
}

/// The view of a served result.
pub open spec fn served_view(r: Result<Snapshot, CacheError>) -> Result<SnapshotView, CacheError> {
    match r {
        Ok(s) => Ok(s@),
        Err(e) => Err(e),
    }
}

impl LiveCache {
    /// An empty cache whose snapshots go stale after `threshold_ms`.
    pub fn new(threshold_ms: u64) -> (c: LiveCache)
        ensures
            c@ == (CacheView { slot: None, threshold: threshold_ms, refreshing: false }),
    {
        LiveCache { slot: None, threshold_ms, refreshing: false }
    }

    /// An empty cache with the default threshold of one second.
    pub fn with_default_threshold() -> (c: LiveCache)
        ensures
            c@ == (CacheView { slot: None, threshold: DEFAULT_STALENESS_MS, refreshing: false }),
    {
        LiveCache::new(DEFAULT_STALENESS_MS)
    }

    /// The staleness threshold, in milliseconds.
    pub fn threshold_ms(&self) -> (r: u64)
        ensures
            r == self@.threshold,
    {
        self.threshold_ms
    }

    /// Whether a refresh is in flight.
    pub fn is_refreshing(&self) -> (r: bool)
        ensures
            r == self@.refreshing,
    {
        self.refreshing
    }

    /// A read at local time `now`: serve the held snapshot, say that it is
    /// stale, or ask the reader to fetch when nothing is held. Never contacts
    /// the node and never changes the cache.
    pub fn read(&self, now: u64) -> (r: ReadStep)
        ensures
            r@ == read_plan(self@, now),
    {
        match &self.slot {
            None => ReadStep::Fetch,
            Some(s) => {
                let stale = now as u128 >= s.fetched_at() as u128 + self.threshold_ms as u128;
                if stale && !self.refreshing {
                    ReadStep::Stale(s.duplicate())
                } else {
                    ReadStep::Serve(s.duplicate())
                }
            },
        }
    }

    /// Asks, at local time `now`, to become the reader that refreshes.
    /// Checks staleness again; succeeds for one reader only until the refresh
    /// completes.
    pub fn begin_refresh(&mut self, now: u64) -> (claimed: bool)
        ensures
            claimed == refresh_claimed(old(self)@, now),
            final(self)@ == after_claim(old(self)@, now),
    {
        let claim = match &self.slot {
            Some(s) => !self.refreshing && now as u128 >= s.fetched_at() as u128
                + self.threshold_ms as u128,
            None => false,
        };
        if claim {
            self.refreshing = true;
        }
        claim
    }

    fn commit(&mut self, outcome: Result<Snapshot, FetchError>) -> (r: Result<Snapshot, CacheError>)
        ensures
            final(self)@ == (CacheView { slot: committed(old(self)@.slot, outcome_view(outcome)), ..old(self)@ }),
            served_view(r) == served_after(old(self)@, outcome_view(outcome)),
    {
        match outcome {
            Ok(n) => match &self.slot {
                Some(s) if n.fetched_at() < s.fetched_at() => Ok(s.duplicate()),
                _ => {
                    let out = n.duplicate();
                    self.slot = Some(n);
                    Ok(out)
                },
            },
            Err(e) => match &self.slot {
                Some(s) => Ok(s.duplicate()),
                None => Err(CacheError::EmptyCache(e)),
            },
        }
    }

    /// Hands in the outcome of an aggregation that a [`ReadStep::Fetch`]
    /// started, and returns what that reader is served: the held snapshot
    /// after the commit, or the error when no snapshot was ever committed.
    pub fn complete_fetch(&mut self, outcome: Result<Snapshot, FetchError>) -> (r: Result<
        Snapshot,
        CacheError,
    >)
        ensures
            final(self)@ == after_fetch(old(self)@, outcome_view(outcome)),
            served_view(r) == served_after(old(self)@, outcome_view(outcome)),
    {
        self.commit(outcome)
    }

    /// Hands in the outcome of the refresh that [`LiveCache::begin_refresh`]
    /// granted, ends it, and returns the held snapshot after the commit. A
    /// failed refresh keeps the held snapshot and its age.
    pub fn complete_refresh(&mut self, outcome: Result<Snapshot, FetchError>) -> (r: Result<
        Snapshot,
        CacheError,
    >)
        ensures
            final(self)@ == after_refresh(old(self)@, outcome_view(outcome)),
            served_view(r) == served_after(old(self)@, outcome_view(outcome)),
    {
        self.refreshing = false;
        self.commit(outcome)
    }
}


/// One operation on the cache, as the callers' lock orders them.
pub enum CacheOp {
    Read(u64),
    BeginRefresh(u64),
    CompleteFetch(Result<SnapshotView, FetchError>),
    CompleteRefresh(Result<SnapshotView, FetchError>),
}

/// The cache after one operation.
pub open spec fn apply(c: CacheView, op: CacheOp) -> CacheView {
    match op {
        CacheOp::Read(_) => c,
        CacheOp::BeginRefresh(now) => after_claim(c, now),
        CacheOp::CompleteFetch(o) => after_fetch(c, o),
        CacheOp::CompleteRefresh(o) => after_refresh(c, o),
    }
}

/// The snapshot that one operation hands to its caller, if any.
pub open spec fn delivered(c: CacheView, op: CacheOp) -> Option<SnapshotView> {
    match op {
        CacheOp::Read(now) => match read_plan(c, now) {
            ReadPlan::Serve(s) => Some(s),
            ReadPlan::Stale(s) => Some(s),
            ReadPlan::Fetch => None,
        },
        CacheOp::BeginRefresh(_) => None,
        CacheOp::CompleteFetch(o) => committed(c.slot, o),
        CacheOp::CompleteRefresh(o) => committed(c.slot, o),
    }
}

/// The snapshot that an operation hands in to be committed, if any.
pub open spec fn handed_in(op: CacheOp) -> Option<SnapshotView> {
    match op {
        CacheOp::CompleteFetch(Ok(n)) => Some(n),
        CacheOp::CompleteRefresh(Ok(n)) => Some(n),
        _ => None,
    }
}

/// The cache after a sequence of operations.
pub open spec fn run(c: CacheView, ops: Seq<CacheOp>) -> CacheView
    decreases ops.len(),
{
    if ops.len() == 0 {
        c
    } else {
        apply(run(c, ops.drop_last()), ops.last())
    }
}

/// The cache just before operation `k` of `ops`.
pub open spec fn state_before(c: CacheView, ops: Seq<CacheOp>, k: int) -> CacheView {
    run(c, ops.take(k))
}

proof fn lemma_run_step(c: CacheView, ops: Seq<CacheOp>, k: int)
    requires
        0 <= k < ops.len(),
    ensures
        state_before(c, ops, k + 1) == apply(state_before(c, ops, k), ops[k]),
{
    assert(ops.take(k + 1).drop_last() =~= ops.take(k));
}

/// What an operation delivers is the slot after it.
proof fn lemma_delivered_is_slot(c: CacheView, op: CacheOp)
    ensures
        delivered(c, op) is Some ==> delivered(c, op) == apply(c, op).slot,
{
}

proof fn lemma_slot_monotone(c: CacheView, ops: Seq<CacheOp>, a: int, b: int)
    requires
        0 <= a <= b <= ops.len(),
        state_before(c, ops, a).slot is Some,
    ensures
        state_before(c, ops, b).slot is Some,
        state_before(c, ops, a).slot->Some_0.fetched_at <= state_before(
            c,
            ops,
            b,
        ).slot->Some_0.fetched_at,
    decreases b - a,
{
    if a < b {
        lemma_slot_monotone(c, ops, a, b - 1);
        lemma_run_step(c, ops, b - 1);
    }
}

/// Monotonic visibility: of two operations in order, the later one never
/// delivers a snapshot from an earlier round than the one the first
/// delivered.
pub proof fn lemma_monotonic_visibility(c: CacheView, ops: Seq<CacheOp>, i: int, j: int)
    requires
        0 <= i < j < ops.len(),
        delivered(state_before(c, ops, i), ops[i]) is Some,
        delivered(state_before(c, ops, j), ops[j]) is Some,
    ensures
        delivered(state_before(c, ops, i), ops[i])->Some_0.fetched_at <= delivered(
            state_before(c, ops, j),
            ops[j],
        )->Some_0.fetched_at,
{
    lemma_run_step(c, ops, i);
    lemma_run_step(c, ops, j);
    lemma_delivered_is_slot(state_before(c, ops, i), ops[i]);
    lemma_delivered_is_slot(state_before(c, ops, j), ops[j]);
    lemma_slot_monotone(c, ops, i + 1, j + 1);
}

proof fn lemma_slot_origin(c: CacheView, ops: Seq<CacheOp>, k: int)
    requires
        0 <= k <= ops.len(),
        state_before(c, ops, k).slot is Some,
    ensures
        state_before(c, ops, k).slot == c.slot || exists|m: int|
            0 <= m < k && #[trigger] handed_in(ops[m]) == state_before(c, ops, k).slot,
    decreases k,
{
    if k == 0 {
        assert(ops.take(0) =~= Seq::<CacheOp>::empty());
    } else {
        lemma_run_step(c, ops, k - 1);
        let prev = state_before(c, ops, k - 1);
        let cur = state_before(c, ops, k);
        if cur.slot == prev.slot {
            if prev.slot is Some {
                lemma_slot_origin(c, ops, k - 1);
            }
            if prev.slot is None {
                assert(cur.slot is None);
            }
        } else {
            assert(handed_in(ops[k - 1]) == cur.slot);
        }
    }
}

/// Atomicity: every snapshot that an operation delivers is, whole, either the
/// one held at the start or one that a completion handed in, that is, one
/// assembled from a single round.
pub proof fn lemma_delivered_whole(c: CacheView, ops: Seq<CacheOp>, k: int)
    requires
        0 <= k < ops.len(),
        delivered(state_before(c, ops, k), ops[k]) is Some,
    ensures
        delivered(state_before(c, ops, k), ops[k]) == c.slot || exists|m: int|
            0 <= m <= k && #[trigger] handed_in(ops[m]) == delivered(
                state_before(c, ops, k),
                ops[k],
            ),
{
    lemma_run_step(c, ops, k);
    lemma_delivered_is_slot(state_before(c, ops, k), ops[k]);
    lemma_slot_origin(c, ops, k + 1);
}

/// Staleness boundary: with a snapshot held and no refresh in flight, a read
/// before the threshold has elapsed is served from the cache and starts no
/// refresh; a read after it sees the snapshot stale, exactly one reader is
/// granted the refresh, and no later request is granted another until it
/// completes.
pub proof fn lemma_staleness_boundary(c: CacheView, now: u64, later: u64)
    requires
        c.slot is Some,
        !c.refreshing,
    ensures
        elapsed(c.slot->Some_0, now) < c.threshold ==> read_plan(c, now) is Serve && !refresh_claimed(
            c,
            now,
        ),
        elapsed(c.slot->Some_0, now) >= c.threshold ==> read_plan(c, now) is Stale && refresh_claimed(
            c,
            now,
        ) && !refresh_claimed(after_claim(c, now), later) && read_plan(
            after_claim(c, now),
            later,
        ) is Serve,
{
}

/// All-or-nothing aggregation: when one of the six queries of a round fails,
/// the round yields no snapshot, and handing its outcome to the cache leaves
/// the held snapshot as it was.
pub proof fn lemma_failed_round_commits_nothing(c: CacheView, r: RoundResults)
    requires
        round_has_failure(r),
    ensures
        assembled(r) is Err,
        after_fetch(c, assembled(r)).slot == c.slot,
        after_refresh(c, assembled(r)).slot == c.slot,
{
}

} // verus!
