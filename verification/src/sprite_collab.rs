//! The refresh orchestrator: single-flight refresh, atomic snapshot
//! replacement, change detection, and the flush-on-change signal.
//!
//! The orchestrator is a state machine over `(state, current_data)`.
//! `begin_refresh` is the single-flight test-and-set that the shell runs
//! under the state guard; the (potentially slow) I/O phase then runs with
//! no lock held; `complete_refresh` publishes the outcome and
//! unconditionally returns the state to `Ready`. The boolean it returns
//! tells the shell whether to flush the external cache store: exactly
//! when a successful refresh produced a snapshot that differs from the
//! prior one.

use crate::datamodel::{data_eq, CreditEntryView, CreditNames, SpriteCollabData};
use crate::strutil::{parse_u64, spec_parse_u64};
use vstd::prelude::*;

verus! {

/// The refresh-state flag: at most one refresh is in flight system-wide.
#[derive(Clone, Copy, PartialEq, Eq, Structural, Debug)]
pub enum State {
    Refreshing,
    Ready,
}

/// Per-result caching policy chosen by a computation handed to the
/// cache-or-compute layer.
pub enum CacheBehaviour<T> {
    /// Cache this value.
    Cache(T),
    /// Do not cache this value.
    NoCache(T),
}

/// The orchestrator's entire shared state. The shell guards `state` with
/// a mutual-exclusion primitive held only for the flag's own read/write,
/// and `current_data` with a multiple-reader/single-writer primitive; no
/// guard is ever held across I/O.
pub struct SpriteCollab {
    pub state: State,
    pub current_data: SpriteCollabData,
}

/// Whether a begin attempt on `s` starts a refresh.
pub open spec fn begin_starts(s: SpriteCollab) -> bool {
    s.state == State::Ready
}

/// The state after a begin attempt: `Ready` becomes `Refreshing`; an
/// attempt that finds a refresh already in flight changes nothing.
pub open spec fn begin_state(s: SpriteCollab) -> SpriteCollab {
    if begin_starts(s) {
        SpriteCollab { state: State::Refreshing, ..s }
    } else {
        s
    }
}

/// The state after a refresh attempt completes with `outcome`
/// (`None`: the I/O phase failed; `Some`: the freshly built snapshot).
/// The state flag returns to `Ready` unconditionally; the snapshot is
/// replaced only on success.
pub open spec fn complete_state(s: SpriteCollab, outcome: Option<SpriteCollabData>) -> SpriteCollab {
    match outcome {
        None => SpriteCollab { state: State::Ready, ..s },
        Some(d) => SpriteCollab { state: State::Ready, current_data: d },
    }
}

/// Whether completing with `outcome` must flush the external cache
/// store: only a successful refresh whose snapshot differs from the
/// prior one.
pub open spec fn complete_flushes(s: SpriteCollab, outcome: Option<SpriteCollabData>) -> bool {
    match outcome {
        None => false,
        Some(d) => d@ != s.current_data@,
    }
}

impl SpriteCollab {
    /// Builds the orchestrator around the snapshot produced by the
    /// mandatory initial refresh. The system always starts `Ready`.
    pub fn new(initial: SpriteCollabData) -> (r: SpriteCollab)
        ensures
            r.state == State::Ready,
            r.current_data == initial,
    {
        SpriteCollab { state: State::Ready, current_data: initial }
    }

    /// Single-flight test-and-set, run under the state guard: starts a
    /// refresh unless one is already in flight, in which case the caller
    /// must return immediately without side effects.
    pub fn begin_refresh(&mut self) -> (started: bool)
        ensures
            started == begin_starts(*old(self)),
            *final(self) == begin_state(*old(self)),
            final(self).current_data == old(self).current_data,
            !started ==> *final(self) == *old(self),
    {
        match self.state {
            State::Refreshing => false,
            State::Ready => {
                self.state = State::Refreshing;
                true
            },
        }
    }

    /// Completes a refresh attempt: publishes the new snapshot on
    /// success, keeps the prior one on failure, and returns the state to
    /// `Ready` in either case. Returns whether the shell must flush the
    /// external cache store (and run pre-warm hooks).
    pub fn complete_refresh(&mut self, outcome: Option<SpriteCollabData>) -> (flush: bool)
        ensures
            final(self).state == State::Ready,
            *final(self) == complete_state(*old(self), outcome),
            flush == complete_flushes(*old(self), outcome),
            outcome is None ==> final(self).current_data == old(self).current_data,
    {
        match outcome {
            None => {
                self.state = State::Ready;
                false
            },
            Some(d) => {
                let changed = !data_eq(&self.current_data, &d);
                self.current_data = d;
                self.state = State::Ready;
                changed
            },
        }
    }

    /// One whole refresh attempt whose I/O phase produced `outcome`:
    /// coalesces into a no-op if a refresh is already in flight,
    /// otherwise publishes `outcome` as `complete_refresh` does.
    /// Returns `(performed, flush)`. The shell uses the split
    /// `begin_refresh` / `complete_refresh` pair instead whenever the
    /// outcome has to be computed between the two steps.
    pub fn refresh(&mut self, outcome: Option<SpriteCollabData>) -> (r: (bool, bool))
        ensures
            r.0 == begin_starts(*old(self)),
            !r.0 ==> *final(self) == *old(self) && !r.1,
            r.0 ==> *final(self) == complete_state(begin_state(*old(self)), outcome),
            r.0 ==> r.1 == complete_flushes(begin_state(*old(self)), outcome),
            r.0 ==> final(self).state == State::Ready,
    {
        let started = self.begin_refresh();
        if !started {
            return (false, false);
        }
        let flush = self.complete_refresh(outcome);
        (true, flush)
    }

    /// Read handle to the published snapshot.
    pub fn data(&self) -> (d: &SpriteCollabData)
        ensures
            d == self.current_data,
    {
        &self.current_data
    }
}

/// The contributor identifiers worth pre-warming after a data change:
/// every credit id that reads as a numeric external user id, in list
/// order.
pub open spec fn spec_pre_warm_ids(entries: Seq<CreditEntryView>) -> Seq<u64>
    decreases entries.len(),
{
    if entries.len() == 0 {
        Seq::empty()
    } else {
        spec_pre_warm_ids(entries.drop_last()) + match spec_parse_u64(entries.last().credit_id) {
            Some(id) => seq![id],
            None => Seq::empty(),
        }
    }
}

/// Computes which external user ids the shell should ask the
/// notification service to pre-warm after a confirmed data change.
pub fn pre_warm_ids(names: &CreditNames) -> (r: Vec<u64>)
    ensures
        r@ == spec_pre_warm_ids(names@.entries),
{
    let mut r: Vec<u64> = Vec::new();
    let n = names.entries.len();
    let mut i: usize = 0;
    proof {
        assert(names@.entries.take(0) =~= Seq::<CreditEntryView>::empty());
        assert(r@ =~= spec_pre_warm_ids(names@.entries.take(0)));
    }
    while i < n
        invariant
            n == names.entries.len(),
            i <= n,
            r@ == spec_pre_warm_ids(names@.entries.take(i as int)),
        decreases n - i,
    {
        proof {
            assert(names@.entries[i as int] == names.entries@[i as int]@);
            assert(names@.entries.take(i as int + 1).drop_last() =~= names@.entries.take(i as int));
            assert(names@.entries.take(i as int + 1).last() == names@.entries[i as int]);
        }
        match parse_u64(names.entries[i].credit_id.as_str()) {
            Some(id) => {
                r.push(id);
            },
            None => {},
        }
        proof {
            assert(r@ =~= spec_pre_warm_ids(names@.entries.take(i as int + 1)));
        }
        i += 1;
    }
    proof {
        assert(names@.entries.take(n as int) =~= names@.entries);
    }
    r
}

/// Single-flight: once a refresh has begun, every further begin attempt
/// is refused and leaves the whole state untouched, until the in-flight
/// refresh completes. So at most one refresh performs the I/O phase at a
/// time, and all coalesced callers return without side effects.
pub proof fn lemma_single_flight(s: SpriteCollab)
    requires
        begin_starts(s),
    ensures
        !begin_starts(begin_state(s)),
        begin_state(begin_state(s)) == begin_state(s),
{
}

/// A refresh attempt always ends `Ready`, whether its I/O phase
/// succeeded or failed: a failed refresh can never wedge the system in
/// `Refreshing`.
pub proof fn lemma_refresh_ends_ready(s: SpriteCollab, outcome: Option<SpriteCollabData>)
    ensures
        complete_state(s, outcome).state == State::Ready,
{
}

/// A failed refresh never changes the published snapshot.
pub proof fn lemma_failed_refresh_keeps_snapshot(s: SpriteCollab)
    ensures
        complete_state(s, None).current_data == s.current_data,
{
}

/// The cache store is flushed exactly when a successful refresh
/// produced a snapshot that differs from the prior one: never on
/// failure, never on a no-change refresh.
pub proof fn lemma_flush_iff_changed(s: SpriteCollab, outcome: Option<SpriteCollabData>)
    ensures
        complete_flushes(s, outcome) <==> (outcome matches Some(d) && d@ != s.current_data@),
        outcome is None ==> !complete_flushes(s, outcome),
        (outcome matches Some(d) && d@ == s.current_data@) ==> !complete_flushes(s, outcome),
{
}

} // verus!
