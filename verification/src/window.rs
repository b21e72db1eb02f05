//! The rolling window of hit timestamps and the interval estimator.
//!
//! `RegisteredHits` owns a bounded, insertion-ordered buffer of hit
//! timestamps (monotonic nanosecond counts supplied by the caller). Each
//! recorded hit is appended at the tail; once the buffer holds more than
//! `sample_size` timestamps the oldest one is evicted from the head, a
//! strict first-in-first-out policy.

use vstd::prelude::*;
use std::collections::VecDeque;

verus! {

/// One recording step on the model: the timestamp joins the tail, and if
/// the window then exceeds its capacity the head (the oldest timestamp)
/// leaves.
pub open spec fn record_seq(w: Seq<u64>, cap: int, t: u64) -> Seq<u64> {
    let grown = w.push(t);
    if grown.len() > cap {
        grown.drop_first()
    } else {
        grown
    }
}

/// The window left by recording every timestamp of `ts` in order into an
/// initially empty window of capacity `cap`.
pub open spec fn window_of(ts: Seq<u64>, cap: int) -> Seq<u64>
    decreases ts.len(),
{
    if ts.len() == 0 {
        Seq::empty()
    } else {
        record_seq(window_of(ts.drop_last(), cap), cap, ts.last())
    }
}

/// The mean inter-hit interval of a window: the span between the oldest
/// and the newest retained timestamp, divided by the number of intervals.
/// Absent while the window holds fewer than two samples — too few hits are
/// an absent estimate, never a zero one. A window whose newest timestamp
/// precedes its oldest (impossible under a monotonic clock) spans zero.
pub open spec fn mean_interval(w: Seq<u64>) -> Option<u64> {
    if w.len() <= 1 {
        None
    } else {
        let span: int = if w.last() >= w.first() {
            w.last() - w.first()
        } else {
            0
        };
        Some((span / (w.len() - 1)) as u64)
    }
}

/// The timestamps are sorted: no later entry is smaller.
pub open spec fn sorted(w: Seq<u64>) -> bool {
    forall|i: int, j: int| 0 <= i <= j < w.len() ==> w[i] <= w[j]
}

/// A bounded, time-ordered window of hit timestamps.
#[derive(Debug, PartialEq)]
pub struct RegisteredHits {
    hits: VecDeque<u64>,
    sample_size: usize,
}

impl RegisteredHits {
    /// The retained timestamps, oldest first.
    pub closed spec fn samples(&self) -> Seq<u64> {
        self.hits@
    }

    /// The maximum number of retained timestamps.
    pub closed spec fn capacity_spec(&self) -> int {
        self.sample_size as int
    }

    /// Well-formedness: the capacity admits at least one interval, and the
    /// buffer never holds more timestamps than the capacity.
    pub open spec fn wf(&self) -> bool {
        &&& self.capacity_spec() >= 2
        &&& self.samples().len() <= self.capacity_spec()
    }

    /// Creates an empty window, rejecting any capacity below two: a window
    /// of fewer than two samples can never yield an interval.
    pub fn new(sample_size: usize) -> (r: Result<RegisteredHits, &'static str>)
        ensures
            r is Ok <==> sample_size >= 2,
            r matches Ok(w) ==> {
                &&& w.wf()
                &&& w.samples() == Seq::<u64>::empty()
                &&& w.capacity_spec() == sample_size
            },
            r matches Err(m) ==> m@ == "sample size must be at least two."@,
    {
        if sample_size <= 1 {
            Err("sample size must be at least two.")
        } else {
            let hits: VecDeque<u64> = VecDeque::with_capacity(sample_size);
            Ok(RegisteredHits { hits, sample_size })
        }
    }

    /// Records one hit at instant `now` (a monotonic nanosecond count
    /// supplied by the caller): the timestamp is appended at the tail, and
    /// if the window then exceeds its capacity the oldest timestamp is
    /// evicted from the head. Always succeeds; the capacity never changes.
    pub fn new_hit(&mut self, now: u64)
        requires
            old(self).wf(),
        ensures
            final(self).wf(),
            final(self).samples() == record_seq(old(self).samples(), old(self).capacity_spec(), now),
            final(self).capacity_spec() == old(self).capacity_spec(),
            final(self).samples().len() <= final(self).capacity_spec(),
    {
        self.hits.push_back(now);
        if self.hits.len() > self.sample_size {
            self.hits.pop_front();
        }
        proof {
            assert(self.samples() =~= record_seq(
                old(self).samples(),
                old(self).capacity_spec(),
                now,
            ));
        }
    }

    /// Clears every retained timestamp; the capacity is unchanged. On an
    /// already-empty window this is a no-op: the window is left exactly as
    /// it was. After a reset no estimate is available until two further
    /// hits are recorded.
    pub fn reset_hits(&mut self)
        ensures
            final(self).samples() == Seq::<u64>::empty(),
            final(self).capacity_spec() == old(self).capacity_spec(),
            old(self).wf() ==> final(self).wf(),
            old(self).samples().len() == 0 ==> final(self).samples() == old(self).samples(),
            mean_interval(final(self).samples()) is None,
    {
        self.hits.clear();
        proof {
            if old(self).samples().len() == 0 {
                assert(self.samples() =~= old(self).samples());
            }
        }
    }

    /// The current estimate: the mean inter-hit interval, in nanoseconds,
    /// over the retained window — the span from the oldest to the newest
    /// timestamp divided by the number of intervals between them. Returns
    /// nothing while fewer than two samples are retained. Non-consuming:
    /// the window is left untouched, so repeated calls without a new hit
    /// return the same value.
    pub fn next(&self) -> (r: Option<u64>)
        ensures
            r == mean_interval(self.samples()),
            r is Some <==> self.samples().len() >= 2,
    {
        let n: usize = self.hits.len();
        if n <= 1 {
            None
        } else {
            let first: u64 = self.hits[0];
            let last: u64 = self.hits[n - 1];
            let span: u64 = if last >= first {
                last - first
            } else {
                0
            };
            Some(span / ((n - 1) as u64))
        }
    }

    /// How many timestamps the window currently retains.
    pub fn len(&self) -> (r: usize)
        ensures
            r == self.samples().len(),
    {
        self.hits.len()
    }

    /// Whether the window retains no timestamp.
    pub fn is_empty(&self) -> (r: bool)
        ensures
            r <==> self.samples().len() == 0,
    {
        self.hits.len() == 0
    }

    /// The configured capacity of the window.
    pub fn sample_size(&self) -> (r: usize)
        ensures
            r == self.capacity_spec(),
    {
        self.sample_size
    }

    /// The retained timestamp at position `i`, oldest first.
    pub fn hit_at(&self, i: usize) -> (r: u64)
        requires
            i < self.samples().len(),
        ensures
            r == self.samples()[i as int],
    {
        self.hits[i]
    }

    /// How many timestamps the window can retain: its configured capacity.
    pub fn capacity(&self) -> (r: usize)
        ensures
            r == self.capacity_spec(),
    {
        self.sample_size
    }
}

/// First-in-first-out eviction: recording the timestamps of `ts`, in
/// order, into an empty window of capacity `cap` retains exactly the last
/// `cap` of them — all of them while they number at most `cap` — in their
/// original order.
pub proof fn lemma_window_fifo(ts: Seq<u64>, cap: int)
    requires
        1 <= cap,
    ensures
        ts.len() <= cap ==> window_of(ts, cap) == ts,
        ts.len() > cap ==> window_of(ts, cap) == ts.subrange(ts.len() - cap, ts.len() as int),
    decreases ts.len(),
{
    if ts.len() == 0 {
        assert(window_of(ts, cap) =~= ts);
    } else {
        lemma_window_fifo(ts.drop_last(), cap);
        if ts.len() <= cap {
            assert(window_of(ts, cap) =~= ts);
        } else {
            assert(window_of(ts, cap) =~= ts.subrange(ts.len() - cap, ts.len() as int));
        }
    }
}

/// Capacity invariant: however many hits are recorded into an empty
/// window of capacity `cap`, at most `cap` timestamps are retained after
/// every call.
pub proof fn lemma_window_capacity(ts: Seq<u64>, cap: int)
    requires
        1 <= cap,
    ensures
        window_of(ts, cap).len() <= cap,
{
    lemma_window_fifo(ts, cap);
}

/// Monotonic order preserved: recording strictly increasing timestamps,
/// in order, leaves the window sorted ascending — and since this holds of
/// every prefix of the timestamps, it holds at every observation point.
pub proof fn lemma_window_sorted(ts: Seq<u64>, cap: int)
    requires
        1 <= cap,
        forall|i: int, j: int| 0 <= i < j < ts.len() ==> ts[i] < ts[j],
    ensures
        sorted(window_of(ts, cap)),
{
    lemma_window_fifo(ts, cap);
}

} // verus!
