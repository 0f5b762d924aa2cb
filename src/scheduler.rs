//! Running a batch through the transfers with a bound on how many are in
//! flight at once, and the summary of the outcomes.
use crate::transfer::TransferOutcome;
use vstd::prelude::*;

verus! {

/// How many of the first `n` projects have not finished.
pub open spec fn unfinished(done: Seq<bool>, n: int) -> nat
    decreases n,
{
    if n <= 0 {
        0
    } else if done[n - 1] {
        unfinished(done, n - 1)
    } else {
        unfinished(done, n - 1) + 1
    }
}

proof fn lemma_unfinished_mark(done: Seq<bool>, n: int, i: int)
    requires
        0 <= i < n <= done.len(),
        !done[i],
    ensures
        unfinished(done.update(i, true), n) + 1 == unfinished(done, n),
    decreases n,
{
    if n - 1 != i {
        lemma_unfinished_mark(done, n - 1, i);
    } else {
        lemma_unfinished_same(done, done.update(i, true), n - 1);
    }
}

proof fn lemma_unfinished_same(a: Seq<bool>, b: Seq<bool>, n: int)
    requires
        0 <= n <= a.len(),
        n <= b.len(),
        forall|k: int| 0 <= k < n ==> a[k] == b[k],
    ensures
        unfinished(a, n) == unfinished(b, n),
    decreases n,
{
    if n > 0 {
        lemma_unfinished_same(a, b, n - 1);
    }
}

/// Hands out the projects of a batch, in order, to at most `limit`
/// transfers at a time. The projects are numbered from 0; each one is
/// started once and finished once.
pub struct Scheduler {
    pub limit: usize,
    pub total: usize,
    /// Projects `0 .. started` have been started.
    pub started: usize,
    /// How many started projects have not finished.
    pub active: usize,
    /// Which projects have finished.
    pub done: Vec<bool>,
    /// No new transfer may start.
    pub stopped: bool,
    /// No more projects will join the batch.
    pub listing_done: bool,
}

impl Scheduler {
    pub open spec fn wf(&self) -> bool {
        &&& self.active <= self.limit
        &&& self.started <= self.total
        &&& self.done@.len() == self.total
        &&& self.active == unfinished(self.done@, self.started as int)
        &&& forall|k: int| self.started <= k < self.total ==> !#[trigger] self.done@[k]
    }

    pub open spec fn complete(&self) -> bool {
        self.active == 0 && (self.stopped || (self.listing_done && self.started == self.total))
    }

    pub fn new(total: usize, limit: usize) -> (r: Self)
        ensures
            r.wf(),
            r.limit == limit,
            r.total == total,
            r.started == 0,
            r.active == 0,
            !r.stopped,
            r.listing_done,
    {
        let mut done: Vec<bool> = Vec::new();
        let mut i: usize = 0;
        while i < total
            invariant
                i <= total,
                done@.len() == i,
                forall|k: int| 0 <= k < i ==> !#[trigger] done@[k],
            decreases total - i,
        {
            done.push(false);
            i = i + 1;
        }
        Scheduler { limit, total, started: 0, active: 0, done, stopped: false, listing_done: true }
    }

    /// The next project to start, where a slot is free, projects remain and
    /// the run has not been stopped.
    pub fn try_start(&mut self) -> (r: Option<usize>)
        requires
            old(self).wf(),
        ensures
            final(self).wf(),
            final(self).listing_done == old(self).listing_done,
            final(self).limit == old(self).limit,
            final(self).total == old(self).total,
            final(self).stopped == old(self).stopped,
            final(self).done == old(self).done,
            (!old(self).stopped && old(self).active < old(self).limit && old(self).started < old(
                self,
            ).total) ==> r == Some(old(self).started) && final(self).started == old(self).started
                + 1 && final(self).active == old(self).active + 1,
            !(!old(self).stopped && old(self).active < old(self).limit && old(self).started < old(
                self,
            ).total) ==> r is None && *final(self) == *old(self),
    {
        if !self.stopped && self.active < self.limit && self.started < self.total {
            let i = self.started;
            self.started = i + 1;
            self.active = self.active + 1;
            Some(i)
        } else {
            None
        }
    }

    /// Records that project `i` finished. A project that was not started, or
    /// has finished already, is refused and nothing changes.
    pub fn finish(&mut self, i: usize) -> (r: bool)
        requires
            old(self).wf(),
        ensures
            final(self).wf(),
            final(self).listing_done == old(self).listing_done,
            final(self).limit == old(self).limit,
            final(self).total == old(self).total,
            final(self).started == old(self).started,
            final(self).stopped == old(self).stopped,
            r == (i < old(self).started && !old(self).done@[i as int]),
            r ==> final(self).active + 1 == old(self).active && final(self).done@ == old(
                self,
            ).done@.update(i as int, true),
            !r ==> *final(self) == *old(self),
    {
        if i < self.started && !self.done[i] {
            proof {
                lemma_unfinished_mark(self.done@, self.started as int, i as int);
            }
            self.done.set(i, true);
            self.active = self.active - 1;
            true
        } else {
            false
        }
    }

    /// Refuses every later start; transfers in flight go on to finish.
    pub fn stop(&mut self)
        requires
            old(self).wf(),
        ensures
            final(self).wf(),
            final(self).listing_done == old(self).listing_done,
            final(self).stopped,
            final(self).limit == old(self).limit,
            final(self).total == old(self).total,
            final(self).started == old(self).started,
            final(self).active == old(self).active,
            final(self).done == old(self).done,
    {
        self.stopped = true;
    }

    /// Whether the run is over: nothing in flight and nothing more to start.
    pub fn is_complete(&self) -> (r: bool)
        ensures
            r == self.complete(),
    {
        self.active == 0 && (self.stopped || (self.listing_done && self.started == self.total))
    }

    /// A scheduler for a batch whose projects join it while it runs.
    pub fn streaming(limit: usize) -> (r: Self)
        ensures
            r.wf(),
            r.limit == limit,
            r.total == 0,
            r.started == 0,
            r.active == 0,
            !r.stopped,
            !r.listing_done,
    {
        Scheduler {
            limit,
            total: 0,
            started: 0,
            active: 0,
            done: Vec::new(),
            stopped: false,
            listing_done: false,
        }
    }

    /// Adds one project to the batch and returns its number; refused, with
    /// nothing changed, once the listing is over or no number is left.
    pub fn add(&mut self) -> (r: Option<usize>)
        requires
            old(self).wf(),
        ensures
            final(self).wf(),
            final(self).limit == old(self).limit,
            final(self).started == old(self).started,
            final(self).active == old(self).active,
            final(self).stopped == old(self).stopped,
            final(self).listing_done == old(self).listing_done,
            (!old(self).listing_done && old(self).total < usize::MAX) ==> r == Some(old(self).total)
                && final(self).total == old(self).total + 1 && final(self).done@ == old(
                self,
            ).done@.push(false),
            !(!old(self).listing_done && old(self).total < usize::MAX) ==> r is None && *final(self)
                == *old(self),
    {
        if !self.listing_done && self.total < usize::MAX {
            let i = self.total;
            proof {
                lemma_unfinished_same(self.done@, self.done@.push(false), self.started as int);
            }
            self.done.push(false);
            self.total = i + 1;
            Some(i)
        } else {
            None
        }
    }

    /// Records that no more projects will join the batch.
    pub fn end_listing(&mut self)
        requires
            old(self).wf(),
        ensures
            final(self).wf(),
            final(self).listing_done,
            final(self).limit == old(self).limit,
            final(self).total == old(self).total,
            final(self).started == old(self).started,
            final(self).active == old(self).active,
            final(self).stopped == old(self).stopped,
            final(self).done == old(self).done,
    {
        self.listing_done = true;
    }
}

/// In every state that the scheduler can reach, no more transfers are in
/// flight than its limit allows.
pub proof fn lemma_in_flight_within_limit(s: Scheduler)
    requires
        s.wf(),
    ensures
        s.active <= s.limit,
        s.active <= s.started,
{
    lemma_unfinished_bound(s.done@, s.started as int);
}

proof fn lemma_unfinished_bound(done: Seq<bool>, n: int)
    requires
        0 <= n,
    ensures
        unfinished(done, n) <= n,
    decreases n,
{
    if n > 0 {
        lemma_unfinished_bound(done, n - 1);
    }
}

proof fn lemma_none_unfinished(done: Seq<bool>, n: int)
    requires
        0 <= n <= done.len(),
        unfinished(done, n) == 0,
    ensures
        forall|k: int| 0 <= k < n ==> #[trigger] done[k],
    decreases n,
{
    if n > 0 {
        lemma_none_unfinished(done, n - 1);
    }
}

/// A run that completes without being stopped has finished every project
/// of the batch, each of them once.
pub proof fn lemma_complete_run_finishes_every_project(s: Scheduler)
    requires
        s.wf(),
        s.complete(),
        !s.stopped,
    ensures
        forall|k: int| 0 <= k < s.total ==> #[trigger] s.done@[k],
{
    lemma_none_unfinished(s.done@, s.started as int);
}

} // verus!
