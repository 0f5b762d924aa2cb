//! The result of a run: every project with its outcome, and the counts.
use crate::transfer::{Failure, SkipReason, TransferOutcome};
use vstd::prelude::*;

verus! {

pub open spec fn is_transferred(o: TransferOutcome) -> bool {
    o is Transferred
}

pub open spec fn is_skipped(o: TransferOutcome) -> bool {
    o is Skipped
}

pub open spec fn is_failed(o: TransferOutcome) -> bool {
    o is Failed
}

/// How many outcomes of `s` are transferred (`kind` 0), skipped (1) or
/// failed (2).
pub open spec fn count_kind(s: Seq<(String, TransferOutcome)>, kind: int) -> nat
    decreases s.len(),
{
    if s.len() == 0 {
        0
    } else {
        let o = s.last().1;
        let hit = (kind == 0 && is_transferred(o)) || (kind == 1 && is_skipped(o)) || (kind == 2
            && is_failed(o));
        count_kind(s.drop_last(), kind) + if hit {
            1nat
        } else {
            0nat
        }
    }
}

proof fn lemma_count_bound(s: Seq<(String, TransferOutcome)>, kind: int)
    ensures
        count_kind(s, kind) <= s.len(),
    decreases s.len(),
{
    if s.len() > 0 {
        lemma_count_bound(s.drop_last(), kind);
    }
}

/// The outcome of every project that a run attempted, with the counts.
#[derive(Debug)]
pub struct RunSummary {
    pub attempted: usize,
    pub transferred: usize,
    pub skipped: usize,
    pub failed: usize,
    /// Each project's path with its outcome, in the order they finished.
    pub outcomes: Vec<(String, TransferOutcome)>,
}

impl RunSummary {
    /// The summary of `outcomes`.
    pub fn new(outcomes: Vec<(String, TransferOutcome)>) -> (r: RunSummary)
        ensures
            r.outcomes@ == outcomes@,
            r.attempted == outcomes@.len(),
            r.transferred == count_kind(outcomes@, 0),
            r.skipped == count_kind(outcomes@, 1),
            r.failed == count_kind(outcomes@, 2),
    {
        let mut t: usize = 0;
        let mut s: usize = 0;
        let mut f: usize = 0;
        let mut i: usize = 0;
        while i < outcomes.len()
            invariant
                i <= outcomes@.len(),
                t == count_kind(outcomes@.take(i as int), 0),
                s == count_kind(outcomes@.take(i as int), 1),
                f == count_kind(outcomes@.take(i as int), 2),
            decreases outcomes@.len() - i,
        {
            let ghost pre = outcomes@.take(i as int);
            let ghost next = outcomes@.take(i + 1);
            assert(next.drop_last() =~= pre);
            proof {
                lemma_count_bound(pre, 0);
                lemma_count_bound(pre, 1);
                lemma_count_bound(pre, 2);
            }
            match &outcomes[i].1 {
                TransferOutcome::Transferred => t = t + 1,
                TransferOutcome::Skipped(_) => s = s + 1,
                TransferOutcome::Failed(_) => f = f + 1,
            }
            i = i + 1;
        }
        assert(outcomes@.take(i as int) =~= outcomes@);
        RunSummary { attempted: outcomes.len(), transferred: t, skipped: s, failed: f, outcomes }
    }

    /// Whether every project was transferred or skipped.
    pub fn succeeded(&self) -> (r: bool)
        ensures
            r == (self.failed == 0),
    {
        self.failed == 0
    }

    /// The process exit status for this run: zero exactly when nothing
    /// failed.
    pub fn exit_code(&self) -> (r: i32)
        ensures
            r == 0 <==> self.failed == 0,
            r == 0 || r == 1,
    {
        if self.failed == 0 {
            0
        } else {
            1
        }
    }
}

impl SkipReason {
    pub fn describe(&self) -> (r: String)
        ensures
            r@ == "dry run"@,
    {
        proof {
            reveal_strlit("dry run");
        }
        match self {
            SkipReason::DryRun => "dry run".to_owned(),
        }
    }
}

impl Failure {
    /// The reason for the failure, as a line for the run report.
    pub fn describe(&self) -> (r: String)
        ensures
            self is NameCollision ==> r@ == "name collision with an earlier project"@,
            self matches Failure::FetchFailed(e) ==> r@ == "fetch failed: "@ + e@,
            self matches Failure::PushFailed(e) ==> r@ == "fetched, but push failed: "@ + e@,
            self matches Failure::GroupCreationFailed(e) ==> r@ == "group creation refused: "@ + e@,
    {
        proof {
            reveal_strlit("name collision with an earlier project");
            reveal_strlit("fetch failed: ");
            reveal_strlit("fetched, but push failed: ");
            reveal_strlit("group creation refused: ");
        }
        match self {
            Failure::NameCollision => "name collision with an earlier project".to_owned(),
            Failure::FetchFailed(e) => {
                let mut r = "fetch failed: ".to_owned();
                r.append(e.as_str());
                r
            },
            Failure::PushFailed(e) => {
                let mut r = "fetched, but push failed: ".to_owned();
                r.append(e.as_str());
                r
            },
            Failure::GroupCreationFailed(e) => {
                let mut r = "group creation refused: ".to_owned();
                r.append(e.as_str());
                r
            },
        }
    }
}

} // verus!
