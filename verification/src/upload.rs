//! The object-store upload retry that follows a finished download: up to ten
//! attempts, then the registry entry is removed whatever the outcome.

use vstd::prelude::*;

verus! {

/// How many upload attempts are made before giving up.
pub const UPLOAD_ATTEMPTS: u64 = 10;

/// What the upload driver does after one attempt's outcome: try again with
/// fresh credentials, or remove the registry entry — after a success, or with
/// the failure logged once the attempts are exhausted.
#[derive(Clone, Copy, Debug, PartialEq, Eq, Structural)]
pub enum RetryAction {
    RetryAgain,
    FinishSuccess,
    FinishExhausted,
}

/// The state of one upload's retry loop. It is created once per download,
/// after `done` has fired; a `Finish` action is emitted exactly once per
/// lifetime, and that action is what removes the registry entry.
pub struct UploadRetry {
    pub remaining: u64,
    pub finished: bool,
}

/// How many attempts a run makes, given the outcomes each attempt would have.
pub open spec fn attempts_used(results: Seq<bool>, budget: nat) -> nat
    decreases results.len(),
{
    if budget == 0 || results.len() == 0 {
        0
    } else if results[0] {
        1
    } else {
        1 + attempts_used(results.skip(1), (budget - 1) as nat)
    }
}

/// Whether a run ends in a successful upload.
pub open spec fn run_success(results: Seq<bool>, budget: nat) -> bool
    decreases results.len(),
{
    if budget == 0 || results.len() == 0 {
        false
    } else if results[0] {
        true
    } else {
        run_success(results.skip(1), (budget - 1) as nat)
    }
}

/// Whether a run reaches a `Finish` action — the point at which the registry
/// entry is removed.
pub open spec fn run_finishes(results: Seq<bool>, budget: nat) -> bool
    decreases results.len(),
{
    if budget == 0 || results.len() == 0 {
        false
    } else if results[0] || budget == 1 {
        true
    } else {
        run_finishes(results.skip(1), (budget - 1) as nat)
    }
}

impl UploadRetry {
    pub open spec fn wf(self) -> bool {
        self.remaining <= UPLOAD_ATTEMPTS
    }

    /// A fresh retry loop with the full attempt budget.
    pub fn new() -> (r: UploadRetry)
        ensures
            r.wf(),
            r.remaining == UPLOAD_ATTEMPTS,
            !r.finished,
    {
        UploadRetry { remaining: UPLOAD_ATTEMPTS, finished: false }
    }

    /// Feeds one attempt's outcome to the driver. A success finishes at once;
    /// a failure retries until the budget is exhausted. The returned action
    /// is `Finish…` exactly when the machine transitions to `finished`, and a
    /// finished machine takes no further step — so the registry entry is
    /// removed exactly once per lifetime.
    pub fn on_result(&mut self, ok: bool) -> (a: RetryAction)
        requires
            old(self).wf(),
            !old(self).finished,
            old(self).remaining >= 1,
        ensures
            final(self).wf(),
            final(self).finished == (a != RetryAction::RetryAgain),
            ok ==> a == RetryAction::FinishSuccess,
            !ok && old(self).remaining == 1 ==> a == RetryAction::FinishExhausted,
            !ok && old(self).remaining > 1 ==> a == RetryAction::RetryAgain
                && final(self).remaining == old(self).remaining - 1,
            a == RetryAction::RetryAgain ==> final(self).remaining >= 1,
    {
        if ok {
            self.finished = true;
            RetryAction::FinishSuccess
        } else if self.remaining == 1 {
            self.finished = true;
            RetryAction::FinishExhausted
        } else {
            self.remaining = self.remaining - 1;
            RetryAction::RetryAgain
        }
    }
}

/// Drives one upload's retry loop against the outcomes each attempt would
/// have, of which only the first `r.0` are ever made: the executable form of
/// the run that `attempts_used` and `run_success` describe, finishing exactly
/// once.
pub fn drive(outcomes: &Vec<bool>) -> (r: (usize, bool))
    requires
        outcomes@.len() >= UPLOAD_ATTEMPTS,
    ensures
        r.0 == attempts_used(outcomes@, UPLOAD_ATTEMPTS as nat),
        r.1 == run_success(outcomes@, UPLOAD_ATTEMPTS as nat),
        r.0 <= UPLOAD_ATTEMPTS,
{
    let mut machine = UploadRetry::new();
    let mut i: usize = 0;
    proof {
        assert(outcomes@.skip(0) =~= outcomes@);
    }
    loop
        invariant
            machine.wf(),
            !machine.finished,
            machine.remaining >= 1,
            i + machine.remaining == UPLOAD_ATTEMPTS,
            outcomes@.len() >= UPLOAD_ATTEMPTS,
            attempts_used(outcomes@, UPLOAD_ATTEMPTS as nat) == i + attempts_used(
                outcomes@.skip(i as int),
                machine.remaining as nat,
            ),
            run_success(outcomes@, UPLOAD_ATTEMPTS as nat) == run_success(
                outcomes@.skip(i as int),
                machine.remaining as nat,
            ),
        decreases machine.remaining,
    {
        let ok = outcomes[i];
        let ghost rest = outcomes@.skip(i as int);
        proof {
            assert(rest[0] == outcomes@[i as int]);
            assert(rest.skip(1) =~= outcomes@.skip(i + 1));
        }
        match machine.on_result(ok) {
            RetryAction::RetryAgain => {
                i = i + 1;
            },
            RetryAction::FinishSuccess => {
                return (i + 1, true);
            },
            RetryAction::FinishExhausted => {
                proof {
                    assert(attempts_used(rest.skip(1), 0) == 0);
                    assert(!run_success(rest.skip(1), 0));
                }
                return (i + 1, false);
            },
        }
    }
}

/// The retry loop is bounded: no run makes more attempts than its budget.
pub proof fn lemma_attempts_bounded(results: Seq<bool>, budget: nat)
    ensures
        attempts_used(results, budget) <= budget,
    decreases results.len(),
{
    if budget > 0 && results.len() > 0 && !results[0] {
        lemma_attempts_bounded(results.skip(1), (budget - 1) as nat);
    }
}

/// The registry entry is always removed: as long as an outcome arrives for
/// every attempt the budget allows, the run reaches its single `Finish`
/// action, success or not.
pub proof fn lemma_entry_always_removed(results: Seq<bool>, budget: nat)
    requires
        results.len() >= budget,
        budget >= 1,
    ensures
        run_finishes(results, budget),
    decreases results.len(),
{
    if !results[0] && budget > 1 {
        lemma_entry_always_removed(results.skip(1), (budget - 1) as nat);
    }
}

/// An upload that fails on every attempt still uses the whole budget, ends
/// unsuccessfully, and still reaches the `Finish` action that removes the
/// registry entry — clients were already served from the in-memory buffer.
pub proof fn lemma_exhausted_still_removed(results: Seq<bool>, budget: nat)
    requires
        budget >= 1,
        results.len() >= budget,
        forall|i: int| 0 <= i < results.len() ==> !results[i],
    ensures
        run_finishes(results, budget),
        !run_success(results, budget),
        attempts_used(results, budget) == budget,
    decreases results.len(),
{
    assert(!results[0]);
    if budget > 1 {
        assert forall|i: int| 0 <= i < results.skip(1).len() implies !results.skip(1)[i] by {
            assert(results.skip(1)[i] == results[i + 1]);
        }
        lemma_exhausted_still_removed(results.skip(1), (budget - 1) as nat);
    } else {
        assert(run_success(results.skip(1), 0) == false);
        assert(attempts_used(results.skip(1), 0) == 0);
    }
}

} // verus!
