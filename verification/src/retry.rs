//! One firing of a task: the attempt/retry state machine.
//!
//! A firing makes attempt after attempt until one succeeds or the retry
//! budget is spent: a budget of `R` allows `R + 1` attempts in all. After
//! a failed attempt with budget remaining the runner waits a fixed
//! backoff before the next attempt. The first success ends the firing at
//! once and is the only outcome that emits a result; when every attempt
//! fails, the firing ends without emitting one.

use vstd::prelude::*;

verus! {

/// The fixed wait between a failed attempt and the next one.
pub const RETRY_BACKOFF_MILLIS: u64 = 5000;

/// The position of the first successful attempt at or after `i`, or the
/// length of `outcomes` when every attempt from `i` on fails.
pub open spec fn first_success_from(outcomes: Seq<bool>, i: int) -> int
    decreases outcomes.len() - i,
{
    if 0 <= i < outcomes.len() && !outcomes[i] {
        first_success_from(outcomes, i + 1)
    } else {
        i
    }
}

/// The position of the first successful attempt, or the length of
/// `outcomes` when every attempt fails.
pub open spec fn first_success(outcomes: Seq<bool>) -> int {
    first_success_from(outcomes, 0)
}

/// How many attempts a firing with this retry budget makes when attempt
/// `k` would have the outcome `outcomes[k]`: up to and including the first
/// success, or `budget + 1` when no attempt within budget succeeds.
pub open spec fn spec_attempts(budget: nat, outcomes: Seq<bool>) -> int {
    if first_success(outcomes) <= budget {
        first_success(outcomes) + 1
    } else {
        budget + 1 as int
    }
}

/// Whether such a firing ends in success (and so emits a result).
pub open spec fn spec_succeeds(budget: nat, outcomes: Seq<bool>) -> bool {
    first_success(outcomes) <= budget
}

/// Where a firing stands.
#[derive(Debug, Clone, Copy, PartialEq, Eq, Structural)]
pub enum FiringPhase {
    /// The next attempt may still run.
    Pending,
    /// An attempt succeeded; no further attempt runs.
    Succeeded,
    /// The budget is spent with no success; no further attempt runs.
    Exhausted,
}

/// What the runner must do right after an attempt's outcome is recorded.
#[derive(Debug, Clone, Copy, PartialEq, Eq, Structural)]
pub enum AttemptDirective {
    /// The attempt succeeded: emit one success result, run nothing more.
    EmitSuccess,
    /// The attempt failed with budget remaining: wait, then attempt again.
    Backoff { wait_millis: u64 },
    /// The attempt failed and the budget is spent: emit nothing, stop.
    GiveUp,
}

/// The state of one firing.
#[derive(Debug, Clone, Copy, PartialEq, Eq, Structural)]
pub struct FiringState {
    pub budget: u8,
    pub attempts: u16,
    pub phase: FiringPhase,
}

impl FiringState {
    /// The attempt counter never passes the budget while pending, and
    /// stands at exactly `budget + 1` once the firing is exhausted.
    pub open spec fn wf(&self) -> bool {
        &&& self.attempts <= self.budget + 1
        &&& (self.phase is Pending ==> self.attempts <= self.budget)
        &&& (self.phase is Exhausted ==> self.attempts == self.budget + 1)
        &&& (self.phase is Succeeded ==> self.attempts >= 1)
    }

    /// A fresh firing: no attempt made yet.
    pub fn start(budget: u8) -> (s: FiringState)
        ensures
            s.wf(),
            s.budget == budget,
            s.attempts == 0,
            s.phase is Pending,
    {
        FiringState { budget, attempts: 0, phase: FiringPhase::Pending }
    }

    /// Record the outcome of the attempt that just ran and say what to do
    /// next: emit on success, back off a fixed wait when budget remains,
    /// give up otherwise. Exactly one attempt is accounted per call.
    pub fn record_outcome(&mut self, success: bool) -> (d: AttemptDirective)
        requires
            old(self).wf(),
            old(self).phase is Pending,
        ensures
            final(self).wf(),
            final(self).budget == old(self).budget,
            final(self).attempts == old(self).attempts + 1,
            success ==> final(self).phase is Succeeded && d is EmitSuccess,
            !success && old(self).attempts < old(self).budget ==> final(self).phase is Pending && (
            d matches AttemptDirective::Backoff { wait_millis } && wait_millis
                == RETRY_BACKOFF_MILLIS),
            !success && old(self).attempts == old(self).budget ==> final(self).phase is Exhausted
                && d is GiveUp,
    {
        self.attempts = self.attempts + 1;
        if success {
            self.phase = FiringPhase::Succeeded;
            AttemptDirective::EmitSuccess
        } else if self.attempts <= self.budget as u16 {
            AttemptDirective::Backoff { wait_millis: RETRY_BACKOFF_MILLIS }
        } else {
            self.phase = FiringPhase::Exhausted;
            AttemptDirective::GiveUp
        }
    }
}

/// Drive one whole firing against a script of attempt outcomes: attempt
/// `k` succeeds exactly when `outcomes[k]`. Returns how many attempts ran
/// and whether the firing ended in success.
pub fn run_firing(budget: u8, outcomes: &Vec<bool>) -> (r: (u16, bool))
    requires
        outcomes@.len() == budget as int + 1,
    ensures
        r.0 == spec_attempts(budget as nat, outcomes@),
        r.1 == spec_succeeds(budget as nat, outcomes@),
{
    let mut st = FiringState::start(budget);
    let mut k: usize = 0;
    while st.phase == FiringPhase::Pending
        invariant
            st.wf(),
            st.budget == budget,
            outcomes@.len() == budget as int + 1,
            st.attempts == k,
            k <= budget as int + 1,
            st.phase is Pending ==> first_success(outcomes@) == first_success_from(
                outcomes@,
                k as int,
            ),
            st.phase is Succeeded ==> 1 <= k && first_success(outcomes@) == k - 1,
            st.phase is Exhausted ==> first_success(outcomes@) > budget,
        decreases budget as int + 1 - k,
    {
        let outcome = outcomes[k];
        st.record_outcome(outcome);
        proof {
            if outcome {
                assert(first_success_from(outcomes@, k as int) == k as int);
            } else {
                assert(first_success_from(outcomes@, k as int) == first_success_from(
                    outcomes@,
                    k + 1,
                ));
                if k as int == budget as int {
                    assert(first_success_from(outcomes@, k + 1) == k + 1);
                }
            }
        }
        k = k + 1;
    }
    let succeeded = st.phase == FiringPhase::Succeeded;
    (st.attempts, succeeded)
}

/// Every attempt of a firing with budget `budget` fails: the firing makes
/// exactly `budget + 1` attempts and does not emit a result.
pub proof fn lemma_exhausted_firing(budget: nat, outcomes: Seq<bool>)
    requires
        outcomes.len() == budget + 1,
        forall|i: int| 0 <= i < outcomes.len() ==> !outcomes[i],
    ensures
        spec_attempts(budget, outcomes) == budget + 1,
        !spec_succeeds(budget, outcomes),
{
    lemma_first_success_position(outcomes, 0, outcomes.len() as int);
}

/// The first success comes at attempt `k` within budget: the firing makes
/// exactly `k + 1` attempts — none after the success — and emits a result.
pub proof fn lemma_success_stops_retrying(budget: nat, outcomes: Seq<bool>, k: int)
    requires
        outcomes.len() == budget + 1,
        0 <= k <= budget,
        outcomes[k],
        forall|i: int| 0 <= i < k ==> !outcomes[i],
    ensures
        spec_attempts(budget, outcomes) == k + 1,
        spec_succeeds(budget, outcomes),
{
    lemma_first_success_position(outcomes, 0, k);
}

/// When every attempt before `k` fails and `k` is a success or the end,
/// the first success stands at `k`.
proof fn lemma_first_success_position(outcomes: Seq<bool>, i: int, k: int)
    requires
        0 <= i <= k <= outcomes.len(),
        forall|j: int| i <= j < k ==> !outcomes[j],
        k == outcomes.len() || outcomes[k],
    ensures
        first_success_from(outcomes, i) == k,
    decreases k - i,
{
    if i < k {
        lemma_first_success_position(outcomes, i + 1, k);
    }
}

} // verus!
