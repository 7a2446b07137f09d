//! The retry policy of the tests that `flaky_test` generates: the wrapped test
//! runs up to three times, stops at its first pass, and its failure is
//! reported only when every run failed.

use vstd::prelude::*;

verus! {

/// How many times a flaky test is run before its failure is reported.
pub const FLAKY_ATTEMPTS: u32 = 3;

/// What the retry loop does after one run of the wrapped test.
#[derive(PartialEq, Eq, Structural, Clone, Copy, Debug)]
pub enum RetryAction {
    /// The run passed: the generated test returns.
    Passed,
    /// The run failed and attempts are left: the test runs again.
    Retry,
    /// The last attempt failed: its panic is resumed.
    Failed,
}

/// The decision taken after the run with index `attempt` (counted from 0).
pub open spec fn step(attempt: nat, passed: bool) -> RetryAction {
    if passed {
        RetryAction::Passed
    } else if attempt + 1 >= FLAKY_ATTEMPTS {
        RetryAction::Failed
    } else {
        RetryAction::Retry
    }
}

/// The outcome of the retry loop when the run with index `i` passes exactly
/// when `results[i]` holds, starting at run `attempt`: the final action and
/// the number of runs made in all.
pub open spec fn drive(results: Seq<bool>, attempt: nat) -> (RetryAction, nat)
    decreases FLAKY_ATTEMPTS - attempt,
{
    let act = step(attempt, results[attempt as int]);
    if act == RetryAction::Retry && attempt + 1 < FLAKY_ATTEMPTS {
        drive(results, attempt + 1)
    } else {
        (act, attempt + 1)
    }
}

/// The outcome of a whole flaky run, from its first attempt.
pub open spec fn flaky_outcome(results: Seq<bool>) -> (RetryAction, nat) {
    drive(results, 0)
}

/// The decision after the run with index `attempt` of the wrapped test.
pub fn next_action(attempt: u32, passed: bool) -> (act: RetryAction)
    requires
        attempt < FLAKY_ATTEMPTS,
    ensures
        act == step(attempt as nat, passed),
{
    if passed {
        RetryAction::Passed
    } else if attempt + 1 >= FLAKY_ATTEMPTS {
        RetryAction::Failed
    } else {
        RetryAction::Retry
    }
}

/// The state of one flaky run: how many runs of the wrapped test have been
/// recorded, and whether the run is over.
pub struct FlakyRun {
    runs: u32,
    finished: bool,
}

impl FlakyRun {
    /// The number of runs recorded so far.
    pub closed spec fn runs(self) -> nat {
        self.runs as nat
    }

    /// Whether a final action (pass or failure) has been given.
    pub closed spec fn finished(self) -> bool {
        self.finished
    }

    /// Runs are recorded only while attempts are left.
    #[verifier::type_invariant]
    spec fn inv(self) -> bool {
        &&& self.runs <= FLAKY_ATTEMPTS
        &&& !self.finished ==> self.runs < FLAKY_ATTEMPTS
    }

    /// A run where nothing has been tried yet.
    pub fn new() -> (r: FlakyRun)
        ensures
            r.runs() == 0,
            !r.finished(),
    {
        FlakyRun { runs: 0, finished: false }
    }

    /// The index of the next run of the wrapped test; while the run is open
    /// it is below the number of attempts.
    pub fn next_attempt(&self) -> (i: u32)
        ensures
            i == self.runs(),
            i <= FLAKY_ATTEMPTS,
            !self.finished() ==> i < FLAKY_ATTEMPTS,
    {
        proof {
            use_type_invariant(self);
        }
        self.runs
    }

    /// Whether a final action has been given.
    pub fn is_finished(&self) -> (b: bool)
        ensures
            b == self.finished(),
    {
        self.finished
    }

    /// Records the outcome of the next run and says what to do next.
    pub fn record(&mut self, passed: bool) -> (act: RetryAction)
        requires
            !old(self).finished(),
        ensures
            act == step(old(self).runs(), passed),
            final(self).runs() == old(self).runs() + 1,
            final(self).finished() == (act != RetryAction::Retry),
            final(self).runs() <= FLAKY_ATTEMPTS,
    {
        proof {
            use_type_invariant(&*self);
        }
        let act = next_action(self.runs, passed);
        self.finished = act != RetryAction::Retry;
        self.runs = self.runs + 1;
        act
    }
}

/// Replays the retry loop over the outcomes of the runs of a wrapped test
/// (`results[i]` is whether run `i` passed) and returns the final action and
/// the number of runs made.
pub fn flaky_verdict(results: &[bool]) -> (v: (RetryAction, u32))
    requires
        results@.len() >= FLAKY_ATTEMPTS,
    ensures
        v.0 == flaky_outcome(results@).0,
        v.1 == flaky_outcome(results@).1,
{
    let mut run = FlakyRun::new();
    let mut act = RetryAction::Retry;
    while !run.is_finished()
        invariant
            run.runs() <= FLAKY_ATTEMPTS,
            results@.len() >= FLAKY_ATTEMPTS,
            run.finished() ==> act != RetryAction::Retry,
            run.finished() ==> (act, run.runs()) == flaky_outcome(results@),
            !run.finished() ==> drive(results@, run.runs()) == flaky_outcome(results@),
        decreases FLAKY_ATTEMPTS - run.runs(),
    {
        let i = run.next_attempt();
        act = run.record(results[i as usize]);
    }
    (act, run.next_attempt())
}

/// A flaky run ends in failure exactly when all of its attempts fail, and it
/// ends in a pass otherwise; it never ends while asking for another run.
pub proof fn lemma_fails_iff_all_attempts_fail(results: Seq<bool>)
    requires
        results.len() >= FLAKY_ATTEMPTS,
    ensures
        flaky_outcome(results).0 == RetryAction::Failed <==> (forall|i: int|
            0 <= i < FLAKY_ATTEMPTS ==> !#[trigger] results[i]),
        flaky_outcome(results).0 != RetryAction::Retry,
{
    reveal_with_fuel(drive, 4);
}

/// A flaky run stops at its first passing attempt, and it makes every
/// attempt when none passes.
pub proof fn lemma_stops_at_first_pass(results: Seq<bool>, k: int)
    requires
        results.len() >= FLAKY_ATTEMPTS,
        0 <= k < FLAKY_ATTEMPTS,
        results[k],
        forall|i: int| 0 <= i < k ==> !#[trigger] results[i],
    ensures
        flaky_outcome(results) == (RetryAction::Passed, (k + 1) as nat),
{
    reveal_with_fuel(drive, 4);
}

/// When every attempt fails, the wrapped test runs exactly three times.
pub proof fn lemma_all_attempts_run_on_failure(results: Seq<bool>)
    requires
        results.len() >= FLAKY_ATTEMPTS,
        forall|i: int| 0 <= i < FLAKY_ATTEMPTS ==> !#[trigger] results[i],
    ensures
        flaky_outcome(results) == (RetryAction::Failed, FLAKY_ATTEMPTS as nat),
{
    reveal_with_fuel(drive, 4);
}

} // verus!
