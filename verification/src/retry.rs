//! The bounded retry utility.
//!
//! A retry run repeatedly makes an attempt; the first success ends it.  A
//! failure with budget left is reported to an observer — with the budget
//! that remains — and the attempt is repeated; a failure with the budget
//! used up is returned to the caller itself, never swallowed.  The
//! utility counts attempts and reports failures; it adds no delay or
//! scheduling of its own, so a caller that wants pacing places the delay
//! inside the attempt, and one that wants to yield between attempts does
//! so in the failure observer.

use vstd::prelude::*;

verus! {

/// The attempt budget of one retry run.
pub struct RetryState {
    /// How many more failures may be retried.
    pub remaining: usize,
}

/// What a retry run does after one attempt.
#[derive(Debug, PartialEq, Eq)]
pub enum RetryDecision<T, E> {
    /// The attempt succeeded: the run is over.
    Done(T),
    /// The attempt failed and the budget is used up: the run is over, and
    /// this very error is the caller's.
    GiveUp(E),
    /// The attempt failed and the budget allows a retry: report the error
    /// and the remaining budget to the observer, then try again.
    Report {
        /// The failed attempt's error.
        err: E,
        /// The budget that remains after consuming one retry.
        remaining: usize,
    },
}

impl RetryState {
    /// A fresh budget of `max_attempts` retries.
    pub fn new(max_attempts: usize) -> (s: RetryState)
        ensures
            s.remaining == max_attempts,
    {
        RetryState { remaining: max_attempts }
    }

    /// Judges one attempt's outcome: success ends the run; a failure
    /// either consumes one retry (and is reported, with the new budget)
    /// or, when the budget is already zero, ends the run with that error.
    pub fn on_outcome<T, E>(&mut self, outcome: Result<T, E>) -> (d: RetryDecision<T, E>)
        ensures
            match outcome {
                Ok(t) => d == RetryDecision::<T, E>::Done(t) && final(self).remaining == old(
                    self,
                ).remaining,
                Err(e) => if old(self).remaining == 0 {
                    d == RetryDecision::<T, E>::GiveUp(e) && final(self).remaining == 0
                } else {
                    final(self).remaining == old(self).remaining - 1 && d == (
                    RetryDecision::<T, E>::Report { err: e, remaining: final(self).remaining })
                },
            },
    {
        match outcome {
            Ok(t) => RetryDecision::Done(t),
            Err(e) => {
                if self.remaining == 0 {
                    RetryDecision::GiveUp(e)
                } else {
                    self.remaining = self.remaining - 1;
                    RetryDecision::Report { err: e, remaining: self.remaining }
                }
            },
        }
    }
}

/// The result of a retry run over a given sequence of attempt outcomes,
/// with the number of failures reported along the way; `None` when the
/// outcomes run out before the run ends.
pub open spec fn spec_retry_run<T, E>(outcomes: Seq<Result<T, E>>, budget: nat) -> Option<
    (Result<T, E>, nat),
>
    decreases outcomes.len(),
{
    if outcomes.len() == 0 {
        None
    } else {
        match outcomes[0] {
            Ok(t) => Some((Ok(t), 0)),
            Err(e) => if budget == 0 {
                Some((Err(e), 0))
            } else {
                match spec_retry_run(outcomes.drop_first(), (budget - 1) as nat) {
                    Some((r, n)) => Some((r, (n + 1) as nat)),
                    None => None,
                }
            },
        }
    }
}

/// The retry budget is exact: over any run of `budget + 1` consecutive
/// failures, exactly `budget` failures are reported to the observer, and
/// the final failure's error — the one the budget could not retry — is
/// returned to the caller itself.
pub proof fn lemma_retry_budget_exact<T, E>(outcomes: Seq<Result<T, E>>, budget: nat)
    requires
        outcomes.len() == budget + 1,
        forall|i: int| 0 <= i < outcomes.len() ==> (#[trigger] outcomes[i]) is Err,
    ensures
        spec_retry_run(outcomes, budget) == Some(
            (outcomes[budget as int], budget),
        ),
    decreases budget,
{
    if budget > 0 {
        assert forall|i: int| 0 <= i < outcomes.drop_first().len() implies (
        #[trigger] outcomes.drop_first()[i]) is Err by {
            assert(outcomes.drop_first()[i] == outcomes[i + 1]);
        }
        lemma_retry_budget_exact(outcomes.drop_first(), (budget - 1) as nat);
        assert(outcomes.drop_first()[budget - 1] == outcomes[budget as int]);
    }
}

/// A success ends a run at once: no failure is reported, whatever the
/// budget, and the success is the caller's.
pub proof fn lemma_retry_immediate_success<T, E>(outcomes: Seq<Result<T, E>>, budget: nat)
    requires
        outcomes.len() > 0,
        outcomes[0] is Ok,
    ensures
        spec_retry_run(outcomes, budget) == Some((outcomes[0], 0nat)),
{
}

/// One retry attempt, with its failure observer.  Implementations perform
/// the work; nothing is assumed of their results.
pub trait RetryAction<T, E> {
    /// Makes one attempt.
    fn attempt(&mut self) -> Result<T, E>;

    /// Observes one failed attempt and the budget that remains.
    fn on_failure(&mut self, err: &E, remaining: usize);
}

/// Repeatedly invokes the action until it succeeds, reporting each failed
/// attempt (with the remaining budget) to the action's observer, for at
/// most the retries left in `state`; the failure that exhausts the budget
/// is returned itself.  An error comes back only with the budget fully
/// consumed, and one budget unit is consumed per reported failure — each
/// step of the run is judged by [`RetryState::on_outcome`], the
/// executable step of [`spec_retry_run`].
pub fn retry<T, E, A: RetryAction<T, E>>(state: &mut RetryState, action: &mut A) -> (r: Result<
    T,
    E,
>)
    ensures
        final(state).remaining <= old(state).remaining,
        r is Err ==> final(state).remaining == 0,
{
    loop
        invariant
            state.remaining <= old(state).remaining,
        decreases state.remaining,
    {
        let outcome = action.attempt();
        match state.on_outcome(outcome) {
            RetryDecision::Done(t) => {
                return Ok(t);
            },
            RetryDecision::GiveUp(e) => {
                return Err(e);
            },
            RetryDecision::Report { err, remaining } => {
                action.on_failure(&err, remaining);
            },
        }
    }
}

} // verus!
