//! Retrying a fallible operation.
//!
//! The operation itself (and the delay between attempts) is outside work:
//! the caller performs it and feeds each outcome back in. [`retry_step`]
//! decides, after one outcome, whether to return, delay and retry, or delay
//! and give up; [`retry_with_outcomes`] runs the whole policy over a
//! recorded sequence of outcomes, and returns the result together with how
//! many delays were taken. Asking for zero attempts is a caller error and
//! is answered with [`RetryOutcome::Misuse`], never with a silent
//! non-result.

use vstd::prelude::*;

verus! {

/// The result of a whole retry run.
#[derive(Debug)]
pub enum RetryOutcome<T, E> {
    /// Some attempt succeeded; holds the first success value.
    Success(T),
    /// Every attempt failed; holds the last failure.
    Exhausted(E),
    /// Zero attempts were requested: a configuration error of the caller.
    Misuse,
}

/// What to do after one attempt's outcome.
#[derive(Debug)]
pub enum RetryStep<T, E> {
    /// The attempt succeeded: stop and return this value.
    Done(T),
    /// The attempt failed and attempts remain: delay, then try again.
    DelayThenRetry,
    /// The last attempt failed: delay, then give up with this failure.
    DelayThenFail(E),
}

/// The retry result over a recorded sequence of attempt outcomes: the first
/// success short-circuits, the last of an unbroken run of failures is
/// surfaced, and an empty sequence (zero attempts) is misuse.
pub open spec fn spec_retry_result<T, E>(outcomes: Seq<Result<T, E>>) -> RetryOutcome<T, E>
    decreases outcomes.len(),
{
    if outcomes.len() == 0 {
        RetryOutcome::Misuse
    } else {
        match outcomes[0] {
            Ok(v) => RetryOutcome::Success(v),
            Err(e) => if outcomes.len() == 1 {
                RetryOutcome::Exhausted(e)
            } else {
                spec_retry_result(outcomes.drop_first())
            },
        }
    }
}

/// How many delays a retry run takes: one per failed attempt, none after a
/// success.
pub open spec fn spec_retry_delays<T, E>(outcomes: Seq<Result<T, E>>) -> int
    decreases outcomes.len(),
{
    if outcomes.len() == 0 {
        0
    } else {
        match outcomes[0] {
            Ok(v) => 0,
            Err(e) => 1 + spec_retry_delays(outcomes.drop_first()),
        }
    }
}

/// Decides what follows one attempt's outcome, with `attempts_left`
/// attempts (this one included) still allowed: a success returns at once; a
/// failure is followed by a delay, and then by another attempt unless this
/// was the last one.
pub fn retry_step<T, E>(attempts_left: u64, outcome: Result<T, E>) -> (r: RetryStep<T, E>)
    requires
        attempts_left >= 1,
    ensures
        (outcome matches Ok(v) ==> (r matches RetryStep::Done(w) && w == v)),
        (outcome matches Err(e) ==> (if attempts_left == 1 {
            r matches RetryStep::DelayThenFail(f) && f == e
        } else {
            r is DelayThenRetry
        })),
{
    match outcome {
        Ok(v) => RetryStep::Done(v),
        Err(e) => if attempts_left == 1 {
            RetryStep::DelayThenFail(e)
        } else {
            RetryStep::DelayThenRetry
        },
    }
}

/// Runs the retry policy over the first `attempts` entries of a recorded
/// sequence of outcomes. Returns the retry result and the number of delays
/// taken: a failure delays once whether or not an attempt remains, a
/// success delays no further, and `attempts == 0` is misuse with no delay.
pub fn retry_with_outcomes<T, E>(attempts: usize, outcomes: Vec<Result<T, E>>) -> (r: (
    RetryOutcome<T, E>,
    usize,
))
    requires
        attempts <= outcomes@.len(),
    ensures
        r.0 == spec_retry_result(outcomes@.take(attempts as int)),
        r.1 == spec_retry_delays(outcomes@.take(attempts as int)),
        r.1 <= attempts,
    decreases attempts,
{
    let mut outcomes = outcomes;
    if attempts == 0 {
        proof {
            assert(outcomes@.take(0) =~= Seq::<Result<T, E>>::empty());
        }
        (RetryOutcome::Misuse, 0)
    } else {
        let ghost taken = outcomes@.take(attempts as int);
        let first = outcomes.remove(0);
        proof {
            assert(taken[0] == first);
            assert(taken.drop_first() =~= outcomes@.take(attempts as int - 1));
        }
        match first {
            Ok(v) => (RetryOutcome::Success(v), 0),
            Err(e) => {
                if attempts == 1 {
                    proof {
                        assert(taken.drop_first() =~= Seq::<Result<T, E>>::empty());
                        assert(spec_retry_delays(taken.drop_first()) == 0);
                    }
                    (RetryOutcome::Exhausted(e), 1)
                } else {
                    let (rest, delays) = retry_with_outcomes(attempts - 1, outcomes);
                    (rest, delays + 1)
                }
            },
        }
    }
}

/// Exhaustion: when every attempt fails, the run surfaces the last failure
/// and delays once per attempt.
pub proof fn lemma_retry_all_failures<T, E>(outcomes: Seq<Result<T, E>>)
    requires
        outcomes.len() > 0,
        forall|j: int| 0 <= j < outcomes.len() ==> outcomes[j] is Err,
    ensures
        spec_retry_result(outcomes) matches RetryOutcome::Exhausted(e) && outcomes[outcomes.len()
            - 1] == Err::<T, E>(e),
        spec_retry_delays(outcomes) == outcomes.len(),
    decreases outcomes.len(),
{
    if outcomes.len() == 1 {
        assert(spec_retry_delays(outcomes.drop_first()) == 0);
    } else {
        lemma_retry_all_failures(outcomes.drop_first());
    }
}

/// Short-circuiting: as soon as an attempt succeeds, the run returns that
/// value, and the delays taken are exactly the failures before it.
pub proof fn lemma_retry_first_success<T, E>(outcomes: Seq<Result<T, E>>, i: int)
    requires
        0 <= i < outcomes.len(),
        outcomes[i] is Ok,
        forall|j: int| 0 <= j < i ==> outcomes[j] is Err,
    ensures
        spec_retry_result(outcomes) matches RetryOutcome::Success(v) && outcomes[i] == Ok::<
            T,
            E,
        >(v),
        spec_retry_delays(outcomes) == i,
    decreases i,
{
    if i == 0 {
    } else {
        lemma_retry_first_success(outcomes.drop_first(), i - 1);
    }
}

} // verus!
