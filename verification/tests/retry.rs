use leveled_log::retry::RetryOutcome;
use leveled_log::retry::RetryStep;
use leveled_log::retry::retry_step;
use leveled_log::retry::retry_with_outcomes;

#[test]
fn fails_twice_then_succeeds_with_two_delays() {
    let outcomes: Vec<Result<u32, &str>> = vec![Err("first"), Err("second"), Ok(7)];
    let (result, delays) = retry_with_outcomes(3, outcomes);
    assert!(matches!(result, RetryOutcome::Success(7)));
    assert_eq!(delays, 2);
}

#[test]
fn zero_attempts_is_misuse() {
    let outcomes: Vec<Result<u32, &str>> = vec![];
    let (result, delays) = retry_with_outcomes(0, outcomes);
    assert!(matches!(result, RetryOutcome::Misuse));
    assert_eq!(delays, 0);
}

#[test]
fn exhausted_attempts_surface_the_last_failure() {
    let outcomes: Vec<Result<u32, &str>> = vec![Err("first"), Err("second")];
    let (result, delays) = retry_with_outcomes(2, outcomes);
    assert!(matches!(result, RetryOutcome::Exhausted("second")));
    assert_eq!(delays, 2);
}

#[test]
fn immediate_success_takes_no_delay() {
    let outcomes: Vec<Result<u32, &str>> = vec![Ok(1), Err("unused")];
    let (result, delays) = retry_with_outcomes(2, outcomes);
    assert!(matches!(result, RetryOutcome::Success(1)));
    assert_eq!(delays, 0);
}

#[test]
fn only_the_first_attempts_count() {
    // A success past the attempt budget is never reached.
    let outcomes: Vec<Result<u32, &str>> = vec![Err("a"), Err("b"), Ok(9)];
    let (result, delays) = retry_with_outcomes(2, outcomes);
    assert!(matches!(result, RetryOutcome::Exhausted("b")));
    assert_eq!(delays, 2);
}

#[test]
fn step_returns_success_at_once() {
    let step: RetryStep<u32, &str> = retry_step(3, Ok(5));
    assert!(matches!(step, RetryStep::Done(5)));
}

#[test]
fn step_delays_and_retries_while_attempts_remain() {
    let step: RetryStep<u32, &str> = retry_step(2, Err("boom"));
    assert!(matches!(step, RetryStep::DelayThenRetry));
}

#[test]
fn step_gives_up_after_the_last_attempt() {
    let step: RetryStep<u32, &str> = retry_step(1, Err("boom"));
    assert!(matches!(step, RetryStep::DelayThenFail("boom")));
}
