use vstd::prelude::*;

use crate::observer_error::{error_message, ObserverError};

verus! {

/// What an event handler runner does after one call of the handler.
#[derive(Debug)]
pub enum RetryStep {
    /// Stop and report this result.
    Done(Result<(), ObserverError>),
    /// Back off and call the handler again. `attempt` is the number of retriable
    /// failures so far; the backoff to wait is the one for exponent `backoff_exponent`.
    Retry { attempt: u32, backoff_exponent: u32 },
}

/// The runner's state after `attempt` retriable failures is a valid one:
/// either nothing failed yet, or fewer failures than the limit.
pub open spec fn valid_attempt(attempt: u32, max_attempts: u32) -> bool {
    attempt == 0 || attempt < max_attempts
}

/// The runner's decision after a call of the handler returned `outcome`,
/// with `attempt` retriable failures before it.
///
/// - success and skippable errors end the run successfully,
/// - fatal errors end it with that error,
/// - retriable errors are retried until `max_attempts` of them occurred, and then
///   end the run with a fatal error that carries the same message.
pub open spec fn retry_step_spec(attempt: u32, max_attempts: u32, outcome: Result<(), ObserverError>) -> RetryStep {
    match outcome {
        Ok(()) => RetryStep::Done(Ok(())),
        Err(ObserverError::Skippable(_)) => RetryStep::Done(Ok(())),
        Err(ObserverError::Fatal(m)) => RetryStep::Done(Err(ObserverError::Fatal(m))),
        Err(ObserverError::Retriable(m)) => {
            if attempt + 1 >= max_attempts {
                RetryStep::Done(Err(ObserverError::Fatal(m)))
            } else {
                RetryStep::Retry { attempt: (attempt + 1) as u32, backoff_exponent: attempt }
            }
        },
    }
}

/// Decide what the handler runner does after one call of the handler.
pub fn next_retry_step(attempt: u32, max_attempts: u32, outcome: Result<(), ObserverError>) -> (step: RetryStep)
    requires
        valid_attempt(attempt, max_attempts),
    ensures
        step == retry_step_spec(attempt, max_attempts, outcome),
        step matches RetryStep::Retry { attempt: next, .. } ==> valid_attempt(next, max_attempts)
            && next == attempt + 1,
{
    match outcome {
        Ok(()) => RetryStep::Done(Ok(())),
        Err(ObserverError::Skippable(_)) => RetryStep::Done(Ok(())),
        Err(ObserverError::Fatal(m)) => RetryStep::Done(Err(ObserverError::Fatal(m))),
        Err(ObserverError::Retriable(m)) => {
            let next = attempt + 1;
            if next >= max_attempts {
                RetryStep::Done(Err(ObserverError::Fatal(m)))
            } else {
                RetryStep::Retry { attempt: next, backoff_exponent: attempt }
            }
        },
    }
}

/// Number of handler calls a run makes when, from a state with `attempt` earlier
/// retriable failures, every call fails with the retriable error `m`: one call, and
/// as many more as the decision after it asks for.
pub open spec fn calls_while_failing(attempt: u32, max_attempts: u32, m: String) -> nat
    decreases max_attempts - attempt,
{
    match retry_step_spec(attempt, max_attempts, Err(ObserverError::Retriable(m))) {
        RetryStep::Retry { attempt: next, .. } => {
            if next > attempt && next <= max_attempts {
                1 + calls_while_failing(next, max_attempts, m)
            } else {
                1
            }
        },
        RetryStep::Done(_) => 1,
    }
}

/// A handler that keeps failing with retriable errors is called exactly
/// `max_attempts` times (once when `max_attempts` is 0), and the run then ends
/// with a fatal error carrying the last message.
pub proof fn lemma_persistent_failure_call_count(max_attempts: u32, m: String)
    ensures
        calls_while_failing(0, max_attempts, m) == if max_attempts == 0 { 1 } else { max_attempts as nat },
        retry_step_spec((if max_attempts == 0 { 0 } else { max_attempts - 1 }) as u32, max_attempts, Err(ObserverError::Retriable(m)))
            == RetryStep::Done(Err(ObserverError::Fatal(m))),
{
    lemma_calls_while_failing(0, max_attempts, m);
}

proof fn lemma_calls_while_failing(attempt: u32, max_attempts: u32, m: String)
    requires
        valid_attempt(attempt, max_attempts),
    ensures
        calls_while_failing(attempt, max_attempts, m) == if attempt + 1 >= max_attempts { 1 } else { (max_attempts - attempt) as nat },
    decreases max_attempts - attempt,
{
    if attempt + 1 < max_attempts {
        lemma_calls_while_failing((attempt + 1) as u32, max_attempts, m);
    }
}

/// Every failure before the last one is retried with the backoff exponent equal to
/// the number of failures before it, so backoffs grow 0, 1, 2, ...
pub proof fn lemma_backoff_exponent_counts_failures(attempt: u32, max_attempts: u32, m: String)
    requires
        valid_attempt(attempt, max_attempts),
        attempt + 1 < max_attempts,
    ensures
        retry_step_spec(attempt, max_attempts, Err(ObserverError::Retriable(m)))
            == (RetryStep::Retry { attempt: (attempt + 1) as u32, backoff_exponent: attempt }),
{
}

/// Whatever the state, a run ends at once on success, on a skippable error and on a
/// fatal error; the fatal error is passed on unchanged.
pub proof fn lemma_non_retriable_outcomes_end_run(attempt: u32, max_attempts: u32, e: ObserverError)
    ensures
        retry_step_spec(attempt, max_attempts, Ok(())) == RetryStep::Done(Ok(())),
        !(e is Retriable) ==> (retry_step_spec(attempt, max_attempts, Err(e)) is Done),
        e is Skippable ==> retry_step_spec(attempt, max_attempts, Err(e)) == RetryStep::Done(Ok(())),
        e is Fatal ==> retry_step_spec(attempt, max_attempts, Err(e)) == RetryStep::Done(Err(e)),
        retry_step_spec(attempt, max_attempts, Err(e)) matches RetryStep::Done(Err(f)) ==> f is Fatal
            && error_message(f) == error_message(e),
{
}

} // verus!
