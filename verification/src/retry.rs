//! Trying an operation again after it failed.
//!
//! A run makes one attempt and, while attempts fail, up to `count` more,
//! with a pause before each of them. It ends with the first success, or with
//! the failure of the last attempt once none is left.
//!
//! The attempts and the pauses are the caller's. After each attempt
//! `next_retry_step` decides how the run goes on.

use vstd::prelude::*;

verus! {

/// How a run goes on after an attempt.
#[derive(Debug)]
pub enum RetryStep<T, E> {
    /// The run ends with this result.
    Done(Result<T, E>),
    /// Pause, then try again; `remaining` attempts are left after that one.
    Wait {
        /// The attempts that are left after the next one
        remaining: usize,
    },
}

/// How a run goes on after an attempt that gave `outcome`, with `remaining`
/// attempts left.
pub open spec fn spec_next_retry_step<T, E>(outcome: Result<T, E>, remaining: usize) -> RetryStep<
    T,
    E,
> {
    if outcome is Err && remaining > 0 {
        RetryStep::Wait { remaining: (remaining - 1) as usize }
    } else {
        RetryStep::Done(outcome)
    }
}

/// Decides how a run goes on after an attempt that gave `outcome`, with
/// `remaining` attempts left: a success ends it, and so does a failure when
/// no attempt is left; any other failure is followed by a pause and the next
/// attempt.
pub fn next_retry_step<T, E>(outcome: Result<T, E>, remaining: usize) -> (step: RetryStep<T, E>)
    ensures
        step == spec_next_retry_step(outcome, remaining),
        remaining == 0 ==> step == RetryStep::Done(outcome),
{
    match outcome {
        Ok(value) => RetryStep::Done(Ok(value)),
        Err(error) => {
            if remaining == 0 {
                RetryStep::Done(Err(error))
            } else {
                RetryStep::Wait { remaining: remaining - 1 }
            }
        },
    }
}

/// How a run ended.
pub ghost struct Run<T, E> {
    /// The result of the run
    pub result: Result<T, E>,
    /// The attempts that were made
    pub attempts: nat,
    /// The pauses that were made
    pub pauses: nat,
}

/// The run that starts with attempt number `from`, where attempt number `k`
/// gives `outcomes[k]`, with `remaining` attempts left after the first.
pub open spec fn run_from<T, E>(outcomes: Seq<Result<T, E>>, from: int, remaining: usize) -> Run<
    T,
    E,
>
    decreases remaining,
{
    match spec_next_retry_step(outcomes[from], remaining) {
        RetryStep::Done(result) => Run { result, attempts: 1, pauses: 0 },
        RetryStep::Wait { remaining } => {
            let rest = run_from(outcomes, from + 1, remaining);
            Run { result: rest.result, attempts: rest.attempts + 1, pauses: rest.pauses + 1 }
        },
    }
}

/// The run of an operation whose attempt number `k` gives `outcomes[k]`,
/// tried again up to `count` times.
pub open spec fn run<T, E>(outcomes: Seq<Result<T, E>>, count: usize) -> Run<T, E> {
    run_from(outcomes, 0, count)
}

/// A run that may not try again is one call of the operation: it makes one
/// attempt and no pause, and its result is that of the attempt.
pub proof fn lemma_no_retries_is_one_call<T, E>(outcomes: Seq<Result<T, E>>)
    ensures
        run(outcomes, 0).result == outcomes[0],
        run(outcomes, 0).attempts == 1,
        run(outcomes, 0).pauses == 0,
{
}

/// A run makes at most one attempt more than it may try again, and pauses
/// once before each attempt but the first.
pub proof fn lemma_run_is_bounded<T, E>(outcomes: Seq<Result<T, E>>, from: int, count: usize)
    ensures
        1 <= run_from(outcomes, from, count).attempts <= count + 1,
        run_from(outcomes, from, count).pauses + 1 == run_from(outcomes, from, count).attempts,
    decreases count,
{
    if outcomes[from] is Err && count > 0 {
        lemma_run_is_bounded(outcomes, from + 1, (count - 1) as usize);
    }
}

/// A run ends with the result of its last attempt. Every attempt before
/// that one failed, and the last one succeeded unless the run had no attempt
/// left.
pub proof fn lemma_run_ends_with_first_success<T, E>(
    outcomes: Seq<Result<T, E>>,
    from: int,
    count: usize,
)
    ensures
        ({
            let run = run_from(outcomes, from, count);
            let last = from + run.attempts - 1;
            &&& run.result == outcomes[last]
            &&& forall|k: int| from <= k < last ==> (#[trigger] outcomes[k]) is Err
            &&& run.result is Err ==> run.attempts == count + 1
        }),
    decreases count,
{
    if outcomes[from] is Err && count > 0 {
        lemma_run_ends_with_first_success(outcomes, from + 1, (count - 1) as usize);
    }
}

} // verus!
