use proc_ctl::retry::{next_retry_step, RetryStep};
use retry::delay::Fixed;

fn run(
    outcomes: &[Result<u32, &'static str>],
    count: usize,
) -> (Result<u32, &'static str>, usize, usize) {
    let mut remaining = count;
    let mut attempts = 0;
    let mut pauses = 0;
    loop {
        let outcome = outcomes[attempts];
        attempts += 1;
        match next_retry_step(outcome, remaining) {
            RetryStep::Done(result) => return (result, attempts, pauses),
            RetryStep::Wait { remaining: left } => {
                pauses += 1;
                remaining = left;
            }
        }
    }
}

#[test]
fn a_success_ends_the_run() {
    for remaining in [0, 1, 10, usize::MAX] {
        match next_retry_step::<u32, &str>(Ok(5), remaining) {
            RetryStep::Done(result) => assert_eq!(Ok(5), result),
            other => panic!("unexpected step {:?}", other),
        }
    }
}

#[test]
fn a_failure_is_followed_by_a_pause_while_attempts_are_left() {
    let remainders: [(usize, usize); 4] = [(1, 0), (2, 1), (10, 9), (usize::MAX, usize::MAX - 1)];
    for (remaining, left) in remainders {
        match next_retry_step::<u32, &str>(Err("no"), remaining) {
            RetryStep::Wait { remaining: after } => assert_eq!(left, after),
            other => panic!("unexpected step {:?}", other),
        }
    }
}

#[test]
fn a_failure_ends_the_run_when_no_attempt_is_left() {
    match next_retry_step::<u32, &str>(Err("no"), 0) {
        RetryStep::Done(result) => assert_eq!(Err("no"), result),
        other => panic!("unexpected step {:?}", other),
    }
}

#[test]
fn no_retries_is_one_call() {
    assert_eq!((Ok(1), 1, 0), run(&[Ok(1), Ok(2)], 0));
    assert_eq!((Err("first"), 1, 0), run(&[Err("first"), Ok(2)], 0));
}

#[test]
fn a_run_ends_with_the_first_success() {
    let outcomes = [Err("a"), Err("b"), Ok(3), Ok(4), Err("e")];
    assert_eq!((Ok(3), 3, 2), run(&outcomes, 2));
    assert_eq!((Ok(3), 3, 2), run(&outcomes, 10));
}

#[test]
fn a_run_out_of_attempts_ends_with_the_last_failure() {
    let outcomes = [Err("a"), Err("b"), Err("c"), Ok(4)];
    assert_eq!((Err("a"), 1, 0), run(&outcomes, 0));
    assert_eq!((Err("b"), 2, 1), run(&outcomes, 1));
    assert_eq!((Err("c"), 3, 2), run(&outcomes, 2));
    assert_eq!((Ok(4), 4, 3), run(&outcomes, 3));
}

#[test]
fn the_steps_agree_with_the_retry_crate() {
    let outcomes: [Result<u32, &'static str>; 4] = [Err("a"), Err("b"), Err("c"), Ok(4)];
    for count in 0..5 {
        let mut at = 0;
        let theirs = retry::retry(Fixed::from_millis(1).take(count), || {
            at += 1;
            outcomes[at - 1]
        });
        let (ours, attempts, _) = run(&outcomes, count);
        assert_eq!(theirs.as_ref().ok(), ours.as_ref().ok());
        assert_eq!(theirs.as_ref().err().map(|error| error.error), ours.err());
        assert_eq!(at, attempts);
    }
}
