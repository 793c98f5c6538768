//! Recorded calls, replayed.

use cockroach_txn::errors::{DbErrorKind, RetryPolicy, TxnError};
use cockroach_txn::sql::{Executor, Phase, Reply, Step};
use cockroach_txn::trace::replay;

fn ok() -> Reply<&'static str> {
    Reply::Done(Ok(()))
}

fn retry_signal() -> TxnError {
    TxnError::Database { kind: DbErrorKind::SerializationFailure, message: String::from("retry") }
}

fn terminal() -> TxnError {
    TxnError::Database { kind: DbErrorKind::ForeignKeyViolation, message: String::from("no such post") }
}

#[test]
fn replay_of_nothing_is_the_start() {
    let policy = RetryPolicy::default();
    let (step, invoked) = replay::<&str>(policy, vec![]);
    assert_eq!(step, Step::Next(Executor::start(policy)));
    assert_eq!(invoked, 0);
}

#[test]
fn replay_of_a_call_that_commits_at_once() {
    let replies = vec![ok(), ok(), Reply::Returned(Ok("row")), ok(), ok()];
    let (step, invoked) = replay(RetryPolicy::default(), replies);
    assert_eq!(step, Step::Finished(Ok("row")));
    assert_eq!(invoked, 1);
}

#[test]
fn replay_of_k_retries_invokes_k_plus_one_times() {
    for k in 0..5usize {
        let mut replies = vec![ok()];
        for i in 0..k {
            if i % 2 == 0 {
                // the unit of work fails, the attempt is rolled back
                replies.extend([ok(), Reply::Returned(Err(retry_signal())), ok()]);
            } else {
                // the unit of work returns, the commit of the attempt fails
                replies.extend([ok(), Reply::Returned(Ok("lost")), Reply::Done(Err(retry_signal()))]);
            }
        }
        replies.extend([ok(), Reply::Returned(Ok("kept")), ok(), ok()]);
        let (step, invoked) = replay(RetryPolicy::default(), replies);
        assert_eq!(step, Step::Finished(Ok("kept")));
        assert_eq!(invoked, k + 1);
    }
}

#[test]
fn replay_of_a_terminal_error_on_the_first_invocation() {
    let replies = vec![ok(), ok(), Reply::Returned(Err(terminal())), ok(), ok()];
    let (step, invoked) = replay(RetryPolicy::default(), replies);
    assert_eq!(step, Step::Finished(Err(terminal())));
    assert_eq!(invoked, 1);
}

#[test]
fn replay_of_a_terminal_error_after_retries() {
    let replies = vec![
        ok(),
        ok(),
        Reply::Returned(Err(retry_signal())),
        ok(),
        ok(),
        Reply::Returned(Err(terminal())),
        ok(),
        ok(),
    ];
    let (step, invoked) = replay(RetryPolicy::default(), replies);
    assert_eq!(step, Step::Finished(Err(terminal())));
    assert_eq!(invoked, 2);
}

#[test]
fn replay_stops_short_where_the_replies_do() {
    let policy = RetryPolicy::default();
    let (step, invoked) = replay(policy, vec![ok(), ok(), Reply::Returned(Ok("row"))]);
    assert_eq!(step, Step::Next(Executor { policy, phase: Phase::CommittingAttempt("row") }));
    assert_eq!(invoked, 1);
}

#[test]
fn replay_ignores_what_follows_the_end() {
    let replies = vec![Reply::Done(Err(terminal())), ok(), Reply::Returned(Ok("late")), ok()];
    let (step, invoked) = replay(RetryPolicy::default(), replies);
    assert_eq!(step, Step::Finished(Err(terminal())));
    assert_eq!(invoked, 0);
}

#[test]
fn replay_keeps_a_rejection() {
    let policy = RetryPolicy::default();
    let replies = vec![ok(), Reply::Returned(Ok("early")), ok(), ok()];
    let (step, invoked) = replay(policy, replies);
    assert_eq!(
        step,
        Step::Rejected(Executor { policy, phase: Phase::OpeningAttempt }, Reply::Returned(Ok("early")))
    );
    assert_eq!(invoked, 0);
}

#[test]
fn advance_and_is_invoking() {
    let policy = RetryPolicy::default();
    let step: Step<u8> = Step::Next(Executor::start(policy));
    assert!(!step.is_invoking());
    let step = step.advance(Reply::Done(Ok(())));
    assert!(!step.is_invoking());
    let step = step.advance(Reply::Done(Ok(())));
    assert!(step.is_invoking());
    let step = step.advance(Reply::Returned(Ok(1)));
    assert!(!step.is_invoking());
    let done = step.advance(Reply::Done(Ok(()))).advance(Reply::Done(Ok(())));
    assert_eq!(done, Step::Finished(Ok(1)));
    assert!(!done.is_invoking());
    assert_eq!(done.advance(Reply::Done(Ok(()))), Step::Finished(Ok(1)));
}
