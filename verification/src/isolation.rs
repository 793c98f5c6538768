//! What a concurrent reader can see of a call.
//!
//! The executor relies on two promises of the database: what is written
//! inside a scope becomes part of the enclosing scope when the scope commits,
//! and is gone when the scope is rolled back or its commit fails.  [`Ledger`]
//! models these promises for the two scope levels, with the writes of the unit
//! of work told apart by the invocation that made them.  Over this model the
//! discipline of the executor is proved: whatever the replies, a reader sees
//! nothing of a call until it has returned a value, and then the writes of
//! the last invocation alone.

use vstd::prelude::*;
use crate::errors::RetryPolicy;
use crate::sql::{Action, Reply, Scope, Step};
use crate::trace::{all_retried, begun, call, invocations, lemma_retries_then_commit, run, Attempt};

verus! {

/// Where the writes of a call are held.  A write is named by the number of
/// the invocation that made it, counted from one.
pub struct Ledger {
    /// Committed for every reader to see.
    pub visible: Seq<nat>,
    /// Held in the outer scope.
    pub outer: Seq<nat>,
    /// Held in the open attempt.
    pub attempt: Seq<nat>,
}

impl Ledger {
    /// The ledger before the call: nothing written.
    pub open spec fn blank() -> Ledger {
        Ledger { visible: Seq::empty(), outer: Seq::empty(), attempt: Seq::empty() }
    }

    /// The ledger after `action` was performed, `ok` telling whether it
    /// succeeded, when `invoked` invocations have begun so far.
    ///
    /// - An invocation writes inside the attempt, whether it then returns a
    ///   value or an error.
    /// - A commit hands what the scope holds to the enclosing one: the
    ///   attempt's to the outer scope, the outer scope's to the readers.
    /// - A rollback, and a commit that fails, leave the scope empty.
    pub open spec fn record(self, action: Action, ok: bool, invoked: nat) -> Ledger {
        match action {
            Action::Begin(_) => self,
            Action::Invoke => Ledger { attempt: self.attempt.push(invoked), ..self },
            Action::Commit(Scope::Attempt) => if ok {
                Ledger { outer: self.outer + self.attempt, attempt: Seq::empty(), ..self }
            } else {
                Ledger { attempt: Seq::empty(), ..self }
            },
            Action::Rollback(Scope::Attempt) => Ledger { attempt: Seq::empty(), ..self },
            Action::Commit(Scope::Outer) => if ok {
                Ledger { visible: self.visible + self.outer, outer: Seq::empty(), ..self }
            } else {
                Ledger { outer: Seq::empty(), ..self }
            },
            Action::Rollback(Scope::Outer) => Ledger { outer: Seq::empty(), ..self },
        }
    }
}

impl<T> Reply<T> {
    /// The action that the reply answers succeeded.
    pub open spec fn succeeded(self) -> bool {
        match self {
            Reply::Done(r) => r is Ok,
            Reply::Returned(r) => r is Ok,
        }
    }
}

/// The ledger of a call under `policy` after `replies`: each reply that the
/// executor accepts records the action it answers.
pub open spec fn ledger<T>(policy: RetryPolicy, replies: Seq<Reply<T>>) -> Ledger
    decreases replies.len(),
{
    if replies.len() == 0 {
        Ledger::blank()
    } else {
        let earlier = replies.drop_last();
        let held = ledger(policy, earlier);
        match run(begun(policy), earlier) {
            Step::Next(m) => if m.accepts(replies.last()) {
                held.record(
                    m.phase.action(),
                    replies.last().succeeded(),
                    invocations(begun(policy), earlier),
                )
            } else {
                held
            },
            _ => held,
        }
    }
}

/// What the ledger holds at each point of a call, when `invoked` invocations
/// have begun: the writes of the running invocation are in the attempt until
/// the attempt is closed, in the outer scope while that commits, and visible
/// once the call has returned a value.  Nothing else is held anywhere, and
/// no call returns a value without an invocation.
pub open spec fn holds<T>(step: Step<T>, held: Ledger, invoked: nat) -> bool {
    let nothing = Seq::<nat>::empty();
    let action = match step {
        Step::Next(m) => Some(m.phase.action()),
        Step::Rejected(m, _) => Some(m.phase.action()),
        Step::Finished(_) => None,
    };
    &&& invoked >= 1 || !(step matches Step::Finished(Ok(_)) || action == Some(Action::Invoke)
        || action == Some(Action::Commit(Scope::Attempt)) || action == Some(
        Action::Commit(Scope::Outer),
    ))
    &&& held.visible == (if step matches Step::Finished(Ok(_)) {
        seq![invoked]
    } else {
        nothing
    })
    &&& held.outer == (if action == Some(Action::Commit(Scope::Outer)) {
        seq![invoked]
    } else {
        nothing
    })
    &&& held.attempt == (if action == Some(Action::Commit(Scope::Attempt)) || action == Some(
        Action::Rollback(Scope::Attempt),
    ) {
        seq![invoked]
    } else {
        nothing
    })
}

/// The ledger of a call is at every point as [`holds`] describes.
pub proof fn lemma_ledger_holds<T>(policy: RetryPolicy, replies: Seq<Reply<T>>)
    ensures
        holds(
            run(begun(policy), replies),
            ledger(policy, replies),
            invocations(begun(policy), replies),
        ),
    decreases replies.len(),
{
    if replies.len() > 0 {
        lemma_ledger_holds(policy, replies.drop_last());
    }
}

/// No partial commits.  Whatever the database replies, a reader sees nothing
/// of a call that has not returned a value, and of a call that has, the
/// writes of the last invocation and of no other: no write of an attempt that
/// was retried is ever visible.  A call that returns a value has invoked the
/// unit of work at least once.
pub proof fn lemma_no_partial_commits<T>(policy: RetryPolicy, replies: Seq<Reply<T>>)
    ensures
        run(begun(policy), replies) matches Step::Finished(Ok(_)) ==> ledger(
            policy,
            replies,
        ).visible == seq![invocations(begun(policy), replies)],
        run(begun(policy), replies) matches Step::Finished(Ok(_)) ==> invocations(
            begun(policy),
            replies,
        ) >= 1,
        !(run(begun(policy), replies) matches Step::Finished(Ok(_))) ==> ledger(
            policy,
            replies,
        ).visible == Seq::<nat>::empty(),
        forall|n: nat|
            ledger(policy, replies).visible.contains(n) ==> n == invocations(
                begun(policy),
                replies,
            ),
{
    lemma_ledger_holds(policy, replies);
}

/// One commit after any number of retries.  When the database answers
/// `retried.len()` attempts in a row with a retry signal and then lets one
/// commit, exactly one set of writes becomes visible: that of the last
/// invocation.
pub proof fn lemma_one_commit_after_retries<T>(
    policy: RetryPolicy,
    retried: Seq<Attempt<T>>,
    v: T,
)
    requires
        all_retried(policy, retried),
    ensures
        ledger(policy, call(retried, Attempt::Commits(v), Ok(()))).visible == seq![
            (retried.len() + 1) as nat,
        ],
{
    lemma_retries_then_commit(policy, retried, v);
    lemma_no_partial_commits(policy, call(retried, Attempt::Commits(v), Ok(())));
}

} // verus!
