//! The retryable-transaction executor.
//!
//! A database at serializable isolation may abort a transaction that did
//! nothing wrong and ask for it to be run again.  The executor runs a unit of
//! work inside an outer scope and, within it, inside one inner attempt after
//! another, until an attempt commits or fails for a reason that a retry
//! cannot mend.
//!
//! The executor never touches the database.  It is a state machine: it names
//! the [`Action`] to perform next, the caller performs it and hands back the
//! [`Reply`], and [`Executor::step`] decides what follows.  The two scope
//! levels are explicit, each with a begin, a commit and a rollback of its
//! own, so a retry rolls back the attempt and nothing around it.
//!
//! The executor sets no limit to the retries and never waits.  A caller who
//! wants either has the place for it: it may pause before it opens the next
//! attempt, and it gives up by answering `Begin(Scope::Attempt)` with an
//! error that is no retry signal, which unwinds the outer scope and ends the
//! call with that error.

use vstd::prelude::*;
use crate::errors::{RetryPolicy, TxnError};

verus! {

/// The two levels of transaction scope that the executor opens.
#[derive(Clone, Copy, Debug, PartialEq, Eq, Hash, Structural)]
pub enum Scope {
    /// The scope that spans the whole call.
    Outer,
    /// The scope of one attempt at the unit of work, inside the outer one.
    Attempt,
}

/// What the executor asks its caller to do next.
#[derive(Clone, Copy, Debug, PartialEq, Eq, Hash, Structural)]
pub enum Action {
    /// Open the scope.
    Begin(Scope),
    /// Commit the scope.
    Commit(Scope),
    /// Roll the scope back.
    Rollback(Scope),
    /// Call the unit of work with the connection.
    Invoke,
}

/// What came of the action that the executor asked for.
#[derive(Debug, PartialEq, Eq)]
pub enum Reply<T> {
    /// A begin, commit or rollback was carried out, or failed.
    Done(Result<(), TxnError>),
    /// The unit of work returned.
    Returned(Result<T, TxnError>),
}

/// Where the executor stands: which action is under way, and what it holds
/// until that action is answered.
#[derive(Debug, PartialEq, Eq)]
pub enum Phase<T> {
    /// The outer scope is being opened.
    OpeningOuter,
    /// An attempt is being opened inside the outer scope.
    OpeningAttempt,
    /// The unit of work is running inside the attempt.
    Running,
    /// The unit of work returned the value; the attempt is being committed.
    CommittingAttempt(T),
    /// The unit of work failed with the error; the attempt is being rolled
    /// back.
    RollingBackAttempt(TxnError),
    /// The attempt is committed; the outer scope is being committed.
    CommittingOuter(T),
    /// The error is terminal; the outer scope is being rolled back.
    RollingBackOuter(TxnError),
}

/// The executor between two actions.
#[derive(Debug, PartialEq, Eq)]
pub struct Executor<T> {
    pub policy: RetryPolicy,
    pub phase: Phase<T>,
}

/// What a reply leads to.
#[derive(Debug, PartialEq, Eq)]
pub enum Step<T> {
    /// The executor goes on; its pending action is to be performed next.
    Next(Executor<T>),
    /// The call is over, with this outcome.
    Finished(Result<T, TxnError>),
    /// The reply does not answer the pending action.  Executor and reply are
    /// handed back as they came.
    Rejected(Executor<T>, Reply<T>),
}

impl<T> Phase<T> {
    /// The action that is under way in this phase.
    pub open spec fn action(self) -> Action {
        match self {
            Phase::OpeningOuter => Action::Begin(Scope::Outer),
            Phase::OpeningAttempt => Action::Begin(Scope::Attempt),
            Phase::Running => Action::Invoke,
            Phase::CommittingAttempt(_) => Action::Commit(Scope::Attempt),
            Phase::RollingBackAttempt(_) => Action::Rollback(Scope::Attempt),
            Phase::CommittingOuter(_) => Action::Commit(Scope::Outer),
            Phase::RollingBackOuter(_) => Action::Rollback(Scope::Outer),
        }
    }
}

impl<T> Executor<T> {
    /// The executor as it starts: about to open the outer scope.
    pub open spec fn initial(policy: RetryPolicy) -> Executor<T> {
        Executor { policy, phase: Phase::OpeningOuter }
    }

    /// The same executor in another phase.
    pub open spec fn at(self, phase: Phase<T>) -> Step<T> {
        Step::Next(Executor { policy: self.policy, phase })
    }

    /// What follows when an attempt has failed with `e`, its effects gone:
    /// a retry signal opens the next attempt, any other error unwinds the
    /// outer scope.
    pub open spec fn after_failure(self, e: TxnError) -> Step<T> {
        if self.policy.retries(e) {
            self.at(Phase::OpeningAttempt)
        } else {
            self.at(Phase::RollingBackOuter(e))
        }
    }

    /// The transition function: what `reply` leads to from here.
    ///
    /// - A failure to open the outer scope ends the call with that error.
    /// - A failure to open, commit or roll back an attempt counts as the
    ///   attempt's failure, as does the error of the unit of work once the
    ///   attempt is rolled back.
    /// - When the attempt has committed, the outer scope is committed and the
    ///   value returned; when the outer commit fails, its error is returned.
    /// - A terminal error is returned once the outer scope is rolled back;
    ///   when that rollback fails, its error is returned in its place.
    pub open spec fn next(self, reply: Reply<T>) -> Step<T> {
        match (self.phase, reply) {
            (Phase::OpeningOuter, Reply::Done(Ok(_))) => self.at(Phase::OpeningAttempt),
            (Phase::OpeningOuter, Reply::Done(Err(e))) => Step::Finished(Err(e)),
            (Phase::OpeningAttempt, Reply::Done(Ok(_))) => self.at(Phase::Running),
            (Phase::OpeningAttempt, Reply::Done(Err(e))) => self.after_failure(e),
            (Phase::Running, Reply::Returned(Ok(v))) => self.at(Phase::CommittingAttempt(v)),
            (Phase::Running, Reply::Returned(Err(e))) => self.at(Phase::RollingBackAttempt(e)),
            (Phase::CommittingAttempt(v), Reply::Done(Ok(_))) => self.at(Phase::CommittingOuter(v)),
            (Phase::CommittingAttempt(_), Reply::Done(Err(e))) => self.after_failure(e),
            (Phase::RollingBackAttempt(e), Reply::Done(Ok(_))) => self.after_failure(e),
            (Phase::RollingBackAttempt(_), Reply::Done(Err(e))) => self.after_failure(e),
            (Phase::CommittingOuter(v), Reply::Done(Ok(_))) => Step::Finished(Ok(v)),
            (Phase::CommittingOuter(_), Reply::Done(Err(e))) => Step::Finished(Err(e)),
            (Phase::RollingBackOuter(e), Reply::Done(Ok(_))) => Step::Finished(Err(e)),
            (Phase::RollingBackOuter(_), Reply::Done(Err(e))) => Step::Finished(Err(e)),
            _ => Step::Rejected(self, reply),
        }
    }

    /// Whether `reply` answers the pending action: the unit of work's result
    /// while it runs, the outcome of a scope operation otherwise.
    pub open spec fn accepts(self, reply: Reply<T>) -> bool {
        (self.phase is Running) == (reply is Returned)
    }

    /// Starts a call: the first action is to open the outer scope.
    pub fn start(policy: RetryPolicy) -> (m: Executor<T>)
        ensures
            m == Self::initial(policy),
            m.phase.action() == Action::Begin(Scope::Outer),
    {
        Executor { policy, phase: Phase::OpeningOuter }
    }

    /// The action to perform next.
    pub fn pending(&self) -> (a: Action)
        ensures
            a == self.phase.action(),
    {
        match &self.phase {
            Phase::OpeningOuter => Action::Begin(Scope::Outer),
            Phase::OpeningAttempt => Action::Begin(Scope::Attempt),
            Phase::Running => Action::Invoke,
            Phase::CommittingAttempt(_) => Action::Commit(Scope::Attempt),
            Phase::RollingBackAttempt(_) => Action::Rollback(Scope::Attempt),
            Phase::CommittingOuter(_) => Action::Commit(Scope::Outer),
            Phase::RollingBackOuter(_) => Action::Rollback(Scope::Outer),
        }
    }

    /// Classifies the error of a failed attempt and decides between the next
    /// attempt and the unwinding of the outer scope.
    fn fail(policy: RetryPolicy, e: TxnError) -> (r: Step<T>)
        ensures
            r == (Executor::<T> { policy, phase: Phase::OpeningOuter }).after_failure(e),
    {
        if policy.is_retry_signal(&e) {
            Step::Next(Executor { policy, phase: Phase::OpeningAttempt })
        } else {
            Step::Next(Executor { policy, phase: Phase::RollingBackOuter(e) })
        }
    }

    /// Takes the reply to the pending action and decides what follows.
    pub fn step(self, reply: Reply<T>) -> (r: Step<T>)
        ensures
            r == self.next(reply),
            r is Rejected <==> !self.accepts(reply),
            r matches Step::Next(m) ==> m.policy == self.policy,
    {
        let policy = self.policy;
        match (self.phase, reply) {
            (Phase::OpeningOuter, Reply::Done(Ok(_))) => Step::Next(
                Executor { policy, phase: Phase::OpeningAttempt },
            ),
            (Phase::OpeningOuter, Reply::Done(Err(e))) => Step::Finished(Err(e)),
            (Phase::OpeningAttempt, Reply::Done(Ok(_))) => Step::Next(
                Executor { policy, phase: Phase::Running },
            ),
            (Phase::OpeningAttempt, Reply::Done(Err(e))) => Self::fail(policy, e),
            (Phase::Running, Reply::Returned(Ok(v))) => Step::Next(
                Executor { policy, phase: Phase::CommittingAttempt(v) },
            ),
            (Phase::Running, Reply::Returned(Err(e))) => Step::Next(
                Executor { policy, phase: Phase::RollingBackAttempt(e) },
            ),
            (Phase::CommittingAttempt(v), Reply::Done(Ok(_))) => Step::Next(
                Executor { policy, phase: Phase::CommittingOuter(v) },
            ),
            (Phase::CommittingAttempt(_), Reply::Done(Err(e))) => Self::fail(policy, e),
            (Phase::RollingBackAttempt(e), Reply::Done(Ok(_))) => Self::fail(policy, e),
            (Phase::RollingBackAttempt(_), Reply::Done(Err(e))) => Self::fail(policy, e),
            (Phase::CommittingOuter(v), Reply::Done(Ok(_))) => Step::Finished(Ok(v)),
            (Phase::CommittingOuter(_), Reply::Done(Err(e))) => Step::Finished(Err(e)),
            (Phase::RollingBackOuter(e), Reply::Done(Ok(_))) => Step::Finished(Err(e)),
            (Phase::RollingBackOuter(_), Reply::Done(Err(e))) => Step::Finished(Err(e)),
            (phase, reply) => Step::Rejected(Executor { policy, phase }, reply),
        }
    }
}

} // verus!
