//! Whole calls of the executor: what a sequence of replies leads to, and how
//! often the unit of work is invoked on the way.
//!
//! [`run`] and [`invocations`] define the two, [`replay`] computes them for a
//! recorded sequence of replies, and the lemmas state what holds of a call
//! whose attempts are retried.

use vstd::prelude::*;
use crate::errors::{RetryPolicy, TxnError};
use crate::sql::{Executor, Phase, Reply, Step};

verus! {

impl<T> Step<T> {
    /// The step that `reply` leads to.  A call that is over, or that has
    /// rejected a reply, stays as it is.
    pub open spec fn after(self, reply: Reply<T>) -> Step<T> {
        match self {
            Step::Next(m) => m.next(reply),
            _ => self,
        }
    }

    /// The executor goes on, and what it asks for is a call of the unit of
    /// work.
    pub open spec fn invokes(self) -> bool {
        self matches Step::Next(m) && m.phase is Running
    }

    /// Feeds `reply` to the executor, if the call still goes on.
    pub fn advance(self, reply: Reply<T>) -> (r: Step<T>)
        ensures
            r == self.after(reply),
    {
        match self {
            Step::Next(m) => m.step(reply),
            other => other,
        }
    }

    /// Tells whether the unit of work is to be called next.
    pub fn is_invoking(&self) -> (b: bool)
        ensures
            b == self.invokes(),
    {
        match self {
            Step::Next(m) => match &m.phase {
                Phase::Running => true,
                _ => false,
            },
            _ => false,
        }
    }
}

/// Where a call stands as it begins under `policy`.
pub open spec fn begun<T>(policy: RetryPolicy) -> Step<T> {
    Step::Next(Executor::initial(policy))
}

/// Where the call that stood at `from` stands after `replies`, fed in order.
pub open spec fn run<T>(from: Step<T>, replies: Seq<Reply<T>>) -> Step<T>
    decreases replies.len(),
{
    if replies.len() == 0 {
        from
    } else {
        run(from, replies.drop_last()).after(replies.last())
    }
}

/// How often the unit of work is asked for while `replies` are fed to the
/// call that stood at `from`: once for each reply that leads the executor to
/// invoke it.
pub open spec fn invocations<T>(from: Step<T>, replies: Seq<Reply<T>>) -> nat
    decreases replies.len(),
{
    if replies.len() == 0 {
        0
    } else {
        invocations(from, replies.drop_last()) + if run(from, replies).invokes() {
            1nat
        } else {
            0nat
        }
    }
}

/// Runs a call under `policy` over a recorded sequence of replies.  Returns
/// where the call stands at the end, and how often the unit of work was asked
/// for.
pub fn replay<T>(policy: RetryPolicy, replies: Vec<Reply<T>>) -> (r: (Step<T>, usize))
    ensures
        r.0 == run(begun(policy), replies@),
        r.1 == invocations(begun::<T>(policy), replies@),
{
    let ghost all = replies@;
    let len = replies.len();
    let mut state: Step<T> = Step::Next(Executor::start(policy));
    let mut count: usize = 0;
    for reply in it: replies
        invariant
            it.seq() == all,
            state == run(begun(policy), all.take(it.index())),
            count == invocations(begun::<T>(policy), all.take(it.index())),
            count <= it.index(),
            all.len() == len,
    {
        proof {
            assert(all.take(it.index() + 1).drop_last() == all.take(it.index()));
        }
        state = state.advance(reply);
        if state.is_invoking() {
            count = count + 1;
        }
    }
    proof {
        assert(all.take(all.len() as int) == all);
    }
    (state, count)
}

/// One attempt in which the unit of work is invoked, told by how it ends.
pub enum Attempt<T> {
    /// The unit of work returns the value and the attempt commits.
    Commits(T),
    /// The unit of work fails with the error and the attempt is rolled back.
    Fails(TxnError),
    /// The unit of work returns the value, but the commit of the attempt fails
    /// with the error.
    CommitFails(T, TxnError),
}

impl<T> Attempt<T> {
    /// The replies that the executor gets in the course of the attempt: to
    /// the opening of the attempt, to the call of the unit of work, and to
    /// the commit or rollback of the attempt.
    pub open spec fn replies(self) -> Seq<Reply<T>> {
        match self {
            Attempt::Commits(v) => seq![
                Reply::Done(Ok(())),
                Reply::Returned(Ok(v)),
                Reply::Done(Ok(())),
            ],
            Attempt::Fails(e) => seq![
                Reply::Done(Ok(())),
                Reply::Returned(Err(e)),
                Reply::Done(Ok(())),
            ],
            Attempt::CommitFails(v, e) => seq![
                Reply::Done(Ok(())),
                Reply::Returned(Ok(v)),
                Reply::Done(Err(e)),
            ],
        }
    }

    /// What the attempt comes to.
    pub open spec fn outcome(self) -> Result<T, TxnError> {
        match self {
            Attempt::Commits(v) => Ok(v),
            Attempt::Fails(e) => Err(e),
            Attempt::CommitFails(_, e) => Err(e),
        }
    }
}

/// Every one of the attempts ends in a retry signal.
pub open spec fn all_retried<T>(policy: RetryPolicy, attempts: Seq<Attempt<T>>) -> bool {
    forall|i: int|
        0 <= i < attempts.len() ==> ((#[trigger] attempts[i]).outcome() matches Err(e)
            && policy.retries(e))
}

/// The replies of the attempts, one attempt after the other.
pub open spec fn replies_of<T>(attempts: Seq<Attempt<T>>) -> Seq<Reply<T>>
    decreases attempts.len(),
{
    if attempts.len() == 0 {
        Seq::empty()
    } else {
        replies_of(attempts.drop_last()) + attempts.last().replies()
    }
}

/// The replies of a whole call: the outer scope opens, the attempts in
/// `retried` take place, then the attempt `last`, and the commit or rollback
/// of the outer scope that follows is answered by `closing`.
pub open spec fn call<T>(
    retried: Seq<Attempt<T>>,
    last: Attempt<T>,
    closing: Result<(), TxnError>,
) -> Seq<Reply<T>> {
    seq![Reply::Done(Ok(()))] + replies_of(retried) + last.replies() + seq![Reply::Done(closing)]
}

/// Where the executor stands when an attempt is to be opened.
pub open spec fn attempting<T>(policy: RetryPolicy) -> Step<T> {
    Step::Next(Executor { policy, phase: Phase::OpeningAttempt })
}

/// Where the executor stands when an attempt has come to `outcome`: at the
/// commit of the outer scope when the attempt committed, at the next attempt
/// when it ended in a retry signal, at the rollback of the outer scope
/// otherwise.
pub open spec fn attempted<T>(policy: RetryPolicy, outcome: Result<T, TxnError>) -> Step<T> {
    match outcome {
        Ok(v) => Step::Next(Executor { policy, phase: Phase::CommittingOuter(v) }),
        Err(e) => Executor::<T>::initial(policy).after_failure(e),
    }
}

/// Feeding `a` and then `b` is feeding `a + b`, and the invocations add up.
pub proof fn lemma_run_split<T>(from: Step<T>, a: Seq<Reply<T>>, b: Seq<Reply<T>>)
    ensures
        run(from, a + b) == run(run(from, a), b),
        invocations(from, a + b) == invocations(from, a) + invocations(run(from, a), b),
    decreases b.len(),
{
    if b.len() == 0 {
        assert(a + b == a);
    } else {
        assert((a + b).drop_last() == a + b.drop_last());
        assert((a + b).last() == b.last());
        lemma_run_split(from, a, b.drop_last());
    }
}

/// A single reply is one step.
pub proof fn lemma_run_one<T>(from: Step<T>, x: Reply<T>)
    ensures
        run(from, seq![x]) == from.after(x),
        invocations(from, seq![x]) == if from.after(x).invokes() {
            1nat
        } else {
            0nat
        },
{
    let s = seq![x];
    assert(s.drop_last() == Seq::<Reply<T>>::empty());
    assert(s.last() == x);
    assert(run(from, s.drop_last()) == from);
    assert(invocations(from, s.drop_last()) == 0);
}

/// Three replies are three steps.
proof fn lemma_run_three<T>(from: Step<T>, x: Reply<T>, y: Reply<T>, z: Reply<T>)
    ensures
        run(from, seq![x, y, z]) == from.after(x).after(y).after(z),
        invocations(from, seq![x, y, z]) == (if from.after(x).invokes() {
            1nat
        } else {
            0nat
        }) + (if from.after(x).after(y).invokes() {
            1nat
        } else {
            0nat
        }) + (if from.after(x).after(y).after(z).invokes() {
            1nat
        } else {
            0nat
        }),
{
    assert(seq![x, y, z] == seq![x] + seq![y] + seq![z]);
    lemma_run_one(from, x);
    lemma_run_one(from.after(x), y);
    lemma_run_one(from.after(x).after(y), z);
    lemma_run_split(from, seq![x], seq![y]);
    lemma_run_split(from, seq![x] + seq![y], seq![z]);
}

/// An attempt takes the executor from the opening of the attempt to what
/// the attempt's outcome asks for, and the unit of work is invoked once.
pub proof fn lemma_attempt<T>(policy: RetryPolicy, attempt: Attempt<T>)
    ensures
        run(attempting(policy), attempt.replies()) == attempted(policy, attempt.outcome()),
        invocations(attempting(policy), attempt.replies()) == 1,
{
    let from = attempting::<T>(policy);
    let r = attempt.replies();
    lemma_run_three(from, r[0], r[1], r[2]);
    assert(r == seq![r[0], r[1], r[2]]);
}

/// While every attempt ends in a retry signal, the executor opens another:
/// after `attempts.len()` such attempts it has invoked the unit of work as
/// many times and stands at the opening of the next attempt.
pub proof fn lemma_retried_attempts<T>(policy: RetryPolicy, attempts: Seq<Attempt<T>>)
    requires
        all_retried(policy, attempts),
    ensures
        run(begun(policy), seq![Reply::Done(Ok(()))] + replies_of(attempts)) == attempting::<T>(
            policy,
        ),
        invocations(begun(policy), seq![Reply::Done(Ok(()))] + replies_of(attempts))
            == attempts.len(),
    decreases attempts.len(),
{
    let open = seq![Reply::<T>::Done(Ok(()))];
    if attempts.len() == 0 {
        assert(open + replies_of(attempts) == open);
        lemma_run_one(begun(policy), Reply::<T>::Done(Ok(())));
    } else {
        let before = attempts.drop_last();
        let last = attempts.last();
        assert(all_retried(policy, before)) by {
            assert forall|i: int| 0 <= i < before.len() implies ((#[trigger] before[i]).outcome()
                matches Err(e) && policy.retries(e)) by {
                assert(before[i] == attempts[i]);
            }
        }
        lemma_retried_attempts(policy, before);
        assert(open + replies_of(attempts) == (open + replies_of(before)) + last.replies());
        lemma_run_split(begun(policy), open + replies_of(before), last.replies());
        lemma_attempt(policy, last);
        assert(attempts[attempts.len() - 1] == last);
    }
}

/// What a whole call comes to: after the attempts in `retried`, each ending
/// in a retry signal, and the attempt `last`, the executor stands where the
/// outcome of `last` alone leads it, and `closing` is fed to it there.  The
/// unit of work has been invoked once per attempt, and once more if `closing`
/// has opened yet another attempt.
pub proof fn lemma_last_attempt<T>(
    policy: RetryPolicy,
    retried: Seq<Attempt<T>>,
    last: Attempt<T>,
    closing: Result<(), TxnError>,
)
    requires
        all_retried(policy, retried),
    ensures
        run(begun(policy), call(retried, last, closing)) == attempted(
            policy,
            last.outcome(),
        ).after(Reply::Done(closing)),
        invocations(begun(policy), call(retried, last, closing)) == retried.len() + 1 + (
        if attempted(policy, last.outcome()).after(Reply::Done(closing)).invokes() {
            1nat
        } else {
            0nat
        }),
{
    let head = seq![Reply::<T>::Done(Ok(()))] + replies_of(retried);
    let at_last = attempting::<T>(policy);
    lemma_retried_attempts(policy, retried);
    lemma_attempt(policy, last);
    lemma_run_split(begun(policy), head, last.replies());
    let after_last = run(at_last, last.replies());
    lemma_run_one(after_last, Reply::Done(closing));
    lemma_run_split(begun(policy), head + last.replies(), seq![Reply::Done(closing)]);
}

/// Retries are transparent.  When the database answers `retried.len()`
/// attempts in a row with a retry signal and then lets one commit, the unit
/// of work is invoked once more than it was retried, and the call returns the
/// value of its last invocation.
pub proof fn lemma_retries_then_commit<T>(policy: RetryPolicy, retried: Seq<Attempt<T>>, v: T)
    requires
        all_retried(policy, retried),
    ensures
        run(begun(policy), call(retried, Attempt::Commits(v), Ok(()))) == Step::Finished(Ok(v)),
        invocations(begun(policy), call(retried, Attempt::Commits(v), Ok(()))) == retried.len()
            + 1,
{
    lemma_last_attempt(policy, retried, Attempt::Commits(v), Ok(()));
}

/// A terminal error ends the call.  When an attempt ends in an error that is
/// no retry signal, the unit of work is not invoked again, and once the outer
/// scope is rolled back the call returns that very error.
pub proof fn lemma_terminal_error_ends_call<T>(
    policy: RetryPolicy,
    retried: Seq<Attempt<T>>,
    last: Attempt<T>,
    e: TxnError,
)
    requires
        all_retried(policy, retried),
        last.outcome() == Err::<T, TxnError>(e),
        !policy.retries(e),
    ensures
        run(begun(policy), call(retried, last, Ok(()))) == Step::<T>::Finished(Err(e)),
        invocations(begun(policy), call(retried, last, Ok(()))) == retried.len() + 1,
{
    lemma_last_attempt(policy, retried, last, Ok(()));
}

/// A terminal error short-circuits.  When the first invocation of the unit
/// of work fails with an error that is no retry signal, the unit of work is
/// invoked exactly once and the call returns that error unchanged.
pub proof fn lemma_first_error_short_circuits<T>(policy: RetryPolicy, e: TxnError)
    requires
        !policy.retries(e),
    ensures
        run(
            begun::<T>(policy),
            seq![
                Reply::Done(Ok(())),
                Reply::Done(Ok(())),
                Reply::Returned(Err(e)),
                Reply::Done(Ok(())),
                Reply::Done(Ok(())),
            ],
        ) == Step::<T>::Finished(Err(e)),
        invocations(
            begun::<T>(policy),
            seq![
                Reply::Done(Ok(())),
                Reply::Done(Ok(())),
                Reply::Returned(Err(e)),
                Reply::Done(Ok(())),
                Reply::Done(Ok(())),
            ],
        ) == 1,
{
    let none = Seq::<Attempt<T>>::empty();
    lemma_terminal_error_ends_call(policy, none, Attempt::Fails(e), e);
    assert(replies_of(none) == Seq::<Reply<T>>::empty());
    assert(call(none, Attempt::<T>::Fails(e), Ok(())) == seq![
        Reply::<T>::Done(Ok(())),
        Reply::Done(Ok(())),
        Reply::Returned(Err(e)),
        Reply::Done(Ok(())),
        Reply::Done(Ok(())),
    ]);
}

} // verus!
