//! What holds of every run of the runner: of every finished run of its
//! protocol, and so of every outcome of `run_in_transaction`, whose contract
//! is tied to the protocol both over values and over the borrowed handle.

use vstd::prelude::*;
use crate::protocol::{replay, Action, Event, Phase};
use crate::runner::{committed, finalized, rolled_back, transacted, RunError};
use crate::tx::Tx;

verus! {

/// How often `wanted` occurs among `actions`.
pub open spec fn count<T, E, D>(actions: Seq<Action<T, E, D>>, wanted: Action<T, E, D>) -> nat
    decreases actions.len(),
{
    if actions.len() == 0 {
        0
    } else {
        count(actions.drop_last(), wanted) + if actions.last() == wanted {
            1nat
        } else {
            0nat
        }
    }
}

/// Whether the composed transaction of the run reported by `events` ended
/// with `ran`.
pub open spec fn transaction_ended<T, E, D>(events: Seq<Event<T, E, D>>, ran: Result<T, E>) -> bool {
    exists|i: int| 0 <= i < events.len() && #[trigger] events[i] == Event::<T, E, D>::Ran(ran)
}

/// `replay` in closed form: where a run stands and what it has asked for,
/// read off the events themselves. A run takes at most three events.
spec fn course<T, E, D>(events: Seq<Event<T, E, D>>) -> Option<(Phase<T, E>, Seq<Action<T, E, D>>)> {
    if events.len() == 0 {
        Some((Phase::Acquiring, seq![Action::Begin]))
    } else if events.len() > 3 {
        None
    } else {
        match events[0] {
            Event::Acquired(Err(d)) => if events.len() == 1 {
                Some((Phase::Finished, seq![Action::Begin, Action::Finish(Err(RunError::Acquire(d)))]))
            } else {
                None
            },
            Event::Acquired(Ok(_)) => if events.len() == 1 {
                Some((Phase::Running, seq![Action::Begin, Action::Run]))
            } else {
                match events[1] {
                    Event::Ran(Ok(item)) => if events.len() == 2 {
                        Some((Phase::Committing(item), seq![Action::Begin, Action::Run, Action::Commit]))
                    } else {
                        match events[2] {
                            Event::Committed(done) => Some(
                                (
                                    Phase::Finished,
                                    seq![
                                        Action::Begin,
                                        Action::Run,
                                        Action::Commit,
                                        Action::Finish(committed(item, done)),
                                    ],
                                ),
                            ),
                            _ => None,
                        }
                    },
                    Event::Ran(Err(error)) => if events.len() == 2 {
                        Some(
                            (
                                Phase::RollingBack(error),
                                seq![Action::Begin, Action::Run, Action::Rollback],
                            ),
                        )
                    } else {
                        match events[2] {
                            Event::RolledBack(done) => Some(
                                (
                                    Phase::Finished,
                                    seq![
                                        Action::Begin,
                                        Action::Run,
                                        Action::Rollback,
                                        Action::Finish(rolled_back(error, done)),
                                    ],
                                ),
                            ),
                            _ => None,
                        }
                    },
                    _ => None,
                }
            },
            _ => None,
        }
    }
}

/// `replay` and its closed form agree on every sequence of events.
proof fn lemma_replay_in_closed_form<T, E, D>(events: Seq<Event<T, E, D>>)
    ensures
        replay(events) == course(events),
    decreases events.len(),
{
    if events.len() > 0 {
        lemma_replay_in_closed_form(events.drop_last());
    }
}

/// Counting over a sequence that is written out: one more action at the
/// end adds one to the count if it is the wanted one.
proof fn lemma_count_push<T, E, D>(
    actions: Seq<Action<T, E, D>>,
    action: Action<T, E, D>,
    wanted: Action<T, E, D>,
)
    ensures
        count(actions.push(action), wanted) == count(actions, wanted) + if action == wanted {
            1nat
        } else {
            0nat
        },
{
    assert(actions.push(action).drop_last() =~= actions);
}

/// The counts of commits and rollbacks in the four actions of a run that
/// went through to its finalization.
proof fn lemma_count_finalized<T, E, D>(
    finalize: Action<T, E, D>,
    outcome: Result<T, RunError<E, D>>,
    wanted: Action<T, E, D>,
)
    requires
        finalize == Action::<T, E, D>::Commit || finalize == Action::<T, E, D>::Rollback,
        wanted == Action::<T, E, D>::Commit || wanted == Action::<T, E, D>::Rollback,
    ensures
        count(seq![Action::Begin, Action::Run, finalize, Action::Finish(outcome)], wanted) == if finalize
            == wanted {
            1nat
        } else {
            0nat
        },
{
    let none = Seq::<Action<T, E, D>>::empty();
    lemma_count_push(none, Action::Begin, wanted);
    lemma_count_push(none.push(Action::Begin), Action::Run, wanted);
    lemma_count_push(none.push(Action::Begin).push(Action::Run), finalize, wanted);
    lemma_count_push(
        none.push(Action::Begin).push(Action::Run).push(finalize),
        Action::Finish(outcome),
        wanted,
    );
    assert(none.push(Action::Begin).push(Action::Run).push(finalize).push(Action::Finish(outcome))
        =~= seq![Action::Begin, Action::Run, finalize, Action::Finish(outcome)]);
}

/// Commit law. In a finished run whose transaction succeeded with `item`,
/// the actions were: begin, run, commit, finish. There is exactly one commit
/// and no rollback among them, and the outcome is the item if the commit
/// succeeded and the commit's error if it did not.
pub proof fn law_success_commits_exactly_once<T, E, D>(
    events: Seq<Event<T, E, D>>,
    actions: Seq<Action<T, E, D>>,
    item: T,
)
    requires
        replay(events) == Some((Phase::<T, E>::Finished, actions)),
        transaction_ended(events, Ok(item)),
    ensures
        count(actions, Action::Commit) == 1,
        count(actions, Action::Rollback) == 0,
        events.len() == 3 && events[2] is Committed,
        actions == seq![
            Action::<T, E, D>::Begin,
            Action::Run,
            Action::Commit,
            Action::Finish(committed(item, events[2]->Committed_0)),
        ],
{
    lemma_replay_in_closed_form(events);
    let outcome = committed::<T, E, D>(item, events[2]->Committed_0);
    lemma_count_finalized(Action::<T, E, D>::Commit, outcome, Action::Commit);
    lemma_count_finalized(Action::<T, E, D>::Commit, outcome, Action::Rollback);
}

/// Rollback law. In a finished run whose transaction failed with `error`,
/// the actions were: begin, run, rollback, finish. There is exactly one
/// rollback and no commit among them.
pub proof fn law_failure_rolls_back_exactly_once<T, E, D>(
    events: Seq<Event<T, E, D>>,
    actions: Seq<Action<T, E, D>>,
    error: E,
)
    requires
        replay(events) == Some((Phase::<T, E>::Finished, actions)),
        transaction_ended(events, Err(error)),
    ensures
        count(actions, Action::Rollback) == 1,
        count(actions, Action::Commit) == 0,
        events.len() == 3 && events[2] is RolledBack,
        actions == seq![
            Action::<T, E, D>::Begin,
            Action::Run,
            Action::Rollback,
            Action::Finish(rolled_back(error, events[2]->RolledBack_0)),
        ],
{
    lemma_replay_in_closed_form(events);
    let outcome = rolled_back::<T, E, D>(error, events[2]->RolledBack_0);
    lemma_count_finalized(Action::<T, E, D>::Rollback, outcome, Action::Commit);
    lemma_count_finalized(Action::<T, E, D>::Rollback, outcome, Action::Rollback);
}

/// Rollback precedence. In a finished run whose transaction failed with
/// `error`, the outcome is that failure, whatever the rollback reported: an
/// error of the rollback is attached to it and never takes its place.
pub proof fn law_rollback_error_is_subordinate<T, E, D>(
    events: Seq<Event<T, E, D>>,
    actions: Seq<Action<T, E, D>>,
    error: E,
)
    requires
        replay(events) == Some((Phase::<T, E>::Finished, actions)),
        transaction_ended(events, Err(error)),
    ensures
        actions.last() matches Action::Finish(Err(RunError::Leaf { error: first, rollback }))
            && first == error && (forall|d: D|
            events.contains(Event::RolledBack(Err(d))) ==> rollback == Some(d)),
{
    lemma_replay_in_closed_form(events);
}

/// In a finished run that obtained no database transaction, nothing was
/// run and nothing was committed or rolled back.
pub proof fn law_acquisition_failure_finalizes_nothing<T, E, D>(
    events: Seq<Event<T, E, D>>,
    actions: Seq<Action<T, E, D>>,
    d: D,
)
    requires
        replay(events) == Some((Phase::<T, E>::Finished, actions)),
        events.len() > 0 && events[0] == Event::<T, E, D>::Acquired(Err(d)),
    ensures
        actions == seq![Action::<T, E, D>::Begin, Action::Finish(Err(RunError::Acquire(d)))],
        count(actions, Action::Run) == 0,
        count(actions, Action::Commit) == 0,
        count(actions, Action::Rollback) == 0,
{
    lemma_replay_in_closed_form(events);
    let none = Seq::<Action<T, E, D>>::empty();
    let finish = Action::<T, E, D>::Finish(Err(RunError::Acquire(d)));
    assert(none.push(Action::Begin).push(finish) =~= actions);
    lemma_count_push(none, Action::Begin, Action::Run);
    lemma_count_push(none.push(Action::Begin), finish, Action::Run);
    lemma_count_push(none, Action::Begin, Action::Commit);
    lemma_count_push(none.push(Action::Begin), finish, Action::Commit);
    lemma_count_push(none, Action::Begin, Action::Rollback);
    lemma_count_push(none.push(Action::Begin), finish, Action::Rollback);
}

/// The events of a run that failed to obtain a database transaction.
pub open spec fn unacquired<T, E, D>(d: D) -> Seq<Event<T, E, D>> {
    seq![Event::Acquired(Err(d))]
}

/// The events of a run whose transaction ended with `ran` and whose
/// finalization, a commit after a success and a rollback after a failure,
/// ended with `done`.
pub open spec fn finalized_run<T, E, D>(ran: Result<T, E>, done: Result<(), D>) -> Seq<
    Event<T, E, D>,
> {
    seq![
        Event::Acquired(Ok(())),
        Event::Ran(ran),
        if ran is Ok {
            Event::Committed(done)
        } else {
            Event::RolledBack(done)
        },
    ]
}

/// Whether `events` are what a caller of the protocol reports who obtains
/// the handle with `begin`, runs `tx` on it, and finalizes it with `commit`
/// or `rollback`, each on the handle as `tx` left it.
pub open spec fn reported<Ctx, X, D, B, C, R>(
    begin: B,
    tx: X,
    commit: C,
    rollback: R,
    events: Seq<Event<X::Item, X::Err, D>>,
) -> bool where
    X: Tx<Ctx>,
    B: FnOnce() -> Result<Ctx, D>,
    C: FnOnce(Ctx) -> Result<(), D>,
    R: FnOnce(Ctx) -> Result<(), D>,
 {
    exists|acquired: Result<Ctx, D>| #[trigger]
        call_ensures(begin, (), acquired) && match acquired {
            Err(d) => events == unacquired::<X::Item, X::Err, D>(d),
            Ok(handle) => exists|left: Ctx, ran: Result<X::Item, X::Err>, done: Result<(), D>|
                {
                    &&& #[trigger] tx.runs(handle, left, ran)
                    &&& events == #[trigger] finalized_run(ran, done)
                    &&& if ran is Ok {
                        call_ensures(commit, (left,), done)
                    } else {
                        call_ensures(rollback, (left,), done)
                    }
                },
        }
}

/// Whether the run reported by `events` is finished and its outcome is
/// `out`.
pub open spec fn finishes_with<T, E, D>(
    events: Seq<Event<T, E, D>>,
    out: Result<T, RunError<E, D>>,
) -> bool {
    replay(events) matches Some((phase, actions)) && phase == Phase::<T, E>::Finished
        && actions.last() == Action::Finish(out)
}

/// The runner follows the protocol. The outcomes of `run_in_transaction`
/// are exactly the outcomes of the finished runs of the protocol in which
/// the events are what `begin`, `tx`, `commit` and `rollback` report. So
/// what holds of every finished run of the protocol holds of the runner.
pub proof fn law_runner_follows_the_protocol<Ctx, X, D, B, C, R>(
    begin: B,
    tx: X,
    commit: C,
    rollback: R,
    out: Result<X::Item, RunError<X::Err, D>>,
) where
    X: Tx<Ctx>,
    B: FnOnce() -> Result<Ctx, D>,
    C: FnOnce(Ctx) -> Result<(), D>,
    R: FnOnce(Ctx) -> Result<(), D>,

    ensures
        transacted(begin, tx, commit, rollback, out) <==> (exists|
            events: Seq<Event<X::Item, X::Err, D>>,
        | #[trigger]
            reported(begin, tx, commit, rollback, events) && finishes_with(events, out)),
{
    if transacted(begin, tx, commit, rollback, out) {
        let acquired = choose|acquired: Result<Ctx, D>| #[trigger]
            call_ensures(begin, (), acquired) && match acquired {
                Err(d) => out == Err::<X::Item, RunError<X::Err, D>>(RunError::Acquire(d)),
                Ok(handle) => exists|left: Ctx, ran: Result<X::Item, X::Err>| #[trigger]
                    tx.runs(handle, left, ran) && finalized(commit, rollback, left, ran, out),
            };
        match acquired {
            Err(d) => {
                let events = unacquired::<X::Item, X::Err, D>(d);
                lemma_replay_in_closed_form(events);
                assert(reported(begin, tx, commit, rollback, events));
                assert(finishes_with(events, out));
            },
            Ok(handle) => {
                let (left, ran) = choose|left: Ctx, ran: Result<X::Item, X::Err>| #[trigger]
                    tx.runs(handle, left, ran) && finalized(commit, rollback, left, ran, out);
                let done = match ran {
                    Ok(item) => choose|done: Result<(), D>| #[trigger]
                        call_ensures(commit, (left,), done) && out == committed::<
                            X::Item,
                            X::Err,
                            D,
                        >(item, done),
                    Err(error) => choose|done: Result<(), D>| #[trigger]
                        call_ensures(rollback, (left,), done) && out == rolled_back::<
                            X::Item,
                            X::Err,
                            D,
                        >(error, done),
                };
                let events = finalized_run(ran, done);
                lemma_replay_in_closed_form(events);
                assert(reported(begin, tx, commit, rollback, events));
                assert(finishes_with(events, out));
            },
        }
    }
    if exists|events: Seq<Event<X::Item, X::Err, D>>| #[trigger]
        reported(begin, tx, commit, rollback, events) && finishes_with(events, out) {
        let events = choose|events: Seq<Event<X::Item, X::Err, D>>| #[trigger]
            reported(begin, tx, commit, rollback, events) && finishes_with(events, out);
        lemma_replay_in_closed_form(events);
        assert(transacted(begin, tx, commit, rollback, out));
    }
}

/// The runner follows the protocol, on the borrowed handle. Every outcome
/// that the contract of `run_in_transaction` allows is the outcome of a
/// finished run of the protocol whose events are these: what `begin`
/// returned; if it gave a handle, what `tx` did on it; and what `commit` or
/// `rollback` returned on the handle as `tx` left it.
pub proof fn law_runner_reports_what_was_done<Ctx, X, D, B, C, R>(
    begin: B,
    tx: X,
    commit: C,
    rollback: R,
    out: Result<X::Item, RunError<X::Err, D>>,
) where
    X: Tx<Ctx>,
    B: FnOnce() -> Result<Ctx, D>,
    C: FnOnce(Ctx) -> Result<(), D>,
    R: FnOnce(Ctx) -> Result<(), D>,

    requires
        exists|acquired: Result<Ctx, D>| #[trigger]
            call_ensures(begin, (), acquired) && match acquired {
                Err(d) => out == Err::<X::Item, RunError<X::Err, D>>(RunError::Acquire(d)),
                Ok(handle) => exists|c: &mut Ctx, ran: Result<X::Item, X::Err>|
                    *c == handle && #[trigger] tx.does(c, ran) && finalized(
                        commit,
                        rollback,
                        *final(c),
                        ran,
                        out,
                    ),
            },
    ensures
        exists|events: Seq<Event<X::Item, X::Err, D>>, acquired: Result<Ctx, D>|
            #![trigger finishes_with(events, out), call_ensures(begin, (), acquired)]
            finishes_with(events, out) && call_ensures(begin, (), acquired) && match acquired {
                Err(d) => events == unacquired::<X::Item, X::Err, D>(d),
                Ok(handle) => exists|c: &mut Ctx, ran: Result<X::Item, X::Err>, done: Result<(), D>|
                    {
                        &&& *c == handle
                        &&& #[trigger] tx.does(c, ran)
                        &&& events == #[trigger] finalized_run(ran, done)
                        &&& if ran is Ok {
                            call_ensures(commit, (*final(c),), done)
                        } else {
                            call_ensures(rollback, (*final(c),), done)
                        }
                    },
            },
{
    let acquired = choose|acquired: Result<Ctx, D>| #[trigger]
        call_ensures(begin, (), acquired) && match acquired {
            Err(d) => out == Err::<X::Item, RunError<X::Err, D>>(RunError::Acquire(d)),
            Ok(handle) => exists|c: &mut Ctx, ran: Result<X::Item, X::Err>|
                *c == handle && #[trigger] tx.does(c, ran) && finalized(
                    commit,
                    rollback,
                    *final(c),
                    ran,
                    out,
                ),
        };
    match acquired {
        Err(d) => {
            let events = unacquired::<X::Item, X::Err, D>(d);
            lemma_replay_in_closed_form(events);
            assert(finishes_with(events, out));
        },
        Ok(handle) => {
            let (c, ran) = choose|c: &mut Ctx, ran: Result<X::Item, X::Err>|
                *c == handle && #[trigger] tx.does(c, ran) && finalized(
                    commit,
                    rollback,
                    *final(c),
                    ran,
                    out,
                );
            let done = match ran {
                Ok(item) => choose|done: Result<(), D>| #[trigger]
                    call_ensures(commit, (*final(c),), done) && out == committed::<
                        X::Item,
                        X::Err,
                        D,
                    >(item, done),
                Err(error) => choose|done: Result<(), D>| #[trigger]
                    call_ensures(rollback, (*final(c),), done) && out == rolled_back::<
                        X::Item,
                        X::Err,
                        D,
                    >(error, done),
            };
            let events = finalized_run(ran, done);
            lemma_replay_in_closed_form(events);
            assert(finishes_with(events, out));
        },
    }
}

} // verus!
