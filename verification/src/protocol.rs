//! The runner's decisions as a state machine, for callers that perform the
//! database operations themselves (because they are asynchronous, say).
//!
//! The caller starts with `Phase::start`, carries out the action it is
//! handed, and reports what happened with `Phase::step`, which hands out the
//! next action. `Action::Finish` carries the outcome of the run and ends it.

use vstd::prelude::*;
use crate::runner::{committed, conclude_commit, conclude_rollback, rolled_back, RunError};

verus! {

/// Where a run stands. `T` is the item type of the composed transaction and
/// `E` its error type.
#[derive(Debug, PartialEq, Eq)]
pub enum Phase<T, E> {
    /// A database transaction has been asked for.
    Acquiring,
    /// The composed transaction is running on the handle.
    Running,
    /// The transaction produced this item; the commit is under way.
    Committing(T),
    /// The transaction failed with this error; the rollback is under way.
    RollingBack(E),
    /// The outcome has been handed out.
    Finished,
}

/// What the caller reports back. `D` is the error type of the database
/// operations.
#[derive(Debug, PartialEq, Eq)]
pub enum Event<T, E, D> {
    /// How obtaining a database transaction ended.
    Acquired(Result<(), D>),
    /// The outcome of the composed transaction.
    Ran(Result<T, E>),
    /// How the commit ended.
    Committed(Result<(), D>),
    /// How the rollback ended.
    RolledBack(Result<(), D>),
}

/// What the caller is to do next.
#[derive(Debug, PartialEq, Eq)]
pub enum Action<T, E, D> {
    /// Obtain a database transaction.
    Begin,
    /// Run the composed transaction on the handle.
    Run,
    /// Commit the database transaction.
    Commit,
    /// Roll the database transaction back.
    Rollback,
    /// Stop: this is the outcome of the run.
    Finish(Result<T, RunError<E, D>>),
}

/// The next phase and action when `event` is reported in `phase`, or `None`
/// if that event cannot occur in that phase.
pub open spec fn transition<T, E, D>(phase: Phase<T, E>, event: Event<T, E, D>) -> Option<
    (Phase<T, E>, Action<T, E, D>),
> {
    match (phase, event) {
        (Phase::Acquiring, Event::Acquired(Ok(_))) => Some((Phase::Running, Action::Run)),
        (Phase::Acquiring, Event::Acquired(Err(d))) => Some(
            (Phase::Finished, Action::Finish(Err(RunError::Acquire(d)))),
        ),
        (Phase::Running, Event::Ran(Ok(item))) => Some((Phase::Committing(item), Action::Commit)),
        (Phase::Running, Event::Ran(Err(error))) => Some(
            (Phase::RollingBack(error), Action::Rollback),
        ),
        (Phase::Committing(item), Event::Committed(done)) => Some(
            (Phase::Finished, Action::Finish(committed(item, done))),
        ),
        (Phase::RollingBack(error), Event::RolledBack(done)) => Some(
            (Phase::Finished, Action::Finish(rolled_back(error, done))),
        ),
        _ => None,
    }
}

/// The phase reached and the actions handed out so far, in order, when a run
/// is started and `events` are reported one after the other; `None` if one
/// of them could not occur where it stands.
pub open spec fn replay<T, E, D>(events: Seq<Event<T, E, D>>) -> Option<
    (Phase<T, E>, Seq<Action<T, E, D>>),
>
    decreases events.len(),
{
    if events.len() == 0 {
        Some((Phase::Acquiring, seq![Action::Begin]))
    } else {
        match replay(events.drop_last()) {
            Some((phase, actions)) => match transition(phase, events.last()) {
                Some((next, action)) => Some((next, actions.push(action))),
                None => None,
            },
            None => None,
        }
    }
}

impl<T, E> Phase<T, E> {
    /// Starts a run: the first thing to do is to obtain a database
    /// transaction.
    pub fn start<D>() -> (first: (Phase<T, E>, Action<T, E, D>))
        ensures
            first == (Phase::<T, E>::Acquiring, Action::<T, E, D>::Begin),
            replay(Seq::<Event<T, E, D>>::empty()) == Some((first.0, seq![first.1])),
    {
        (Phase::Acquiring, Action::Begin)
    }

    /// Takes the report of what happened and decides what to do next.
    /// Returns `None`, and the run cannot go on, if `event` does not answer
    /// the action that led to this phase.
    pub fn step<D>(self, event: Event<T, E, D>) -> (next: Option<(Phase<T, E>, Action<T, E, D>)>)
        ensures
            next == transition(self, event),
    {
        match (self, event) {
            (Phase::Acquiring, Event::Acquired(Ok(_))) => Some((Phase::Running, Action::Run)),
            (Phase::Acquiring, Event::Acquired(Err(d))) => Some(
                (Phase::Finished, Action::Finish(Err(RunError::Acquire(d)))),
            ),
            (Phase::Running, Event::Ran(Ok(item))) => Some(
                (Phase::Committing(item), Action::Commit),
            ),
            (Phase::Running, Event::Ran(Err(error))) => Some(
                (Phase::RollingBack(error), Action::Rollback),
            ),
            (Phase::Committing(item), Event::Committed(done)) => Some(
                (Phase::Finished, Action::Finish(conclude_commit(item, done))),
            ),
            (Phase::RollingBack(error), Event::RolledBack(done)) => Some(
                (Phase::Finished, Action::Finish(conclude_rollback(error, done))),
            ),
            _ => None,
        }
    }
}

} // verus!
