//! The runner: executes a composed transaction inside a database transaction
//! and commits or rolls back according to the outcome.
//!
//! The database is an outside collaborator. To the runner it is three
//! operations: `begin` obtains a handle to a fresh database transaction,
//! which serves as the context of the composed transaction; `commit` and
//! `rollback` each consume the handle and finalize it.

use vstd::prelude::*;
use crate::tx::Tx;

verus! {

/// Why a run did not end in a committed success. `E` is the error type of
/// the composed transaction, `D` that of the database operations.
#[derive(Debug, PartialEq, Eq)]
pub enum RunError<E, D> {
    /// No database transaction could be obtained; nothing was run.
    Acquire(D),
    /// The composed transaction failed with `error` and the database
    /// transaction was rolled back. If the rollback failed as well, its
    /// error is attached as `rollback`; it never replaces `error`.
    Leaf {
        /// The failure of the composed transaction.
        error: E,
        /// The error of the rollback, if it failed.
        rollback: Option<D>,
    },
    /// The composed transaction succeeded but the commit failed.
    Commit(D),
}

impl<E, D> RunError<E, D> {
    /// The failure in the error type of the transaction: its own error as
    /// it is, an error of the database through `convert`. An error of the
    /// rollback that is attached to a failure of the transaction is dropped.
    pub fn into_domain<F>(self, convert: F) -> (error: E) where F: FnOnce(D) -> E
        requires
            self.database_error() matches Some(d) ==> call_requires(convert, (d,)),
        ensures
            match self {
                RunError::Leaf { error: first, .. } => error == first,
                RunError::Acquire(d) => call_ensures(convert, (d,), error),
                RunError::Commit(d) => call_ensures(convert, (d,), error),
            },
    {
        match self {
            RunError::Leaf { error, .. } => error,
            RunError::Acquire(d) => convert(d),
            RunError::Commit(d) => convert(d),
        }
    }

    /// The error of the database that is the cause of this failure, if the
    /// cause is not the transaction itself.
    pub open spec fn database_error(self) -> Option<D> {
        match self {
            RunError::Leaf { .. } => None,
            RunError::Acquire(d) => Some(d),
            RunError::Commit(d) => Some(d),
        }
    }
}

/// The outcome of a run whose transaction produced `item` and whose commit
/// ended with `done`.
pub open spec fn committed<T, E, D>(item: T, done: Result<(), D>) -> Result<T, RunError<E, D>> {
    match done {
        Ok(_) => Ok(item),
        Err(d) => Err(RunError::Commit(d)),
    }
}

/// The outcome of a run whose transaction failed with `error` and whose
/// rollback ended with `done`.
pub open spec fn rolled_back<T, E, D>(error: E, done: Result<(), D>) -> Result<
    T,
    RunError<E, D>,
> {
    Err(
        RunError::Leaf {
            error,
            rollback: match done {
                Ok(_) => None,
                Err(d) => Some(d),
            },
        },
    )
}

/// The outcome of a run after its commit: the item if the commit succeeded,
/// the commit's error otherwise.
pub fn conclude_commit<T, E, D>(item: T, done: Result<(), D>) -> (out: Result<T, RunError<E, D>>)
    ensures
        out == committed::<T, E, D>(item, done),
{
    match done {
        Ok(_) => Ok(item),
        Err(d) => Err(RunError::Commit(d)),
    }
}

/// The outcome of a run after its rollback: always the failure of the
/// transaction, with the rollback's own error attached if it had one.
pub fn conclude_rollback<T, E, D>(error: E, done: Result<(), D>) -> (out: Result<
    T,
    RunError<E, D>,
>)
    ensures
        out == rolled_back::<T, E, D>(error, done),
        out matches Err(RunError::Leaf { error: first, .. }) && first == error,
{
    let rollback = match done {
        Ok(_) => None,
        Err(d) => Some(d),
    };
    Err(RunError::Leaf { error, rollback })
}

/// Whether `out` may be the outcome of a run whose transaction ended with
/// `ran` and left the handle holding `left`: `commit` was called on it after
/// a success, `rollback` after a failure, and `out` is what `committed` or
/// `rolled_back` makes of the result.
pub open spec fn finalized<Ctx, T, E, D, C, R>(
    commit: C,
    rollback: R,
    left: Ctx,
    ran: Result<T, E>,
    out: Result<T, RunError<E, D>>,
) -> bool where C: FnOnce(Ctx) -> Result<(), D>, R: FnOnce(Ctx) -> Result<(), D> {
    match ran {
        Ok(item) => exists|done: Result<(), D>| #[trigger]
            call_ensures(commit, (left,), done) && out == committed::<T, E, D>(item, done),
        Err(error) => exists|done: Result<(), D>| #[trigger]
            call_ensures(rollback, (left,), done) && out == rolled_back::<T, E, D>(error, done),
    }
}

/// Whether `out` may be the outcome of running `tx` between `begin` and
/// `commit` or `rollback`: either `begin` failed, nothing else was called
/// and `out` is its error; or `begin` gave a handle, `tx` ran on it, and the
/// run was finalized on the handle as `tx` left it. This is the relation
/// over values, by `runs`; the contract of `run_in_transaction` also says
/// the same over the borrowed handle, by `does`.
pub open spec fn transacted<Ctx, X, D, B, C, R>(
    begin: B,
    tx: X,
    commit: C,
    rollback: R,
    out: Result<X::Item, RunError<X::Err, D>>,
) -> bool where
    X: Tx<Ctx>,
    B: FnOnce() -> Result<Ctx, D>,
    C: FnOnce(Ctx) -> Result<(), D>,
    R: FnOnce(Ctx) -> Result<(), D>,
 {
    exists|acquired: Result<Ctx, D>| #[trigger]
        call_ensures(begin, (), acquired) && match acquired {
            Err(d) => out == Err::<X::Item, RunError<X::Err, D>>(RunError::Acquire(d)),
            Ok(handle) => exists|left: Ctx, ran: Result<X::Item, X::Err>| #[trigger]
                tx.runs(handle, left, ran) && finalized(commit, rollback, left, ran, out),
        }
}

/// Runs `tx` inside a database transaction.
///
/// Obtains a handle with `begin`; if that fails, returns
/// `RunError::Acquire` without running anything. Otherwise runs `tx` on the
/// handle. On success commits, and returns the item, or `RunError::Commit`
/// if the commit failed. On failure rolls back, and returns `RunError::Leaf`
/// with the failure of `tx`, whatever the rollback reported. `commit` and
/// `rollback` get the handle as `tx` left it.
///
/// The four may be chained where `begin` may be called, `tx` may run on
/// every handle `begin` can give, and `commit` and `rollback` accept the
/// handle as `tx` leaves it after a success or a failure respectively.
///
/// If `tx` unwinds, the handle is dropped without having been committed;
/// rolling back on drop is left to the handle.
pub fn run_in_transaction<Ctx, X, D, B, C, R>(begin: B, tx: X, commit: C, rollback: R) -> (out:
    Result<X::Item, RunError<X::Err, D>>) where
    X: Tx<Ctx>,
    B: FnOnce() -> Result<Ctx, D>,
    C: FnOnce(Ctx) -> Result<(), D>,
    R: FnOnce(Ctx) -> Result<(), D>,

    requires
        call_requires(begin, ()),
        forall|handle: Ctx| #[trigger]
            call_ensures(begin, (), Ok::<Ctx, D>(handle)) ==> {
                &&& tx.can_run(handle)
                &&& forall|c: &mut Ctx, item: X::Item|
                    *c == handle && #[trigger] tx.does(c, Ok(item)) ==> call_requires(
                        commit,
                        (*final(c),),
                    )
                &&& forall|c: &mut Ctx, error: X::Err|
                    *c == handle && #[trigger] tx.does(c, Err(error)) ==> call_requires(
                        rollback,
                        (*final(c),),
                    )
            },
    ensures
        transacted(begin, tx, commit, rollback, out),
        exists|acquired: Result<Ctx, D>| #[trigger]
            call_ensures(begin, (), acquired) && match acquired {
                Err(d) => out == Err::<X::Item, RunError<X::Err, D>>(RunError::Acquire(d)),
                Ok(handle) => exists|c: &mut Ctx, ran: Result<X::Item, X::Err>|
                    *c == handle && #[trigger] tx.does(c, ran) && finalized(
                        commit,
                        rollback,
                        *final(c),
                        ran,
                        out,
                    ),
            },
{
    match begin() {
        Err(d) => Err(RunError::Acquire(d)),
        Ok(mut handle) => match tx.run(&mut handle) {
            Ok(item) => conclude_commit(item, commit(handle)),
            Err(error) => conclude_rollback(error, rollback(handle)),
        },
    }
}

} // verus!
