//! The transaction capability and the lift of plain functions into it.

use vstd::prelude::*;
use crate::join::{Join, Join3, Join4};
use crate::recovery::{Abort, Recover, TryAbort, TryRecover};
use crate::sequence::{AndThen, OrElse, Then};
use crate::transform::{MapErr, MapItem, TryMap};

verus! {

/// A computation that, given exclusive access to a context, either produces
/// an `Item` or fails with an `Err`.
///
/// A transaction is inert until `run` is called, and `run` consumes it: it
/// can be executed at most once.
///
/// The other methods combine transactions. Each only stores its parts; what
/// it builds is a transaction, to be run or combined further, where the
/// parts fit together: a second transaction, or one built by a
/// continuation, must be over the same context and fail with the same error
/// type.
pub trait Tx<Ctx>: Sized {
    /// What a successful execution produces.
    type Item;

    /// What a failed execution reports.
    type Err;

    /// Whether the transaction may be started on a context that holds `ctx`.
    /// Unless an implementation says otherwise: on every context.
    open spec fn can_run(self, ctx: Ctx) -> bool {
        true
    }

    /// Whether one execution on the borrowed context `c` may produce `out`.
    /// The borrow stands for the context as it is handed over and as it is
    /// given back, so this relation fixes what the execution does to the
    /// context. Unless an implementation says otherwise, nothing is known of
    /// an execution.
    open spec fn does(self, c: &mut Ctx, out: Result<Self::Item, Self::Err>) -> bool {
        true
    }

    /// Whether one execution, started on a context that holds `before`, may
    /// leave the context holding `after` and produce `out`. This is the
    /// coarser relation, over values alone, on which the laws of the algebra
    /// are stated: a plain function leaves `after` open in it, and `does`
    /// says what it does to the context. Unless an implementation says
    /// otherwise, nothing is known of an execution.
    open spec fn runs(self, before: Ctx, after: Ctx, out: Result<Self::Item, Self::Err>) -> bool {
        true
    }

    /// Executes the transaction against `ctx`.
    fn run(self, ctx: &mut Ctx) -> (out: Result<Self::Item, Self::Err>)
        requires
            self.can_run(*old(ctx)),
        ensures
            self.runs(*old(ctx), *final(ctx), out),
            exists|c: &mut Ctx|
                *c == *old(ctx) && *final(c) == *final(ctx) && #[trigger] self.does(c, out),
    ;

    /// Transforms the item of a successful execution with `f`.
    fn map<F, T>(self, f: F) -> (tx: MapItem<Self, F>) where F: FnOnce(Self::Item) -> T
        ensures
            tx.tx1 == self,
            tx.f == f,
    {
        MapItem { tx1: self, f }
    }

    /// On success, continues with the transaction that `f` builds from the
    /// item, on the same context.
    fn and_then<Tx2, F>(self, f: F) -> (tx: AndThen<Self, F>) where F: FnOnce(Self::Item) -> Tx2
        ensures
            tx.tx1 == self,
            tx.f == f,
    {
        AndThen { tx1: self, f }
    }

    /// Continues with the transaction that `f` builds from the whole
    /// outcome, on the same context.
    fn then<Tx2, F>(self, f: F) -> (tx: Then<Self, F>) where
        F: FnOnce(Result<Self::Item, Self::Err>) -> Tx2,

        ensures
            tx.tx1 == self,
            tx.f == f,
    {
        Then { tx1: self, f }
    }

    /// On failure, continues with the fallback transaction that `f` builds
    /// from the error, on the same context.
    fn or_else<Tx2, F>(self, f: F) -> (tx: OrElse<Self, F>) where F: FnOnce(Self::Err) -> Tx2
        ensures
            tx.tx1 == self,
            tx.f == f,
    {
        OrElse { tx1: self, f }
    }

    /// Runs `self`, then `tx2`, and pairs their items.
    fn join<Tx2>(self, tx2: Tx2) -> (tx: Join<Self, Tx2>)
        ensures
            tx.tx1 == self,
            tx.tx2 == tx2,
    {
        Join { tx1: self, tx2 }
    }

    /// Runs `self`, `tx2` and `tx3` in this order and collects their items.
    fn join3<Tx2, Tx3>(self, tx2: Tx2, tx3: Tx3) -> (tx: Join3<Self, Tx2, Tx3>)
        ensures
            tx.tx1 == self,
            tx.tx2 == tx2,
            tx.tx3 == tx3,
    {
        Join3 { tx1: self, tx2, tx3 }
    }

    /// Runs `self`, `tx2`, `tx3` and `tx4` in this order and collects their
    /// items.
    fn join4<Tx2, Tx3, Tx4>(self, tx2: Tx2, tx3: Tx3, tx4: Tx4) -> (tx: Join4<
        Self,
        Tx2,
        Tx3,
        Tx4,
    >)
        ensures
            tx.tx1 == self,
            tx.tx2 == tx2,
            tx.tx3 == tx3,
            tx.tx4 == tx4,
    {
        Join4 { tx1: self, tx2, tx3, tx4 }
    }

    /// Transforms the error of a failed execution with `f`.
    fn map_err<F, E>(self, f: F) -> (tx: MapErr<Self, F>) where F: FnOnce(Self::Err) -> E
        ensures
            tx.tx1 == self,
            tx.f == f,
    {
        MapErr { tx1: self, f }
    }

    /// Transforms the item of a successful execution with `f`, which may
    /// itself fail with the same kind of error.
    fn try_map<F, T>(self, f: F) -> (tx: TryMap<Self, F>) where
        F: FnOnce(Self::Item) -> Result<T, Self::Err>,

        ensures
            tx.tx1 == self,
            tx.f == f,
    {
        TryMap { tx1: self, f }
    }

    /// Turns a failure into the success that `f` computes from the error.
    fn recover<F>(self, f: F) -> (tx: Recover<Self, F>) where F: FnOnce(Self::Err) -> Self::Item
        ensures
            tx.tx1 == self,
            tx.f == f,
    {
        Recover { tx1: self, f }
    }

    /// Replaces a failure by what `f` makes of the error, which may be a
    /// failure of another kind.
    fn try_recover<F, E>(self, f: F) -> (tx: TryRecover<Self, F>) where
        F: FnOnce(Self::Err) -> Result<Self::Item, E>,

        ensures
            tx.tx1 == self,
            tx.f == f,
    {
        TryRecover { tx1: self, f }
    }

    /// Turns a success into the failure that `f` computes from the item.
    fn abort<F>(self, f: F) -> (tx: Abort<Self, F>) where F: FnOnce(Self::Item) -> Self::Err
        ensures
            tx.tx1 == self,
            tx.f == f,
    {
        Abort { tx1: self, f }
    }

    /// Lets `f` decide whether the item of a success stands or becomes a
    /// failure.
    fn try_abort<F>(self, f: F) -> (tx: TryAbort<Self, F>) where
        F: FnOnce(Self::Item) -> Result<Self::Item, Self::Err>,

        ensures
            tx.tx1 == self,
            tx.f == f,
    {
        TryAbort { tx1: self, f }
    }
}

/// Every one-shot function of `&mut Ctx` that returns a `Result` is a
/// transaction: running it calls it, and what it does is what one call does.
impl<Ctx, T, E, F> Tx<Ctx> for F where F: FnOnce(&mut Ctx) -> Result<T, E> {
    type Item = T;

    type Err = E;

    open spec fn can_run(self, ctx: Ctx) -> bool {
        forall|c: &mut Ctx| *c == ctx ==> call_requires(self, (c,))
    }

    open spec fn does(self, c: &mut Ctx, out: Result<T, E>) -> bool {
        call_ensures(self, (c,), out)
    }

    /// Over values alone: `out` is what a call on a context that holds
    /// `before` may return. What the call does to the context is in `does`.
    open spec fn runs(self, before: Ctx, after: Ctx, out: Result<T, E>) -> bool {
        exists|c: &mut Ctx| *c == before && call_ensures(self, (c,), out)
    }

    fn run(self, ctx: &mut Ctx) -> (out: Result<T, E>) {
        let ghost leaf = self;
        let out = self(ctx);
        proof {
            // The borrow that the call was made on.
            let c = choose|c: &mut Ctx|
                *c == *old(ctx) && *final(c) == *ctx && call_ensures(leaf, (c,), out);
            assert(leaf.does(c, out));
        }
        out
    }
}

} // verus!
