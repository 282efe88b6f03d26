//! Transactions over a shared context: a computation that only reads its
//! context and can therefore be run any number of times.

use vstd::prelude::*;
use std::marker::PhantomData;

verus! {

/// A computation that, given shared access to a context, either produces an
/// `Item` or fails with an `Err`. Running it does not consume it.
pub trait Transaction {
    /// The context the computation reads.
    type Ctx;

    /// What a successful execution produces.
    type Item;

    /// What a failed execution reports.
    type Err;

    /// Whether the transaction may be run on `ctx`. Unless an implementation
    /// says otherwise: on every context.
    open spec fn can_run(&self, ctx: &Self::Ctx) -> bool {
        true
    }

    /// Whether one execution on `ctx` may produce `out`. Unless an
    /// implementation says otherwise, nothing is known of an execution.
    open spec fn runs(&self, ctx: &Self::Ctx, out: Result<Self::Item, Self::Err>) -> bool {
        true
    }

    /// Executes the transaction against `ctx`.
    fn run(&self, ctx: &Self::Ctx) -> (out: Result<Self::Item, Self::Err>)
        requires
            self.can_run(ctx),
        ensures
            self.runs(ctx, out),
    ;
}

/// A function of a shared context, as a transaction over `Ctx`.
pub struct WithCtx<Ctx, F> {
    /// The function that is called on the context.
    pub f: F,
    /// Ties the transaction to its context type.
    pub _phantom: PhantomData<Ctx>,
}

/// Makes a transaction of `f`: running it on a context calls `f` on that
/// context.
pub fn with_ctx<Ctx, F, T, E>(f: F) -> (tx: WithCtx<Ctx, F>) where F: Fn(&Ctx) -> Result<T, E>
    ensures
        tx.f == f,
        forall|ctx: &Ctx| tx.can_run(ctx) <==> call_requires(f, (ctx,)),
        forall|ctx: &Ctx, out: Result<T, E>| tx.runs(ctx, out) <==> call_ensures(f, (ctx,), out),
{
    WithCtx { f, _phantom: PhantomData }
}

impl<Ctx, T, E, F> Transaction for WithCtx<Ctx, F> where F: Fn(&Ctx) -> Result<T, E> {
    type Ctx = Ctx;

    type Item = T;

    type Err = E;

    open spec fn can_run(&self, ctx: &Ctx) -> bool {
        call_requires(self.f, (ctx,))
    }

    open spec fn runs(&self, ctx: &Ctx, out: Result<T, E>) -> bool {
        call_ensures(self.f, (ctx,), out)
    }

    fn run(&self, ctx: &Ctx) -> (out: Result<T, E>) {
        (self.f)(ctx)
    }
}

} // verus!
