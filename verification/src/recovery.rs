//! Combinators that turn a failure into a success or a success into a
//! failure with a pure function: `recover`, `try_recover`, `abort` and
//! `try_abort`.

use vstd::prelude::*;
use crate::tx::Tx;
use crate::transform::{accepts_error, accepts_item, try_mapped};

verus! {

/// `out` is the item of `inner`, or a result of `f` on its error, as a
/// success.
pub open spec fn recovered<T, E, F: FnOnce(E) -> T>(
    f: F,
    inner: Result<T, E>,
    out: Result<T, E>,
) -> bool {
    match inner {
        Ok(t) => out == Ok::<T, E>(t),
        Err(e) => out is Ok && call_ensures(f, (e,), out->Ok_0),
    }
}

/// `out` is the item of `inner` as a success, or a result of `f` on its
/// error.
pub open spec fn try_recovered<T, E, E2, F: FnOnce(E) -> Result<T, E2>>(
    f: F,
    inner: Result<T, E>,
    out: Result<T, E2>,
) -> bool {
    match inner {
        Ok(t) => out == Ok::<T, E2>(t),
        Err(e) => call_ensures(f, (e,), out),
    }
}

/// `out` is a result of `f` on the item of `inner`, or its error, as a
/// failure.
pub open spec fn aborted<T, E, F: FnOnce(T) -> E>(
    f: F,
    inner: Result<T, E>,
    out: Result<T, E>,
) -> bool {
    match inner {
        Ok(t) => out is Err && call_ensures(f, (t,), out->Err_0),
        Err(e) => out == Err::<T, E>(e),
    }
}

/// The transaction built by `recover`: runs `tx1` and turns a failure into
/// the success that `f` computes from the error.
pub struct Recover<Tx1, F> {
    /// The transaction that is run first.
    pub tx1: Tx1,
    /// Computes the item from the error of `tx1`.
    pub f: F,
}

impl<Ctx, Tx1, F> Tx<Ctx> for Recover<Tx1, F> where Tx1: Tx<Ctx>, F: FnOnce(Tx1::Err) -> Tx1::Item {
    type Item = Tx1::Item;

    type Err = Tx1::Err;

    open spec fn can_run(self, ctx: Ctx) -> bool {
        &&& self.tx1.can_run(ctx)
        &&& forall|c: &mut Ctx, inner: Result<Tx1::Item, Tx1::Err>|
            *c == ctx && #[trigger] self.tx1.does(c, inner) ==> accepts_error(self.f, inner)
    }

    open spec fn does(self, c: &mut Ctx, out: Result<Tx1::Item, Tx1::Err>) -> bool {
        exists|inner: Result<Tx1::Item, Tx1::Err>| #[trigger]
            self.tx1.does(c, inner) && recovered(self.f, inner, out)
    }

    open spec fn runs(self, before: Ctx, after: Ctx, out: Result<Tx1::Item, Tx1::Err>) -> bool {
        exists|inner: Result<Tx1::Item, Tx1::Err>| #[trigger]
            self.tx1.runs(before, after, inner) && recovered(self.f, inner, out)
    }

    fn run(self, ctx: &mut Ctx) -> (out: Result<Tx1::Item, Tx1::Err>)
        ensures
            out is Ok,
    {
        let ghost whole = self;
        let inner = self.tx1.run(ctx);
        // The borrow that `tx1` ran on.
        let ghost c = choose|c: &mut Ctx|
            *c == *old(ctx) && *final(c) == *ctx && #[trigger] whole.tx1.does(c, inner);
        let out = match inner {
            Ok(t) => Ok(t),
            Err(e) => Ok((self.f)(e)),
        };
        assert(whole.does(c, out));
        out
    }
}

/// Runs `tx1` and turns a failure into the success that `f` computes from
/// the error; a success of `tx1` is passed on unchanged and `f` is not
/// called. The outcome is never a failure.
pub fn recover<Ctx, Tx1, F>(tx1: Tx1, f: F) -> (tx: impl FnOnce(&mut Ctx) -> Result<
    Tx1::Item,
    Tx1::Err,
>) where Tx1: Tx<Ctx>, F: FnOnce(Tx1::Err) -> Tx1::Item
    ensures
        forall|c: &mut Ctx| (Recover { tx1, f }).can_run(*c) ==> #[trigger] call_requires(tx, (c,)),
        forall|c: &mut Ctx, out: Result<Tx1::Item, Tx1::Err>| #[trigger]
            call_ensures(tx, (c,), out) ==> (Recover { tx1, f }).runs(*c, *final(c), out) && exists|
                d: &mut Ctx,
            |
                *d == *c && *final(d) == *final(c) && #[trigger] (Recover { tx1, f }).does(d, out),
{
    move |ctx: &mut Ctx| -> (out: Result<Tx1::Item, Tx1::Err>)
        requires
            (Recover { tx1, f }).can_run(*old(ctx)),
        ensures
            (Recover { tx1, f }).runs(*old(ctx), *final(ctx), out),
            exists|d: &mut Ctx|
                *d == *old(ctx) && *final(d) == *final(ctx) && #[trigger] (Recover { tx1, f }).does(d, out),
        { (Recover { tx1, f }).run(ctx) }
}

/// The transaction built by `try_recover`: runs `tx1` and replaces a failure
/// by what `f` makes of the error.
pub struct TryRecover<Tx1, F> {
    /// The transaction that is run first.
    pub tx1: Tx1,
    /// Applied to the error of `tx1`; its result is the outcome.
    pub f: F,
}

impl<Ctx, Tx1, F, E> Tx<Ctx> for TryRecover<Tx1, F> where
    Tx1: Tx<Ctx>,
    F: FnOnce(Tx1::Err) -> Result<Tx1::Item, E>,
 {
    type Item = Tx1::Item;

    type Err = E;

    open spec fn can_run(self, ctx: Ctx) -> bool {
        &&& self.tx1.can_run(ctx)
        &&& forall|c: &mut Ctx, inner: Result<Tx1::Item, Tx1::Err>|
            *c == ctx && #[trigger] self.tx1.does(c, inner) ==> accepts_error(self.f, inner)
    }

    open spec fn does(self, c: &mut Ctx, out: Result<Tx1::Item, E>) -> bool {
        exists|inner: Result<Tx1::Item, Tx1::Err>| #[trigger]
            self.tx1.does(c, inner) && try_recovered(self.f, inner, out)
    }

    open spec fn runs(self, before: Ctx, after: Ctx, out: Result<Tx1::Item, E>) -> bool {
        exists|inner: Result<Tx1::Item, Tx1::Err>| #[trigger]
            self.tx1.runs(before, after, inner) && try_recovered(self.f, inner, out)
    }

    fn run(self, ctx: &mut Ctx) -> (out: Result<Tx1::Item, E>) {
        let ghost whole = self;
        let inner = self.tx1.run(ctx);
        // The borrow that `tx1` ran on.
        let ghost c = choose|c: &mut Ctx|
            *c == *old(ctx) && *final(c) == *ctx && #[trigger] whole.tx1.does(c, inner);
        let out = match inner {
            Ok(t) => Ok(t),
            Err(e) => (self.f)(e),
        };
        assert(whole.does(c, out));
        out
    }
}

/// Runs `tx1` and hands a failure to `f`, whose result is the outcome and
/// may fail with another kind of error; a success of `tx1` is passed on
/// unchanged and `f` is not called.
pub fn try_recover<Ctx, Tx1, F, E>(tx1: Tx1, f: F) -> (tx: impl FnOnce(&mut Ctx) -> Result<
    Tx1::Item,
    E,
>) where Tx1: Tx<Ctx>, F: FnOnce(Tx1::Err) -> Result<Tx1::Item, E>
    ensures
        forall|c: &mut Ctx| (TryRecover { tx1, f }).can_run(*c) ==> #[trigger] call_requires(tx, (c,)),
        forall|c: &mut Ctx, out: Result<Tx1::Item, E>| #[trigger]
            call_ensures(tx, (c,), out) ==> (TryRecover { tx1, f }).runs(*c, *final(c), out) && exists|
                d: &mut Ctx,
            |
                *d == *c && *final(d) == *final(c) && #[trigger] (TryRecover { tx1, f }).does(d, out),
{
    move |ctx: &mut Ctx| -> (out: Result<Tx1::Item, E>)
        requires
            (TryRecover { tx1, f }).can_run(*old(ctx)),
        ensures
            (TryRecover { tx1, f }).runs(*old(ctx), *final(ctx), out),
            exists|d: &mut Ctx|
                *d == *old(ctx) && *final(d) == *final(ctx) && #[trigger] (TryRecover { tx1, f }).does(d, out),
        { (TryRecover { tx1, f }).run(ctx) }
}

/// The transaction built by `abort`: runs `tx1` and turns a success into the
/// failure that `f` computes from the item.
pub struct Abort<Tx1, F> {
    /// The transaction that is run first.
    pub tx1: Tx1,
    /// Computes the error from the item of `tx1`.
    pub f: F,
}

impl<Ctx, Tx1, F> Tx<Ctx> for Abort<Tx1, F> where Tx1: Tx<Ctx>, F: FnOnce(Tx1::Item) -> Tx1::Err {
    type Item = Tx1::Item;

    type Err = Tx1::Err;

    open spec fn can_run(self, ctx: Ctx) -> bool {
        &&& self.tx1.can_run(ctx)
        &&& forall|c: &mut Ctx, inner: Result<Tx1::Item, Tx1::Err>|
            *c == ctx && #[trigger] self.tx1.does(c, inner) ==> accepts_item(self.f, inner)
    }

    open spec fn does(self, c: &mut Ctx, out: Result<Tx1::Item, Tx1::Err>) -> bool {
        exists|inner: Result<Tx1::Item, Tx1::Err>| #[trigger]
            self.tx1.does(c, inner) && aborted(self.f, inner, out)
    }

    open spec fn runs(self, before: Ctx, after: Ctx, out: Result<Tx1::Item, Tx1::Err>) -> bool {
        exists|inner: Result<Tx1::Item, Tx1::Err>| #[trigger]
            self.tx1.runs(before, after, inner) && aborted(self.f, inner, out)
    }

    fn run(self, ctx: &mut Ctx) -> (out: Result<Tx1::Item, Tx1::Err>)
        ensures
            out is Err,
    {
        let ghost whole = self;
        let inner = self.tx1.run(ctx);
        // The borrow that `tx1` ran on.
        let ghost c = choose|c: &mut Ctx|
            *c == *old(ctx) && *final(c) == *ctx && #[trigger] whole.tx1.does(c, inner);
        let out = match inner {
            Ok(t) => Err((self.f)(t)),
            Err(e) => Err(e),
        };
        assert(whole.does(c, out));
        out
    }
}

/// Runs `tx1` and turns a success into the failure that `f` computes from
/// the item; a failure of `tx1` is passed on unchanged and `f` is not
/// called. The outcome is never a success.
pub fn abort<Ctx, Tx1, F>(tx1: Tx1, f: F) -> (tx: impl FnOnce(&mut Ctx) -> Result<
    Tx1::Item,
    Tx1::Err,
>) where Tx1: Tx<Ctx>, F: FnOnce(Tx1::Item) -> Tx1::Err
    ensures
        forall|c: &mut Ctx| (Abort { tx1, f }).can_run(*c) ==> #[trigger] call_requires(tx, (c,)),
        forall|c: &mut Ctx, out: Result<Tx1::Item, Tx1::Err>| #[trigger]
            call_ensures(tx, (c,), out) ==> (Abort { tx1, f }).runs(*c, *final(c), out) && exists|
                d: &mut Ctx,
            |
                *d == *c && *final(d) == *final(c) && #[trigger] (Abort { tx1, f }).does(d, out),
{
    move |ctx: &mut Ctx| -> (out: Result<Tx1::Item, Tx1::Err>)
        requires
            (Abort { tx1, f }).can_run(*old(ctx)),
        ensures
            (Abort { tx1, f }).runs(*old(ctx), *final(ctx), out),
            exists|d: &mut Ctx|
                *d == *old(ctx) && *final(d) == *final(ctx) && #[trigger] (Abort { tx1, f }).does(d, out),
        { (Abort { tx1, f }).run(ctx) }
}

/// The transaction built by `try_abort`: runs `tx1` and lets `f` decide
/// whether its item stands or becomes a failure.
pub struct TryAbort<Tx1, F> {
    /// The transaction that is run first.
    pub tx1: Tx1,
    /// Applied to the item of `tx1`; its result is the outcome.
    pub f: F,
}

impl<Ctx, Tx1, F> Tx<Ctx> for TryAbort<Tx1, F> where
    Tx1: Tx<Ctx>,
    F: FnOnce(Tx1::Item) -> Result<Tx1::Item, Tx1::Err>,
 {
    type Item = Tx1::Item;

    type Err = Tx1::Err;

    open spec fn can_run(self, ctx: Ctx) -> bool {
        &&& self.tx1.can_run(ctx)
        &&& forall|c: &mut Ctx, inner: Result<Tx1::Item, Tx1::Err>|
            *c == ctx && #[trigger] self.tx1.does(c, inner) ==> accepts_item(self.f, inner)
    }

    open spec fn does(self, c: &mut Ctx, out: Result<Tx1::Item, Tx1::Err>) -> bool {
        exists|inner: Result<Tx1::Item, Tx1::Err>| #[trigger]
            self.tx1.does(c, inner) && try_mapped(self.f, inner, out)
    }

    open spec fn runs(self, before: Ctx, after: Ctx, out: Result<Tx1::Item, Tx1::Err>) -> bool {
        exists|inner: Result<Tx1::Item, Tx1::Err>| #[trigger]
            self.tx1.runs(before, after, inner) && try_mapped(self.f, inner, out)
    }

    fn run(self, ctx: &mut Ctx) -> (out: Result<Tx1::Item, Tx1::Err>) {
        let ghost whole = self;
        let inner = self.tx1.run(ctx);
        // The borrow that `tx1` ran on.
        let ghost c = choose|c: &mut Ctx|
            *c == *old(ctx) && *final(c) == *ctx && #[trigger] whole.tx1.does(c, inner);
        let out = match inner {
            Ok(t) => (self.f)(t),
            Err(e) => Err(e),
        };
        assert(whole.does(c, out));
        out
    }
}

/// Runs `tx1` and hands its item to `f`, which either lets an item stand or
/// turns it into a failure; a failure of `tx1` is passed on unchanged and `f`
/// is not called.
pub fn try_abort<Ctx, Tx1, F>(tx1: Tx1, f: F) -> (tx: impl FnOnce(&mut Ctx) -> Result<
    Tx1::Item,
    Tx1::Err,
>) where Tx1: Tx<Ctx>, F: FnOnce(Tx1::Item) -> Result<Tx1::Item, Tx1::Err>
    ensures
        forall|c: &mut Ctx| (TryAbort { tx1, f }).can_run(*c) ==> #[trigger] call_requires(tx, (c,)),
        forall|c: &mut Ctx, out: Result<Tx1::Item, Tx1::Err>| #[trigger]
            call_ensures(tx, (c,), out) ==> (TryAbort { tx1, f }).runs(*c, *final(c), out) && exists|
                d: &mut Ctx,
            |
                *d == *c && *final(d) == *final(c) && #[trigger] (TryAbort { tx1, f }).does(d, out),
{
    move |ctx: &mut Ctx| -> (out: Result<Tx1::Item, Tx1::Err>)
        requires
            (TryAbort { tx1, f }).can_run(*old(ctx)),
        ensures
            (TryAbort { tx1, f }).runs(*old(ctx), *final(ctx), out),
            exists|d: &mut Ctx|
                *d == *old(ctx) && *final(d) == *final(ctx) && #[trigger] (TryAbort { tx1, f }).does(d, out),
        { (TryAbort { tx1, f }).run(ctx) }
}

} // verus!
