//! Combinators that transform the outcome of one transaction with a pure
//! function: `map`, `try_map` and `map_err`.

use vstd::prelude::*;
use crate::tx::Tx;

verus! {

/// Whether `f` may be applied to the item of `inner`, if there is one.
pub open spec fn accepts_item<T, E, U, F: FnOnce(T) -> U>(f: F, inner: Result<T, E>) -> bool {
    inner matches Ok(x) ==> call_requires(f, (x,))
}

/// Whether `f` may be applied to the error of `inner`, if there is one.
pub open spec fn accepts_error<T, E, U, F: FnOnce(E) -> U>(f: F, inner: Result<T, E>) -> bool {
    inner matches Err(e) ==> call_requires(f, (e,))
}

/// `out` is `inner` with its item, if any, replaced by a result of `f`.
pub open spec fn mapped<T, E, U, F: FnOnce(T) -> U>(
    f: F,
    inner: Result<T, E>,
    out: Result<U, E>,
) -> bool {
    match inner {
        Ok(x) => out is Ok && call_ensures(f, (x,), out->Ok_0),
        Err(e) => out == Err::<U, E>(e),
    }
}

/// `out` is a result of `f` on the item of `inner`, or the error of `inner`.
pub open spec fn try_mapped<T, E, U, F: FnOnce(T) -> Result<U, E>>(
    f: F,
    inner: Result<T, E>,
    out: Result<U, E>,
) -> bool {
    match inner {
        Ok(x) => call_ensures(f, (x,), out),
        Err(e) => out == Err::<U, E>(e),
    }
}

/// `out` is `inner` with its error, if any, replaced by a result of `f`.
pub open spec fn error_mapped<T, E, E2, F: FnOnce(E) -> E2>(
    f: F,
    inner: Result<T, E>,
    out: Result<T, E2>,
) -> bool {
    match inner {
        Ok(x) => out == Ok::<T, E2>(x),
        Err(e) => out is Err && call_ensures(f, (e,), out->Err_0),
    }
}

/// The transaction built by `map`: runs `tx1`, then applies `f` to its item.
pub struct MapItem<Tx1, F> {
    /// The transaction that is run first.
    pub tx1: Tx1,
    /// Applied to the item of `tx1`.
    pub f: F,
}

impl<Ctx, Tx1, T, F> Tx<Ctx> for MapItem<Tx1, F> where Tx1: Tx<Ctx>, F: FnOnce(Tx1::Item) -> T {
    type Item = T;

    type Err = Tx1::Err;

    open spec fn can_run(self, ctx: Ctx) -> bool {
        &&& self.tx1.can_run(ctx)
        &&& forall|c: &mut Ctx, inner: Result<Tx1::Item, Tx1::Err>|
            *c == ctx && #[trigger] self.tx1.does(c, inner) ==> accepts_item(self.f, inner)
    }

    open spec fn does(self, c: &mut Ctx, out: Result<T, Tx1::Err>) -> bool {
        exists|inner: Result<Tx1::Item, Tx1::Err>| #[trigger]
            self.tx1.does(c, inner) && mapped(self.f, inner, out)
    }

    open spec fn runs(self, before: Ctx, after: Ctx, out: Result<T, Tx1::Err>) -> bool {
        exists|inner: Result<Tx1::Item, Tx1::Err>| #[trigger]
            self.tx1.runs(before, after, inner) && mapped(self.f, inner, out)
    }

    fn run(self, ctx: &mut Ctx) -> (out: Result<T, Tx1::Err>) {
        let ghost whole = self;
        let inner = self.tx1.run(ctx);
        // The borrow that `tx1` ran on.
        let ghost c = choose|c: &mut Ctx|
            *c == *old(ctx) && *final(c) == *ctx && #[trigger] whole.tx1.does(c, inner);
        let out = match inner {
            Ok(x) => Ok((self.f)(x)),
            Err(e) => Err(e),
        };
        assert(whole.does(c, out));
        out
    }
}

/// Runs `tx1` and applies `f` to its item; a failure of `tx1` is passed on
/// unchanged and `f` is not called.
pub fn map<Ctx, Tx1, F, T>(tx1: Tx1, f: F) -> (tx: impl FnOnce(&mut Ctx) -> Result<T, Tx1::Err>) where
    Tx1: Tx<Ctx>,
    F: FnOnce(Tx1::Item) -> T,
    ensures
        forall|c: &mut Ctx| (MapItem { tx1, f }).can_run(*c) ==> #[trigger] call_requires(tx, (c,)),
        forall|c: &mut Ctx, out: Result<T, Tx1::Err>| #[trigger]
            call_ensures(tx, (c,), out) ==> (MapItem { tx1, f }).runs(*c, *final(c), out) && exists|
                d: &mut Ctx,
            |
                *d == *c && *final(d) == *final(c) && #[trigger] (MapItem { tx1, f }).does(d, out),
{
    move |ctx: &mut Ctx| -> (out: Result<T, Tx1::Err>)
        requires
            (MapItem { tx1, f }).can_run(*old(ctx)),
        ensures
            (MapItem { tx1, f }).runs(*old(ctx), *final(ctx), out),
            exists|d: &mut Ctx|
                *d == *old(ctx) && *final(d) == *final(ctx) && #[trigger] (MapItem { tx1, f }).does(d, out),
        { (MapItem { tx1, f }).run(ctx) }
}

/// The transaction built by `try_map`: runs `tx1`, then applies the fallible
/// `f` to its item.
pub struct TryMap<Tx1, F> {
    /// The transaction that is run first.
    pub tx1: Tx1,
    /// Applied to the item of `tx1`; its result is the outcome.
    pub f: F,
}

impl<Ctx, Tx1, F, T> Tx<Ctx> for TryMap<Tx1, F> where
    Tx1: Tx<Ctx>,
    F: FnOnce(Tx1::Item) -> Result<T, Tx1::Err>,
 {
    type Item = T;

    type Err = Tx1::Err;

    open spec fn can_run(self, ctx: Ctx) -> bool {
        &&& self.tx1.can_run(ctx)
        &&& forall|c: &mut Ctx, inner: Result<Tx1::Item, Tx1::Err>|
            *c == ctx && #[trigger] self.tx1.does(c, inner) ==> accepts_item(self.f, inner)
    }

    open spec fn does(self, c: &mut Ctx, out: Result<T, Tx1::Err>) -> bool {
        exists|inner: Result<Tx1::Item, Tx1::Err>| #[trigger]
            self.tx1.does(c, inner) && try_mapped(self.f, inner, out)
    }

    open spec fn runs(self, before: Ctx, after: Ctx, out: Result<T, Tx1::Err>) -> bool {
        exists|inner: Result<Tx1::Item, Tx1::Err>| #[trigger]
            self.tx1.runs(before, after, inner) && try_mapped(self.f, inner, out)
    }

    fn run(self, ctx: &mut Ctx) -> (out: Result<T, Tx1::Err>) {
        let ghost whole = self;
        let inner = self.tx1.run(ctx);
        // The borrow that `tx1` ran on.
        let ghost c = choose|c: &mut Ctx|
            *c == *old(ctx) && *final(c) == *ctx && #[trigger] whole.tx1.does(c, inner);
        let out = match inner {
            Ok(t) => (self.f)(t),
            Err(e) => Err(e),
        };
        assert(whole.does(c, out));
        out
    }
}

/// Runs `tx1` and hands its item to `f`, whose result is the outcome; a
/// failure of `tx1` is passed on unchanged and `f` is not called.
pub fn try_map<Ctx, Tx1, F, T>(tx1: Tx1, f: F) -> (tx: impl FnOnce(&mut Ctx) -> Result<
    T,
    Tx1::Err,
>) where Tx1: Tx<Ctx>, F: FnOnce(Tx1::Item) -> Result<T, Tx1::Err>
    ensures
        forall|c: &mut Ctx| (TryMap { tx1, f }).can_run(*c) ==> #[trigger] call_requires(tx, (c,)),
        forall|c: &mut Ctx, out: Result<T, Tx1::Err>| #[trigger]
            call_ensures(tx, (c,), out) ==> (TryMap { tx1, f }).runs(*c, *final(c), out) && exists|
                d: &mut Ctx,
            |
                *d == *c && *final(d) == *final(c) && #[trigger] (TryMap { tx1, f }).does(d, out),
{
    move |ctx: &mut Ctx| -> (out: Result<T, Tx1::Err>)
        requires
            (TryMap { tx1, f }).can_run(*old(ctx)),
        ensures
            (TryMap { tx1, f }).runs(*old(ctx), *final(ctx), out),
            exists|d: &mut Ctx|
                *d == *old(ctx) && *final(d) == *final(ctx) && #[trigger] (TryMap { tx1, f }).does(d, out),
        { (TryMap { tx1, f }).run(ctx) }
}

/// The transaction built by `map_err`: runs `tx1`, then applies `f` to its
/// error.
pub struct MapErr<Tx1, F> {
    /// The transaction that is run first.
    pub tx1: Tx1,
    /// Applied to the error of `tx1`.
    pub f: F,
}

impl<Ctx, Tx1, F, E> Tx<Ctx> for MapErr<Tx1, F> where Tx1: Tx<Ctx>, F: FnOnce(Tx1::Err) -> E {
    type Item = Tx1::Item;

    type Err = E;

    open spec fn can_run(self, ctx: Ctx) -> bool {
        &&& self.tx1.can_run(ctx)
        &&& forall|c: &mut Ctx, inner: Result<Tx1::Item, Tx1::Err>|
            *c == ctx && #[trigger] self.tx1.does(c, inner) ==> accepts_error(self.f, inner)
    }

    open spec fn does(self, c: &mut Ctx, out: Result<Tx1::Item, E>) -> bool {
        exists|inner: Result<Tx1::Item, Tx1::Err>| #[trigger]
            self.tx1.does(c, inner) && error_mapped(self.f, inner, out)
    }

    open spec fn runs(self, before: Ctx, after: Ctx, out: Result<Tx1::Item, E>) -> bool {
        exists|inner: Result<Tx1::Item, Tx1::Err>| #[trigger]
            self.tx1.runs(before, after, inner) && error_mapped(self.f, inner, out)
    }

    fn run(self, ctx: &mut Ctx) -> (out: Result<Tx1::Item, E>) {
        let ghost whole = self;
        let inner = self.tx1.run(ctx);
        // The borrow that `tx1` ran on.
        let ghost c = choose|c: &mut Ctx|
            *c == *old(ctx) && *final(c) == *ctx && #[trigger] whole.tx1.does(c, inner);
        let out = match inner {
            Ok(t) => Ok(t),
            Err(e) => Err((self.f)(e)),
        };
        assert(whole.does(c, out));
        out
    }
}

/// Runs `tx1` and applies `f` to its error; a success of `tx1` is passed on
/// unchanged and `f` is not called.
pub fn map_err<Ctx, Tx1, F, E>(tx1: Tx1, f: F) -> (tx: impl FnOnce(&mut Ctx) -> Result<
    Tx1::Item,
    E,
>) where Tx1: Tx<Ctx>, F: FnOnce(Tx1::Err) -> E
    ensures
        forall|c: &mut Ctx| (MapErr { tx1, f }).can_run(*c) ==> #[trigger] call_requires(tx, (c,)),
        forall|c: &mut Ctx, out: Result<Tx1::Item, E>| #[trigger]
            call_ensures(tx, (c,), out) ==> (MapErr { tx1, f }).runs(*c, *final(c), out) && exists|
                d: &mut Ctx,
            |
                *d == *c && *final(d) == *final(c) && #[trigger] (MapErr { tx1, f }).does(d, out),
{
    move |ctx: &mut Ctx| -> (out: Result<Tx1::Item, E>)
        requires
            (MapErr { tx1, f }).can_run(*old(ctx)),
        ensures
            (MapErr { tx1, f }).runs(*old(ctx), *final(ctx), out),
            exists|d: &mut Ctx|
                *d == *old(ctx) && *final(d) == *final(ctx) && #[trigger] (MapErr { tx1, f }).does(d, out),
        { (MapErr { tx1, f }).run(ctx) }
}

} // verus!
