//! Combinators that run a second transaction, built from the outcome of the
//! first, against the same context: `and_then`, `then` and `or_else`.
//!
//! The second transaction fails with the error type of the first. Where
//! the two would differ, one is converted first, with `map_err` or
//! `try_recover`.
//!
//! Each comes in three forms: a function that runs the sequence at once on
//! a context (`and_then_on`), whose contract says how the context passes
//! from the first transaction to the second; the type that stores the parts
//! and is a transaction, whose `does` and `can_run` are those of that
//! function; and the free function that gives the stored sequence as a
//! plain function of the context.

use vstd::prelude::*;
use crate::tx::Tx;

verus! {

/// Whether some transaction that `f` can build from `arg`, started on a
/// context that holds `mid`, may leave it holding `after` and produce `out`.
pub open spec fn continues<Ctx, A, Tx2: Tx<Ctx>, F: FnOnce(A) -> Tx2>(
    f: F,
    arg: A,
    mid: Ctx,
    after: Ctx,
    out: Result<Tx2::Item, Tx2::Err>,
) -> bool {
    exists|tx2: Tx2| call_ensures(f, (arg,), tx2) && #[trigger] tx2.runs(mid, after, out)
}

/// Whether `a` and then what `k` builds, started on a context that holds
/// `before`, may leave it holding `after` and produce `out`: the relation
/// over values that `AndThen` has for `runs`.
pub open spec fn and_then_runs<Ctx, A, B, K>(
    a: A,
    k: K,
    before: Ctx,
    after: Ctx,
    out: Result<B::Item, A::Err>,
) -> bool where
    A: Tx<Ctx>,
    B: Tx<Ctx, Err = A::Err>,
    K: FnOnce(A::Item) -> B,
 {
    exists|mid: Ctx, inner: Result<A::Item, A::Err>| #[trigger]
        a.runs(before, mid, inner) && match inner {
            Ok(x) => continues(k, x, mid, after, out),
            Err(e) => after == mid && out == Err::<B::Item, A::Err>(e),
        }
}

/// Runs `a` on `ctx` and, if it succeeds, the transaction that `k` builds
/// from its item, on `ctx` as `a` left it. A failure of `a` is the outcome;
/// then `k` is not called and `ctx` is as `a` left it.
pub fn and_then_on<Ctx, A, B, K>(a: A, k: K, ctx: &mut Ctx) -> (out: Result<B::Item, A::Err>) where
    A: Tx<Ctx>,
    B: Tx<Ctx, Err = A::Err>,
    K: FnOnce(A::Item) -> B,

    requires
        a.can_run(*old(ctx)),
        forall|c1: &mut Ctx, x: A::Item|
            *c1 == *old(ctx) && #[trigger] a.does(c1, Ok(x)) ==> call_requires(k, (x,))
                && forall|b: B| call_ensures(k, (x,), b) ==> #[trigger] b.can_run(*final(c1)),
    ensures
        and_then_runs(a, k, *old(ctx), *final(ctx), out),
        exists|c1: &mut Ctx, inner: Result<A::Item, A::Err>|
            *c1 == *old(ctx) && #[trigger] a.does(c1, inner) && match inner {
                Ok(x) => exists|b: B, c2: &mut Ctx|
                    call_ensures(k, (x,), b) && *c2 == *final(c1) && *final(c2) == *final(ctx)
                        && #[trigger] b.does(c2, out),
                Err(e) => *final(c1) == *final(ctx) && out == Err::<B::Item, A::Err>(e),
            },
{
    match a.run(ctx) {
        Ok(x) => k(x).run(ctx),
        Err(e) => Err(e),
    }
}

/// The transaction built by `and_then`: runs `tx1` and, if it succeeds, the
/// transaction that `f` builds from its item. It may be
/// started where `and_then_on` may be called on its parts, and what it does on a
/// borrowed context is what that call does.
pub struct AndThen<Tx1, F> {
    /// The transaction that is run first.
    pub tx1: Tx1,
    /// Builds, from the item of `tx1`, the transaction that is run next.
    pub f: F,
}

impl<Ctx, Tx1, Tx2, F> Tx<Ctx> for AndThen<Tx1, F> where
    Tx1: Tx<Ctx>,
    Tx2: Tx<Ctx, Err = Tx1::Err>,
    F: FnOnce(Tx1::Item) -> Tx2,
 {
    type Item = Tx2::Item;

    type Err = Tx1::Err;

    open spec fn can_run(self, ctx: Ctx) -> bool {
        forall|c: &mut Ctx|
            *c == ctx ==> #[trigger] call_requires(
                and_then_on::<Ctx, Tx1, Tx2, F>,
                (self.tx1, self.f, c),
            )
    }

    open spec fn does(self, c: &mut Ctx, out: Result<Tx2::Item, Tx1::Err>) -> bool {
        call_ensures(and_then_on::<Ctx, Tx1, Tx2, F>, (self.tx1, self.f, c), out)
    }

    open spec fn runs(self, before: Ctx, after: Ctx, out: Result<Tx2::Item, Tx1::Err>) -> bool {
        and_then_runs(self.tx1, self.f, before, after, out)
    }

    fn run(self, ctx: &mut Ctx) -> (out: Result<Tx2::Item, Tx1::Err>) {
        let ghost (tx1, f) = (self.tx1, self.f);
        let sequence = and_then_on::<Ctx, Tx1, Tx2, F>;
        let out = sequence(self.tx1, self.f, ctx);
        proof {
            // The borrow that the call was made on.
            let c = choose|c: &mut Ctx|
                *c == *old(ctx) && *final(c) == *ctx && call_ensures(sequence, (tx1, f, c), out);
            assert(self.does(c, out));
        }
        out
    }
}

/// Runs `tx1` and, if it succeeds, the transaction that `f` builds from its
/// item, on the same context; a failure of `tx1` is the outcome and `f` is
/// not called.
pub fn and_then<Ctx, Tx1, Tx2, F>(tx1: Tx1, f: F) -> (tx: impl FnOnce(&mut Ctx) -> Result<
    Tx2::Item,
    Tx1::Err,
>) where
    Tx1: Tx<Ctx>,
    Tx2: Tx<Ctx, Err = Tx1::Err>,
    F: FnOnce(Tx1::Item) -> Tx2,

    ensures
        forall|c: &mut Ctx| (AndThen { tx1, f }).can_run(*c) ==> #[trigger] call_requires(tx, (c,)),
        forall|c: &mut Ctx, out: Result<Tx2::Item, Tx1::Err>| #[trigger]
            call_ensures(tx, (c,), out) ==> (AndThen { tx1, f }).runs(*c, *final(c), out) && exists|
                d: &mut Ctx,
            |
                *d == *c && *final(d) == *final(c) && #[trigger] (AndThen { tx1, f }).does(d, out),
{
    move |ctx: &mut Ctx| -> (out: Result<Tx2::Item, Tx1::Err>)
        requires
            (AndThen { tx1, f }).can_run(*old(ctx)),
        ensures
            (AndThen { tx1, f }).runs(*old(ctx), *final(ctx), out),
            exists|d: &mut Ctx|
                *d == *old(ctx) && *final(d) == *final(ctx) && #[trigger] (AndThen { tx1, f }).does(
                    d,
                    out,
                ),
        { (AndThen { tx1, f }).run(ctx) }
}

/// Whether `a` and then what `k` builds, started on a context that holds
/// `before`, may leave it holding `after` and produce `out`: the relation
/// over values that `Then` has for `runs`.
pub open spec fn then_runs<Ctx, A, B, K>(
    a: A,
    k: K,
    before: Ctx,
    after: Ctx,
    out: Result<B::Item, A::Err>,
) -> bool where
    A: Tx<Ctx>,
    B: Tx<Ctx, Err = A::Err>,
    K: FnOnce(Result<A::Item, A::Err>) -> B,
 {
    exists|mid: Ctx, inner: Result<A::Item, A::Err>| #[trigger]
        a.runs(before, mid, inner) && continues(k, inner, mid, after, out)
}

/// Runs `a` on `ctx` and then, on `ctx` as `a` left it, the transaction that
/// `k` builds from the whole outcome of `a`, success or failure.
pub fn then_on<Ctx, A, B, K>(a: A, k: K, ctx: &mut Ctx) -> (out: Result<B::Item, A::Err>) where
    A: Tx<Ctx>,
    B: Tx<Ctx, Err = A::Err>,
    K: FnOnce(Result<A::Item, A::Err>) -> B,

    requires
        a.can_run(*old(ctx)),
        forall|c1: &mut Ctx, whole: Result<A::Item, A::Err>|
            *c1 == *old(ctx) && #[trigger] a.does(c1, whole) ==> call_requires(k, (whole,))
                && forall|b: B| call_ensures(k, (whole,), b) ==> #[trigger] b.can_run(*final(c1)),
    ensures
        then_runs(a, k, *old(ctx), *final(ctx), out),
        exists|c1: &mut Ctx, inner: Result<A::Item, A::Err>|
            *c1 == *old(ctx) && #[trigger] a.does(c1, inner) && exists|b: B, c2: &mut Ctx|
                call_ensures(k, (inner,), b) && *c2 == *final(c1) && *final(c2) == *final(ctx)
                    && #[trigger] b.does(c2, out),
{
    let inner = a.run(ctx);
    k(inner).run(ctx)
}

/// The transaction built by `then`: runs `tx1` and, whatever its outcome,
/// the transaction that `f` builds from that outcome. It may be
/// started where `then_on` may be called on its parts, and what it does on a
/// borrowed context is what that call does.
pub struct Then<Tx1, F> {
    /// The transaction that is run first.
    pub tx1: Tx1,
    /// Builds, from the outcome of `tx1`, the transaction that is run next.
    pub f: F,
}

impl<Ctx, Tx1, Tx2, F> Tx<Ctx> for Then<Tx1, F> where
    Tx1: Tx<Ctx>,
    Tx2: Tx<Ctx, Err = Tx1::Err>,
    F: FnOnce(Result<Tx1::Item, Tx1::Err>) -> Tx2,
 {
    type Item = Tx2::Item;

    type Err = Tx1::Err;

    open spec fn can_run(self, ctx: Ctx) -> bool {
        forall|c: &mut Ctx|
            *c == ctx ==> #[trigger] call_requires(
                then_on::<Ctx, Tx1, Tx2, F>,
                (self.tx1, self.f, c),
            )
    }

    open spec fn does(self, c: &mut Ctx, out: Result<Tx2::Item, Tx1::Err>) -> bool {
        call_ensures(then_on::<Ctx, Tx1, Tx2, F>, (self.tx1, self.f, c), out)
    }

    open spec fn runs(self, before: Ctx, after: Ctx, out: Result<Tx2::Item, Tx1::Err>) -> bool {
        then_runs(self.tx1, self.f, before, after, out)
    }

    fn run(self, ctx: &mut Ctx) -> (out: Result<Tx2::Item, Tx1::Err>) {
        let ghost (tx1, f) = (self.tx1, self.f);
        let sequence = then_on::<Ctx, Tx1, Tx2, F>;
        let out = sequence(self.tx1, self.f, ctx);
        proof {
            // The borrow that the call was made on.
            let c = choose|c: &mut Ctx|
                *c == *old(ctx) && *final(c) == *ctx && call_ensures(sequence, (tx1, f, c), out);
            assert(self.does(c, out));
        }
        out
    }
}

/// Runs `tx1` and then, on the same context, the transaction that `f` builds
/// from the whole outcome of `tx1`, success or failure.
pub fn then<Ctx, Tx1, Tx2, F>(tx1: Tx1, f: F) -> (tx: impl FnOnce(&mut Ctx) -> Result<
    Tx2::Item,
    Tx1::Err,
>) where
    Tx1: Tx<Ctx>,
    Tx2: Tx<Ctx, Err = Tx1::Err>,
    F: FnOnce(Result<Tx1::Item, Tx1::Err>) -> Tx2,

    ensures
        forall|c: &mut Ctx| (Then { tx1, f }).can_run(*c) ==> #[trigger] call_requires(tx, (c,)),
        forall|c: &mut Ctx, out: Result<Tx2::Item, Tx1::Err>| #[trigger]
            call_ensures(tx, (c,), out) ==> (Then { tx1, f }).runs(*c, *final(c), out) && exists|
                d: &mut Ctx,
            |
                *d == *c && *final(d) == *final(c) && #[trigger] (Then { tx1, f }).does(d, out),
{
    move |ctx: &mut Ctx| -> (out: Result<Tx2::Item, Tx1::Err>)
        requires
            (Then { tx1, f }).can_run(*old(ctx)),
        ensures
            (Then { tx1, f }).runs(*old(ctx), *final(ctx), out),
            exists|d: &mut Ctx|
                *d == *old(ctx) && *final(d) == *final(ctx) && #[trigger] (Then { tx1, f }).does(
                    d,
                    out,
                ),
        { (Then { tx1, f }).run(ctx) }
}

/// Whether `a` and then what `k` builds, started on a context that holds
/// `before`, may leave it holding `after` and produce `out`: the relation
/// over values that `OrElse` has for `runs`.
pub open spec fn or_else_runs<Ctx, A, B, K>(
    a: A,
    k: K,
    before: Ctx,
    after: Ctx,
    out: Result<A::Item, A::Err>,
) -> bool where
    A: Tx<Ctx>,
    B: Tx<Ctx, Item = A::Item, Err = A::Err>,
    K: FnOnce(A::Err) -> B,
 {
    exists|mid: Ctx, inner: Result<A::Item, A::Err>| #[trigger]
        a.runs(before, mid, inner) && match inner {
            Ok(t) => after == mid && out == Ok::<A::Item, A::Err>(t),
            Err(e) => continues(k, e, mid, after, out),
        }
}

/// Runs `a` on `ctx` and, if it fails, the fallback that `k` builds from its
/// error, on `ctx` as `a` left it. A success of `a` is the outcome; then `k`
/// is not called and `ctx` is as `a` left it.
pub fn or_else_on<Ctx, A, B, K>(a: A, k: K, ctx: &mut Ctx) -> (out: Result<A::Item, A::Err>) where
    A: Tx<Ctx>,
    B: Tx<Ctx, Item = A::Item, Err = A::Err>,
    K: FnOnce(A::Err) -> B,

    requires
        a.can_run(*old(ctx)),
        forall|c1: &mut Ctx, e: A::Err|
            *c1 == *old(ctx) && #[trigger] a.does(c1, Err(e)) ==> call_requires(k, (e,))
                && forall|b: B| call_ensures(k, (e,), b) ==> #[trigger] b.can_run(*final(c1)),
    ensures
        or_else_runs(a, k, *old(ctx), *final(ctx), out),
        exists|c1: &mut Ctx, inner: Result<A::Item, A::Err>|
            *c1 == *old(ctx) && #[trigger] a.does(c1, inner) && match inner {
                Ok(t) => *final(c1) == *final(ctx) && out == Ok::<A::Item, A::Err>(t),
                Err(e) => exists|b: B, c2: &mut Ctx|
                    call_ensures(k, (e,), b) && *c2 == *final(c1) && *final(c2) == *final(ctx)
                        && #[trigger] b.does(c2, out),
            },
{
    match a.run(ctx) {
        Ok(t) => Ok(t),
        Err(e) => k(e).run(ctx),
    }
}

/// The transaction built by `or_else`: runs `tx1` and, if it fails, the
/// transaction that `f` builds from its error. It may be
/// started where `or_else_on` may be called on its parts, and what it does on a
/// borrowed context is what that call does.
pub struct OrElse<Tx1, F> {
    /// The transaction that is run first.
    pub tx1: Tx1,
    /// Builds, from the error of `tx1`, the fallback that is run next.
    pub f: F,
}

impl<Ctx, Tx1, Tx2, F> Tx<Ctx> for OrElse<Tx1, F> where
    Tx1: Tx<Ctx>,
    Tx2: Tx<Ctx, Item = Tx1::Item, Err = Tx1::Err>,
    F: FnOnce(Tx1::Err) -> Tx2,
 {
    type Item = Tx1::Item;

    type Err = Tx1::Err;

    open spec fn can_run(self, ctx: Ctx) -> bool {
        forall|c: &mut Ctx|
            *c == ctx ==> #[trigger] call_requires(
                or_else_on::<Ctx, Tx1, Tx2, F>,
                (self.tx1, self.f, c),
            )
    }

    open spec fn does(self, c: &mut Ctx, out: Result<Tx1::Item, Tx1::Err>) -> bool {
        call_ensures(or_else_on::<Ctx, Tx1, Tx2, F>, (self.tx1, self.f, c), out)
    }

    open spec fn runs(self, before: Ctx, after: Ctx, out: Result<Tx1::Item, Tx1::Err>) -> bool {
        or_else_runs(self.tx1, self.f, before, after, out)
    }

    fn run(self, ctx: &mut Ctx) -> (out: Result<Tx1::Item, Tx1::Err>) {
        let ghost (tx1, f) = (self.tx1, self.f);
        let sequence = or_else_on::<Ctx, Tx1, Tx2, F>;
        let out = sequence(self.tx1, self.f, ctx);
        proof {
            // The borrow that the call was made on.
            let c = choose|c: &mut Ctx|
                *c == *old(ctx) && *final(c) == *ctx && call_ensures(sequence, (tx1, f, c), out);
            assert(self.does(c, out));
        }
        out
    }
}

/// Runs `tx1` and, if it fails, the transaction that `f` builds from its
/// error, on the same context; a success of `tx1` is the outcome and `f` is
/// not called.
pub fn or_else<Ctx, Tx1, Tx2, F>(tx1: Tx1, f: F) -> (tx: impl FnOnce(&mut Ctx) -> Result<
    Tx1::Item,
    Tx1::Err,
>) where
    Tx1: Tx<Ctx>,
    Tx2: Tx<Ctx, Item = Tx1::Item, Err = Tx1::Err>,
    F: FnOnce(Tx1::Err) -> Tx2,

    ensures
        forall|c: &mut Ctx| (OrElse { tx1, f }).can_run(*c) ==> #[trigger] call_requires(tx, (c,)),
        forall|c: &mut Ctx, out: Result<Tx1::Item, Tx1::Err>| #[trigger]
            call_ensures(tx, (c,), out) ==> (OrElse { tx1, f }).runs(*c, *final(c), out) && exists|
                d: &mut Ctx,
            |
                *d == *c && *final(d) == *final(c) && #[trigger] (OrElse { tx1, f }).does(d, out),
{
    move |ctx: &mut Ctx| -> (out: Result<Tx1::Item, Tx1::Err>)
        requires
            (OrElse { tx1, f }).can_run(*old(ctx)),
        ensures
            (OrElse { tx1, f }).runs(*old(ctx), *final(ctx), out),
            exists|d: &mut Ctx|
                *d == *old(ctx) && *final(d) == *final(ctx) && #[trigger] (OrElse { tx1, f }).does(
                    d,
                    out,
                ),
        { (OrElse { tx1, f }).run(ctx) }
}

} // verus!
