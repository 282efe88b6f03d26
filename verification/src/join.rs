//! Combinators that run several transactions one after the other on the same
//! context and collect their items: `join`, `join3` and `join4`.
//!
//! Every source is run, from left to right, whether or not an earlier one
//! failed. The outcome is the tuple of all items if every source succeeded,
//! and otherwise the error of the leftmost source that failed. All sources
//! share one error type.
//!
//! Each comes in three forms: a function that runs the sources at once on a
//! context (`join_on`), whose contract says how the context passes from one
//! source to the next; the type that stores the sources and is a
//! transaction, whose `does` and `can_run` are those of that function; and
//! the free function that gives the stored sources as a plain function of
//! the context.

use vstd::prelude::*;
use crate::tx::Tx;

verus! {

/// The tuple of both items, or the error of the first failure from the left.
pub open spec fn joined<T, U, E>(r1: Result<T, E>, r2: Result<U, E>) -> Result<(T, U), E> {
    match (r1, r2) {
        (Ok(t), Ok(u)) => Ok((t, u)),
        (Err(e), _) => Err(e),
        (_, Err(e)) => Err(e),
    }
}

/// The tuple of the three items, or the error of the first failure from the
/// left.
pub open spec fn joined3<T, U, V, E>(
    r1: Result<T, E>,
    r2: Result<U, E>,
    r3: Result<V, E>,
) -> Result<(T, U, V), E> {
    match (r1, r2, r3) {
        (Ok(t), Ok(u), Ok(v)) => Ok((t, u, v)),
        (Err(e), _, _) => Err(e),
        (_, Err(e), _) => Err(e),
        (_, _, Err(e)) => Err(e),
    }
}

/// The tuple of the four items, or the error of the first failure from the
/// left.
pub open spec fn joined4<T, U, V, W, E>(
    r1: Result<T, E>,
    r2: Result<U, E>,
    r3: Result<V, E>,
    r4: Result<W, E>,
) -> Result<(T, U, V, W), E> {
    match (r1, r2, r3, r4) {
        (Ok(t), Ok(u), Ok(v), Ok(w)) => Ok((t, u, v, w)),
        (Err(e), _, _, _) => Err(e),
        (_, Err(e), _, _) => Err(e),
        (_, _, Err(e), _) => Err(e),
        (_, _, _, Err(e)) => Err(e),
    }
}

/// Whether the sources, run in this order from a context that holds
/// `before`, may leave it holding `after` and produce `out`: the relation
/// over values that `Join` has for `runs`.
pub open spec fn join_runs<Ctx, A, B>(
    a: A,
    b: B,
    before: Ctx,
    after: Ctx,
    out: Result<(A::Item, B::Item), A::Err>,
) -> bool where
    A: Tx<Ctx>,
    B: Tx<Ctx, Err = A::Err>,
 {
    exists|
        m1: Ctx,
        r1: Result<A::Item, A::Err>,
        r2: Result<B::Item, A::Err>,
    |
        {
            &&& #[trigger] a.runs(before, m1, r1)
            &&& #[trigger] b.runs(m1, after, r2)
            &&& out == joined(r1, r2)
        }
}

/// Runs the sources on `ctx` in this order, each on the context as the one
/// before left it. All are run; the outcome is the tuple of their items, or
/// the error of the leftmost one that failed.
pub fn join_on<Ctx, A, B>(a: A, b: B, ctx: &mut Ctx) -> (out: Result<
    (A::Item, B::Item),
    A::Err,
>) where
    A: Tx<Ctx>,
    B: Tx<Ctx, Err = A::Err>,

    requires
        a.can_run(*old(ctx)),
        forall|c1: &mut Ctx, r1: Result<A::Item, A::Err>|
            *c1 == *old(ctx) && #[trigger] a.does(c1, r1) ==> b.can_run(*final(c1)),
    ensures
        join_runs(a, b, *old(ctx), *final(ctx), out),
        exists|
            c1: &mut Ctx,
            c2: &mut Ctx,
            r1: Result<A::Item, A::Err>,
            r2: Result<B::Item, A::Err>,
        |
            {
                &&& *c1 == *old(ctx)
                &&& #[trigger] a.does(c1, r1)
                &&& *c2 == *final(c1)
                &&& #[trigger] b.does(c2, r2)
                &&& *final(c2) == *final(ctx)
                &&& out == joined(r1, r2)
            },
{
    match (a.run(ctx), b.run(ctx)) {
        (Ok(t), Ok(u)) => Ok((t, u)),
        (Err(e), _) | (_, Err(e)) => Err(e),
    }
}

/// The transaction built by `join`: runs its sources in this order. It may
/// be started where `join_on` may be called on them, and what it does on a
/// borrowed context is what that call does.
pub struct Join<Tx1, Tx2> {
    /// The transaction that is run first.
    pub tx1: Tx1,
    /// The transaction that is run second.
    pub tx2: Tx2,
}

impl<Ctx, Tx1, Tx2> Tx<Ctx> for Join<Tx1, Tx2> where
    Tx1: Tx<Ctx>,
    Tx2: Tx<Ctx, Err = Tx1::Err>,
 {
    type Item = (Tx1::Item, Tx2::Item);

    type Err = Tx1::Err;

    open spec fn can_run(self, ctx: Ctx) -> bool {
        forall|c: &mut Ctx|
            *c == ctx ==> #[trigger] call_requires(join_on::<Ctx, Tx1, Tx2>, (self.tx1, self.tx2, c))
    }

    open spec fn does(self, c: &mut Ctx, out: Result<(Tx1::Item, Tx2::Item), Tx1::Err>) -> bool {
        call_ensures(join_on::<Ctx, Tx1, Tx2>, (self.tx1, self.tx2, c), out)
    }

    open spec fn runs(self, before: Ctx, after: Ctx, out: Result<(Tx1::Item, Tx2::Item), Tx1::Err>) -> bool {
        join_runs(self.tx1, self.tx2, before, after, out)
    }

    fn run(self, ctx: &mut Ctx) -> (out: Result<(Tx1::Item, Tx2::Item), Tx1::Err>) {
        let ghost (tx1, tx2) = (self.tx1, self.tx2);
        let sources = join_on::<Ctx, Tx1, Tx2>;
        let out = sources(self.tx1, self.tx2, ctx);
        proof {
            // The borrow that the call was made on.
            let c = choose|c: &mut Ctx|
                *c == *old(ctx) && *final(c) == *ctx && call_ensures(sources, (tx1, tx2, c), out);
            assert(self.does(c, out));
        }
        out
    }
}

/// Runs the sources in this order on the same context. All are run; the
/// outcome is the tuple of their items, or the error of the leftmost one
/// that failed.
pub fn join<Ctx, Tx1, Tx2>(tx1: Tx1, tx2: Tx2) -> (tx: impl FnOnce(&mut Ctx) -> Result<
    (Tx1::Item, Tx2::Item),
    Tx1::Err,
>) where
    Tx1: Tx<Ctx>,
    Tx2: Tx<Ctx, Err = Tx1::Err>,

    ensures
        forall|c: &mut Ctx| (Join { tx1, tx2 }).can_run(*c) ==> #[trigger] call_requires(tx, (c,)),
        forall|c: &mut Ctx, out: Result<(Tx1::Item, Tx2::Item), Tx1::Err>| #[trigger]
            call_ensures(tx, (c,), out) ==> (Join { tx1, tx2 }).runs(*c, *final(c), out) && exists|
                d: &mut Ctx,
            |
                *d == *c && *final(d) == *final(c) && #[trigger] (Join { tx1, tx2 }).does(d, out),
{
    move |ctx: &mut Ctx| -> (out: Result<(Tx1::Item, Tx2::Item), Tx1::Err>)
        requires
            (Join { tx1, tx2 }).can_run(*old(ctx)),
        ensures
            (Join { tx1, tx2 }).runs(*old(ctx), *final(ctx), out),
            exists|d: &mut Ctx|
                *d == *old(ctx) && *final(d) == *final(ctx) && #[trigger] (Join { tx1, tx2 }).does(
                    d,
                    out,
                ),
        { (Join { tx1, tx2 }).run(ctx) }
}

/// Whether the sources, run in this order from a context that holds
/// `before`, may leave it holding `after` and produce `out`: the relation
/// over values that `Join3` has for `runs`.
pub open spec fn join3_runs<Ctx, A, B, D>(
    a: A,
    b: B,
    d: D,
    before: Ctx,
    after: Ctx,
    out: Result<(A::Item, B::Item, D::Item), A::Err>,
) -> bool where
    A: Tx<Ctx>,
    B: Tx<Ctx, Err = A::Err>,
    D: Tx<Ctx, Err = A::Err>,
 {
    exists|
        m1: Ctx,
        m2: Ctx,
        r1: Result<A::Item, A::Err>,
        r2: Result<B::Item, A::Err>,
        r3: Result<D::Item, A::Err>,
    |
        {
            &&& #[trigger] a.runs(before, m1, r1)
            &&& #[trigger] b.runs(m1, m2, r2)
            &&& #[trigger] d.runs(m2, after, r3)
            &&& out == joined3(r1, r2, r3)
        }
}

/// Runs the sources on `ctx` in this order, each on the context as the one
/// before left it. All are run; the outcome is the tuple of their items, or
/// the error of the leftmost one that failed.
pub fn join3_on<Ctx, A, B, D>(a: A, b: B, d: D, ctx: &mut Ctx) -> (out: Result<
    (A::Item, B::Item, D::Item),
    A::Err,
>) where
    A: Tx<Ctx>,
    B: Tx<Ctx, Err = A::Err>,
    D: Tx<Ctx, Err = A::Err>,

    requires
        a.can_run(*old(ctx)),
        forall|c1: &mut Ctx, r1: Result<A::Item, A::Err>|
            *c1 == *old(ctx) && #[trigger] a.does(c1, r1) ==> b.can_run(*final(c1)) && (
            forall|c2: &mut Ctx, r2: Result<B::Item, A::Err>|
                *c2 == *final(c1) && #[trigger] b.does(c2, r2) ==> d.can_run(*final(c2))
            ),
    ensures
        join3_runs(a, b, d, *old(ctx), *final(ctx), out),
        exists|
            c1: &mut Ctx,
            c2: &mut Ctx,
            c3: &mut Ctx,
            r1: Result<A::Item, A::Err>,
            r2: Result<B::Item, A::Err>,
            r3: Result<D::Item, A::Err>,
        |
            {
                &&& *c1 == *old(ctx)
                &&& #[trigger] a.does(c1, r1)
                &&& *c2 == *final(c1)
                &&& #[trigger] b.does(c2, r2)
                &&& *c3 == *final(c2)
                &&& #[trigger] d.does(c3, r3)
                &&& *final(c3) == *final(ctx)
                &&& out == joined3(r1, r2, r3)
            },
{
    match (a.run(ctx), b.run(ctx), d.run(ctx)) {
        (Ok(t), Ok(u), Ok(v)) => Ok((t, u, v)),
        (Err(e), _, _) | (_, Err(e), _) | (_, _, Err(e)) => Err(e),
    }
}

/// The transaction built by `join3`: runs its sources in this order. It may
/// be started where `join3_on` may be called on them, and what it does on a
/// borrowed context is what that call does.
pub struct Join3<Tx1, Tx2, Tx3> {
    /// The transaction that is run first.
    pub tx1: Tx1,
    /// The transaction that is run second.
    pub tx2: Tx2,
    /// The transaction that is run third.
    pub tx3: Tx3,
}

impl<Ctx, Tx1, Tx2, Tx3> Tx<Ctx> for Join3<Tx1, Tx2, Tx3> where
    Tx1: Tx<Ctx>,
    Tx2: Tx<Ctx, Err = Tx1::Err>,
    Tx3: Tx<Ctx, Err = Tx1::Err>,
 {
    type Item = (Tx1::Item, Tx2::Item, Tx3::Item);

    type Err = Tx1::Err;

    open spec fn can_run(self, ctx: Ctx) -> bool {
        forall|c: &mut Ctx|
            *c == ctx ==> #[trigger] call_requires(join3_on::<Ctx, Tx1, Tx2, Tx3>, (self.tx1, self.tx2, self.tx3, c))
    }

    open spec fn does(self, c: &mut Ctx, out: Result<(Tx1::Item, Tx2::Item, Tx3::Item), Tx1::Err>) -> bool {
        call_ensures(join3_on::<Ctx, Tx1, Tx2, Tx3>, (self.tx1, self.tx2, self.tx3, c), out)
    }

    open spec fn runs(self, before: Ctx, after: Ctx, out: Result<(Tx1::Item, Tx2::Item, Tx3::Item), Tx1::Err>) -> bool {
        join3_runs(self.tx1, self.tx2, self.tx3, before, after, out)
    }

    fn run(self, ctx: &mut Ctx) -> (out: Result<(Tx1::Item, Tx2::Item, Tx3::Item), Tx1::Err>) {
        let ghost (tx1, tx2, tx3) = (self.tx1, self.tx2, self.tx3);
        let sources = join3_on::<Ctx, Tx1, Tx2, Tx3>;
        let out = sources(self.tx1, self.tx2, self.tx3, ctx);
        proof {
            // The borrow that the call was made on.
            let c = choose|c: &mut Ctx|
                *c == *old(ctx) && *final(c) == *ctx && call_ensures(sources, (tx1, tx2, tx3, c), out);
            assert(self.does(c, out));
        }
        out
    }
}

/// Runs the sources in this order on the same context. All are run; the
/// outcome is the tuple of their items, or the error of the leftmost one
/// that failed.
pub fn join3<Ctx, Tx1, Tx2, Tx3>(tx1: Tx1, tx2: Tx2, tx3: Tx3) -> (tx: impl FnOnce(&mut Ctx) -> Result<
    (Tx1::Item, Tx2::Item, Tx3::Item),
    Tx1::Err,
>) where
    Tx1: Tx<Ctx>,
    Tx2: Tx<Ctx, Err = Tx1::Err>,
    Tx3: Tx<Ctx, Err = Tx1::Err>,

    ensures
        forall|c: &mut Ctx| (Join3 { tx1, tx2, tx3 }).can_run(*c) ==> #[trigger] call_requires(tx, (c,)),
        forall|c: &mut Ctx, out: Result<(Tx1::Item, Tx2::Item, Tx3::Item), Tx1::Err>| #[trigger]
            call_ensures(tx, (c,), out) ==> (Join3 { tx1, tx2, tx3 }).runs(*c, *final(c), out) && exists|
                d: &mut Ctx,
            |
                *d == *c && *final(d) == *final(c) && #[trigger] (Join3 { tx1, tx2, tx3 }).does(d, out),
{
    move |ctx: &mut Ctx| -> (out: Result<(Tx1::Item, Tx2::Item, Tx3::Item), Tx1::Err>)
        requires
            (Join3 { tx1, tx2, tx3 }).can_run(*old(ctx)),
        ensures
            (Join3 { tx1, tx2, tx3 }).runs(*old(ctx), *final(ctx), out),
            exists|d: &mut Ctx|
                *d == *old(ctx) && *final(d) == *final(ctx) && #[trigger] (Join3 { tx1, tx2, tx3 }).does(
                    d,
                    out,
                ),
        { (Join3 { tx1, tx2, tx3 }).run(ctx) }
}

/// Whether the sources, run in this order from a context that holds
/// `before`, may leave it holding `after` and produce `out`: the relation
/// over values that `Join4` has for `runs`.
pub open spec fn join4_runs<Ctx, A, B, D, E>(
    a: A,
    b: B,
    d: D,
    e: E,
    before: Ctx,
    after: Ctx,
    out: Result<(A::Item, B::Item, D::Item, E::Item), A::Err>,
) -> bool where
    A: Tx<Ctx>,
    B: Tx<Ctx, Err = A::Err>,
    D: Tx<Ctx, Err = A::Err>,
    E: Tx<Ctx, Err = A::Err>,
 {
    exists|
        m1: Ctx,
        m2: Ctx,
        m3: Ctx,
        r1: Result<A::Item, A::Err>,
        r2: Result<B::Item, A::Err>,
        r3: Result<D::Item, A::Err>,
        r4: Result<E::Item, A::Err>,
    |
        {
            &&& #[trigger] a.runs(before, m1, r1)
            &&& #[trigger] b.runs(m1, m2, r2)
            &&& #[trigger] d.runs(m2, m3, r3)
            &&& #[trigger] e.runs(m3, after, r4)
            &&& out == joined4(r1, r2, r3, r4)
        }
}

/// Runs the sources on `ctx` in this order, each on the context as the one
/// before left it. All are run; the outcome is the tuple of their items, or
/// the error of the leftmost one that failed.
pub fn join4_on<Ctx, A, B, D, E>(a: A, b: B, d: D, e: E, ctx: &mut Ctx) -> (out: Result<
    (A::Item, B::Item, D::Item, E::Item),
    A::Err,
>) where
    A: Tx<Ctx>,
    B: Tx<Ctx, Err = A::Err>,
    D: Tx<Ctx, Err = A::Err>,
    E: Tx<Ctx, Err = A::Err>,

    requires
        a.can_run(*old(ctx)),
        forall|c1: &mut Ctx, r1: Result<A::Item, A::Err>|
            *c1 == *old(ctx) && #[trigger] a.does(c1, r1) ==> b.can_run(*final(c1)) && (
            forall|c2: &mut Ctx, r2: Result<B::Item, A::Err>|
                *c2 == *final(c1) && #[trigger] b.does(c2, r2) ==> d.can_run(*final(c2)) && (
                forall|c3: &mut Ctx, r3: Result<D::Item, A::Err>|
                    *c3 == *final(c2) && #[trigger] d.does(c3, r3) ==> e.can_run(*final(c3))
                )
            ),
    ensures
        join4_runs(a, b, d, e, *old(ctx), *final(ctx), out),
        exists|
            c1: &mut Ctx,
            c2: &mut Ctx,
            c3: &mut Ctx,
            c4: &mut Ctx,
            r1: Result<A::Item, A::Err>,
            r2: Result<B::Item, A::Err>,
            r3: Result<D::Item, A::Err>,
            r4: Result<E::Item, A::Err>,
        |
            {
                &&& *c1 == *old(ctx)
                &&& #[trigger] a.does(c1, r1)
                &&& *c2 == *final(c1)
                &&& #[trigger] b.does(c2, r2)
                &&& *c3 == *final(c2)
                &&& #[trigger] d.does(c3, r3)
                &&& *c4 == *final(c3)
                &&& #[trigger] e.does(c4, r4)
                &&& *final(c4) == *final(ctx)
                &&& out == joined4(r1, r2, r3, r4)
            },
{
    match (a.run(ctx), b.run(ctx), d.run(ctx), e.run(ctx)) {
        (Ok(t), Ok(u), Ok(v), Ok(w)) => Ok((t, u, v, w)),
        (Err(e), _, _, _) | (_, Err(e), _, _) | (_, _, Err(e), _) | (_, _, _, Err(e)) => Err(e),
    }
}

/// The transaction built by `join4`: runs its sources in this order. It may
/// be started where `join4_on` may be called on them, and what it does on a
/// borrowed context is what that call does.
pub struct Join4<Tx1, Tx2, Tx3, Tx4> {
    /// The transaction that is run first.
    pub tx1: Tx1,
    /// The transaction that is run second.
    pub tx2: Tx2,
    /// The transaction that is run third.
    pub tx3: Tx3,
    /// The transaction that is run last.
    pub tx4: Tx4,
}

impl<Ctx, Tx1, Tx2, Tx3, Tx4> Tx<Ctx> for Join4<Tx1, Tx2, Tx3, Tx4> where
    Tx1: Tx<Ctx>,
    Tx2: Tx<Ctx, Err = Tx1::Err>,
    Tx3: Tx<Ctx, Err = Tx1::Err>,
    Tx4: Tx<Ctx, Err = Tx1::Err>,
 {
    type Item = (Tx1::Item, Tx2::Item, Tx3::Item, Tx4::Item);

    type Err = Tx1::Err;

    open spec fn can_run(self, ctx: Ctx) -> bool {
        forall|c: &mut Ctx|
            *c == ctx ==> #[trigger] call_requires(join4_on::<Ctx, Tx1, Tx2, Tx3, Tx4>, (self.tx1, self.tx2, self.tx3, self.tx4, c))
    }

    open spec fn does(self, c: &mut Ctx, out: Result<(Tx1::Item, Tx2::Item, Tx3::Item, Tx4::Item), Tx1::Err>) -> bool {
        call_ensures(join4_on::<Ctx, Tx1, Tx2, Tx3, Tx4>, (self.tx1, self.tx2, self.tx3, self.tx4, c), out)
    }

    open spec fn runs(self, before: Ctx, after: Ctx, out: Result<(Tx1::Item, Tx2::Item, Tx3::Item, Tx4::Item), Tx1::Err>) -> bool {
        join4_runs(self.tx1, self.tx2, self.tx3, self.tx4, before, after, out)
    }

    fn run(self, ctx: &mut Ctx) -> (out: Result<(Tx1::Item, Tx2::Item, Tx3::Item, Tx4::Item), Tx1::Err>) {
        let ghost (tx1, tx2, tx3, tx4) = (self.tx1, self.tx2, self.tx3, self.tx4);
        let sources = join4_on::<Ctx, Tx1, Tx2, Tx3, Tx4>;
        let out = sources(self.tx1, self.tx2, self.tx3, self.tx4, ctx);
        proof {
            // The borrow that the call was made on.
            let c = choose|c: &mut Ctx|
                *c == *old(ctx) && *final(c) == *ctx && call_ensures(sources, (tx1, tx2, tx3, tx4, c), out);
            assert(self.does(c, out));
        }
        out
    }
}

/// Runs the sources in this order on the same context. All are run; the
/// outcome is the tuple of their items, or the error of the leftmost one
/// that failed.
pub fn join4<Ctx, Tx1, Tx2, Tx3, Tx4>(tx1: Tx1, tx2: Tx2, tx3: Tx3, tx4: Tx4) -> (tx: impl FnOnce(&mut Ctx) -> Result<
    (Tx1::Item, Tx2::Item, Tx3::Item, Tx4::Item),
    Tx1::Err,
>) where
    Tx1: Tx<Ctx>,
    Tx2: Tx<Ctx, Err = Tx1::Err>,
    Tx3: Tx<Ctx, Err = Tx1::Err>,
    Tx4: Tx<Ctx, Err = Tx1::Err>,

    ensures
        forall|c: &mut Ctx| (Join4 { tx1, tx2, tx3, tx4 }).can_run(*c) ==> #[trigger] call_requires(tx, (c,)),
        forall|c: &mut Ctx, out: Result<(Tx1::Item, Tx2::Item, Tx3::Item, Tx4::Item), Tx1::Err>| #[trigger]
            call_ensures(tx, (c,), out) ==> (Join4 { tx1, tx2, tx3, tx4 }).runs(*c, *final(c), out) && exists|
                d: &mut Ctx,
            |
                *d == *c && *final(d) == *final(c) && #[trigger] (Join4 { tx1, tx2, tx3, tx4 }).does(d, out),
{
    move |ctx: &mut Ctx| -> (out: Result<(Tx1::Item, Tx2::Item, Tx3::Item, Tx4::Item), Tx1::Err>)
        requires
            (Join4 { tx1, tx2, tx3, tx4 }).can_run(*old(ctx)),
        ensures
            (Join4 { tx1, tx2, tx3, tx4 }).runs(*old(ctx), *final(ctx), out),
            exists|d: &mut Ctx|
                *d == *old(ctx) && *final(d) == *final(ctx) && #[trigger] (Join4 { tx1, tx2, tx3, tx4 }).does(
                    d,
                    out,
                ),
        { (Join4 { tx1, tx2, tx3, tx4 }).run(ctx) }
}

} // verus!
