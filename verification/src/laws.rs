//! What holds of every transaction built with the combinators.
//!
//! Laws over `does` speak of one execution on a borrowed context and say what
//! it returns and how it leaves the context. Laws over `runs` speak of
//! values alone; there both directions can be had, so that two transactions
//! can be shown to have the same executions.

use vstd::prelude::*;
use crate::join::{joined, Join, Join3, Join4};
use crate::sequence::{continues, AndThen, OrElse, Then};
use crate::recovery::{Abort, Recover, TryAbort, TryRecover};
use crate::transform::{mapped, MapErr, MapItem, TryMap};
use crate::tx::Tx;

verus! {

/// Lifting adds nothing. A function taken as a transaction may be started
/// exactly where the function may be called, and what it does on a borrowed
/// context is exactly what a call on that borrow does. In particular a
/// function that can only return `Ok(x)` and leaves its context alone yields
/// `Ok(x)` and leaves the context alone.
pub proof fn law_lift_is_identity<Ctx, T, E, F>(
    leaf: F,
    c: &mut Ctx,
    before: Ctx,
    after: Ctx,
    out: Result<T, E>,
) where F: FnOnce(&mut Ctx) -> Result<T, E>
    ensures
        leaf.does(c, out) <==> call_ensures(leaf, (c,), out),
        forall|x: T|
            leaf.does(c, out) && (forall|d: &mut Ctx, r: Result<T, E>|
                call_ensures(leaf, (d,), r) ==> r == Ok::<T, E>(x) && *final(d) == *d) ==> out
                == Ok::<T, E>(x) && *final(c) == *old(c),
        leaf.can_run(before) <==> (forall|c: &mut Ctx| *c == before ==> call_requires(leaf, (c,))),
        leaf.runs(before, after, out) <==> (exists|c: &mut Ctx|
            *c == before && call_ensures(leaf, (c,), out)),
        forall|x: T|
            leaf.runs(before, after, out) && (forall|c: &mut Ctx, r: Result<T, E>|
                call_ensures(leaf, (c,), r) ==> r == Ok::<T, E>(x)) ==> out == Ok::<T, E>(x),
{
}

/// `r` with its item, if any, replaced by its image under `g`.
pub open spec fn map_result<T, U, E>(r: Result<T, E>, g: spec_fn(T) -> U) -> Result<U, E> {
    match r {
        Ok(x) => Ok(g(x)),
        Err(e) => Err(e),
    }
}

/// Mapping commutes with running, over values. If `f` computes the function
/// `g`, every execution of `tx.map(f)` is an execution of `tx` with `g` applied to the
/// item of its outcome, and the context is left as `tx` leaves it.
/// Conversely, if `f` can return `g(x)` for every `x`, every execution of
/// `tx` gives one of `tx.map(f)` in this way.
pub proof fn law_map_is_functorial<Ctx, X, F, U>(
    tx: X,
    f: F,
    g: spec_fn(X::Item) -> U,
    before: Ctx,
    after: Ctx,
) where X: Tx<Ctx>, F: FnOnce(X::Item) -> U
    ensures
        (forall|x: X::Item, y: U| call_ensures(f, (x,), y) ==> y == g(x)) ==> forall|
            out: Result<U, X::Err>,
        | #[trigger]
            (MapItem { tx1: tx, f }).runs(before, after, out) ==> exists|
                inner: Result<X::Item, X::Err>,
            | #[trigger]
                tx.runs(before, after, inner) && out == map_result(inner, g),
        (forall|x: X::Item| #[trigger] call_ensures(f, (x,), g(x))) ==> forall|
            inner: Result<X::Item, X::Err>,
        | #[trigger]
            tx.runs(before, after, inner) ==> (MapItem { tx1: tx, f }).runs(
                before,
                after,
                map_result(inner, g),
            ),
{
    let composed = MapItem { tx1: tx, f };
    if forall|x: X::Item, y: U| call_ensures(f, (x,), y) ==> y == g(x) {
        assert forall|out: Result<U, X::Err>| #[trigger]
            composed.runs(before, after, out) implies exists|inner: Result<X::Item, X::Err>| #[trigger]
            tx.runs(before, after, inner) && out == map_result(inner, g) by {
            let inner = choose|inner: Result<X::Item, X::Err>| #[trigger]
                tx.runs(before, after, inner) && mapped(f, inner, out);
            assert(out == map_result(inner, g));
        }
    }
    if forall|x: X::Item| #[trigger] call_ensures(f, (x,), g(x)) {
        assert forall|inner: Result<X::Item, X::Err>| #[trigger]
            tx.runs(before, after, inner) implies composed.runs(
            before,
            after,
            map_result(inner, g),
        ) by {
            assert(composed.tx1.runs(before, after, inner) && mapped(
                composed.f,
                inner,
                map_result(inner, g),
            ));
        }
    }
}

/// Sequencing short-circuits, over values. A failing execution of `tx` is an
/// execution of `tx.and_then(k)` with the same failure and the same effect
/// on the context, whatever `k` is: `k` takes no part in it.
pub proof fn law_and_then_short_circuits<Ctx, X, Y, K>(
    tx: X,
    k: K,
    e: X::Err,
    before: Ctx,
    after: Ctx,
) where X: Tx<Ctx>, Y: Tx<Ctx, Err = X::Err>, K: FnOnce(X::Item) -> Y
    requires
        tx.runs(before, after, Err(e)),
    ensures
        (AndThen { tx1: tx, f: k }).runs(before, after, Err(e)),
{
    let composed = AndThen { tx1: tx, f: k };
    assert(composed.tx1.runs(before, after, Err(e)));
}

/// Over values: where `tx` can only fail, the continuation is never built;
/// the executions of `tx.and_then(k)` are exactly the executions of `tx`,
/// whatever `k` is.
pub proof fn law_and_then_never_builds_after_failure<Ctx, X, Y, K>(
    tx: X,
    k: K,
    before: Ctx,
    after: Ctx,
    out: Result<Y::Item, X::Err>,
) where X: Tx<Ctx>, Y: Tx<Ctx, Err = X::Err>, K: FnOnce(X::Item) -> Y
    requires
        forall|mid: Ctx, inner: Result<X::Item, X::Err>| #[trigger]
            tx.runs(before, mid, inner) ==> inner is Err,
    ensures
        (AndThen { tx1: tx, f: k }).runs(before, after, out) <==> out is Err && tx.runs(
            before,
            after,
            Err(out->Err_0),
        ),
{
    if out is Err && tx.runs(before, after, Err(out->Err_0)) {
        law_and_then_short_circuits::<Ctx, X, Y, K>(tx, k, out->Err_0, before, after);
    }
}

/// A continuation that always builds `y` continues exactly as `y` runs.
proof fn lemma_constant_continuation<Ctx, A, Y, F>(
    f: F,
    y: Y,
    arg: A,
    mid: Ctx,
    after: Ctx,
    out: Result<Y::Item, Y::Err>,
) where Y: Tx<Ctx>, F: FnOnce(A) -> Y
    requires
        forall|a: A, r: Y| call_ensures(f, (a,), r) <==> r == y,
    ensures
        continues(f, arg, mid, after, out) <==> y.runs(mid, after, out),
{
}

/// Recovery is associative, over values. Falling back from `tx` to `u` and from that to
/// `v` is the same, whichever way it is bracketed:
/// `tx.or_else(|_| u).or_else(|_| v)` and `tx.or_else(|_| u.or_else(|_| v))`
/// have the same executions.
///
/// `to_u` stands for `|_| u`, `to_v` and `to_v_inner` for the two copies of
/// `|_| v`, and `to_u_or_v` for `|_| u.or_else(|_| v)`.
pub proof fn law_or_else_is_associative<Ctx, X, U, V, FU, FV, FV2, FUV>(
    tx: X,
    u: U,
    v: V,
    to_u: FU,
    to_v: FV,
    to_v_inner: FV2,
    to_u_or_v: FUV,
    before: Ctx,
    after: Ctx,
    out: Result<X::Item, X::Err>,
) where
    X: Tx<Ctx>,
    U: Tx<Ctx, Item = X::Item, Err = X::Err>,
    V: Tx<Ctx, Item = X::Item, Err = X::Err>,
    FU: FnOnce(X::Err) -> U,
    FV: FnOnce(X::Err) -> V,
    FV2: FnOnce(X::Err) -> V,
    FUV: FnOnce(X::Err) -> OrElse<U, FV2>,

    requires
        forall|e: X::Err, r: U| call_ensures(to_u, (e,), r) <==> r == u,
        forall|e: X::Err, r: V| call_ensures(to_v, (e,), r) <==> r == v,
        forall|e: X::Err, r: V| call_ensures(to_v_inner, (e,), r) <==> r == v,
        forall|e: X::Err, r: OrElse<U, FV2>|
            call_ensures(to_u_or_v, (e,), r) <==> r == (OrElse { tx1: u, f: to_v_inner }),
    ensures
        (OrElse { tx1: OrElse { tx1: tx, f: to_u }, f: to_v }).runs(before, after, out) <==> (OrElse {
            tx1: tx,
            f: to_u_or_v,
        }).runs(before, after, out),
{
    let first = OrElse { tx1: tx, f: to_u };
    let left = OrElse { tx1: first, f: to_v };
    let u_or_v = OrElse { tx1: u, f: to_v_inner };
    let right = OrElse { tx1: tx, f: to_u_or_v };

    // What each constant continuation amounts to, wherever it is used.
    assert forall|e: X::Err, c1: Ctx, c2: Ctx, r: Result<X::Item, X::Err>|
        {
            &&& (#[trigger] continues(to_u, e, c1, c2, r) <==> u.runs(c1, c2, r))
            &&& (#[trigger] continues(to_v, e, c1, c2, r) <==> v.runs(c1, c2, r))
            &&& (#[trigger] continues(to_v_inner, e, c1, c2, r) <==> v.runs(c1, c2, r))
            &&& (#[trigger] continues(to_u_or_v, e, c1, c2, r) <==> u_or_v.runs(c1, c2, r))
        } by {
        lemma_constant_continuation(to_u, u, e, c1, c2, r);
        lemma_constant_continuation(to_v, v, e, c1, c2, r);
        lemma_constant_continuation(to_v_inner, v, e, c1, c2, r);
        lemma_constant_continuation(to_u_or_v, u_or_v, e, c1, c2, r);
    }

    // Every execution of the left bracketing is one of the right.
    if left.runs(before, after, out) {
        let (c2, r2) = choose|c2: Ctx, r2: Result<X::Item, X::Err>| #[trigger]
            first.runs(before, c2, r2) && match r2 {
                Ok(t) => after == c2 && out == Ok::<X::Item, X::Err>(t),
                Err(e) => continues(to_v, e, c2, after, out),
            };
        let (c1, r1) = choose|c1: Ctx, r1: Result<X::Item, X::Err>| #[trigger]
            tx.runs(before, c1, r1) && match r1 {
                Ok(t) => c2 == c1 && r2 == Ok::<X::Item, X::Err>(t),
                Err(e) => continues(to_u, e, c1, c2, r2),
            };
        if r1 is Err {
            assert(u_or_v.tx1.runs(c1, c2, r2));
            assert(u_or_v.runs(c1, after, out));
        }
    }
    // Every execution of the right bracketing is one of the left.
    if right.runs(before, after, out) {
        let (c1, r1) = choose|c1: Ctx, r1: Result<X::Item, X::Err>| #[trigger]
            tx.runs(before, c1, r1) && match r1 {
                Ok(t) => after == c1 && out == Ok::<X::Item, X::Err>(t),
                Err(e) => continues(to_u_or_v, e, c1, after, out),
            };
        if r1 is Err {
            let (c2, r2) = choose|c2: Ctx, r2: Result<X::Item, X::Err>| #[trigger]
                u.runs(c1, c2, r2) && match r2 {
                    Ok(t) => after == c2 && out == Ok::<X::Item, X::Err>(t),
                    Err(e) => continues(to_v_inner, e, c2, after, out),
                };
            assert(first.tx1.runs(before, c1, r1));
            assert(left.tx1.runs(before, c2, r2));
        } else {
            assert(first.tx1.runs(before, c1, r1));
            assert(left.tx1.runs(before, c1, r1));
        }
    }
}

/// Mapping commutes with running, on the borrowed context. If `f` computes
/// the function `g`, whatever `tx.map(f)` does on a borrow is what `tx` does
/// on that same borrow, with `g` applied to the item of the outcome.
pub proof fn law_map_keeps_the_context<Ctx, X, F, U>(
    tx: X,
    f: F,
    g: spec_fn(X::Item) -> U,
    c: &mut Ctx,
    out: Result<U, X::Err>,
) where X: Tx<Ctx>, F: FnOnce(X::Item) -> U
    requires
        forall|x: X::Item, y: U| call_ensures(f, (x,), y) ==> y == g(x),
        (MapItem { tx1: tx, f }).does(c, out),
    ensures
        exists|inner: Result<X::Item, X::Err>| #[trigger]
            tx.does(c, inner) && out == map_result(inner, g),
{
    let inner = choose|inner: Result<X::Item, X::Err>| #[trigger]
        tx.does(c, inner) && mapped(f, inner, out);
    assert(out == map_result(inner, g));
}

/// Sequencing short-circuits, on the borrowed context. Where `tx` can only
/// fail, `tx.and_then(k)` may be started wherever `tx` may, whatever `k`
/// demands; and what it does on a borrow is a failing execution of `tx` on a
/// borrow of the same context that leaves it in the same state. The
/// continuation has no part in either.
pub proof fn law_and_then_stops_at_the_failure<Ctx, X, Y, K>(
    tx: X,
    k: K,
    c: &mut Ctx,
    out: Result<Y::Item, X::Err>,
) where X: Tx<Ctx>, Y: Tx<Ctx, Err = X::Err>, K: FnOnce(X::Item) -> Y
    requires
        forall|c1: &mut Ctx, x: X::Item| *c1 == *c ==> !#[trigger] tx.does(c1, Ok(x)),
    ensures
        tx.can_run(*old(c)) ==> (AndThen { tx1: tx, f: k }).can_run(*old(c)),
        (AndThen { tx1: tx, f: k }).does(c, out) ==> out is Err && exists|c1: &mut Ctx|
            *c1 == *old(c) && *final(c1) == *final(c) && #[trigger] tx.does(c1, Err(out->Err_0)),
{
    if (AndThen { tx1: tx, f: k }).does(c, out) {
        // What the sequence did first: an execution of `tx`, which failed.
        let (c1, inner) = choose|c1: &mut Ctx, inner: Result<X::Item, X::Err>|
            *c1 == *c && #[trigger] tx.does(c1, inner) && (inner matches Err(e) ==> *final(c1)
                == *final(c) && out == Err::<Y::Item, X::Err>(e));
        if inner is Ok {
            assert(tx.does(c1, Ok(inner->Ok_0)));
        }
        assert(tx.does(c1, Err(out->Err_0)));
    }
}

/// Sequencing is associative, on the borrowed context. Whichever way
/// `tx.and_then(k).and_then(h)` is bracketed, what it does on a borrow is
/// this: `tx` runs; if it succeeds, what `k` builds from its item runs on
/// the context as `tx` left it; if that succeeds, what `h` builds from its
/// item runs on the context as it was left then. The first failure is the
/// outcome and nothing runs after it; the context is left as the last
/// transaction to run left it.
///
/// `h_inner` stands for the copy of `h` inside `|x| k(x).and_then(h)`, and
/// `k_then_h` for that function.
pub proof fn law_and_then_brackets_alike<Ctx, X, Y, Z, K, H, H2, KH>(
    tx: X,
    k: K,
    h: H,
    h_inner: H2,
    k_then_h: KH,
    c: &mut Ctx,
    out: Result<Z::Item, X::Err>,
) where
    X: Tx<Ctx>,
    Y: Tx<Ctx, Err = X::Err>,
    Z: Tx<Ctx, Err = X::Err>,
    K: FnOnce(X::Item) -> Y,
    H: FnOnce(Y::Item) -> Z,
    H2: FnOnce(Y::Item) -> Z,
    KH: FnOnce(X::Item) -> AndThen<Y, H2>,

    requires
        forall|y: Y::Item, z: Z| call_ensures(h_inner, (y,), z) ==> call_ensures(h, (y,), z),
        forall|x: X::Item, r: AndThen<Y, H2>| #[trigger]
            call_ensures(k_then_h, (x,), r) ==> call_ensures(k, (x,), r.tx1) && r.f == h_inner,
        (AndThen { tx1: AndThen { tx1: tx, f: k }, f: h }).does(c, out) || (AndThen {
            tx1: tx,
            f: k_then_h,
        }).does(c, out),
    ensures
        exists|c1: &mut Ctx, r1: Result<X::Item, X::Err>|
            *c1 == *old(c) && #[trigger] tx.does(c1, r1) && match r1 {
                Err(e) => *final(c1) == *final(c) && out == Err::<Z::Item, X::Err>(e),
                Ok(x) => exists|y: Y, c2: &mut Ctx, r2: Result<Y::Item, X::Err>|
                    call_ensures(k, (x,), y) && *c2 == *final(c1) && #[trigger] y.does(c2, r2)
                        && match r2 {
                        Err(e) => *final(c2) == *final(c) && out == Err::<Z::Item, X::Err>(e),
                        Ok(v) => exists|z: Z, c3: &mut Ctx|
                            call_ensures(h, (v,), z) && *c3 == *final(c2) && *final(c3)
                                == *final(c) && #[trigger] z.does(c3, out),
                    },
            },
{
}

/// Recovery is associative, on the borrowed context. Whichever way
/// `tx.or_else(|_| u).or_else(|_| v)` is bracketed, what it does on a borrow
/// is this: `tx` runs; if it fails, `u` runs on the context as `tx` left it;
/// if that fails too, `v` runs on the context as `u` left it; the outcome is
/// the first success, or else that of `v`, and the context is left as the
/// last of them to run left it.
///
/// `to_u` stands for `|_| u`, `to_v` and `to_v_inner` for the two copies of
/// `|_| v`, and `to_u_or_v` for `|_| u.or_else(|_| v)`: each is only known
/// to return nothing else.
pub proof fn law_or_else_brackets_alike<Ctx, X, U, V, FU, FV, FV2, FUV>(
    tx: X,
    u: U,
    v: V,
    to_u: FU,
    to_v: FV,
    to_v_inner: FV2,
    to_u_or_v: FUV,
    c: &mut Ctx,
    out: Result<X::Item, X::Err>,
) where
    X: Tx<Ctx>,
    U: Tx<Ctx, Item = X::Item, Err = X::Err>,
    V: Tx<Ctx, Item = X::Item, Err = X::Err>,
    FU: FnOnce(X::Err) -> U,
    FV: FnOnce(X::Err) -> V,
    FV2: FnOnce(X::Err) -> V,
    FUV: FnOnce(X::Err) -> OrElse<U, FV2>,

    requires
        forall|e: X::Err, r: U| call_ensures(to_u, (e,), r) ==> r == u,
        forall|e: X::Err, r: V| call_ensures(to_v, (e,), r) ==> r == v,
        forall|e: X::Err, r: V| call_ensures(to_v_inner, (e,), r) ==> r == v,
        forall|e: X::Err, r: OrElse<U, FV2>|
            call_ensures(to_u_or_v, (e,), r) ==> r == (OrElse { tx1: u, f: to_v_inner }),
        (OrElse { tx1: OrElse { tx1: tx, f: to_u }, f: to_v }).does(c, out) || (OrElse {
            tx1: tx,
            f: to_u_or_v,
        }).does(c, out),
    ensures
        exists|c1: &mut Ctx, r1: Result<X::Item, X::Err>|
            *c1 == *old(c) && #[trigger] tx.does(c1, r1) && match r1 {
                Ok(t) => *final(c1) == *final(c) && out == Ok::<X::Item, X::Err>(t),
                Err(_) => exists|c2: &mut Ctx, r2: Result<X::Item, X::Err>|
                    *c2 == *final(c1) && #[trigger] u.does(c2, r2) && match r2 {
                        Ok(t) => *final(c2) == *final(c) && out == Ok::<X::Item, X::Err>(t),
                        Err(_) => exists|c3: &mut Ctx|
                            *c3 == *final(c2) && *final(c3) == *final(c) && #[trigger] v.does(
                                c3,
                                out,
                            ),
                    },
            },
{
}

/// Both bracketings of a double recovery may be started alike: wherever
/// `tx` may be started, `u` may be started on the context as a failing `tx`
/// leaves it, and `v` on the context as a failing `u` then leaves it.
pub proof fn law_or_else_brackets_start_alike<Ctx, X, U, V, FU, FV, FV2, FUV>(
    tx: X,
    u: U,
    v: V,
    to_u: FU,
    to_v: FV,
    to_v_inner: FV2,
    to_u_or_v: FUV,
    before: Ctx,
) where
    X: Tx<Ctx>,
    U: Tx<Ctx, Item = X::Item, Err = X::Err>,
    V: Tx<Ctx, Item = X::Item, Err = X::Err>,
    FU: FnOnce(X::Err) -> U,
    FV: FnOnce(X::Err) -> V,
    FV2: FnOnce(X::Err) -> V,
    FUV: FnOnce(X::Err) -> OrElse<U, FV2>,

    requires
        forall|e: X::Err| call_requires(to_u, (e,)),
        forall|e: X::Err| call_requires(to_v, (e,)),
        forall|e: X::Err| call_requires(to_v_inner, (e,)),
        forall|e: X::Err| call_requires(to_u_or_v, (e,)),
        forall|e: X::Err, r: U| call_ensures(to_u, (e,), r) ==> r == u,
        forall|e: X::Err, r: V| call_ensures(to_v, (e,), r) ==> r == v,
        forall|e: X::Err, r: V| call_ensures(to_v_inner, (e,), r) ==> r == v,
        forall|e: X::Err, r: OrElse<U, FV2>|
            call_ensures(to_u_or_v, (e,), r) ==> r == (OrElse { tx1: u, f: to_v_inner }),
        tx.can_run(before),
        forall|c1: &mut Ctx, e1: X::Err|
            *c1 == before && #[trigger] tx.does(c1, Err(e1)) ==> u.can_run(*final(c1)) && forall|
                c2: &mut Ctx,
                e2: X::Err,
            |
                *c2 == *final(c1) && #[trigger] u.does(c2, Err(e2)) ==> v.can_run(*final(c2)),
    ensures
        (OrElse { tx1: OrElse { tx1: tx, f: to_u }, f: to_v }).can_run(before),
        (OrElse { tx1: tx, f: to_u_or_v }).can_run(before),
{
}

/// Failures pass through. Where `tx` can only fail, so can `tx` under
/// `map`, `try_map`, `map_err`, `and_then`, `abort`, `try_abort` and `join`:
/// none of them turns a failure of its source into a success. Under all but
/// `map_err` the failure is the very error of `tx`, and under all but `join`
/// the context is left as `tx` left it. (Only `or_else`, `recover`,
/// `try_recover` and `then` are handed the error and may answer it with a
/// success.)
pub proof fn law_failures_pass_through<Ctx, X, Y, T, E2, FM, FT, FE, K, FA, FB>(
    tx: X,
    other: Y,
    to_item: FM,
    to_outcome: FT,
    to_error: FE,
    next: K,
    to_failure: FA,
    to_verdict: FB,
    c: &mut Ctx,
) where
    X: Tx<Ctx>,
    Y: Tx<Ctx, Err = X::Err>,
    FM: FnOnce(X::Item) -> T,
    FT: FnOnce(X::Item) -> Result<T, X::Err>,
    FE: FnOnce(X::Err) -> E2,
    K: FnOnce(X::Item) -> Y,
    FA: FnOnce(X::Item) -> X::Err,
    FB: FnOnce(X::Item) -> Result<X::Item, X::Err>,

    requires
        forall|c1: &mut Ctx, x: X::Item| *c1 == *c ==> !#[trigger] tx.does(c1, Ok(x)),
    ensures
        forall|out: Result<T, X::Err>| #[trigger]
            (MapItem { tx1: tx, f: to_item }).does(c, out) ==> out is Err && tx.does(
                c,
                Err(out->Err_0),
            ),
        forall|out: Result<T, X::Err>| #[trigger]
            (TryMap { tx1: tx, f: to_outcome }).does(c, out) ==> out is Err && tx.does(
                c,
                Err(out->Err_0),
            ),
        forall|out: Result<X::Item, E2>| #[trigger]
            (MapErr { tx1: tx, f: to_error }).does(c, out) ==> out is Err,
        forall|out: Result<Y::Item, X::Err>| #[trigger]
            (AndThen { tx1: tx, f: next }).does(c, out) ==> out is Err && exists|c1: &mut Ctx|
                *c1 == *old(c) && *final(c1) == *final(c) && #[trigger] tx.does(
                    c1,
                    Err(out->Err_0),
                ),
        forall|out: Result<X::Item, X::Err>| #[trigger]
            (Abort { tx1: tx, f: to_failure }).does(c, out) ==> out is Err && tx.does(
                c,
                Err(out->Err_0),
            ),
        forall|out: Result<X::Item, X::Err>| #[trigger]
            (TryAbort { tx1: tx, f: to_verdict }).does(c, out) ==> out is Err && tx.does(
                c,
                Err(out->Err_0),
            ),
        forall|out: Result<(X::Item, Y::Item), X::Err>| #[trigger]
            (Join { tx1: tx, tx2: other }).does(c, out) ==> out is Err && exists|c1: &mut Ctx|
                *c1 == *old(c) && #[trigger] tx.does(c1, Err(out->Err_0)),
{
    assert forall|inner: Result<X::Item, X::Err>| #[trigger] tx.does(c, inner) implies inner is Err by {
        if inner is Ok {
            assert(tx.does(c, Ok(inner->Ok_0)));
        }
    }
    assert forall|out: Result<Y::Item, X::Err>| #[trigger]
        (AndThen { tx1: tx, f: next }).does(c, out) implies out is Err && exists|c1: &mut Ctx|
        *c1 == *c && *final(c1) == *final(c) && #[trigger] tx.does(c1, Err(out->Err_0)) by {
        law_and_then_stops_at_the_failure::<Ctx, X, Y, K>(tx, next, c, out);
    }
    assert forall|out: Result<(X::Item, Y::Item), X::Err>| #[trigger]
        (Join { tx1: tx, tx2: other }).does(c, out) implies out is Err && exists|c1: &mut Ctx|
        *c1 == *c && #[trigger] tx.does(c1, Err(out->Err_0)) by {
        let (c1, c2, r1, r2) = choose|
            c1: &mut Ctx,
            c2: &mut Ctx,
            r1: Result<X::Item, X::Err>,
            r2: Result<Y::Item, X::Err>,
        |
            *c1 == *c && #[trigger] tx.does(c1, r1) && #[trigger] other.does(c2, r2) && out
                == joined(r1, r2);
        if r1 is Ok {
            assert(tx.does(c1, Ok(r1->Ok_0)));
        }
        assert(tx.does(c1, Err(out->Err_0)));
    }
}

/// Successes pass through. Where `tx` can only succeed, `tx` under
/// `or_else`, `recover`, `try_recover` and `map_err` has the outcomes and the
/// effect on the context of `tx` itself: the function is handed nothing and
/// no fallback is run.
pub proof fn law_successes_pass_through<Ctx, X, Z, E2, G, FR, FT, FE>(
    tx: X,
    fallback: G,
    to_item: FR,
    to_outcome: FT,
    to_error: FE,
    c: &mut Ctx,
) where
    X: Tx<Ctx>,
    Z: Tx<Ctx, Item = X::Item, Err = X::Err>,
    G: FnOnce(X::Err) -> Z,
    FR: FnOnce(X::Err) -> X::Item,
    FT: FnOnce(X::Err) -> Result<X::Item, E2>,
    FE: FnOnce(X::Err) -> E2,

    requires
        forall|c1: &mut Ctx, e: X::Err| *c1 == *c ==> !#[trigger] tx.does(c1, Err(e)),
    ensures
        forall|out: Result<X::Item, X::Err>| #[trigger]
            (OrElse { tx1: tx, f: fallback }).does(c, out) ==> out is Ok && exists|c1: &mut Ctx|
                *c1 == *old(c) && *final(c1) == *final(c) && #[trigger] tx.does(
                    c1,
                    Ok(out->Ok_0),
                ),
        forall|out: Result<X::Item, X::Err>| #[trigger]
            (Recover { tx1: tx, f: to_item }).does(c, out) ==> out is Ok && tx.does(
                c,
                Ok(out->Ok_0),
            ),
        forall|out: Result<X::Item, E2>| #[trigger]
            (TryRecover { tx1: tx, f: to_outcome }).does(c, out) ==> out is Ok && tx.does(
                c,
                Ok(out->Ok_0),
            ),
        forall|out: Result<X::Item, E2>| #[trigger]
            (MapErr { tx1: tx, f: to_error }).does(c, out) ==> out is Ok && tx.does(
                c,
                Ok(out->Ok_0),
            ),
{
    assert forall|inner: Result<X::Item, X::Err>| #[trigger] tx.does(c, inner) implies inner is Ok by {
        if inner is Err {
            assert(tx.does(c, Err(inner->Err_0)));
        }
    }
    assert forall|out: Result<X::Item, X::Err>| #[trigger]
        (OrElse { tx1: tx, f: fallback }).does(c, out) implies out is Ok && exists|c1: &mut Ctx|
        *c1 == *c && *final(c1) == *final(c) && #[trigger] tx.does(c1, Ok(out->Ok_0)) by {
        let (c1, inner) = choose|c1: &mut Ctx, inner: Result<X::Item, X::Err>|
            *c1 == *c && #[trigger] tx.does(c1, inner) && (inner matches Ok(t) ==> *final(c1)
                == *final(c) && out == Ok::<X::Item, X::Err>(t));
        if inner is Err {
            assert(tx.does(c1, Err(inner->Err_0)));
        }
        assert(tx.does(c1, Ok(out->Ok_0)));
    }
}

/// The error type is kept. A transaction built by sequencing, by falling
/// back or by joining fails with the error type of its sources: an error of
/// the composite is an error of the first source as it stands, with no
/// conversion in between. Sources whose error types differ cannot be
/// combined in these ways; `map_err` and `try_recover` are where an error
/// type changes.
pub proof fn law_error_type_is_kept<Ctx, X, Y, Z, K, H, G>(
    of_and_then: <AndThen<X, K> as Tx<Ctx>>::Err,
    of_then: <Then<X, H> as Tx<Ctx>>::Err,
    of_or_else: <OrElse<X, G> as Tx<Ctx>>::Err,
    of_join: <Join<X, Y> as Tx<Ctx>>::Err,
    of_join3: <Join3<X, Y, Z> as Tx<Ctx>>::Err,
    of_join4: <Join4<X, Y, Z, Y> as Tx<Ctx>>::Err,
) -> (of_source: (X::Err, X::Err, X::Err, X::Err, X::Err, X::Err)) where
    X: Tx<Ctx>,
    Y: Tx<Ctx, Err = X::Err>,
    Z: Tx<Ctx, Item = X::Item, Err = X::Err>,
    K: FnOnce(X::Item) -> Y,
    H: FnOnce(Result<X::Item, X::Err>) -> Y,
    G: FnOnce(X::Err) -> Z,

    ensures
        of_source == (of_and_then, of_then, of_or_else, of_join, of_join3, of_join4),
{
    (of_and_then, of_then, of_or_else, of_join, of_join3, of_join4)
}

} // verus!
