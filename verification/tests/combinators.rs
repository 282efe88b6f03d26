use tx_combinators::join::{join, join3, join3_on, join4, join4_on, join_on};
use tx_combinators::recovery::{abort, recover, try_abort, try_recover};
use tx_combinators::sequence::{and_then, and_then_on, or_else, or_else_on, then, then_on};
use tx_combinators::transform::{map_err, try_map};
use tx_combinators::tx::Tx;

type Ledger = Vec<String>;

fn ok_leaf(value: i32) -> impl FnOnce(&mut Ledger) -> Result<i32, String> {
    move |ledger: &mut Ledger| {
        ledger.push(format!("ok {}", value));
        Ok(value)
    }
}

fn fail_leaf(error: &'static str) -> impl FnOnce(&mut Ledger) -> Result<i32, String> {
    move |ledger: &mut Ledger| {
        ledger.push(format!("fail {}", error));
        Err(error.to_string())
    }
}

fn pure_ok(value: i32) -> impl FnOnce(&mut Ledger) -> Result<i32, String> {
    move |_: &mut Ledger| Ok(value)
}

fn entries(items: &[&str]) -> Ledger {
    items.iter().map(|s| s.to_string()).collect()
}

#[test]
fn a_lifted_leaf_yields_its_value_and_leaves_the_context_alone() {
    let mut ledger = entries(&["before"]);
    let out = pure_ok(7).run(&mut ledger);
    assert_eq!(out, Ok(7));
    assert_eq!(ledger, entries(&["before"]));
}

#[test]
fn a_lifted_leaf_acts_on_the_context_it_is_given() {
    let mut ledger = Ledger::new();
    assert_eq!(ok_leaf(1).run(&mut ledger), Ok(1));
    assert_eq!(fail_leaf("x").run(&mut ledger), Err("x".to_string()));
    assert_eq!(ledger, entries(&["ok 1", "fail x"]));
}

#[test]
fn a_named_function_is_a_transaction() {
    fn count(ledger: &mut Ledger) -> Result<usize, String> {
        Ok(ledger.len())
    }
    let mut ledger = entries(&["a", "b"]);
    assert_eq!(count.run(&mut ledger), Ok(2));
}

/// A transaction of the caller's own making: appends one entry.
struct Append(&'static str);

impl Tx<Ledger> for Append {
    type Item = usize;
    type Err = String;

    fn run(self, ledger: &mut Ledger) -> Result<usize, String> {
        ledger.push(self.0.to_string());
        Ok(ledger.len())
    }
}

#[test]
fn a_type_of_the_caller_can_be_a_transaction() {
    let mut ledger = Ledger::new();
    let out = Append("a")
        .join(Append("b"))
        .and_then(|(first, second)| ok_leaf((first + second) as i32))
        .run(&mut ledger);
    assert_eq!(out, Ok(3));
    assert_eq!(ledger, entries(&["a", "b", "ok 3"]));
}

#[test]
fn building_a_transaction_touches_nothing() {
    let ledger = Ledger::new();
    let _tx = ok_leaf(1)
        .map(|x| x + 1)
        .and_then(|x| ok_leaf(x))
        .join(fail_leaf("never run"))
        .or_else(|_| ok_leaf(0).join(ok_leaf(0)));
    assert!(ledger.is_empty());
}

#[test]
fn map_transforms_the_item() {
    let mut ledger = Ledger::new();
    let out = ok_leaf(20).map(|x| x + 1).run(&mut ledger);
    assert_eq!(out, Ok(21));
    assert_eq!(ledger, entries(&["ok 20"]));
}

#[test]
fn map_passes_a_failure_on_without_calling_the_function() {
    let mut ledger = Ledger::new();
    let mut called = false;
    let out = fail_leaf("boom")
        .map(|x| {
            called = true;
            x + 1
        })
        .run(&mut ledger);
    assert_eq!(out, Err("boom".to_string()));
    assert!(!called);
}

#[test]
fn map_may_change_the_item_type() {
    let mut ledger = Ledger::new();
    let out = ok_leaf(5).map(|x| format!("<{}>", x)).run(&mut ledger);
    assert_eq!(out, Ok("<5>".to_string()));
}

#[test]
fn map_commutes_with_run() {
    let double = |x: i32| x * 2;
    let mut left = Ledger::new();
    let mut right = Ledger::new();
    assert_eq!(ok_leaf(21).map(double).run(&mut left), ok_leaf(21).run(&mut right).map(double));
    assert_eq!(left, right);
    assert_eq!(fail_leaf("e").map(double).run(&mut left), fail_leaf("e").run(&mut right).map(double));
    assert_eq!(left, right);
}

#[test]
fn try_map_uses_the_result_of_the_function() {
    let mut ledger = Ledger::new();
    let checked = |x: i32| if x > 2 { Err("too big".to_string()) } else { Ok(x * 10) };
    assert_eq!(ok_leaf(1).try_map(checked).run(&mut ledger), Ok(10));
    assert_eq!(ok_leaf(3).try_map(checked).run(&mut ledger), Err("too big".to_string()));
    assert_eq!(fail_leaf("first").try_map(checked).run(&mut ledger), Err("first".to_string()));
}

#[test]
fn map_err_transforms_the_error_only() {
    let mut ledger = Ledger::new();
    assert_eq!(fail_leaf("boom").map_err(|e: String| e.len()).run(&mut ledger), Err(4));
    assert_eq!(ok_leaf(9).map_err(|e: String| e.len()).run(&mut ledger), Ok(9));
}

#[test]
fn and_then_runs_the_continuation_on_the_same_context() {
    let mut ledger = Ledger::new();
    let out = ok_leaf(1).and_then(|x| ok_leaf(x + 1)).run(&mut ledger);
    assert_eq!(out, Ok(2));
    assert_eq!(ledger, entries(&["ok 1", "ok 2"]));
}

#[test]
fn and_then_reports_a_failure_of_the_continuation() {
    let mut ledger = Ledger::new();
    let out = ok_leaf(1).and_then(|_| fail_leaf("second")).run(&mut ledger);
    assert_eq!(out, Err("second".to_string()));
    assert_eq!(ledger, entries(&["ok 1", "fail second"]));
}

#[test]
fn and_then_short_circuits_and_never_builds_the_continuation() {
    let mut ledger = Ledger::new();
    let mut built = false;
    let out = fail_leaf("e")
        .and_then(|x| {
            built = true;
            ok_leaf(x)
        })
        .run(&mut ledger);
    assert_eq!(out, Err("e".to_string()));
    assert!(!built);
    assert_eq!(ledger, entries(&["fail e"]));
}

#[test]
fn then_feeds_the_whole_outcome_to_the_continuation() {
    let mut ledger = Ledger::new();
    let describe = |outcome: Result<i32, String>| {
        move |ledger: &mut Ledger| -> Result<String, String> {
            ledger.push("describe".to_string());
            Ok(format!("{:?}", outcome))
        }
    };
    assert_eq!(ok_leaf(1).then(describe).run(&mut ledger), Ok("Ok(1)".to_string()));
    assert_eq!(fail_leaf("e").then(describe).run(&mut ledger), Ok("Err(\"e\")".to_string()));
    assert_eq!(ledger, entries(&["ok 1", "describe", "fail e", "describe"]));
}

#[test]
fn or_else_recovers_with_the_fallback_on_the_same_context() {
    let mut ledger = Ledger::new();
    let out = fail_leaf("x").or_else(|_| ok_leaf(42)).run(&mut ledger);
    assert_eq!(out, Ok(42));
    assert_eq!(ledger, entries(&["fail x", "ok 42"]));
}

#[test]
fn or_else_leaves_a_success_alone() {
    let mut ledger = Ledger::new();
    let mut built = false;
    let out = ok_leaf(1)
        .or_else(|_| {
            built = true;
            ok_leaf(42)
        })
        .run(&mut ledger);
    assert_eq!(out, Ok(1));
    assert!(!built);
    assert_eq!(ledger, entries(&["ok 1"]));
}

#[test]
fn or_else_hands_the_error_to_the_fallback() {
    let mut ledger = Ledger::new();
    let out = fail_leaf("abc").or_else(|e: String| pure_ok(e.len() as i32)).run(&mut ledger);
    assert_eq!(out, Ok(3));
}

fn left_bracketed(
    first: Result<i32, String>,
    second: Result<i32, String>,
    third: Result<i32, String>,
) -> (Result<i32, String>, Ledger) {
    let mut ledger = Ledger::new();
    let out = leaf_of("t", first)
        .or_else(|_| leaf_of("u", second))
        .or_else(|_| leaf_of("v", third))
        .run(&mut ledger);
    (out, ledger)
}

fn right_bracketed(
    first: Result<i32, String>,
    second: Result<i32, String>,
    third: Result<i32, String>,
) -> (Result<i32, String>, Ledger) {
    let mut ledger = Ledger::new();
    let out = leaf_of("t", first)
        .or_else(|_| leaf_of("u", second).or_else(|_| leaf_of("v", third)))
        .run(&mut ledger);
    (out, ledger)
}

fn leaf_of(
    name: &'static str,
    outcome: Result<i32, String>,
) -> impl FnOnce(&mut Ledger) -> Result<i32, String> {
    move |ledger: &mut Ledger| {
        ledger.push(name.to_string());
        outcome
    }
}

#[test]
fn or_else_is_associative() {
    let ok = |x: i32| -> Result<i32, String> { Ok(x) };
    let err = |e: &str| -> Result<i32, String> { Err(e.to_string()) };
    let cases = vec![
        (ok(1), ok(2), ok(3)),
        (err("a"), ok(2), ok(3)),
        (err("a"), err("b"), ok(3)),
        (err("a"), err("b"), err("c")),
        (ok(1), err("b"), err("c")),
        (err("a"), ok(2), err("c")),
    ];
    for (first, second, third) in cases {
        assert_eq!(
            left_bracketed(first.clone(), second.clone(), third.clone()),
            right_bracketed(first, second, third)
        );
    }
    assert_eq!(left_bracketed(err("a"), err("b"), ok(3)), (Ok(3), entries(&["t", "u", "v"])));
    assert_eq!(
        right_bracketed(err("a"), err("b"), err("c")),
        (Err("c".to_string()), entries(&["t", "u", "v"]))
    );
}

#[test]
fn recover_turns_a_failure_into_a_success() {
    let mut ledger = Ledger::new();
    assert_eq!(fail_leaf("abcd").recover(|e: String| e.len() as i32).run(&mut ledger), Ok(4));
    assert_eq!(ok_leaf(1).recover(|e: String| e.len() as i32).run(&mut ledger), Ok(1));
}

#[test]
fn try_recover_may_fail_with_another_error_type() {
    let mut ledger = Ledger::new();
    let retry = |e: String| -> Result<i32, usize> {
        if e == "soft" {
            Ok(0)
        } else {
            Err(e.len())
        }
    };
    assert_eq!(fail_leaf("soft").try_recover(retry).run(&mut ledger), Ok(0));
    assert_eq!(fail_leaf("hard!").try_recover(retry).run(&mut ledger), Err(5));
    assert_eq!(ok_leaf(8).try_recover(retry).run(&mut ledger), Ok(8));
}

#[test]
fn abort_turns_a_success_into_a_failure() {
    let mut ledger = Ledger::new();
    let out = ok_leaf(3).abort(|x| format!("aborted {}", x)).run(&mut ledger);
    assert_eq!(out, Err("aborted 3".to_string()));
    let out = fail_leaf("already").abort(|x| format!("aborted {}", x)).run(&mut ledger);
    assert_eq!(out, Err("already".to_string()));
    assert_eq!(ledger, entries(&["ok 3", "fail already"]));
}

#[test]
fn try_abort_aborts_only_where_the_function_says_so() {
    let mut ledger = Ledger::new();
    let positive = |x: i32| if x > 0 { Ok(x) } else { Err("not positive".to_string()) };
    assert_eq!(ok_leaf(3).try_abort(positive).run(&mut ledger), Ok(3));
    assert_eq!(ok_leaf(0).try_abort(positive).run(&mut ledger), Err("not positive".to_string()));
    assert_eq!(fail_leaf("first").try_abort(positive).run(&mut ledger), Err("first".to_string()));
}

#[test]
fn join_pairs_the_items_in_order() {
    let mut ledger = Ledger::new();
    let out = ok_leaf(1).join(ok_leaf(2)).run(&mut ledger);
    assert_eq!(out, Ok((1, 2)));
    assert_eq!(ledger, entries(&["ok 1", "ok 2"]));
}

#[test]
fn join_may_pair_items_of_different_types() {
    let mut ledger = Ledger::new();
    let name = |_: &mut Ledger| -> Result<&'static str, String> { Ok("a") };
    assert_eq!(ok_leaf(1).join(name).run(&mut ledger), Ok((1, "a")));
}

#[test]
fn join_reports_the_failure_of_the_second() {
    let mut ledger = Ledger::new();
    let out = ok_leaf(1).join(fail_leaf("y")).run(&mut ledger);
    assert_eq!(out, Err("y".to_string()));
    assert_eq!(ledger, entries(&["ok 1", "fail y"]));
}

#[test]
fn join_runs_every_source_and_the_leftmost_failure_wins() {
    let mut ledger = Ledger::new();
    let out = fail_leaf("x").join(fail_leaf("y")).run(&mut ledger);
    assert_eq!(out, Err("x".to_string()));
    assert_eq!(ledger, entries(&["fail x", "fail y"]));
    let mut ledger = Ledger::new();
    let out = fail_leaf("x").join(ok_leaf(2)).run(&mut ledger);
    assert_eq!(out, Err("x".to_string()));
    assert_eq!(ledger, entries(&["fail x", "ok 2"]));
}

#[test]
fn join3_collects_three_items_or_the_leftmost_failure() {
    let mut ledger = Ledger::new();
    assert_eq!(ok_leaf(1).join3(ok_leaf(2), ok_leaf(3)).run(&mut ledger), Ok((1, 2, 3)));
    assert_eq!(ledger, entries(&["ok 1", "ok 2", "ok 3"]));
    let mut ledger = Ledger::new();
    let out = ok_leaf(1).join3(fail_leaf("b"), fail_leaf("c")).run(&mut ledger);
    assert_eq!(out, Err("b".to_string()));
    assert_eq!(ledger, entries(&["ok 1", "fail b", "fail c"]));
    let mut ledger = Ledger::new();
    let out = ok_leaf(1).join3(ok_leaf(2), fail_leaf("c")).run(&mut ledger);
    assert_eq!(out, Err("c".to_string()));
}

#[test]
fn join4_collects_four_items_or_the_leftmost_failure() {
    let mut ledger = Ledger::new();
    let out = ok_leaf(1).join4(ok_leaf(2), ok_leaf(3), ok_leaf(4)).run(&mut ledger);
    assert_eq!(out, Ok((1, 2, 3, 4)));
    assert_eq!(ledger, entries(&["ok 1", "ok 2", "ok 3", "ok 4"]));
    let mut ledger = Ledger::new();
    let out = ok_leaf(1).join4(ok_leaf(2), fail_leaf("c"), fail_leaf("d")).run(&mut ledger);
    assert_eq!(out, Err("c".to_string()));
    assert_eq!(ledger, entries(&["ok 1", "ok 2", "fail c", "fail d"]));
    let mut ledger = Ledger::new();
    let out = fail_leaf("a").join4(ok_leaf(2), ok_leaf(3), fail_leaf("d")).run(&mut ledger);
    assert_eq!(out, Err("a".to_string()));
    let mut ledger = Ledger::new();
    let out = ok_leaf(1).join4(ok_leaf(2), ok_leaf(3), fail_leaf("d")).run(&mut ledger);
    assert_eq!(out, Err("d".to_string()));
}

#[test]
fn free_functions_build_what_the_methods_build() {
    let mut by_method = Ledger::new();
    let mut by_function = Ledger::new();

    assert_eq!(
        tx_combinators::transform::map(ok_leaf(20), |x| x * 2).run(&mut by_function),
        ok_leaf(20).map(|x| x * 2).run(&mut by_method)
    );
    assert_eq!(
        try_map(ok_leaf(3), |x| if x > 2 { Err("big".to_string()) } else { Ok(x) })
            .run(&mut by_function),
        ok_leaf(3)
            .try_map(|x| if x > 2 { Err("big".to_string()) } else { Ok(x) })
            .run(&mut by_method)
    );
    assert_eq!(
        map_err(fail_leaf("boom"), |e: String| e.len()).run(&mut by_function),
        fail_leaf("boom").map_err(|e: String| e.len()).run(&mut by_method)
    );
    assert_eq!(
        and_then(ok_leaf(1), |x| ok_leaf(x + 1)).run(&mut by_function),
        ok_leaf(1).and_then(|x| ok_leaf(x + 1)).run(&mut by_method)
    );
    assert_eq!(
        then(fail_leaf("e"), |r: Result<i32, String>| pure_ok(r.is_err() as i32))
            .run(&mut by_function),
        fail_leaf("e").then(|r: Result<i32, String>| pure_ok(r.is_err() as i32)).run(&mut by_method)
    );
    assert_eq!(
        or_else(fail_leaf("x"), |_| ok_leaf(42)).run(&mut by_function),
        fail_leaf("x").or_else(|_| ok_leaf(42)).run(&mut by_method)
    );
    assert_eq!(
        recover(fail_leaf("abcd"), |e: String| e.len() as i32).run(&mut by_function),
        fail_leaf("abcd").recover(|e: String| e.len() as i32).run(&mut by_method)
    );
    assert_eq!(
        try_recover(fail_leaf("abcd"), |e: String| -> Result<i32, usize> { Err(e.len()) })
            .run(&mut by_function),
        fail_leaf("abcd")
            .try_recover(|e: String| -> Result<i32, usize> { Err(e.len()) })
            .run(&mut by_method)
    );
    assert_eq!(
        abort(ok_leaf(3), |x| format!("aborted {}", x)).run(&mut by_function),
        ok_leaf(3).abort(|x| format!("aborted {}", x)).run(&mut by_method)
    );
    assert_eq!(
        try_abort(ok_leaf(0), |x| if x > 0 { Ok(x) } else { Err("zero".to_string()) })
            .run(&mut by_function),
        ok_leaf(0)
            .try_abort(|x| if x > 0 { Ok(x) } else { Err("zero".to_string()) })
            .run(&mut by_method)
    );
    assert_eq!(
        join(ok_leaf(1), fail_leaf("y")).run(&mut by_function),
        ok_leaf(1).join(fail_leaf("y")).run(&mut by_method)
    );
    assert_eq!(
        join3(ok_leaf(1), ok_leaf(2), ok_leaf(3)).run(&mut by_function),
        ok_leaf(1).join3(ok_leaf(2), ok_leaf(3)).run(&mut by_method)
    );
    assert_eq!(
        join4(ok_leaf(1), ok_leaf(2), fail_leaf("c"), ok_leaf(4)).run(&mut by_function),
        ok_leaf(1).join4(ok_leaf(2), fail_leaf("c"), ok_leaf(4)).run(&mut by_method)
    );
    assert_eq!(by_function, by_method);
    assert_eq!(by_function.len(), 21);
}

#[test]
fn free_functions_return_plain_functions_of_the_context() {
    let mut ledger = Ledger::new();
    let doubled = tx_combinators::transform::map(ok_leaf(4), |x| x * 2);
    assert_eq!(doubled(&mut ledger), Ok(8));
    let both = join(ok_leaf(1), ok_leaf(2));
    assert_eq!(both(&mut ledger), Ok((1, 2)));
    assert_eq!(ledger, entries(&["ok 4", "ok 1", "ok 2"]));
}

#[test]
fn an_error_type_changes_only_through_map_err_or_try_recover() {
    let mut ledger = Ledger::new();
    let counted = |_: &mut Ledger| -> Result<i32, usize> { Err(3) };
    let out = fail_leaf("text")
        .map_err(|e: String| e.len())
        .and_then(|x| move |_: &mut Ledger| -> Result<i32, usize> { Ok(x) })
        .join(counted)
        .run(&mut ledger);
    assert_eq!(out, Err(4));
    let out =
        fail_leaf("text").try_recover(|e: String| -> Result<i32, usize> { Err(e.len()) }).join(counted).run(&mut ledger);
    assert_eq!(out, Err(4));
}

#[test]
fn and_then_on_runs_the_sequence_at_once() {
    let mut ledger = entries(&["before"]);
    assert_eq!(and_then_on(ok_leaf(1), |x| ok_leaf(x + 1), &mut ledger), Ok(2));
    assert_eq!(ledger, entries(&["before", "ok 1", "ok 2"]));
    let mut ledger = Ledger::new();
    assert_eq!(and_then_on(fail_leaf("e"), |x| ok_leaf(x + 1), &mut ledger), Err("e".to_string()));
    assert_eq!(ledger, entries(&["fail e"]));
}

#[test]
fn then_on_runs_the_sequence_at_once() {
    let mut ledger = Ledger::new();
    let out = then_on(fail_leaf("e"), |r: Result<i32, String>| ok_leaf(r.is_err() as i32), &mut ledger);
    assert_eq!(out, Ok(1));
    assert_eq!(ledger, entries(&["fail e", "ok 1"]));
}

#[test]
fn or_else_on_runs_the_fallback_at_once() {
    let mut ledger = Ledger::new();
    assert_eq!(or_else_on(fail_leaf("x"), |_| ok_leaf(42), &mut ledger), Ok(42));
    assert_eq!(ledger, entries(&["fail x", "ok 42"]));
    let mut ledger = Ledger::new();
    assert_eq!(or_else_on(ok_leaf(1), |_| ok_leaf(42), &mut ledger), Ok(1));
    assert_eq!(ledger, entries(&["ok 1"]));
}

#[test]
fn join_on_runs_every_source_at_once() {
    let mut ledger = Ledger::new();
    assert_eq!(join_on(ok_leaf(1), ok_leaf(2), &mut ledger), Ok((1, 2)));
    assert_eq!(join_on(fail_leaf("a"), ok_leaf(2), &mut ledger), Err("a".to_string()));
    assert_eq!(ledger, entries(&["ok 1", "ok 2", "fail a", "ok 2"]));
    let mut ledger = Ledger::new();
    assert_eq!(join3_on(ok_leaf(1), fail_leaf("b"), fail_leaf("c"), &mut ledger), Err("b".to_string()));
    assert_eq!(ledger, entries(&["ok 1", "fail b", "fail c"]));
    let mut ledger = Ledger::new();
    assert_eq!(
        join4_on(ok_leaf(1), ok_leaf(2), ok_leaf(3), ok_leaf(4), &mut ledger),
        Ok((1, 2, 3, 4))
    );
    assert_eq!(ledger, entries(&["ok 1", "ok 2", "ok 3", "ok 4"]));
}

#[test]
fn a_later_leaf_may_rely_on_what_an_earlier_one_left() {
    let needs_one = |ledger: &mut Ledger| -> Result<usize, String> {
        if ledger.is_empty() {
            Err("nothing there".to_string())
        } else {
            ledger.push("second".to_string());
            Ok(ledger.len())
        }
    };
    let first = |ledger: &mut Ledger| -> Result<usize, String> {
        ledger.push("first".to_string());
        Ok(ledger.len())
    };
    let mut ledger = Ledger::new();
    assert_eq!(first.join(needs_one).run(&mut ledger), Ok((1, 2)));
    assert_eq!(ledger, entries(&["first", "second"]));
}

#[test]
fn and_then_is_associative_through_the_free_functions() {
    let step = |n: i32| move |ledger: &mut Ledger| -> Result<i32, String> {
        ledger.push(format!("step {}", n));
        if n < 3 { Ok(n + 1) } else { Err(format!("stopped at {}", n)) }
    };
    for start in 0..5 {
        let mut left = Ledger::new();
        let mut right = Ledger::new();
        let by_left = and_then(and_then(step(start), step), step).run(&mut left);
        let by_right = and_then(step(start), move |x| and_then(step(x), step)).run(&mut right);
        assert_eq!(by_left, by_right);
        assert_eq!(left, right);
    }
    let mut ledger = Ledger::new();
    assert_eq!(and_then(and_then(step(0), step), step).run(&mut ledger), Ok(3));
    assert_eq!(ledger, entries(&["step 0", "step 1", "step 2"]));
    let mut ledger = Ledger::new();
    assert_eq!(
        and_then(and_then(step(2), step), step).run(&mut ledger),
        Err("stopped at 3".to_string())
    );
    assert_eq!(ledger, entries(&["step 2", "step 3"]));
}
