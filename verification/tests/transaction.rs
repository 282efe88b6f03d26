use tx_combinators::transaction::{with_ctx, Transaction};

#[test]
fn with_ctx_runs_the_function_on_the_context() {
    let tx = with_ctx(|ctx: &Vec<i32>| -> Result<i32, String> { Ok(ctx.iter().sum()) });
    assert_eq!(tx.run(&vec![1, 2, 3]), Ok(6));
}

#[test]
fn a_shared_transaction_can_be_run_again() {
    let tx = with_ctx(|ctx: &i32| -> Result<i32, String> {
        if *ctx >= 0 {
            Ok(*ctx * 2)
        } else {
            Err("negative".to_string())
        }
    });
    assert_eq!(tx.run(&4), Ok(8));
    assert_eq!(tx.run(&-1), Err("negative".to_string()));
    assert_eq!(tx.run(&4), Ok(8));
}

#[test]
fn a_shared_transaction_is_used_through_the_trait() {
    fn twice<X: Transaction<Ctx = i32, Item = i32, Err = String>>(tx: &X, ctx: &i32) -> Result<i32, String> {
        Ok(tx.run(ctx)? + tx.run(ctx)?)
    }
    let tx = with_ctx(|ctx: &i32| -> Result<i32, String> { Ok(*ctx + 1) });
    assert_eq!(twice(&tx, &1), Ok(4));
}

#[test]
fn a_shared_transaction_can_be_kept_as_a_trait_object() {
    let stored: Vec<Box<dyn Transaction<Ctx = i32, Item = i32, Err = String>>> = vec![
        Box::new(with_ctx(|ctx: &i32| -> Result<i32, String> { Ok(*ctx + 1) })),
        Box::new(with_ctx(|ctx: &i32| -> Result<i32, String> { Ok(*ctx * 2) })),
        Box::new(with_ctx(|_: &i32| -> Result<i32, String> { Err("no".to_string()) })),
    ];
    let outcomes: Vec<Result<i32, String>> = stored.iter().map(|tx| tx.run(&5)).collect();
    assert_eq!(outcomes, vec![Ok(6), Ok(10), Err("no".to_string())]);
}

/// A shared transaction of the caller's own making: looks a key up.
struct Lookup(usize);

impl Transaction for Lookup {
    type Ctx = Vec<i32>;
    type Item = i32;
    type Err = String;

    fn run(&self, ctx: &Vec<i32>) -> Result<i32, String> {
        ctx.get(self.0).copied().ok_or_else(|| format!("nothing at {}", self.0))
    }
}

#[test]
fn a_type_of_the_caller_can_be_a_shared_transaction() {
    let ctx = vec![10, 20];
    assert_eq!(Lookup(1).run(&ctx), Ok(20));
    assert_eq!(Lookup(2).run(&ctx), Err("nothing at 2".to_string()));
}
