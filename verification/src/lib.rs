//! Composable transactions.
//!
//! A transaction is a value that describes a computation over a mutable
//! context: given `&mut Ctx` it either produces an item or fails with an
//! error. Transactions are built from leaves (any one-shot function of
//! `&mut Ctx`) and combined without being executed; nothing touches the
//! context until `run` is called. The runner decides, from the outcome of a
//! composed transaction, whether the underlying database transaction is
//! committed or rolled back.
//!
//! Every transaction carries three specification functions. `can_run` says
//! on which contexts it may be started. `does` relates the borrowed context
//! and the outcome of one execution: it says what the execution returns and
//! what it does to the context, and the contract of `run` is stated over
//! it. `runs` relates the context before, the context after and the
//! outcome as plain values; it is coarser (of a plain function it does not
//! say what the context holds afterwards) and is what the algebraic laws
//! that are equivalences are stated over.
//!
//! - [`tx`]: the trait `Tx`, its combinator methods, and functions as leaves.
//! - [`transform`], [`sequence`], [`recovery`], [`join`]: the combinators,
//!   each as a type that implements `Tx` and as a free function; those that
//!   run more than one transaction also as a function that runs them at
//!   once on a context.
//! - [`laws`]: what holds of every transaction built with them.
//! - [`runner`]: runs a transaction between `begin` and `commit` or
//!   `rollback`.
//! - [`protocol`]: the runner's decisions as a state machine, for callers
//!   that carry out the database operations themselves.
//! - [`runner_laws`]: what holds of every run.
//! - [`transaction`]: transactions over a shared context.

pub mod tx;
pub mod transform;
pub mod sequence;
pub mod recovery;
pub mod join;
pub mod laws;
pub mod runner;
pub mod protocol;
pub mod runner_laws;
pub mod transaction;
