use tx_combinators::protocol::{Action, Event, Phase};
use tx_combinators::runner::RunError;
use tx_combinators::tx::Tx;

type P = Phase<i32, String>;
type Ev = Event<i32, String, u8>;
type Act = Action<i32, String, u8>;

/// Feeds the events one by one and collects every action handed out, the
/// first one included. Stops at an event that is not accepted.
fn feed(events: Vec<Ev>) -> (Vec<Act>, bool) {
    let (mut phase, first): (P, Act) = Phase::start();
    let mut actions = vec![first];
    for event in events {
        match phase.step(event) {
            Some((next, action)) => {
                phase = next;
                actions.push(action);
            }
            None => return (actions, false),
        }
    }
    (actions, true)
}

#[test]
fn a_run_starts_by_asking_for_a_database_transaction() {
    let (phase, first): (P, Act) = Phase::start();
    assert_eq!(phase, Phase::Acquiring);
    assert_eq!(first, Action::Begin);
}

#[test]
fn a_success_is_committed() {
    let (actions, accepted) =
        feed(vec![Event::Acquired(Ok(())), Event::Ran(Ok(5)), Event::Committed(Ok(()))]);
    assert!(accepted);
    assert_eq!(
        actions,
        vec![Action::Begin, Action::Run, Action::Commit, Action::Finish(Ok(5))]
    );
}

#[test]
fn a_failed_commit_finishes_with_its_error() {
    let (actions, accepted) =
        feed(vec![Event::Acquired(Ok(())), Event::Ran(Ok(5)), Event::Committed(Err(3))]);
    assert!(accepted);
    assert_eq!(
        actions,
        vec![Action::Begin, Action::Run, Action::Commit, Action::Finish(Err(RunError::Commit(3)))]
    );
}

#[test]
fn a_failure_is_rolled_back() {
    let (actions, accepted) = feed(vec![
        Event::Acquired(Ok(())),
        Event::Ran(Err("e1".to_string())),
        Event::RolledBack(Ok(())),
    ]);
    assert!(accepted);
    assert_eq!(
        actions,
        vec![
            Action::Begin,
            Action::Run,
            Action::Rollback,
            Action::Finish(Err(RunError::Leaf { error: "e1".to_string(), rollback: None }))
        ]
    );
}

#[test]
fn the_error_of_a_rollback_is_attached_to_the_first_failure() {
    let (actions, accepted) = feed(vec![
        Event::Acquired(Ok(())),
        Event::Ran(Err("e1".to_string())),
        Event::RolledBack(Err(2)),
    ]);
    assert!(accepted);
    assert_eq!(
        actions.last(),
        Some(&Action::Finish(Err(RunError::Leaf { error: "e1".to_string(), rollback: Some(2) })))
    );
}

#[test]
fn an_acquisition_failure_finishes_at_once() {
    let (actions, accepted) = feed(vec![Event::Acquired(Err(9))]);
    assert!(accepted);
    assert_eq!(actions, vec![Action::Begin, Action::Finish(Err(RunError::Acquire(9)))]);
}

#[test]
fn each_phase_holds_what_the_outcome_will_need() {
    let (phase, _): (P, Act) = Phase::start();
    let (phase, _) = phase.step(Ev::Acquired(Ok(()))).unwrap();
    assert_eq!(phase, Phase::Running);
    let (phase, _) = phase.step(Ev::Ran(Ok(5))).unwrap();
    assert_eq!(phase, Phase::Committing(5));
    let (phase, _) = phase.step(Ev::Committed(Ok(()))).unwrap();
    assert_eq!(phase, Phase::Finished);

    let (phase, _): (P, Act) = Phase::start();
    let (phase, _) = phase.step(Ev::Acquired(Ok(()))).unwrap();
    let (phase, _) = phase.step(Ev::Ran(Err("e".to_string()))).unwrap();
    assert_eq!(phase, Phase::RollingBack("e".to_string()));
}

fn every_phase() -> Vec<P> {
    vec![
        Phase::Acquiring,
        Phase::Running,
        Phase::Committing(1),
        Phase::RollingBack("e".to_string()),
        Phase::Finished,
    ]
}

fn every_event() -> Vec<Ev> {
    vec![
        Event::Acquired(Ok(())),
        Event::Acquired(Err(1)),
        Event::Ran(Ok(1)),
        Event::Ran(Err("e".to_string())),
        Event::Committed(Ok(())),
        Event::Committed(Err(1)),
        Event::RolledBack(Ok(())),
        Event::RolledBack(Err(1)),
    ]
}

#[test]
fn an_event_that_does_not_fit_the_phase_is_refused() {
    let mut refused = 0;
    for p in 0..every_phase().len() {
        for e in 0..every_event().len() {
            let phase = every_phase().remove(p);
            let event = every_event().remove(e);
            let fits = matches!(
                (&phase, &event),
                (Phase::Acquiring, Event::Acquired(_))
                    | (Phase::Running, Event::Ran(_))
                    | (Phase::Committing(_), Event::Committed(_))
                    | (Phase::RollingBack(_), Event::RolledBack(_))
            );
            let accepted = phase.step(event).is_some();
            assert_eq!(accepted, fits);
            if !accepted {
                refused += 1;
            }
        }
    }
    assert_eq!(refused, 32);
}

#[test]
fn nothing_follows_the_outcome() {
    let (actions, accepted) = feed(vec![Event::Acquired(Err(9)), Event::Acquired(Ok(()))]);
    assert!(!accepted);
    assert_eq!(actions.len(), 2);
    let (_, accepted) = feed(vec![
        Event::Acquired(Ok(())),
        Event::Ran(Ok(5)),
        Event::Committed(Ok(())),
        Event::Committed(Ok(())),
    ]);
    assert!(!accepted);
}

/// Carries out the actions of the protocol against a ledger, as a caller
/// with its own database operations would.
fn drive<X>(tx: X, begin_fails: bool, finalize_fails: bool) -> (Result<i32, RunError<String, u8>>, Vec<String>)
where
    X: Tx<Vec<String>, Item = i32, Err = String>,
{
    let mut ledger: Vec<String> = Vec::new();
    let mut tx = Some(tx);
    let (mut phase, mut action): (P, Act) = Phase::start();
    loop {
        let event = match action {
            Action::Begin => {
                ledger.push("begin".to_string());
                Event::Acquired(if begin_fails { Err(1) } else { Ok(()) })
            }
            Action::Run => Event::Ran(tx.take().unwrap().run(&mut ledger)),
            Action::Commit => {
                ledger.push("commit".to_string());
                Event::Committed(if finalize_fails { Err(2) } else { Ok(()) })
            }
            Action::Rollback => {
                ledger.push("rollback".to_string());
                Event::RolledBack(if finalize_fails { Err(3) } else { Ok(()) })
            }
            Action::Finish(out) => return (out, ledger),
        };
        let (next, then) = phase.step(event).unwrap();
        phase = next;
        action = then;
    }
}

fn leaf(outcome: Result<i32, String>) -> impl FnOnce(&mut Vec<String>) -> Result<i32, String> {
    move |ledger: &mut Vec<String>| {
        ledger.push("exec".to_string());
        outcome
    }
}

#[test]
fn a_driver_of_the_protocol_commits_a_success() {
    let (out, ledger) = drive(leaf(Ok(1)).map(|x| x + 1), false, false);
    assert_eq!(out, Ok(2));
    assert_eq!(ledger, vec!["begin", "exec", "commit"]);
}

#[test]
fn a_driver_of_the_protocol_rolls_a_failure_back() {
    let (out, ledger) = drive(leaf(Err("e1".to_string())), false, true);
    assert_eq!(out, Err(RunError::Leaf { error: "e1".to_string(), rollback: Some(3) }));
    assert_eq!(ledger, vec!["begin", "exec", "rollback"]);
}

#[test]
fn a_driver_of_the_protocol_runs_nothing_without_a_handle() {
    let (out, ledger) = drive(leaf(Ok(1)), true, false);
    assert_eq!(out, Err(RunError::Acquire(1)));
    assert_eq!(ledger, vec!["begin"]);
}
