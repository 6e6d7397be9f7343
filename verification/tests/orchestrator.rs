use rbmt::orchestrator::{Action, Awaiting, Event, Orchestrator, OrchestratorError, Phase};

/// A working tree that performs what the machine asks for.
struct Tree {
    head: String,
    checkout_works: bool,
    extraction_works: bool,
    restore_works: bool,
    query_works: bool,
    checkouts: usize,
    restores: usize,
    extractions: usize,
}

impl Tree {
    fn at(head: &str) -> Tree {
        Tree {
            head: head.to_string(),
            checkout_works: true,
            extraction_works: true,
            restore_works: true,
            query_works: true,
            checkouts: 0,
            restores: 0,
            extractions: 0,
        }
    }

    fn perform(&mut self, action: &Action) -> Event {
        match action {
            Action::QueryRevision => {
                if self.query_works {
                    Event::RevisionQueried(self.head.clone())
                } else {
                    Event::RevisionQueryFailed("not a repository".to_string())
                }
            }
            Action::CheckoutDetached(reference) => {
                self.checkouts += 1;
                if self.checkout_works {
                    self.head = reference.clone();
                    Event::CheckoutSucceeded
                } else {
                    Event::CheckoutFailed("unknown revision".to_string())
                }
            }
            Action::Extract => {
                self.extractions += 1;
                if self.extraction_works {
                    Event::ExtractionSucceeded
                } else {
                    Event::ExtractionFailed("rustdoc failed".to_string())
                }
            }
            Action::Restore(handle) => {
                self.restores += 1;
                if self.restore_works {
                    self.head = handle.clone();
                    Event::RestoreSucceeded
                } else {
                    Event::RestoreFailed("cannot switch".to_string())
                }
            }
            Action::Succeed | Action::Fail(_) => unreachable!(),
        }
    }
}

fn run(tree: &mut Tree, baseline: &str) -> (Orchestrator, Action) {
    let (mut machine, mut action) = Orchestrator::start(baseline.to_string());
    loop {
        if matches!(action, Action::Succeed | Action::Fail(_)) {
            assert!(machine.is_finished());
            return (machine, action);
        }
        assert!(!machine.is_finished());
        let event = tree.perform(&action);
        let (next, requested) = machine.step(event);
        machine = next;
        action = requested.unwrap();
    }
}

#[test]
fn start_asks_for_the_current_revision() {
    let (machine, action) = Orchestrator::start("v1.0".to_string());
    assert_eq!(action, Action::QueryRevision);
    assert_eq!(machine.phase, Phase::Idle);
    assert_eq!(machine.awaiting, Awaiting::RevisionQuery);
    assert_eq!(machine.baseline, "v1.0");
    assert_eq!(machine.original, None);
    assert_eq!(machine.failure, None);
}

#[test]
fn successful_run_walks_every_state() {
    let (machine, _) = Orchestrator::start("v1.0".to_string());
    let (machine, action) = machine.step(Event::RevisionQueried("main".to_string()));
    assert_eq!(action, Some(Action::CheckoutDetached("v1.0".to_string())));
    assert_eq!(machine.phase, Phase::CapturedOriginal);
    assert_eq!(machine.original, Some("main".to_string()));
    let (machine, action) = machine.step(Event::CheckoutSucceeded);
    assert_eq!(action, Some(Action::Extract));
    assert_eq!(machine.phase, Phase::SwitchedToBaseline);
    let (machine, action) = machine.step(Event::ExtractionSucceeded);
    assert_eq!(action, Some(Action::Restore("main".to_string())));
    assert_eq!(machine.phase, Phase::SwitchedToBaseline);
    assert_eq!(machine.original, None);
    let (machine, action) = machine.step(Event::RestoreSucceeded);
    assert_eq!(action, Some(Action::Succeed));
    assert_eq!(machine.phase, Phase::RestoredOriginal);
    assert_eq!(machine.failure, None);
    assert!(machine.is_finished());
}

#[test]
fn revision_is_restored_after_success() {
    let mut tree = Tree::at("main");
    let (machine, action) = run(&mut tree, "v1.0");
    assert_eq!(action, Action::Succeed);
    assert_eq!(machine.phase, Phase::RestoredOriginal);
    assert_eq!(tree.head, "main");
    assert_eq!((tree.checkouts, tree.extractions, tree.restores), (1, 1, 1));
}

#[test]
fn revision_is_restored_after_failed_extraction() {
    let mut tree = Tree::at("main");
    tree.extraction_works = false;
    let (machine, action) = run(&mut tree, "v1.0");
    assert_eq!(
        action,
        Action::Fail(OrchestratorError::Extraction("rustdoc failed".to_string()))
    );
    assert_eq!(machine.phase, Phase::ExtractionFailedAtBaseline);
    assert_eq!(
        machine.failure,
        Some(OrchestratorError::Extraction("rustdoc failed".to_string()))
    );
    assert_eq!(tree.head, "main");
    assert_eq!((tree.checkouts, tree.extractions, tree.restores), (1, 1, 1));
}

#[test]
fn failed_query_touches_nothing() {
    let mut tree = Tree::at("main");
    tree.query_works = false;
    let (machine, action) = run(&mut tree, "v1.0");
    assert_eq!(
        action,
        Action::Fail(OrchestratorError::RevisionQuery("not a repository".to_string()))
    );
    assert_eq!(machine.phase, Phase::Idle);
    assert_eq!(tree.head, "main");
    assert_eq!((tree.checkouts, tree.extractions, tree.restores), (0, 0, 0));
}

#[test]
fn failed_checkout_skips_extraction_and_still_restores() {
    let mut tree = Tree::at("main");
    tree.checkout_works = false;
    let (machine, action) = run(&mut tree, "no-such-tag");
    assert_eq!(
        action,
        Action::Fail(OrchestratorError::Checkout("unknown revision".to_string()))
    );
    assert_eq!(machine.phase, Phase::CapturedOriginal);
    assert_eq!(tree.head, "main");
    assert_eq!((tree.checkouts, tree.extractions, tree.restores), (1, 0, 1));
}

#[test]
fn failed_restore_is_a_checkout_error() {
    let mut tree = Tree::at("main");
    tree.restore_works = false;
    let (machine, action) = run(&mut tree, "v1.0");
    assert_eq!(action, Action::Fail(OrchestratorError::Checkout("cannot switch".to_string())));
    assert_eq!(machine.phase, Phase::SwitchedToBaseline);
    assert_eq!(tree.head, "v1.0");
    assert_eq!(tree.restores, 1);
}

#[test]
fn first_error_wins_over_a_failed_restore() {
    let mut tree = Tree::at("main");
    tree.extraction_works = false;
    tree.restore_works = false;
    let (machine, action) = run(&mut tree, "v1.0");
    assert_eq!(
        action,
        Action::Fail(OrchestratorError::Extraction("rustdoc failed".to_string()))
    );
    assert_eq!(machine.phase, Phase::ExtractionFailedAtBaseline);
    assert_eq!(tree.restores, 1);
}

#[test]
fn unexpected_event_changes_nothing() {
    let (machine, _) = Orchestrator::start("v1.0".to_string());
    let before = machine.clone();
    let (machine, action) = machine.step(Event::CheckoutSucceeded);
    assert_eq!(action, None);
    assert_eq!(machine, before);
    let (machine, _) = machine.step(Event::RevisionQueried("main".to_string()));
    let before = machine.clone();
    let (machine, action) = machine.step(Event::RestoreSucceeded);
    assert_eq!(action, None);
    assert_eq!(machine, before);
    let (machine, action) = machine.step(Event::ExtractionFailed("early".to_string()));
    assert_eq!(action, None);
    assert_eq!(machine, before);
}

#[test]
fn finished_run_takes_no_more_events() {
    let mut tree = Tree::at("main");
    let (machine, _) = run(&mut tree, "v1.0");
    let before = machine.clone();
    let (machine, action) = machine.step(Event::RestoreSucceeded);
    assert_eq!(action, None);
    assert_eq!(machine, before);
    let (machine, action) = machine.step(Event::RevisionQueried("main".to_string()));
    assert_eq!(action, None);
    assert_eq!(machine, before);
}
