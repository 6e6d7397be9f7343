//! Taking snapshots at another revision and coming back.
//!
//! The working tree's checked-out revision is shared by everything that runs
//! in the process, so exactly one component may move it: the machine in this
//! module. It decides what happens next; the caller performs each [`Action`]
//! and reports the result as an [`Event`]. Once the original revision has been
//! captured, no run ends without a restoration having been requested.

use vstd::prelude::*;

verus! {

/// What identifies the state of the working tree, such as a branch name or a
/// commit id. It is captured before the tree moves and handed out once, for
/// the restoration.
pub type RevisionHandle = String;

/// The stage that a run has reached.
#[derive(Debug, Clone, Copy, PartialEq, Eq, Structural)]
pub enum Phase {
    /// Nothing has been done yet.
    Idle,
    /// The revision to come back to is known; the tree has not moved.
    CapturedOriginal,
    /// The tree is at the baseline.
    SwitchedToBaseline,
    /// The tree is back at the original revision after a successful extraction.
    RestoredOriginal,
    /// Extraction at the baseline failed; this is where the error path ends.
    ExtractionFailedAtBaseline,
}

/// The outside work whose result the machine waits for.
#[derive(Debug, Clone, Copy, PartialEq, Eq, Structural)]
pub enum Awaiting {
    /// The query for the current revision.
    RevisionQuery,
    /// The checkout of the baseline.
    Checkout,
    /// The extraction of the baseline snapshots.
    Extraction,
    /// The checkout of the original revision.
    Restoration,
    /// Nothing: the run is over.
    Nothing,
}

/// Why a run failed. Each variant carries what the failing tool reported.
#[derive(Debug, Clone, PartialEq, Eq)]
pub enum OrchestratorError {
    /// The current revision could not be determined; nothing was touched.
    RevisionQuery(String),
    /// A checkout failed: that of the baseline, or that of the original
    /// revision after an extraction that succeeded.
    Checkout(String),
    /// Extraction at the baseline failed.
    Extraction(String),
}

/// The result of a piece of outside work.
#[derive(Debug, Clone, PartialEq, Eq)]
pub enum Event {
    /// The current revision is the given handle.
    RevisionQueried(RevisionHandle),
    /// The current revision could not be determined.
    RevisionQueryFailed(String),
    /// The baseline is checked out.
    CheckoutSucceeded,
    /// The baseline could not be checked out.
    CheckoutFailed(String),
    /// The baseline snapshots were extracted.
    ExtractionSucceeded,
    /// Extraction at the baseline failed.
    ExtractionFailed(String),
    /// The original revision is checked out again.
    RestoreSucceeded,
    /// The original revision could not be checked out.
    RestoreFailed(String),
}

/// What the caller has to do next.
#[derive(Debug, Clone, PartialEq, Eq)]
pub enum Action {
    /// Determine the handle of the current revision.
    QueryRevision,
    /// Check out the given reference in detached state.
    CheckoutDetached(String),
    /// Extract the snapshots of every requested package.
    Extract,
    /// Check out the given handle, captured at the start of the run.
    Restore(RevisionHandle),
    /// The run is over and succeeded.
    Succeed,
    /// The run is over and failed.
    Fail(OrchestratorError),
}

/// One run of "extract at the baseline, then come back".
#[derive(Debug, Clone, PartialEq, Eq)]
pub struct Orchestrator {
    /// The stage reached.
    pub phase: Phase,
    /// The result that the machine waits for.
    pub awaiting: Awaiting,
    /// The reference to extract at.
    pub baseline: String,
    /// The handle to come back to, from its capture until it is handed out
    /// for restoration.
    pub original: Option<RevisionHandle>,
    /// The first error of the run, if any.
    pub failure: Option<OrchestratorError>,
}

impl OrchestratorError {
    /// What the failing tool reported.
    pub fn message(&self) -> (text: &str)
        ensures
            text@ == match self {
                OrchestratorError::RevisionQuery(message) => message@,
                OrchestratorError::Checkout(message) => message@,
                OrchestratorError::Extraction(message) => message@,
            },
    {
        match self {
            OrchestratorError::RevisionQuery(message) => message.as_str(),
            OrchestratorError::Checkout(message) => message.as_str(),
            OrchestratorError::Extraction(message) => message.as_str(),
        }
    }

    /// A copy of this error.
    pub fn duplicate(&self) -> (copy: OrchestratorError)
        ensures
            copy == *self,
    {
        match self {
            OrchestratorError::RevisionQuery(message) => OrchestratorError::RevisionQuery(
                message.clone(),
            ),
            OrchestratorError::Checkout(message) => OrchestratorError::Checkout(message.clone()),
            OrchestratorError::Extraction(message) => OrchestratorError::Extraction(
                message.clone(),
            ),
        }
    }
}

/// The machine before anything has happened.
pub open spec fn initial(baseline: String) -> Orchestrator {
    Orchestrator {
        phase: Phase::Idle,
        awaiting: Awaiting::RevisionQuery,
        baseline,
        original: None,
        failure: None,
    }
}

/// The machine after `event`, and what to do next; `None` where the machine
/// did not wait for `event`.
pub open spec fn transition(machine: Orchestrator, event: Event) -> Option<(Orchestrator, Action)> {
    match (machine.awaiting, event) {
        (Awaiting::RevisionQuery, Event::RevisionQueried(handle)) => Some(
            (
                Orchestrator {
                    phase: Phase::CapturedOriginal,
                    awaiting: Awaiting::Checkout,
                    original: Some(handle),
                    ..machine
                },
                Action::CheckoutDetached(machine.baseline),
            ),
        ),
        (Awaiting::RevisionQuery, Event::RevisionQueryFailed(message)) => Some(
            (
                Orchestrator {
                    awaiting: Awaiting::Nothing,
                    failure: Some(OrchestratorError::RevisionQuery(message)),
                    ..machine
                },
                Action::Fail(OrchestratorError::RevisionQuery(message)),
            ),
        ),
        (Awaiting::Checkout, Event::CheckoutSucceeded) => Some(
            (
                Orchestrator {
                    phase: Phase::SwitchedToBaseline,
                    awaiting: Awaiting::Extraction,
                    ..machine
                },
                Action::Extract,
            ),
        ),
        (Awaiting::Checkout, Event::CheckoutFailed(message)) => match machine.original {
            Some(handle) => Some(
                (
                    Orchestrator {
                        awaiting: Awaiting::Restoration,
                        original: None,
                        failure: Some(OrchestratorError::Checkout(message)),
                        ..machine
                    },
                    Action::Restore(handle),
                ),
            ),
            None => None,
        },
        (Awaiting::Extraction, Event::ExtractionSucceeded) => match machine.original {
            Some(handle) => Some(
                (
                    Orchestrator { awaiting: Awaiting::Restoration, original: None, ..machine },
                    Action::Restore(handle),
                ),
            ),
            None => None,
        },
        (Awaiting::Extraction, Event::ExtractionFailed(message)) => match machine.original {
            Some(handle) => Some(
                (
                    Orchestrator {
                        phase: Phase::ExtractionFailedAtBaseline,
                        awaiting: Awaiting::Restoration,
                        original: None,
                        failure: Some(OrchestratorError::Extraction(message)),
                        ..machine
                    },
                    Action::Restore(handle),
                ),
            ),
            None => None,
        },
        (Awaiting::Restoration, Event::RestoreSucceeded) => match machine.failure {
            Some(error) => Some(
                (Orchestrator { awaiting: Awaiting::Nothing, ..machine }, Action::Fail(error)),
            ),
            None => Some(
                (
                    Orchestrator {
                        phase: Phase::RestoredOriginal,
                        awaiting: Awaiting::Nothing,
                        ..machine
                    },
                    Action::Succeed,
                ),
            ),
        },
        (Awaiting::Restoration, Event::RestoreFailed(message)) => match machine.failure {
            Some(error) => Some(
                (Orchestrator { awaiting: Awaiting::Nothing, ..machine }, Action::Fail(error)),
            ),
            None => Some(
                (
                    Orchestrator {
                        awaiting: Awaiting::Nothing,
                        failure: Some(OrchestratorError::Checkout(message)),
                        ..machine
                    },
                    Action::Fail(OrchestratorError::Checkout(message)),
                ),
            ),
        },
        _ => None,
    }
}

impl Orchestrator {
    /// Starts a run that extracts at `baseline`. The first thing to do is to
    /// query the current revision.
    pub fn start(baseline: String) -> (begun: (Orchestrator, Action))
        ensures
            begun.0 == initial(baseline),
            begun.1 == Action::QueryRevision,
    {
        (
            Orchestrator {
                phase: Phase::Idle,
                awaiting: Awaiting::RevisionQuery,
                baseline,
                original: None,
                failure: None,
            },
            Action::QueryRevision,
        )
    }

    /// Whether the run is over.
    pub fn is_finished(&self) -> (finished: bool)
        ensures
            finished == (self.awaiting == Awaiting::Nothing),
    {
        match self.awaiting {
            Awaiting::Nothing => true,
            _ => false,
        }
    }

    /// Takes the result of the work that the machine waits for and says what
    /// to do next. An event that the machine does not wait for changes
    /// nothing and yields no action.
    pub fn step(self, event: Event) -> (next: (Orchestrator, Option<Action>))
        ensures
            transition(self, event) matches Some((machine, action)) ==> next.0 == machine
                && next.1 == Some(action),
            transition(self, event) is None ==> next.0 == self && next.1 is None,
    {
        let Orchestrator { phase, awaiting, baseline, original, failure } = self;
        match (awaiting, event) {
            (Awaiting::RevisionQuery, Event::RevisionQueried(handle)) => {
                let reference = baseline.clone();
                (
                    Orchestrator {
                        phase: Phase::CapturedOriginal,
                        awaiting: Awaiting::Checkout,
                        baseline,
                        original: Some(handle),
                        failure,
                    },
                    Some(Action::CheckoutDetached(reference)),
                )
            },
            (Awaiting::RevisionQuery, Event::RevisionQueryFailed(message)) => {
                let error = OrchestratorError::RevisionQuery(message);
                let reported = error.duplicate();
                (
                    Orchestrator {
                        phase,
                        awaiting: Awaiting::Nothing,
                        baseline,
                        original,
                        failure: Some(error),
                    },
                    Some(Action::Fail(reported)),
                )
            },
            (Awaiting::Checkout, Event::CheckoutSucceeded) => (
                Orchestrator {
                    phase: Phase::SwitchedToBaseline,
                    awaiting: Awaiting::Extraction,
                    baseline,
                    original,
                    failure,
                },
                Some(Action::Extract),
            ),
            (Awaiting::Checkout, Event::CheckoutFailed(message)) => match original {
                Some(handle) => (
                    Orchestrator {
                        phase,
                        awaiting: Awaiting::Restoration,
                        baseline,
                        original: None,
                        failure: Some(OrchestratorError::Checkout(message)),
                    },
                    Some(Action::Restore(handle)),
                ),
                None => (
                    Orchestrator { phase, awaiting, baseline, original: None, failure },
                    None,
                ),
            },
            (Awaiting::Extraction, Event::ExtractionSucceeded) => match original {
                Some(handle) => (
                    Orchestrator {
                        phase,
                        awaiting: Awaiting::Restoration,
                        baseline,
                        original: None,
                        failure,
                    },
                    Some(Action::Restore(handle)),
                ),
                None => (
                    Orchestrator { phase, awaiting, baseline, original: None, failure },
                    None,
                ),
            },
            (Awaiting::Extraction, Event::ExtractionFailed(message)) => match original {
                Some(handle) => (
                    Orchestrator {
                        phase: Phase::ExtractionFailedAtBaseline,
                        awaiting: Awaiting::Restoration,
                        baseline,
                        original: None,
                        failure: Some(OrchestratorError::Extraction(message)),
                    },
                    Some(Action::Restore(handle)),
                ),
                None => (
                    Orchestrator { phase, awaiting, baseline, original: None, failure },
                    None,
                ),
            },
            (Awaiting::Restoration, Event::RestoreSucceeded) => match failure {
                Some(error) => {
                    let reported = error.duplicate();
                    (
                        Orchestrator {
                            phase,
                            awaiting: Awaiting::Nothing,
                            baseline,
                            original,
                            failure: Some(error),
                        },
                        Some(Action::Fail(reported)),
                    )
                },
                None => (
                    Orchestrator {
                        phase: Phase::RestoredOriginal,
                        awaiting: Awaiting::Nothing,
                        baseline,
                        original,
                        failure: None,
                    },
                    Some(Action::Succeed),
                ),
            },
            (Awaiting::Restoration, Event::RestoreFailed(message)) => match failure {
                Some(error) => {
                    let reported = error.duplicate();
                    (
                        Orchestrator {
                            phase,
                            awaiting: Awaiting::Nothing,
                            baseline,
                            original,
                            failure: Some(error),
                        },
                        Some(Action::Fail(reported)),
                    )
                },
                None => {
                    let error = OrchestratorError::Checkout(message);
                    let reported = error.duplicate();
                    (
                        Orchestrator {
                            phase,
                            awaiting: Awaiting::Nothing,
                            baseline,
                            original,
                            failure: Some(error),
                        },
                        Some(Action::Fail(reported)),
                    )
                },
            },
            (awaiting, _) => (Orchestrator { phase, awaiting, baseline, original, failure }, None),
        }
    }
}

/// A run under way, seen from outside: the machine, the action that the
/// caller is performing, every action requested so far, and the revision that
/// the working tree is at.
pub struct Run {
    pub machine: Orchestrator,
    pub pending: Action,
    pub requested: Seq<Action>,
    pub head: Seq<char>,
}

/// The run that starts at revision `head` and extracts at `baseline`.
pub open spec fn begin(baseline: String, head: Seq<char>) -> Run {
    Run {
        machine: initial(baseline),
        pending: Action::QueryRevision,
        requested: seq![Action::QueryRevision],
        head,
    }
}

/// Whether `event` reports a result of `action`.
pub open spec fn reports_on(action: Action, event: Event) -> bool {
    match action {
        Action::QueryRevision => event is RevisionQueried || event is RevisionQueryFailed,
        Action::CheckoutDetached(_) => event is CheckoutSucceeded || event is CheckoutFailed,
        Action::Extract => event is ExtractionSucceeded || event is ExtractionFailed,
        Action::Restore(_) => event is RestoreSucceeded || event is RestoreFailed,
        Action::Succeed => false,
        Action::Fail(_) => false,
    }
}

/// Whether `event` is a truthful answer to `action` on a tree at `head`: it
/// reports on that action, and a revision query names the revision that the
/// tree is at.
pub open spec fn truthful(head: Seq<char>, action: Action, event: Event) -> bool {
    reports_on(action, event) && (event matches Event::RevisionQueried(handle) ==> handle@
        == head)
}

/// The revision that a tree at `head` is at once `action` has ended with
/// `event`: a checkout that succeeds moves the tree, nothing else does.
pub open spec fn head_after(head: Seq<char>, action: Action, event: Event) -> Seq<char> {
    match (action, event) {
        (Action::CheckoutDetached(reference), Event::CheckoutSucceeded) => reference@,
        (Action::Restore(handle), Event::RestoreSucceeded) => handle@,
        _ => head,
    }
}

/// The run after the caller has reported `event`.
pub open spec fn advance(run: Run, event: Event) -> Run {
    match transition(run.machine, event) {
        Some((machine, action)) => Run {
            machine,
            pending: action,
            requested: run.requested.push(action),
            head: head_after(run.head, run.pending, event),
        },
        None => run,
    }
}

/// The run after the caller has reported `events`, one after the other.
pub open spec fn replay(run: Run, events: Seq<Event>) -> Run
    decreases events.len(),
{
    if events.len() == 0 {
        run
    } else {
        replay(advance(run, events.first()), events.drop_first())
    }
}

/// Whether each of `events` is a truthful answer to the action that was
/// pending when it arrived.
pub open spec fn truthful_throughout(run: Run, events: Seq<Event>) -> bool
    decreases events.len(),
{
    if events.len() == 0 {
        true
    } else {
        truthful(run.head, run.pending, events.first()) && truthful_throughout(
            advance(run, events.first()),
            events.drop_first(),
        )
    }
}

/// Whether the tree left the original revision and the way back failed.
pub open spec fn stranded(events: Seq<Event>) -> bool {
    (exists|i: int| 0 <= i < events.len() && events[i] is CheckoutSucceeded) && (exists|j: int|
        0 <= j < events.len() && events[j] is RestoreFailed)
}

/// Whether the run is over.
pub open spec fn is_over(run: Run) -> bool {
    run.machine.awaiting == Awaiting::Nothing
}

/// A run never takes more than four answers, and it is over exactly when the
/// last action requested is the verdict.
pub proof fn run_is_short(baseline: String, head: Seq<char>, events: Seq<Event>)
    requires
        truthful_throughout(begin(baseline, head), events),
    ensures
        events.len() <= 4,
        is_over(replay(begin(baseline, head), events)) <==> (replay(
            begin(baseline, head),
            events,
        ).pending is Succeed || replay(begin(baseline, head), events).pending is Fail),
        replay(begin(baseline, head), events).requested.len() == events.len() + 1,
        replay(begin(baseline, head), events).requested.last() == replay(
            begin(baseline, head),
            events,
        ).pending,
{
    reveal_with_fuel(replay, 6);
    reveal_with_fuel(truthful_throughout, 6);
    unfold(events);
}

/// Names the first five events of a sequence and their tails, so that a run
/// can be followed step by step.
proof fn unfold(events: Seq<Event>)
    ensures
        events.len() >= 1 ==> events.drop_first().len() == events.len() - 1,
        events.len() >= 2 ==> events.drop_first().drop_first().len() == events.len() - 2
            && events.drop_first().first() == events[1],
        events.len() >= 3 ==> events.drop_first().drop_first().drop_first().len() == events.len()
            - 3 && events.drop_first().drop_first().first() == events[2],
        events.len() >= 4 ==> events.drop_first().drop_first().drop_first().drop_first().len()
            == events.len() - 4 && events.drop_first().drop_first().drop_first().first()
            == events[3],
        events.len() >= 5 ==> events.drop_first().drop_first().drop_first().drop_first().first()
            == events[4],
{
}

/// Whatever the extraction at the baseline does, the tree ends where it
/// began: when a run is over, the working tree is at the revision at which
/// the run started. The one run of which this cannot hold is left out: the
/// tree had moved to a baseline other than where it started, and the checkout
/// that should bring it back failed.
pub proof fn revision_is_restored(baseline: String, head: Seq<char>, events: Seq<Event>)
    requires
        truthful_throughout(begin(baseline, head), events),
        is_over(replay(begin(baseline, head), events)),
        stranded(events) ==> baseline@ == head,
    ensures
        replay(begin(baseline, head), events).head == head,
{
    reveal_with_fuel(replay, 6);
    reveal_with_fuel(truthful_throughout, 6);
    unfold(events);
    run_is_short(baseline, head, events);
    if events.len() == 4 {
        if events[1] is CheckoutSucceeded && events[3] is RestoreFailed {
            assert(stranded(events));
        }
    }
    if events.len() == 3 {
        assert(events[1] is CheckoutFailed);
    }
}

/// A run that is stranded ends with the tree at the baseline.
pub proof fn stranded_run_stays_at_baseline(baseline: String, head: Seq<char>, events: Seq<Event>)
    requires
        truthful_throughout(begin(baseline, head), events),
        is_over(replay(begin(baseline, head), events)),
        stranded(events),
    ensures
        replay(begin(baseline, head), events).head == baseline@,
        replay(begin(baseline, head), events).pending is Fail,
{
    reveal_with_fuel(replay, 6);
    reveal_with_fuel(truthful_throughout, 6);
    unfold(events);
    run_is_short(baseline, head, events);
    let i = choose|i: int| 0 <= i < events.len() && events[i] is CheckoutSucceeded;
    let j = choose|j: int| 0 <= j < events.len() && events[j] is RestoreFailed;
    assert(i == 1);
    assert(j == 3);
}

/// A run that captured the original revision does not end before it has
/// asked, once, for that revision to be checked out again; it moves the tree
/// to the baseline at most once, and a run that could not capture the
/// original revision asks for no checkout at all.
pub proof fn restoration_is_always_attempted(
    baseline: String,
    head: Seq<char>,
    events: Seq<Event>,
)
    requires
        truthful_throughout(begin(baseline, head), events),
        is_over(replay(begin(baseline, head), events)),
    ensures
        events.len() >= 1,
        events[0] matches Event::RevisionQueried(handle) ==> {
            let requested = replay(begin(baseline, head), events).requested;
            &&& requested[1] == Action::CheckoutDetached(baseline)
            &&& requested[requested.len() - 2] == Action::Restore(handle)
            &&& forall|i: int|
                0 <= i < requested.len() && requested[i] is CheckoutDetached ==> i == 1
            &&& forall|i: int|
                0 <= i < requested.len() && requested[i] is Restore ==> i == requested.len() - 2
        },
        events[0] is RevisionQueryFailed ==> {
            let requested = replay(begin(baseline, head), events).requested;
            forall|i: int|
                0 <= i < requested.len() ==> !(requested[i] is CheckoutDetached) && !(
                requested[i] is Restore)
        },
{
    reveal_with_fuel(replay, 6);
    reveal_with_fuel(truthful_throughout, 6);
    unfold(events);
    run_is_short(baseline, head, events);
}

/// How a run ends: it succeeds exactly when every step succeeded, and it
/// fails with the first error that occurred.
pub proof fn verdict_is_first_error(baseline: String, head: Seq<char>, events: Seq<Event>)
    requires
        truthful_throughout(begin(baseline, head), events),
        is_over(replay(begin(baseline, head), events)),
    ensures
        ({
            let end = replay(begin(baseline, head), events);
            &&& end.pending is Succeed <==> forall|i: int|
                0 <= i < events.len() ==> (events[i] is RevisionQueried
                    || events[i] is CheckoutSucceeded || events[i] is ExtractionSucceeded
                    || events[i] is RestoreSucceeded)
            &&& end.pending is Succeed <==> end.machine.phase == Phase::RestoredOriginal
            &&& forall|i: int, message: String|
                0 <= i < events.len() && (forall|j: int|
                    0 <= j < i ==> (events[j] is RevisionQueried || events[j] is CheckoutSucceeded
                        || events[j] is ExtractionSucceeded)) ==> {
                    &&& events[i] == Event::RevisionQueryFailed(message) ==> end.pending
                        == Action::Fail(OrchestratorError::RevisionQuery(message))
                    &&& events[i] == Event::CheckoutFailed(message) ==> end.pending
                        == Action::Fail(OrchestratorError::Checkout(message))
                    &&& events[i] == Event::ExtractionFailed(message) ==> end.pending
                        == Action::Fail(OrchestratorError::Extraction(message))
                        && end.machine.phase == Phase::ExtractionFailedAtBaseline
                    &&& events[i] == Event::RestoreFailed(message) ==> end.pending
                        == Action::Fail(OrchestratorError::Checkout(message))
                }
        }),
{
    reveal_with_fuel(replay, 6);
    reveal_with_fuel(truthful_throughout, 6);
    unfold(events);
    run_is_short(baseline, head, events);
}

} // verus!
