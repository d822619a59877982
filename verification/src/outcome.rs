//! Test outcomes and the rule that derives them. A test body finishes in one
//! of two ways — a normal return or an abnormal termination — and may have
//! set its outcome signal on the way. `outcome_of` states how the runner
//! turns that pair into the recorded outcome, and `conclude` is the
//! executable function that applies it.

use vstd::prelude::*;

use crate::signal::OutcomeSignal;
use crate::signal::SignalState;
use crate::signal::SignalStateView;

verus! {

/// How a test body finished: a normal return, or an abnormal termination
/// with a reason. A containment barrier around a genuinely faulting body
/// reports the fault as `Abort` instead of letting it propagate.
#[derive(Debug, Clone, PartialEq, Eq)]
pub enum Completion {
    Normal,
    Abort(String),
}

/// The mathematical view of a [`Completion`].
pub enum CompletionView {
    Normal,
    Abort(Seq<char>),
}

impl View for Completion {
    type V = CompletionView;

    open spec fn view(&self) -> CompletionView {
        match self {
            Completion::Normal => CompletionView::Normal,
            Completion::Abort(r) => CompletionView::Abort(r@),
        }
    }
}

/// The recorded outcome of one executed test.
#[derive(Debug, Clone, PartialEq, Eq)]
pub enum Outcome {
    Passed,
    Failed(String),
    Aborted(String),
}

/// The mathematical view of an [`Outcome`].
pub enum OutcomeView {
    Passed,
    Failed(Seq<char>),
    Aborted(Seq<char>),
}

impl View for Outcome {
    type V = OutcomeView;

    open spec fn view(&self) -> OutcomeView {
        match self {
            Outcome::Passed => OutcomeView::Passed,
            Outcome::Failed(m) => OutcomeView::Failed(m@),
            Outcome::Aborted(r) => OutcomeView::Aborted(r@),
        }
    }
}

/// One entry of the runner's result log: the test's name, its outcome, and
/// whether the body wrote to its signal more than once.
#[derive(Debug, Clone, PartialEq, Eq)]
pub struct TestResult {
    pub name: String,
    pub outcome: Outcome,
    pub double_report: bool,
}

/// The mathematical view of a [`TestResult`].
pub struct ResultView {
    pub name: Seq<char>,
    pub outcome: OutcomeView,
    pub double_report: bool,
}

impl View for TestResult {
    type V = ResultView;

    open spec fn view(&self) -> ResultView {
        ResultView { name: self.name@, outcome: self.outcome@, double_report: self.double_report }
    }
}

/// The outcome the runner records for a test that left its signal in state
/// `state` and finished with `completion`. A set signal is terminal, so it
/// decides the outcome whichever way the body finished; an abnormal
/// termination is recorded as `Aborted` only when the signal was never set,
/// and a normal return with an untouched signal is an implicit pass
/// (absence of failure is success).
pub open spec fn outcome_of(state: SignalStateView, completion: CompletionView) -> OutcomeView {
    match state {
        SignalStateView::Pass => OutcomeView::Passed,
        SignalStateView::Fail(m) => OutcomeView::Failed(m),
        SignalStateView::Unset => match completion {
            CompletionView::Normal => OutcomeView::Passed,
            CompletionView::Abort(r) => OutcomeView::Aborted(r),
        },
    }
}

/// Turn what one test execution left behind — its name, the signal the body
/// was handed, and the way the body finished — into the result the runner
/// appends to its log.
pub fn conclude(name: String, signal: OutcomeSignal, completion: Completion) -> (result:
    TestResult)
    ensures
        result@.name == name@,
        result@.outcome == outcome_of(signal@.state, completion@),
        result@.double_report == signal@.double_report,
{
    let double_report = signal.double_reported();
    let outcome = match signal.into_state() {
        SignalState::Pass => Outcome::Passed,
        SignalState::Fail(m) => Outcome::Failed(m),
        SignalState::Unset => match completion {
            Completion::Normal => Outcome::Passed,
            Completion::Abort(r) => Outcome::Aborted(r),
        },
    };
    TestResult { name, outcome, double_report }
}

} // verus!
