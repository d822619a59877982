//! The outcome signal: the single-write channel a test body uses to report
//! pass or fail. A fresh signal is handed to each test invocation; the first
//! call of `mark_pass` or `mark_fail` decides the state, and any later call
//! is recorded as a double-report diagnostic instead of overwriting it.

use vstd::prelude::*;

verus! {

/// The state a test body may leave its signal in: untouched, marked as a
/// pass, or marked as a failure with a message.
#[derive(Debug, Clone, PartialEq, Eq)]
pub enum SignalState {
    Unset,
    Pass,
    Fail(String),
}

/// The mathematical view of a [`SignalState`]: the failure message is a
/// sequence of characters.
pub enum SignalStateView {
    Unset,
    Pass,
    Fail(Seq<char>),
}

impl View for SignalState {
    type V = SignalStateView;

    open spec fn view(&self) -> SignalStateView {
        match self {
            SignalState::Unset => SignalStateView::Unset,
            SignalState::Pass => SignalStateView::Pass,
            SignalState::Fail(m) => SignalStateView::Fail(m@),
        }
    }
}

/// A per-test result channel. A test body may set it at most once; the
/// runner reads it once after the body has finished.
pub struct OutcomeSignal {
    state: SignalState,
    double_report: bool,
}

/// The mathematical view of an [`OutcomeSignal`].
pub struct SignalView {
    pub state: SignalStateView,
    pub double_report: bool,
}

impl View for OutcomeSignal {
    type V = SignalView;

    closed spec fn view(&self) -> SignalView {
        SignalView { state: self.state@, double_report: self.double_report }
    }
}

/// The view of a signal that no test body has touched yet.
pub open spec fn fresh_signal() -> SignalView {
    SignalView { state: SignalStateView::Unset, double_report: false }
}

/// What `mark_pass` does to a signal: the first write sets the state to
/// `Pass`; a write to an already set signal leaves the state alone and
/// raises the double-report diagnostic.
pub open spec fn spec_mark_pass(s: SignalView) -> SignalView {
    if s.state is Unset {
        SignalView { state: SignalStateView::Pass, double_report: s.double_report }
    } else {
        SignalView { state: s.state, double_report: true }
    }
}

/// What `mark_fail` does to a signal: the first write sets the state to
/// `Fail` with the given message; a write to an already set signal leaves
/// the state alone and raises the double-report diagnostic.
pub open spec fn spec_mark_fail(s: SignalView, message: Seq<char>) -> SignalView {
    if s.state is Unset {
        SignalView { state: SignalStateView::Fail(message), double_report: s.double_report }
    } else {
        SignalView { state: s.state, double_report: true }
    }
}

impl OutcomeSignal {
    /// A fresh signal: state unset, no diagnostic.
    pub fn new() -> (signal: Self)
        ensures
            signal@ == fresh_signal(),
    {
        OutcomeSignal { state: SignalState::Unset, double_report: false }
    }

    /// Record an explicit pass. On a signal that is already set this only
    /// raises the double-report diagnostic.
    pub fn mark_pass(&mut self)
        ensures
            final(self)@ == spec_mark_pass(old(self)@),
    {
        match self.state {
            SignalState::Unset => {
                self.state = SignalState::Pass;
            },
            _ => {
                self.double_report = true;
            },
        }
    }

    /// Record an explicit failure with a message. On a signal that is
    /// already set this only raises the double-report diagnostic.
    pub fn mark_fail(&mut self, message: &str)
        ensures
            final(self)@ == spec_mark_fail(old(self)@, message@),
    {
        match self.state {
            SignalState::Unset => {
                self.state = SignalState::Fail(message.to_owned());
            },
            _ => {
                self.double_report = true;
            },
        }
    }

    /// The state the signal was left in.
    pub fn state(&self) -> (s: &SignalState)
        ensures
            s@ == self@.state,
    {
        &self.state
    }

    /// Consume the signal, handing the state it was left in to the caller.
    pub fn into_state(self) -> (s: SignalState)
        ensures
            s@ == self@.state,
    {
        self.state
    }

    /// Whether a test body wrote to the signal more than once.
    pub fn double_reported(&self) -> (d: bool)
        ensures
            d == self@.double_report,
    {
        self.double_report
    }
}

} // verus!
