//! Test bodies. A test case's body is a value of a type implementing
//! [`TestBody`]: the runner hands it a fresh outcome signal and the body
//! reports how it finished. Each implementation declares, as the spec
//! function `behavior`, the relation it promises between the signal it was
//! handed and what it leaves behind; the runner's contract speaks of the
//! recorded results through that relation.

use vstd::prelude::*;

use crate::outcome::Completion;
use crate::outcome::CompletionView;
use crate::outcome::OutcomeView;
use crate::outcome::ResultView;
use crate::outcome::outcome_of;
use crate::signal::OutcomeSignal;
use crate::signal::SignalView;
use crate::signal::fresh_signal;
use crate::signal::spec_mark_fail;

verus! {

/// A named test's executable body. The runner invokes `run` with a fresh
/// [`OutcomeSignal`]; the body may mark it and must report how it finished.
/// An implementation whose real work can terminate abnormally is expected
/// to contain the fault at this boundary and report it as
/// [`Completion::Abort`] rather than let it propagate.
pub trait TestBody: Sized {
    /// The relation this body promises between the signal it was handed and
    /// the signal state and completion it leaves behind. An implementation
    /// that does not state one promises nothing.
    open spec fn behavior(
        &self,
        pre: SignalView,
        post: SignalView,
        completion: CompletionView,
    ) -> bool {
        true
    }

    /// Execute the body once against `signal`.
    fn run(&mut self, signal: &mut OutcomeSignal) -> (completion: Completion)
        ensures
            old(self).behavior(old(signal)@, final(signal)@, completion@),
    ;
}

/// Holds of a result that some execution of `body` against a fresh signal
/// can have produced: the outcome and the double-report diagnostic are the
/// ones derived from a signal state and completion that `body`'s declared
/// behavior admits.
pub open spec fn result_matches_body<B: TestBody>(body: B, r: ResultView) -> bool {
    exists|post: SignalView, completion: CompletionView|
        #[trigger] body.behavior(fresh_signal(), post, completion)
            && r.outcome == outcome_of(post.state, completion)
            && r.double_report == post.double_report
}

/// A body that never touches its signal and always returns normally — the
/// smallest test there is.
pub struct SilentBody;

impl TestBody for SilentBody {
    open spec fn behavior(&self, pre: SignalView, post: SignalView, completion: CompletionView) -> bool {
        post == pre && completion is Normal
    }

    fn run(&mut self, signal: &mut OutcomeSignal) -> (completion: Completion) {
        Completion::Normal
    }
}

/// A body that marks its signal as failed with a fixed message and returns
/// normally.
pub struct FailingBody {
    pub message: String,
}

impl TestBody for FailingBody {
    open spec fn behavior(&self, pre: SignalView, post: SignalView, completion: CompletionView) -> bool {
        post == spec_mark_fail(pre, self.message@) && completion is Normal
    }

    fn run(&mut self, signal: &mut OutcomeSignal) -> (completion: Completion) {
        signal.mark_fail(self.message.as_str());
        Completion::Normal
    }
}

/// A body that terminates abnormally with a fixed reason, before touching
/// its signal.
pub struct AbortingBody {
    pub reason: String,
}

impl TestBody for AbortingBody {
    open spec fn behavior(&self, pre: SignalView, post: SignalView, completion: CompletionView) -> bool {
        post == pre && completion == CompletionView::Abort(self.reason@)
    }

    fn run(&mut self, signal: &mut OutcomeSignal) -> (completion: Completion) {
        Completion::Abort(self.reason.clone())
    }
}

/// A body that never writes to its signal and returns normally is recorded
/// as `Passed`: absence of failure is success.
pub proof fn lemma_untouched_body_passes<B: TestBody>(body: B, r: ResultView)
    requires
        forall|post: SignalView, completion: CompletionView|
            #[trigger] body.behavior(fresh_signal(), post, completion)
                ==> post == fresh_signal() && completion is Normal,
        result_matches_body(body, r),
    ensures
        r.outcome == OutcomeView::Passed,
        !r.double_report,
{
}

/// A body that marks its fresh signal as failed with message `m` and
/// returns normally is recorded as `Failed` with exactly that message.
pub proof fn lemma_failing_body_fails<B: TestBody>(body: B, r: ResultView, m: Seq<char>)
    requires
        forall|post: SignalView, completion: CompletionView|
            #[trigger] body.behavior(fresh_signal(), post, completion)
                ==> post == spec_mark_fail(fresh_signal(), m) && completion is Normal,
        result_matches_body(body, r),
    ensures
        r.outcome == OutcomeView::Failed(m),
        !r.double_report,
{
}

/// A body that terminates abnormally with reason `reason`, without having
/// written to its fresh signal, is recorded as `Aborted` with that reason.
pub proof fn lemma_aborting_body_aborts<B: TestBody>(body: B, r: ResultView, reason: Seq<char>)
    requires
        forall|post: SignalView, completion: CompletionView|
            #[trigger] body.behavior(fresh_signal(), post, completion)
                ==> post == fresh_signal() && completion == CompletionView::Abort(reason),
        result_matches_body(body, r),
    ensures
        r.outcome == OutcomeView::Aborted(reason),
        !r.double_report,
{
}

} // verus!
