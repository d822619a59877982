//! The runner: owns the ordered list of registered test cases and the
//! result log, drives execution in registration order, isolates each test's
//! termination from the rest of the run, and hands out the accumulated
//! results. Every registered test case produces exactly one result, in
//! registration order, whatever its outcome — a failing or aborting test
//! never halts the run.

use vstd::prelude::*;

use crate::body::TestBody;
use crate::body::result_matches_body;
use crate::fixture::Fixture;
use crate::outcome::ResultView;
use crate::outcome::TestResult;
use crate::outcome::conclude;
use crate::report::render_report;
use crate::report::report_chars;
use crate::signal::OutcomeSignal;
use crate::stats::Stats;
use crate::stats::compute_stats;
use crate::stats::count_aborted;
use crate::stats::count_failed;
use crate::stats::count_passed;

verus! {

/// A named, zero-argument unit of work: the unit the runner registers and
/// executes. Immutable once registered.
pub struct TestCase<B> {
    pub name: String,
    pub body: B,
}

/// The error registration fails with: a second test case under a name that
/// is already registered. Ambiguous result attribution is worse than
/// rejecting early, so this is surfaced at registration, before any test
/// executes.
#[derive(Debug, Clone, PartialEq, Eq)]
pub enum ConfigurationError {
    DuplicateName(String),
}

/// The test runner. It owns the pending test list and the result log
/// exclusively; results are appended, never mutated.
pub struct Runner<B> {
    pending: Vec<TestCase<B>>,
    results: Vec<TestResult>,
}

impl<B: TestBody> Runner<B> {
    /// The result log so far, one view per executed test, in execution
    /// order.
    pub closed spec fn results_view(&self) -> Seq<ResultView> {
        self.results@.map_values(|r: TestResult| r@)
    }

    /// The names of the registered tests that have not run yet, in
    /// registration order.
    pub closed spec fn pending_names(&self) -> Seq<Seq<char>> {
        self.pending@.map_values(|c: TestCase<B>| c.name@)
    }

    /// The bodies of the registered tests that have not run yet, in
    /// registration order.
    pub closed spec fn pending_bodies(&self) -> Seq<B> {
        self.pending@.map_values(|c: TestCase<B>| c.body)
    }

    /// Every name this runner has accepted, executed tests first, each in
    /// registration order.
    pub open spec fn registered_names(&self) -> Seq<Seq<char>> {
        self.results_view().map_values(|r: ResultView| r.name) + self.pending_names()
    }

    /// The runner's invariant: no two registered tests share a name.
    pub open spec fn wf(&self) -> bool {
        forall|i: int, j: int|
            0 <= i < j < self.registered_names().len()
                ==> self.registered_names()[i] != self.registered_names()[j]
    }

    /// What one run leaves behind: no test is pending any more, the log has
    /// grown by exactly one result per previously pending test, the old log
    /// is untouched, and each new result carries the name of its test case
    /// — in registration order — and an outcome its body's declared
    /// behavior against a fresh signal admits.
    pub open spec fn run_post(pre: Self, post: Self) -> bool {
        &&& post.pending_names().len() == 0
        &&& post.results_view().len() == pre.results_view().len() + pre.pending_names().len()
        &&& forall|k: int|
            0 <= k < pre.results_view().len()
                ==> #[trigger] post.results_view()[k] == pre.results_view()[k]
        &&& forall|k: int|
            pre.results_view().len() <= k < post.results_view().len()
                ==> (#[trigger] post.results_view()[k]).name == pre.pending_names()[k
                    - pre.results_view().len()]
        &&& forall|k: int|
            pre.results_view().len() <= k < post.results_view().len()
                ==> result_matches_body(
                    pre.pending_bodies()[k - pre.results_view().len()],
                    #[trigger] post.results_view()[k],
                )
    }

    /// A runner with no tests registered and an empty result log.
    pub fn new() -> (runner: Self)
        ensures
            runner.results_view() == Seq::<ResultView>::empty(),
            runner.pending_names() == Seq::<Seq<char>>::empty(),
            runner.pending_bodies() == Seq::<B>::empty(),
            runner.wf(),
    {
        let runner = Runner { pending: Vec::new(), results: Vec::new() };
        proof {
            assert(runner.results_view() =~= Seq::<ResultView>::empty());
            assert(runner.pending_names() =~= Seq::<Seq<char>>::empty());
            assert(runner.pending_bodies() =~= Seq::<B>::empty());
        }
        runner
    }

    /// Append `case` to the ordered test list. Registration fails — and
    /// leaves the runner unchanged — exactly when a test of the same name
    /// is already registered, whether it has run or is still pending.
    pub fn register(&mut self, case: TestCase<B>) -> (outcome: Result<(), ConfigurationError>)
        ensures
            outcome is Ok <==> !old(self).registered_names().contains(case.name@),
            outcome matches Err(e) ==> {
                &&& e matches ConfigurationError::DuplicateName(n) && n@ == case.name@
                &&& *final(self) == *old(self)
            },
            outcome is Ok ==> {
                &&& final(self).results_view() == old(self).results_view()
                &&& final(self).pending_names() == old(self).pending_names().push(case.name@)
                &&& final(self).pending_bodies() == old(self).pending_bodies().push(case.body)
            },
            old(self).wf() ==> final(self).wf(),
    {
        let mut i: usize = 0;
        while i < self.results.len()
            invariant
                0 <= i <= self.results.len(),
                forall|k: int| 0 <= k < i ==> self.results_view()[k].name != case.name@,
                *self == *old(self),
            decreases self.results.len() - i,
        {
            if self.results[i].name == case.name {
                proof {
                    assert(old(self).registered_names()[i as int] == case.name@);
                }
                return Err(ConfigurationError::DuplicateName(case.name));
            }
            i = i + 1;
        }
        let mut j: usize = 0;
        while j < self.pending.len()
            invariant
                0 <= j <= self.pending.len(),
                forall|k: int| 0 <= k < j ==> self.pending_names()[k] != case.name@,
                forall|k: int|
                    0 <= k < self.results_view().len()
                        ==> self.results_view()[k].name != case.name@,
                *self == *old(self),
            decreases self.pending.len() - j,
        {
            if self.pending[j].name == case.name {
                proof {
                    assert(old(self).registered_names()[old(self).results_view().len() + j]
                        == case.name@);
                }
                return Err(ConfigurationError::DuplicateName(case.name));
            }
            j = j + 1;
        }
        proof {
            assert(!old(self).registered_names().contains(case.name@)) by {
                assert forall|k: int|
                    0 <= k < old(self).registered_names().len() implies old(
                    self,
                ).registered_names()[k] != case.name@ by {
                    if k < old(self).results_view().len() {
                        assert(old(self).registered_names()[k] == old(self).results_view()[k].name);
                    } else {
                        assert(old(self).registered_names()[k] == old(self).pending_names()[k - old(
                            self,
                        ).results_view().len()]);
                    }
                }
            }
        }
        let ghost pre = *self;
        self.pending.push(case);
        proof {
            assert(self.results_view() =~= pre.results_view());
            assert(self.pending_names() =~= pre.pending_names().push(case.name@));
            assert(self.pending_bodies() =~= pre.pending_bodies().push(case.body));
            assert(self.registered_names() =~= pre.registered_names().push(case.name@));
            if pre.wf() {
                assert forall|i0: int, j0: int|
                    0 <= i0 < j0 < self.registered_names().len() implies self.registered_names()[i0]
                    != self.registered_names()[j0] by {
                    if j0 == self.registered_names().len() - 1 {
                        assert(!pre.registered_names().contains(case.name@));
                        assert(pre.registered_names()[i0] != case.name@);
                    }
                }
            }
        }
        Ok(())
    }

    /// Execute every pending test, in registration order, each against a
    /// fresh signal and under failure isolation: whatever a body leaves
    /// behind, its result is appended and the run moves on to the next
    /// test.
    pub fn run(&mut self)
        ensures
            Self::run_post(*old(self), *final(self)),
            final(self).registered_names() == old(self).registered_names(),
            old(self).wf() ==> final(self).wf(),
    {
        let ghost pre = *self;
        let ghost mut done: int = 0;
        proof {
            assert(self.pending@ =~= pre.pending@.skip(0));
        }
        while self.pending.len() > 0
            invariant
                0 <= done <= pre.pending@.len(),
                self.pending@ == pre.pending@.skip(done),
                self.results@.len() == pre.results@.len() + done,
                forall|k: int|
                    0 <= k < pre.results_view().len()
                        ==> #[trigger] self.results_view()[k] == pre.results_view()[k],
                forall|k: int|
                    pre.results_view().len() <= k < pre.results_view().len() + done
                        ==> (#[trigger] self.results_view()[k]).name == pre.pending_names()[k
                            - pre.results_view().len()],
                forall|k: int|
                    pre.results_view().len() <= k < pre.results_view().len() + done
                        ==> result_matches_body(
                            pre.pending_bodies()[k - pre.results_view().len()],
                            #[trigger] self.results_view()[k],
                        ),
            decreases self.pending.len(),
        {
            let ghost at_start = *self;
            let mut case = self.pending.remove(0);
            proof {
                assert(case == pre.pending@[done]);
                assert(self.pending@ =~= pre.pending@.skip(done + 1));
            }
            let mut signal = OutcomeSignal::new();
            let completion = case.body.run(&mut signal);
            let ghost post_signal = signal@;
            let result = conclude(case.name, signal, completion);
            proof {
                assert(pre.pending@[done].body.behavior(
                    crate::signal::fresh_signal(),
                    post_signal,
                    completion@,
                ));
                assert(result_matches_body(pre.pending@[done].body, result@));
            }
            let ghost before_push = *self;
            self.results.push(result);
            proof {
                assert(before_push.results_view() == at_start.results_view());
                assert(self.results_view() =~= before_push.results_view().push(result@));
                assert(pre.pending_bodies()[done] == pre.pending@[done].body);
                assert(pre.pending_names()[done] == pre.pending@[done].name@);
                assert(self.results_view()[pre.results_view().len() + done] == result@);
                done = done + 1;
            }
        }
        proof {
            assert(done == pre.pending@.len());
            assert(self.pending_names() =~= Seq::<Seq<char>>::empty());
            assert(self.registered_names() =~= pre.registered_names()) by {
                assert forall|k: int|
                    0 <= k < pre.registered_names().len() implies self.registered_names()[k]
                    == pre.registered_names()[k] by {
                    if k < pre.results_view().len() {
                        assert(self.results_view()[k] == pre.results_view()[k]);
                    } else {
                        assert((self.results_view()[k]).name == pre.pending_names()[k
                            - pre.results_view().len()]);
                    }
                }
            }
        }
    }

    /// Execute `fixture.setup()` once, then every pending test as [`run`]
    /// does, then `fixture.teardown()` once — unconditionally: one setup
    /// and one teardown per call, regardless of how the wrapped tests went.
    ///
    /// [`run`]: Runner::run
    pub fn run_test_fixture<FX: Fixture>(&mut self, fixture: &mut FX)
        ensures
            Self::run_post(*old(self), *final(self)),
            final(self).registered_names() == old(self).registered_names(),
            old(self).wf() ==> final(self).wf(),
            final(fixture).setup_count() == old(fixture).setup_count() + 1,
            final(fixture).teardown_count() == old(fixture).teardown_count() + 1,
    {
        fixture.setup();
        self.run();
        fixture.teardown();
    }

    /// Recompute the statistics of the run so far from the result log.
    pub fn stats(&self) -> (stats: Stats)
        ensures
            stats.total == self.results_view().len(),
            stats.passed == count_passed(self.results_view()),
            stats.failed == count_failed(self.results_view()),
            stats.aborted == count_aborted(self.results_view()),
    {
        compute_stats(&self.results)
    }

    /// Render the textual report of the run so far: the counts, then one
    /// line per non-pass result with the test's name and its message.
    pub fn report(&self) -> (s: String)
        ensures
            s@ == report_chars(self.results_view()),
    {
        render_report(&self.results)
    }

    /// The result log: one entry per executed test, in execution order.
    pub fn results(&self) -> (results: &Vec<TestResult>)
        ensures
            results@.map_values(|r: TestResult| r@) == self.results_view(),
    {
        &self.results
    }
}

} // verus!
