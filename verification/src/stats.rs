//! Statistics over a completed run. The counts are always derived from the
//! result log — never independently updated counters — so they cannot
//! drift from what was recorded.

use vstd::prelude::*;

use crate::outcome::ResultView;
use crate::outcome::TestResult;

verus! {

/// How many results in `rs` are recorded as `Passed`.
pub open spec fn count_passed(rs: Seq<ResultView>) -> nat
    decreases rs.len(),
{
    if rs.len() == 0 {
        0
    } else {
        count_passed(rs.drop_last()) + if rs.last().outcome is Passed {
            1nat
        } else {
            0nat
        }
    }
}

/// How many results in `rs` are recorded as `Failed`.
pub open spec fn count_failed(rs: Seq<ResultView>) -> nat
    decreases rs.len(),
{
    if rs.len() == 0 {
        0
    } else {
        count_failed(rs.drop_last()) + if rs.last().outcome is Failed {
            1nat
        } else {
            0nat
        }
    }
}

/// How many results in `rs` are recorded as `Aborted`.
pub open spec fn count_aborted(rs: Seq<ResultView>) -> nat
    decreases rs.len(),
{
    if rs.len() == 0 {
        0
    } else {
        count_aborted(rs.drop_last()) + if rs.last().outcome is Aborted {
            1nat
        } else {
            0nat
        }
    }
}

/// Every result is exactly one of passed, failed or aborted, so the three
/// counts partition the log.
pub proof fn lemma_counts_partition(rs: Seq<ResultView>)
    ensures
        count_passed(rs) + count_failed(rs) + count_aborted(rs) == rs.len(),
    decreases rs.len(),
{
    if rs.len() > 0 {
        lemma_counts_partition(rs.drop_last());
    }
}

/// Pass/fail/abort counts derived from a result log.
#[derive(Clone, Copy, PartialEq, Eq, Structural, Debug)]
pub struct Stats {
    pub total: usize,
    pub passed: usize,
    pub failed: usize,
    pub aborted: usize,
}

impl Stats {
    /// The run's success flag: no failure and no abort was recorded.
    pub fn all_passed(&self) -> (ok: bool)
        ensures
            ok == (self.failed == 0 && self.aborted == 0),
    {
        self.failed == 0 && self.aborted == 0
    }
}

/// Recompute the statistics of a result log: the total is the log's
/// length, and each count is the number of results with that outcome.
pub fn compute_stats(results: &Vec<TestResult>) -> (stats: Stats)
    ensures
        stats.total == results@.len(),
        stats.passed == count_passed(results@.map_values(|r: TestResult| r@)),
        stats.failed == count_failed(results@.map_values(|r: TestResult| r@)),
        stats.aborted == count_aborted(results@.map_values(|r: TestResult| r@)),
{
    let ghost vs = results@.map_values(|r: TestResult| r@);
    let mut passed: usize = 0;
    let mut failed: usize = 0;
    let mut aborted: usize = 0;
    let mut i: usize = 0;
    proof {
        assert(vs.take(0) =~= Seq::<ResultView>::empty());
    }
    while i < results.len()
        invariant
            0 <= i <= results.len(),
            vs == results@.map_values(|r: TestResult| r@),
            vs.len() == results@.len(),
            passed == count_passed(vs.take(i as int)),
            failed == count_failed(vs.take(i as int)),
            aborted == count_aborted(vs.take(i as int)),
            passed + failed + aborted == i,
        decreases results.len() - i,
    {
        proof {
            lemma_counts_partition(vs.take(i as int));
            assert(vs.take(i + 1).drop_last() =~= vs.take(i as int));
            assert(vs.take(i + 1).last() == vs[i as int]);
        }
        match &results[i].outcome {
            crate::outcome::Outcome::Passed => {
                passed = passed + 1;
            },
            crate::outcome::Outcome::Failed(_) => {
                failed = failed + 1;
            },
            crate::outcome::Outcome::Aborted(_) => {
                aborted = aborted + 1;
            },
        }
        i = i + 1;
    }
    proof {
        assert(vs.take(vs.len() as int) =~= vs);
    }
    Stats { total: results.len(), passed, failed, aborted }
}

} // verus!
