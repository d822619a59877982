//! The textual report over a result log: the four counts, then one line per
//! non-pass result with the test's name and its message or reason — enough
//! to locate every failure without re-running. `report_chars` states the
//! exact character sequence, and `render_report` produces it.

use vstd::prelude::*;
use vstd::string::StringExecFns;

use crate::outcome::Outcome;
use crate::outcome::OutcomeView;
use crate::outcome::ResultView;
use crate::outcome::TestResult;
use crate::stats::compute_stats;
use crate::stats::count_aborted;
use crate::stats::count_failed;
use crate::stats::count_passed;

verus! {

/// The decimal digit character for `d`.
pub open spec fn digit_char(d: nat) -> char {
    if d == 0 {
        '0'
    } else if d == 1 {
        '1'
    } else if d == 2 {
        '2'
    } else if d == 3 {
        '3'
    } else if d == 4 {
        '4'
    } else if d == 5 {
        '5'
    } else if d == 6 {
        '6'
    } else if d == 7 {
        '7'
    } else if d == 8 {
        '8'
    } else {
        '9'
    }
}

/// The decimal rendering of `n`: most significant digit first, no leading
/// zeros except for `n == 0` itself.
pub open spec fn dec_chars(n: nat) -> Seq<char>
    decreases n,
{
    if n < 10 {
        seq![digit_char(n)]
    } else {
        dec_chars(n / 10).push(digit_char(n % 10))
    }
}

/// The one-character string for a single decimal digit.
fn digit_str(d: usize) -> (s: &'static str)
    requires
        d < 10,
    ensures
        s@ == seq![digit_char(d as nat)],
{
    let s: &'static str = if d == 0 {
        "0"
    } else if d == 1 {
        "1"
    } else if d == 2 {
        "2"
    } else if d == 3 {
        "3"
    } else if d == 4 {
        "4"
    } else if d == 5 {
        "5"
    } else if d == 6 {
        "6"
    } else if d == 7 {
        "7"
    } else if d == 8 {
        "8"
    } else {
        "9"
    };
    proof {
        reveal_strlit("0");
        reveal_strlit("1");
        reveal_strlit("2");
        reveal_strlit("3");
        reveal_strlit("4");
        reveal_strlit("5");
        reveal_strlit("6");
        reveal_strlit("7");
        reveal_strlit("8");
        reveal_strlit("9");
        assert(s@ =~= seq![digit_char(d as nat)]);
    }
    s
}

/// Render `n` in decimal.
pub fn usize_to_dec(n: usize) -> (s: String)
    ensures
        s@ == dec_chars(n as nat),
    decreases n,
{
    if n < 10 {
        digit_str(n).to_owned()
    } else {
        let mut s = usize_to_dec(n / 10);
        s.append(digit_str(n % 10));
        proof {
            assert(s@ =~= dec_chars(n as nat));
        }
        s
    }
}

/// The report line for one result: empty for a pass, and the test's name
/// with its failure message or abort reason otherwise.
pub open spec fn line_of(r: ResultView) -> Seq<char> {
    match r.outcome {
        OutcomeView::Passed => Seq::<char>::empty(),
        OutcomeView::Failed(m) => r.name + ": "@ + m + "\n"@,
        OutcomeView::Aborted(m) => r.name + ": "@ + m + "\n"@,
    }
}

/// The report lines of every non-pass result in `rs`, in log order.
pub open spec fn failure_lines(rs: Seq<ResultView>) -> Seq<char>
    decreases rs.len(),
{
    if rs.len() == 0 {
        Seq::<char>::empty()
    } else {
        failure_lines(rs.drop_last()) + line_of(rs.last())
    }
}

/// The report's first line: the four counts of the log.
pub open spec fn header_chars(rs: Seq<ResultView>) -> Seq<char> {
    "total: "@ + dec_chars(rs.len()) + ", passed: "@ + dec_chars(count_passed(rs))
        + ", failed: "@ + dec_chars(count_failed(rs)) + ", aborted: "@ + dec_chars(
        count_aborted(rs),
    ) + "\n"@
}

/// The whole report: the counts, then the line of every non-pass result.
pub open spec fn report_chars(rs: Seq<ResultView>) -> Seq<char> {
    header_chars(rs) + failure_lines(rs)
}

/// Render the report of a result log.
pub fn render_report(results: &Vec<TestResult>) -> (s: String)
    ensures
        s@ == report_chars(results@.map_values(|r: TestResult| r@)),
{
    let ghost vs = results@.map_values(|r: TestResult| r@);
    let stats = compute_stats(results);
    let mut s = String::new();
    s.append("total: ");
    let total_dec = usize_to_dec(stats.total);
    s.append(total_dec.as_str());
    s.append(", passed: ");
    let passed_dec = usize_to_dec(stats.passed);
    s.append(passed_dec.as_str());
    s.append(", failed: ");
    let failed_dec = usize_to_dec(stats.failed);
    s.append(failed_dec.as_str());
    s.append(", aborted: ");
    let aborted_dec = usize_to_dec(stats.aborted);
    s.append(aborted_dec.as_str());
    s.append("\n");
    proof {
        assert(s@ =~= header_chars(vs));
        assert(failure_lines(vs.take(0)) =~= Seq::<char>::empty());
        assert(s@ =~= header_chars(vs) + failure_lines(vs.take(0)));
    }
    let mut i: usize = 0;
    while i < results.len()
        invariant
            0 <= i <= results.len(),
            vs == results@.map_values(|r: TestResult| r@),
            vs.len() == results@.len(),
            s@ == header_chars(vs) + failure_lines(vs.take(i as int)),
        decreases results.len() - i,
    {
        proof {
            assert(vs.take(i + 1).drop_last() =~= vs.take(i as int));
            assert(vs.take(i + 1).last() == vs[i as int]);
        }
        let ghost before = s@;
        match &results[i].outcome {
            Outcome::Passed => {
                proof {
                    assert(line_of(vs[i as int]) =~= Seq::<char>::empty());
                }
            },
            Outcome::Failed(m) => {
                s.append(results[i].name.as_str());
                s.append(": ");
                s.append(m.as_str());
                s.append("\n");
                proof {
                    assert(s@ =~= before + line_of(vs[i as int]));
                }
            },
            Outcome::Aborted(m) => {
                s.append(results[i].name.as_str());
                s.append(": ");
                s.append(m.as_str());
                s.append("\n");
                proof {
                    assert(s@ =~= before + line_of(vs[i as int]));
                }
            },
        }
        proof {
            assert(s@ =~= header_chars(vs) + failure_lines(vs.take(i + 1)));
        }
        i = i + 1;
    }
    proof {
        assert(vs.take(vs.len() as int) =~= vs);
    }
    s
}

} // verus!
