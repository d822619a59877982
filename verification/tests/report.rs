use xunit::AbortingBody;
use xunit::Completion;
use xunit::FailingBody;
use xunit::Outcome;
use xunit::OutcomeSignal;
use xunit::Runner;
use xunit::SignalState;
use xunit::SilentBody;
use xunit::TestCase;
use xunit::outcome::conclude;
use xunit::report::render_report;
use xunit::report::usize_to_dec;
use xunit::stats::compute_stats;

#[test]
fn decimal_rendering_is_exact() {
    assert_eq!(usize_to_dec(0), "0");
    assert_eq!(usize_to_dec(7), "7");
    assert_eq!(usize_to_dec(10), "10");
    assert_eq!(usize_to_dec(907), "907");
    assert_eq!(usize_to_dec(120043), "120043");
}

#[test]
fn report_of_an_empty_log() {
    let runner = Runner::<SilentBody>::new();
    assert_eq!(runner.report(), "total: 0, passed: 0, failed: 0, aborted: 0\n");
    assert!(runner.stats().all_passed());
}

#[test]
fn report_of_a_single_pass() {
    let mut runner = Runner::new();
    assert!(runner.register(TestCase { name: "only".to_string(), body: SilentBody }).is_ok());
    runner.run();
    assert_eq!(runner.report(), "total: 1, passed: 1, failed: 0, aborted: 0\n");
}

#[test]
fn report_lists_every_non_pass_result() {
    let mut runner = Runner::new();
    assert!(runner
        .register(TestCase {
            name: "breaks".to_string(),
            body: AbortingBody { reason: "fault".to_string() },
        })
        .is_ok());
    runner.run();
    assert_eq!(
        runner.report(),
        "total: 1, passed: 0, failed: 0, aborted: 1\nbreaks: fault\n"
    );
}

#[test]
fn report_counts_reach_two_digits() {
    let mut runner = Runner::new();
    for i in 0..12 {
        let name = format!("case_{}", i);
        assert!(runner.register(TestCase { name, body: SilentBody }).is_ok());
    }
    runner.run();
    let report = runner.report();
    assert!(report.starts_with("total: 12, passed: 12, failed: 0, aborted: 0\n"));
}

#[test]
fn failing_body_reports_its_message() {
    let mut runner = Runner::new();
    assert!(runner
        .register(TestCase {
            name: "told_to_fail".to_string(),
            body: FailingBody { message: "as instructed".to_string() },
        })
        .is_ok());
    runner.run();
    assert_eq!(
        runner.results()[0].outcome,
        Outcome::Failed("as instructed".to_string())
    );
    assert_eq!(
        runner.report(),
        "total: 1, passed: 0, failed: 1, aborted: 0\ntold_to_fail: as instructed\n"
    );
}

#[test]
fn compute_stats_counts_each_kind() {
    let results = vec![
        conclude("a".to_string(), OutcomeSignal::new(), Completion::Normal),
        conclude(
            "b".to_string(),
            OutcomeSignal::new(),
            Completion::Abort("r".to_string()),
        ),
        {
            let mut signal = OutcomeSignal::new();
            signal.mark_fail("m");
            conclude("c".to_string(), signal, Completion::Normal)
        },
    ];
    let stats = compute_stats(&results);
    assert_eq!(stats.total, 3);
    assert_eq!(stats.passed, 1);
    assert_eq!(stats.failed, 1);
    assert_eq!(stats.aborted, 1);
    assert_eq!(render_report(&results), "total: 3, passed: 1, failed: 1, aborted: 1\nb: r\nc: m\n");
}

#[test]
fn a_set_signal_outlives_an_abort() {
    let mut signal = OutcomeSignal::new();
    signal.mark_fail("first verdict");
    let result = conclude(
        "decided".to_string(),
        signal,
        Completion::Abort("late crash".to_string()),
    );
    assert_eq!(result.outcome, Outcome::Failed("first verdict".to_string()));
}

#[test]
fn signal_keeps_its_first_write() {
    let mut signal = OutcomeSignal::new();
    assert_eq!(*signal.state(), SignalState::Unset);
    signal.mark_fail("X");
    assert_eq!(*signal.state(), SignalState::Fail("X".to_string()));
    assert!(!signal.double_reported());
    signal.mark_pass();
    assert_eq!(*signal.state(), SignalState::Fail("X".to_string()));
    assert!(signal.double_reported());
    assert_eq!(signal.into_state(), SignalState::Fail("X".to_string()));
}
