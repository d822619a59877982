use xunit::Completion;
use xunit::ConfigurationError;
use xunit::Fixture;
use xunit::NullFixture;
use xunit::Outcome;
use xunit::OutcomeSignal;
use xunit::Runner;
use xunit::TestBody;
use xunit::TestCase;

/// A scriptable test body: each variant drives the outcome signal one way.
enum ScriptBody {
    Quiet,
    MarkPass,
    MarkFail(String),
    Abort(String),
    MarkPassTwice,
    MarkFailThenPass(String),
}

impl TestBody for ScriptBody {
    fn run(&mut self, signal: &mut OutcomeSignal) -> Completion {
        match self {
            ScriptBody::Quiet => Completion::Normal,
            ScriptBody::MarkPass => {
                signal.mark_pass();
                Completion::Normal
            }
            ScriptBody::MarkFail(m) => {
                signal.mark_fail(m.as_str());
                Completion::Normal
            }
            ScriptBody::Abort(r) => Completion::Abort(r.clone()),
            ScriptBody::MarkPassTwice => {
                signal.mark_pass();
                signal.mark_pass();
                Completion::Normal
            }
            ScriptBody::MarkFailThenPass(m) => {
                signal.mark_fail(m.as_str());
                signal.mark_pass();
                Completion::Normal
            }
        }
    }
}

fn case(name: &str, body: ScriptBody) -> TestCase<ScriptBody> {
    TestCase { name: name.to_string(), body }
}

/// A fixture that counts how often each side of the protocol ran.
struct CountingFixture {
    setups: u32,
    teardowns: u32,
}

impl Fixture for CountingFixture {
    fn setup(&mut self) {
        self.setups += 1;
    }

    fn teardown(&mut self) {
        self.teardowns += 1;
    }
}

#[test]
fn passing_case() {
    let mut runner = Runner::new();
    assert!(runner.register(case("passing_case", ScriptBody::MarkPass)).is_ok());
    runner.run();
    let results = runner.results();
    assert_eq!(results.len(), 1);
    assert_eq!(results[0].outcome, Outcome::Passed);
}

#[test]
fn failing_case() {
    let mut runner = Runner::new();
    assert!(runner
        .register(case(
            "failing_case",
            ScriptBody::MarkFail("This test intentionally fails".to_string()),
        ))
        .is_ok());
    runner.run();
    let results = runner.results();
    assert_eq!(results.len(), 1);
    assert_eq!(
        results[0].outcome,
        Outcome::Failed("This test intentionally fails".to_string())
    );
}

#[test]
fn one_result_per_test_in_registration_order() {
    let mut runner = Runner::new();
    assert!(runner.register(case("first", ScriptBody::Quiet)).is_ok());
    assert!(runner.register(case("second", ScriptBody::MarkFail("x".to_string()))).is_ok());
    assert!(runner.register(case("third", ScriptBody::Abort("y".to_string()))).is_ok());
    assert!(runner.register(case("fourth", ScriptBody::MarkPass)).is_ok());
    runner.run();
    let results = runner.results();
    assert_eq!(results.len(), 4);
    assert_eq!(results[0].name, "first");
    assert_eq!(results[1].name, "second");
    assert_eq!(results[2].name, "third");
    assert_eq!(results[3].name, "fourth");
}

#[test]
fn untouched_body_is_an_implicit_pass() {
    let mut runner = Runner::new();
    assert!(runner.register(case("quiet", ScriptBody::Quiet)).is_ok());
    runner.run();
    assert_eq!(runner.results()[0].outcome, Outcome::Passed);
    assert!(!runner.results()[0].double_report);
}

#[test]
fn mark_fail_is_recorded_with_its_message() {
    let mut runner = Runner::new();
    assert!(runner.register(case("boom", ScriptBody::MarkFail("X".to_string()))).is_ok());
    runner.run();
    assert_eq!(runner.results()[0].outcome, Outcome::Failed("X".to_string()));
}

#[test]
fn aborting_test_is_isolated_and_the_run_goes_on() {
    let mut runner = Runner::new();
    assert!(runner.register(case("crashes", ScriptBody::Abort("fault".to_string()))).is_ok());
    assert!(runner.register(case("survives", ScriptBody::MarkPass)).is_ok());
    runner.run();
    let results = runner.results();
    assert_eq!(results.len(), 2);
    assert_eq!(results[0].outcome, Outcome::Aborted("fault".to_string()));
    assert_eq!(results[1].outcome, Outcome::Passed);
}

#[test]
fn teardown_runs_exactly_once_whatever_the_tests_do() {
    let mut runner = Runner::new();
    assert!(runner.register(case("bad", ScriptBody::MarkFail("no".to_string()))).is_ok());
    assert!(runner.register(case("worse", ScriptBody::Abort("crash".to_string()))).is_ok());
    let mut fixture = CountingFixture { setups: 0, teardowns: 0 };
    runner.run_test_fixture(&mut fixture);
    assert_eq!(fixture.setups, 1);
    assert_eq!(fixture.teardowns, 1);
    assert_eq!(runner.results().len(), 2);
}

#[test]
fn duplicate_name_is_rejected_before_anything_runs() {
    let mut runner = Runner::new();
    assert!(runner.register(case("dup", ScriptBody::MarkPass)).is_ok());
    let second = runner.register(case("dup", ScriptBody::MarkFail("other".to_string())));
    assert_eq!(
        second,
        Err(ConfigurationError::DuplicateName("dup".to_string()))
    );
    assert_eq!(runner.results().len(), 0);
    runner.run();
    let results = runner.results();
    assert_eq!(results.len(), 1);
    assert_eq!(results[0].outcome, Outcome::Passed);
}

#[test]
fn duplicate_of_an_executed_name_is_also_rejected() {
    let mut runner = Runner::new();
    assert!(runner.register(case("ran", ScriptBody::MarkPass)).is_ok());
    runner.run();
    let again = runner.register(case("ran", ScriptBody::MarkPass));
    assert_eq!(again, Err(ConfigurationError::DuplicateName("ran".to_string())));
}

#[test]
fn fixture_scenario_one_pass_one_fail() {
    let mut runner = Runner::new();
    assert!(runner.register(case("passing_case", ScriptBody::MarkPass)).is_ok());
    assert!(runner
        .register(case(
            "failing_case",
            ScriptBody::MarkFail("This test intentionally fails".to_string()),
        ))
        .is_ok());
    let mut fixture = CountingFixture { setups: 0, teardowns: 0 };
    runner.run_test_fixture(&mut fixture);
    assert_eq!(fixture.setups, 1);
    assert_eq!(fixture.teardowns, 1);
    let stats = runner.stats();
    assert_eq!(stats.total, 2);
    assert_eq!(stats.passed, 1);
    assert_eq!(stats.failed, 1);
    assert_eq!(stats.aborted, 0);
    assert!(!stats.all_passed());
    let report = runner.report();
    assert!(report.contains("failing_case: This test intentionally fails"));
}

#[test]
fn abort_scenario_counts_one_aborted() {
    let mut runner = Runner::new();
    assert!(runner.register(case("crashes", ScriptBody::Abort("fault".to_string()))).is_ok());
    runner.run();
    let stats = runner.stats();
    assert_eq!(stats.total, 1);
    assert_eq!(stats.passed, 0);
    assert_eq!(stats.failed, 0);
    assert_eq!(stats.aborted, 1);
    assert!(!stats.all_passed());
}

#[test]
fn double_report_is_a_diagnostic_not_an_overwrite() {
    let mut runner = Runner::new();
    assert!(runner.register(case("twice", ScriptBody::MarkPassTwice)).is_ok());
    assert!(runner
        .register(case("fail_then_pass", ScriptBody::MarkFailThenPass("first".to_string())))
        .is_ok());
    runner.run();
    let results = runner.results();
    assert_eq!(results[0].outcome, Outcome::Passed);
    assert!(results[0].double_report);
    assert_eq!(results[1].outcome, Outcome::Failed("first".to_string()));
    assert!(results[1].double_report);
}

#[test]
fn all_passed_when_nothing_failed() {
    let mut runner = Runner::new();
    assert!(runner.register(case("quiet", ScriptBody::Quiet)).is_ok());
    assert!(runner.register(case("loud", ScriptBody::MarkPass)).is_ok());
    runner.run();
    let stats = runner.stats();
    assert_eq!(stats.total, 2);
    assert_eq!(stats.passed, 2);
    assert!(stats.all_passed());
}

#[test]
fn later_registration_appends_to_the_log() {
    let mut runner = Runner::new();
    assert!(runner.register(case("early", ScriptBody::MarkPass)).is_ok());
    runner.run();
    assert!(runner.register(case("late", ScriptBody::MarkFail("m".to_string()))).is_ok());
    runner.run();
    let results = runner.results();
    assert_eq!(results.len(), 2);
    assert_eq!(results[0].name, "early");
    assert_eq!(results[1].name, "late");
    assert_eq!(results[0].outcome, Outcome::Passed);
    assert_eq!(results[1].outcome, Outcome::Failed("m".to_string()));
}

#[test]
fn null_fixture_runs_the_protocol() {
    let mut runner = Runner::new();
    assert!(runner.register(case("quiet", ScriptBody::Quiet)).is_ok());
    let mut fixture = NullFixture::new();
    runner.run_test_fixture(&mut fixture);
    assert_eq!(runner.results().len(), 1);
}
