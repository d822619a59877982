//! A minimal unit-test framework: test registration, a setup/teardown
//! fixture protocol, pass/fail signaling, and a runner that executes the
//! registered tests in order, isolates abnormal termination per test, and
//! aggregates the results into statistics and a textual report.

pub mod body;
pub mod fixture;
pub mod outcome;
pub mod report;
pub mod runner;
pub mod signal;
pub mod stats;

pub use body::AbortingBody;
pub use body::FailingBody;
pub use body::SilentBody;
pub use body::TestBody;
pub use fixture::Fixture;
pub use fixture::NullFixture;
pub use outcome::Completion;
pub use outcome::CompletionView;
pub use outcome::Outcome;
pub use outcome::OutcomeView;
pub use outcome::ResultView;
pub use outcome::TestResult;
pub use runner::ConfigurationError;
pub use runner::Runner;
pub use runner::TestCase;
pub use signal::OutcomeSignal;
pub use signal::SignalState;
pub use signal::SignalStateView;
pub use signal::SignalView;
pub use stats::Stats;
