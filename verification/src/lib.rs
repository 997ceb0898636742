//! A self-hosted integration-test harness: test descriptors collected into a
//! registry are executed one at a time against a caller-supplied, lifecycle-
//! managed environment, with per-test failure isolation and a timed pass/fail
//! report.
//!
//! The runner itself never invokes a test body: running a body and catching
//! its abnormal termination (or driving a suspend-capable computation to
//! completion) is the executor's job, a callable the caller hands to the
//! runner together with the registry. Both execution models are thereby
//! unified behind one reporting protocol, stated over `BodyOutcome`.

use vstd::prelude::*;

pub mod clock;
pub mod laws;
pub mod logger;
pub mod meta;
pub mod registry;
pub mod test_runner;

verus! {

/// The capability an environment must offer the runner: lifecycle operations
/// around a whole run, and hooks around each test. The runner owns the value
/// and threads it through `start` and `stop`; hooks are called once per test,
/// symmetrically, whatever the test's outcome. Failures of these operations
/// are not isolated by the runner: keeping them infallible is the
/// implementor's responsibility.
pub trait TestEnvironment: Sized {
    /// Performs setup; must complete before any test runs. If it fails by
    /// raising, the whole run aborts without executing any test and without
    /// calling `stop`.
    fn start(self) -> Self;

    /// Called once immediately before every test body.
    fn before_each_test(&self) {
    }

    /// Called once immediately after every test body, whatever its outcome.
    fn after_each_test(&self) {
    }

    /// Performs teardown after all tests have run.
    fn stop(self) -> Self;
}

/// Per-test outcome: the test's name, whether it passed, and how long its
/// body ran. The duration is wall-clock time and stays opaque to contracts.
pub struct TestResult {
    pub name: String,
    pub success: bool,
    pub duration: std::time::Duration,
}

impl TestResult {
    /// The part of a result the contracts speak of: the name and whether the
    /// test passed.
    pub open spec fn report_entry(&self) -> (Seq<char>, bool) {
        (self.name@, self.success)
    }
}

/// Aggregate of one run: every executed descriptor yields exactly one
/// `TestResult`, placed in exactly one of the two sequences, partitioned by
/// `success`; plus the durations of the three phases of the run.
pub struct TestResults {
    pub success_tests: Vec<TestResult>,
    pub failed_tests: Vec<TestResult>,
    pub start_up_duration: std::time::Duration,
    pub tests_duration: std::time::Duration,
    pub stop_duration: std::time::Duration,
}

/// Log one informational line from an environment implementation.
pub fn log_env_info(message: &str) {
    crate::logger::log_static_info(message);
}

} // verus!
