use vstd::prelude::*;
use vstd::string::StringExecFns;

use crate::clock::{duration_display, elapsed_since, instant_now};
use crate::logger::{
    emit_summary, emit_test_count, log_error_static_info, log_error_test, log_static_info,
    log_test,
};
use crate::meta::{outcome_passed, BodyOutcome, IntegrationTestMeta};
use crate::registry::Registry;
use crate::{TestEnvironment, TestResult, TestResults};

verus! {

/// The report entries of a sequence of results: name and pass flag of each.
pub open spec fn entries_view(results: Seq<TestResult>) -> Seq<(Seq<char>, bool)> {
    results.map_values(|r: TestResult| r.report_entry())
}

/// The report entries a run owes for `tests` under `outcomes`: one entry per
/// test whose outcome's pass flag equals `want_pass`, in enumeration order.
pub open spec fn entries_of<S, A>(
    tests: Seq<IntegrationTestMeta<S, A>>,
    outcomes: Seq<BodyOutcome>,
    want_pass: bool,
) -> Seq<(Seq<char>, bool)>
    decreases tests.len(),
{
    if tests.len() == 0 || outcomes.len() == 0 {
        Seq::empty()
    } else if outcome_passed(outcomes.last()) == want_pass {
        entries_of(tests.drop_last(), outcomes.drop_last(), want_pass).push(
            (tests.last().name@, want_pass),
        )
    } else {
        entries_of(tests.drop_last(), outcomes.drop_last(), want_pass)
    }
}

/// `outcomes` is, descriptor by descriptor, a possible answer of `execute`
/// run against `env` over `tests`.
pub open spec fn run_admissible<T, S, A, F: Fn(&T, &IntegrationTestMeta<S, A>) -> BodyOutcome>(
    execute: F,
    env: T,
    tests: Seq<IntegrationTestMeta<S, A>>,
    outcomes: Seq<BodyOutcome>,
) -> bool {
    &&& outcomes.len() == tests.len()
    &&& forall|k: int|
        0 <= k < tests.len() ==> call_ensures(execute, (&env, &tests[k]), #[trigger] outcomes[k])
}

/// What a finished run promises of its report: the two sequences partition
/// the enumerated descriptors by success, and for some environment value and
/// some admissible answer of the executor on each descriptor, they are
/// exactly the entries those answers dictate, in enumeration order.
pub open spec fn report_of_run<T, S, A, F: Fn(&T, &IntegrationTestMeta<S, A>) -> BodyOutcome>(
    execute: F,
    tests: Seq<IntegrationTestMeta<S, A>>,
    results: TestResults,
) -> bool {
    &&& results.success_tests@.len() + results.failed_tests@.len() == tests.len()
    &&& forall|j: int|
        0 <= j < results.success_tests@.len() ==> (#[trigger] results.success_tests@[j]).success
    &&& forall|j: int|
        0 <= j < results.failed_tests@.len() ==> !(#[trigger] results.failed_tests@[j]).success
    &&& exists|env: T, outcomes: Seq<BodyOutcome>|
        {
            &&& #[trigger] run_admissible(execute, env, tests, outcomes)
            &&& entries_view(results.success_tests@) == entries_of(tests, outcomes, true)
            &&& entries_view(results.failed_tests@) == entries_of(tests, outcomes, false)
        }
}

/// The fatal outcome `run` reports when any test failed. It carries the full
/// report; its message is the literal a process-level caller raises.
pub struct AggregateFailure {
    pub results: TestResults,
}

impl AggregateFailure {
    /// The fatal message: callers that want a standard pass/fail exit code
    /// raise it verbatim and map it to non-zero.
    pub fn message(&self) -> (m: String)
        ensures
            m@ == "Some tests are Failing"@,
    {
        String::from_str("Some tests are Failing")
    }
}

proof fn lemma_entries_view_push(results: Seq<TestResult>, r: TestResult)
    ensures
        entries_view(results.push(r)) == entries_view(results).push(r.report_entry()),
{
    assert(entries_view(results.push(r)) =~= entries_view(results).push(r.report_entry()));
}

/// Drives one full run: start the environment, run every registered test
/// between its hooks with failure isolation and timing, stop the
/// environment, and aggregate the results. A runner instance executes at
/// most one run: the run operations consume it.
pub struct TestRunner<T: TestEnvironment> {
    test_environment: T,
}

impl<T: TestEnvironment> TestRunner<T> {
    /// The environment the runner currently holds.
    pub closed spec fn env(&self) -> T {
        self.test_environment
    }

    pub fn new(test_environment: T) -> (r: TestRunner<T>)
        ensures
            r.env() == test_environment,
    {
        TestRunner { test_environment }
    }

    /// Runs one test body through the executor, measures it, logs the
    /// outcome, and classifies it into a result: the result carries the
    /// test's name and succeeds exactly when the executor reported a pass.
    pub fn run_test<S, A, F: Fn(&T, &IntegrationTestMeta<S, A>) -> BodyOutcome + Copy>(
        &self,
        test: &IntegrationTestMeta<S, A>,
        execute: F,
    ) -> (r: TestResult)
        requires
            forall|e: &T, m: &IntegrationTestMeta<S, A>| call_requires(execute, (e, m)),
        ensures
            r.name@ == test.name@,
            exists|o: BodyOutcome|
                call_ensures(execute, (&self.env(), test), o) && r.success == outcome_passed(o),
    {
        let test_started = instant_now();
        let line = String::from_str("Running Test: [").concat(test.name.as_str()).concat("]");
        log_test(line.as_str());
        let outcome = execute(&self.test_environment, test);
        let ghost o = outcome;
        let test_duration = elapsed_since(&test_started);
        let shown = duration_display(&test_duration);
        let success = match &outcome {
            BodyOutcome::Passed => {
                let line = String::from_str("Test [").concat(test.name.as_str()).concat(
                    "] PASSED. Duration ",
                ).concat(shown.as_str());
                log_test(line.as_str());
                true
            },
            BodyOutcome::FailedWithMessage(message) => {
                let line = String::from_str("Test [").concat(test.name.as_str()).concat(
                    "] finished with ERROR. Duration ",
                ).concat(shown.as_str()).concat(" ").concat(message.as_str());
                log_error_test(line.as_str());
                false
            },
            BodyOutcome::Failed => {
                let line = String::from_str("Test [").concat(test.name.as_str()).concat(
                    "] FAILED. Duration ",
                ).concat(shown.as_str());
                log_error_test(line.as_str());
                false
            },
        };
        proof {
            assert(call_ensures(execute, (&self.env(), test), o));
            assert(success == outcome_passed(o));
            assert(exists|o2: BodyOutcome|
                call_ensures(execute, (&self.env(), test), o2) && success == outcome_passed(o2));
        }
        TestResult { name: test.name.clone(), success, duration: test_duration }
    }

    /// Surrender the environment the runner holds.
    fn into_env(self) -> (r: T)
        ensures
            r == self.env(),
    {
        let TestRunner { test_environment } = self;
        test_environment
    }

    /// The tests phase: enumerate the registry once, in its yielded order,
    /// and for each descriptor run hook, body and hook, classifying the
    /// outcome into the success or the failure sequence. Hooks and body of
    /// test `i` fully complete before any operation of test `i + 1` begins.
    fn run_tests<S, A, F: Fn(&T, &IntegrationTestMeta<S, A>) -> BodyOutcome + Copy>(
        &self,
        tests: &Vec<IntegrationTestMeta<S, A>>,
        execute: F,
    ) -> (r: (Vec<TestResult>, Vec<TestResult>))
        requires
            forall|e: &T, m: &IntegrationTestMeta<S, A>| call_requires(execute, (e, m)),
        ensures
            r.0@.len() + r.1@.len() == tests@.len(),
            forall|j: int| 0 <= j < r.0@.len() ==> (#[trigger] r.0@[j]).success,
            forall|j: int| 0 <= j < r.1@.len() ==> !(#[trigger] r.1@[j]).success,
            exists|outcomes: Seq<BodyOutcome>|
                {
                    &&& #[trigger] run_admissible(execute, self.env(), tests@, outcomes)
                    &&& entries_view(r.0@) == entries_of(tests@, outcomes, true)
                    &&& entries_view(r.1@) == entries_of(tests@, outcomes, false)
                },
    {
        emit_test_count(tests.len());
        let mut successful_tests: Vec<TestResult> = Vec::new();
        let mut failed_tests: Vec<TestResult> = Vec::new();
        let ghost mut outcomes: Seq<BodyOutcome> = Seq::empty();
        let mut i: usize = 0;
        while i < tests.len()
            invariant
                i <= tests@.len(),
                outcomes.len() == i as int,
                forall|e: &T, m: &IntegrationTestMeta<S, A>| call_requires(execute, (e, m)),
                forall|k: int|
                    0 <= k < i ==> call_ensures(
                        execute,
                        (&self.env(), &tests@[k]),
                        #[trigger] outcomes[k],
                    ),
                entries_view(successful_tests@) == entries_of(
                    tests@.take(i as int),
                    outcomes,
                    true,
                ),
                entries_view(failed_tests@) == entries_of(tests@.take(i as int), outcomes, false),
                successful_tests@.len() + failed_tests@.len() == i as int,
                forall|j: int|
                    0 <= j < successful_tests@.len() ==> (#[trigger] successful_tests@[j]).success,
                forall|j: int| 0 <= j < failed_tests@.len() ==> !(#[trigger] failed_tests@[j]).success,
            decreases tests@.len() - i,
        {
            let test = &tests[i];
            let line = String::from_str("Running Before Each Test for: [").concat(
                test.name.as_str(),
            ).concat("]");
            log_test(line.as_str());
            self.test_environment.before_each_test();
            let result = self.run_test(test, execute);
            let ghost o = choose|o: BodyOutcome|
                call_ensures(execute, (&self.env(), test), o) && result.success == outcome_passed(
                    o,
                );
            let ghost prev_outcomes = outcomes;
            let ghost prev_success = successful_tests@;
            let ghost prev_failed = failed_tests@;
            proof {
                outcomes = outcomes.push(o);
                assert(tests@.take(i as int + 1).drop_last() =~= tests@.take(i as int));
                assert(outcomes.drop_last() =~= prev_outcomes);
                assert(tests@.take(i as int + 1).last() == tests@[i as int]);
                assert(outcomes.last() == o);
                assert(result.report_entry() == (tests@[i as int].name@, result.success));
            }
            if result.success {
                successful_tests.push(result);
                proof {
                    lemma_entries_view_push(prev_success, result);
                    assert(outcome_passed(o));
                    assert(entries_of(tests@.take(i as int + 1), outcomes, true)
                        == entries_of(tests@.take(i as int), prev_outcomes, true).push(
                        (tests@[i as int].name@, true),
                    ));
                    assert(entries_of(tests@.take(i as int + 1), outcomes, false)
                        == entries_of(tests@.take(i as int), prev_outcomes, false));
                }
            } else {
                failed_tests.push(result);
                proof {
                    lemma_entries_view_push(prev_failed, result);
                    assert(!outcome_passed(o));
                    assert(entries_of(tests@.take(i as int + 1), outcomes, false)
                        == entries_of(tests@.take(i as int), prev_outcomes, false).push(
                        (tests@[i as int].name@, false),
                    ));
                    assert(entries_of(tests@.take(i as int + 1), outcomes, true)
                        == entries_of(tests@.take(i as int), prev_outcomes, true));
                }
            }
            let line = String::from_str("Running After Each Test for: [").concat(
                test.name.as_str(),
            ).concat("]");
            log_test(line.as_str());
            self.test_environment.after_each_test();
            i += 1;
        }
        proof {
            assert(tests@.take(tests@.len() as int) =~= tests@);
            assert(run_admissible(execute, self.env(), tests@, outcomes));
        }
        (successful_tests, failed_tests)
    }

    /// The full run: start the environment, run the tests phase over the
    /// registry's enumeration, stop the environment, and return the
    /// aggregated report. Individual test failures never escape: the report
    /// is always complete, one result per enumerated descriptor.
    ///
    /// Abnormal termination of the environment operations is not isolated.
    /// In particular, if `start` raises, the whole run aborts right there:
    /// the tests loop and `stop` stand after it, so no result is produced
    /// and no teardown is attempted for a setup that never completed.
    pub fn run_safe<S, A, F: Fn(&T, &IntegrationTestMeta<S, A>) -> BodyOutcome + Copy>(
        self,
        registry: &Registry<S, A>,
        execute: F,
    ) -> (r: TestResults)
        requires
            forall|e: &T, m: &IntegrationTestMeta<S, A>| call_requires(execute, (e, m)),
        ensures
            report_of_run(execute, registry@, r),
    {
        log_static_info("Next step is to start test environment");
        let spin_up_started_at = instant_now();
        let env = self.into_env();
        let started = TestRunner { test_environment: env.start() };
        let ghost started_env = started.env();
        let start_up_duration = elapsed_since(&spin_up_started_at);
        let shown = duration_display(&start_up_duration);
        let line = String::from_str("Test environment was started within ").concat(shown.as_str());
        log_static_info(line.as_str());
        log_static_info("***");

        log_static_info("Next step is to run tests");
        let tests_started_at = instant_now();
        let (success_tests, failed_tests) = started.run_tests(registry.all(), execute);
        let tests_duration = elapsed_since(&tests_started_at);
        let shown = duration_display(&tests_duration);
        let line = String::from_str("All tests finished within ").concat(shown.as_str());
        log_static_info(line.as_str());
        log_static_info("***");

        log_static_info("Next step is to stop test environment");
        let teardown_started_at = instant_now();
        let env = started.into_env();
        let _stopped = env.stop();
        let stop_duration = elapsed_since(&teardown_started_at);
        let shown = duration_display(&stop_duration);
        let line = String::from_str("Test environment was stopped, within ").concat(
            shown.as_str(),
        );
        log_static_info(line.as_str());
        log_static_info("***");

        let overall_duration = elapsed_since(&spin_up_started_at);
        let shown = duration_display(&overall_duration);
        let line = String::from_str("Overall duration ").concat(shown.as_str());
        log_static_info(line.as_str());

        let results = TestResults {
            success_tests,
            failed_tests,
            start_up_duration,
            tests_duration,
            stop_duration,
        };
        proof {
            let os = choose|os: Seq<BodyOutcome>|
                {
                    &&& #[trigger] run_admissible(execute, started_env, registry@, os)
                    &&& entries_view(results.success_tests@) == entries_of(registry@, os, true)
                    &&& entries_view(results.failed_tests@) == entries_of(registry@, os, false)
                };
            assert(exists|env2: T, os2: Seq<BodyOutcome>|
                {
                    &&& #[trigger] run_admissible(execute, env2, registry@, os2)
                    &&& entries_view(results.success_tests@) == entries_of(registry@, os2, true)
                    &&& entries_view(results.failed_tests@) == entries_of(registry@, os2, false)
                });
        }
        results
    }

    /// The fail-loud entry point: run everything, report one line per test
    /// outcome and the final counts, and escalate to the fatal aggregate
    /// failure exactly when any test failed.
    pub fn run<S, A, F: Fn(&T, &IntegrationTestMeta<S, A>) -> BodyOutcome + Copy>(
        self,
        registry: &Registry<S, A>,
        execute: F,
    ) -> (r: Result<TestResults, AggregateFailure>)
        requires
            forall|e: &T, m: &IntegrationTestMeta<S, A>| call_requires(execute, (e, m)),
        ensures
            match r {
                Ok(results) => report_of_run(execute, registry@, results)
                    && results.failed_tests@.len() == 0,
                Err(failure) => report_of_run(execute, registry@, failure.results)
                    && failure.results.failed_tests@.len() > 0,
            },
    {
        let result = self.run_safe(registry, execute);
        let success_test_number = result.success_tests.len();
        let failed_test_number = result.failed_tests.len();
        emit_summary(success_test_number, failed_test_number);
        let mut i: usize = 0;
        while i < result.success_tests.len()
            invariant
                i <= result.success_tests@.len(),
            decreases result.success_tests@.len() - i,
        {
            let line = String::from_str("Test [").concat(
                result.success_tests[i].name.as_str(),
            ).concat("] ....... PASSED");
            log_static_info(line.as_str());
            i += 1;
        }
        let mut i: usize = 0;
        while i < result.failed_tests.len()
            invariant
                i <= result.failed_tests@.len(),
            decreases result.failed_tests@.len() - i,
        {
            let line = String::from_str("Test [").concat(
                result.failed_tests[i].name.as_str(),
            ).concat("] ....... FAILED");
            log_error_static_info(line.as_str());
            i += 1;
        }
        if failed_test_number > 0 {
            Err(AggregateFailure { results: result })
        } else {
            Ok(result)
        }
    }
}

} // verus!
