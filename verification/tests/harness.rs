use std::future::Future;
use std::pin::Pin;
use std::rc::Rc;
use std::sync::atomic::AtomicU32;
use std::sync::atomic::Ordering;
use std::task::Context;
use std::task::Poll;

use test_collector::log_env_info;
use test_collector::logger::log_error_static_info;
use test_collector::logger::log_error_test;
use test_collector::logger::log_static_info;
use test_collector::logger::log_test;
use test_collector::meta::BodyOutcome;
use test_collector::meta::IntegrationTestMeta;
use test_collector::registry::Registry;
use test_collector::test_runner::TestRunner;
use test_collector::TestEnvironment;

type SyncBody = fn() -> Result<(), &'static str>;
type AsyncBody = fn() -> Pin<Box<dyn Future<Output = Result<(), &'static str>>>>;
type Descriptor = IntegrationTestMeta<SyncBody, AsyncBody>;

/// The executor the scenarios hand to the runner: it plays the isolation
/// boundary, turning a body's error return into a failure outcome.
fn run_body<E>(_env: &E, test: &Descriptor) -> BodyOutcome {
    let result: Result<(), &'static str> = match &test.sync_fn {
        Some(f) => f(),
        None => futures::executor::block_on((test.async_fn.as_ref().unwrap())()),
    };
    match result {
        Ok(()) => BodyOutcome::Passed,
        Err(message) => BodyOutcome::FailedWithMessage(message.to_string()),
    }
}

struct QuietEnv;

impl TestEnvironment for QuietEnv {
    fn start(self) -> Self {
        log_env_info("Starting environment");
        self
    }

    fn stop(self) -> Self {
        log_env_info("Here You can stop APP, db or any other services");
        self
    }
}

struct CountingEnv {
    before_each_call: Rc<AtomicU32>,
    after_each_call: Rc<AtomicU32>,
}

impl TestEnvironment for CountingEnv {
    fn start(self) -> Self {
        self
    }

    fn before_each_test(&self) {
        self.before_each_call.fetch_add(1, Ordering::SeqCst);
    }

    fn after_each_test(&self) {
        self.after_each_call.fetch_add(1, Ordering::SeqCst);
    }

    fn stop(self) -> Self {
        self
    }
}

fn body_sync_success() -> Result<(), &'static str> {
    println!("Executed sync!");
    Ok(())
}

fn body_sync_failing() -> Result<(), &'static str> {
    println!("Executed sync!");
    Err("assertion failed: true == false")
}

struct ReadyOutcome {
    value: Option<Result<(), &'static str>>,
}

impl Future for ReadyOutcome {
    type Output = Result<(), &'static str>;

    fn poll(mut self: Pin<&mut Self>, _cx: &mut Context<'_>) -> Poll<Self::Output> {
        Poll::Ready(self.value.take().expect("polled after completion"))
    }
}

/// A computation that suspends once and then resolves to an error, the way a
/// failing network call does: it rejects rather than stalls.
struct FlakyNetworkCall {
    polled: bool,
}

impl Future for FlakyNetworkCall {
    type Output = Result<(), &'static str>;

    fn poll(mut self: Pin<&mut Self>, cx: &mut Context<'_>) -> Poll<Self::Output> {
        if self.polled {
            Poll::Ready(Err("error during client build: connection refused on http://localhost:9091/"))
        } else {
            self.polled = true;
            cx.waker().wake_by_ref();
            Poll::Pending
        }
    }
}

fn make_async_success() -> Pin<Box<dyn Future<Output = Result<(), &'static str>>>> {
    Box::pin(ReadyOutcome { value: Some(Ok(())) })
}

fn make_async_failing() -> Pin<Box<dyn Future<Output = Result<(), &'static str>>>> {
    Box::pin(FlakyNetworkCall { polled: false })
}

/// The four descriptors the original suite collects: two failing, two
/// passing, mixing the synchronous and the asynchronous kind.
fn original_suite() -> Registry<SyncBody, AsyncBody> {
    let mut registry: Registry<SyncBody, AsyncBody> = Registry::new();
    registry.register(IntegrationTestMeta::for_sync_fn(
        "sync_test_failing".to_string(),
        body_sync_failing as SyncBody,
    ));
    registry.register(IntegrationTestMeta::for_async_fn(
        "async_test_failing".to_string(),
        make_async_failing as AsyncBody,
    ));
    registry.register(IntegrationTestMeta::for_sync_fn(
        "sync_test_success".to_string(),
        body_sync_success as SyncBody,
    ));
    registry.register(IntegrationTestMeta::for_async_fn(
        "async_test_success".to_string(),
        make_async_success as AsyncBody,
    ));
    registry
}

#[test]
fn sync_test_success() {
    println!("Executed sync!");
    assert_eq!(true, true);
}

#[test]
#[should_panic(expected = "Some tests are Failing")]
fn possible_main() {
    let registry = original_suite();
    let test_runner = TestRunner::new(QuietEnv);
    match test_runner.run(&registry, run_body::<QuietEnv>) {
        Ok(_) => {}
        Err(failure) => panic!("{}", failure.message()),
    }
}

#[test]
fn check_before_and_after() {
    let before_each_call: Rc<AtomicU32> = Rc::new(AtomicU32::new(0));
    let after_each_call: Rc<AtomicU32> = Rc::new(AtomicU32::new(0));
    let registry = original_suite();
    let test_runner = TestRunner::new(CountingEnv {
        before_each_call: before_each_call.clone(),
        after_each_call: after_each_call.clone(),
    });
    let _results = test_runner.run_safe(&registry, run_body::<CountingEnv>);
    assert_eq!(before_each_call.fetch_or(0, Ordering::SeqCst), 4);
    assert_eq!(after_each_call.fetch_or(0, Ordering::SeqCst), 4);
}

#[test]
fn every_descriptor_yields_exactly_one_result() {
    let registry = original_suite();
    let results = TestRunner::new(QuietEnv).run_safe(&registry, run_body::<QuietEnv>);
    assert_eq!(
        results.success_tests.len() + results.failed_tests.len(),
        registry.len()
    );
}

#[test]
fn two_sync_descriptors_partition_and_escalate() {
    let mut registry: Registry<SyncBody, AsyncBody> = Registry::new();
    registry.register(IntegrationTestMeta::for_sync_fn(
        "A".to_string(),
        body_sync_success as SyncBody,
    ));
    registry.register(IntegrationTestMeta::for_sync_fn(
        "B".to_string(),
        body_sync_failing as SyncBody,
    ));
    let results = TestRunner::new(QuietEnv).run_safe(&registry, run_body::<QuietEnv>);
    assert_eq!(results.success_tests.len(), 1);
    assert_eq!(results.failed_tests.len(), 1);
    assert_eq!(results.success_tests[0].name, "A");
    assert!(results.success_tests[0].success);
    assert_eq!(results.failed_tests[0].name, "B");
    assert!(!results.failed_tests[0].success);

    match TestRunner::new(QuietEnv).run(&registry, run_body::<QuietEnv>) {
        Ok(_) => panic!("a failing descriptor must escalate"),
        Err(failure) => {
            assert_eq!(failure.message(), "Some tests are Failing");
            assert_eq!(failure.results.failed_tests.len(), 1);
        }
    }
}

#[test]
fn run_returns_ok_when_no_test_fails() {
    let mut registry: Registry<SyncBody, AsyncBody> = Registry::new();
    registry.register(IntegrationTestMeta::for_sync_fn(
        "only_sync".to_string(),
        body_sync_success as SyncBody,
    ));
    registry.register(IntegrationTestMeta::for_async_fn(
        "only_async".to_string(),
        make_async_success as AsyncBody,
    ));
    match TestRunner::new(QuietEnv).run(&registry, run_body::<QuietEnv>) {
        Ok(results) => {
            assert_eq!(results.failed_tests.len(), 0);
            assert_eq!(results.success_tests.len(), 2);
        }
        Err(_) => panic!("no aggregate failure expected"),
    }
}

#[test]
fn async_failure_after_suspension_is_classified_failed() {
    let mut registry: Registry<SyncBody, AsyncBody> = Registry::new();
    registry.register(IntegrationTestMeta::for_async_fn(
        "async_network_call".to_string(),
        make_async_failing as AsyncBody,
    ));
    let results = TestRunner::new(QuietEnv).run_safe(&registry, run_body::<QuietEnv>);
    assert_eq!(results.success_tests.len(), 0);
    assert_eq!(results.failed_tests.len(), 1);
    assert_eq!(results.failed_tests[0].name, "async_network_call");
    assert!(!results.failed_tests[0].success);
}

#[test]
fn report_shape_is_independent_of_registration_order() {
    let mut forward: Registry<SyncBody, AsyncBody> = Registry::new();
    forward.register(IntegrationTestMeta::for_sync_fn(
        "A".to_string(),
        body_sync_success as SyncBody,
    ));
    forward.register(IntegrationTestMeta::for_sync_fn(
        "B".to_string(),
        body_sync_failing as SyncBody,
    ));
    forward.register(IntegrationTestMeta::for_sync_fn(
        "C".to_string(),
        body_sync_success as SyncBody,
    ));
    let mut reversed: Registry<SyncBody, AsyncBody> = Registry::new();
    reversed.register(IntegrationTestMeta::for_sync_fn(
        "C".to_string(),
        body_sync_success as SyncBody,
    ));
    reversed.register(IntegrationTestMeta::for_sync_fn(
        "B".to_string(),
        body_sync_failing as SyncBody,
    ));
    reversed.register(IntegrationTestMeta::for_sync_fn(
        "A".to_string(),
        body_sync_success as SyncBody,
    ));
    let first = TestRunner::new(QuietEnv).run_safe(&forward, run_body::<QuietEnv>);
    let second = TestRunner::new(QuietEnv).run_safe(&reversed, run_body::<QuietEnv>);
    assert_eq!(first.success_tests.len(), 2);
    assert_eq!(first.failed_tests.len(), 1);
    assert_eq!(second.success_tests.len(), first.success_tests.len());
    assert_eq!(second.failed_tests.len(), first.failed_tests.len());
}

#[test]
fn duplicate_names_are_kept_and_executed_independently() {
    let mut registry: Registry<SyncBody, AsyncBody> = Registry::new();
    registry.register(IntegrationTestMeta::for_sync_fn(
        "dup".to_string(),
        body_sync_success as SyncBody,
    ));
    registry.register(IntegrationTestMeta::for_sync_fn(
        "dup".to_string(),
        body_sync_failing as SyncBody,
    ));
    assert_eq!(registry.len(), 2);
    let results = TestRunner::new(QuietEnv).run_safe(&registry, run_body::<QuietEnv>);
    assert_eq!(results.success_tests.len(), 1);
    assert_eq!(results.failed_tests.len(), 1);
    assert_eq!(results.success_tests[0].name, "dup");
    assert_eq!(results.failed_tests[0].name, "dup");
}

#[test]
fn enumeration_follows_registration_order() {
    let mut registry: Registry<SyncBody, AsyncBody> = Registry::new();
    registry.register(IntegrationTestMeta::for_sync_fn(
        "first".to_string(),
        body_sync_success as SyncBody,
    ));
    registry.register(IntegrationTestMeta::for_sync_fn(
        "second".to_string(),
        body_sync_failing as SyncBody,
    ));
    registry.register(IntegrationTestMeta::for_sync_fn(
        "third".to_string(),
        body_sync_success as SyncBody,
    ));
    let all = registry.all();
    assert_eq!(all.len(), 3);
    assert_eq!(all[0].name, "first");
    assert_eq!(all[1].name, "second");
    assert_eq!(all[2].name, "third");
}

#[test]
fn descriptor_constructors_fill_exactly_one_slot() {
    let sync_descriptor: Descriptor =
        IntegrationTestMeta::for_sync_fn("s".to_string(), body_sync_success as SyncBody);
    assert_eq!(sync_descriptor.name, "s");
    assert!(sync_descriptor.sync_fn.is_some());
    assert!(sync_descriptor.async_fn.is_none());

    let async_descriptor: Descriptor =
        IntegrationTestMeta::for_async_fn("a".to_string(), make_async_success as AsyncBody);
    assert_eq!(async_descriptor.name, "a");
    assert!(async_descriptor.sync_fn.is_none());
    assert!(async_descriptor.async_fn.is_some());
}

#[test]
fn outcome_classification_is_exact() {
    assert!(BodyOutcome::Passed.is_passed());
    assert!(!BodyOutcome::Failed.is_passed());
    assert!(!BodyOutcome::FailedWithMessage("boom".to_string()).is_passed());
}

#[test]
fn run_test_classifies_one_descriptor() {
    let runner = TestRunner::new(QuietEnv);
    let descriptor: Descriptor =
        IntegrationTestMeta::for_sync_fn("solo".to_string(), body_sync_failing as SyncBody);
    let result = runner.run_test(&descriptor, run_body::<QuietEnv>);
    assert_eq!(result.name, "solo");
    assert!(!result.success);
}

#[test]
fn log_functions_accept_plain_messages() {
    log_static_info("phase line");
    log_error_static_info("phase failure line");
    log_test("per-test line");
    log_error_test("per-test failure line");
    log_env_info("environment line");
}
