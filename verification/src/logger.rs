use std::io::Write;
use vstd::prelude::*;

verus! {

/// Relies on std::io::stderr: writes one banner-style report line.
#[verifier::external_body]
fn emit_banner(message: &str, error: bool) {
    let level = if error { "ERROR" } else { "INFO" };
    let _ = writeln!(std::io::stderr(), "[ ============ {} {} ============ ]", level, message);
}

/// Relies on std::io::stderr: writes one timestamped per-test report line.
#[verifier::external_body]
fn emit_record(timestamp: &str, error: bool, message: &str) {
    let level = if error { "ERROR" } else { "INFO" };
    let _ = writeln!(std::io::stderr(), "[{} {} {}", timestamp, level, message);
}

/// Relies on std::io::stderr: writes the banner that reports how many tests
/// the registry holds.
#[verifier::external_body]
pub(crate) fn emit_test_count(count: usize) {
    let _ = writeln!(std::io::stderr(), "[ ============ INFO Found {} tests ============ ]", count);
}

/// Relies on std::io::stderr: writes the final counts line of a run.
#[verifier::external_body]
pub(crate) fn emit_summary(success_count: usize, failed_count: usize) {
    let _ = writeln!(
        std::io::stderr(),
        "[ ============ INFO Successful test {}. Failed tests {} ============ ]",
        success_count,
        failed_count,
    );
}

/// Relies on chrono::Local::now, rendered with chrono's formatter: the wall
/// clock at the moment of the call. Time-dependent, so nothing is promised
/// of the text.
#[verifier::external_body]
fn local_timestamp() -> String {
    chrono::Local::now().format("%Y-%m-%dT%H:%M:%S.%s").to_string()
}

/// Log one phase-level informational line.
pub fn log_static_info(message: &str) {
    emit_banner(message, false);
}

/// Log one phase-level error line.
pub fn log_error_static_info(message: &str) {
    emit_banner(message, true);
}

/// Log one per-test informational line, stamped with the wall clock.
pub fn log_test(message: &str) {
    let ts = local_timestamp();
    emit_record(ts.as_str(), false, message);
}

/// Log one per-test error line, stamped with the wall clock.
pub fn log_error_test(message: &str) {
    let ts = local_timestamp();
    emit_record(ts.as_str(), true, message);
}

} // verus!
