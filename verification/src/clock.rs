use vstd::prelude::*;

verus! {

#[verifier::external_type_specification]
#[verifier::external_body]
pub struct ExInstant(std::time::Instant);

/// Relies on std::time::Instant::now: a point on the monotonic clock. The
/// value is opaque and time-dependent, so nothing is promised of it.
#[verifier::external_body]
pub(crate) fn instant_now() -> std::time::Instant {
    std::time::Instant::now()
}

/// Relies on std::time::Instant::elapsed: the time since `start`, as an
/// opaque duration. Time-dependent, so nothing is promised of it.
#[verifier::external_body]
pub(crate) fn elapsed_since(start: &std::time::Instant) -> std::time::Duration {
    start.elapsed()
}

/// Relies on the Debug rendering of std::time::Duration for report lines.
/// No caller depends on the text, so nothing is promised of it.
#[verifier::external_body]
pub(crate) fn duration_display(d: &std::time::Duration) -> String {
    format!("{:?}", d)
}

} // verus!
