//! The trace-capture facility the container relies on.

use vstd::prelude::*;

verus! {

/// Declares `std::backtrace::Backtrace`, held opaque: a captured trace.
#[verifier::external_type_specification]
#[verifier::external_body]
pub struct ExBacktrace(std::backtrace::Backtrace);

/// Whether a trace holds frames, and if not, why.
#[derive(PartialEq, Eq, Structural, Clone, Copy, Debug)]
pub enum TraceStatus {
    /// Capturing is not supported in this environment.
    Unsupported,
    /// Capturing is supported but switched off.
    Disabled,
    /// The trace holds the frames that were captured.
    Captured,
}

/// Relies on `std::backtrace::Backtrace::capture`: a trace of the calling
/// thread, or a disabled or unsupported marker, as the environment decides.
#[verifier::external_body]
pub(crate) fn capture() -> (r: std::backtrace::Backtrace) {
    std::backtrace::Backtrace::capture()
}

/// Relies on `std::backtrace::Backtrace::status`: the status of a trace.
#[verifier::external_body]
pub(crate) fn status(b: &std::backtrace::Backtrace) -> (r: TraceStatus) {
    match b.status() {
        std::backtrace::BacktraceStatus::Unsupported => TraceStatus::Unsupported,
        std::backtrace::BacktraceStatus::Disabled => TraceStatus::Disabled,
        std::backtrace::BacktraceStatus::Captured => TraceStatus::Captured,
        _ => TraceStatus::Unsupported,
    }
}

/// Relies on the `Display` impl of `std::backtrace::Backtrace`: the frames of a
/// trace as text.
#[verifier::external_body]
pub(crate) fn text(b: &std::backtrace::Backtrace) -> (r: String) {
    b.to_string()
}

} // verus!
