//! The platform backtrace facility.
//!
//! Capture itself is the platform's work; this module only asks for a
//! capture and keeps the rendered frames when the platform reports that it
//! really captured some. Whether it does depends on the process environment,
//! so nothing is assumed about the outcome.

use vstd::prelude::*;

verus! {

#[verifier::external_type_specification]
#[verifier::external_body]
pub struct ExBacktrace(std::backtrace::Backtrace);

/// Relies on `std::backtrace::Backtrace::capture`: asks the platform for a
/// backtrace of the current point of execution. Whether frames come back
/// depends on the environment, so nothing is promised of the result.
#[verifier::external_body]
fn capture() -> std::backtrace::Backtrace {
    std::backtrace::Backtrace::capture()
}

/// Relies on `std::backtrace::Backtrace::status`: reports whether the
/// platform says this backtrace was actually captured (as opposed to
/// disabled or unsupported). Nothing is promised of the answer.
#[verifier::external_body]
fn is_captured(bt: &std::backtrace::Backtrace) -> bool {
    match bt.status() {
        std::backtrace::BacktraceStatus::Captured => true,
        _ => false,
    }
}

/// Relies on the `Display` impl of `std::backtrace::Backtrace`: renders the
/// captured frames as text. Nothing is promised of the text.
#[verifier::external_body]
fn render(bt: &std::backtrace::Backtrace) -> String {
    format!("{}", bt)
}

/// Asks the platform for a backtrace and keeps the rendered frames only
/// when the platform reports the capture as real. The caller decides
/// whether to ask at all; no promise is made about the outcome, and every
/// consumer of the result is specified for both answers.
pub(crate) fn capture_backtrace() -> Option<String> {
    let bt = capture();
    if is_captured(&bt) {
        Some(render(&bt))
    } else {
        None
    }
}

} // verus!
