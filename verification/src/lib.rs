//! A type-erased error value for applications that pass heterogeneous
//! failure causes up a call stack while keeping the original message, the
//! upstream cause, human-added context layers, the call site of creation,
//! and an optionally captured execution backtrace.
//!
//! The public surface is the [`Error`] value type, the [`Chain`] cursor
//! over its ancestry of causes, and the [`Context`] extension trait that
//! attaches a message layer to a failed `Result` or an empty `Option`.

pub mod backtrace;
pub mod chain;
pub mod context;
pub mod downcast;
pub mod error;
pub mod fmt;
pub mod foreign;
pub mod kind;
pub mod location;
pub mod msg;
pub mod ptr;

pub use chain::Chain;
pub use context::Context;
pub use error::Error;
pub use location::Location;

use crate::error::Variant;
use crate::location::Location as Site;
use crate::msg::Msg;
use vstd::prelude::*;

verus! {

/// Builds an ad-hoc error from a message, exactly as [`Error::msg`] does:
/// a static message stays downcastable to `&'static str`, an owned one to
/// `String`; the distinction travels inside the [`Msg`] itself.
pub fn format_err(message: Msg, site: Site) -> (r: Error)
    ensures
        r.variant() == Variant::Adhoc(message),
        r.site() == site,
        r.msgs() == seq![message@],
{
    match message {
        Msg::Static(s) => Error::msg(s, site),
        Msg::Owned(s) => Error::msg(s, site),
    }
}

/// Wraps an error with a context message, preserving the same downcast
/// distinction between static and owned message text.
pub fn format_context(error: Error, message: Msg, site: Site) -> (r: Error)
    ensures
        r.variant() matches Variant::Context(m, src) && m == message && *src == error.obj(),
        r.site() == site,
        r.msgs() == seq![message@] + error.msgs(),
{
    match message {
        Msg::Static(s) => error.context(s, site),
        Msg::Owned(s) => error.context(s, site),
    }
}

/// Hands the error back unchanged; a reminder at construction sites that
/// an error value is meant to be used.
#[must_use]
pub fn must_use(error: Error) -> (r: Error)
    ensures
        r == error,
{
    error
}

/// Equivalent to `Ok::<_, Error>(value)`: pins the error type of a result
/// where inference cannot deduce it.
pub fn ok<T>(t: T) -> (r: Result<T, Error>)
    ensures
        r == Result::<T, Error>::Ok(t),
{
    Ok(t)
}

} // verus!
