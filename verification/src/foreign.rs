//! Plain-value models of foreign error values.
//!
//! A foreign error reaches this library as the data the library actually
//! reads of it: its display message, its own upstream cause chain, and the
//! backtrace it may already carry. Callers that hold a richer foreign value
//! convert it to this shape at the boundary.

use vstd::prelude::*;

verus! {

/// A foreign error value that knows its own upstream cause.
///
/// `source` is the error it was caused by, if it reports one; `backtrace`
/// is the rendered backtrace the foreign value already carries, if any —
/// when present, no fresh capture is attached on wrapping.
#[derive(Debug)]
pub struct ForeignError {
    pub message: String,
    pub source: Option<Box<ForeignError>>,
    pub backtrace: Option<String>,
}

impl ForeignError {
    /// A foreign error with no recorded cause and no embedded backtrace.
    pub fn new(message: String) -> (r: ForeignError)
        ensures
            r.message == message,
            r.source is None,
            r.backtrace is None,
    {
        ForeignError { message, source: None, backtrace: None }
    }

    /// A foreign error that reports `cause` as its upstream cause.
    pub fn caused_by(message: String, cause: ForeignError) -> (r: ForeignError)
        ensures
            r.message == message,
            r.source matches Some(c) && *c == cause,
            r.backtrace is None,
    {
        ForeignError { message, source: Some(Box::new(cause)), backtrace: None }
    }

    /// The same error, now reporting an embedded backtrace of its own.
    pub fn with_backtrace(self, frames: String) -> (r: ForeignError)
        ensures
            r == (ForeignError { backtrace: Some(frames), ..self }),
    {
        ForeignError { backtrace: Some(frames), ..self }
    }
}

/// The messages of a foreign error and its causes, outermost first.
pub open spec fn foreign_chain(f: ForeignError) -> Seq<Seq<char>>
    decreases f,
{
    match f.source {
        Option::None => seq![f.message@],
        Option::Some(s) => seq![f.message@] + foreign_chain(*s),
    }
}

/// An already type-erased foreign error: its concrete type was forgotten by
/// the caller before it reached this library, so it answers downcasts only
/// as the erased shape itself.
#[derive(Debug)]
pub struct BoxedError {
    pub inner: ForeignError,
}

impl BoxedError {
    /// Erases a foreign error.
    pub fn new(inner: ForeignError) -> (r: BoxedError)
        ensures
            r.inner == inner,
    {
        BoxedError { inner }
    }

    /// An erased error carrying a plain message, no cause, no backtrace.
    pub fn from_message(message: String) -> (r: BoxedError)
        ensures
            r.inner.message == message,
            r.inner.source is None,
            r.inner.backtrace is None,
    {
        BoxedError { inner: ForeignError::new(message) }
    }
}

} // verus!
