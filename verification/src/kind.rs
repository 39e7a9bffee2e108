//! Tagged dispatch for turning a single value into an [`Error`].
//!
//! A value can reach construction as displayable text, as a foreign error
//! that knows its own cause, as an already erased foreign error, or as an
//! error of this library; each tag picks the construction path whose
//! behaviour — cause chain, backtrace policy, type identity — fits the
//! payload. The `wallee_kind` method on the matching tag trait resolves
//! which of the four applies.

use vstd::prelude::*;

use crate::error::{Error, Variant};
use crate::foreign::{BoxedError, ForeignError};
use crate::location::Location;
use crate::msg::IntoMsg;

verus! {

/// Construction goes through the ad-hoc message path.
pub struct MakeDebug;

/// Tags payloads that are displayable text and nothing more.
pub trait DebugKind: Sized {
    /// Picks the ad-hoc construction path.
    fn wallee_kind(&self) -> (r: MakeDebug)
        ensures
            r == MakeDebug,
    {
        MakeDebug
    }
}

impl<T: IntoMsg> DebugKind for &T {

}

impl MakeDebug {
    /// Builds an ad-hoc error from the message payload.
    pub fn make<M: IntoMsg>(self, message: M, site: Location) -> (r: Error)
        ensures
            r.variant() == Variant::Adhoc(message.msg_spec()),
            r.site() == site,
            r.msgs() == seq![message.msg_spec()@],
    {
        Error::msg(message, site)
    }
}

/// Construction goes through the foreign-error path.
pub struct MakeStd;

/// Tags payloads that are foreign errors with their own cause chain.
pub trait StdKind: Sized {
    /// Picks the foreign-error construction path.
    fn wallee_kind(&self) -> (r: MakeStd)
        ensures
            r == MakeStd,
    {
        MakeStd
    }
}

impl StdKind for ForeignError {

}

impl MakeStd {
    /// Builds an error around the foreign value; its reported causes
    /// become the ancestry.
    pub fn make(self, error: ForeignError, site: Location) -> (r: Error)
        ensures
            r.variant() == Variant::Standard(error),
            r.site() == site,
            r.msgs() == crate::foreign::foreign_chain(error),
    {
        Error::new(error, site)
    }
}

/// The value already is an error of this library.
pub struct MakeError;

/// Tags values that already are errors of this library.
pub trait ErrorKind: Sized {
    /// Picks the pass-through path.
    fn wallee_kind(&self) -> (r: MakeError)
        ensures
            r == MakeError,
    {
        MakeError
    }
}

impl ErrorKind for Error {

}

impl MakeError {
    /// Hands the error back unchanged.
    pub fn make(self, error: Error) -> (r: Error)
        ensures
            r == error,
    {
        error
    }
}

/// Construction goes through the erased-error path.
pub struct Boxed;

/// Tags payloads whose concrete error type was already forgotten.
pub trait BoxedKind: Sized {
    /// Picks the erased-error construction path.
    fn wallee_kind(&self) -> (r: Boxed)
        ensures
            r == Boxed,
    {
        Boxed
    }
}

impl BoxedKind for BoxedError {

}

impl Boxed {
    /// Builds an error around the erased value, asking the platform for a
    /// backtrace only when the value carries none of its own.
    pub fn make(self, error: BoxedError, site: Location) -> (r: Error)
        ensures
            r.variant() == Variant::Boxed(error),
            r.site() == site,
            r.msgs() == crate::foreign::foreign_chain(error.inner),
            error.inner.backtrace is Some ==> r.obj().backtrace is None,
    {
        Error::from_boxed(error, site)
    }
}

} // verus!
