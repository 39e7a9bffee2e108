//! The context attachment protocol.
//!
//! Two entry points, one eager and one lazy, wrap a failed `Result` or an
//! empty `Option` with a message layer; both reduce to [`Error::context`].
//! Attaching context to a success value is a no-op: the success value
//! passes through unchanged. Attaching to a failure wraps it whole, so a
//! downcast that succeeded before the context layer still succeeds by
//! walking the chain to the wrapped layer.

use vstd::prelude::*;

use crate::error::{Error, Variant};
use crate::foreign::{foreign_chain, BoxedError, ForeignError};
use crate::location::Location;
use crate::msg::{IntoMsg, Msg};

verus! {

/// A failure value that can take a context layer: it becomes the source
/// object of the new layer.
pub trait IntoError: Sized {
    /// The payload shape this failure erases to.
    spec fn variant_spec(self) -> Variant;

    /// The call site the source layer reports: a value that already is an
    /// error keeps its own creation site; anything else is erased here and
    /// now, at the attachment site.
    spec fn source_site(self, site: Location) -> Location;

    /// The chain of messages this failure contributes.
    spec fn chain_spec(self) -> Seq<Seq<char>>;

    /// Erases this failure if needed and wraps it in a context layer.
    fn ext_context(self, message: Msg, site: Location) -> (r: Error)
        ensures
            r.variant() matches Variant::Context(m, src) && m == message && (*src).variant
                == self.variant_spec() && (*src).location == self.source_site(site),
            r.site() == site,
            r.msgs() == seq![message@] + self.chain_spec(),
    ;
}

impl IntoError for Error {
    open spec fn variant_spec(self) -> Variant {
        self.variant()
    }

    open spec fn source_site(self, site: Location) -> Location {
        self.site()
    }

    open spec fn chain_spec(self) -> Seq<Seq<char>> {
        self.msgs()
    }

    fn ext_context(self, message: Msg, site: Location) -> (r: Error) {
        self.context(message, site)
    }
}

impl IntoError for ForeignError {
    open spec fn variant_spec(self) -> Variant {
        Variant::Standard(self)
    }

    open spec fn source_site(self, site: Location) -> Location {
        site
    }

    open spec fn chain_spec(self) -> Seq<Seq<char>> {
        foreign_chain(self)
    }

    fn ext_context(self, message: Msg, site: Location) -> (r: Error) {
        Error::new(self, site).context(message, site)
    }
}

impl IntoError for BoxedError {
    open spec fn variant_spec(self) -> Variant {
        Variant::Boxed(self)
    }

    open spec fn source_site(self, site: Location) -> Location {
        site
    }

    open spec fn chain_spec(self) -> Seq<Seq<char>> {
        foreign_chain(self.inner)
    }

    fn ext_context(self, message: Msg, site: Location) -> (r: Error) {
        Error::from_boxed(self, site).context(message, site)
    }
}

/// Provides `context` and `with_context` for `Result` and `Option`
/// receivers.
pub trait Context<T, E>: Sized {
    /// Whether this receiver is a success.
    spec fn is_success(self) -> bool;

    /// The success value carried, when it is one.
    spec fn success_value(self) -> T
        recommends
            self.is_success(),
    ;

    /// What wrapping the failure with `message` at `site` yields.
    spec fn failure_post(self, message: Msg, site: Location, err: Error) -> bool;

    /// Wrap the error value with additional context.
    fn context<C: IntoMsg>(self, context: C, site: Location) -> (r: Result<T, Error>)
        ensures
            self.is_success() ==> r == Result::<T, Error>::Ok(self.success_value()),
            !self.is_success() ==> (r matches Result::Err(e) && self.failure_post(
                context.msg_spec(),
                site,
                e,
            )),
    ;

    /// Wrap the error value with additional context that is computed only
    /// once a failure is there to wrap; a success never runs the
    /// computation.
    fn with_context<C: IntoMsg, F: FnOnce() -> C>(self, f: F, site: Location) -> (r: Result<
        T,
        Error,
    >)
        requires
            call_requires(f, ()),
        ensures
            self.is_success() ==> r == Result::<T, Error>::Ok(self.success_value()),
            !self.is_success() ==> (r matches Result::Err(e) && exists|c: C|
                call_ensures(f, (), c) && self.failure_post(c.msg_spec(), site, e)),
    ;
}

impl<T, E: IntoError> Context<T, E> for Result<T, E> {
    open spec fn is_success(self) -> bool {
        self matches Ok(_)
    }

    open spec fn success_value(self) -> T {
        self->Ok_0
    }

    open spec fn failure_post(self, message: Msg, site: Location, err: Error) -> bool {
        match self {
            Result::Ok(_) => true,
            Result::Err(e) => {
                &&& err.variant() matches Variant::Context(m, src) && m == message
                    && (*src).variant == e.variant_spec() && (*src).location == e.source_site(site)
                &&& err.site() == site
                &&& err.msgs() == seq![message@] + e.chain_spec()
            },
        }
    }

    fn context<C: IntoMsg>(self, context: C, site: Location) -> (r: Result<T, Error>) {
        match self {
            Ok(t) => Ok(t),
            Err(e) => Err(e.ext_context(context.into_msg(), site)),
        }
    }

    fn with_context<C: IntoMsg, F: FnOnce() -> C>(self, f: F, site: Location) -> (r: Result<
        T,
        Error,
    >) {
        match self {
            Ok(t) => Ok(t),
            Err(e) => {
                let c = f();
                Err(e.ext_context(c.into_msg(), site))
            },
        }
    }
}

impl<T> Context<T, ()> for Option<T> {
    open spec fn is_success(self) -> bool {
        self matches Some(_)
    }

    open spec fn success_value(self) -> T {
        self->0
    }

    open spec fn failure_post(self, message: Msg, site: Location, err: Error) -> bool {
        &&& err.variant() == Variant::Adhoc(message)
        &&& err.site() == site
        &&& err.msgs() == seq![message@]
    }

    fn context<C: IntoMsg>(self, context: C, site: Location) -> (r: Result<T, Error>) {
        match self {
            Some(t) => Ok(t),
            None => Err(Error::msg(context.into_msg(), site)),
        }
    }

    fn with_context<C: IntoMsg, F: FnOnce() -> C>(self, f: F, site: Location) -> (r: Result<
        T,
        Error,
    >) {
        match self {
            Some(t) => Ok(t),
            None => {
                let c = f();
                Err(Error::msg(c.into_msg(), site))
            },
        }
    }
}

} // verus!
