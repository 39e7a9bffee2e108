//! The type-erased error value and its heap record.
//!
//! An [`Error`] is a single pointer-sized owning handle to a heap record
//! that carries the payload, the payload's type identity, the call site of
//! its creation, and an optionally captured backtrace. The payload is one
//! of four shapes: an ad-hoc message, a foreign error, an already erased
//! foreign error, or a context layer that owns the error it wraps — the
//! only shape that nests another record, which is what forms the cause
//! chain.

use vstd::prelude::*;

use crate::backtrace::capture_backtrace;
use crate::foreign::{foreign_chain, BoxedError, ForeignError};
use crate::location::Location;
use crate::msg::{IntoMsg, Msg};
use crate::ptr::OwnPtr;

verus! {

/// The four payload shapes, together with each payload's data. Which shape
/// was installed is fixed at construction and never mutated; it is the type
/// identity that downcasts compare against.
#[derive(Debug)]
pub enum Variant {
    /// A plain message; no upstream cause.
    Adhoc(Msg),
    /// A foreign error that knows its own upstream cause.
    Standard(ForeignError),
    /// A foreign error whose concrete type was already forgotten.
    Boxed(BoxedError),
    /// A message layered over the error it wraps, which it owns exclusively.
    Context(Msg, Box<ErrorObject>),
}

/// The heap record behind an error handle.
#[derive(Debug)]
pub struct ErrorObject {
    pub variant: Variant,
    pub location: Location,
    /// The backtrace captured when this layer was created, if the platform
    /// reported one and the payload did not already carry its own.
    pub backtrace: Option<String>,
}

/// The messages of an error and its ancestry of causes, outermost first.
pub open spec fn obj_chain(o: ErrorObject) -> Seq<Seq<char>>
    decreases o,
{
    match o.variant {
        Variant::Adhoc(m) => seq![m@],
        Variant::Standard(f) => foreign_chain(f),
        Variant::Boxed(b) => foreign_chain(b.inner),
        Variant::Context(m, src) => seq![m@] + obj_chain(*src),
    }
}

/// The chain of an error is never empty: its own message leads it.
pub proof fn lemma_obj_chain_first(o: ErrorObject)
    ensures
        obj_chain(o).len() >= 1,
        obj_chain(o)[0] == message_of(o.variant),
    decreases o,
{
    match o.variant {
        Variant::Standard(f) => lemma_foreign_chain_first(f),
        Variant::Boxed(b) => lemma_foreign_chain_first(b.inner),
        _ => {}
    }
}

/// The chain of a foreign error is never empty either.
pub proof fn lemma_foreign_chain_first(f: ForeignError)
    ensures
        foreign_chain(f).len() >= 1,
        foreign_chain(f)[0] == f.message@,
    decreases f,
{
}

/// The display message of the outermost layer alone.
pub open spec fn message_of(v: Variant) -> Seq<char> {
    match v {
        Variant::Adhoc(m) => m@,
        Variant::Standard(f) => f.message@,
        Variant::Boxed(b) => b.inner.message@,
        Variant::Context(m, _) => m@,
    }
}

/// The type-erased error value: construction, context attachment,
/// downcasting, chain traversal and formatting, all through one
/// pointer-sized handle.
#[derive(Debug)]
pub struct Error {
    pub inner: OwnPtr<ErrorObject>,
}

impl Error {
    /// The heap record this handle owns.
    pub open spec fn obj(self) -> ErrorObject {
        *self.inner.ptr
    }

    /// The outermost payload and its type identity.
    pub open spec fn variant(self) -> Variant {
        self.obj().variant
    }

    /// The call site recorded for the outermost layer.
    pub open spec fn site(self) -> Location {
        self.obj().location
    }

    /// The messages of this error and its causes, outermost first.
    pub open spec fn msgs(self) -> Seq<Seq<char>> {
        obj_chain(self.obj())
    }

    /// The outermost message alone.
    pub open spec fn message(self) -> Seq<char> {
        message_of(self.variant())
    }

    /// Builds an ad-hoc error from a displayable message. The message's own
    /// type identity — static or owned text — is kept for later downcasts.
    /// A backtrace is attached only when the platform facility reports one
    /// as captured.
    pub fn msg<M: IntoMsg>(message: M, site: Location) -> (r: Error)
        ensures
            r.variant() == Variant::Adhoc(message.msg_spec()),
            r.site() == site,
            r.msgs() == seq![message.msg_spec()@],
    {
        let backtrace = capture_backtrace();
        Error {
            inner: OwnPtr::new(Box::new(ErrorObject {
                variant: Variant::Adhoc(message.into_msg()),
                location: site,
                backtrace,
            })),
        }
    }

    /// Builds an error from a foreign error value; the cause chain the
    /// foreign value reports becomes this error's ancestry. A fresh
    /// backtrace is asked of the platform only when the foreign value does
    /// not already carry one.
    pub fn new(error: ForeignError, site: Location) -> (r: Error)
        ensures
            r.variant() == Variant::Standard(error),
            r.site() == site,
            r.msgs() == foreign_chain(error),
            error.backtrace is Some ==> r.obj().backtrace is None,
    {
        let backtrace = if error.backtrace.is_some() {
            None
        } else {
            capture_backtrace()
        };
        Error {
            inner: OwnPtr::new(Box::new(ErrorObject {
                variant: Variant::Standard(error),
                location: site,
                backtrace,
            })),
        }
    }

    /// Builds an error from an already erased foreign error, with the same
    /// capture-only-if-absent backtrace policy as [`Error::new`].
    pub fn from_boxed(error: BoxedError, site: Location) -> (r: Error)
        ensures
            r.variant() == Variant::Boxed(error),
            r.site() == site,
            r.msgs() == foreign_chain(error.inner),
            error.inner.backtrace is Some ==> r.obj().backtrace is None,
    {
        let backtrace = if error.inner.backtrace.is_some() {
            None
        } else {
            capture_backtrace()
        };
        Error {
            inner: OwnPtr::new(Box::new(ErrorObject {
                variant: Variant::Boxed(error),
                location: site,
                backtrace,
            })),
        }
    }

    /// Wraps this error in a context layer carrying `context` as its
    /// message. The wrapped error is owned by the new layer and kept whole:
    /// its own message, location, backtrace and ancestry all stay as they
    /// were. The new layer records the call site it was created at and
    /// captures no backtrace of its own.
    pub fn context<C: IntoMsg>(self, context: C, site: Location) -> (r: Error)
        ensures
            r.variant() matches Variant::Context(m, src) && m == context.msg_spec() && *src
                == self.obj(),
            r.site() == site,
            r.obj().backtrace is None,
            r.msgs() == seq![context.msg_spec()@] + self.msgs(),
    {
        let source = self.inner.boxed();
        Error {
            inner: OwnPtr::new(Box::new(ErrorObject {
                variant: Variant::Context(context.into_msg(), source),
                location: site,
                backtrace: None,
            })),
        }
    }

    /// The recorded call site of the outermost layer.
    pub fn location(&self) -> (r: Location)
        ensures
            r == self.site(),
    {
        self.inner.ptr.location
    }

    /// The file of the recorded call site.
    pub fn file(&self) -> (r: &'static str)
        ensures
            r == self.site().file,
    {
        self.inner.ptr.location.file
    }

    /// The line of the recorded call site.
    pub fn line(&self) -> (r: u32)
        ensures
            r == self.site().line,
    {
        self.inner.ptr.location.line
    }

    /// The column of the recorded call site.
    pub fn column(&self) -> (r: u32)
        ensures
            r == self.site().column,
    {
        self.inner.ptr.location.column
    }

    /// The backtrace captured for the outermost layer, if any.
    pub fn backtrace(&self) -> (r: &Option<String>)
        ensures
            *r == self.obj().backtrace,
    {
        &self.inner.ptr.backtrace
    }
}

/// Law: wrapping an error in a context layer prepends exactly one message
/// and keeps the prior chain whole and in order — the first link of the
/// new chain is the context message, the second is the wrapped error's
/// outermost message, and every later link stands where it stood before.
/// The premise is what [`Error::context`] ensures of its result.
pub proof fn lemma_context_preserves_chain(e: Error, r: Error, m: Msg)
    requires
        r.msgs() == seq![m@] + e.msgs(),
    ensures
        r.msgs().len() == e.msgs().len() + 1,
        r.msgs()[0] == m@,
        r.msgs().skip(1) == e.msgs(),
        forall|i: int| 0 <= i < e.msgs().len() ==> r.msgs()[i + 1] == e.msgs()[i],
{
    lemma_obj_chain_first(e.obj());
    assert((seq![m@] + e.msgs()).skip(1) =~= e.msgs());
}

/// Law: an error built by wrapping a base ad-hoc error in any number of
/// context layers has a chain exactly one longer than the number of
/// layers. The premise is the accumulated contract of the `context` calls:
/// the context messages, outermost first, stand before the base chain.
pub proof fn lemma_nested_context_length(ctx: Seq<Seq<char>>, base: Error, r: Error)
    requires
        base.variant() matches Variant::Adhoc(_),
        r.msgs() == ctx + base.msgs(),
    ensures
        r.msgs().len() == ctx.len() + 1,
{
    lemma_obj_chain_first(base.obj());
}

} // verus!
