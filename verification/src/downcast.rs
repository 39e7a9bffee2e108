//! Recovering a concrete typed view of an erased payload.
//!
//! Type matching goes by the payload's installed shape — a process-stable
//! type identity fixed at construction — never by rendered text, so two
//! payload types that happen to share a display string are never confused.
//! A downcast looks only at the outermost layer: a context layer answers
//! for its message type alone, and reaching a wrapped payload means walking
//! the chain to the layer that owns it.

use vstd::prelude::*;

use crate::error::{Error, ErrorObject, Variant};
use crate::foreign::{BoxedError, ForeignError};
use crate::msg::Msg;
use crate::ptr::OwnPtr;

verus! {

/// A concrete payload type that an erased error can be downcast to.
///
/// `matches` is the type-identity comparison; `extract` names the payload
/// value carried when it holds. Matching never looks past the outermost
/// layer.
pub trait Downcast: Sized {
    /// Whether the outermost payload of `v` has this concrete type.
    spec fn matches(v: Variant) -> bool;

    /// The payload value, meaningful when `matches(v)` holds.
    spec fn extract(v: Variant) -> Self;

    /// Borrows the payload if and only if the type identity agrees.
    fn try_ref(v: &Variant) -> (r: Option<&Self>)
        ensures
            match r {
                Some(p) => Self::matches(*v) && *p == Self::extract(*v),
                None => !Self::matches(*v),
            },
    ;

    /// The variant with its payload replaced; meaningful when `matches(v)`
    /// holds.
    spec fn replace(v: Variant, p: Self) -> Variant;

    /// Exclusive access to the payload when the type identity agrees; a
    /// mismatch leaves the variant untouched.
    fn try_mut(v: &mut Variant) -> (r: Option<&mut Self>)
        ensures
            match r {
                Some(p) => Self::matches(*old(v)) && *p == Self::extract(*old(v)) && *final(v)
                    == Self::replace(*old(v), *final(p)),
                None => !Self::matches(*old(v)) && *final(v) == *old(v),
            },
    ;

    /// Moves the payload out on a match; hands the variant back untouched
    /// otherwise.
    fn try_take(v: Variant) -> (r: Result<Self, Variant>)
        ensures
            match r {
                Ok(p) => Self::matches(v) && p == Self::extract(v),
                Err(w) => !Self::matches(v) && w == v,
            },
    ;
}

impl Downcast for String {
    open spec fn matches(v: Variant) -> bool {
        ||| v matches Variant::Adhoc(Msg::Owned(_))
        ||| v matches Variant::Context(Msg::Owned(_), _)
    }

    open spec fn extract(v: Variant) -> String {
        match v {
            Variant::Adhoc(Msg::Owned(s)) => s,
            Variant::Context(Msg::Owned(s), _) => s,
            _ => vstd::pervasive::arbitrary(),
        }
    }

    open spec fn replace(v: Variant, p: String) -> Variant {
        match v {
            Variant::Adhoc(Msg::Owned(_)) => Variant::Adhoc(Msg::Owned(p)),
            Variant::Context(Msg::Owned(_), src) => Variant::Context(Msg::Owned(p), src),
            _ => v,
        }
    }

    fn try_ref(v: &Variant) -> (r: Option<&String>) {
        match v {
            Variant::Adhoc(Msg::Owned(s)) => Some(s),
            Variant::Context(Msg::Owned(s), _) => Some(s),
            _ => None,
        }
    }

    fn try_mut(v: &mut Variant) -> (r: Option<&mut String>) {
        match v {
            Variant::Adhoc(Msg::Owned(s)) => Some(s),
            Variant::Context(Msg::Owned(s), _) => Some(s),
            _ => None,
        }
    }

    fn try_take(v: Variant) -> (r: Result<String, Variant>) {
        match v {
            Variant::Adhoc(Msg::Owned(s)) => Ok(s),
            Variant::Context(Msg::Owned(s), _) => Ok(s),
            other => Err(other),
        }
    }
}

impl Downcast for &'static str {
    open spec fn matches(v: Variant) -> bool {
        ||| v matches Variant::Adhoc(Msg::Static(_))
        ||| v matches Variant::Context(Msg::Static(_), _)
    }

    open spec fn extract(v: Variant) -> &'static str {
        match v {
            Variant::Adhoc(Msg::Static(s)) => s,
            Variant::Context(Msg::Static(s), _) => s,
            _ => vstd::pervasive::arbitrary(),
        }
    }

    open spec fn replace(v: Variant, p: &'static str) -> Variant {
        match v {
            Variant::Adhoc(Msg::Static(_)) => Variant::Adhoc(Msg::Static(p)),
            Variant::Context(Msg::Static(_), src) => Variant::Context(Msg::Static(p), src),
            _ => v,
        }
    }

    fn try_ref(v: &Variant) -> (r: Option<&&'static str>) {
        match v {
            Variant::Adhoc(Msg::Static(s)) => Some(s),
            Variant::Context(Msg::Static(s), _) => Some(s),
            _ => None,
        }
    }

    fn try_mut(v: &mut Variant) -> (r: Option<&mut &'static str>) {
        match v {
            Variant::Adhoc(Msg::Static(s)) => Some(s),
            Variant::Context(Msg::Static(s), _) => Some(s),
            _ => None,
        }
    }

    fn try_take(v: Variant) -> (r: Result<&'static str, Variant>) {
        match v {
            Variant::Adhoc(Msg::Static(s)) => Ok(s),
            Variant::Context(Msg::Static(s), _) => Ok(s),
            other => Err(other),
        }
    }
}

impl Downcast for ForeignError {
    open spec fn matches(v: Variant) -> bool {
        v matches Variant::Standard(_)
    }

    open spec fn extract(v: Variant) -> ForeignError {
        match v {
            Variant::Standard(f) => f,
            _ => vstd::pervasive::arbitrary(),
        }
    }

    open spec fn replace(v: Variant, p: ForeignError) -> Variant {
        match v {
            Variant::Standard(_) => Variant::Standard(p),
            _ => v,
        }
    }

    fn try_ref(v: &Variant) -> (r: Option<&ForeignError>) {
        match v {
            Variant::Standard(f) => Some(f),
            _ => None,
        }
    }

    fn try_mut(v: &mut Variant) -> (r: Option<&mut ForeignError>) {
        match v {
            Variant::Standard(f) => Some(f),
            _ => None,
        }
    }

    fn try_take(v: Variant) -> (r: Result<ForeignError, Variant>) {
        match v {
            Variant::Standard(f) => Ok(f),
            other => Err(other),
        }
    }
}

impl Downcast for BoxedError {
    open spec fn matches(v: Variant) -> bool {
        v matches Variant::Boxed(_)
    }

    open spec fn extract(v: Variant) -> BoxedError {
        match v {
            Variant::Boxed(b) => b,
            _ => vstd::pervasive::arbitrary(),
        }
    }

    open spec fn replace(v: Variant, p: BoxedError) -> Variant {
        match v {
            Variant::Boxed(_) => Variant::Boxed(p),
            _ => v,
        }
    }

    fn try_ref(v: &Variant) -> (r: Option<&BoxedError>) {
        match v {
            Variant::Boxed(b) => Some(b),
            _ => None,
        }
    }

    fn try_mut(v: &mut Variant) -> (r: Option<&mut BoxedError>) {
        match v {
            Variant::Boxed(b) => Some(b),
            _ => None,
        }
    }

    fn try_take(v: Variant) -> (r: Result<BoxedError, Variant>) {
        match v {
            Variant::Boxed(b) => Ok(b),
            other => Err(other),
        }
    }
}

impl Error {
    /// Downcast by shared reference: a borrowed view of the payload if and
    /// only if its concrete type is `T`; no panic, no change either way.
    pub fn downcast_ref<T: Downcast>(&self) -> (r: Option<&T>)
        ensures
            match r {
                Some(p) => T::matches(self.variant()) && *p == T::extract(self.variant()),
                None => !T::matches(self.variant()),
            },
    {
        T::try_ref(&self.inner.ptr.variant)
    }

    /// Downcast by value: consumes the error; on a match the payload moves
    /// out and the rest of the record — location, backtrace and, for a
    /// context layer, the wrapped source — is discarded; on a mismatch the
    /// original error comes back whole, untouched.
    pub fn downcast<T: Downcast>(self) -> (r: Result<T, Error>)
        ensures
            T::matches(self.variant()) ==> r == Result::<T, Error>::Ok(T::extract(self.variant())),
            !T::matches(self.variant()) ==> r == Result::<T, Error>::Err(self),
    {
        let obj = self.inner.boxed();
        let ErrorObject { variant, location, backtrace } = *obj;
        match T::try_take(variant) {
            Ok(p) => Ok(p),
            Err(variant) => Err(
                Error {
                    inner: OwnPtr::new(Box::new(ErrorObject { variant, location, backtrace })),
                },
            ),
        }
    }

    /// Downcast by exclusive reference: mutable access to the payload if
    /// and only if its concrete type is `T`; a mismatch leaves the error
    /// untouched and still owned by the caller. Only the payload can be
    /// reached this way — location and backtrace stay as they were.
    pub fn downcast_mut<T: Downcast>(&mut self) -> (r: Option<&mut T>)
        ensures
            match r {
                Some(p) => T::matches(old(self).variant()) && *p == T::extract(
                    old(self).variant(),
                ) && final(self).obj() == (ErrorObject {
                    variant: T::replace(old(self).variant(), *final(p)),
                    ..old(self).obj()
                }),
                None => !T::matches(old(self).variant()) && *final(self) == *old(self),
            },
    {
        T::try_mut(&mut self.inner.ptr.variant)
    }
}

/// Law: immediately after construction from a payload, a downcast to that
/// payload's type matches and finds a value equal to the original — for
/// every constructible payload shape. Together with the constructors'
/// contracts, which pin the variant installed, and the downcast contracts
/// above, this is what a caller of `downcast_ref` right after `Error::msg`,
/// `Error::new` or `Error::from_boxed` relies on.
pub proof fn lemma_downcast_after_construction(
    s: &'static str,
    t: String,
    f: ForeignError,
    b: BoxedError,
)
    ensures
        <&'static str as Downcast>::matches(Variant::Adhoc(Msg::Static(s))),
        <&'static str as Downcast>::extract(Variant::Adhoc(Msg::Static(s))) == s,
        <String as Downcast>::matches(Variant::Adhoc(Msg::Owned(t))),
        <String as Downcast>::extract(Variant::Adhoc(Msg::Owned(t))) == t,
        <ForeignError as Downcast>::matches(Variant::Standard(f)),
        <ForeignError as Downcast>::extract(Variant::Standard(f)) == f,
        <BoxedError as Downcast>::matches(Variant::Boxed(b)),
        <BoxedError as Downcast>::extract(Variant::Boxed(b)) == b,
{
}

/// Law: attaching a context layer never breaks a downcast that succeeded
/// before it. The premise is what [`Error::context`] ensures of its
/// result: the wrapped error's record becomes the source of the new
/// layer, whole. Walking the chain one step — [`Error::source`] and
/// [`crate::chain::Chain::next`] pin that the link borrowed is exactly
/// that source — reaches a layer where the same downcast still matches
/// and yields the same payload.
pub proof fn lemma_context_keeps_downcast<T: Downcast>(e: Error, wrapped: Error)
    requires
        T::matches(e.variant()),
        wrapped.variant() matches Variant::Context(_, src) && *src == e.obj(),
    ensures
        wrapped.variant() matches Variant::Context(_, src) && T::matches((*src).variant)
            && T::extract((*src).variant) == T::extract(e.variant()),
{
}

/// Law: a downcast by value that misses leaves the original error whole —
/// same message chain, same recorded call site, same payload, so a later
/// downcast to the true type still succeeds.
pub proof fn lemma_downcast_miss_keeps_error<T: Downcast>(e: Error, r: Result<T, Error>)
    requires
        !T::matches(e.variant()),
        r == Result::<T, Error>::Err(e),
    ensures
        r matches Result::Err(back) && back.msgs() == e.msgs() && back.site() == e.site()
            && back.variant() == e.variant(),
{
}



} // verus!
