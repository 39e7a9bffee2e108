//! Lazy, restartable traversal over an error and its ancestry of causes.
//!
//! A fresh [`Chain`] can always be obtained from the same error; one chain
//! instance is a forward-only, single-pass cursor. Traversal is outermost
//! first and strictly follows the cause relation, which is acyclic by
//! construction: each layer owns at most one source, fixed when the layer
//! was created.

use vstd::prelude::*;

use crate::downcast::Downcast;
use crate::error::{message_of, obj_chain, Error, ErrorObject};
use crate::error::Variant;
use crate::foreign::{foreign_chain, ForeignError};

verus! {

/// One borrowed link of a cause chain: an error layer of this library, or
/// a cause that a foreign error reports on its own.
#[derive(Clone, Copy)]
pub enum Link<'a> {
    Obj(&'a ErrorObject),
    Foreign(&'a ForeignError),
}

/// The messages of a link and of everything below it, outermost first.
pub open spec fn link_chain(l: Link) -> Seq<Seq<char>> {
    match l {
        Link::Obj(o) => obj_chain(*o),
        Link::Foreign(f) => foreign_chain(*f),
    }
}

/// The display message of the link itself.
pub open spec fn link_message(l: Link) -> Seq<char> {
    match l {
        Link::Obj(o) => message_of(o.variant),
        Link::Foreign(f) => f.message@,
    }
}

impl<'a> Link<'a> {
    /// The message of this link, as text.
    pub fn render(&self) -> (r: String)
        ensures
            r@ == link_message(*self),
    {
        match self {
            Link::Obj(o) => {
                match &o.variant {
                    Variant::Adhoc(m) => m.render(),
                    Variant::Standard(f) => f.message.clone(),
                    Variant::Boxed(b) => b.inner.message.clone(),
                    Variant::Context(m, _) => m.render(),
                }
            },
            Link::Foreign(f) => f.message.clone(),
        }
    }

    /// Downcast this link's payload by shared reference, exactly as
    /// [`Error::downcast_ref`] answers for an outermost layer; this is how
    /// a payload wrapped under context layers is reached — walk the chain
    /// to the layer that owns it. A link borrowed from a foreign error's
    /// own cause chain carries no payload of this library and answers
    /// through [`Link::as_foreign`] instead.
    pub fn downcast_ref<T: Downcast>(&self) -> (r: Option<&T>)
        ensures
            match *self {
                Link::Obj(o) => match r {
                    Some(p) => T::matches(o.variant) && *p == T::extract(o.variant),
                    None => !T::matches(o.variant),
                },
                Link::Foreign(_) => r is None,
            },
    {
        match self {
            Link::Obj(o) => T::try_ref(&o.variant),
            Link::Foreign(_) => None,
        }
    }

    /// The foreign error value behind a link of a foreign cause chain.
    pub fn as_foreign(&self) -> (r: Option<&ForeignError>)
        ensures
            match *self {
                Link::Obj(_) => r is None,
                Link::Foreign(f) => r matches Some(g) && *g == *f,
            },
    {
        match self {
            Link::Obj(_) => None,
            Link::Foreign(f) => Some(f),
        }
    }

    /// The upstream cause of this link, if it has one: the wrapped layer of
    /// a context layer, or the cause the payload reports of itself.
    pub fn source(&self) -> (r: Option<Link<'a>>)
        ensures
            match r {
                Some(n) => link_chain(*self).len() > 1 && link_chain(n) == link_chain(
                    *self,
                ).skip(1),
                None => link_chain(*self).len() == 1,
            },
            match *self {
                Link::Obj(o) => match o.variant {
                    Variant::Adhoc(_) => r is None,
                    Variant::Standard(f) => foreign_source_post(f, r),
                    Variant::Boxed(b) => foreign_source_post(b.inner, r),
                    Variant::Context(_, src) => (r matches Some(Link::Obj(n)) && *n == *src),
                },
                Link::Foreign(f) => foreign_source_post(*f, r),
            },
    {
        match self {
            Link::Obj(o) => {
                match &o.variant {
                    Variant::Adhoc(_) => None,
                    Variant::Standard(f) => foreign_source(f),
                    Variant::Boxed(b) => foreign_source(&b.inner),
                    Variant::Context(_, src) => {
                        proof {
                            crate::error::lemma_obj_chain_first(**src);
                            lemma_cons_skip(link_chain(*self)[0], obj_chain(**src));
                        }
                        Some(Link::Obj(&*src))
                    },
                }
            },
            Link::Foreign(f) => foreign_source(f),
        }
    }
}

/// What the cause of a foreign error looks like: the link borrows exactly
/// the cause the value reports, or there is none to borrow.
pub open spec fn foreign_source_post(f: ForeignError, r: Option<Link>) -> bool {
    match f.source {
        Some(c) => r matches Some(Link::Foreign(n)) && *n == *c,
        None => r is None,
    }
}

/// The cause a foreign error reports, as a link.
fn foreign_source<'a>(f: &'a ForeignError) -> (r: Option<Link<'a>>)
    ensures
        match r {
            Some(n) => foreign_chain(*f).len() > 1 && link_chain(n) == foreign_chain(*f).skip(1),
            None => foreign_chain(*f).len() == 1,
        },
        foreign_source_post(*f, r),
{
    match &f.source {
        Some(s) => {
            proof {
                crate::error::lemma_foreign_chain_first(**s);
                lemma_cons_skip(f.message@, foreign_chain(**s));
            }
            Some(Link::Foreign(&*s))
        },
        None => None,
    }
}

/// Skipping the head of a non-empty sequence leaves its tail.
proof fn lemma_cons_skip(x: Seq<char>, t: Seq<Seq<char>>)
    ensures
        (seq![x] + t).skip(1) =~= t,
        (seq![x] + t).len() == 1 + t.len(),
{
}

/// Where a chain cursor stands: on a borrowed link, or exhausted.
#[derive(Clone, Copy)]
pub enum ChainState<'a> {
    Linked(Link<'a>),
    Done,
}

/// Iterator of a chain of source errors, outermost first; returned by
/// [`Error::chain`].
#[derive(Clone, Copy)]
pub struct Chain<'a> {
    pub state: ChainState<'a>,
}

impl<'a> Chain<'a> {
    /// The messages of the links not yet produced, outermost first.
    pub open spec fn remaining(self) -> Seq<Seq<char>> {
        match self.state {
            ChainState::Linked(l) => link_chain(l),
            ChainState::Done => seq![],
        }
    }

    /// Produces the link the cursor stands on and advances to its cause;
    /// produces nothing once the causes are exhausted.
    pub fn next(&mut self) -> (r: Option<Link<'a>>)
        ensures
            match r {
                Some(l) => {
                    &&& old(self).state matches ChainState::Linked(here) && here == l
                    &&& old(self).remaining().len() > 0
                    &&& link_chain(l) == old(self).remaining()
                    &&& link_message(l) == old(self).remaining()[0]
                    &&& final(self).remaining() == old(self).remaining().skip(1)
                },
                None => old(self).remaining().len() == 0 && *final(self) == *old(self),
            },
    {
        match self.state {
            ChainState::Linked(l) => {
                proof {
                    if let Link::Obj(o) = l {
                        crate::error::lemma_obj_chain_first(*o);
                    } else if let Link::Foreign(f) = l {
                        crate::error::lemma_foreign_chain_first(*f);
                    }
                }
                self.state = match l.source() {
                    Some(n) => ChainState::Linked(n),
                    None => ChainState::Done,
                };
                proof {
                    lemma_skip_all(link_chain(l));
                }
                Some(l)
            },
            ChainState::Done => None,
        }
    }
}

/// Skipping past the only element leaves nothing.
proof fn lemma_skip_all(s: Seq<Seq<char>>)
    ensures
        s.len() == 1 ==> s.skip(1) =~= Seq::<Seq<char>>::empty(),
{
}

impl Error {
    /// A fresh cursor over this error and its ancestry of causes,
    /// outermost first.
    pub fn chain<'a>(&'a self) -> (r: Chain<'a>)
        ensures
            r.remaining() == self.msgs(),
            r.state matches ChainState::Linked(Link::Obj(o)) && *o == self.obj(),
    {
        Chain { state: ChainState::Linked(Link::Obj(&*self.inner.ptr)) }
    }

    /// One step along the cause relation: the upstream cause of the
    /// outermost layer, if any.
    pub fn source<'a>(&'a self) -> (r: Option<Link<'a>>)
        ensures
            match r {
                Some(l) => self.msgs().len() > 1 && link_chain(l) == self.msgs().skip(1),
                None => self.msgs().len() == 1,
            },
            match self.variant() {
                Variant::Adhoc(_) => r is None,
                Variant::Standard(f) => foreign_source_post(f, r),
                Variant::Boxed(b) => foreign_source_post(b.inner, r),
                Variant::Context(_, src) => (r matches Some(Link::Obj(n)) && *n == *src),
            },
    {
        let head: Link<'a> = Link::Obj(&*self.inner.ptr);
        head.source()
    }
}

/// Law: what one step along the cause relation yields, by payload shape.
/// An ad-hoc error has no upstream cause, so [`Error::source`] — whose
/// contract ties its answer to the chain length — returns nothing for it;
/// an error wrapping a foreign value that reports a cause has that cause's
/// message as the second link of its chain, so `source` yields a link
/// carrying exactly that message.
pub proof fn lemma_source_by_variant(e: Error)
    ensures
        match e.variant() {
            Variant::Adhoc(_) => e.msgs().len() == 1,
            Variant::Standard(f) => match f.source {
                Some(c) => e.msgs().len() > 1 && e.msgs()[1] == (*c).message@,
                None => e.msgs().len() == 1,
            },
            _ => true,
        },
{
    if let Variant::Standard(f) = e.variant() {
        if let Some(c) = f.source {
            crate::error::lemma_foreign_chain_first(*c);
            assert(e.msgs() == seq![f.message@] + foreign_chain(*c));
        }
    }
}

} // verus!
