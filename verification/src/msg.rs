//! Message payloads for ad-hoc errors and context layers.
//!
//! A message built from a string literal stays downcastable to
//! `&'static str`; one built at run time stays downcastable to `String`.
//! The distinction is the payload's type identity, so it is carried in the
//! value itself.

use vstd::prelude::*;

verus! {

/// A display message: either a borrowed static string or an owned one.
#[derive(Debug)]
pub enum Msg {
    Static(&'static str),
    Owned(String),
}

impl View for Msg {
    type V = Seq<char>;

    open spec fn view(&self) -> Seq<char> {
        match self {
            Msg::Static(s) => s@,
            Msg::Owned(s) => s@,
        }
    }
}

impl Msg {
    /// The message text, as an owned string.
    pub fn render(&self) -> (r: String)
        ensures
            r@ == self@,
    {
        match self {
            Msg::Static(s) => (*s).to_owned(),
            Msg::Owned(s) => s.clone(),
        }
    }
}

/// The types a message layer can be built from; each remembers its own type
/// identity inside the resulting [`Msg`].
pub trait IntoMsg: Sized {
    /// The message value this payload becomes.
    spec fn msg_spec(self) -> Msg;

    /// Wraps the payload, keeping its type identity.
    fn into_msg(self) -> (m: Msg)
        ensures
            m == self.msg_spec(),
    ;
}

impl IntoMsg for &'static str {
    open spec fn msg_spec(self) -> Msg {
        Msg::Static(self)
    }

    fn into_msg(self) -> (m: Msg)
    {
        Msg::Static(self)
    }
}

impl IntoMsg for String {
    open spec fn msg_spec(self) -> Msg {
        Msg::Owned(self)
    }

    fn into_msg(self) -> (m: Msg)
    {
        Msg::Owned(self)
    }
}

impl IntoMsg for Msg {
    open spec fn msg_spec(self) -> Msg {
        self
    }

    fn into_msg(self) -> (m: Msg)
    {
        self
    }
}

} // verus!
