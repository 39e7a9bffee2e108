//! Owning and borrowed handles to the heap record behind an error value.
//!
//! The public error type is one pointer-sized owning handle to a heap
//! record that carries its own dispatch data, so handles stay narrow even
//! when nested as context-chain links. Ownership is exclusive and moves on
//! assignment; the handle never shares or counts references.

use vstd::prelude::*;

verus! {

/// The owning handle: one word wide, exclusive owner of the heap record.
#[derive(Debug)]
pub struct OwnPtr<T> {
    pub ptr: Box<T>,
}

impl<T> OwnPtr<T> {
    /// Takes ownership of an already heap-allocated record.
    pub fn new(ptr: Box<T>) -> (r: OwnPtr<T>)
        ensures
            r.ptr == ptr,
    {
        OwnPtr { ptr }
    }

    /// Gives the heap record back to the caller.
    pub fn boxed(self) -> (r: Box<T>)
        ensures
            r == self.ptr,
    {
        self.ptr
    }

    /// A borrowed handle to the same record.
    pub fn as_ref<'a>(&'a self) -> (r: RefPtr<'a, T>)
        ensures
            *r.ptr == *self.ptr,
    {
        RefPtr { ptr: &self.ptr }
    }

    /// Exclusive access to the record.
    pub fn as_mut(&mut self) -> (r: &mut T)
        ensures
            *r == *old(self).ptr,
            *final(self).ptr == *final(r),
    {
        &mut self.ptr
    }
}

/// A borrowed, copyable handle to a record owned elsewhere.
pub struct RefPtr<'a, T> {
    pub ptr: &'a T,
}

impl<'a, T> Clone for RefPtr<'a, T> {
    fn clone(&self) -> (r: Self)
        ensures
            *r.ptr == *self.ptr,
    {
        RefPtr { ptr: self.ptr }
    }
}

impl<'a, T> RefPtr<'a, T> {
    /// Borrows a record.
    pub fn new(ptr: &'a T) -> (r: RefPtr<'a, T>)
        ensures
            *r.ptr == *ptr,
    {
        RefPtr { ptr }
    }

    /// The plain reference behind the handle.
    pub fn as_ref(self) -> (r: &'a T)
        ensures
            *r == *self.ptr,
    {
        self.ptr
    }
}

} // verus!
