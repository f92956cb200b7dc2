//! Three handle kinds over a heap-resident payload: an exclusive owning
//! handle, a shared borrowed handle and an exclusive borrowed handle.
//!
//! The exclusivity discipline is carried by the borrow checker: an owning
//! handle holds a `Box`, a shared handle a shared reference and an exclusive
//! handle a mutable reference.

use vstd::prelude::*;

verus! {

/// Owning handle over a heap allocation holding a `T`.
pub struct Own<T> {
    pub ptr: Box<T>,
}

impl<T> Own<T> {
    /// Takes ownership of a boxed payload.
    pub fn new(ptr: Box<T>) -> (r: Self)
        ensures
            *r.ptr == *ptr,
    {
        Own { ptr }
    }

    /// The same allocation viewed through the type named by `U`.
    pub fn cast<U: CastTo<Target = T>>(self) -> (r: Own<U::Target>)
        ensures
            *r.ptr == *self.ptr,
    {
        Own { ptr: self.ptr }
    }

    /// Gives the allocation back as a box, ready to be released.
    pub fn boxed(self) -> (r: Box<T>)
        ensures
            *r == *self.ptr,
    {
        self.ptr
    }

    /// Shared handle to the payload, valid while `self` is borrowed.
    pub fn by_ref(&self) -> (r: Ref<'_, T>)
        ensures
            *r.ptr == *self.ptr,
    {
        Ref { ptr: &*self.ptr }
    }

    /// Exclusive handle to the payload, valid while `self` is borrowed.
    pub fn by_mut(&mut self) -> (r: Mut<'_, T>)
        ensures
            *r.ptr == *old(self).ptr,
            *final(self).ptr == *final(r.ptr),
    {
        Mut { ptr: &mut *self.ptr }
    }
}

/// Shared borrowed handle: read-only, freely copied.
pub struct Ref<'a, T> {
    pub ptr: &'a T,
}

impl<'a, T> Clone for Ref<'a, T> {
    fn clone(&self) -> (r: Self)
        ensures
            r == *self,
    {
        Ref { ptr: self.ptr }
    }
}

impl<'a, T> Copy for Ref<'a, T> {

}

impl<'a, T> Ref<'a, T> {
    /// Handle over a shared reference.
    pub fn new(ptr: &'a T) -> (r: Self)
        ensures
            *r.ptr == *ptr,
    {
        Ref { ptr }
    }

    /// The same payload viewed through the type named by `U`.
    pub fn cast<U: CastTo<Target = T>>(self) -> (r: Ref<'a, U::Target>)
        ensures
            *r.ptr == *self.ptr,
    {
        Ref { ptr: self.ptr }
    }

    /// The payload behind the handle.
    pub fn deref(self) -> (r: &'a T)
        ensures
            *r == *self.ptr,
    {
        self.ptr
    }
}

/// Exclusive borrowed handle: the only handle in use while it lives.
pub struct Mut<'a, T> {
    pub ptr: &'a mut T,
}

impl<'a, T> Mut<'a, T> {
    /// Handle over a mutable reference.
    pub fn new(ptr: &'a mut T) -> (r: Self)
        ensures
            *r.ptr == *old(ptr),
            *final(ptr) == *final(r.ptr),
    {
        Mut { ptr }
    }

    /// The same payload viewed through the type named by `U`.
    pub fn cast<U: CastTo<Target = T>>(self) -> (r: Mut<'a, U::Target>)
        ensures
            *r.ptr == *old(self.ptr),
            *final(self.ptr) == *final(r.ptr),
    {
        Mut { ptr: self.ptr }
    }

    /// Gives up exclusive access for shared access over the same lifetime.
    pub fn by_ref(self) -> (r: Ref<'a, T>)
        ensures
            *r.ptr == *old(self.ptr),
    {
        Ref { ptr: self.ptr }
    }

    /// The payload behind the handle, for reading or overwriting.
    pub fn deref_mut(self) -> (r: &'a mut T)
        ensures
            *r == *old(self.ptr),
            *final(self.ptr) == *final(r),
    {
        self.ptr
    }
}

/// Names the target of a retyping explicitly.
pub trait CastTo {
    type Target;
}

impl<T> CastTo for T {
    type Target = T;
}

} // verus!
