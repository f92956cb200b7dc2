//! Choice of construction strategy by the shape of the input value: an ad-hoc
//! message, a concrete error, or a failure object that was erased before.
//!
//! Each shape has a marker trait whose `anyhow_kind` method yields the marker
//! value of its strategy; method resolution picks the most specific one, and
//! the marker's `new` builds the container.

use vstd::prelude::*;
use crate::backtrace::capture;
use crate::error::{backtrace_if_absent, BoxedError, ConcreteError, Error, Failure, MessageError};

verus! {

/// Strategy for a value that only renders as display and debug text.
pub struct Adhoc;

/// Shape of a value that renders as display and debug text.
pub trait AdhocKind: Sized {
    fn anyhow_kind(&self) -> Adhoc {
        Adhoc
    }
}

impl<'a> AdhocKind for &'a MessageError {

}

impl Adhoc {
    /// Container whose payload is the message; it has no cause, and a trace is
    /// captured now.
    pub fn new(self, message: MessageError) -> (r: Error)
        ensures
            r.object() == Failure::Message(message),
            r.inner.ptr.backtrace is Some,
    {
        Error::from_adhoc(message, Some(capture()))
    }
}

/// Strategy for a value that converts into a container on its own.
pub struct Trait;

/// Shape of a value that converts into a container on its own.
pub trait TraitKind: Sized {
    fn anyhow_kind(&self) -> Trait {
        Trait
    }
}

impl TraitKind for ConcreteError {

}

impl Trait {
    /// Container over a concrete error, which keeps its own cause and trace;
    /// a trace is captured only where the error provides none.
    pub fn new(self, error: ConcreteError) -> (r: Error)
        ensures
            r.object() == Failure::Concrete(error),
            error.backtrace is Some ==> r.inner.ptr.backtrace is None,
            error.backtrace is None ==> r.inner.ptr.backtrace is Some,
    {
        Error::new(error)
    }
}

/// Strategy for a failure object that was erased before.
pub struct Boxed;

/// Shape of a failure object that was erased before.
pub trait BoxedKind: Sized {
    fn anyhow_kind(&self) -> Boxed {
        Boxed
    }
}

impl BoxedKind for Box<Failure> {

}

impl Boxed {
    /// Container over the erased object; a trace is captured only where the
    /// object provides none.
    pub fn new(self, error: Box<Failure>) -> (r: Error)
        ensures
            r.object() == Failure::Boxed(BoxedError(error)),
            (*error).provided_trace() is Some ==> r.inner.ptr.backtrace is None,
            (*error).provided_trace() is None ==> r.inner.ptr.backtrace is Some,
    {
        let backtrace = backtrace_if_absent(&*error);
        Error::from_boxed(error, backtrace)
    }
}

} // verus!
