//! Context wrapping: a displayable context becomes the new head of a failure,
//! and the failure becomes its cause.

use vstd::prelude::*;
use crate::backtrace::capture;
use crate::error::{ConcreteError, Error, Failure};
use std::backtrace::Backtrace;

verus! {

/// A failure that can be wrapped in context.
pub trait StdError: Sized {
    /// The causal chain of the failure.
    spec fn chain_of(&self) -> Seq<Failure>;

    /// The trace the failure carries, if any.
    spec fn trace_of(&self) -> Option<Backtrace>;

    /// A container whose display text is `context` and whose cause is this
    /// failure; a trace is captured only where the failure carries none.
    fn ext_context(self, context: String) -> (r: Error)
        ensures
            r.object().text() == context@,
            r.causal_chain().drop_first() == self.chain_of(),
            self.trace_of() is Some ==> r.inner.ptr.trace() == self.trace_of(),
    ;
}

impl StdError for ConcreteError {
    open spec fn chain_of(&self) -> Seq<Failure> {
        Failure::Concrete(*self).chain()
    }

    open spec fn trace_of(&self) -> Option<Backtrace> {
        self.backtrace
    }

    fn ext_context(self, context: String) -> (r: Error) {
        let backtrace = match &self.backtrace {
            Some(_) => None,
            None => Some(capture()),
        };
        let ghost me = self;
        let r = Error::from_context(context, self, backtrace);
        proof {
            crate::error::lemma_chain_unfold(r.object());
            if let Failure::Context(c) = r.object() {
                assert(c.error.object().provided_trace() == me.backtrace);
                assert(c.error.inner.ptr.trace() == me.backtrace);
            }
        }
        r
    }
}

impl StdError for Error {
    open spec fn chain_of(&self) -> Seq<Failure> {
        self.causal_chain()
    }

    open spec fn trace_of(&self) -> Option<Backtrace> {
        self.inner.ptr.trace()
    }

    fn ext_context(self, context: String) -> (r: Error) {
        let r = self.context(context);
        proof {
            crate::error::lemma_chain_unfold(r.object());
        }
        r
    }
}

/// Marks the types that `Context` is implemented for.
pub trait Sealed {

}

impl<T, E: StdError> Sealed for Result<T, E> {

}

impl<T> Sealed for Option<T> {

}

/// Attaches context to the failure of a `Result`, or to the absence of a value
/// in an `Option`.
pub trait Context<T, E>: Sealed + Sized {
    /// The value on success, if any.
    spec fn success(&self) -> Option<T>;

    /// The causal chain of the failure; empty where there is no failure object.
    spec fn failure_chain(&self) -> Seq<Failure>;

    /// The trace the failure carries, if any.
    spec fn failure_trace(&self) -> Option<Backtrace>;

    /// The value on success; otherwise a container whose display text is
    /// `context` and whose causes are the failure's chain.
    fn context(self, context: String) -> (r: Result<T, Error>)
        ensures
            self.success() matches Some(v) ==> r == Ok::<T, Error>(v),
            self.success() is None ==> (r matches Err(e) && e.object().text() == context@
                && e.causal_chain().drop_first() == self.failure_chain()),
            self.success() is None && self.failure_trace() is Some ==> (r matches Err(e)
                && e.inner.ptr.trace() == self.failure_trace()),
    ;

    /// As `context`, with the context computed by `f` only on failure.
    fn with_context<F: FnOnce() -> String>(self, f: F) -> (r: Result<T, Error>)
        requires
            self.success() is None ==> f.requires(()),
        ensures
            self.success() matches Some(v) ==> r == Ok::<T, Error>(v),
            self.success() is None ==> (r matches Err(e) && (exists|c: String|
                f.ensures((), c) && e.object().text() == c@)
                && e.causal_chain().drop_first() == self.failure_chain()),
            self.success() is None && self.failure_trace() is Some ==> (r matches Err(e)
                && e.inner.ptr.trace() == self.failure_trace()),
    ;
}

impl<T, E: StdError> Context<T, E> for Result<T, E> {
    open spec fn success(&self) -> Option<T> {
        match self {
            Ok(v) => Some(*v),
            Err(_) => None,
        }
    }

    open spec fn failure_chain(&self) -> Seq<Failure> {
        match self {
            Ok(_) => Seq::empty(),
            Err(e) => e.chain_of(),
        }
    }

    open spec fn failure_trace(&self) -> Option<Backtrace> {
        match self {
            Ok(_) => None,
            Err(e) => e.trace_of(),
        }
    }

    fn context(self, context: String) -> (r: Result<T, Error>) {
        match self {
            Ok(ok) => Ok(ok),
            Err(error) => Err(error.ext_context(context)),
        }
    }

    fn with_context<F: FnOnce() -> String>(self, f: F) -> (r: Result<T, Error>) {
        match self {
            Ok(ok) => Ok(ok),
            Err(error) => {
                let c = f();
                Err(error.ext_context(c))
            },
        }
    }
}

/// Context on an absent value: any container that `context` may return for
/// `None` has no cause, and its display text is exactly the context.
pub proof fn lemma_context_on_absent<T>(o: Option<T>, context: String, e: Error)
    requires
        o is None,
        e.object().text() == context@,
        e.causal_chain().drop_first() == Context::<T, core::convert::Infallible>::failure_chain(
            &o,
        ),
    ensures
        e.object().cause() is None,
        e.causal_chain() == seq![e.object()],
        e.object().text() == context@,
{
    crate::error::lemma_chain_unfold(e.object());
    if let Some(c) = e.object().cause() {
        crate::error::lemma_chain_unfold(c);
        assert(e.causal_chain().drop_first()[0] == c);
    }
    assert(e.causal_chain() =~= seq![e.object()]);
}

impl<T> Context<T, core::convert::Infallible> for Option<T> {
    open spec fn success(&self) -> Option<T> {
        *self
    }

    open spec fn failure_chain(&self) -> Seq<Failure> {
        Seq::empty()
    }

    open spec fn failure_trace(&self) -> Option<Backtrace> {
        None
    }

    fn context(self, context: String) -> (r: Result<T, Error>) {
        match self {
            Some(ok) => Ok(ok),
            None => {
                let r = Error::from_display(context, Some(capture()));
                proof {
                    crate::error::lemma_chain_unfold(r.object());
                }
                Err(r)
            },
        }
    }

    fn with_context<F: FnOnce() -> String>(self, f: F) -> (r: Result<T, Error>) {
        match self {
            Some(ok) => Ok(ok),
            None => {
                let c = f();
                let ghost text = c@;
                let r = Error::from_display(c, Some(capture()));
                proof {
                    crate::error::lemma_chain_unfold(r.object());
                    assert(r.object().text() == text);
                }
                Err(r)
            },
        }
    }
}

} // verus!
