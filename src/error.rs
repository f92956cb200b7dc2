//! The failure values the container can hold, the container itself, and the
//! mathematical model they are read through: display text, cause, causal
//! chain and trace.

use vstd::prelude::*;
use crate::backtrace::capture;
use crate::chain::Chain;
use crate::ptr::Own;
use std::backtrace::Backtrace;

verus! {

/// The value behind an optional reference.
pub open spec fn unref<T>(o: Option<&T>) -> Option<T> {
    match o {
        Some(x) => Some(*x),
        None => None,
    }
}

/// Identity of the concrete payload type, checked before a downcast.
#[derive(PartialEq, Eq, Structural, Clone, Copy, Debug)]
pub enum TypeTag {
    Message,
    Display,
    Boxed,
    Context,
    Concrete(u64),
}

/// An ad-hoc message that renders both as display text and as debug text.
pub struct MessageError {
    pub display: String,
    pub debug: String,
}

/// A message that only renders as display text; its debug text is the same.
pub struct DisplayError(pub String);

/// A failure object that was already erased before it reached the container.
pub struct BoxedError(pub Box<Failure>);

/// A concrete error type of a caller: its identity, its two renderings, its
/// own cause and the trace it carries, if any.
pub struct ConcreteError {
    pub type_id: u64,
    pub display: String,
    pub debug: String,
    pub source: Option<Box<Failure>>,
    pub backtrace: Option<Backtrace>,
}

/// A context value wrapped around an existing container: the context is the
/// display text, the wrapped error is the cause.
pub struct ContextError {
    pub context: String,
    pub error: Error,
}

/// A failure value of any of the shapes above.
pub enum Failure {
    Message(MessageError),
    Display(DisplayError),
    Boxed(BoxedError),
    Concrete(ConcreteError),
    Context(ContextError),
}

/// The single allocation behind a container: an optional captured trace and
/// the payload.
pub struct ErrorImpl {
    pub backtrace: Option<Backtrace>,
    pub object: Failure,
}

/// The owning, type-erased error handle.
pub struct Error {
    pub inner: Own<ErrorImpl>,
}

impl Failure {
    /// Display text of the failure.
    pub open spec fn text(self) -> Seq<char>
        decreases self,
    {
        match self {
            Failure::Message(m) => m.display@,
            Failure::Display(d) => d.0@,
            Failure::Boxed(b) => (*b.0).text(),
            Failure::Concrete(c) => c.display@,
            Failure::Context(c) => c.context@,
        }
    }

    /// The failure that caused this one, if any.
    pub open spec fn cause(self) -> Option<Failure>
        decreases self,
    {
        match self {
            Failure::Message(_) => None,
            Failure::Display(_) => None,
            Failure::Boxed(b) => (*b.0).cause(),
            Failure::Concrete(c) => match c.source {
                Some(s) => Some(*s),
                None => None,
            },
            Failure::Context(c) => Some(c.error.inner.ptr.object),
        }
    }

    /// Identity token of the payload's type.
    pub open spec fn tag(self) -> TypeTag {
        match self {
            Failure::Message(_) => TypeTag::Message,
            Failure::Display(_) => TypeTag::Display,
            Failure::Boxed(_) => TypeTag::Boxed,
            Failure::Concrete(c) => TypeTag::Concrete(c.type_id),
            Failure::Context(_) => TypeTag::Context,
        }
    }

    /// The trace that the payload itself provides, if any.
    pub open spec fn provided_trace(self) -> Option<Backtrace>
        decreases self,
    {
        match self {
            Failure::Message(_) => None,
            Failure::Display(_) => None,
            Failure::Boxed(b) => (*b.0).provided_trace(),
            Failure::Concrete(c) => c.backtrace,
            Failure::Context(c) => c.error.inner.ptr.trace(),
        }
    }

    /// The causal chain from this failure: itself, its cause, the cause of
    /// that, and so on down to a failure without a cause.
    pub open spec fn chain(self) -> Seq<Failure>
        decreases self,
    {
        match self.cause() {
            None => seq![self],
            Some(c) => {
                if decreases_to!(self => c) {
                    seq![self] + c.chain()
                } else {
                    seq![self]
                }
            }
        }
    }
}

impl ErrorImpl {
    /// The trace of the container: the one captured with it, else the one its
    /// payload provides.
    pub open spec fn trace(self) -> Option<Backtrace>
        decreases self,
    {
        match self.backtrace {
            Some(b) => Some(b),
            None => self.object.provided_trace(),
        }
    }
}

impl Error {
    /// The payload of the container.
    pub open spec fn object(self) -> Failure {
        self.inner.ptr.object
    }

    /// The causal chain of the container, starting with its payload.
    pub open spec fn causal_chain(self) -> Seq<Failure> {
        self.object().chain()
    }
}

impl Failure {
    /// Display text of the failure.
    pub fn to_string(&self) -> (r: String)
        ensures
            r@ == self.text(),
        decreases self,
    {
        match self {
            Failure::Message(m) => m.display.clone(),
            Failure::Display(d) => d.0.clone(),
            Failure::Boxed(b) => b.0.to_string(),
            Failure::Concrete(c) => c.display.clone(),
            Failure::Context(c) => c.context.clone(),
        }
    }

    /// The failure that caused this one, if any.
    pub fn source(&self) -> (r: Option<&Failure>)
        ensures
            unref(r) == self.cause(),
        decreases self,
    {
        match self {
            Failure::Message(_) => None,
            Failure::Display(_) => None,
            Failure::Boxed(b) => b.0.source(),
            Failure::Concrete(c) => match &c.source {
                Some(s) => Some(&**s),
                None => None,
            },
            Failure::Context(c) => Some(&c.error.inner.ptr.object),
        }
    }

    /// Identity token of the payload's type.
    pub fn type_tag(&self) -> (r: TypeTag)
        ensures
            r == self.tag(),
    {
        match self {
            Failure::Message(_) => TypeTag::Message,
            Failure::Display(_) => TypeTag::Display,
            Failure::Boxed(_) => TypeTag::Boxed,
            Failure::Concrete(c) => TypeTag::Concrete(c.type_id),
            Failure::Context(_) => TypeTag::Context,
        }
    }

    /// The trace that the payload itself provides, if any.
    pub fn backtrace(&self) -> (r: Option<&Backtrace>)
        ensures
            unref(r) == self.provided_trace(),
        decreases self,
    {
        match self {
            Failure::Message(_) => None,
            Failure::Display(_) => None,
            Failure::Boxed(b) => b.0.backtrace(),
            Failure::Concrete(c) => c.backtrace.as_ref(),
            Failure::Context(c) => c.error.inner.ptr.backtrace(),
        }
    }
}

impl ErrorImpl {
    /// The trace of the container: the one captured with it, else the one its
    /// payload provides.
    pub fn backtrace(&self) -> (r: Option<&Backtrace>)
        ensures
            unref(r) == self.trace(),
        decreases self,
    {
        match &self.backtrace {
            Some(b) => Some(b),
            None => self.object.backtrace(),
        }
    }
}

/// A trace captured now, unless `error` already provides one.
pub(crate) fn backtrace_if_absent(error: &Failure) -> (r: Option<Backtrace>)
    ensures
        error.provided_trace() is Some ==> r is None,
        error.provided_trace() is None ==> r is Some,
{
    match error.backtrace() {
        Some(_) => None,
        None => Some(capture()),
    }
}

impl Error {
    /// Places `object` and `backtrace` in a fresh allocation.
    pub fn construct(object: Failure, backtrace: Option<Backtrace>) -> (r: Error)
        ensures
            r.object() == object,
            r.inner.ptr.backtrace == backtrace,
    {
        Error { inner: Own::new(Box::new(ErrorImpl { backtrace, object })) }
    }

    /// Container over a concrete error; a trace is captured unless the error
    /// provides one.
    pub fn new(error: ConcreteError) -> (r: Error)
        ensures
            r.object() == Failure::Concrete(error),
            error.backtrace is Some ==> r.inner.ptr.backtrace is None,
            error.backtrace is None ==> r.inner.ptr.backtrace is Some,
    {
        let object = Failure::Concrete(error);
        let backtrace = backtrace_if_absent(&object);
        Error::construct(object, backtrace)
    }

    /// Container over an ad-hoc message, with the given trace.
    pub fn from_adhoc(message: MessageError, backtrace: Option<Backtrace>) -> (r: Error)
        ensures
            r.object() == Failure::Message(message),
            r.inner.ptr.backtrace == backtrace,
    {
        Error::construct(Failure::Message(message), backtrace)
    }

    /// Container over a display-only message, with the given trace.
    pub fn from_display(message: String, backtrace: Option<Backtrace>) -> (r: Error)
        ensures
            r.object() == Failure::Display(DisplayError(message)),
            r.inner.ptr.backtrace == backtrace,
    {
        Error::construct(Failure::Display(DisplayError(message)), backtrace)
    }

    /// Container over `context` wrapped around a concrete error, with the
    /// given trace.
    pub fn from_context(context: String, error: ConcreteError, backtrace: Option<Backtrace>) -> (r:
        Error)
        ensures
            (r.object() matches Failure::Context(c) && c.context == context && c.error.object()
                == Failure::Concrete(error) && c.error.inner.ptr.backtrace is None),
            r.inner.ptr.backtrace == backtrace,
    {
        let inner = Error::construct(Failure::Concrete(error), None);
        Error::construct(Failure::Context(ContextError { context, error: inner }), backtrace)
    }

    /// Container over a failure object that was erased before, with the
    /// given trace.
    pub fn from_boxed(error: Box<Failure>, backtrace: Option<Backtrace>) -> (r: Error)
        ensures
            r.object() == Failure::Boxed(BoxedError(error)),
            r.inner.ptr.backtrace == backtrace,
    {
        Error::construct(Failure::Boxed(BoxedError(error)), backtrace)
    }

    /// Wraps the container in `context`: the context becomes the display text
    /// and the container the cause. No trace is captured: the wrapped
    /// container's trace serves.
    pub fn context(self, context: String) -> (r: Error)
        ensures
            *r.inner.ptr == wrapped(self, context),
    {
        Error::construct(Failure::Context(ContextError { context, error: self }), None)
    }

    /// The trace of the container, if one was captured with it or its payload
    /// provides one.
    pub fn backtrace(&self) -> (r: Option<&Backtrace>)
        ensures
            unref(r) == self.inner.ptr.trace(),
    {
        self.inner.ptr.backtrace()
    }

    /// Cursor over the causal chain, starting with the payload.
    pub fn chain(&self) -> (r: Chain<'_>)
        ensures
            r@ == self.causal_chain(),
    {
        Chain::new(&self.inner.ptr.object)
    }

    /// The last failure of the causal chain.
    pub fn root_cause(&self) -> (r: &Failure)
        ensures
            *r == self.causal_chain().last(),
    {
        let mut cur: &Failure = &self.inner.ptr.object;
        proof {
            lemma_chain_unfold(*cur);
        }
        loop
            invariant
                cur.chain().last() == self.causal_chain().last(),
            decreases cur.chain().len(),
        {
            proof {
                lemma_chain_unfold(*cur);
            }
            match cur.source() {
                None => {
                    return cur;
                },
                Some(next) => {
                    proof {
                        lemma_chain_unfold(*next);
                    }
                    cur = next;
                },
            }
        }
    }

    /// Recovers the payload when its type is `tag`; otherwise hands the
    /// container back unchanged.
    pub fn downcast(self, tag: TypeTag) -> (r: Result<Failure, Error>)
        ensures
            r == downcast_result(self, tag),
    {
        if self.inner.ptr.object.type_tag() == tag {
            let inner = self.inner.boxed();
            Ok(inner.object)
        } else {
            Err(self)
        }
    }

    /// The payload, when its type is `tag`.
    pub fn downcast_ref(&self, tag: TypeTag) -> (r: Option<&Failure>)
        ensures
            self.object().tag() == tag ==> unref(r) == Some(self.object()),
            self.object().tag() != tag ==> r is None,
    {
        if self.inner.ptr.object.type_tag() == tag {
            Some(&self.inner.ptr.object)
        } else {
            None
        }
    }

    /// Exclusive access to the payload, when its type is `tag`.
    pub fn downcast_mut(&mut self, tag: TypeTag) -> (r: Option<&mut Failure>)
        ensures
            old(self).object().tag() == tag ==> (r matches Some(p) && *p == old(self).object()
                && final(self).object() == *final(p) && final(self).inner.ptr.backtrace == old(
                self,
            ).inner.ptr.backtrace),
            old(self).object().tag() != tag ==> r is None && *final(self) == *old(self),
    {
        if self.inner.ptr.object.type_tag() == tag {
            Some(&mut self.inner.ptr.object)
        } else {
            None
        }
    }
}

/// Downcasting a container built from `f` to the type of `f` gives back `f`;
/// downcasting it to any other type gives back the container itself, with its
/// payload and so its display text unchanged.
pub proof fn lemma_downcast_round_trip(e: Error, f: Failure, other: TypeTag)
    requires
        e.object() == f,
        other != f.tag(),
    ensures
        downcast_result(e, f.tag()) == Ok::<Failure, Error>(f),
        downcast_result(e, other) == Err::<Failure, Error>(e),
        downcast_result(e, other)->Err_0.object().text() == e.object().text(),
{
}

/// What downcasting `e` to the type `tag` yields: the payload on a match,
/// otherwise the container itself.
pub open spec fn downcast_result(e: Error, tag: TypeTag) -> Result<Failure, Error> {
    if e.object().tag() == tag {
        Ok(e.object())
    } else {
        Err(e)
    }
}

/// The container that wrapping `e` in `context` yields: no trace of its own,
/// the context as payload text, `e` as cause.
pub open spec fn wrapped(e: Error, context: String) -> ErrorImpl {
    ErrorImpl { backtrace: None, object: Failure::Context(ContextError { context, error: e }) }
}

/// Wrapping keeps the trace: the wrapped container's trace is the trace of the
/// container it wraps, not a second capture.
pub proof fn lemma_wrap_keeps_trace(e: Error, context: String)
    ensures
        wrapped(e, context).trace() == e.inner.ptr.trace(),
{
}

/// A cause is always structurally inside the failure it belongs to.
pub proof fn lemma_cause_decreases(f: Failure)
    ensures
        f.cause() matches Some(c) ==> decreases_to!(f => c),
    decreases f,
{
    if let Failure::Boxed(b) = f {
        lemma_cause_decreases(*b.0);
    }
}

/// The chain of a failure is the failure followed by the chain of its cause.
pub proof fn lemma_chain_unfold(f: Failure)
    ensures
        f.chain() == seq![f] + match f.cause() {
            Some(c) => c.chain(),
            None => Seq::<Failure>::empty(),
        },
        f.chain().len() >= 1,
        f.chain()[0] == f,
{
    lemma_cause_decreases(f);
    match f.cause() {
        Some(c) => {},
        None => {
            assert(f.chain() == seq![f] + Seq::<Failure>::empty());
        },
    }
}

} // verus!
