//! A type-erased error container: one owning handle over a failure value, its
//! causal chain, context wrapping, rendering, and downcasting.

mod backtrace;
mod chain;
mod context;
mod error;
mod fmt;
mod kind;
mod ptr;

pub use backtrace::TraceStatus;
pub use chain::{Chain, ChainState};
pub use context::{Context, Sealed, StdError};
pub use error::{
    BoxedError, ConcreteError, ContextError, DisplayError, Error, ErrorImpl, Failure, MessageError,
    TypeTag,
};
pub use fmt::{has_prefix, indent, render_debug, to_decimal, trim_end, Indented};
pub use kind::{Adhoc, AdhocKind, Boxed, BoxedKind, Trait, TraitKind};
pub use ptr::{CastTo, Mut, Own, Ref};
pub use std::backtrace::Backtrace;
