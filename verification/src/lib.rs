//! A small front-end framework separating a reusable driver, which acquires
//! source text and routes diagnostics, from a pluggable tool (a lexer, a
//! parser, or a similar analysis engine) that consumes that text and produces
//! a domain-specific result.
//!
//! The framework guarantees three cross-cutting invariants no matter which
//! tool is plugged in: every piece of source text gets a unique, stable
//! identifier; every run tracks which identifiers were introduced by the
//! driver and which by the tool; and every diagnostics channel is finalized
//! exactly once per emitter, even when the tool exits early.

use vstd::prelude::*;

mod default_impls;
mod diagnostics;
mod driver;
mod source;
mod tool;

pub use crate::default_impls::DefaultDriver;
pub use crate::default_impls::DefaultDriverEnv;
pub use crate::default_impls::DriverArgs;
pub use crate::default_impls::DriverOptionalArgs;
pub use crate::default_impls::SimpleDiagnostics;
pub use crate::diagnostics::Diagnostics;
pub use crate::diagnostics::DiagnosticsEmitter;
pub use crate::driver::Driver;
pub use crate::driver::DriverError;
pub use crate::driver::DriverOutput;
pub use crate::driver::DriverSelector;
pub use crate::driver::DriverTypes;
pub use crate::driver::ToolInitEnv;
pub use crate::source::Session;
pub use crate::source::SourceArtifact;
pub use crate::source::SourceCache;
pub use crate::source::SourceId;
pub use crate::tool::Tool;
pub use crate::tool::ToolError;
pub use crate::tool::ToolInit;

verus! {

/// A sealed trait: only types of this crate may implement it.
pub trait InternalTrait {}

/// Default value for fields reserved for future expansion.
pub struct InternalDefault;

impl Default for InternalDefault {
    fn default() -> (d: Self)
        ensures
            d == (InternalDefault {}),
    {
        InternalDefault {}
    }
}

/// Type bounds for driver and tool required and optional arguments.
pub trait Args {
    /// A type for arguments that must be given.
    type RequiredArgs;

    /// A type for arguments that a caller may leave at their default.
    type OptionalArgs: Default;
}

/// A `Span` records what portion of the user's input something (e.g. a lexeme
/// or production) references; the `Span` itself holds no copy of that input,
/// only a half-open byte range `[start, end)` into it.
#[derive(Debug, Clone, Copy)]
pub struct Span {
    start: usize,
    end: usize,
}

impl Span {
    /// The byte offset at which the span starts.
    pub closed spec fn spec_start(self) -> nat {
        self.start as nat
    }

    /// The byte offset just past the span's last byte.
    pub closed spec fn spec_end(self) -> nat {
        self.end as nat
    }

    /// Records the half-open byte range `[start, end)`.
    pub fn new(start: usize, end: usize) -> (s: Span)
        ensures
            s.spec_start() == start,
            s.spec_end() == end,
    {
        Span { start, end }
    }

    /// The byte offset at which the span starts.
    pub fn start(&self) -> (r: usize)
        ensures
            r == self.spec_start(),
    {
        self.start
    }

    /// The byte offset just past the span's last byte.
    pub fn end(&self) -> (r: usize)
        ensures
            r == self.spec_end(),
    {
        self.end
    }
}

/// Indicates how to interpret the spans of an error.
pub enum SpansKind {
    /// The first span is the first occurrence, and there is a span for each
    /// subsequent occurrence.
    DuplicationError,
    /// Contains a single span at the site of the error.
    Error,
}

/// Implemented for errors and warnings to provide access to their spans.
pub trait Spanned {
    /// Returns the spans associated with the error, always at least one.
    ///
    /// Refer to [`SpansKind`] via [`Spanned::spanskind`] for the meaning and
    /// interpretation of spans and their ordering.
    fn spans(&self) -> (r: &[Span])
        ensures
            r@.len() >= 1,
    ;

    /// Returns the [`SpansKind`] associated with this error.
    fn spanskind(&self) -> SpansKind;
}

/// A pair of required and optional parameters.
pub struct Params<X: Args> {
    pub required: X::RequiredArgs,
    pub optional: X::OptionalArgs,
}

} // verus!
