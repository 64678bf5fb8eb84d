//! Failure reporting: every rejected request yields exactly one
//! [`Diagnostic`], carrying the failure category, a span anchored at the
//! offending construct, and a human-readable message.

use vstd::prelude::*;

verus! {

/// A reference into the source text the host parsed the request from.
/// The engine never interprets spans; it only threads them through to
/// diagnostics so the host can point at the offending construct.
#[derive(Debug, Clone, Copy, PartialEq, Eq, Structural)]
pub struct Span {
    pub start: usize,
    pub end: usize,
}

/// The closed set of failure categories. Any failure aborts the whole
/// request before any artifact is produced; there is no partial output.
#[derive(Debug, Clone, Copy, PartialEq, Eq, Structural)]
pub enum ErrorKind {
    /// An unknown directive name or a malformed directive value.
    ConfigurationError,
    /// The impl target's shape is outside the nine supported variants.
    UnsupportedTargetError,
    /// The block is a trait implementation, not an inherent impl.
    UnsupportedTraitImplError,
    /// A block member is not a method.
    UnsupportedMemberError,
    /// A path-shaped type with no terminal segment.
    EmptyPathError,
}

/// The mathematical model of a [`Diagnostic`]: the message as a
/// sequence of characters.
pub struct DiagnosticView {
    pub kind: ErrorKind,
    pub span: Span,
    pub message: Seq<char>,
}

/// A structured error returned instead of artifacts on failure.
#[derive(Debug, Clone, PartialEq, Eq)]
pub struct Diagnostic {
    pub kind: ErrorKind,
    pub span: Span,
    pub message: String,
}

impl View for Diagnostic {
    type V = DiagnosticView;

    open spec fn view(&self) -> DiagnosticView {
        DiagnosticView { kind: self.kind, span: self.span, message: self.message@ }
    }
}

} // verus!
