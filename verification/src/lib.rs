//! A source-to-source transformation engine that rewrites a block of
//! inherent methods into an equivalent extension trait: a trait
//! declaration holding the method signatures, a trait implementation
//! for the original target type, and (optionally) a sealing module that
//! keeps outside code from implementing the new trait.
//!
//! The engine works on structural input: a host front end parses program
//! text into the syntax values of [`syntax`] and splices the emitted
//! artifacts of [`emit`] back into text. The engine itself is a pure
//! function from a transformation request to either the generated
//! artifacts or a single diagnostic; it performs no I/O and keeps no
//! state across invocations.
//!
//! The crate also holds the decision kernel of the repository's
//! credentials provider chain ([`chain`]): the per-outcome step rule
//! and the ordered chain bookkeeping, verified here, while the host
//! owns the asynchronous evaluation around them.

pub mod chain;
pub mod classify;
pub mod config;
pub mod diagnostics;
pub mod emit;
pub mod members;
pub mod names;
pub mod syntax;
