//! A verified bridge between a host program and a small, garbage-collected,
//! Ruby-compatible guest runtime: tagged value handles, typed conversions in
//! both directions, a protected method-invocation protocol and the rooting
//! arena that brackets every call into the guest.
//!
//! - `interp`: the runtime context: object heap with liveness marks, the
//!   rooting stack and its savepoints, the collector, symbols and the
//!   last-error slot.
//! - `builtins`: the core methods the guest answers, stated as a reply, and
//!   the dispatch that performs them.
//! - `value`: value handles and the protected invocation protocol.
//! - `convert`: conversions between host types and guest values.
//! - `error`, `types`: the classified errors and the type tags.
//! - `text`: text helpers for the core methods.
//! - `laws`: properties that relate several operations.
pub mod builtins;
pub mod convert;
pub mod error;
pub mod interp;
pub mod laws;
pub mod text;
pub mod types;
pub mod value;
