//! Safe, verified marshaling layer for a CUE evaluation engine reached over a
//! C ABI of opaque handles.
//!
//! The engine itself (parsing, unification, constraint propagation) is a
//! foreign black box: every resource it owns is named by a pointer-sized,
//! non-zero handle, every fallible call answers with a second, independent
//! error-handle space, and every variable-length result arrives in a buffer
//! allocated by the foreign allocator. This crate holds the native half of
//! that seam — the part that can be wrong in ways neither side's type system
//! would catch — and proves it correct:
//!
//! * the zero-sentinel discipline: a zero word from a constructor means
//!   "creation failed" and never becomes a live [`Ctx`] or [`Value`];
//! * the error-handle discipline: a non-zero word from a fallible call
//!   becomes a typed [`error::CueError`], never a panic or a default value;
//! * the nul-terminated transport: text routed through a C string is rejected
//!   natively when it holds an interior nul byte, before any foreign call;
//! * string decoding: bytes copied back from the engine are validated as
//!   UTF-8 by a verified checker;
//! * the release discipline: handles are released exactly once, tracked
//!   either by move semantics ([`Ctx::release`], [`Value::release`]) or by a
//!   [`lifecycle::Registry`] of live handles.
//!
//! The foreign calls themselves (and the buffer copies around them) cannot be
//! made from verified code; a host links the engine and drives this layer:
//! it performs one call, hands the raw reply words to the functions here, and
//! receives the typed result.

pub mod ctx;
pub mod error;
pub mod lifecycle;
pub mod marshal;
pub mod protocol;
pub mod text;
pub mod value;

pub use ctx::Ctx;
pub use error::CueError;
pub use error::Error;
pub use value::Value;
