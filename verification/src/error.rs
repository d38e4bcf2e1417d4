//! Error taxonomy of the binding: native precondition violations, foreign
//! resource-creation failures, and foreign evaluation errors.

use vstd::prelude::*;
use vstd::string::StringExecFns;

use crate::text;

verus! {

/// A foreign evaluation error, held as an opaque error handle.
///
/// Error handles live in their own handle space, separate from context and
/// value handles; there the zero word means "no error", so a `CueError`
/// always holds a non-zero handle. The human-readable message is resolved
/// lazily: only when a caller fetches the foreign runtime's reply and hands
/// it to [`CueError::message`].
#[derive(Debug, Clone, Copy, PartialEq, Eq, Structural)]
pub struct CueError {
    handle: usize,
}

impl View for CueError {
    type V = usize;

    closed spec fn view(&self) -> usize {
        self.handle
    }
}

impl CueError {
    /// A well-formed error handle is non-zero: the zero word in the error
    /// handle space means "no error" and never becomes a `CueError`.
    pub open spec fn wf(self) -> bool {
        self@ != 0
    }

    /// Wraps a non-zero foreign error handle.
    pub fn new(handle: usize) -> (r: CueError)
        requires
            handle != 0,
        ensures
            r@ == handle,
            r.wf(),
    {
        CueError { handle }
    }

    /// The raw foreign error handle, to be passed to the foreign
    /// "stringify error" entry point by the caller that displays the error.
    pub fn handle(&self) -> (r: usize)
        ensures
            r == self@,
    {
        self.handle
    }

    /// Turns the foreign runtime's reply to the "stringify error" call into
    /// the displayable message: a null reply (`None`) becomes a fixed
    /// fallback text, and a returned byte buffer is decoded as UTF-8,
    /// replacing ill-formed sequences.
    pub fn message(reply: Option<Vec<u8>>) -> (r: String)
        ensures
            reply is None ==> r@ == "<unknown cue error>"@,
            reply matches Some(b) ==> r@ == text::utf8_lossy(b@),
    {
        match reply {
            None => String::from_str("<unknown cue error>"),
            Some(b) => text::bytes_to_string_lossy(&b),
        }
    }
}

/// Everything that can go wrong at the boundary.
///
/// The taxonomy follows the two regimes that meet here: native checks fail
/// before any foreign call ([`Error::StringContainsNul`],
/// [`Error::InvalidUtf8`]), foreign constructors fail by answering the zero
/// sentinel ([`Error::ContextCreationFailed`], [`Error::ValueCreationFailed`]),
/// and every other foreign failure arrives as an opaque error handle
/// ([`Error::Cue`]).
#[derive(Debug, Clone, Copy, PartialEq, Eq, Structural)]
pub enum Error {
    /// The foreign "new session" entry point returned the zero sentinel; no
    /// further diagnostic is available for this call.
    ContextCreationFailed,
    /// A foreign value constructor returned the zero sentinel.
    ValueCreationFailed,
    /// Data routed through the nul-terminated transport holds an interior
    /// nul byte at the given index; detected natively, before any foreign
    /// call ever sees the data.
    StringContainsNul(usize),
    /// The foreign runtime reported an evaluation error — a compile error, a
    /// kind mismatch on decode, or a validation failure.
    Cue(CueError),
    /// Bytes decoded from the foreign side are not valid UTF-8 where a
    /// string was required; the payload is the length of the longest valid
    /// prefix. Detected natively, after the bytes were copied.
    InvalidUtf8(usize),
}

} // verus!
