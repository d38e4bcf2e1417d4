//! The evaluation context: root resource of one foreign session.

use vstd::prelude::*;

use crate::error::Error;

verus! {

/// A CUE evaluation context, owning one foreign session handle.
///
/// The context is the root resource: every value is produced from one, and
/// the caller must keep it alive until the last value derived from it has
/// been released. A `Ctx` is built from the foreign "new session" reply by
/// [`Ctx::new`] and consumed by [`Ctx::release`], so it is released exactly
/// once; its handle is non-zero for as long as it exists.
#[derive(Debug)]
pub struct Ctx {
    handle: usize,
}

impl View for Ctx {
    type V = usize;

    closed spec fn view(&self) -> usize {
        self.handle
    }
}

impl Ctx {
    /// A well-formed context holds a non-zero session handle: the zero word
    /// is the boundary's "creation failed" sentinel, never a live resource.
    pub open spec fn wf(self) -> bool {
        self@ != 0
    }

    /// Interprets the foreign "new session" reply. The zero word is the only
    /// failure signal this entry point has; any other word is the handle of
    /// a freshly allocated session.
    pub fn new(raw: usize) -> (r: Result<Ctx, Error>)
        ensures
            raw == 0 ==> r == Err::<Ctx, Error>(Error::ContextCreationFailed),
            raw != 0 ==> (r matches Ok(c) && c@ == raw && c.wf()),
    {
        if raw == 0 {
            Err(Error::ContextCreationFailed)
        } else {
            Ok(Ctx { handle: raw })
        }
    }

    /// The raw session handle, to be passed back across the boundary by the
    /// caller that makes the next foreign call.
    pub fn handle(&self) -> (r: usize)
        ensures
            r == self@,
    {
        self.handle
    }

    /// Consumes the context and yields its handle for the single matching
    /// foreign release call. Consuming makes releasing the same context
    /// twice — and using it after release — structurally impossible.
    pub fn release(self) -> (r: usize)
        ensures
            r == self@,
    {
        self.handle
    }
}

} // verus!
