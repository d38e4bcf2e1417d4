//! The value type: one compiled or constructed node of the lattice.

use vstd::prelude::*;

use crate::error::Error;

verus! {

/// A CUE value, owning one foreign value handle.
///
/// A value is produced from a context — by a scalar constructor, by
/// compiling source — or from other values by unification; it is read any
/// number of times by the decode operations and released exactly once by
/// [`Value::release`], which consumes it. A well-formed value may still
/// denote the lattice's bottom (conflict) element: only the validation
/// entry point of the boundary tells a usable node from a conflict, so a
/// non-zero handle promises a live resource, not a meaningful
/// configuration.
#[derive(Debug)]
pub struct Value {
    handle: usize,
}

impl View for Value {
    type V = usize;

    closed spec fn view(&self) -> usize {
        self.handle
    }
}

impl Value {
    /// A well-formed value holds a non-zero handle: the zero word is the
    /// boundary's "creation failed" sentinel, never a live resource.
    pub open spec fn wf(self) -> bool {
        self@ != 0
    }

    /// Interprets the reply of a foreign value constructor — a scalar
    /// constructor or the unification entry point. The zero word is the
    /// only failure signal those entry points have; any other word is the
    /// handle of a freshly allocated value.
    pub fn from_raw(raw: usize) -> (r: Result<Value, Error>)
        ensures
            raw == 0 ==> r == Err::<Value, Error>(Error::ValueCreationFailed),
            raw != 0 ==> (r matches Ok(v) && v@ == raw && v.wf()),
    {
        if raw == 0 {
            Err(Error::ValueCreationFailed)
        } else {
            Ok(Value { handle: raw })
        }
    }

    /// The raw value handle, to be passed back across the boundary by the
    /// caller that makes the next foreign call.
    pub fn handle(&self) -> (r: usize)
        ensures
            r == self@,
    {
        self.handle
    }

    /// Consumes the value and yields its handle for the single matching
    /// foreign release call. Consuming makes releasing the same value
    /// twice — and using it after release — structurally impossible.
    pub fn release(self) -> (r: usize)
        ensures
            r == self@,
    {
        self.handle
    }
}

} // verus!
