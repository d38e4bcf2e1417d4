//! Interpretation of foreign replies: the sentinel disciplines of the
//! boundary's function table.
//!
//! Two independent signalling conventions meet here. Constructors answer
//! with a single handle word, where zero means "creation failed"
//! ([`crate::Ctx::new`], [`crate::Value::from_raw`]). Every other fallible
//! entry point answers with a word from the separate error-handle space,
//! where zero means "no error" and any other word names a foreign error
//! object. The functions in this module turn those raw words, together
//! with whatever scalar the call wrote into its output parameter, into
//! typed results — so a kind mismatch, a non-concrete value, or a compile
//! error always becomes a typed [`Error`], never a panic or a coerced
//! default.

use vstd::prelude::*;

use crate::error::{CueError, Error};
use crate::text;
use crate::value::Value;

verus! {

/// Interprets the error word of a fallible foreign call that produces no
/// output — the validation entry point — or whose output is handled
/// separately: zero is success, any other word is the handle of a foreign
/// error object.
pub fn decode_check(err: usize) -> (r: Result<(), Error>)
    ensures
        err == 0 ==> r == Ok::<(), Error>(()),
        err != 0 ==> (r matches Err(e) && e matches Error::Cue(ce) && ce@ == err && ce.wf()),
{
    if err == 0 {
        Ok(())
    } else {
        Err(Error::Cue(CueError::new(err)))
    }
}

/// Interprets the reply of the signed-integer decode entry point: `out` is
/// the scalar the call wrote, `err` its error word. The scalar is handed
/// through exactly when the error word is zero.
pub fn decode_int64(err: usize, out: i64) -> (r: Result<i64, Error>)
    ensures
        err == 0 ==> r == Ok::<i64, Error>(out),
        err != 0 ==> (r matches Err(e) && e matches Error::Cue(ce) && ce@ == err),
{
    match decode_check(err) {
        Ok(()) => Ok(out),
        Err(e) => Err(e),
    }
}

/// Interprets the reply of the unsigned-integer decode entry point, as
/// [`decode_int64`] does for the signed one.
pub fn decode_uint64(err: usize, out: u64) -> (r: Result<u64, Error>)
    ensures
        err == 0 ==> r == Ok::<u64, Error>(out),
        err != 0 ==> (r matches Err(e) && e matches Error::Cue(ce) && ce@ == err),
{
    match decode_check(err) {
        Ok(()) => Ok(out),
        Err(e) => Err(e),
    }
}

/// Interprets the reply of the boolean decode entry point, as
/// [`decode_int64`] does for the signed-integer one.
pub fn decode_bool(err: usize, out: bool) -> (r: Result<bool, Error>)
    ensures
        err == 0 ==> r == Ok::<bool, Error>(out),
        err != 0 ==> (r matches Err(e) && e matches Error::Cue(ce) && ce@ == err),
{
    match decode_check(err) {
        Ok(()) => Ok(out),
        Err(e) => Err(e),
    }
}

/// Interprets the reply of a decode entry point that hands ownership of a
/// byte buffer to the caller — the bytes and JSON decodes. `copied` holds
/// the buffer's bytes, already copied into native storage by the caller
/// (who then frees the foreign buffer through the foreign allocator); it is
/// `None` exactly when the call failed and wrote no buffer.
pub fn decode_buffer(err: usize, copied: Option<Vec<u8>>) -> (r: Result<Vec<u8>, Error>)
    requires
        copied is Some <==> err == 0,
    ensures
        err == 0 ==> (r matches Ok(b) && Some(b) == copied),
        err != 0 ==> (r matches Err(e) && e matches Error::Cue(ce) && ce@ == err),
{
    match copied {
        Some(b) => Ok(b),
        None => Err(Error::Cue(CueError::new(err))),
    }
}

/// Interprets the reply of the string decode entry point: the error word,
/// and the bytes of the returned C string (up to its terminating nul),
/// already copied into native storage. On success the bytes are validated
/// as UTF-8 natively; ill-formed bytes are a native [`Error::InvalidUtf8`],
/// not a foreign error.
pub fn decode_string(err: usize, copied: Option<Vec<u8>>) -> (r: Result<String, Error>)
    requires
        copied is Some <==> err == 0,
    ensures
        err != 0 ==> (r matches Err(e) && e matches Error::Cue(ce) && ce@ == err),
        err == 0 && vstd::utf8::valid_utf8(copied.unwrap()@) ==> (r matches Ok(s) && s@
            == vstd::utf8::decode_utf8(copied.unwrap()@)),
        err == 0 && !vstd::utf8::valid_utf8(copied.unwrap()@) ==> (r matches Err(e)
            && e matches Error::InvalidUtf8(i) && i < copied.unwrap()@.len()),
{
    match copied {
        Some(b) => text::decode_string_bytes(b),
        None => Err(Error::Cue(CueError::new(err))),
    }
}

/// Interprets the two-part reply of a compile entry point: an error word
/// and an output handle. A non-zero error word reports a syntax or
/// compile-time error; with a zero error word the handle must name the
/// compiled value, so a zero handle there is a creation failure. Success
/// here means the source evaluated to some lattice node — possibly the
/// bottom element — not that the node passes validation.
pub fn compile_reply(err: usize, raw: usize) -> (r: Result<Value, Error>)
    ensures
        err != 0 ==> (r matches Err(e) && e matches Error::Cue(ce) && ce@ == err),
        err == 0 && raw == 0 ==> r == Err::<Value, Error>(Error::ValueCreationFailed),
        err == 0 && raw != 0 ==> (r matches Ok(v) && v@ == raw && v.wf()),
{
    match decode_check(err) {
        Ok(()) => Value::from_raw(raw),
        Err(e) => Err(e),
    }
}

} // verus!
