//! The nul-terminated transport: scanning for interior nul bytes and
//! framing data as a C string.
//!
//! String-typed constructors and text compilation cross the boundary as
//! nul-terminated C strings, so data holding an interior nul byte is
//! rejected natively, before the foreign side ever sees it; the
//! byte-oriented entry points carry an explicit length instead and accept
//! arbitrary bytes.

use vstd::prelude::*;

use crate::error::Error;

verus! {

/// True when the byte sequence holds a nul byte.
pub open spec fn contains_nul(s: Seq<u8>) -> bool {
    exists|i: int| 0 <= i < s.len() && s[i] == 0
}

/// Index of the first nul byte in the sequence, or its length when there is
/// none: how far the nul-terminated transport carries the sequence's bytes.
pub open spec fn first_nul(s: Seq<u8>) -> int
    decreases s.len(),
{
    if s.len() == 0 {
        0
    } else if s[0] == 0 {
        0
    } else {
        1 + first_nul(s.drop_first())
    }
}

/// What the foreign side reads out of a nul-terminated buffer: the bytes
/// before the first nul.
pub open spec fn c_payload(s: Seq<u8>) -> Seq<u8> {
    s.take(first_nul(s))
}

/// Index of the first nul byte, if any.
pub fn find_nul(data: &[u8]) -> (r: Option<usize>)
    ensures
        r matches Some(i) ==> i < data@.len() && data@[i as int] == 0 && forall|j: int|
            0 <= j < i ==> data@[j] != 0,
        r is None ==> !contains_nul(data@),
{
    let n = data.len();
    let mut i: usize = 0;
    while i < n
        invariant
            n == data@.len(),
            i <= n,
            forall|j: int| 0 <= j < i ==> data@[j] != 0,
        decreases n - i,
    {
        if data[i] == 0 {
            return Some(i);
        }
        i += 1;
    }
    None
}

/// Frames data for the nul-terminated transport: rejects interior nul bytes
/// natively — reporting the index of the first one — and otherwise appends
/// the terminating nul.
pub fn c_string_bytes(data: &[u8]) -> (r: Result<Vec<u8>, Error>)
    ensures
        !contains_nul(data@) ==> (r matches Ok(b) && b@ == data@.push(0u8)),
        contains_nul(data@) ==> (r matches Err(e) && e matches Error::StringContainsNul(i)
            && i < data@.len() && data@[i as int] == 0 && forall|j: int|
            0 <= j < i ==> data@[j] != 0),
{
    match find_nul(data) {
        Some(i) => Err(Error::StringContainsNul(i)),
        None => {
            let mut out = vstd::slice::slice_to_vec(data);
            out.push(0);
            Ok(out)
        },
    }
}

/// In a nul-free sequence the first nul is the end of the sequence, so the
/// whole sequence is carried.
pub proof fn lemma_first_nul_of_nul_free(data: Seq<u8>)
    requires
        !contains_nul(data),
    ensures
        first_nul(data.push(0)) == data.len(),
    decreases data.len(),
{
    let framed = data.push(0);
    if data.len() == 0 {
        assert(framed[0] == 0);
    } else {
        assert(framed[0] == data[0]);
        assert(data[0] != 0);
        let tail = data.drop_first();
        assert(!contains_nul(tail)) by {
            assert(forall|i: int|
                0 <= i < tail.len() ==> tail[i] == data[i + 1] && #[trigger] tail[i] != 0);
        }
        lemma_first_nul_of_nul_free(tail);
        assert(framed.drop_first() =~= tail.push(0));
    }
}

/// Round trip through the nul-terminated transport: framing nul-free data
/// and reading back up to the terminator yields the data unchanged.
pub proof fn lemma_c_string_round_trip(data: Seq<u8>)
    requires
        !contains_nul(data),
    ensures
        c_payload(data.push(0)) == data,
{
    lemma_first_nul_of_nul_free(data);
    assert(data.push(0).take(data.len() as int) =~= data);
}

} // verus!
