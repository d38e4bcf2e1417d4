//! UTF-8 handling for text copied back across the boundary.
//!
//! Strings decoded from the foreign side arrive as raw bytes; validating
//! them as UTF-8 is a native check, made after the bytes are copied and
//! without any further foreign call. The check itself is verified
//! ([`check_utf8`]); only the final conversions into [`String`] are trusted,
//! and their contracts are stated over vstd's UTF-8 model.

use vstd::prelude::*;
use vstd::string::StringExecFns;
use vstd::utf8::{
    decode_utf8, encode_utf8, is_continuation_byte, length_of_first_scalar, partial_valid_utf8,
    valid_first_scalar, valid_utf8,
};

verus! {

/// The character sequence that lossy UTF-8 decoding yields for the given
/// bytes: each maximal ill-formed subsequence is replaced by the replacement
/// character, and well-formed text decodes unchanged.
pub uninterp spec fn utf8_lossy(b: Seq<u8>) -> Seq<char>;

/// Relies on `String::from_utf8_lossy`: the result depends on the bytes
/// alone, and bytes that are valid UTF-8 decode without any replacement.
#[verifier::external_body]
pub(crate) fn bytes_to_string_lossy(b: &Vec<u8>) -> (r: String)
    ensures
        r@ == utf8_lossy(b@),
        valid_utf8(b@) ==> r@ == decode_utf8(b@),
{
    String::from_utf8_lossy(b).into_owned()
}

/// Relies on `String::from_utf8`: on bytes that are valid UTF-8 it returns
/// the string those bytes encode.
#[verifier::external_body]
fn utf8_to_string(b: Vec<u8>) -> (r: String)
    requires
        valid_utf8(b@),
    ensures
        r@ == decode_utf8(b@),
{
    String::from_utf8(b).unwrap()
}

/// True when the byte has the continuation-byte form `10xxxxxx`.
fn is_continuation(byte: u8) -> (r: bool)
    ensures
        r == is_continuation_byte(byte),
{
    0x80 <= byte && byte <= 0xbf
}

/// Decides whether `b` is valid UTF-8; on failure, reports the length of the
/// longest valid prefix: every byte before the reported index belongs to a
/// complete, well-formed scalar encoding, and no well-formed encoding starts
/// there.
pub fn check_utf8(b: &[u8]) -> (r: Result<(), usize>)
    ensures
        r is Ok ==> valid_utf8(b@),
        r matches Err(i) ==> i < b@.len() && partial_valid_utf8(b@, i as int)
            && !valid_first_scalar(b@.subrange(i as int, b@.len() as int)) && !valid_utf8(b@),
{
    let n = b.len();
    let mut i: usize = 0;
    while i < n
        invariant
            n == b@.len(),
            i <= n,
            partial_valid_utf8(b@, i as int),
        decreases n - i,
    {
        let ghost suffix = b@.subrange(i as int, n as int);
        proof {
            assert(suffix[0] == b@[i as int]);
        }
        let b0 = b[i];
        let step: usize;
        if b0 < 0x80 {
            proof {
                lemma_scalar_width_1(suffix);
            }
            step = 1;
        } else if 0xc0 <= b0 && b0 <= 0xdf {
            proof {
                lemma_scalar_width_2(suffix);
                if n - i >= 2 {
                    assert(suffix[1] == b@[i + 1]);
                }
            }
            let ok = n - i >= 2 && b0 >= 0xc2 && is_continuation(b[i + 1]);
            if !ok {
                proof {
                    lemma_invalid_at(b@, i as int);
                }
                return Err(i);
            }
            step = 2;
        } else if 0xe0 <= b0 && b0 <= 0xef {
            proof {
                lemma_scalar_width_3(suffix);
                if n - i >= 3 {
                    assert(suffix[1] == b@[i + 1]);
                    assert(suffix[2] == b@[i + 2]);
                }
            }
            let ok = n - i >= 3 && is_continuation(b[i + 1]) && is_continuation(b[i + 2]) && (b0
                != 0xe0 || b[i + 1] >= 0xa0) && (b0 != 0xed || b[i + 1] <= 0x9f);
            if !ok {
                proof {
                    lemma_invalid_at(b@, i as int);
                }
                return Err(i);
            }
            step = 3;
        } else if 0xf0 <= b0 && b0 <= 0xf7 {
            proof {
                lemma_scalar_width_4(suffix);
                if n - i >= 4 {
                    assert(suffix[1] == b@[i + 1]);
                    assert(suffix[2] == b@[i + 2]);
                    assert(suffix[3] == b@[i + 3]);
                }
            }
            let ok = n - i >= 4 && b0 <= 0xf4 && is_continuation(b[i + 1]) && is_continuation(
                b[i + 2],
            ) && is_continuation(b[i + 3]) && (b0 != 0xf0 || b[i + 1] >= 0x90) && (b0 != 0xf4 || b[i
                + 1] <= 0x8f);
            if !ok {
                proof {
                    lemma_invalid_at(b@, i as int);
                }
                return Err(i);
            }
            step = 4;
        } else {
            // A bare continuation byte (0x80..=0xbf) or a byte that is no
            // leading byte at all (0xf8..=0xff).
            proof {
                lemma_invalid_at(b@, i as int);
            }
            return Err(i);
        }
        proof {
            vstd::utf8::partial_valid_utf8_extend(b@, i as int);
        }
        i += step;
    }
    proof {
        assert(b@.subrange(0, n as int) =~= b@);
    }
    Ok(())
}

/// Decodes foreign string bytes: the native UTF-8 validation step of string
/// decoding, made after the bytes were copied out of the foreign buffer.
pub fn decode_string_bytes(b: Vec<u8>) -> (r: Result<String, crate::error::Error>)
    ensures
        valid_utf8(b@) ==> (r matches Ok(s) && s@ == decode_utf8(b@)),
        !valid_utf8(b@) ==> (r matches Err(e) && e matches crate::error::Error::InvalidUtf8(i)
            && i < b@.len() && partial_valid_utf8(b@, i as int) && !valid_first_scalar(
            b@.subrange(i as int, b@.len() as int),
        )),
{
    match check_utf8(b.as_slice()) {
        Ok(()) => Ok(utf8_to_string(b)),
        Err(i) => Err(crate::error::Error::InvalidUtf8(i)),
    }
}

/// Round trip of string marshaling on the native side: the UTF-8 bytes a
/// string crosses the boundary as are valid UTF-8, and decoding them back
/// — as [`decode_string_bytes`] does with the copy the foreign side
/// returns — yields the original characters exactly.
pub proof fn lemma_string_transport_round_trip(s: Seq<char>)
    ensures
        valid_utf8(encode_utf8(s)),
        decode_utf8(encode_utf8(s)) == s,
{
    vstd::utf8::encode_utf8_valid_utf8(s);
    vstd::utf8::encode_utf8_decode_utf8(s);
}

/// A sequence starting with a byte `< 0x80` starts with a well-formed
/// 1-byte scalar encoding.
proof fn lemma_scalar_width_1(s: Seq<u8>)
    requires
        s.len() >= 1,
        s[0] < 0x80,
    ensures
        valid_first_scalar(s),
        length_of_first_scalar(s) == 1,
{
}

/// For a sequence starting with a 2-byte leading byte, well-formedness of
/// the first scalar encoding comes down to one continuation byte and the
/// absence of an overlong encoding (leading byte at least `0xc2`).
proof fn lemma_scalar_width_2(s: Seq<u8>)
    requires
        s.len() >= 1,
        0xc0 <= s[0] <= 0xdf,
    ensures
        valid_first_scalar(s) <==> (s.len() >= 2 && s[0] >= 0xc2 && is_continuation_byte(s[1])),
        valid_first_scalar(s) ==> length_of_first_scalar(s) == 2,
{
    if s.len() >= 2 && is_continuation_byte(s[1]) {
        let b0 = s[0];
        let b1 = s[1];
        assert(0xc0 <= b0 <= 0xdf && 0x80 <= b1 <= 0xbf ==> ((b0 >= 0xc2) <==> 0x80 <= ((((b0
            & 0x1f) as u32) << 6) | ((b1 & 0x3f) as u32))) && ((((b0 & 0x1f) as u32) << 6) | ((b1
            & 0x3f) as u32)) <= 0x7ff) by (bit_vector);
    }
}

/// For a sequence starting with a 3-byte leading byte, well-formedness of
/// the first scalar encoding comes down to two continuation bytes, the
/// absence of an overlong encoding, and staying outside the surrogate
/// range.
proof fn lemma_scalar_width_3(s: Seq<u8>)
    requires
        s.len() >= 1,
        0xe0 <= s[0] <= 0xef,
    ensures
        valid_first_scalar(s) <==> (s.len() >= 3 && is_continuation_byte(s[1])
            && is_continuation_byte(s[2]) && (s[0] == 0xe0 ==> s[1] >= 0xa0) && (s[0] == 0xed
            ==> s[1] <= 0x9f)),
        valid_first_scalar(s) ==> length_of_first_scalar(s) == 3,
{
    if s.len() >= 3 && is_continuation_byte(s[1]) && is_continuation_byte(s[2]) {
        let b0 = s[0];
        let b1 = s[1];
        let b2 = s[2];
        assert(0xe0 <= b0 <= 0xef && 0x80 <= b1 <= 0xbf && 0x80 <= b2 <= 0xbf ==> ((((b0
            & 0x0f) as u32) << 12) | (((b1 & 0x3f) as u32) << 6) | ((b2 & 0x3f) as u32)) <= 0xffff
            && ((b0 != 0xe0 || b1 >= 0xa0) <==> 0x800 <= ((((b0 & 0x0f) as u32) << 12) | (((b1
            & 0x3f) as u32) << 6) | ((b2 & 0x3f) as u32))) && ((b0 == 0xed && b1 > 0x9f) <==> (
        0xd800 <= ((((b0 & 0x0f) as u32) << 12) | (((b1 & 0x3f) as u32) << 6) | ((b2
            & 0x3f) as u32)) <= 0xdfff)) ) by (bit_vector);
    }
}

/// For a sequence starting with a 4-byte leading byte, well-formedness of
/// the first scalar encoding comes down to three continuation bytes and a
/// codepoint inside the Unicode scalar range.
proof fn lemma_scalar_width_4(s: Seq<u8>)
    requires
        s.len() >= 1,
        0xf0 <= s[0] <= 0xf7,
    ensures
        valid_first_scalar(s) <==> (s.len() >= 4 && s[0] <= 0xf4 && is_continuation_byte(s[1])
            && is_continuation_byte(s[2]) && is_continuation_byte(s[3]) && (s[0] == 0xf0 ==> s[1]
            >= 0x90) && (s[0] == 0xf4 ==> s[1] <= 0x8f)),
        valid_first_scalar(s) ==> length_of_first_scalar(s) == 4,
{
    if s.len() >= 4 && is_continuation_byte(s[1]) && is_continuation_byte(s[2])
        && is_continuation_byte(s[3]) {
        let b0 = s[0];
        let b1 = s[1];
        let b2 = s[2];
        let b3 = s[3];
        assert(0xf0 <= b0 <= 0xf7 && 0x80 <= b1 <= 0xbf && 0x80 <= b2 <= 0xbf && 0x80 <= b3 <= 0xbf
            ==> (((b0 <= 0xf4 && (b0 != 0xf0 || b1 >= 0x90) && (b0 != 0xf4 || b1 <= 0x8f)) <==> (
        0x10000 <= ((((b0 & 0x07) as u32) << 18) | (((b1 & 0x3f) as u32) << 12) | (((b2
            & 0x3f) as u32) << 6) | ((b3 & 0x3f) as u32)) <= 0x10ffff)))) by (bit_vector);
    }
}

/// A valid prefix followed by a suffix that starts with no well-formed
/// scalar encoding makes the whole sequence invalid.
proof fn lemma_invalid_at(b: Seq<u8>, i: int)
    requires
        0 <= i < b.len(),
        partial_valid_utf8(b, i),
        !valid_first_scalar(b.subrange(i, b.len() as int)),
    ensures
        !valid_utf8(b),
{
    let suffix = b.subrange(i, b.len() as int);
    assert(!valid_utf8(suffix)) by {
        reveal_with_fuel(valid_utf8, 2);
    }
    vstd::utf8::partial_valid_partial_invalid_utf8(b, i);
}

} // verus!
