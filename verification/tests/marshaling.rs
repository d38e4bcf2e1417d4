//! Tests for the nul-terminated transport and UTF-8 decoding.

use cue_rs::error::Error;
use cue_rs::marshal::{c_string_bytes, find_nul};
use cue_rs::text::decode_string_bytes;

#[test]
fn find_nul_reports_first_nul() {
    assert_eq!(find_nul(b"hello"), None);
    assert_eq!(find_nul(b""), None);
    assert_eq!(find_nul(b"hello\0world"), Some(5));
    assert_eq!(find_nul(b"\0"), Some(0));
    assert_eq!(find_nul(b"a\0b\0c"), Some(1));
}

#[test]
fn c_string_bytes_appends_terminator() {
    assert_eq!(c_string_bytes(b"hello").unwrap(), b"hello\0".to_vec());
    assert_eq!(c_string_bytes(b"").unwrap(), b"\0".to_vec());
    let crab = "\u{1F980} rust";
    assert_eq!(
        c_string_bytes(crab.as_bytes()).unwrap(),
        [crab.as_bytes(), b"\0"].concat()
    );
}

#[test]
fn from_string_nul_byte_returns_error() {
    assert!(matches!(
        c_string_bytes(b"hello\0world"),
        Err(Error::StringContainsNul(5))
    ));
}

#[test]
fn c_string_bytes_rejects_leading_nul() {
    assert!(matches!(
        c_string_bytes(b"\0rest"),
        Err(Error::StringContainsNul(0))
    ));
}

#[test]
fn decode_string_bytes_decodes_utf8() {
    assert_eq!(decode_string_bytes(b"".to_vec()).unwrap(), "");
    assert_eq!(decode_string_bytes(b"hello".to_vec()).unwrap(), "hello");
    assert_eq!(
        decode_string_bytes("\u{1F980} rust".as_bytes().to_vec()).unwrap(),
        "\u{1F980} rust"
    );
    // Two-, three- and four-byte scalars.
    assert_eq!(
        decode_string_bytes(vec![0xc3, 0xa9, 0xe2, 0x82, 0xac, 0xf0, 0x9f, 0xa6, 0x80]).unwrap(),
        "\u{e9}\u{20ac}\u{1F980}"
    );
}

#[test]
fn decode_string_bytes_rejects_invalid_utf8() {
    // A byte that is no leading byte at all.
    assert!(matches!(
        decode_string_bytes(vec![0xff, 0x41]),
        Err(Error::InvalidUtf8(0))
    ));
    // The prefix before the bad byte is reported as valid.
    assert!(matches!(
        decode_string_bytes(vec![0x41, 0xff]),
        Err(Error::InvalidUtf8(1))
    ));
    // A bare continuation byte.
    assert!(matches!(
        decode_string_bytes(vec![0x80]),
        Err(Error::InvalidUtf8(0))
    ));
    // An overlong two-byte encoding of '/'.
    assert!(matches!(
        decode_string_bytes(vec![0xc0, 0xaf]),
        Err(Error::InvalidUtf8(0))
    ));
    // An encoded surrogate.
    assert!(matches!(
        decode_string_bytes(vec![0xed, 0xa0, 0x80]),
        Err(Error::InvalidUtf8(0))
    ));
    // A truncated four-byte encoding.
    assert!(matches!(
        decode_string_bytes(vec![0xf0, 0x9f]),
        Err(Error::InvalidUtf8(0))
    ));
    // Beyond the last scalar value.
    assert!(matches!(
        decode_string_bytes(vec![0xf4, 0x90, 0x80, 0x80]),
        Err(Error::InvalidUtf8(0))
    ));
    // A multi-byte scalar, then garbage.
    assert!(matches!(
        decode_string_bytes(vec![0xc3, 0xa9, 0xe0, 0x80, 0x80]),
        Err(Error::InvalidUtf8(2))
    ));
}

#[test]
fn nul_terminated_transport_round_trips() {
    // What the foreign side reads from the framed buffer — the bytes up to
    // the terminator — is exactly the original data, for each
    // representative value.
    let cases: Vec<&[u8]> = vec![
        b"",
        b"hello",
        "\u{1F980} rust".as_bytes(),
        &[0x01, 0xff, 0x7f],
    ];
    for data in cases {
        let framed = c_string_bytes(data).unwrap();
        let read_back = &framed[..framed.iter().position(|&b| b == 0).unwrap()];
        assert_eq!(read_back, data);
    }
}

#[test]
fn string_marshaling_round_trips() {
    // A string's transport bytes decode back to the same string, for each
    // representative value.
    for s in ["", "a", "ascii text", "\u{e9}\u{20ac}\u{1F980}", "\u{0}"] {
        assert_eq!(decode_string_bytes(s.as_bytes().to_vec()).unwrap(), s);
    }
}

#[test]
fn decode_string_bytes_matches_std_verdict() {
    // The verified checker and std agree, including on the valid prefix.
    let cases: Vec<Vec<u8>> = vec![
        b"plain ascii".to_vec(),
        "\u{1F980}\u{e9}\u{20ac}".as_bytes().to_vec(),
        vec![0xe0, 0xa0, 0x80],
        vec![0xed, 0x9f, 0xbf],
        vec![0xee, 0x80, 0x80],
        vec![0xf0, 0x90, 0x80, 0x80],
        vec![0xf4, 0x8f, 0xbf, 0xbf],
        vec![0xc2, 0x80],
        vec![0xc1, 0xbf],
        vec![0x61, 0xc2],
        vec![0x61, 0xe1, 0x80],
        vec![0xf0, 0x80, 0x80, 0x80],
    ];
    for bytes in cases {
        match (decode_string_bytes(bytes.clone()), std::str::from_utf8(&bytes)) {
            (Ok(s), Ok(t)) => assert_eq!(s, t),
            (Err(Error::InvalidUtf8(i)), Err(e)) => assert_eq!(i, e.valid_up_to()),
            (native, std_res) => {
                panic!("checker disagrees with std on {:?}: {:?} vs {:?}", bytes, native, std_res)
            }
        }
    }
}
