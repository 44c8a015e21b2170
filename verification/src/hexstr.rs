//! Hexadecimal text for binary fields.
//!
//! Version-2 device documents store binary fields as hexadecimal text.  The
//! encoding and decoding themselves are done by the `hex` crate; this module
//! states exactly what those calls return and proves that decoding undoes
//! encoding.

use vstd::prelude::*;

verus! {

/// Whether `c` is a hexadecimal digit (either case).
pub open spec fn is_hex_digit(c: char) -> bool {
    ('0' <= c && c <= '9') || ('a' <= c && c <= 'f') || ('A' <= c && c <= 'F')
}

/// The numeric value of a hexadecimal digit.
pub open spec fn hex_digit_value(c: char) -> u8 {
    if '0' <= c && c <= '9' {
        (c as u8 - '0' as u8) as u8
    } else if 'a' <= c && c <= 'f' {
        (c as u8 - 'a' as u8 + 10) as u8
    } else {
        (c as u8 - 'A' as u8 + 10) as u8
    }
}

/// The lower-case hexadecimal digit for a value below 16.
pub open spec fn hex_digit_of(v: u8) -> char {
    if v < 10 {
        (('0' as u8 + v) as u8) as char
    } else {
        (('a' as u8 + (v - 10)) as u8) as char
    }
}

/// The lower-case hexadecimal text for `bytes`: two digits per byte, high
/// nibble first, in byte order.
pub open spec fn spec_hex_encode(bytes: Seq<u8>) -> Seq<char> {
    Seq::new(
        bytes.len() * 2,
        |i: int|
            if i % 2 == 0 {
                hex_digit_of(bytes[i / 2] / 16)
            } else {
                hex_digit_of(bytes[i / 2] % 16)
            },
    )
}

/// Whether `s` is well-formed hexadecimal text: an even number of
/// characters, all of them hexadecimal digits.
pub open spec fn is_hex_text(s: Seq<char>) -> bool {
    s.len() % 2 == 0 && (forall|i: int| 0 <= i < s.len() ==> is_hex_digit(#[trigger] s[i]))
}

/// The bytes denoted by well-formed hexadecimal text, or `None` if the text
/// is malformed.
pub open spec fn spec_hex_decode(s: Seq<char>) -> Option<Seq<u8>> {
    if is_hex_text(s) {
        Some(
            Seq::new(
                s.len() / 2,
                |i: int| (hex_digit_value(s[2 * i]) * 16 + hex_digit_value(s[2 * i + 1])) as u8,
            ),
        )
    } else {
        None
    }
}

/// Relies on `hex::encode`: lower-case hexadecimal, two digits per byte,
/// high nibble first, in byte order.
#[verifier::external_body]
pub fn hex_encode(bytes: &Vec<u8>) -> (r: String)
    ensures
        r@ == spec_hex_encode(bytes@),
{
    hex::encode(bytes)
}

/// Relies on `hex::decode`: accepts an even number of hexadecimal digits of
/// either case and returns the denoted bytes, and rejects everything else.
/// (A character outside ASCII is never a hexadecimal digit, and none of the
/// bytes it is encoded as is one either, so such input is rejected on both
/// sides of the contract.)
#[verifier::external_body]
pub fn hex_decode(s: &str) -> (r: Option<Vec<u8>>)
    ensures
        match spec_hex_decode(s@) {
            Some(b) => r matches Some(v) && v@ == b,
            None => r is None,
        },
{
    hex::decode(s).ok()
}

/// Decoding undoes encoding: the hexadecimal text of any byte sequence is
/// well formed and denotes exactly that sequence.
pub proof fn lemma_hex_round_trip(bytes: Seq<u8>)
    ensures
        spec_hex_decode(spec_hex_encode(bytes)) == Some(bytes),
{
    let s = spec_hex_encode(bytes);
    assert forall|i: int| 0 <= i < s.len() implies is_hex_digit(#[trigger] s[i]) by {
        let b = bytes[i / 2];
        assert(b / 16 < 16 && b % 16 < 16) by (bit_vector);
    }
    assert(is_hex_text(s));
    let decoded = spec_hex_decode(s)->Some_0;
    assert forall|i: int| 0 <= i < bytes.len() implies decoded[i] == bytes[i] by {
        let b = bytes[i];
        assert(s[2 * i] == hex_digit_of(b / 16));
        assert(s[2 * i + 1] == hex_digit_of(b % 16));
        assert(b / 16 < 16 && b % 16 < 16) by (bit_vector);
        assert(hex_digit_value(hex_digit_of(b / 16)) == b / 16);
        assert(hex_digit_value(hex_digit_of(b % 16)) == b % 16);
        assert((b / 16) * 16 + b % 16 == b) by (bit_vector);
    }
    assert(decoded =~= bytes);
}

} // verus!
