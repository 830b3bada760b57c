//! Bytes as hexadecimal text, two digits to a byte.
//!
//! The conversions themselves are done by the `hex` crate. This module says
//! what they compute.

use vstd::prelude::*;

verus! {

/// Why a text does not spell bytes in hexadecimal.
#[derive(Debug, Clone, Copy, PartialEq, Eq)]
pub enum HexError {
    /// The byte `c` at offset `index` of the text is not a hexadecimal
    /// digit.
    InvalidHexCharacter { c: char, index: usize },
    /// The text has an odd number of bytes.
    OddLength,
    /// The text does not fill a container of fixed length. Decoding into a
    /// vector never gives this.
    InvalidStringLength,
}

/// The value of a hexadecimal digit in ASCII, upper or lower case.
pub open spec fn hex_digit(c: u8) -> Option<u8> {
    if 0x30 <= c <= 0x39 {
        Some((c - 0x30) as u8)
    } else if 0x61 <= c <= 0x66 {
        Some((c - 0x61 + 10) as u8)
    } else if 0x41 <= c <= 0x46 {
        Some((c - 0x41 + 10) as u8)
    } else {
        None
    }
}

/// `text` spells bytes: it is made of hexadecimal digits, two to a byte.
pub open spec fn is_hex_text(text: Seq<u8>) -> bool {
    &&& text.len() % 2 == 0
    &&& forall|i: int| 0 <= i < text.len() ==> hex_digit(#[trigger] text[i]) is Some
}

/// The bytes that a text of hexadecimal digits spells: each pair of digits
/// is one byte, the high half first.
pub open spec fn hex_value(text: Seq<u8>) -> Seq<u8> {
    Seq::new(
        text.len() / 2,
        |i: int| (16 * hex_digit(text[2 * i]).unwrap() + hex_digit(text[2 * i + 1]).unwrap()) as u8,
    )
}

/// `e` is the fault of `text`: an odd length; or, at an even length, the
/// first byte that is not a hexadecimal digit, with its offset.
pub open spec fn hex_fault(text: Seq<u8>, e: HexError) -> bool {
    match e {
        HexError::OddLength => text.len() % 2 == 1,
        HexError::InvalidHexCharacter { c, index } => {
            &&& text.len() % 2 == 0
            &&& index < text.len()
            &&& hex_digit(text[index as int]) is None
            &&& c == text[index as int] as char
            &&& forall|j: int| 0 <= j < index ==> hex_digit(#[trigger] text[j]) is Some
        },
        HexError::InvalidStringLength => false,
    }
}

/// The lower-case hexadecimal digit for a value below 16.
pub open spec fn hex_char(n: int) -> char {
    if n < 10 {
        ((0x30 + n) as u8) as char
    } else {
        ((0x57 + n) as u8) as char
    }
}

/// Bytes spelled in lower-case hexadecimal digits: two digits for each
/// byte, the high half first.
pub open spec fn hex_text(bytes: Seq<u8>) -> Seq<char> {
    Seq::new(
        2 * bytes.len(),
        |i: int|
            if i % 2 == 0 {
                hex_char(bytes[i / 2] as int / 16)
            } else {
                hex_char(bytes[i / 2] as int % 16)
            },
    )
}

/// `hex::decode` turns a text of hexadecimal digits into the bytes that it
/// spells, and fails on a text of odd length or, failing that, at the first
/// byte that is no such digit.
#[verifier::external_body]
pub(crate) fn hex_decode(text: &[u8]) -> (r: Result<Vec<u8>, HexError>)
    ensures
        match r {
            Ok(bytes) => is_hex_text(text@) && bytes@ == hex_value(text@),
            Err(e) => hex_fault(text@, e),
        },
{
    match hex::decode(text) {
        Ok(bytes) => Ok(bytes),
        Err(hex::FromHexError::InvalidHexCharacter { c, index }) => Err(
            HexError::InvalidHexCharacter { c, index },
        ),
        Err(hex::FromHexError::OddLength) => Err(HexError::OddLength),
        Err(hex::FromHexError::InvalidStringLength) => Err(HexError::InvalidStringLength),
    }
}

/// `hex::encode` spells bytes in lower-case hexadecimal digits, two for
/// each byte.
#[verifier::external_body]
pub(crate) fn hex_encode(bytes: &[u8]) -> (text: String)
    ensures
        text@ == hex_text(bytes@),
{
    hex::encode(bytes)
}

/// The bytes of a text whose characters are all ASCII.
pub open spec fn ascii_bytes(text: Seq<char>) -> Seq<u8> {
    Seq::new(text.len(), |i: int| text[i] as u8)
}

/// Bytes spelled in hexadecimal digits spell themselves: the text is made
/// of hexadecimal digits, two to a byte, and its value is the bytes.
pub proof fn lemma_hex_round_trip(bytes: Seq<u8>)
    ensures
        is_hex_text(ascii_bytes(hex_text(bytes))),
        hex_value(ascii_bytes(hex_text(bytes))) == bytes,
{
    let text = ascii_bytes(hex_text(bytes));
    assert forall|i: int| 0 <= i < text.len() implies hex_digit(#[trigger] text[i]) == Some(
        (if i % 2 == 0 {
            bytes[i / 2] as int / 16
        } else {
            bytes[i / 2] as int % 16
        }) as u8,
    ) by {}
    assert forall|k: int| 0 <= k < bytes.len() implies #[trigger] hex_value(text)[k] == bytes[k] by {
        assert(hex_digit(text[2 * k]) == Some((bytes[k] as int / 16) as u8));
        assert(hex_digit(text[2 * k + 1]) == Some((bytes[k] as int % 16) as u8));
    }
}

/// A text that has a fault does not spell bytes, and no text has two
/// faults.
pub proof fn lemma_hex_fault(text: Seq<u8>, e1: HexError, e2: HexError)
    ensures
        hex_fault(text, e1) ==> !is_hex_text(text),
        hex_fault(text, e1) && hex_fault(text, e2) ==> e1 == e2,
{
    if hex_fault(text, e1) && hex_fault(text, e2) {
        match (e1, e2) {
            (
                HexError::InvalidHexCharacter { c: c1, index: i1 },
                HexError::InvalidHexCharacter { c: c2, index: i2 },
            ) => {
                if i1 < i2 {
                    assert(hex_digit(text[i1 as int]) is Some);
                }
                if i2 < i1 {
                    assert(hex_digit(text[i2 as int]) is Some);
                }
            },
            _ => {},
        }
    }
}

} // verus!
