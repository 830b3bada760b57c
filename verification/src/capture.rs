//! Captured logs as text: hexadecimal digits, two to a byte, with white
//! space anywhere between them.

use vstd::prelude::*;
use vstd::utf8::encode_utf8;
use crate::base16::{hex_decode, hex_fault, hex_value, is_hex_text, HexError};
use crate::strings::is_white_space;

verus! {

/// A text without its white space: the characters that are not white space,
/// in their order.
pub open spec fn without_white_space(text: Seq<char>) -> Seq<char> {
    text.filter(|c: char| !is_white_space(c))
}

/// A text with one more character at its end keeps that character exactly
/// when it is not white space.
pub proof fn lemma_without_white_space_push(text: Seq<char>, c: char)
    ensures
        without_white_space(text.push(c)) == if is_white_space(c) {
            without_white_space(text)
        } else {
            without_white_space(text).push(c)
        },
{
    reveal(Seq::filter);
    assert(text.push(c).drop_last() =~= text);
}

/// Removes every white-space character from `s` and keeps the others in
/// their order.
pub fn remove_whitespace(s: &mut String)
    ensures
        final(s)@ == without_white_space(old(s)@),
{
    let mut kept = String::new();
    let text = s.as_str();
    for c in it: text.chars()
        invariant
            it.seq() == text@,
            kept@ == without_white_space(text@.take(it.index())),
    {
        proof {
            let i = it.index();
            assert(text@.take(i + 1) =~= text@.take(i).push(c));
            lemma_without_white_space_push(text@.take(i), c);
        }
        if !c.is_whitespace() {
            kept.push(c);
        }
    }
    assert(text@.take(text@.len() as int) =~= text@);
    *s = kept;
}

/// The bytes of the digits of a captured log: its text without white space,
/// in UTF-8.
pub open spec fn capture_digits(raw: Seq<char>) -> Seq<u8> {
    encode_utf8(without_white_space(raw))
}

/// Decodes a captured log: drops its white space and reads what is left as
/// hexadecimal digits, two to a byte.
///
/// The result is the bytes that the digits spell. It is an error where an
/// odd number of bytes is left, and else where one of them is not a
/// hexadecimal digit: the error names the first such byte and its offset
/// among the bytes that are left.
pub fn decode_capture(raw: &str) -> (r: Result<Vec<u8>, HexError>)
    ensures
        match r {
            Ok(bytes) => is_hex_text(capture_digits(raw@)) && bytes@ == hex_value(
                capture_digits(raw@),
            ),
            Err(e) => hex_fault(capture_digits(raw@), e),
        },
{
    let mut text = raw.to_owned();
    remove_whitespace(&mut text);
    hex_decode(text.as_str().as_bytes())
}

} // verus!
