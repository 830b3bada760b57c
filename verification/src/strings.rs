//! What the library takes from the standard library for characters and
//! strings, with what is assumed of each.

use vstd::prelude::*;
use vstd::utf8::{decode_utf8, valid_utf8};

verus! {

/// Whether a character has the Unicode property `White_Space`.
pub uninterp spec fn is_white_space(c: char) -> bool;

/// A byte string read as UTF-8, with each stretch that is not UTF-8
/// replaced by U+FFFD.
pub uninterp spec fn utf8_lossy(bytes: Seq<u8>) -> Seq<char>;

/// `char::is_whitespace` of the standard library tells whether a character
/// has the Unicode property `White_Space`.
pub assume_specification[ char::is_whitespace ](c: char) -> (b: bool)
    ensures
        b == is_white_space(c),
;

/// `String::push` of the standard library appends one character to the end
/// of a string.
pub assume_specification[ String::push ](s: &mut String, c: char)
    ensures
        final(s)@ == old(s)@.push(c),
;

/// `String::from_utf8_lossy` of the standard library reads bytes as UTF-8
/// and puts U+FFFD in place of what is not; bytes that are UTF-8 are read
/// as the text that they spell.
#[verifier::external_body]
pub(crate) fn lossy_text(bytes: &[u8]) -> (text: String)
    ensures
        text@ == utf8_lossy(bytes@),
        valid_utf8(bytes@) ==> text@ == decode_utf8(bytes@),
{
    String::from_utf8_lossy(bytes).into_owned()
}

} // verus!
