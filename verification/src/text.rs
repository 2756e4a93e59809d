//! Conversions between strings, character vectors and captured byte
//! buffers, together with the lossy decoding used for a child's output.

use vstd::prelude::*;

verus! {

/// The text that lossy UTF-8 decoding produces from an arbitrary byte
/// sequence. The result depends on the bytes alone; on valid UTF-8 it
/// agrees with `vstd::utf8::decode_utf8` (see `lossy_decode`).
pub uninterp spec fn lossy_of(bytes: Seq<u8>) -> Seq<char>;

/// Relies on `str::chars`: the characters of a string, in order.
#[verifier::external_body]
pub(crate) fn chars_of(s: &str) -> (r: Vec<char>)
    ensures
        r@ == s@,
{
    s.chars().collect()
}

/// Relies on `String`'s `FromIterator<char>`: collecting characters
/// yields the string of exactly those characters, in order.
#[verifier::external_body]
pub(crate) fn string_from_chars(v: Vec<char>) -> (r: String)
    ensures
        r@ == v@,
{
    v.into_iter().collect()
}

/// Relies on `String::from_utf8_lossy`: valid UTF-8 input decodes
/// unchanged, and any input yields text that is a function of the
/// bytes alone (invalid sequences are replaced, never rejected).
#[verifier::external_body]
pub(crate) fn lossy_decode(bytes: &Vec<u8>) -> (r: String)
    ensures
        r@ == lossy_of(bytes@),
        vstd::utf8::valid_utf8(bytes@) ==> r@ == vstd::utf8::decode_utf8(bytes@),
{
    String::from_utf8_lossy(bytes).into_owned()
}

} // verus!
