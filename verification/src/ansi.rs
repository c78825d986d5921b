//! Trusted boundary to the byte-level text conversions the parser needs:
//! ANSI escape removal and UTF-8 decoding.
use vstd::prelude::*;

verus! {

/// What `strip_ansi_escapes::strip` returns for the given bytes: the bytes
/// with ANSI escape sequences removed. The result is a function of the bytes
/// alone.
pub uninterp spec fn ansi_stripped(bytes: Seq<u8>) -> Seq<u8>;

/// Relies on `strip_ansi_escapes::strip`: removes ANSI escape sequences from
/// a byte sequence and returns the remaining bytes.
#[verifier::external_body]
pub(crate) fn strip_ansi(bytes: &[u8]) -> (r: Vec<u8>)
    ensures
        r@ == ansi_stripped(bytes@),
{
    strip_ansi_escapes::strip(bytes)
}

/// Relies on `String::from_utf8`: returns the decoded string exactly when the
/// bytes are valid UTF-8.
#[verifier::external_body]
pub(crate) fn bytes_to_string(bytes: Vec<u8>) -> (r: Option<String>)
    ensures
        r is Some ==> vstd::utf8::valid_utf8(bytes@) && (r->0)@ == vstd::utf8::decode_utf8(
            bytes@,
        ),
        r is None ==> !vstd::utf8::valid_utf8(bytes@),
{
    String::from_utf8(bytes).ok()
}

/// Relies on `String`'s `FromIterator<char>`: collects the characters in
/// order into a string.
#[verifier::external_body]
pub(crate) fn chars_to_string(chars: Vec<char>) -> (r: String)
    ensures
        r@ == chars@,
{
    chars.into_iter().collect()
}

} // verus!
