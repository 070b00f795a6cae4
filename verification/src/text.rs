//! Turning captured bytes into text.
//!
//! Diagnostic output is best-effort: bytes that are not valid UTF-8 never fail
//! a dump, they are replaced.

use vstd::prelude::*;
use vstd::utf8::*;

verus! {

/// The text that `String::from_utf8_lossy` makes of `bytes`.
///
/// It is a function of the bytes alone. On valid UTF-8 it is the decoded
/// text; what it is on other bytes is not spelled out here: the standard
/// library puts U+FFFD in place of each invalid sequence.
pub uninterp spec fn lossy_text(bytes: Seq<u8>) -> Seq<char>;

/// The text that stands for `bytes`: their decoding where they are valid
/// UTF-8, and the lossy replacement text otherwise.
pub open spec fn text_of(bytes: Seq<u8>) -> Seq<char> {
    if valid_utf8(bytes) {
        decode_utf8(bytes)
    } else {
        lossy_text(bytes)
    }
}

/// Calls `String::from_utf8_lossy` and takes ownership of what it returns.
///
/// Trusted: the result is the lossy text of the bytes, and for valid UTF-8
/// it is the string those bytes encode, as the standard library documents.
#[verifier::external_body]
fn from_utf8_lossy(bytes: &[u8]) -> (text: String)
    ensures
        text@ == lossy_text(bytes@),
        valid_utf8(bytes@) ==> text@ == decode_utf8(bytes@),
{
    String::from_utf8_lossy(bytes).into_owned()
}

/// Decodes `bytes` as text, replacing what is not valid UTF-8.
pub fn decode(bytes: &[u8]) -> (text: String)
    ensures
        text@ == text_of(bytes@),
{
    from_utf8_lossy(bytes)
}

/// Valid UTF-8 survives decoding unchanged: the text encodes back to the very
/// bytes it was made from.
pub proof fn valid_bytes_round_trip(bytes: Seq<u8>)
    requires
        valid_utf8(bytes),
    ensures
        encode_utf8(text_of(bytes)) == bytes,
{
    decode_utf8_encode_utf8(bytes);
}

} // verus!
