//! What the pipeline uses of serde_json's parse errors, and of std's lossy
//! text decoding.

use vstd::prelude::*;

verus! {

#[verifier::external_type_specification]
#[verifier::external_body]
pub struct ExJsonError(serde_json::Error);

/// Relies on serde_json::Error::line: the one-based line of the failure.
pub assume_specification[ serde_json::Error::line ](e: &serde_json::Error) -> usize;

/// Relies on serde_json::Error::column: the one-based column of the failure.
pub assume_specification[ serde_json::Error::column ](e: &serde_json::Error) -> usize;

/// Relies on serde_json::Error's Display impl, for the parser's own words.
#[verifier::external_body]
pub(crate) fn json_error_text(e: &serde_json::Error) -> (r: String) {
    e.to_string()
}

/// What String::from_utf8_lossy makes of some bytes.
pub uninterp spec fn lossy_text(b: Seq<u8>) -> Seq<char>;

/// Relies on String::from_utf8_lossy: every invalid sequence becomes U+FFFD,
/// and valid UTF-8 comes back as it is.
#[verifier::external_body]
pub(crate) fn utf8_lossy(b: &[u8]) -> (r: String)
    ensures
        r@ == lossy_text(b@),
        vstd::utf8::valid_utf8(b@) ==> r@ == vstd::utf8::decode_utf8(b@),
{
    String::from_utf8_lossy(b).into_owned()
}

} // verus!
