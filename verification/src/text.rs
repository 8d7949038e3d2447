//! Text that comes from the engine as bytes: decoding and lowercasing.

use vstd::prelude::*;
use vstd::string::{StringExecFns, StringSliceAdditionalSpecFns};
use vstd::utf8::{decode_utf8, encode_utf8_decode_utf8, valid_utf8};
use crate::error::{ProjError, ProjErrorView};

verus! {

/// The error of `std::str::from_utf8` for bytes that are not valid UTF-8.
#[verifier::external_type_specification]
#[verifier::external_body]
pub struct ExUtf8Error(std::str::Utf8Error);

/// `std::str::from_utf8`: the bytes as text where they are valid UTF-8, and
/// an error where they are not. The text has the bytes it was made from.
#[verifier::external_body]
fn str_from_utf8<'a>(bytes: &'a [u8]) -> (text: Result<&'a str, std::str::Utf8Error>)
    ensures
        text is Ok <==> valid_utf8(bytes@),
        text matches Ok(s) ==> s.spec_bytes() == bytes@,
{
    std::str::from_utf8(bytes)
}

/// What `str::to_lowercase` makes of a text: its lowercase equivalent by the
/// Unicode property Lowercase.
pub uninterp spec fn lowercase(text: Seq<char>) -> Seq<char>;

/// `str::to_lowercase`: the lowercase equivalent of `text` as a new string.
#[verifier::external_body]
pub(crate) fn to_lowercase(text: &str) -> (lower: String)
    ensures
        lower@ == lowercase(text@),
{
    text.to_lowercase()
}

/// Get a `String` from bytes that came from the engine, less their
/// terminator: the text that they encode in UTF-8, or
/// [`ProjError::Utf8Error`] where they are not valid UTF-8.
pub fn string_from_bytes(bytes: &[u8]) -> (text: Result<String, ProjError>)
    ensures
        match text {
            Ok(s) => valid_utf8(bytes@) && s@ == decode_utf8(bytes@),
            Err(e) => !valid_utf8(bytes@) && e@ == ProjErrorView::Utf8Error,
        },
{
    match str_from_utf8(bytes) {
        Ok(s) => {
            proof {
                encode_utf8_decode_utf8(s@);
            }
            Ok(String::from_str(s))
        },
        Err(_) => Err(ProjError::Utf8Error),
    }
}

} // verus!
