//! The response headers of a range read, as the HTTP client hands them over.

use vstd::prelude::*;
use vstd::string::StringSliceAdditionalSpecFns;

verus! {

/// The header map of the HTTP client: a multimap from header names to values.
#[verifier::external_type_specification]
#[verifier::external_body]
#[verifier::reject_recursive_types(T)]
pub struct ExHeaderMap<T>(reqwest::header::HeaderMap<T>);

/// A header value of the HTTP client: a string of bytes.
#[verifier::external_type_specification]
#[verifier::external_body]
pub struct ExHeaderValue(reqwest::header::HeaderValue);

/// The error of the HTTP client for a header value that is no text.
#[verifier::external_type_specification]
#[verifier::external_body]
pub struct ExToStrError(reqwest::header::ToStrError);

/// What a header map answers to a lookup: each name under which it finds a
/// value, with the bytes of the first value held under that name.
pub uninterp spec fn header_entries(headers: reqwest::header::HeaderMap) -> Map<
    Seq<char>,
    Seq<u8>,
>;

/// The bytes of a header value.
pub uninterp spec fn value_bytes(value: reqwest::header::HeaderValue) -> Seq<u8>;

/// Whether `b` is a visible ASCII byte: a tab, or a byte from 32 to 126.
pub open spec fn is_visible_ascii(b: u8) -> bool {
    32 <= b < 127 || b == 9
}

/// Whether every byte of `bytes` is visible ASCII.
pub open spec fn all_visible_ascii(bytes: Seq<u8>) -> bool {
    forall|i: int| 0 <= i < bytes.len() ==> is_visible_ascii(#[trigger] bytes[i])
}

/// `HeaderMap::get` with a string key: the first value stored under `name`,
/// or `None` where the map holds no value under it.
#[verifier::external_body]
pub(crate) fn header_get<'a>(headers: &'a reqwest::header::HeaderMap, name: &str) -> (found:
    Option<&'a reqwest::header::HeaderValue>)
    ensures
        found is Some <==> header_entries(*headers).contains_key(name@),
        found matches Some(value) ==> value_bytes(*value) == header_entries(*headers)[name@],
{
    headers.get(name)
}

/// `HeaderValue::to_str`: the value as text when all its bytes are visible
/// ASCII, and an error when one is not. The text has the bytes of the value.
#[verifier::external_body]
pub(crate) fn header_to_str<'a>(value: &'a reqwest::header::HeaderValue) -> (text: Result<
    &'a str,
    reqwest::header::ToStrError,
>)
    ensures
        text is Ok <==> all_visible_ascii(value_bytes(*value)),
        text matches Ok(s) ==> s.spec_bytes() == value_bytes(*value),
{
    value.to_str()
}

} // verus!
