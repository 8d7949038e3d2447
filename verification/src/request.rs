//! The HTTP request of a range read: a GET on the URL of the grid, with the
//! byte range and the name of this client in its headers.

use vstd::prelude::*;
use vstd::string::StringExecFns;
use crate::decimal::{decimal, push_decimal};

verus! {

/// The value of the `Client` header: the name of this fetcher and its version.
pub const CLIENT: &'static str = "proj-rs/0.16.1";

/// The value of the `Range` header for `size` bytes from `offset` on:
/// `bytes=<offset>-<end>`, where `end` is the offset of the last byte asked
/// for, since HTTP ranges include both ends.
pub open spec fn range_value(offset: nat, size: nat) -> Seq<char> {
    "bytes="@ + decimal(offset) + "-"@ + decimal((offset + size - 1) as nat)
}

/// Whether a read of `size` bytes from `offset` on has a last byte whose
/// offset fits in 64 bits. A read of no bytes at offset 0 has no last byte.
pub open spec fn spec_range_fits(offset: u64, size: usize) -> bool {
    1 <= offset + size <= u64::MAX + 1
}

/// Whether a read of `size_to_read` bytes from `offset` on has a last byte
/// whose offset fits in 64 bits.
#[verifier::when_used_as_spec(spec_range_fits)]
pub fn range_fits(offset: u64, size_to_read: usize) -> (fits: bool)
    ensures
        fits == spec_range_fits(offset, size_to_read),
{
    if size_to_read == 0 {
        offset >= 1
    } else {
        offset <= u64::MAX - (size_to_read as u64 - 1)
    }
}

/// The value of the `Range` header for `size_to_read` bytes from `offset` on.
pub fn range_header(offset: u64, size_to_read: usize) -> (value: String)
    requires
        range_fits(offset, size_to_read),
    ensures
        value@ == range_value(offset as nat, size_to_read as nat),
{
    let end: u64 = if size_to_read == 0 {
        offset - 1
    } else {
        offset + (size_to_read as u64 - 1)
    };
    let mut value = String::from_str("bytes=");
    push_decimal(&mut value, offset);
    value.append("-");
    push_decimal(&mut value, end);
    value
}

/// A range request ready to be sent: a GET on `url` with these two headers.
#[derive(Debug, PartialEq, Eq)]
pub struct RangeRequest {
    /// The URL of the grid.
    pub url: String,
    /// The value of the `Range` header.
    pub range: String,
    /// The value of the `Client` header.
    pub client: String,
}

/// The mathematical value of a [`RangeRequest`].
pub struct RangeRequestView {
    pub url: Seq<char>,
    pub range: Seq<char>,
    pub client: Seq<char>,
}

impl View for RangeRequest {
    type V = RangeRequestView;

    open spec fn view(&self) -> RangeRequestView {
        RangeRequestView { url: self.url@, range: self.range@, client: self.client@ }
    }
}

/// The request for `size` bytes from `offset` on of the grid at `url`.
pub open spec fn range_request(url: Seq<char>, offset: nat, size: nat) -> RangeRequestView {
    RangeRequestView { url, range: range_value(offset, size), client: CLIENT@ }
}

/// Makes the request for `size_to_read` bytes from `offset` on of the grid at
/// `url`: the template for that URL, with a fresh `Range` header and the
/// `Client` header.
pub fn new_range_request(url: &str, offset: u64, size_to_read: usize) -> (request: RangeRequest)
    requires
        range_fits(offset, size_to_read),
    ensures
        request@ == range_request(url@, offset as nat, size_to_read as nat),
{
    RangeRequest {
        url: String::from_str(url),
        range: range_header(offset, size_to_read),
        client: String::from_str(CLIENT),
    }
}

} // verus!
