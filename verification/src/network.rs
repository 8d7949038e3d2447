//! Native grid network functionality: the parts of the engine's four network
//! callbacks that decide and compute. What sends a request or touches the
//! engine's buffers calls in here with plain values.
//!
//! **Note**: the engine sets the size of its error buffer to 128.

use vstd::prelude::*;
use vstd::string::{StringExecFns, StringSliceAdditionalSpecFns};
use vstd::utf8::{decode_utf8, encode_utf8, valid_utf8};
use crate::buffer::{
    error_string, is_c_string, lemma_encode_nul_free, lemma_error_string_terminated,
    lemma_error_string_whole, lemma_replace_zeros_clean, lemma_replace_zeros_of_text,
    lemma_replace_zeros_writes_nought, nought, replace_zero_chars, replace_zero_digits,
    replace_zeros, write_error_string, ZERO_DIGIT,
};
use crate::error::{lemma_message_nul_free, ProjError, ProjErrorView};
use crate::handle::{HandleData, HandleDataView};
use crate::headers::header_entries;
use crate::request::{new_range_request, range_fits, range_request, RangeRequest};
use crate::response::{
    body_suffices, body_view, read_outcome, read_range, RangeRead, RangeReadView, RangeResponse,
};
use crate::text::string_from_bytes;

verus! {

/// The first request of *open*: for `size_to_read` bytes from `offset` on of
/// the grid whose URL the engine gave as `url`. It fails with `Utf8Error`
/// where the URL is not valid UTF-8.
pub fn open_request(url: &[u8], offset: u64, size_to_read: usize) -> (request: Result<
    RangeRequest,
    ProjError,
>)
    requires
        range_fits(offset, size_to_read),
    ensures
        match request {
            Ok(ready) => valid_utf8(url@) && ready@ == range_request(
                decode_utf8(url@),
                offset as nat,
                size_to_read as nat,
            ),
            Err(error) => !valid_utf8(url@) && error@ == ProjErrorView::Utf8Error,
        },
{
    match string_from_bytes(url) {
        Ok(text) => Ok(new_range_request(text.as_str(), offset, size_to_read)),
        Err(error) => Err(error),
    }
}

/// The end of *open*: takes from the final response the bytes for the engine
/// and makes the handle for the reads to come, which keeps the request
/// template and the headers of this response and has no header value
/// outstanding.
pub fn open_response(url: &str, response: RangeResponse, size_to_read: usize) -> (opened: Result<
    (HandleData, RangeRead),
    ProjError,
>)
    requires
        body_suffices(response.content_length, body_view(response.body), size_to_read as nat),
    ensures
        match opened {
            Ok((handle, read)) => {
                &&& read_outcome(
                    response.content_length,
                    body_view(response.body),
                    size_to_read as nat,
                ) == Ok::<RangeReadView, ProjErrorView>(read@)
                &&& handle@ == (HandleDataView {
                    url: url@,
                    headers: header_entries(response.headers),
                    hptr: None,
                })
            },
            Err(error) => read_outcome(
                response.content_length,
                body_view(response.body),
                size_to_read as nat,
            ) == Err::<RangeReadView, ProjErrorView>(error@),
        },
{
    match read_range(response.content_length, &response.body, size_to_read) {
        Err(error) => Err(error),
        Ok(read) => {
            let handle = HandleData::new(String::from_str(url), response.headers, None);
            Ok((handle, read))
        },
    }
}

/// The bytes of the message of `error`.
pub open spec fn message_bytes(error: ProjErrorView) -> Seq<u8> {
    encode_utf8(error.message())
}

/// What *open* writes into an error buffer of `max_size` bytes when it fails
/// with `error`: the message, cut to fit, and a NUL.
pub fn open_error_string(error: &ProjError, max_size: usize) -> (written: Vec<u8>)
    ensures
        written@ == error_string(message_bytes(error@), max_size as nat),
        written.len() <= max_size,
{
    let message = error.message();
    write_error_string(message.as_str().as_bytes(), max_size)
}

/// What *read range* writes into an error buffer of `max_size` bytes when it
/// fails with `error`: the message with `nought` for each digit zero, cut to
/// fit, and a NUL. The digits are replaced in the bytes of the message, which
/// comes to the same as replacing the characters `0` in its text.
pub fn read_range_error_string(error: &ProjError, max_size: usize) -> (written: Vec<u8>)
    ensures
        written@ == error_string(replace_zeros(message_bytes(error@)), max_size as nat),
        written@ == error_string(
            encode_utf8(replace_zero_chars(error@.message())),
            max_size as nat,
        ),
        written.len() <= max_size,
{
    let message = error.message();
    let replaced = replace_zero_digits(message.as_str().as_bytes());
    proof {
        lemma_replace_zeros_of_text(error@.message());
    }
    write_error_string(replaced.as_slice(), max_size)
}

/// Whatever *open* writes into an error buffer of at least one byte stays
/// within the buffer and ends in a NUL, and where the texts of the error hold
/// no NUL, that terminator is the first NUL written.
pub proof fn lemma_open_error_string_terminated(error: ProjErrorView, max_size: nat)
    requires
        max_size >= 1,
    ensures
        1 <= error_string(message_bytes(error), max_size).len() <= max_size,
        error_string(message_bytes(error), max_size).last() == 0,
        error.texts_nul_free() ==> is_c_string(error_string(message_bytes(error), max_size)),
{
    lemma_error_string_terminated(message_bytes(error), max_size);
    if error.texts_nul_free() {
        lemma_message_nul_free(error);
        lemma_encode_nul_free(error.message());
    }
}

/// Whatever *read range* writes into an error buffer of at least one byte
/// stays within the buffer and ends in a NUL, and where the texts of the error
/// hold no NUL, that terminator is the first NUL written.
pub proof fn lemma_read_range_error_string_terminated(error: ProjErrorView, max_size: nat)
    requires
        max_size >= 1,
    ensures
        1 <= error_string(replace_zeros(message_bytes(error)), max_size).len() <= max_size,
        error_string(replace_zeros(message_bytes(error)), max_size).last() == 0,
        error.texts_nul_free() ==> is_c_string(
            error_string(replace_zeros(message_bytes(error)), max_size),
        ),
{
    lemma_error_string_terminated(replace_zeros(message_bytes(error)), max_size);
    if error.texts_nul_free() {
        lemma_message_nul_free(error);
        lemma_encode_nul_free(error.message());
        lemma_replace_zeros_clean(message_bytes(error));
    }
}

/// Where the message of an error holds a digit zero, what *read range* writes
/// holds the word `nought` in its place, provided that the rewritten message
/// fits the buffer; and no digit zero is written in any case.
pub proof fn lemma_read_range_error_string_nought(error: ProjErrorView, max_size: nat, i: int)
    requires
        0 <= i < message_bytes(error).len(),
        message_bytes(error)[i] == ZERO_DIGIT,
        replace_zeros(message_bytes(error)).len() < max_size,
    ensures
        ({
            let written = error_string(replace_zeros(message_bytes(error)), max_size);
            let at = replace_zeros(message_bytes(error).take(i)).len() as int;
            &&& at + 6 < written.len()
            &&& written.subrange(at, at + 6) == nought()
            &&& forall|j: int| 0 <= j < written.len() ==> #[trigger] written[j] != ZERO_DIGIT
        }),
{
    let message = message_bytes(error);
    let replaced = replace_zeros(message);
    lemma_error_string_whole(replaced, max_size);
    lemma_replace_zeros_writes_nought(message, i);
    lemma_replace_zeros_clean(message);
    let written = error_string(replaced, max_size);
    let at = replace_zeros(message.take(i)).len() as int;
    assert(written.subrange(at, at + 6) =~= replaced.subrange(at, at + 6));
}

} // verus!
