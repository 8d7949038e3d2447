//! The final response of a range read, and what is taken from it for the
//! engine.

use vstd::prelude::*;
use vstd::slice::{slice_subrange, slice_to_vec};
use reqwest::header::HeaderMap;
use crate::error::{ProjError, ProjErrorView};

verus! {

/// What is read from the final response of a range read.
pub struct RangeResponse {
    /// The content length, if the response tells it.
    pub content_length: Option<u64>,
    /// The response headers.
    pub headers: HeaderMap,
    /// The whole body, or `None` where reading it failed.
    pub body: Option<Vec<u8>>,
}

/// What a successful range read hands to the engine.
#[derive(Debug, PartialEq, Eq)]
pub struct RangeRead {
    /// The bytes for the engine's buffer.
    pub data: Vec<u8>,
    /// The number of bytes to report as read: the content length.
    pub size_read: u64,
}

/// The mathematical value of a [`RangeRead`].
pub struct RangeReadView {
    pub data: Seq<u8>,
    pub size_read: u64,
}

impl View for RangeRead {
    type V = RangeReadView;

    open spec fn view(&self) -> RangeReadView {
        RangeReadView { data: self.data@, size_read: self.size_read }
    }
}

/// The view of an optional body.
pub open spec fn body_view(body: Option<Vec<u8>>) -> Option<Seq<u8>> {
    match body {
        Some(bytes) => Some(bytes@),
        None => None,
    }
}

/// The number of bytes that go into the engine's buffer: the content length,
/// but no more than the engine asked for.
pub open spec fn copy_len(content_length: u64, size_to_read: nat) -> nat {
    if content_length <= size_to_read {
        content_length as nat
    } else {
        size_to_read
    }
}

/// Whether the body holds the bytes that are to be copied from it.
pub open spec fn body_suffices(
    content_length: Option<u64>,
    body: Option<Seq<u8>>,
    size_to_read: nat,
) -> bool {
    content_length matches Some(length) ==> (body matches Some(bytes) ==> copy_len(
        length,
        size_to_read,
    ) <= bytes.len())
}

impl RangeResponse {
    /// Whether the body holds the bytes that a read of `size_to_read` bytes
    /// copies from it.
    pub fn suffices(&self, size_to_read: usize) -> (enough: bool)
        ensures
            enough == body_suffices(self.content_length, body_view(self.body), size_to_read as nat),
    {
        match (&self.content_length, &self.body) {
            (Some(length), Some(bytes)) => {
                if *length <= size_to_read as u64 {
                    *length <= bytes.len() as u64
                } else {
                    size_to_read <= bytes.len()
                }
            },
            _ => true,
        }
    }
}

/// What a response means for a read of `size_to_read` bytes. Without a
/// content length it fails with `ContentLength`; where the body could not be
/// read, with `BuilderError`. Else the first [`copy_len`] bytes of the body are
/// handed on, and the content length is reported as the number of bytes read.
pub open spec fn read_outcome(
    content_length: Option<u64>,
    body: Option<Seq<u8>>,
    size_to_read: nat,
) -> Result<RangeReadView, ProjErrorView> {
    match content_length {
        None => Err(ProjErrorView::ContentLength),
        Some(length) => match body {
            None => Err(ProjErrorView::BuilderError),
            Some(bytes) => Ok(
                RangeReadView {
                    data: bytes.take(copy_len(length, size_to_read) as int),
                    size_read: length,
                },
            ),
        },
    }
}

/// Takes from a response what a read of `size_to_read` bytes hands to the
/// engine.
pub fn read_range(
    content_length: Option<u64>,
    body: &Option<Vec<u8>>,
    size_to_read: usize,
) -> (read: Result<RangeRead, ProjError>)
    requires
        body_suffices(content_length, body_view(*body), size_to_read as nat),
    ensures
        match read {
            Ok(done) => read_outcome(content_length, body_view(*body), size_to_read as nat) == Ok::<
                RangeReadView,
                ProjErrorView,
            >(done@),
            Err(error) => read_outcome(content_length, body_view(*body), size_to_read as nat)
                == Err::<RangeReadView, ProjErrorView>(error@),
        },
        read matches Ok(done) ==> done.data.len() <= size_to_read,
{
    match content_length {
        None => Err(ProjError::ContentLength),
        Some(length) => match body {
            None => Err(ProjError::BuilderError),
            Some(bytes) => {
                let count: usize = if length <= size_to_read as u64 {
                    length as usize
                } else {
                    size_to_read
                };
                let data = slice_to_vec(slice_subrange(bytes.as_slice(), 0, count));
                assert(data@ =~= bytes@.take(count as int));
                Ok(RangeRead { data, size_read: length })
            },
        },
    }
}

/// What is handed on never exceeds what the engine asked for nor what the
/// response announced, and a response that announces less than was asked for
/// is handed on whole, with its content length as the number of bytes read.
pub proof fn lemma_read_outcome_len(content_length: u64, body: Seq<u8>, size_to_read: nat)
    requires
        copy_len(content_length, size_to_read) <= body.len(),
    ensures
        ({
            let outcome = read_outcome(Some(content_length), Some(body), size_to_read);
            &&& outcome matches Ok(done)
            &&& done.size_read == content_length
            &&& done.data.len() == copy_len(content_length, size_to_read)
            &&& done.data.len() <= size_to_read
            &&& done.data.len() <= content_length
            &&& content_length <= size_to_read ==> done.data == body.take(content_length as int)
            &&& forall|i: int| 0 <= i < done.data.len() ==> done.data[i] == body[i]
        }),
{
}

} // verus!
