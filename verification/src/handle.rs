//! The state kept for one opened file between the callbacks of the engine.

use vstd::prelude::*;
use vstd::slice::slice_to_vec;
use vstd::string::{StringExecFns, StringSliceAdditionalSpecFns};
use vstd::utf8::{decode_utf8, valid_utf8};
use reqwest::header::HeaderMap;
use crate::buffer::{c_string, is_c_string, nul_free};
use crate::error::{ProjError, ProjErrorView};
use crate::headers::{
    all_visible_ascii, header_entries, header_get, header_to_str, is_visible_ascii,
};
use crate::request::{new_range_request, range_fits, range_request, RangeRequest};
use crate::response::{
    body_suffices, body_view, read_outcome, read_range, RangeRead, RangeReadView, RangeResponse,
};
use crate::text::{lowercase, string_from_bytes, to_lowercase};

verus! {

/// Per-opened-URL state: the engine holds it as an opaque handle from *open*
/// to *close*.
pub struct HandleData {
    /// The request template: a GET on this URL.
    request: String,
    /// The headers of the most recent successful response.
    headers: HeaderMap,
    /// The header value that was last handed to the engine, which must stay
    /// alive until the next one is handed out or the handle is closed.
    hptr: Option<Vec<u8>>,
}

/// The mathematical value of a [`HandleData`].
pub struct HandleDataView {
    /// The URL of the request template.
    pub url: Seq<char>,
    /// What the stored headers answer to a lookup.
    pub headers: Map<Seq<char>, Seq<u8>>,
    /// The outstanding header value, if one was handed out.
    pub hptr: Option<Seq<u8>>,
}

/// Whether an outstanding header value is fit to be handed to the engine:
/// there is none, or it is a C string.
pub open spec fn hptr_valid(hptr: Option<Seq<u8>>) -> bool {
    hptr matches Some(bytes) ==> is_c_string(bytes)
}

/// The value that a lookup of `key` hands out: the bytes stored under the key
/// and a NUL. It fails with `HeaderError` where nothing is stored under the
/// key, and with `HeaderConversion` where the value holds a byte that is not
/// visible ASCII.
pub open spec fn header_c_string(headers: Map<Seq<char>, Seq<u8>>, key: Seq<char>) -> Result<
    Seq<u8>,
    ProjErrorView,
> {
    if !headers.contains_key(key) {
        Err(ProjErrorView::HeaderError(key))
    } else if !all_visible_ascii(headers[key]) {
        Err(ProjErrorView::HeaderConversion)
    } else {
        Ok(c_string(headers[key]))
    }
}

/// The value that a lookup hands out for the header name that the engine gave
/// as `name`: the name is decoded, which fails with `Utf8Error` where it is
/// not valid UTF-8, then lowercased and looked up.
pub open spec fn header_value_for(headers: Map<Seq<char>, Seq<u8>>, name: Seq<u8>) -> Result<
    Seq<u8>,
    ProjErrorView,
> {
    if !valid_utf8(name) {
        Err(ProjErrorView::Utf8Error)
    } else {
        header_c_string(headers, lowercase(decode_utf8(name)))
    }
}

/// What the engine gets for the header name `name`: the value found, or the
/// empty C string, which tells the engine that there is none.
pub open spec fn handed_out(headers: Map<Seq<char>, Seq<u8>>, name: Seq<u8>) -> Seq<u8> {
    match header_value_for(headers, name) {
        Ok(bytes) => bytes,
        Err(_) => seq![0u8],
    }
}

impl HandleDataView {
    /// The state after the engine asked for the header `name`: the value
    /// handed out is the outstanding one, in place of any earlier one.
    pub open spec fn after_get_header_value(self, name: Seq<u8>) -> HandleDataView {
        HandleDataView { hptr: Some(handed_out(self.headers, name)), ..self }
    }

    /// The state after a successful range read that was answered with
    /// `headers`.
    pub open spec fn after_read(self, headers: Map<Seq<char>, Seq<u8>>) -> HandleDataView {
        HandleDataView { headers, ..self }
    }
}

impl View for HandleData {
    type V = HandleDataView;

    closed spec fn view(&self) -> HandleDataView {
        HandleDataView {
            url: self.request@,
            headers: header_entries(self.headers),
            hptr: match self.hptr {
                Some(bytes) => Some(bytes@),
                None => None,
            },
        }
    }
}

impl HandleData {
    #[verifier::type_invariant]
    spec fn inv(self) -> bool {
        hptr_valid(self@.hptr)
    }

    /// Makes the state of a file that was opened with a GET on the URL
    /// `request` and answered with `headers`. `hptr` is the header value that
    /// is outstanding, if there is one: a C string.
    pub fn new(request: String, headers: HeaderMap, hptr: Option<Vec<u8>>) -> (handle: Self)
        requires
            hptr matches Some(bytes) ==> is_c_string(bytes@),
        ensures
            handle@.url == request@,
            handle@.headers == header_entries(headers),
            handle@.hptr == match hptr {
                Some(bytes) => Some(bytes@),
                None => None,
            },
    {
        Self { request, headers, hptr }
    }

    /// The URL of the request template.
    pub fn url(&self) -> (url: &str)
        ensures
            url@ == self@.url,
    {
        self.request.as_str()
    }

    /// The stored response headers.
    pub fn headers(&self) -> (headers: &HeaderMap)
        ensures
            header_entries(*headers) == self@.headers,
    {
        &self.headers
    }

    /// The outstanding header value, if one was handed out: a C string that
    /// stays where it is until the next lookup or the end of the handle.
    pub fn hptr(&self) -> (hptr: Option<&Vec<u8>>)
        ensures
            match hptr {
                Some(bytes) => self@.hptr == Some(bytes@) && is_c_string(bytes@),
                None => self@.hptr is None,
            },
    {
        proof {
            use_type_invariant(self);
        }
        self.hptr.as_ref()
    }

    /// The request for `size_to_read` bytes from `offset` on: a clone of the
    /// template, with a fresh range.
    pub fn range_request(&self, offset: u64, size_to_read: usize) -> (request: RangeRequest)
        requires
            range_fits(offset, size_to_read),
        ensures
            request@ == range_request(self@.url, offset as nat, size_to_read as nat),
    {
        new_range_request(self.request.as_str(), offset, size_to_read)
    }

    /// Looks `key` up in the stored headers and makes the C string to hand out.
    pub fn lookup_header(&self, key: &str) -> (value: Result<Vec<u8>, ProjError>)
        ensures
            match value {
                Ok(bytes) => header_c_string(self@.headers, key@) == Ok::<Seq<u8>, ProjErrorView>(
                    bytes@,
                ) && is_c_string(bytes@),
                Err(error) => header_c_string(self@.headers, key@) == Err::<Seq<u8>, ProjErrorView>(
                    error@,
                ),
            },
    {
        match header_get(&self.headers, key) {
            None => Err(ProjError::HeaderError(String::from_str(key))),
            Some(found) => match header_to_str(found) {
                Err(_) => Err(ProjError::HeaderConversion),
                Ok(text) => {
                    let mut bytes = slice_to_vec(text.as_bytes());
                    bytes.push(0);
                    proof {
                        let stored = header_entries(self.headers)[key@];
                        assert(bytes@ =~= c_string(stored));
                        assert(nul_free(stored)) by {
                            assert forall|i: int| 0 <= i < stored.len() implies #[trigger] stored[i]
                                != 0 by {
                                assert(is_visible_ascii(stored[i]));
                            }
                        }
                    }
                    Ok(bytes)
                },
            },
        }
    }

    /// The end of *read range*: takes from the final response the bytes for
    /// the engine and stores the headers of that response in place of the
    /// earlier ones. A failed read leaves the handle as it was.
    pub fn read_response(&mut self, response: RangeResponse, size_to_read: usize) -> (read: Result<
        RangeRead,
        ProjError,
    >)
        requires
            body_suffices(response.content_length, body_view(response.body), size_to_read as nat),
        ensures
            match read {
                Ok(done) => {
                    &&& read_outcome(
                        response.content_length,
                        body_view(response.body),
                        size_to_read as nat,
                    ) == Ok::<RangeReadView, ProjErrorView>(done@)
                    &&& final(self)@ == old(self)@.after_read(header_entries(response.headers))
                },
                Err(error) => {
                    &&& read_outcome(
                        response.content_length,
                        body_view(response.body),
                        size_to_read as nat,
                    ) == Err::<RangeReadView, ProjErrorView>(error@)
                    &&& final(self)@ == old(self)@
                },
            },
    {
        proof {
            use_type_invariant(&*self);
        }
        match read_range(response.content_length, &response.body, size_to_read) {
            Err(error) => Err(error),
            Ok(read) => {
                self.headers = response.headers;
                Ok(read)
            },
        }
    }

    /// Finds the value of the header that the engine names with the bytes
    /// `header_name`, as the C string to hand out.
    pub fn find_header_value(&self, header_name: &[u8]) -> (value: Result<Vec<u8>, ProjError>)
        ensures
            match value {
                Ok(bytes) => header_value_for(self@.headers, header_name@) == Ok::<
                    Seq<u8>,
                    ProjErrorView,
                >(bytes@) && is_c_string(bytes@),
                Err(error) => header_value_for(self@.headers, header_name@) == Err::<
                    Seq<u8>,
                    ProjErrorView,
                >(error@),
            },
    {
        match string_from_bytes(header_name) {
            Err(error) => Err(error),
            Ok(name) => {
                let lookup = to_lowercase(name.as_str());
                self.lookup_header(lookup.as_str())
            },
        }
    }

    /// *Get header value*, the part that may fail: finds the value and keeps it
    /// as the outstanding one, in place of any earlier one. A failure leaves
    /// the handle as it was.
    pub fn try_get_header_value(&mut self, header_name: &[u8]) -> (found: Result<(), ProjError>)
        ensures
            match found {
                Ok(()) => header_value_for(old(self)@.headers, header_name@) is Ok && final(self)@
                    == old(self)@.after_get_header_value(header_name@),
                Err(error) => header_value_for(old(self)@.headers, header_name@) == Err::<
                    Seq<u8>,
                    ProjErrorView,
                >(error@) && final(self)@ == old(self)@,
            },
    {
        match self.find_header_value(header_name) {
            Err(error) => Err(error),
            Ok(bytes) => {
                self.hptr = Some(bytes);
                Ok(())
            },
        }
    }

    /// *Get header value*: finds the value and keeps it as the outstanding
    /// one, in place of any earlier one. Where there is none to hand out, the
    /// outstanding value is the empty C string, which the engine takes as an
    /// error. What is handed out is borrowed from the handle: it stays where
    /// it is until the next lookup or the end of the handle.
    ///
    /// The earlier value is freed at once. An engine that still read it after
    /// asking for another header would read freed memory; the engine is
    /// trusted not to.
    pub fn get_header_value(&mut self, header_name: &[u8]) -> (value: &Vec<u8>)
        ensures
            value@ == handed_out(old(self)@.headers, header_name@),
            is_c_string(value@),
            final(self)@ == old(self)@.after_get_header_value(header_name@),
    {
        match self.try_get_header_value(header_name) {
            Ok(()) => {},
            Err(_) => {
                let mut empty: Vec<u8> = Vec::new();
                empty.push(0);
                assert(empty@ =~= seq![0u8]);
                self.hptr = Some(empty);
            },
        }
        proof {
            use_type_invariant(&*self);
        }
        self.hptr.as_ref().unwrap()
    }
}

/// Looking a header up twice gives what looking it up once gives: the same
/// value is handed out, and the handle ends in the same state.
pub proof fn lemma_get_header_value_idempotent(handle: HandleDataView, name: Seq<u8>)
    ensures
        handed_out(handle.after_get_header_value(name).headers, name) == handed_out(
            handle.headers,
            name,
        ),
        handle.after_get_header_value(name).after_get_header_value(name)
            == handle.after_get_header_value(name),
{
}

/// After a lookup the handle holds exactly one outstanding value, a C string,
/// whatever it held before.
pub proof fn lemma_handed_out_is_c_string(headers: Map<Seq<char>, Seq<u8>>, name: Seq<u8>)
    ensures
        is_c_string(handed_out(headers, name)),
{
    match header_value_for(headers, name) {
        Ok(bytes) => {
            let key = lowercase(decode_utf8(name));
            let stored = headers[key];
            assert forall|i: int| 0 <= i < stored.len() implies #[trigger] stored[i] != 0 by {
                assert(is_visible_ascii(stored[i]));
            }
        },
        Err(_) => {},
    }
}

/// A successful read stores the headers of its response, and what is looked
/// up afterwards comes from them.
pub proof fn lemma_lookup_after_read(
    handle: HandleDataView,
    headers: Map<Seq<char>, Seq<u8>>,
    name: Seq<u8>,
)
    ensures
        handle.after_read(headers).headers == headers,
        handle.after_read(headers).url == handle.url,
        handle.after_read(headers).after_get_header_value(name).hptr == Some(
            handed_out(headers, name),
        ),
{
}

/// Neither a read nor a header lookup touches the request template: the same
/// offset and size ask for the same range of the same URL again.
pub proof fn lemma_same_request_again(
    handle: HandleDataView,
    headers: Map<Seq<char>, Seq<u8>>,
    name: Seq<u8>,
    offset: nat,
    size: nat,
)
    ensures
        range_request(handle.after_read(headers).url, offset, size) == range_request(
            handle.url,
            offset,
            size,
        ),
        range_request(handle.after_get_header_value(name).url, offset, size) == range_request(
            handle.url,
            offset,
            size,
        ),
{
}

} // verus!
