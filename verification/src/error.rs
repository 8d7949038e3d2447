//! The errors of projection, conversion and network grid download, with the
//! message that each one shows.

use vstd::prelude::*;
use vstd::string::StringExecFns;
use crate::buffer::no_nul_char;
use crate::decimal::{decimal, lemma_decimal_digits, push_decimal};

verus! {

/// Errors originating in PROJ which can occur during projection and conversion,
/// and errors of the network grid download.
#[derive(Debug, PartialEq, Eq)]
pub enum ProjError {
    /// A projection error
    Projection(String),
    /// A conversion error
    Conversion(String),
    /// A path string originating in PROJ can't be converted to a C string
    Creation,
    /// A user-supplied path can't be converted into a string slice
    Path,
    /// Bytes that came from PROJ are not valid UTF-8
    Utf8Error,
    /// A coordinate can't be converted to a double-precision number
    FloatConversion,
    /// Network download functionality could not be enabled
    Network,
    /// The remote grid download callbacks could not be set
    RemoteCallbacks,
    /// The HTTP client could not build or carry out a request
    BuilderError,
    /// The request template refused to be cloned
    RequestCloneError,
    /// A successful response came without a content length
    ContentLength,
    /// The stored response headers hold no value for this key
    HeaderError(String),
    /// A header value holds bytes that are not visible ASCII
    HeaderConversion,
    /// The download failed with this status, for this URL, after this many retries
    DownloadError(String, String, u8),
}

/// The mathematical value of a [`ProjError`]: each text as its characters.
pub enum ProjErrorView {
    Projection(Seq<char>),
    Conversion(Seq<char>),
    Creation,
    Path,
    Utf8Error,
    FloatConversion,
    Network,
    RemoteCallbacks,
    BuilderError,
    RequestCloneError,
    ContentLength,
    HeaderError(Seq<char>),
    HeaderConversion,
    DownloadError(Seq<char>, Seq<char>, u8),
}

impl View for ProjError {
    type V = ProjErrorView;

    open spec fn view(&self) -> ProjErrorView {
        match self {
            ProjError::Projection(detail) => ProjErrorView::Projection(detail@),
            ProjError::Conversion(detail) => ProjErrorView::Conversion(detail@),
            ProjError::Creation => ProjErrorView::Creation,
            ProjError::Path => ProjErrorView::Path,
            ProjError::Utf8Error => ProjErrorView::Utf8Error,
            ProjError::FloatConversion => ProjErrorView::FloatConversion,
            ProjError::Network => ProjErrorView::Network,
            ProjError::RemoteCallbacks => ProjErrorView::RemoteCallbacks,
            ProjError::BuilderError => ProjErrorView::BuilderError,
            ProjError::RequestCloneError => ProjErrorView::RequestCloneError,
            ProjError::ContentLength => ProjErrorView::ContentLength,
            ProjError::HeaderError(key) => ProjErrorView::HeaderError(key@),
            ProjError::HeaderConversion => ProjErrorView::HeaderConversion,
            ProjError::DownloadError(status, url, retries) => ProjErrorView::DownloadError(
                status@,
                url@,
                *retries,
            ),
        }
    }
}

impl ProjErrorView {
    /// Whether the texts that the error carries hold no NUL character, as is
    /// the case for every text that came from a C string.
    pub open spec fn texts_nul_free(self) -> bool {
        match self {
            ProjErrorView::Projection(detail) => no_nul_char(detail),
            ProjErrorView::Conversion(detail) => no_nul_char(detail),
            ProjErrorView::HeaderError(key) => no_nul_char(key),
            ProjErrorView::DownloadError(status, url, _) => no_nul_char(status) && no_nul_char(url),
            _ => true,
        }
    }

    /// The message that the error shows.
    pub open spec fn message(self) -> Seq<char> {
        match self {
            ProjErrorView::Projection(detail) => "The projection failed with the following error: "@
                + detail,
            ProjErrorView::Conversion(detail) => "The conversion failed with the following error: "@
                + detail,
            ProjErrorView::Creation => "Couldn't create a raw pointer from the string"@,
            ProjErrorView::Path => "Couldn't convert path to slice"@,
            ProjErrorView::Utf8Error => "Couldn't convert bytes from PROJ to UTF-8"@,
            ProjErrorView::FloatConversion => "Couldn't convert number to f64"@,
            ProjErrorView::Network => "Network download functionality could not be enabled"@,
            ProjErrorView::RemoteCallbacks => "Could not set remote grid download callbacks"@,
            ProjErrorView::BuilderError => "Couldn't build request"@,
            ProjErrorView::RequestCloneError => "Couldn't clone request"@,
            ProjErrorView::ContentLength => "Could not retrieve content length"@,
            ProjErrorView::HeaderError(key) => "Couldn't retrieve header for key "@ + key,
            ProjErrorView::HeaderConversion => "Couldn't convert header value to str"@,
            ProjErrorView::DownloadError(status, url, retries) => "A "@ + status
                + " error occurred for url "@ + url + " after "@ + decimal(retries as nat)
                + " retries"@,
        }
    }
}

impl ProjError {
    /// The message that the error shows.
    pub fn message(&self) -> (text: String)
        ensures
            text@ == self@.message(),
    {
        match self {
            ProjError::Projection(detail) => {
                let mut text = String::from_str("The projection failed with the following error: ");
                text.append(detail.as_str());
                text
            },
            ProjError::Conversion(detail) => {
                let mut text = String::from_str("The conversion failed with the following error: ");
                text.append(detail.as_str());
                text
            },
            ProjError::Creation => String::from_str(
                "Couldn't create a raw pointer from the string",
            ),
            ProjError::Path => String::from_str("Couldn't convert path to slice"),
            ProjError::Utf8Error => String::from_str("Couldn't convert bytes from PROJ to UTF-8"),
            ProjError::FloatConversion => String::from_str("Couldn't convert number to f64"),
            ProjError::Network => String::from_str(
                "Network download functionality could not be enabled",
            ),
            ProjError::RemoteCallbacks => String::from_str(
                "Could not set remote grid download callbacks",
            ),
            ProjError::BuilderError => String::from_str("Couldn't build request"),
            ProjError::RequestCloneError => String::from_str("Couldn't clone request"),
            ProjError::ContentLength => String::from_str("Could not retrieve content length"),
            ProjError::HeaderError(key) => {
                let mut text = String::from_str("Couldn't retrieve header for key ");
                text.append(key.as_str());
                text
            },
            ProjError::HeaderConversion => String::from_str("Couldn't convert header value to str"),
            ProjError::DownloadError(status, url, retries) => {
                let mut text = String::from_str("A ");
                text.append(status.as_str());
                text.append(" error occurred for url ");
                text.append(url.as_str());
                text.append(" after ");
                push_decimal(&mut text, *retries as u64);
                text.append(" retries");
                text
            },
        }
    }
}

/// The message of an error holds a NUL character only where a text that the
/// error carries holds one.
pub proof fn lemma_message_nul_free(error: ProjErrorView)
    requires
        error.texts_nul_free(),
    ensures
        no_nul_char(error.message()),
{
    reveal_strlit("The projection failed with the following error: ");
    reveal_strlit("The conversion failed with the following error: ");
    reveal_strlit("Couldn't create a raw pointer from the string");
    reveal_strlit("Couldn't convert path to slice");
    reveal_strlit("Couldn't convert bytes from PROJ to UTF-8");
    reveal_strlit("Couldn't convert number to f64");
    reveal_strlit("Network download functionality could not be enabled");
    reveal_strlit("Could not set remote grid download callbacks");
    reveal_strlit("Couldn't build request");
    reveal_strlit("Couldn't clone request");
    reveal_strlit("Could not retrieve content length");
    reveal_strlit("Couldn't retrieve header for key ");
    reveal_strlit("Couldn't convert header value to str");
    reveal_strlit("A ");
    reveal_strlit(" error occurred for url ");
    reveal_strlit(" after ");
    reveal_strlit(" retries");
    match error {
        ProjErrorView::DownloadError(_, _, retries) => {
            lemma_decimal_digits(retries as nat);
        },
        _ => {},
    }
}

} // verus!
