//! The classes of HTTP status codes that decide whether a range read is
//! delivered, tried again or given up.

use vstd::prelude::*;
use crate::backoff::MAX_RETRIES;

verus! {

/// Whether `status` is one of the codes that some content delivery networks
/// send in place of a reply and that are therefore tried again: 429, 500, 502
/// and 504.
pub open spec fn spec_is_retry_code(status: u16) -> bool {
    status == 429 || status == 500 || status == 502 || status == 504
}

/// Whether `status` is within 200-299.
pub open spec fn spec_is_success(status: u16) -> bool {
    200 <= status < 300
}

/// Whether `status` is within 400-499.
pub open spec fn spec_is_client_error(status: u16) -> bool {
    400 <= status < 500
}

/// Whether `status` is within 500-599.
pub open spec fn spec_is_server_error(status: u16) -> bool {
    500 <= status < 600
}

/// Whether a response with `status` is eligible for another try: a server
/// error, or one of the retry codes.
pub open spec fn spec_is_retriable(status: u16) -> bool {
    spec_is_server_error(status) || spec_is_retry_code(status)
}

/// Whether `status` is one of the retry codes 429, 500, 502 and 504.
#[verifier::when_used_as_spec(spec_is_retry_code)]
pub fn is_retry_code(status: u16) -> (yes: bool)
    ensures
        yes == spec_is_retry_code(status),
{
    status == 429 || status == 500 || status == 502 || status == 504
}

/// Whether `status` is within 200-299.
#[verifier::when_used_as_spec(spec_is_success)]
pub fn is_success(status: u16) -> (yes: bool)
    ensures
        yes == spec_is_success(status),
{
    200 <= status && status < 300
}

/// Whether `status` is within 400-499.
#[verifier::when_used_as_spec(spec_is_client_error)]
pub fn is_client_error(status: u16) -> (yes: bool)
    ensures
        yes == spec_is_client_error(status),
{
    400 <= status && status < 500
}

/// Whether `status` is within 500-599.
#[verifier::when_used_as_spec(spec_is_server_error)]
pub fn is_server_error(status: u16) -> (yes: bool)
    ensures
        yes == spec_is_server_error(status),
{
    500 <= status && status < 600
}

/// Whether a response with `status` is eligible for another try.
#[verifier::when_used_as_spec(spec_is_retriable)]
pub fn is_retriable(status: u16) -> (yes: bool)
    ensures
        yes == spec_is_retriable(status),
{
    is_server_error(status) || is_retry_code(status)
}

/// What a response means for the range read that it answers.
#[derive(Debug, Clone, Copy, PartialEq, Eq, Structural)]
pub enum ResponseClass {
    /// The response carries the bytes asked for.
    Success,
    /// A transient fault, and retries are left.
    Retriable,
    /// A fault that another try would not mend.
    Terminal,
    /// A transient fault after the last retry.
    Exhausted,
}

/// The class of a response with `status` that arrived after `retries` retries.
pub open spec fn response_class(status: u16, retries: u8) -> ResponseClass {
    if is_success(status) {
        ResponseClass::Success
    } else if is_retriable(status) {
        if retries < MAX_RETRIES {
            ResponseClass::Retriable
        } else {
            ResponseClass::Exhausted
        }
    } else {
        ResponseClass::Terminal
    }
}

/// Classifies a response with `status` that arrived after `retries` retries.
///
/// Success supersedes everything; a server error or a retry code is tried
/// again while retries are left; every other status is terminal.
pub fn classify(status: u16, retries: u8) -> (class: ResponseClass)
    ensures
        class == response_class(status, retries),
        is_success(status) ==> class == ResponseClass::Success,
        is_retry_code(status) || is_server_error(status) ==> class == ResponseClass::Retriable
            || class == ResponseClass::Exhausted,
        is_client_error(status) && status != 429 ==> class == ResponseClass::Terminal,
        class == ResponseClass::Exhausted ==> retries >= MAX_RETRIES,
{
    if is_success(status) {
        ResponseClass::Success
    } else if is_retriable(status) {
        if retries < MAX_RETRIES {
            ResponseClass::Retriable
        } else {
            ResponseClass::Exhausted
        }
    } else {
        ResponseClass::Terminal
    }
}

/// The retry codes and the server errors are retried while retries are left
/// and are exhaustion after the last one; the client errors other than 429
/// are terminal; every success is a success, however many retries were made.
pub proof fn lemma_status_classes(status: u16, retries: u8)
    ensures
        is_retry_code(status) || is_server_error(status) ==> is_retriable(status),
        is_retriable(status) && retries < MAX_RETRIES ==> response_class(status, retries)
            == ResponseClass::Retriable,
        is_retriable(status) && retries >= MAX_RETRIES ==> response_class(status, retries)
            == ResponseClass::Exhausted,
        is_client_error(status) && status != 429 ==> response_class(status, retries)
            == ResponseClass::Terminal,
        is_success(status) ==> response_class(status, retries) == ResponseClass::Success,
{
}

} // verus!
