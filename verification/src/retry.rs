//! The retry engine of a range read: what to do with each reply to a send.

use vstd::prelude::*;
use crate::backoff::{
    cumulative_wait, get_wait_time_exp, lemma_cumulative_wait_monotonic, lemma_longest_wait,
    wait_millis, MAX_RETRIES,
};
use crate::error::{ProjError, ProjErrorView};
use crate::request::{RangeRequest, RangeRequestView};
use crate::status::{classify, response_class, spec_is_success, ResponseClass};
use crate::decimal::{decimal, decimal_string};

verus! {

/// What came back from one send of a range request.
#[derive(Debug, PartialEq, Eq)]
pub enum Reply {
    /// A response arrived, with this status, from this URL.
    Response { status: u16, url: String },
    /// The request template refused to be cloned, so nothing was sent.
    CloneRefused,
    /// The HTTP client failed to carry out the request.
    SendFailed,
}

/// The mathematical value of a [`Reply`].
pub enum ReplyView {
    Response { status: u16, url: Seq<char> },
    CloneRefused,
    SendFailed,
}

impl View for Reply {
    type V = ReplyView;

    open spec fn view(&self) -> ReplyView {
        match self {
            Reply::Response { status, url } => ReplyView::Response { status: *status, url: url@ },
            Reply::CloneRefused => ReplyView::CloneRefused,
            Reply::SendFailed => ReplyView::SendFailed,
        }
    }
}

/// What the retry engine asks for after a reply.
#[derive(Debug, PartialEq, Eq)]
pub enum RetryStep {
    /// The response is a success: hand it on.
    Deliver,
    /// Wait `wait` milliseconds, then send again; that send is retry number
    /// `attempt`.
    Retry { attempt: u8, wait: u64 },
    /// Give up with this error.
    Fail(ProjError),
}

/// The mathematical value of a [`RetryStep`].
pub enum RetryStepView {
    Deliver,
    Retry { attempt: u8, wait: u64 },
    Fail(ProjErrorView),
}

impl View for RetryStep {
    type V = RetryStepView;

    open spec fn view(&self) -> RetryStepView {
        match self {
            RetryStep::Deliver => RetryStepView::Deliver,
            RetryStep::Retry { attempt, wait } => RetryStepView::Retry {
                attempt: *attempt,
                wait: *wait,
            },
            RetryStep::Fail(error) => RetryStepView::Fail(error@),
        }
    }
}

/// The step that follows `reply` when `retries` retries have been made.
///
/// A success is delivered. A retriable status is tried again while fewer than
/// [`MAX_RETRIES`] retries have been made, after the wait of the next retry;
/// after the last retry it fails with a count of `MAX_RETRIES + 1`, the sends
/// that were made. Any other status fails with the retries made so far. A
/// refused clone and a failed send end the read at once.
pub open spec fn retry_step(reply: ReplyView, retries: u8) -> RetryStepView {
    match reply {
        ReplyView::Response { status, url } => match response_class(status, retries) {
            ResponseClass::Success => RetryStepView::Deliver,
            ResponseClass::Retriable => RetryStepView::Retry {
                attempt: (retries + 1) as u8,
                wait: wait_millis((retries + 1) as nat) as u64,
            },
            ResponseClass::Exhausted => RetryStepView::Fail(
                ProjErrorView::DownloadError(
                    decimal(status as nat),
                    url,
                    (MAX_RETRIES + 1) as u8,
                ),
            ),
            ResponseClass::Terminal => RetryStepView::Fail(
                ProjErrorView::DownloadError(decimal(status as nat), url, retries),
            ),
        },
        ReplyView::CloneRefused => RetryStepView::Fail(ProjErrorView::RequestCloneError),
        ReplyView::SendFailed => RetryStepView::Fail(ProjErrorView::BuilderError),
    }
}

/// Process a reply of the CDN: deliver a success, ask for a retry in case of a
/// server error or a retry code, or fail for client errors and when the
/// retries are used up.
///
/// `retries` is the number of retries made before `reply` arrived: 0 for the
/// reply to the first send.
pub fn error_handler(reply: &Reply, retries: u8) -> (step: RetryStep)
    ensures
        step@ == retry_step(reply@, retries),
        (step matches RetryStep::Retry { attempt, wait } ==> retries < MAX_RETRIES && attempt
            == retries + 1 && attempt <= MAX_RETRIES && wait == wait_millis(attempt as nat)),
{
    match reply {
        Reply::Response { status, url } => {
            match classify(*status, retries) {
                ResponseClass::Success => RetryStep::Deliver,
                ResponseClass::Retriable => {
                    let attempt: u8 = retries + 1;
                    assert(wait_millis(attempt as nat) <= 6400) by (nonlinear_arith)
                        requires
                            attempt <= 8,
                    ;
                    let wait = get_wait_time_exp(attempt as i32);
                    RetryStep::Retry { attempt, wait }
                },
                ResponseClass::Exhausted => RetryStep::Fail(
                    ProjError::DownloadError(
                        decimal_string(*status as u64),
                        url.clone(),
                        MAX_RETRIES + 1,
                    ),
                ),
                ResponseClass::Terminal => RetryStep::Fail(
                    ProjError::DownloadError(decimal_string(*status as u64), url.clone(), retries),
                ),
            }
        },
        Reply::CloneRefused => RetryStep::Fail(ProjError::RequestCloneError),
        Reply::SendFailed => RetryStep::Fail(ProjError::BuilderError),
    }
}

/// The state of the retry engine during one range read: the request that is
/// sent, first and at every retry, and the number of retries made so far.
pub struct RetryState {
    request: RangeRequest,
    retries: u8,
}

/// The mathematical value of a [`RetryState`].
pub struct RetryStateView {
    pub request: RangeRequestView,
    pub retries: u8,
}

impl RetryStateView {
    /// The state after `reply` was met with its [`retry_step`]: a retry is
    /// counted, and nothing else changes.
    pub open spec fn after(self, reply: ReplyView) -> RetryStateView {
        match retry_step(reply, self.retries) {
            RetryStepView::Retry { attempt, .. } => RetryStateView { retries: attempt, ..self },
            _ => self,
        }
    }
}

impl View for RetryState {
    type V = RetryStateView;

    closed spec fn view(&self) -> RetryStateView {
        RetryStateView { request: self.request@, retries: self.retries }
    }
}

impl RetryState {
    #[verifier::type_invariant]
    spec fn inv(self) -> bool {
        self.retries <= MAX_RETRIES
    }

    /// The state before the first send of `request`.
    pub fn new(request: RangeRequest) -> (state: Self)
        ensures
            state@ == (RetryStateView { request: request@, retries: 0 }),
    {
        Self { request, retries: 0 }
    }

    /// The request to send: the same for the first send and for every retry.
    pub fn request(&self) -> (request: &RangeRequest)
        ensures
            request@ == self@.request,
    {
        &self.request
    }

    /// The number of retries made so far, which never exceeds
    /// [`MAX_RETRIES`].
    pub fn retries(&self) -> (retries: u8)
        ensures
            retries == self@.retries,
            retries <= MAX_RETRIES,
    {
        proof {
            use_type_invariant(self);
        }
        self.retries
    }

    /// Meets the reply to the last send with its [`retry_step`], and counts the
    /// retry where one is asked for. The request stays as it is.
    pub fn step(&mut self, reply: &Reply) -> (step: RetryStep)
        ensures
            step@ == retry_step(reply@, old(self)@.retries),
            final(self)@ == old(self)@.after(reply@),
            final(self)@.request == old(self)@.request,
            final(self)@.retries <= MAX_RETRIES,
    {
        proof {
            use_type_invariant(&*self);
        }
        let step = error_handler(reply, self.retries);
        match &step {
            RetryStep::Retry { attempt, .. } => {
                self.retries = *attempt;
            },
            _ => {},
        }
        step
    }
}

/// How an exchange with the server ended.
#[derive(Debug, PartialEq, Eq)]
pub enum ExchangeEnd {
    /// With a success, which is handed on.
    Delivered,
    /// With this error.
    Failed(ProjError),
    /// Open: a retry is due, and the list of replies holds no reply to it.
    Unanswered,
}

/// The mathematical value of an [`ExchangeEnd`].
pub enum ExchangeEndView {
    Delivered,
    Failed(ProjErrorView),
    Unanswered,
}

impl View for ExchangeEnd {
    type V = ExchangeEndView;

    open spec fn view(&self) -> ExchangeEndView {
        match self {
            ExchangeEnd::Delivered => ExchangeEndView::Delivered,
            ExchangeEnd::Failed(error) => ExchangeEndView::Failed(error@),
            ExchangeEnd::Unanswered => ExchangeEndView::Unanswered,
        }
    }
}

/// A whole exchange with the server: the first send and the retries.
#[derive(Debug, PartialEq, Eq)]
pub struct Exchange {
    /// The number of retries that were sent.
    pub retries: u8,
    /// The time in milliseconds spent waiting before the retries.
    pub waited: u64,
    /// How the exchange ended.
    pub end: ExchangeEnd,
}

/// The mathematical value of an [`Exchange`].
pub struct ExchangeView {
    pub retries: u8,
    pub waited: nat,
    pub end: ExchangeEndView,
}

impl View for Exchange {
    type V = ExchangeView;

    open spec fn view(&self) -> ExchangeView {
        ExchangeView { retries: self.retries, waited: self.waited as nat, end: self.end@ }
    }
}

/// The views of a list of replies.
pub open spec fn reply_views(replies: Seq<Reply>) -> Seq<ReplyView> {
    replies.map_values(|reply: Reply| reply@)
}

/// The exchange in which the server answers the sends with `replies`, in
/// that order, when `retries` retries were made before the first of them.
/// Each reply is met with its [`retry_step`]; a delivery or a failure ends the
/// exchange, and the replies after it are never asked for.
pub open spec fn exchange(replies: Seq<ReplyView>, retries: u8) -> ExchangeView
    decreases replies.len(),
{
    if replies.len() == 0 {
        ExchangeView { retries, waited: 0, end: ExchangeEndView::Unanswered }
    } else {
        match retry_step(replies[0], retries) {
            RetryStepView::Deliver => ExchangeView {
                retries,
                waited: 0,
                end: ExchangeEndView::Delivered,
            },
            RetryStepView::Fail(error) => ExchangeView {
                retries,
                waited: 0,
                end: ExchangeEndView::Failed(error),
            },
            RetryStepView::Retry { attempt, wait } => {
                let rest = exchange(replies.drop_first(), attempt);
                ExchangeView { waited: (wait + rest.waited) as nat, ..rest }
            },
        }
    }
}

/// Runs the retry engine over the replies that the server gives to the first
/// send and to the retries, in that order, and tells how many retries were
/// sent, how long was waited before them, and how the exchange ended.
pub fn replay(replies: &Vec<Reply>) -> (done: Exchange)
    ensures
        done@ == exchange(reply_views(replies@), 0),
        done.retries <= MAX_RETRIES,
        done.waited == cumulative_wait(done.retries as nat),
{
    let ghost all = reply_views(replies@);
    let mut retries: u8 = 0;
    let mut waited: u64 = 0;
    let mut i: usize = 0;
    assert(all.skip(0) =~= all);
    while i < replies.len()
        invariant
            i <= replies.len(),
            all == reply_views(replies@),
            retries <= MAX_RETRIES,
            waited == cumulative_wait(retries as nat),
            exchange(all, 0) == (ExchangeView {
                waited: (waited + exchange(all.skip(i as int), retries).waited) as nat,
                ..exchange(all.skip(i as int), retries)
            }),
        decreases replies.len() - i,
    {
        proof {
            let rest = all.skip(i as int);
            assert(rest[0] == replies@[i as int]@);
            assert(rest.drop_first() =~= all.skip(i + 1));
            lemma_cumulative_wait_monotonic(retries as nat, MAX_RETRIES as nat);
            lemma_longest_wait();
        }
        match error_handler(&replies[i], retries) {
            RetryStep::Deliver => {
                return Exchange { retries, waited, end: ExchangeEnd::Delivered };
            },
            RetryStep::Fail(error) => {
                return Exchange { retries, waited, end: ExchangeEnd::Failed(error) };
            },
            RetryStep::Retry { attempt, wait } => {
                proof {
                    lemma_cumulative_wait_monotonic(attempt as nat, MAX_RETRIES as nat);
                }
                waited = waited + wait;
                retries = attempt;
            },
        }
        i += 1;
    }
    Exchange { retries, waited, end: ExchangeEnd::Unanswered }
}

/// The retry loop ends after at most [`MAX_RETRIES`] retries, whatever the
/// server answers: an exchange never counts more retries than that, it sends
/// no more retries than there are replies, and the time it waits is that of
/// the retries it sent.
pub proof fn lemma_exchange_bounded(replies: Seq<ReplyView>, retries: u8)
    requires
        retries <= MAX_RETRIES,
    ensures
        retries <= exchange(replies, retries).retries <= MAX_RETRIES,
        exchange(replies, retries).retries - retries <= replies.len(),
        exchange(replies, retries).waited == cumulative_wait(
            exchange(replies, retries).retries as nat,
        ) - cumulative_wait(retries as nat),
        exchange(replies, retries).waited <= 20400,
    decreases replies.len(),
{
    lemma_longest_wait();
    if replies.len() > 0 {
        match retry_step(replies[0], retries) {
            RetryStepView::Retry { attempt, wait } => {
                lemma_exchange_bounded(replies.drop_first(), attempt);
                assert(wait_millis(attempt as nat) <= 6400) by (nonlinear_arith)
                    requires
                        attempt <= 8,
                ;
            },
            _ => {},
        }
    }
    lemma_cumulative_wait_monotonic(
        exchange(replies, retries).retries as nat,
        MAX_RETRIES as nat,
    );
}

/// A success ends the exchange at once: no retry follows it, whatever
/// replies might have come after it.
pub proof fn lemma_success_ends_exchange(replies: Seq<ReplyView>, retries: u8)
    requires
        replies.len() > 0,
        (replies[0] matches ReplyView::Response { status, .. } && spec_is_success(status)),
    ensures
        exchange(replies, retries) == (ExchangeView {
            retries,
            waited: 0,
            end: ExchangeEndView::Delivered,
        }),
{
}

} // verus!
