use proj::error::ProjError;
use proj::request::new_range_request;
use proj::retry::{
    error_handler, replay, Exchange, ExchangeEnd, Reply, RetryState, RetryStep,
};

fn response(status: u16) -> Reply {
    Reply::Response { status, url: String::from("https://cdn.proj.org/grid.tif") }
}

fn download_error(status: &str, retries: u8) -> ProjError {
    ProjError::DownloadError(
        String::from(status),
        String::from("https://cdn.proj.org/grid.tif"),
        retries,
    )
}

#[test]
fn success_is_delivered() {
    assert_eq!(error_handler(&response(200), 0), RetryStep::Deliver);
    assert_eq!(error_handler(&response(206), 0), RetryStep::Deliver);
    assert_eq!(error_handler(&response(200), 8), RetryStep::Deliver);
}

#[test]
fn server_error_asks_for_the_next_retry() {
    assert_eq!(error_handler(&response(502), 0), RetryStep::Retry { attempt: 1, wait: 100 });
    assert_eq!(error_handler(&response(500), 1), RetryStep::Retry { attempt: 2, wait: 400 });
    assert_eq!(error_handler(&response(429), 4), RetryStep::Retry { attempt: 5, wait: 2500 });
    assert_eq!(error_handler(&response(503), 7), RetryStep::Retry { attempt: 8, wait: 6400 });
}

#[test]
fn client_error_fails_without_a_retry() {
    assert_eq!(error_handler(&response(404), 0), RetryStep::Fail(download_error("404", 0)));
    assert_eq!(error_handler(&response(400), 0), RetryStep::Fail(download_error("400", 0)));
}

#[test]
fn other_status_fails_with_the_retries_made() {
    assert_eq!(error_handler(&response(404), 3), RetryStep::Fail(download_error("404", 3)));
    assert_eq!(error_handler(&response(301), 0), RetryStep::Fail(download_error("301", 0)));
    assert_eq!(error_handler(&response(100), 2), RetryStep::Fail(download_error("100", 2)));
}

#[test]
fn retriable_status_after_the_last_retry_is_exhaustion() {
    assert_eq!(error_handler(&response(500), 8), RetryStep::Fail(download_error("500", 9)));
    assert_eq!(error_handler(&response(429), 8), RetryStep::Fail(download_error("429", 9)));
}

#[test]
fn refused_clone_ends_the_read() {
    assert_eq!(
        error_handler(&Reply::CloneRefused, 0),
        RetryStep::Fail(ProjError::RequestCloneError)
    );
    assert_eq!(
        error_handler(&Reply::CloneRefused, 5),
        RetryStep::Fail(ProjError::RequestCloneError)
    );
}

#[test]
fn failed_send_ends_the_read() {
    assert_eq!(error_handler(&Reply::SendFailed, 0), RetryStep::Fail(ProjError::BuilderError));
    assert_eq!(error_handler(&Reply::SendFailed, 8), RetryStep::Fail(ProjError::BuilderError));
}

#[test]
fn exchange_of_a_first_success() {
    let done = replay(&vec![response(200)]);
    assert_eq!(done, Exchange { retries: 0, waited: 0, end: ExchangeEnd::Delivered });
}

#[test]
fn exchange_retries_then_succeeds() {
    let done = replay(&vec![response(502), response(502), response(200)]);
    assert_eq!(done, Exchange { retries: 2, waited: 500, end: ExchangeEnd::Delivered });
}

#[test]
fn exchange_success_ends_the_retries() {
    let done = replay(&vec![response(500), response(200), response(500), response(404)]);
    assert_eq!(done, Exchange { retries: 1, waited: 100, end: ExchangeEnd::Delivered });
}

#[test]
fn exchange_runs_out_of_retries() {
    let mut replies = Vec::new();
    for _ in 0..20 {
        replies.push(response(500));
    }
    let done = replay(&replies);
    assert_eq!(
        done,
        Exchange {
            retries: 8,
            waited: 20400,
            end: ExchangeEnd::Failed(download_error("500", 9)),
        }
    );
}

#[test]
fn exchange_needs_nine_replies_to_run_out() {
    let mut replies = Vec::new();
    for _ in 0..9 {
        replies.push(response(504));
    }
    let done = replay(&replies);
    assert_eq!(done.retries, 8);
    assert_eq!(done.end, ExchangeEnd::Failed(download_error("504", 9)));
    replies.pop();
    let done = replay(&replies);
    assert_eq!(done, Exchange { retries: 8, waited: 20400, end: ExchangeEnd::Unanswered });
}

#[test]
fn exchange_of_a_terminal_first_reply() {
    let done = replay(&vec![response(404), response(200)]);
    assert_eq!(
        done,
        Exchange { retries: 0, waited: 0, end: ExchangeEnd::Failed(download_error("404", 0)) }
    );
}

#[test]
fn exchange_turns_terminal_after_retries() {
    let done = replay(&vec![response(500), response(502), response(404)]);
    assert_eq!(
        done,
        Exchange { retries: 2, waited: 500, end: ExchangeEnd::Failed(download_error("404", 2)) }
    );
}

#[test]
fn exchange_fails_when_a_retry_cannot_be_sent() {
    let done = replay(&vec![response(500), Reply::SendFailed]);
    assert_eq!(
        done,
        Exchange { retries: 1, waited: 100, end: ExchangeEnd::Failed(ProjError::BuilderError) }
    );
    let done = replay(&vec![response(500), response(500), Reply::CloneRefused]);
    assert_eq!(
        done,
        Exchange {
            retries: 2,
            waited: 500,
            end: ExchangeEnd::Failed(ProjError::RequestCloneError),
        }
    );
}

#[test]
fn exchange_without_replies_is_unanswered() {
    let done = replay(&Vec::new());
    assert_eq!(done, Exchange { retries: 0, waited: 0, end: ExchangeEnd::Unanswered });
    let done = replay(&vec![response(502)]);
    assert_eq!(done, Exchange { retries: 1, waited: 100, end: ExchangeEnd::Unanswered });
}

#[test]
fn exchange_never_retries_more_than_eight_times() {
    for status in [429u16, 500, 501, 502, 503, 504, 599] {
        for len in 0..30usize {
            let mut replies = Vec::new();
            for _ in 0..len {
                replies.push(response(status));
            }
            let done = replay(&replies);
            assert!(done.retries <= 8);
            assert!(done.waited <= 20400);
        }
    }
}

#[test]
fn state_starts_without_retries() {
    let state = RetryState::new(new_range_request("https://cdn.proj.org/grid.tif", 0, 10));
    assert_eq!(state.retries(), 0);
    assert_eq!(state.request().range, "bytes=0-9");
    assert_eq!(state.request().url, "https://cdn.proj.org/grid.tif");
}

#[test]
fn state_counts_each_retry() {
    let mut state = RetryState::new(new_range_request("https://cdn.proj.org/grid.tif", 0, 10));
    assert_eq!(state.step(&response(502)), RetryStep::Retry { attempt: 1, wait: 100 });
    assert_eq!(state.retries(), 1);
    assert_eq!(state.step(&response(502)), RetryStep::Retry { attempt: 2, wait: 400 });
    assert_eq!(state.retries(), 2);
    assert_eq!(state.step(&response(200)), RetryStep::Deliver);
    assert_eq!(state.retries(), 2);
}

#[test]
fn state_keeps_the_request_through_the_retries() {
    let mut state = RetryState::new(new_range_request("https://cdn.proj.org/grid.tif", 4, 4));
    for _ in 0..12 {
        let _ = state.step(&response(500));
        assert_eq!(state.request(), &new_range_request("https://cdn.proj.org/grid.tif", 4, 4));
        assert!(state.retries() <= 8);
    }
}

#[test]
fn state_fails_after_the_last_retry() {
    let mut state = RetryState::new(new_range_request("https://cdn.proj.org/grid.tif", 0, 1));
    let mut waited = 0;
    for attempt in 1..=8u8 {
        match state.step(&response(500)) {
            RetryStep::Retry { attempt: asked, wait } => {
                assert_eq!(asked, attempt);
                waited += wait;
            }
            other => panic!("retry {} was not asked for: {:?}", attempt, other),
        }
    }
    assert_eq!(waited, 20400);
    assert_eq!(state.step(&response(500)), RetryStep::Fail(download_error("500", 9)));
    assert_eq!(state.retries(), 8);
}

#[test]
fn state_does_not_count_a_failure() {
    let mut state = RetryState::new(new_range_request("https://cdn.proj.org/grid.tif", 0, 1));
    let _ = state.step(&response(500));
    assert_eq!(state.step(&response(404)), RetryStep::Fail(download_error("404", 1)));
    assert_eq!(state.retries(), 1);
    assert_eq!(state.step(&Reply::SendFailed), RetryStep::Fail(ProjError::BuilderError));
    assert_eq!(state.retries(), 1);
}
