use proj::status::{
    classify, is_client_error, is_retriable, is_retry_code, is_server_error, is_success,
    ResponseClass,
};

#[test]
fn retry_codes_are_retriable() {
    for status in [429u16, 500, 502, 504] {
        assert!(is_retry_code(status));
        assert!(is_retriable(status));
        assert_eq!(classify(status, 0), ResponseClass::Retriable);
    }
    assert!(!is_retry_code(501));
    assert!(!is_retry_code(503));
    assert!(!is_retry_code(428));
}

#[test]
fn every_server_error_is_retriable() {
    for status in 500u16..600 {
        assert!(is_server_error(status));
        assert!(is_retriable(status));
        assert_eq!(classify(status, 0), ResponseClass::Retriable);
    }
    assert!(!is_server_error(499));
    assert!(!is_server_error(600));
}

#[test]
fn client_errors_other_than_429_are_terminal() {
    for status in 400u16..500 {
        assert!(is_client_error(status));
        if status == 429 {
            assert_eq!(classify(status, 0), ResponseClass::Retriable);
        } else {
            assert!(!is_retriable(status));
            assert_eq!(classify(status, 0), ResponseClass::Terminal);
            assert_eq!(classify(status, 8), ResponseClass::Terminal);
        }
    }
}

#[test]
fn every_success_is_a_success() {
    for status in 200u16..300 {
        assert!(is_success(status));
        assert!(!is_retriable(status));
        for retries in 0u8..=9 {
            assert_eq!(classify(status, retries), ResponseClass::Success);
        }
    }
    assert!(!is_success(199));
    assert!(!is_success(300));
}

#[test]
fn informational_and_redirection_are_terminal() {
    for status in [100u16, 101, 199, 300, 301, 304, 399] {
        assert_eq!(classify(status, 0), ResponseClass::Terminal);
    }
}

#[test]
fn codes_outside_http_are_terminal() {
    for status in [0u16, 99, 600, 999, 1000, u16::MAX] {
        assert_eq!(classify(status, 0), ResponseClass::Terminal);
    }
}

#[test]
fn retriable_until_the_last_retry() {
    for retries in 0u8..8 {
        assert_eq!(classify(500, retries), ResponseClass::Retriable);
        assert_eq!(classify(429, retries), ResponseClass::Retriable);
    }
    assert_eq!(classify(500, 8), ResponseClass::Exhausted);
    assert_eq!(classify(429, 8), ResponseClass::Exhausted);
    assert_eq!(classify(503, 200), ResponseClass::Exhausted);
}
