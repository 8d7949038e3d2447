use proj::error::ProjError;
use proj::response::{read_range, RangeRead, RangeResponse};
use reqwest::header::HeaderMap;

#[test]
fn whole_body_is_handed_on() {
    let body = Some(b"0123456789".to_vec());
    assert_eq!(
        read_range(Some(10), &body, 10),
        Ok(RangeRead { data: b"0123456789".to_vec(), size_read: 10 })
    );
}

#[test]
fn one_byte_read_copies_one_byte() {
    let body = Some(b"A".to_vec());
    assert_eq!(read_range(Some(1), &body, 1), Ok(RangeRead { data: b"A".to_vec(), size_read: 1 }));
}

#[test]
fn shorter_content_is_copied_whole_and_reported() {
    let body = Some(b"abc".to_vec());
    assert_eq!(
        read_range(Some(3), &body, 16384),
        Ok(RangeRead { data: b"abc".to_vec(), size_read: 3 })
    );
}

#[test]
fn longer_content_is_cut_to_what_was_asked_for() {
    let body = Some(b"0123456789".to_vec());
    assert_eq!(
        read_range(Some(10), &body, 4),
        Ok(RangeRead { data: b"0123".to_vec(), size_read: 10 })
    );
}

#[test]
fn nothing_is_copied_for_a_read_of_no_bytes() {
    let body = Some(b"0123456789".to_vec());
    assert_eq!(read_range(Some(10), &body, 0), Ok(RangeRead { data: Vec::new(), size_read: 10 }));
    let body = Some(Vec::new());
    assert_eq!(read_range(Some(0), &body, 10), Ok(RangeRead { data: Vec::new(), size_read: 0 }));
}

#[test]
fn body_may_be_longer_than_its_content_length() {
    let body = Some(b"0123456789".to_vec());
    assert_eq!(
        read_range(Some(2), &body, 5),
        Ok(RangeRead { data: b"01".to_vec(), size_read: 2 })
    );
}

#[test]
fn missing_content_length_is_an_error() {
    let body = Some(b"0123456789".to_vec());
    assert_eq!(read_range(None, &body, 10), Err(ProjError::ContentLength));
    assert_eq!(read_range(None, &None, 10), Err(ProjError::ContentLength));
}

#[test]
fn unreadable_body_is_an_error() {
    assert_eq!(read_range(Some(10), &None, 10), Err(ProjError::BuilderError));
}

#[test]
fn same_response_gives_the_same_bytes() {
    let body = Some(b"AAAABBBB".to_vec());
    assert_eq!(read_range(Some(8), &body, 6), read_range(Some(8), &body, 6));
}

fn response(content_length: Option<u64>, body: Option<&[u8]>) -> RangeResponse {
    RangeResponse { content_length, headers: HeaderMap::new(), body: body.map(|b| b.to_vec()) }
}

#[test]
fn body_as_long_as_announced_suffices() {
    assert!(response(Some(10), Some(b"0123456789")).suffices(10));
    assert!(response(Some(10), Some(b"0123456789")).suffices(4));
    assert!(response(Some(3), Some(b"abc")).suffices(16384));
    assert!(response(Some(0), Some(b"")).suffices(10));
}

#[test]
fn body_with_the_bytes_to_copy_suffices() {
    assert!(response(Some(100), Some(b"0123")).suffices(4));
    assert!(response(Some(100), Some(b"0123")).suffices(0));
    assert!(response(Some(2), Some(b"0123")).suffices(4));
}

#[test]
fn body_shorter_than_what_is_copied_does_not_suffice() {
    assert!(!response(Some(10), Some(b"0123")).suffices(10));
    assert!(!response(Some(10), Some(b"0123")).suffices(5));
    assert!(!response(Some(1), Some(b"")).suffices(1));
}

#[test]
fn response_that_fails_anyway_suffices() {
    assert!(response(None, Some(b"")).suffices(10));
    assert!(response(Some(10), None).suffices(10));
    assert!(response(None, None).suffices(10));
}
