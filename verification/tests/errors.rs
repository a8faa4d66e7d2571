use readeckbot::errors::{ProcessError, ReadeckError};
use readeckbot::text::decimal_text;

#[test]
fn unauthorized_wording() {
    assert_eq!(
        ReadeckError::Unauthorized.message(),
        "The request token found in the Authorization header is not valid"
    );
}

#[test]
fn forbidden_wording() {
    assert_eq!(
        ReadeckError::Forbidden.message(),
        "The user doesn't have permission to fetch users for the specified, but has other account permissions"
    );
}

#[test]
fn invalid_data_wording() {
    assert_eq!(ReadeckError::InvalidData.message(), "Input data is not valid");
}

#[test]
fn other_http_wording_names_the_status() {
    assert_eq!(ReadeckError::OtherHttp(500).message(), "HTTP Error 500");
    assert_eq!(ReadeckError::OtherHttp(0).message(), "HTTP Error 0");
    assert_eq!(ReadeckError::OtherHttp(65535).message(), "HTTP Error 65535");
}

#[test]
fn network_error_wording_carries_the_description() {
    assert_eq!(
        ReadeckError::ReqwestError("connection refused".to_owned()).message(),
        "A network error occurred: connection refused"
    );
}

#[test]
fn serialization_error_wording_carries_the_description() {
    assert_eq!(
        ReadeckError::SerdeError("expected value at line 1 column 1".to_owned()).message(),
        "A serialization/deserialization error occurred: expected value at line 1 column 1"
    );
}

#[test]
fn missing_bookmark_id_wording() {
    assert_eq!(ReadeckError::MissingBookmarkId.message(), "Missing bookmark id");
}

#[test]
fn not_an_url_wording() {
    assert_eq!(ProcessError::NotAnUrl.message(), "Not a valid URL");
}

#[test]
fn a_failed_save_is_worded_as_its_cause() {
    assert_eq!(
        ProcessError::ReadeckError(ReadeckError::InvalidData).message(),
        "Input data is not valid"
    );
}

#[test]
fn a_failed_fetch_is_worded_as_a_save_with_errors() {
    assert_eq!(
        ProcessError::SavedWithError(ReadeckError::OtherHttp(404)).message(),
        "Article saved, but errors occurred: HTTP Error 404"
    );
}

#[test]
fn decimal_text_of_small_and_large_numbers() {
    assert_eq!(decimal_text(0), "0");
    assert_eq!(decimal_text(7), "7");
    assert_eq!(decimal_text(10), "10");
    assert_eq!(decimal_text(1234567890), "1234567890");
    assert_eq!(decimal_text(u64::MAX), "18446744073709551615");
}

#[test]
fn decimal_text_agrees_with_the_standard_rendering() {
    let mut n: u64 = 1;
    while n < u64::MAX / 7 {
        assert_eq!(decimal_text(n), n.to_string());
        assert_eq!(decimal_text(n - 1), (n - 1).to_string());
        n *= 7;
    }
}
