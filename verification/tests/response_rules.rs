use paperclip_bridge::error::AppError;
use paperclip_bridge::http::{
    body_unreadable, check_body_length, check_empty_response, check_json_response,
    invalid_json_response, request_failed, MAX_RESPONSE_BYTES,
};

#[test]
fn json_response_needs_a_success_status() {
    match check_json_response("Paperclip agents", 503, Some(10)) {
        Err(AppError::HttpStatus { url, status }) => {
            assert_eq!(url, "Paperclip agents");
            assert_eq!(status, 503);
        }
        _ => panic!("expected an HTTP status error"),
    }
    assert!(check_json_response("x", 199, Some(1)).is_err());
    assert!(check_json_response("x", 300, Some(1)).is_err());
    assert!(check_json_response("x", 299, Some(1)).is_ok());
}

#[test]
fn json_response_needs_a_declared_length() {
    match check_json_response("x", 200, None) {
        Err(AppError::InvalidArgument { message }) => {
            assert_eq!(message, "Paperclip response did not include a bounded content length.")
        }
        _ => panic!("expected an invalid-argument error"),
    }
}

#[test]
fn json_response_is_capped_at_two_mebibytes() {
    assert_eq!(MAX_RESPONSE_BYTES, 2 * 1024 * 1024);
    assert!(check_json_response("x", 200, Some(2 * 1024 * 1024)).is_ok());
    match check_json_response("x", 200, Some(2 * 1024 * 1024 + 1)) {
        Err(AppError::InvalidArgument { message }) => {
            assert_eq!(message, "Paperclip response exceeded the 2 MiB safety limit.")
        }
        _ => panic!("expected an invalid-argument error"),
    }
}

#[test]
fn body_length_is_capped_at_two_mebibytes() {
    assert!(check_body_length(2 * 1024 * 1024).is_ok());
    assert!(check_body_length(0).is_ok());
    assert!(matches!(check_body_length(2 * 1024 * 1024 + 1), Err(AppError::InvalidArgument { .. })));
}

#[test]
fn empty_response_accepts_success_unauthorized_and_not_found() {
    assert!(check_empty_response("x", 200).is_ok());
    assert!(check_empty_response("x", 204).is_ok());
    assert!(check_empty_response("x", 401).is_ok());
    assert!(check_empty_response("x", 404).is_ok());
    match check_empty_response("Paperclip sign-in cancel", 403) {
        Err(AppError::HttpStatus { url, status }) => {
            assert_eq!(url, "Paperclip sign-in cancel");
            assert_eq!(status, 403);
        }
        _ => panic!("expected an HTTP status error"),
    }
    assert!(check_empty_response("x", 500).is_err());
}

#[test]
fn transport_errors_name_the_request() {
    match request_failed("Paperclip sign-in") {
        AppError::Network { url, message } => {
            assert_eq!(url, "Paperclip sign-in");
            assert_eq!(message, "request failed");
        }
        _ => panic!("expected a network error"),
    }
    match body_unreadable("Paperclip agents") {
        AppError::Network { url, message } => {
            assert_eq!(url, "Paperclip agents");
            assert_eq!(message, "response body could not be read");
        }
        _ => panic!("expected a network error"),
    }
    assert!(matches!(invalid_json_response(), AppError::Internal { message } if message == "Paperclip returned an invalid JSON response."));
}
