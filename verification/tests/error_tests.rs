//! The uniform error shape and its translation into response parts.

use my_project_name::error_handler::{path_error, CustomError};

#[test]
fn client_error_passes_message_through() {
    let error = CustomError::new(404, String::from("no such thing"));
    let (status, message) = error.error_response_parts();
    assert_eq!(status, 404);
    assert_eq!(message, "no such thing");
}

#[test]
fn server_error_is_prefixed() {
    let error = CustomError::new(500, String::from("pool exhausted"));
    let (status, message) = error.error_response_parts();
    assert_eq!(status, 500);
    assert_eq!(message, "Internal server error: pool exhausted");
}

#[test]
fn out_of_range_code_becomes_internal_error() {
    let too_large = CustomError::new(1000, String::from("odd"));
    assert_eq!(
        too_large.error_response_parts(),
        (500, String::from("Internal server error: odd"))
    );
    let too_small = CustomError::new(99, String::from("odd"));
    assert_eq!(too_small.error_response_parts().0, 500);
}

#[test]
fn error_response_is_structured_json() {
    let error = CustomError::new(404, String::from("no such \"thing\""));
    let (status, body) = error.error_response();
    assert_eq!(status, 404);
    assert_eq!(body, "{\"message\":\"no such \\\"thing\\\"\"}");

    let internal = CustomError::new(503, String::from("pool gone"));
    let (status, body) = internal.error_response();
    assert_eq!(status, 503);
    assert_eq!(body, "{\"message\":\"Internal server error: pool gone\"}");
}

#[test]
fn path_errors_are_uniform() {
    let error = path_error(String::from("bad path parameter"));
    assert_eq!(error.error_status_code, 404);
    assert_eq!(error.error_message, "bad path parameter");
    assert_eq!(error.error_response_parts().0, 404);
}
