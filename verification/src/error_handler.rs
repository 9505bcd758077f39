//! Uniform error representation for user-visible failures: a machine-readable
//! status code together with a human-readable message, and the translation
//! into the pieces of a structured HTTP error response.

use vstd::prelude::*;
use crate::render::{json_escape, push_json_escaped};

verus! {

/// Smallest status code an HTTP response can carry.
pub const MIN_STATUS_CODE: u16 = 100;

/// Largest status code an HTTP response can carry.
pub const MAX_STATUS_CODE: u16 = 999;

/// Status code substituted when an error carries one outside the valid range,
/// and the code attached to internal failures.
pub const INTERNAL_ERROR_CODE: u16 = 500;

/// Status code attached to path errors (unknown or malformed path parameters).
pub const PATH_ERROR_CODE: u16 = 404;

/// A user-visible error: never a raw stack trace, always a status code with a
/// message.
#[derive(Debug, Clone, PartialEq, Eq)]
pub struct CustomError {
    pub error_status_code: u16,
    pub error_message: String,
}

/// The status code an error response is actually sent with: the stored code
/// when it is a representable HTTP status, the internal-error code otherwise.
pub open spec fn effective_status_code(code: u16) -> u16 {
    if MIN_STATUS_CODE <= code && code <= MAX_STATUS_CODE {
        code
    } else {
        INTERNAL_ERROR_CODE
    }
}

/// The message an error response carries: client errors pass the stored
/// message through, server errors are prefixed so a reader can tell them
/// apart.
pub open spec fn effective_message(code: u16, message: Seq<char>) -> Seq<char> {
    if effective_status_code(code) < INTERNAL_ERROR_CODE {
        message
    } else {
        "Internal server error: "@ + message
    }
}

impl CustomError {
    pub fn new(error_status_code: u16, error_message: String) -> (r: CustomError)
        ensures
            r.error_status_code == error_status_code,
            r.error_message@ == error_message@,
    {
        CustomError { error_status_code, error_message }
    }

    /// The status code and message of the structured response this error maps
    /// to. Building the actual response is the transport layer's job.
    pub fn error_response_parts(&self) -> (r: (u16, String))
        ensures
            r.0 == effective_status_code(self.error_status_code),
            r.1@ == effective_message(self.error_status_code, self.error_message@),
    {
        let status_code: u16 = if MIN_STATUS_CODE <= self.error_status_code
            && self.error_status_code <= MAX_STATUS_CODE {
            self.error_status_code
        } else {
            INTERNAL_ERROR_CODE
        };
        let message: String = if status_code < INTERNAL_ERROR_CODE {
            self.error_message.clone()
        } else {
            let mut prefixed = String::from_str("Internal server error: ");
            prefixed.append(self.error_message.as_str());
            prefixed
        };
        (status_code, message)
    }
}

/// The JSON body of a structured error response: one message field, nothing
/// else — never a raw stack trace.
pub open spec fn error_body_json(message: Seq<char>) -> Seq<char> {
    "{\"message\":\""@ + json_escape(message) + "\"}"@
}

impl CustomError {
    /// The complete structured response this error maps to: the effective
    /// status and the JSON body carrying the effective message.
    pub fn error_response(&self) -> (r: (u16, String))
        ensures
            r.0 == effective_status_code(self.error_status_code),
            r.1@ == error_body_json(
                effective_message(self.error_status_code, self.error_message@),
            ),
    {
        let (status, message) = self.error_response_parts();
        let mut body = String::from_str("{\"message\":\"");
        push_json_escaped(&mut body, message.as_str());
        body.append("\"}");
        proof {
            assert(body@ =~= error_body_json(
                effective_message(self.error_status_code, self.error_message@),
            ));
        }
        (status, body)
    }
}

/// The single translation boundary for malformed path parameters: every path
/// error becomes a uniform structured error with the path-error status code.
pub fn path_error(message: String) -> (r: CustomError)
    ensures
        r.error_status_code == PATH_ERROR_CODE,
        r.error_message@ == message@,
{
    CustomError::new(PATH_ERROR_CODE, message)
}

} // verus!
