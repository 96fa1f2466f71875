//! The error of a ban check whose request names no target field, with its
//! own error body.

use vstd::prelude::*;

use crate::api::http_error::{ErrorDetails, ErrorDetailsView, ErrorResponse, ErrorResponseView};

verus! {

/// A ban check request without a target field.
#[derive(Debug, PartialEq, Eq, Structural, Clone, Copy)]
pub enum BanTargetConversionError {
    FieldRequired,
}

impl BanTargetConversionError {
    /// The message of the error.
    pub open spec fn message(&self) -> Seq<char> {
        "at least on field required: 'ip', 'user-agent'"@
    }

    /// Renders the message of the error.
    pub fn to_string(&self) -> (s: String)
        ensures
            s@ == self.message(),
    {
        String::from_str("at least on field required: 'ip', 'user-agent'")
    }

    /// The HTTP status of the error: 400.
    pub fn status_code(&self) -> (s: u16)
        ensures
            s == 400,
    {
        400
    }

    /// The body of the error: code 400, with the message as details.
    pub fn error_response(&self) -> (r: ErrorResponse)
        ensures
            r@ == (ErrorResponseView {
                code: 400,
                reason: "Provided request does not match the constraints"@,
                details: Some(ErrorDetailsView::Message(self.message())),
            }),
    {
        ErrorResponse {
            code: 400,
            reason: String::from_str("Provided request does not match the constraints"),
            details: Some(ErrorDetails::Message(self.to_string())),
        }
    }
}

} // verus!
