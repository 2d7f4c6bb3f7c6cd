//! The HTTP error response, as the plain values that make it up.

use vstd::prelude::*;

verus! {

/// The JSON body of an error response: the two fields `message` and
/// `status_code`.
#[derive(Clone, Debug, PartialEq, Eq)]
pub struct ApiError {
    pub message: String,
    pub status_code: u16,
}

/// The mathematical value of an [`ApiError`].
pub ghost struct ApiErrorView {
    pub message: Seq<char>,
    pub status_code: u16,
}

impl View for ApiError {
    type V = ApiErrorView;

    open spec fn view(&self) -> ApiErrorView {
        ApiErrorView { message: self.message@, status_code: self.status_code }
    }
}

/// An error response: the status line's code, the value of the
/// `Content-Type` header, and the body.
#[derive(Clone, Debug, PartialEq, Eq)]
pub struct ErrorResponse {
    pub status: u16,
    pub content_type: &'static str,
    pub body: ApiError,
}

/// The mathematical value of an [`ErrorResponse`].
pub ghost struct ErrorResponseView {
    pub status: u16,
    pub content_type: Seq<char>,
    pub body: ApiErrorView,
}

impl View for ErrorResponse {
    type V = ErrorResponseView;

    open spec fn view(&self) -> ErrorResponseView {
        ErrorResponseView {
            status: self.status,
            content_type: self.content_type@,
            body: self.body@,
        }
    }
}

} // verus!
