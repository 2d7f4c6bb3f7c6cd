//! The two HTTP status codes that a failure is answered with, taken from
//! the `http` crate as `axum` re-exports it.

use vstd::prelude::*;

verus! {

/// Calls `StatusCode::as_u16` on the constant `StatusCode::NOT_FOUND` of
/// `axum::http`. Trusted: the `http` crate declares that constant with the
/// number 404, and `as_u16` returns the number a status code holds.
#[verifier::external_body]
pub(crate) fn not_found() -> (code: u16)
    ensures
        code == 404,
{
    axum::http::StatusCode::NOT_FOUND.as_u16()
}

/// Calls `StatusCode::as_u16` on the constant
/// `StatusCode::INTERNAL_SERVER_ERROR` of `axum::http`. Trusted: the `http`
/// crate declares that constant with the number 500, and `as_u16` returns
/// the number a status code holds.
#[verifier::external_body]
pub(crate) fn internal_server_error() -> (code: u16)
    ensures
        code == 500,
{
    axum::http::StatusCode::INTERNAL_SERVER_ERROR.as_u16()
}

} // verus!
