//! Classification of request-handling failures and their rendering.
//!
//! An [`Error`] is one of five kinds of failure. Three of them wrap a
//! failure raised by a collaborator, held as a [`Cause`]: the texts that
//! the collaborator's error gives of itself. From an `Error` the crate
//! derives, without ever failing,
//!
//! - a human-readable message ([`Error::to_string`]),
//! - a structured form of two entries, `type` and `msg`
//!   ([`Error::serialize`]), and
//! - an HTTP error response: status code, content type and JSON body
//!   ([`Error::into_response`]).
//!
//! Every function is verified against a contract over the mathematical
//! value of its arguments ([`ErrorView`] and its spec functions). Three
//! things are taken on trust: the numbers of the two status codes, read
//! from the `http` crate, and the debug form of a string, which std
//! computes and [`debug_quoted`] names.

mod cause;
mod error;
mod response;
mod status;
mod text;

pub use cause::{text_of, Cause, CauseView};
pub use error::{
    convert_tag, convert_tag_text, entries_view, lemma_persistence_round_trip,
    lemma_response_repeats, lemma_structured_form_repeats, lemma_wrapping_keeps_the_cause, Error,
    ErrorView,
};
pub use response::{ApiError, ApiErrorView, ErrorResponse, ErrorResponseView};
pub use text::debug_quoted;
