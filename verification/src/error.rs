//! The error value of the request-handling boundary and its two renderings.

use crate::cause::{Cause, CauseView};
use crate::response::{ApiError, ApiErrorView, ErrorResponse, ErrorResponseView};
use crate::status::{internal_server_error, not_found};
use crate::text::{debug_quoted, quote_debug};
use vstd::prelude::*;

verus! {

/// A failure at the request-handling boundary: exactly one of five kinds.
///
/// The three wrapping kinds own the failure they wrap. A value is made where
/// the failure is detected and is not changed afterwards; its debug text is
/// [`Error::type_tag`].
#[derive(Clone, PartialEq, Eq)]
pub enum Error {
    /// The streaming transport failed.
    Streaming(Cause),
    /// The persistence layer failed.
    Persistence(Cause),
    /// A value of type `from` could not be converted to type `to`.
    Convert { from: String, to: String, message: String },
    /// A lookup found no record.
    NotFound,
    /// Any other failure.
    Custom(Cause),
}

/// The mathematical value of an [`Error`].
pub ghost enum ErrorView {
    Streaming(CauseView),
    Persistence(CauseView),
    Convert { from: Seq<char>, to: Seq<char>, message: Seq<char> },
    NotFound,
    Custom(CauseView),
}

impl View for Error {
    type V = ErrorView;

    open spec fn view(&self) -> ErrorView {
        match self {
            Error::Streaming(cause) => ErrorView::Streaming(cause@),
            Error::Persistence(cause) => ErrorView::Persistence(cause@),
            Error::Convert { from, to, message } => ErrorView::Convert {
                from: from@,
                to: to@,
                message: message@,
            },
            Error::NotFound => ErrorView::NotFound,
            Error::Custom(cause) => ErrorView::Custom(cause@),
        }
    }
}

impl ErrorView {
    /// The wrapped failure, for the three kinds that wrap one.
    pub open spec fn cause(self) -> Option<CauseView> {
        match self {
            ErrorView::Streaming(cause) => Some(cause),
            ErrorView::Persistence(cause) => Some(cause),
            ErrorView::Custom(cause) => Some(cause),
            ErrorView::Convert { .. } => None,
            ErrorView::NotFound => None,
        }
    }

    /// The human-readable message. A conversion failure names the two
    /// types and leaves its `message` out.
    pub open spec fn display(self) -> Seq<char> {
        match self {
            ErrorView::Streaming(cause) => "Streaming error: "@ + cause.display,
            ErrorView::Persistence(cause) => "Persistence failure: "@ + cause.display,
            ErrorView::Convert { from, to, .. } => "Failed to convert "@ + from + " to "@ + to,
            ErrorView::NotFound => "record could not be found"@,
            ErrorView::Custom(cause) => "Custom error: "@ + cause.display,
        }
    }

    /// The debug text: the variant's name with its payload in debug form.
    pub open spec fn tag(self) -> Seq<char> {
        match self {
            ErrorView::Streaming(cause) => "Streaming("@ + cause.debug + ")"@,
            ErrorView::Persistence(cause) => "Persistence("@ + cause.debug + ")"@,
            ErrorView::Convert { from, to, message } => convert_tag_text(
                debug_quoted(from),
                debug_quoted(to),
                debug_quoted(message),
            ),
            ErrorView::NotFound => "NotFound"@,
            ErrorView::Custom(cause) => "Custom("@ + cause.debug + ")"@,
        }
    }

    /// The display text of the cause that lies under the wrapped failure,
    /// where a failure is wrapped and has such a cause.
    pub open spec fn nested_source(self) -> Option<Seq<char>> {
        match self.cause() {
            Some(cause) => cause.source,
            None => None,
        }
    }

    /// The message of the structured form: the nested cause's display text
    /// where there is one, else this error's own message.
    pub open spec fn msg(self) -> Seq<char> {
        match self.nested_source() {
            Some(text) => text,
            None => self.display(),
        }
    }

    /// The structured form: the entry `type`, then the entry `msg`.
    pub open spec fn structured(self) -> Seq<(Seq<char>, Seq<char>)> {
        seq![("type"@, self.tag()), ("msg"@, self.msg())]
    }

    /// The HTTP status code: 404 for a lookup miss, 500 for the rest.
    pub open spec fn status(self) -> u16 {
        if self is NotFound {
            404
        } else {
            500
        }
    }

    /// The HTTP error response. Its message is this error's own message,
    /// whether or not the wrapped failure has a nested cause.
    pub open spec fn response(self) -> ErrorResponseView {
        ErrorResponseView {
            status: self.status(),
            content_type: "application/json"@,
            body: ApiErrorView { message: self.display(), status_code: self.status() },
        }
    }
}

/// The debug text of a conversion failure whose three fields have the
/// debug forms `from`, `to` and `message`.
pub open spec fn convert_tag_text(
    from: Seq<char>,
    to: Seq<char>,
    message: Seq<char>,
) -> Seq<char> {
    "Convert { from: "@ + from + ", to: "@ + to + ", message: "@ + message + " }"@
}

/// The entries of a structured form, each as its key's and its value's
/// characters.
pub open spec fn entries_view(entries: Seq<(String, String)>) -> Seq<(Seq<char>, Seq<char>)> {
    Seq::new(entries.len(), |i: int| (entries[i].0@, entries[i].1@))
}

/// Builds the debug text of a conversion failure from the debug forms of
/// its three fields.
pub fn convert_tag(from: &str, to: &str, message: &str) -> (tag: String)
    ensures
        tag@ == convert_tag_text(from@, to@, message@),
{
    let mut tag = String::from_str("Convert { from: ");
    tag.append(from);
    tag.append(", to: ");
    tag.append(to);
    tag.append(", message: ");
    tag.append(message);
    tag.append(" }");
    tag
}

/// Builds the debug text of a wrapping variant: `opening`, which is the
/// variant's name and the opening bracket, the wrapped failure's debug text
/// `debug`, and the closing bracket.
fn wrapped_tag(opening: &str, debug: &str) -> (tag: String)
    ensures
        tag@ == opening@ + debug@ + ")"@,
{
    let mut tag = String::from_str(opening);
    tag.append(debug);
    tag.append(")");
    tag
}

impl Error {
    /// The human-readable message of this error.
    pub fn to_string(&self) -> (text: String)
        ensures
            text@ == self@.display(),
    {
        match self {
            Error::Streaming(cause) => {
                let mut text = String::from_str("Streaming error: ");
                text.append(cause.display.as_str());
                text
            },
            Error::Persistence(cause) => {
                let mut text = String::from_str("Persistence failure: ");
                text.append(cause.display.as_str());
                text
            },
            Error::Convert { from, to, .. } => {
                let mut text = String::from_str("Failed to convert ");
                text.append(from.as_str());
                text.append(" to ");
                text.append(to.as_str());
                text
            },
            Error::NotFound => String::from_str("record could not be found"),
            Error::Custom(cause) => {
                let mut text = String::from_str("Custom error: ");
                text.append(cause.display.as_str());
                text
            },
        }
    }

    /// The wrapped failure, if this error wraps one.
    pub fn cause(&self) -> (cause: Option<&Cause>)
        ensures
            self@.cause() == match cause {
                Some(c) => Some(c@),
                None => None,
            },
    {
        match self {
            Error::Streaming(cause) => Some(cause),
            Error::Persistence(cause) => Some(cause),
            Error::Custom(cause) => Some(cause),
            _ => None,
        }
    }

    /// The display text of the cause that lies one level below the wrapped
    /// failure, if this error wraps a failure and that failure has one.
    pub fn nested_source(&self) -> (nested: Option<&String>)
        ensures
            self@.nested_source() == match nested {
                Some(text) => Some(text@),
                None => None,
            },
    {
        match self.cause() {
            Some(cause) => match &cause.source {
                Some(text) => Some(text),
                None => None,
            },
            None => None,
        }
    }

    /// The debug text of this error: the name of its variant, followed for
    /// a wrapping variant by the wrapped failure's debug text in round
    /// brackets, and for a conversion failure by its three fields in debug
    /// form.
    pub fn type_tag(&self) -> (tag: String)
        ensures
            tag@ == self@.tag(),
    {
        match self {
            Error::Streaming(cause) => wrapped_tag("Streaming(", cause.debug.as_str()),
            Error::Persistence(cause) => wrapped_tag("Persistence(", cause.debug.as_str()),
            Error::Convert { from, to, message } => {
                let from = quote_debug(from.as_str());
                let to = quote_debug(to.as_str());
                let message = quote_debug(message.as_str());
                convert_tag(from.as_str(), to.as_str(), message.as_str())
            },
            Error::NotFound => String::from_str("NotFound"),
            Error::Custom(cause) => wrapped_tag("Custom(", cause.debug.as_str()),
        }
    }

    /// The message of the structured form. Where this error wraps a failure
    /// that has a cause of its own, it is that cause's display text; in
    /// every other case it is this error's own message.
    pub fn msg(&self) -> (text: String)
        ensures
            text@ == self@.msg(),
            self@.nested_source() matches Some(nested) ==> text@ == nested,
            self@.nested_source() is None ==> text@ == self@.display(),
    {
        match self.nested_source() {
            Some(nested) => nested.clone(),
            None => self.to_string(),
        }
    }

    /// The structured form of this error: a mapping of exactly two entries,
    /// `type` with the debug text and then `msg` with the message of the
    /// structured form, in the order in which they are to be emitted.
    pub fn serialize(&self) -> (entries: Vec<(String, String)>)
        ensures
            entries@.len() == 2,
            entries@[0].0@ == "type"@,
            entries@[0].1@ == self@.tag(),
            entries@[1].0@ == "msg"@,
            entries@[1].1@ == self@.msg(),
            self@.nested_source() matches Some(nested) ==> entries@[1].1@ == nested,
            self@.nested_source() is None ==> entries@[1].1@ == self@.display(),
            entries_view(entries@) == self@.structured(),
    {
        let mut entries: Vec<(String, String)> = Vec::new();
        entries.push((String::from_str("type"), self.type_tag()));
        entries.push((String::from_str("msg"), self.msg()));
        assert(entries_view(entries@) =~= self@.structured());
        entries
    }

    /// The HTTP error response for this error: the status code, the JSON
    /// content type, and a body that holds this error's own message and the
    /// status code once more.
    pub fn into_response(self) -> (response: ErrorResponse)
        ensures
            response@ == self@.response(),
            response.status == 404 <==> self@ is NotFound,
            response.status == 500 <==> !(self@ is NotFound),
    {
        let code = self.status_code();
        ErrorResponse {
            status: code,
            content_type: "application/json",
            body: ApiError { message: self.to_string(), status_code: code },
        }
    }

    /// The HTTP status code that answers this error: 404 for a lookup miss,
    /// 500 for every other kind.
    pub fn status_code(&self) -> (code: u16)
        ensures
            code == self@.status(),
            code == 404 <==> self@ is NotFound,
            code == 500 <==> !(self@ is NotFound),
    {
        match self {
            Error::NotFound => not_found(),
            _ => internal_server_error(),
        }
    }
}

/// Wrapping is lossless: a failure wrapped in any of the three wrapping
/// variants is found there again, with the three texts it came with.
pub proof fn lemma_wrapping_keeps_the_cause(failure: Cause)
    ensures
        Error::Streaming(failure)@.cause() == Some(failure@),
        Error::Persistence(failure)@.cause() == Some(failure@),
        Error::Custom(failure)@.cause() == Some(failure@),
{
}

/// A persistence failure that is wrapped and then rendered gives a response
/// body whose message is `Persistence failure: ` followed by the failure's
/// own display text, whether or not the failure has a nested cause.
pub proof fn lemma_persistence_round_trip(failure: Cause, response: ErrorResponse)
    requires
        response@ == Error::Persistence(failure)@.response(),
    ensures
        response.body.message@ == "Persistence failure: "@ + failure.display@,
{
}

/// Rendering is repeatable: two responses rendered from equal errors agree
/// in every field, character for character.
pub proof fn lemma_response_repeats(
    error: Error,
    again: Error,
    first: ErrorResponse,
    second: ErrorResponse,
)
    requires
        error@ == again@,
        first@ == error@.response(),
        second@ == again@.response(),
    ensures
        first.status == second.status,
        first.content_type@ == second.content_type@,
        first.body.message@ == second.body.message@,
        first.body.status_code == second.body.status_code,
{
}

/// Structured serialization is repeatable: two structured forms of equal
/// errors have the same entries in the same order, character for character.
pub proof fn lemma_structured_form_repeats(
    error: Error,
    again: Error,
    first: Seq<(String, String)>,
    second: Seq<(String, String)>,
)
    requires
        error@ == again@,
        entries_view(first) == error@.structured(),
        entries_view(second) == again@.structured(),
    ensures
        first.len() == second.len(),
        forall|i: int|
            0 <= i < first.len() ==> first[i].0@ == second[i].0@ && first[i].1@ == second[i].1@,
{
    assert(entries_view(first).len() == first.len());
    assert(entries_view(second).len() == second.len());
    assert forall|i: int| 0 <= i < first.len() implies first[i].0@ == second[i].0@ && first[i].1@
        == second[i].1@ by {
        assert(entries_view(first)[i] == (first[i].0@, first[i].1@));
        assert(entries_view(second)[i] == (second[i].0@, second[i].1@));
    }
}

} // verus!
