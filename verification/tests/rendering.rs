use handler_error::{ApiError, Cause, Error, ErrorResponse};

fn leaf(display: &str, debug: &str) -> Cause {
    Cause::new(display.to_string(), debug.to_string(), None)
}

fn nested(display: &str, debug: &str, source: &str) -> Cause {
    Cause::new(display.to_string(), debug.to_string(), Some(source.to_string()))
}

fn convert(from: &str, to: &str, message: &str) -> Error {
    Error::Convert { from: from.to_string(), to: to.to_string(), message: message.to_string() }
}

fn one_of_each() -> Vec<Error> {
    vec![
        Error::Streaming(nested("stream closed", "Closed", "broken pipe")),
        Error::Persistence(leaf("row locked", "Locked")),
        convert("A", "B", "x"),
        Error::NotFound,
        Error::Custom(leaf("boom", "Boom")),
    ]
}

#[test]
fn cause_new_keeps_its_three_texts() {
    let cause = Cause::new("shown".to_string(), "Debugged".to_string(), Some("below".to_string()));
    assert_eq!(cause.display, "shown");
    assert_eq!(cause.debug, "Debugged");
    assert_eq!(cause.source, Some("below".to_string()));
    let cause = Cause::new(String::new(), String::new(), None);
    assert_eq!(cause.display, "");
    assert_eq!(cause.debug, "");
    assert_eq!(cause.source, None);
}

#[test]
fn cause_is_found_in_wrapping_variants_only() {
    let cause = nested("stream closed", "Closed", "broken pipe");
    assert_eq!(Error::Streaming(cause.clone()).cause(), Some(&cause));
    assert_eq!(Error::Persistence(cause.clone()).cause(), Some(&cause));
    assert_eq!(Error::Custom(cause.clone()).cause(), Some(&cause));
    assert_eq!(Error::NotFound.cause(), None);
    assert_eq!(convert("A", "B", "x").cause(), None);
}

#[test]
fn nested_source_is_read_from_the_wrapped_failure() {
    let error = Error::Streaming(nested("stream closed", "Closed", "broken pipe"));
    assert_eq!(error.nested_source(), Some(&"broken pipe".to_string()));
    assert_eq!(Error::Persistence(leaf("row locked", "Locked")).nested_source(), None);
    assert_eq!(Error::Custom(nested("boom", "Boom", "")).nested_source(), Some(&String::new()));
    assert_eq!(Error::NotFound.nested_source(), None);
    assert_eq!(convert("A", "B", "x").nested_source(), None);
}

#[test]
fn display_of_streaming() {
    let error = Error::Streaming(leaf("stream closed", "Closed"));
    assert_eq!(error.to_string(), "Streaming error: stream closed");
}

#[test]
fn display_of_persistence() {
    let error = Error::Persistence(leaf("row locked", "Locked"));
    assert_eq!(error.to_string(), "Persistence failure: row locked");
}

#[test]
fn display_of_convert_leaves_the_message_out() {
    let error = convert("A", "B", "x");
    assert_eq!(error.to_string(), "Failed to convert A to B");
    let error = convert("uuid::Uuid", "String", "invalid length");
    assert_eq!(error.to_string(), "Failed to convert uuid::Uuid to String");
}

#[test]
fn display_of_not_found() {
    assert_eq!(Error::NotFound.to_string(), "record could not be found");
}

#[test]
fn display_of_custom() {
    let error = Error::Custom(leaf("boom", "Boom"));
    assert_eq!(error.to_string(), "Custom error: boom");
}

#[test]
fn display_ignores_the_nested_source() {
    let error = Error::Custom(nested("boom", "Boom", "fuse"));
    assert_eq!(error.to_string(), "Custom error: boom");
}

#[test]
fn display_with_empty_texts() {
    assert_eq!(Error::Streaming(leaf("", "")).to_string(), "Streaming error: ");
    assert_eq!(convert("", "", "").to_string(), "Failed to convert  to ");
}

#[test]
fn status_is_404_for_not_found_and_500_for_the_rest() {
    for error in one_of_each() {
        let expected = if matches!(error, Error::NotFound) { 404 } else { 500 };
        assert_eq!(error.status_code(), expected);
        assert_eq!(error.into_response().status, expected);
    }
    assert_eq!(Error::NotFound.status_code(), 404);
    assert_eq!(Error::Streaming(leaf("a", "b")).status_code(), 500);
    assert_eq!(Error::Persistence(leaf("a", "b")).status_code(), 500);
    assert_eq!(convert("A", "B", "x").status_code(), 500);
    assert_eq!(Error::Custom(leaf("a", "b")).status_code(), 500);
}

#[test]
fn structured_form_has_type_then_msg() {
    for error in one_of_each() {
        let entries = error.serialize();
        assert_eq!(entries.len(), 2);
        assert_eq!(entries[0].0, "type");
        assert_eq!(entries[1].0, "msg");
        assert_eq!(entries[0].1, error.type_tag());
        assert_eq!(entries[1].1, error.msg());
    }
}

#[test]
fn structured_form_of_a_wrapped_failure() {
    let error = Error::Persistence(leaf("row locked", "Locked { row: 7 }"));
    assert_eq!(
        error.serialize(),
        vec![
            ("type".to_string(), "Persistence(Locked { row: 7 })".to_string()),
            ("msg".to_string(), "Persistence failure: row locked".to_string()),
        ]
    );
}

#[test]
fn msg_prefers_the_nested_source() {
    let error = Error::Streaming(nested("stream closed", "Closed", "broken pipe"));
    assert_eq!(error.msg(), "broken pipe");
    assert_ne!(error.msg(), error.to_string());
    let error = Error::Persistence(nested("row locked", "Locked", "deadlock detected"));
    assert_eq!(error.msg(), "deadlock detected");
    let error = Error::Custom(nested("boom", "Boom", "fuse"));
    assert_eq!(error.msg(), "fuse");
    assert_eq!(error.serialize()[1].1, "fuse");
}

#[test]
fn msg_takes_an_empty_nested_source_as_it_is() {
    let error = Error::Custom(nested("boom", "Boom", ""));
    assert_eq!(error.msg(), "");
}

#[test]
fn msg_falls_back_to_the_display_text() {
    let error = Error::Streaming(leaf("stream closed", "Closed"));
    assert_eq!(error.msg(), "Streaming error: stream closed");
    let error = Error::Persistence(leaf("row locked", "Locked"));
    assert_eq!(error.msg(), "Persistence failure: row locked");
    let error = Error::Custom(leaf("boom", "Boom"));
    assert_eq!(error.msg(), "Custom error: boom");
    assert_eq!(error.serialize()[1].1, "Custom error: boom");
}

#[test]
fn msg_of_the_variants_without_a_cause() {
    assert_eq!(Error::NotFound.msg(), "record could not be found");
    assert_eq!(convert("A", "B", "x").msg(), "Failed to convert A to B");
}

#[test]
fn not_found_renders_as_404() {
    assert_eq!(Error::NotFound.msg(), "record could not be found");
    assert_eq!(
        Error::NotFound.serialize(),
        vec![
            ("type".to_string(), "NotFound".to_string()),
            ("msg".to_string(), "record could not be found".to_string()),
        ]
    );
    let response = Error::NotFound.into_response();
    assert_eq!(response.status, 404);
    assert_eq!(response.content_type, "application/json");
    assert_eq!(response.body.message, "record could not be found");
    assert_eq!(response.body.status_code, 404);
}

#[test]
fn convert_renders_as_500() {
    let error = convert("A", "B", "x");
    assert_eq!(error.to_string(), "Failed to convert A to B");
    assert_eq!(error.status_code(), 500);
    assert_eq!(
        error.into_response(),
        ErrorResponse {
            status: 500,
            content_type: "application/json",
            body: ApiError { message: "Failed to convert A to B".to_string(), status_code: 500 },
        }
    );
}

#[test]
fn persistence_failure_round_trip() {
    for text in ["row locked", "", "connection refused: 127.0.0.1:5432", "désolé \"x\""] {
        let failure = nested(text, "Failure", "cause below");
        let response = Error::Persistence(failure).into_response();
        assert_eq!(response.body.message, format!("Persistence failure: {}", text));
        assert_eq!(response.body.status_code, 500);
        assert_eq!(response.status, 500);
    }
}

#[test]
fn response_message_is_the_display_text_not_the_nested_source() {
    let error = Error::Custom(nested("boom", "Boom", "fuse"));
    assert_eq!(error.msg(), "fuse");
    let response = error.into_response();
    assert_eq!(response.body.message, "Custom error: boom");
    assert_eq!(response.content_type, "application/json");
}

#[test]
fn rendering_twice_gives_the_same_output() {
    for error in one_of_each() {
        assert_eq!(error.serialize(), error.serialize());
        assert_eq!(error.to_string(), error.to_string());
        let first = error.clone().into_response();
        let second = error.into_response();
        assert_eq!(first, second);
        assert_eq!(first.body.message.as_bytes(), second.body.message.as_bytes());
    }
}
