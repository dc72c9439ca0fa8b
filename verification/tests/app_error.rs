use service_helpers::app_error_v2::{AppError, Level};
use service_helpers::failure::Failure;
use service_helpers::status::StatusCode;

fn failure_of(messages: &[&str]) -> Failure {
    Failure::from_messages(messages.iter().map(|m| m.to_string()).collect()).unwrap()
}

#[test]
fn not_found_with_two_causes() {
    let failure = failure_of(&["not found", "lookup failed"]);
    let out = AppError(StatusCode::not_found(), failure).into_response();
    assert_eq!(out.response.status.as_u16(), 404);
    assert_eq!(out.response.body, "404 Not Found: not found: lookup failed");
    assert_eq!(out.record.level, Level::Error);
    assert_eq!(out.record.message, "Error: not found\n  caused by: lookup failed");
    assert_ne!(out.record.message, out.response.body);
    assert!(out.record.message.len() > "not found: lookup failed".len());
    assert_eq!(out.record.message.lines().count(), 2);
}

#[test]
fn upgraded_failure_is_answered_with_500() {
    let error = AppError::from(Failure::new("boom".to_string()));
    assert_eq!(error.0, StatusCode::internal_server_error());
    assert_eq!(error.0.as_u16(), 500);
    assert_eq!(error.1.messages(), &vec!["boom".to_string()]);
    assert_eq!(error.1.len(), 1);
}

#[test]
fn upgrade_through_into_keeps_the_causes() {
    let error: AppError = failure_of(&["outer", "inner"]).into();
    assert_eq!(error.0.as_u16(), 500);
    assert_eq!(error.1.messages(), &vec!["outer".to_string(), "inner".to_string()]);
}

#[test]
fn upgraded_failure_is_rendered_as_internal_server_error() {
    let out = AppError::from(Failure::new("boom".to_string())).into_response();
    assert_eq!(out.response.status.as_u16(), 500);
    assert_eq!(out.response.body, "500 Internal Server Error: boom");
    assert_eq!(out.record.level, Level::Error);
    assert_eq!(out.record.message, "Error: boom");
}

#[test]
fn record_names_every_cause_in_order() {
    let causes = ["handler failed", "query failed", "connection reset", "timed out"];
    let out = AppError(StatusCode::internal_server_error(), failure_of(&causes)).into_response();
    let mut from = 0;
    for cause in causes {
        let at = out.record.message[from..].find(cause).expect("cause is named");
        from += at + cause.len();
    }
    assert_eq!(
        out.record.message,
        "Error: handler failed\n  caused by: query failed\n  caused by: connection reset\n  caused by: timed out"
    );
}

#[test]
fn body_starts_with_the_status_line() {
    let causes = ["handler failed", "query failed", "connection reset"];
    let status = StatusCode::from_u16(503).unwrap();
    let out = AppError(status, failure_of(&causes)).into_response();
    assert!(!out.response.body.is_empty());
    assert!(out.response.body.starts_with("503"));
    assert!(out.response.body.starts_with("503 Service Unavailable: "));
    assert_eq!(
        out.response.body,
        "503 Service Unavailable: handler failed: query failed: connection reset"
    );
    for cause in causes {
        assert!(out.response.body.contains(cause));
    }
}

#[test]
fn status_without_reason_phrase_is_marked_unknown() {
    let status = StatusCode::from_u16(599).unwrap();
    let out = AppError(status, Failure::new("odd".to_string())).into_response();
    assert_eq!(out.response.status.as_u16(), 599);
    assert_eq!(out.response.body, "599 <unknown status code>: odd");
}

#[test]
fn empty_message_still_gives_a_body_and_a_record() {
    let out = AppError(StatusCode::not_found(), Failure::new(String::new())).into_response();
    assert_eq!(out.response.body, "404 Not Found: ");
    assert_eq!(out.record.message, "Error: ");
    assert_ne!(out.record.message, out.response.body);
}

#[test]
fn message_with_separators_is_kept_as_it_is() {
    let failure = failure_of(&["a: b", "line one\nline two"]);
    let out = AppError(StatusCode::not_found(), failure).into_response();
    assert_eq!(out.response.body, "404 Not Found: a: b: line one\nline two");
    assert_eq!(out.record.message, "Error: a: b\n  caused by: line one\nline two");
}

#[test]
fn superseded_error_always_answers_500() {
    let error = service_helpers::axum::AppError::from(failure_of(&["outer", "inner"]));
    let out = error.into_response();
    assert_eq!(out.status.as_u16(), 500);
    assert_eq!(out.body, "Something went wrong: outer");
}

#[test]
fn superseded_error_with_one_cause() {
    let out = service_helpers::axum::AppError(Failure::new("boom".to_string())).into_response();
    assert_eq!(out.status, StatusCode::internal_server_error());
    assert_eq!(out.body, "Something went wrong: boom");
}
