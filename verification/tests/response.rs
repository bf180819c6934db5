use ucp_client::response::{handle_error_response, handle_response, ErrorBody, NextStep};
use ucp_client::{HttpStatus, UcpError};

fn status(code: u16) -> HttpStatus {
    HttpStatus::from_u16(code).unwrap()
}

fn body(text: &str, envelope_message: Option<&str>) -> Option<ErrorBody> {
    Some(ErrorBody {
        text: text.to_string(),
        envelope_message: envelope_message.map(|message| message.to_string()),
    })
}

fn envelope_message(text: &str) -> Option<String> {
    let document: serde_json::Value = serde_json::from_str(text).ok()?;
    Some(document.as_object()?.get("message")?.as_str()?.to_string())
}

fn server_error(message: &str) -> UcpError {
    UcpError::ServerError { message: message.to_string() }
}

#[test]
fn unauthorized_is_an_authentication_error_whatever_the_body() {
    assert_eq!(handle_error_response(&status(401), None), UcpError::AuthenticationError);
    assert_eq!(
        handle_error_response(&status(401), body("not json", None)),
        UcpError::AuthenticationError
    );
    assert_eq!(
        handle_error_response(
            &status(401),
            body("{\"message\":\"db unavailable\"}", Some("db unavailable"))
        ),
        UcpError::AuthenticationError
    );
}

#[test]
fn too_many_requests_is_a_rate_limit_error_whatever_the_body() {
    assert_eq!(handle_error_response(&status(429), None), UcpError::RateLimitError);
    assert_eq!(
        handle_error_response(&status(429), body("slow down", None)),
        UcpError::RateLimitError
    );
    assert_eq!(
        handle_error_response(&status(429), body("{\"message\":\"later\"}", Some("later"))),
        UcpError::RateLimitError
    );
}

#[test]
fn envelope_gives_its_message() {
    let text = "{\"message\":\"db unavailable\"}";
    let error = handle_error_response(
        &status(500),
        Some(ErrorBody { text: text.to_string(), envelope_message: envelope_message(text) }),
    );
    assert_eq!(error, server_error("db unavailable"));
}

#[test]
fn body_that_is_no_envelope_is_the_message() {
    let text = "not json";
    let error = handle_error_response(
        &status(500),
        Some(ErrorBody { text: text.to_string(), envelope_message: envelope_message(text) }),
    );
    assert_eq!(error, server_error("not json"));
}

#[test]
fn empty_body_is_an_empty_message() {
    assert_eq!(handle_error_response(&status(502), body("", None)), server_error(""));
}

#[test]
fn not_found_is_a_server_error() {
    assert_eq!(
        handle_error_response(&status(404), body("{\"message\":\"no such memory\"}", Some("no such memory"))),
        server_error("no such memory")
    );
}

#[test]
fn unreadable_body_names_the_status() {
    assert_eq!(
        handle_error_response(&status(500), None),
        server_error("HTTP 500 Internal Server Error error")
    );
    assert_eq!(handle_error_response(&status(404), None), server_error("HTTP 404 Not Found error"));
}

#[test]
fn unreadable_body_of_a_status_without_a_reason() {
    assert_eq!(
        handle_error_response(&status(599), None),
        server_error("HTTP 599 <unknown status code> error")
    );
}

#[test]
fn success_reads_the_answer() {
    assert_eq!(handle_response(&status(200)), NextStep::ReadAnswer);
    assert_eq!(handle_response(&status(201)), NextStep::ReadAnswer);
    assert_eq!(handle_response(&status(204)), NextStep::ReadAnswer);
    assert_eq!(handle_response(&status(299)), NextStep::ReadAnswer);
}

#[test]
fn unauthorized_and_rate_limit_fail_without_the_body() {
    assert_eq!(handle_response(&status(401)), NextStep::Fail(UcpError::AuthenticationError));
    assert_eq!(handle_response(&status(429)), NextStep::Fail(UcpError::RateLimitError));
}

#[test]
fn other_statuses_read_the_error_body() {
    assert_eq!(handle_response(&status(100)), NextStep::ReadErrorBody);
    assert_eq!(handle_response(&status(199)), NextStep::ReadErrorBody);
    assert_eq!(handle_response(&status(300)), NextStep::ReadErrorBody);
    assert_eq!(handle_response(&status(400)), NextStep::ReadErrorBody);
    assert_eq!(handle_response(&status(403)), NextStep::ReadErrorBody);
    assert_eq!(handle_response(&status(404)), NextStep::ReadErrorBody);
    assert_eq!(handle_response(&status(500)), NextStep::ReadErrorBody);
    assert_eq!(handle_response(&status(999)), NextStep::ReadErrorBody);
}
