//! Classification of HTTP outcomes: the success shapes (no-value, payload),
//! the empty-body rules per method, and one scenario per error variant.

use todoist_client::error::parse_failed_error;
use todoist_client::response::classify_response;
use todoist_client::response::HttpMethod;
use todoist_client::response::ResponseValue;

#[test]
fn delete_success_with_empty_body_is_no_value() {
    let r = classify_response(
        HttpMethod::Delete,
        "/tasks/6X7rM8997g3RQmvh",
        204,
        Ok(String::new()),
        None,
    );
    assert_eq!(r.unwrap(), ResponseValue::NoValue);
}

#[test]
fn delete_success_with_whitespace_body_is_no_value() {
    let r = classify_response(HttpMethod::Delete, "/labels/2156154810", 200, Ok("  \n\t ".to_string()), None);
    let value = r.unwrap();
    assert_eq!(value, ResponseValue::NoValue);
}

#[test]
fn task_close_returning_204_is_no_value() {
    let r = classify_response(
        HttpMethod::Post,
        "/tasks/6X7rM8997g3RQmvh/close",
        204,
        Ok(String::new()),
        None,
    );
    assert_eq!(r.unwrap(), ResponseValue::NoValue);
}

#[test]
fn post_success_with_empty_body_is_no_value() {
    let r = classify_response(
        HttpMethod::Post,
        "/tasks/6X7rM8997g3RQmvh/reopen",
        200,
        Ok(String::new()),
        None,
    );
    assert_eq!(r.unwrap(), ResponseValue::NoValue);
}

#[test]
fn get_returning_404_is_not_found_with_raw_body() {
    let r = classify_response(
        HttpMethod::Get,
        "/tasks/unknown",
        404,
        Ok("Task not found".to_string()),
        None,
    );
    let e = r.err().unwrap();
    assert!(e.is_not_found());
    assert_eq!(e.describe(), "Resource not found: Task not found");
}

#[test]
fn get_returning_429_with_header_carries_the_hint() {
    let r = classify_response(
        HttpMethod::Get,
        "/tasks",
        429,
        Ok("Too many requests".to_string()),
        Some("30".to_string()),
    );
    let e = r.err().unwrap();
    assert!(e.is_rate_limited());
    assert_eq!(e.retry_after(), Some(30));
}

#[test]
fn get_returning_429_without_header_has_no_hint() {
    let r = classify_response(
        HttpMethod::Get,
        "/tasks",
        429,
        Ok("Too many requests".to_string()),
        None,
    );
    let e = r.err().unwrap();
    assert!(e.is_rate_limited());
    assert_eq!(e.retry_after(), None);
}

#[test]
fn unparseable_retry_after_header_gives_no_hint() {
    let r = classify_response(
        HttpMethod::Get,
        "/tasks",
        429,
        Ok("Too many requests".to_string()),
        Some("Wed, 21 Oct 2015 07:28:00 GMT".to_string()),
    );
    assert_eq!(r.err().unwrap().retry_after(), None);
}

#[test]
fn success_with_unparseable_json_surfaces_as_parse_error() {
    let r = classify_response(
        HttpMethod::Get,
        "/projects",
        200,
        Ok("not json at all".to_string()),
        None,
    );
    // The classification hands the payload on; decoding it then fails and is
    // wrapped as a parse error rather than a panic or a silent default.
    let text = match r.unwrap() {
        ResponseValue::Payload(text) => text,
        ResponseValue::NoValue => panic!("a non-blank GET body must be handed on"),
    };
    let decoded: Result<serde_json::Value, serde_json::Error> = serde_json::from_str(&text);
    let e = parse_failed_error(decoded.err().unwrap().to_string());
    assert!(matches!(
        e,
        todoist_client::error::TodoistError::ParseError { .. }
    ));
}

#[test]
fn get_success_with_empty_body_is_empty_response_with_endpoint() {
    let r = classify_response(HttpMethod::Get, "/projects", 200, Ok(String::new()), None);
    let e = r.err().unwrap();
    assert!(e.is_empty_response());
    assert_eq!(e.describe(), "Empty response from /projects: API returned empty response body");
}

#[test]
fn status_401_is_authentication_error() {
    let r = classify_response(HttpMethod::Get, "/projects", 401, Ok("bad token".to_string()), None);
    assert!(r.err().unwrap().is_authentication_error());
}

#[test]
fn status_403_is_authorization_error() {
    let r = classify_response(HttpMethod::Get, "/projects", 403, Ok("forbidden".to_string()), None);
    assert!(r.err().unwrap().is_authorization_error());
}

#[test]
fn status_400_is_validation_error() {
    let r = classify_response(HttpMethod::Post, "/tasks", 400, Ok("bad content".to_string()), None);
    assert!(r.err().unwrap().is_validation_error());
}

#[test]
fn status_503_is_server_error_with_code() {
    let r = classify_response(HttpMethod::Get, "/projects", 503, Ok("overloaded".to_string()), None);
    let e = r.err().unwrap();
    assert!(e.is_server_error());
    assert_eq!(e.status_code(), Some(503));
}

#[test]
fn unusual_status_is_generic_with_code() {
    let r = classify_response(HttpMethod::Get, "/projects", 418, Ok("teapot".to_string()), None);
    let e = r.err().unwrap();
    assert_eq!(e.status_code(), Some(418));
    assert_eq!(e.describe(), "Error (418): teapot");
}

#[test]
fn unreadable_error_body_falls_back_to_synthetic_message() {
    let r = classify_response(
        HttpMethod::Get,
        "/projects",
        503,
        Err("connection reset".to_string()),
        None,
    );
    let e = r.err().unwrap();
    assert_eq!(e.describe(), "Server error (503): Unknown error occurred (HTTP 503)");
}

#[test]
fn unreadable_success_body_is_network_error() {
    let r = classify_response(
        HttpMethod::Get,
        "/projects",
        200,
        Err("connection reset".to_string()),
        None,
    );
    let e = r.err().unwrap();
    assert!(e.is_network_error());
    assert_eq!(e.describe(), "Network error: Failed to read response body: connection reset");
}

#[test]
fn post_success_with_real_body_is_the_payload() {
    let r = classify_response(
        HttpMethod::Post,
        "/tasks",
        200,
        Ok("{\"id\":\"42\"}".to_string()),
        None,
    );
    assert_eq!(r.unwrap(), ResponseValue::Payload("{\"id\":\"42\"}".to_string()));
}
