//! The error taxonomy: the kind predicates, the accessors, the helper
//! constructors and the human-readable descriptions.

use todoist_client::error::empty_response_error;
use todoist_client::error::not_found_error;
use todoist_client::error::rate_limited_error;
use todoist_client::error::TodoistError;

#[test]
fn kind_predicates_match_their_variant_only() {
    let e = rate_limited_error("Too many requests".to_string(), Some(30));
    assert!(e.is_rate_limited());
    assert!(!e.is_authentication_error());
    assert!(!e.is_authorization_error());
    assert!(!e.is_not_found());
    assert!(!e.is_validation_error());
    assert!(!e.is_server_error());
    assert!(!e.is_network_error());
    assert!(!e.is_empty_response());
}

#[test]
fn retry_after_is_returned_only_for_rate_limiting() {
    assert_eq!(rate_limited_error("slow down".to_string(), Some(12)).retry_after(), Some(12));
    assert_eq!(rate_limited_error("slow down".to_string(), None).retry_after(), None);
    assert_eq!(
        empty_response_error("/tasks".to_string(), "nothing came back".to_string()).retry_after(),
        None
    );
}

#[test]
fn status_code_is_returned_for_server_and_generic_errors() {
    let server = TodoistError::ServerError {
        status_code: 502,
        message: "bad gateway".to_string(),
    };
    assert_eq!(server.status_code(), Some(502));
    let generic = TodoistError::Generic {
        status_code: Some(418),
        message: "teapot".to_string(),
    };
    assert_eq!(generic.status_code(), Some(418));
    let unnumbered = TodoistError::Generic { status_code: None, message: "odd".to_string() };
    assert_eq!(unnumbered.status_code(), None);
    assert_eq!(rate_limited_error("wait".to_string(), Some(1)).status_code(), None);
}

#[test]
fn not_found_helper_carries_type_id_and_message() {
    let e = not_found_error(
        "Task".to_string(),
        Some("6X7rM8997g3RQmvh".to_string()),
        "no such task".to_string(),
    );
    assert!(e.is_not_found());
    assert_eq!(e.describe(), "Task not found (ID: 6X7rM8997g3RQmvh): no such task");
}

#[test]
fn descriptions_name_the_kind_and_the_details() {
    assert_eq!(
        rate_limited_error("Too many requests".to_string(), Some(30)).describe(),
        "Rate limited: Too many requests (retry after 30 seconds)"
    );
    assert_eq!(
        rate_limited_error("Too many requests".to_string(), None).describe(),
        "Rate limited: Too many requests"
    );
    assert_eq!(
        TodoistError::AuthenticationError { message: "bad token".to_string() }.describe(),
        "Authentication error: bad token"
    );
    assert_eq!(
        TodoistError::AuthorizationError { message: "forbidden".to_string() }.describe(),
        "Authorization error: forbidden"
    );
    assert_eq!(
        TodoistError::ValidationError {
            field: Some("content".to_string()),
            message: "must not be empty".to_string(),
        }
        .describe(),
        "Validation error for field 'content': must not be empty"
    );
    assert_eq!(
        TodoistError::ValidationError { field: None, message: "bad".to_string() }.describe(),
        "Validation error: bad"
    );
    assert_eq!(
        TodoistError::ServerError { status_code: 500, message: "boom".to_string() }.describe(),
        "Server error (500): boom"
    );
    assert_eq!(
        TodoistError::NetworkError { message: "timed out".to_string() }.describe(),
        "Network error: timed out"
    );
    assert_eq!(
        TodoistError::ParseError { message: "bad json".to_string() }.describe(),
        "Parse error: bad json"
    );
    assert_eq!(
        empty_response_error("/tasks".to_string(), "nothing".to_string()).describe(),
        "Empty response from /tasks: nothing"
    );
    assert_eq!(
        TodoistError::Generic { status_code: None, message: "odd".to_string() }.describe(),
        "Error: odd"
    );
    assert_eq!(
        not_found_error("Project".to_string(), None, "gone".to_string()).describe(),
        "Project not found: gone"
    );
}
