//! The closed error taxonomy of the client: one variant per failure
//! condition, plus the mathematical mirror [`ErrorSpec`] that contracts are
//! stated over.
//!
//! The classification layer (`response`) never retries or recovers: every
//! failed call surfaces as exactly one of these variants.

use vstd::prelude::*;

use crate::text::spec_dec_digits;
use crate::text::u64_to_dec;

verus! {

/// Mathematical mirror of [`TodoistError`]: the same variants over `Seq<char>`
/// instead of `String`. It is the view of `TodoistError`, so contracts can
/// state exactly which error a function returns, message text included.
pub ghost enum ErrorSpec {
    RateLimited { retry_after: Option<u64>, message: Seq<char> },
    AuthenticationError { message: Seq<char> },
    AuthorizationError { message: Seq<char> },
    NotFound { resource_type: Seq<char>, resource_id: Option<Seq<char>>, message: Seq<char> },
    ValidationError { field: Option<Seq<char>>, message: Seq<char> },
    ServerError { status_code: u16, message: Seq<char> },
    NetworkError { message: Seq<char> },
    ParseError { message: Seq<char> },
    EmptyResponse { endpoint: Seq<char>, message: Seq<char> },
    Generic { status_code: Option<u16>, message: Seq<char> },
}

/// An error from a Todoist API call.
#[derive(Debug, Clone)]
pub enum TodoistError {
    /// Rate limiting (HTTP 429), with the server's retry-after hint when the
    /// `Retry-After` header was present and parseable.
    RateLimited { retry_after: Option<u64>, message: String },
    /// Authentication failure (HTTP 401).
    AuthenticationError { message: String },
    /// Authorization failure (HTTP 403).
    AuthorizationError { message: String },
    /// Resource not found (HTTP 404).
    NotFound { resource_type: String, resource_id: Option<String>, message: String },
    /// Validation failure (HTTP 400, or rejected client-side before any call).
    ValidationError { field: Option<String>, message: String },
    /// Server error (HTTP 5xx).
    ServerError { status_code: u16, message: String },
    /// Network or connection failure.
    NetworkError { message: String },
    /// The response body could not be parsed as the expected type.
    ParseError { message: String },
    /// The API returned an empty body where a value was expected.
    EmptyResponse { endpoint: String, message: String },
    /// Any other HTTP status.
    Generic { status_code: Option<u16>, message: String },
}

impl View for TodoistError {
    type V = ErrorSpec;

    open spec fn view(&self) -> ErrorSpec {
        match self {
            TodoistError::RateLimited { retry_after, message } => ErrorSpec::RateLimited {
                retry_after: *retry_after,
                message: message@,
            },
            TodoistError::AuthenticationError { message } => ErrorSpec::AuthenticationError {
                message: message@,
            },
            TodoistError::AuthorizationError { message } => ErrorSpec::AuthorizationError {
                message: message@,
            },
            TodoistError::NotFound { resource_type, resource_id, message } => ErrorSpec::NotFound {
                resource_type: resource_type@,
                resource_id: resource_id.deep_view(),
                message: message@,
            },
            TodoistError::ValidationError { field, message } => ErrorSpec::ValidationError {
                field: field.deep_view(),
                message: message@,
            },
            TodoistError::ServerError { status_code, message } => ErrorSpec::ServerError {
                status_code: *status_code,
                message: message@,
            },
            TodoistError::NetworkError { message } => ErrorSpec::NetworkError {
                message: message@,
            },
            TodoistError::ParseError { message } => ErrorSpec::ParseError { message: message@ },
            TodoistError::EmptyResponse { endpoint, message } => ErrorSpec::EmptyResponse {
                endpoint: endpoint@,
                message: message@,
            },
            TodoistError::Generic { status_code, message } => ErrorSpec::Generic {
                status_code: *status_code,
                message: message@,
            },
        }
    }
}

impl TodoistError {
    /// Check if this is a rate limiting error.
    pub fn is_rate_limited(&self) -> (r: bool)
        ensures
            r == (self@ is RateLimited),
    {
        matches!(self, TodoistError::RateLimited { .. })
    }

    /// Check if this is an authentication error.
    pub fn is_authentication_error(&self) -> (r: bool)
        ensures
            r == (self@ is AuthenticationError),
    {
        matches!(self, TodoistError::AuthenticationError { .. })
    }

    /// Check if this is an authorization error.
    pub fn is_authorization_error(&self) -> (r: bool)
        ensures
            r == (self@ is AuthorizationError),
    {
        matches!(self, TodoistError::AuthorizationError { .. })
    }

    /// Check if this is a not found error.
    pub fn is_not_found(&self) -> (r: bool)
        ensures
            r == (self@ is NotFound),
    {
        matches!(self, TodoistError::NotFound { .. })
    }

    /// Check if this is a validation error.
    pub fn is_validation_error(&self) -> (r: bool)
        ensures
            r == (self@ is ValidationError),
    {
        matches!(self, TodoistError::ValidationError { .. })
    }

    /// Check if this is a server error.
    pub fn is_server_error(&self) -> (r: bool)
        ensures
            r == (self@ is ServerError),
    {
        matches!(self, TodoistError::ServerError { .. })
    }

    /// Check if this is a network error.
    pub fn is_network_error(&self) -> (r: bool)
        ensures
            r == (self@ is NetworkError),
    {
        matches!(self, TodoistError::NetworkError { .. })
    }

    /// Check if this is an empty response error.
    pub fn is_empty_response(&self) -> (r: bool)
        ensures
            r == (self@ is EmptyResponse),
    {
        matches!(self, TodoistError::EmptyResponse { .. })
    }

    /// Get the retry after value for rate limiting errors.
    pub fn retry_after(&self) -> (r: Option<u64>)
        ensures
            r == (match self@ {
                ErrorSpec::RateLimited { retry_after, .. } => retry_after,
                _ => None,
            }),
    {
        match self {
            TodoistError::RateLimited { retry_after, .. } => *retry_after,
            _ => None,
        }
    }

    /// Get the HTTP status code if available.
    pub fn status_code(&self) -> (r: Option<u16>)
        ensures
            r == (match self@ {
                ErrorSpec::ServerError { status_code, .. } => Some(status_code),
                ErrorSpec::Generic { status_code, .. } => status_code,
                _ => None,
            }),
    {
        match self {
            TodoistError::ServerError { status_code, .. } => Some(*status_code),
            TodoistError::Generic { status_code, .. } => *status_code,
            _ => None,
        }
    }
}

/// The human-readable description of an error: its kind, its numeric details
/// where it has any, and its message.
pub open spec fn spec_describe(e: ErrorSpec) -> Seq<char> {
    match e {
        ErrorSpec::RateLimited { retry_after, message } => match retry_after {
            Some(seconds) => "Rate limited: "@ + message + " (retry after "@ + spec_dec_digits(
                seconds as nat,
            ) + " seconds)"@,
            None => "Rate limited: "@ + message,
        },
        ErrorSpec::AuthenticationError { message } => "Authentication error: "@ + message,
        ErrorSpec::AuthorizationError { message } => "Authorization error: "@ + message,
        ErrorSpec::NotFound { resource_type, resource_id, message } => match resource_id {
            Some(id) => resource_type + " not found (ID: "@ + id + "): "@ + message,
            None => resource_type + " not found: "@ + message,
        },
        ErrorSpec::ValidationError { field, message } => match field {
            Some(name) => "Validation error for field '"@ + name + "': "@ + message,
            None => "Validation error: "@ + message,
        },
        ErrorSpec::ServerError { status_code, message } => "Server error ("@ + spec_dec_digits(
            status_code as nat,
        ) + "): "@ + message,
        ErrorSpec::NetworkError { message } => "Network error: "@ + message,
        ErrorSpec::ParseError { message } => "Parse error: "@ + message,
        ErrorSpec::EmptyResponse { endpoint, message } => "Empty response from "@ + endpoint
            + ": "@ + message,
        ErrorSpec::Generic { status_code, message } => match status_code {
            Some(code) => "Error ("@ + spec_dec_digits(code as nat) + "): "@ + message,
            None => "Error: "@ + message,
        },
    }
}

impl TodoistError {
    /// Write the error out for a reader, as [`spec_describe`] states.
    pub fn describe(&self) -> (r: String)
        ensures
            r@ == spec_describe(self@),
    {
        match self {
            TodoistError::RateLimited { retry_after, message } => {
                let mut out = "Rate limited: ".to_owned();
                out.append(message.as_str());
                if let Some(seconds) = retry_after {
                    out.append(" (retry after ");
                    let digits = u64_to_dec(*seconds);
                    out.append(digits.as_str());
                    out.append(" seconds)");
                }
                out
            },
            TodoistError::AuthenticationError { message } => {
                let mut out = "Authentication error: ".to_owned();
                out.append(message.as_str());
                out
            },
            TodoistError::AuthorizationError { message } => {
                let mut out = "Authorization error: ".to_owned();
                out.append(message.as_str());
                out
            },
            TodoistError::NotFound { resource_type, resource_id, message } => {
                let mut out = resource_type.clone();
                if let Some(id) = resource_id {
                    out.append(" not found (ID: ");
                    out.append(id.as_str());
                    out.append("): ");
                } else {
                    out.append(" not found: ");
                }
                out.append(message.as_str());
                out
            },
            TodoistError::ValidationError { field, message } => {
                let mut out = String::new();
                if let Some(name) = field {
                    out.append("Validation error for field '");
                    out.append(name.as_str());
                    out.append("': ");
                    proof {
                        assert(out@ =~= "Validation error for field '"@ + name@ + "': "@);
                    }
                } else {
                    out.append("Validation error: ");
                    proof {
                        assert(out@ =~= "Validation error: "@);
                    }
                }
                out.append(message.as_str());
                out
            },
            TodoistError::ServerError { status_code, message } => {
                let mut out = "Server error (".to_owned();
                let digits = u64_to_dec(*status_code as u64);
                out.append(digits.as_str());
                out.append("): ");
                out.append(message.as_str());
                out
            },
            TodoistError::NetworkError { message } => {
                let mut out = "Network error: ".to_owned();
                out.append(message.as_str());
                out
            },
            TodoistError::ParseError { message } => {
                let mut out = "Parse error: ".to_owned();
                out.append(message.as_str());
                out
            },
            TodoistError::EmptyResponse { endpoint, message } => {
                let mut out = "Empty response from ".to_owned();
                out.append(endpoint.as_str());
                out.append(": ");
                out.append(message.as_str());
                out
            },
            TodoistError::Generic { status_code, message } => {
                let mut out = String::new();
                if let Some(code) = status_code {
                    out.append("Error (");
                    let digits = u64_to_dec(*code as u64);
                    out.append(digits.as_str());
                    out.append("): ");
                    proof {
                        assert(out@ =~= "Error ("@ + spec_dec_digits(*code as nat) + "): "@);
                    }
                } else {
                    out.append("Error: ");
                    proof {
                        assert(out@ =~= "Error: "@);
                    }
                }
                out.append(message.as_str());
                out
            },
        }
    }
}

/// Result type for Todoist API operations.
pub type TodoistResult<T> = Result<T, TodoistError>;

/// Helper function to create a rate limiting error.
pub fn rate_limited_error(message: String, retry_after: Option<u64>) -> (r: TodoistError)
    ensures
        r@ == (ErrorSpec::RateLimited { retry_after, message: message@ }),
{
    TodoistError::RateLimited { retry_after, message }
}

/// Helper function to create an empty response error.
pub fn empty_response_error(endpoint: String, message: String) -> (r: TodoistError)
    ensures
        r@ == (ErrorSpec::EmptyResponse { endpoint: endpoint@, message: message@ }),
{
    TodoistError::EmptyResponse { endpoint, message }
}

/// The network error raised when a request could not be sent at all;
/// `detail` is the transport's own description of the failure.
pub fn send_failed_error(detail: String) -> (r: TodoistError)
    ensures
        r@ == (ErrorSpec::NetworkError {
            message: "Failed to send request: "@ + detail@,
        }),
{
    let mut message = "Failed to send request: ".to_owned();
    message.append(detail.as_str());
    TodoistError::NetworkError { message }
}

/// The parse error raised when a success body could not be decoded as the
/// expected type; `detail` is the decoder's own description of the failure.
pub fn parse_failed_error(detail: String) -> (r: TodoistError)
    ensures
        r@ == (ErrorSpec::ParseError { message: "Failed to parse response: "@ + detail@ }),
{
    let mut message = "Failed to parse response: ".to_owned();
    message.append(detail.as_str());
    TodoistError::ParseError { message }
}

/// The parse error raised when the synthesized no-value result of an empty
/// DELETE response does not fit the expected type.
pub fn empty_delete_parse_error(detail: String) -> (r: TodoistError)
    ensures
        r@ == (ErrorSpec::ParseError {
            message: "Failed to deserialize empty DELETE response: "@ + detail@,
        }),
{
    let mut message = "Failed to deserialize empty DELETE response: ".to_owned();
    message.append(detail.as_str());
    TodoistError::ParseError { message }
}

/// The parse error raised when the synthesized no-value result of an empty or
/// 204 POST response does not fit the expected type.
pub fn empty_post_parse_error(detail: String) -> (r: TodoistError)
    ensures
        r@ == (ErrorSpec::ParseError {
            message: "Failed to deserialize empty POST response: "@ + detail@,
        }),
{
    let mut message = "Failed to deserialize empty POST response: ".to_owned();
    message.append(detail.as_str());
    TodoistError::ParseError { message }
}

/// Helper function to create a not found error.
pub fn not_found_error(resource_type: String, resource_id: Option<String>, message: String) -> (r:
    TodoistError)
    ensures
        r@ == (ErrorSpec::NotFound {
            resource_type: resource_type@,
            resource_id: resource_id.deep_view(),
            message: message@,
        }),
{
    TodoistError::NotFound { resource_type, resource_id, message }
}

} // verus!
