//! Classification of HTTP outcomes: the deterministic mapping from method,
//! status code, body text and rate-limit header to either a success value or
//! one [`TodoistError`] variant.
//!
//! The transport shell reads the status, the `Retry-After` header and the body
//! text (or the reason the body could not be read) and hands them to
//! [`classify_response`]; everything that follows is decided here.

use vstd::prelude::*;

use crate::error::ErrorSpec;
use crate::error::TodoistError;
use crate::text::is_blank;
use crate::text::is_blank_text;
use crate::text::parse_u64;
use crate::text::spec_dec_digits;
use crate::text::spec_parse_u64;
use crate::text::u64_to_dec;

verus! {

/// The HTTP method of a request.
#[derive(Debug, Clone, Copy, PartialEq, Eq, Structural)]
pub enum HttpMethod {
    Get,
    Post,
    Delete,
}

/// What a successful (2xx) response classifies to, before any typed decoding:
/// either a synthesized no-value result (empty DELETE bodies, empty or 204
/// POST bodies) or the body text to decode.
#[derive(Debug, Clone, PartialEq)]
pub enum ResponseValue {
    NoValue,
    Payload(String),
}

/// Mathematical mirror of a classified outcome.
pub ghost enum OutcomeSpec {
    NoValue,
    Payload(Seq<char>),
    Rejected(ErrorSpec),
}

/// The view of an exec classification result.
pub open spec fn outcome_view(r: Result<ResponseValue, TodoistError>) -> OutcomeSpec {
    match r {
        Ok(ResponseValue::NoValue) => OutcomeSpec::NoValue,
        Ok(ResponseValue::Payload(text)) => OutcomeSpec::Payload(text@),
        Err(e) => OutcomeSpec::Rejected(e@),
    }
}

/// True when the status code indicates success.
pub open spec fn is_success_status(status: u16) -> bool {
    200 <= status < 300
}

/// The error message used when a failure response's body cannot be read.
pub open spec fn unknown_error_message(status: u16) -> Seq<char> {
    "Unknown error occurred (HTTP "@ + spec_dec_digits(status as nat) + ")"@
}

/// The error variant for a failure status code, given the message text and the
/// raw `Retry-After` header value, if any.
pub open spec fn spec_classify_failure(
    status: u16,
    message: Seq<char>,
    retry_after: Option<Seq<char>>,
) -> ErrorSpec {
    if status == 401 {
        ErrorSpec::AuthenticationError { message }
    } else if status == 403 {
        ErrorSpec::AuthorizationError { message }
    } else if status == 404 {
        ErrorSpec::NotFound { resource_type: "Resource"@, resource_id: None, message }
    } else if status == 429 {
        ErrorSpec::RateLimited {
            retry_after: match retry_after {
                Some(header) => spec_parse_u64(header),
                None => None,
            },
            message,
        }
    } else if status == 400 {
        ErrorSpec::ValidationError { field: None, message }
    } else if 500 <= status <= 599 {
        ErrorSpec::ServerError { status_code: status, message }
    } else {
        ErrorSpec::Generic { status_code: Some(status), message }
    }
}

/// The complete classification of one HTTP outcome. `body` is the body text,
/// or the transport's description of why it could not be read.
pub open spec fn spec_classify(
    method: HttpMethod,
    endpoint: Seq<char>,
    status: u16,
    body: Result<Seq<char>, Seq<char>>,
    retry_after: Option<Seq<char>>,
) -> OutcomeSpec {
    if is_success_status(status) {
        match body {
            Err(detail) => OutcomeSpec::Rejected(
                ErrorSpec::NetworkError { message: "Failed to read response body: "@ + detail },
            ),
            Ok(text) => {
                if method is Delete && is_blank_text(text) {
                    OutcomeSpec::NoValue
                } else if method is Post && (status == 204 || is_blank_text(text)) {
                    OutcomeSpec::NoValue
                } else if is_blank_text(text) {
                    OutcomeSpec::Rejected(
                        ErrorSpec::EmptyResponse {
                            endpoint,
                            message: "API returned empty response body"@,
                        },
                    )
                } else {
                    OutcomeSpec::Payload(text)
                }
            },
        }
    } else {
        let message = match body {
            Ok(text) => text,
            Err(_) => unknown_error_message(status),
        };
        OutcomeSpec::Rejected(spec_classify_failure(status, message, retry_after))
    }
}

/// The view of the body argument handed to [`classify_response`].
pub open spec fn body_text_view(body: Result<String, String>) -> Result<Seq<char>, Seq<char>> {
    match body {
        Ok(text) => Ok(text@),
        Err(detail) => Err(detail@),
    }
}

/// Classify one HTTP outcome into a success value or an error, exactly as
/// [`spec_classify`] describes:
///
/// * a 2xx status with an unreadable body is a `NetworkError`;
/// * a 2xx DELETE with a blank body, and a 2xx POST with status 204 or a blank
///   body, synthesize a no-value success;
/// * any other 2xx with a blank body is an `EmptyResponse` carrying the
///   endpoint;
/// * any other 2xx hands the body text on for typed decoding;
/// * a failure status maps by code: 401 authentication, 403 authorization,
///   404 not found, 429 rate limited (with the parsed `Retry-After` hint),
///   400 validation, 5xx server error, anything else generic — each carrying
///   the raw error body as its message, or a synthetic "unknown error" message
///   when that body could not be read.
pub fn classify_response(
    method: HttpMethod,
    endpoint: &str,
    status: u16,
    body: Result<String, String>,
    retry_after: Option<String>,
) -> (r: Result<ResponseValue, TodoistError>)
    ensures
        outcome_view(r) == spec_classify(
            method,
            endpoint@,
            status,
            body_text_view(body),
            retry_after.deep_view(),
        ),
{
    if 200 <= status && status < 300 {
        match body {
            Err(detail) => {
                let mut message = "Failed to read response body: ".to_owned();
                message.append(detail.as_str());
                Err(TodoistError::NetworkError { message })
            },
            Ok(text) => {
                let blank = is_blank(text.as_str());
                if method == HttpMethod::Delete && blank {
                    Ok(ResponseValue::NoValue)
                } else if method == HttpMethod::Post && (status == 204 || blank) {
                    Ok(ResponseValue::NoValue)
                } else if blank {
                    Err(
                        TodoistError::EmptyResponse {
                            endpoint: endpoint.to_owned(),
                            message: "API returned empty response body".to_owned(),
                        },
                    )
                } else {
                    Ok(ResponseValue::Payload(text))
                }
            },
        }
    } else {
        let message = match body {
            Ok(text) => text,
            Err(_) => {
                let mut m = "Unknown error occurred (HTTP ".to_owned();
                let digits = u64_to_dec(status as u64);
                m.append(digits.as_str());
                m.append(")");
                m
            },
        };
        let error = if status == 401 {
            TodoistError::AuthenticationError { message }
        } else if status == 403 {
            TodoistError::AuthorizationError { message }
        } else if status == 404 {
            TodoistError::NotFound {
                resource_type: "Resource".to_owned(),
                resource_id: None,
                message,
            }
        } else if status == 429 {
            let hint = match &retry_after {
                Some(header) => parse_u64(header.as_str()),
                None => None,
            };
            TodoistError::RateLimited { retry_after: hint, message }
        } else if status == 400 {
            TodoistError::ValidationError { field: None, message }
        } else if 500 <= status && status <= 599 {
            TodoistError::ServerError { status_code: status, message }
        } else {
            TodoistError::Generic { status_code: Some(status), message }
        };
        Err(error)
    }
}

/// Law: a successful DELETE whose body is empty or whitespace-only classifies
/// to the synthesized no-value success — never to a parse or empty-response
/// error.
pub proof fn lemma_delete_blank_body_is_no_value(
    endpoint: Seq<char>,
    status: u16,
    text: Seq<char>,
    retry_after: Option<Seq<char>>,
)
    requires
        is_success_status(status),
        is_blank_text(text),
    ensures
        spec_classify(HttpMethod::Delete, endpoint, status, Ok(text), retry_after)
            == OutcomeSpec::NoValue,
{
}

/// Law: a POST answered with status 204, or with an empty or whitespace-only
/// body, classifies to the synthesized no-value success; this is what makes a
/// task close or reopen succeed.
pub proof fn lemma_post_no_content_is_no_value(
    endpoint: Seq<char>,
    status: u16,
    text: Seq<char>,
    retry_after: Option<Seq<char>>,
)
    requires
        is_success_status(status),
        status == 204 || is_blank_text(text),
    ensures
        spec_classify(HttpMethod::Post, endpoint, status, Ok(text), retry_after)
            == OutcomeSpec::NoValue,
{
}

/// Law: a 404 with a readable body classifies to a not-found error carrying
/// the raw body as its message, a generic resource type and no id.
pub proof fn lemma_status_404_is_not_found(
    method: HttpMethod,
    endpoint: Seq<char>,
    text: Seq<char>,
    retry_after: Option<Seq<char>>,
)
    ensures
        spec_classify(method, endpoint, 404, Ok(text), retry_after) == OutcomeSpec::Rejected(
            ErrorSpec::NotFound { resource_type: "Resource"@, resource_id: None, message: text },
        ),
{
}

/// Law: a 429 classifies to a rate-limited error whose retry hint is the
/// parsed `Retry-After` header when one was present and parseable, and
/// nothing otherwise.
pub proof fn lemma_status_429_is_rate_limited(
    method: HttpMethod,
    endpoint: Seq<char>,
    text: Seq<char>,
    retry_after: Option<Seq<char>>,
)
    ensures
        spec_classify(method, endpoint, 429, Ok(text), retry_after) == OutcomeSpec::Rejected(
            ErrorSpec::RateLimited {
                retry_after: match retry_after {
                    Some(header) => spec_parse_u64(header),
                    None => None,
                },
                message: text,
            },
        ),
{
}

/// Law: a successful non-DELETE, non-204 response with a non-blank body
/// classifies to its payload, handed on for typed decoding; a body that is
/// not valid JSON then surfaces as a parse error from the decoder, never as a
/// panic or a silent default.
pub proof fn lemma_success_body_is_payload(
    method: HttpMethod,
    endpoint: Seq<char>,
    status: u16,
    text: Seq<char>,
    retry_after: Option<Seq<char>>,
)
    requires
        is_success_status(status),
        !is_blank_text(text),
        method is Post ==> status != 204,
    ensures
        spec_classify(method, endpoint, status, Ok(text), retry_after) == OutcomeSpec::Payload(
            text,
        ),
{
}

/// Law: a successful GET with an empty or whitespace-only body classifies to
/// an empty-response error carrying the requested endpoint.
pub proof fn lemma_get_blank_body_is_empty_response(
    endpoint: Seq<char>,
    status: u16,
    text: Seq<char>,
    retry_after: Option<Seq<char>>,
)
    requires
        is_success_status(status),
        is_blank_text(text),
    ensures
        spec_classify(HttpMethod::Get, endpoint, status, Ok(text), retry_after)
            == OutcomeSpec::Rejected(
            ErrorSpec::EmptyResponse {
                endpoint,
                message: "API returned empty response body"@,
            },
        ),
{
}

} // verus!
