//! Typed client library for the Todoist REST API (v2).
//!
//! The library owns everything about a call except the transport: it models
//! the request bodies and query strings that each resource method sends, it
//! builds the paths and headers, and it classifies every HTTP outcome
//! (status, body text, rate-limit header) into a typed value or a
//! [`error::TodoistError`]. An unverified shell around the library performs
//! the actual HTTP round trip and hands the raw outcome back for
//! classification.

pub mod bodies;
pub mod error;
pub mod json;
pub mod models;
pub mod query;
pub mod requests;
pub mod response;
pub mod text;

use vstd::prelude::*;

verus! {

/// Base URL that every request path is appended to.
pub const TODOIST_API_BASE: &'static str = "https://api.todoist.com/rest/v2";

} // verus!
