//! Client-side delivery step of a web-push protocol client.
//!
//! Given the raw pieces of an HTTP response to a push request — status code,
//! `Retry-After` header value, declared content length, body bytes — this
//! library classifies the response into a typed delivery outcome: success,
//! a client error, or a server error carrying an optional retry hint.
//! The surrounding application owns the HTTP transport; this crate owns the
//! decisions.

pub mod delivery;
pub mod diagnostics;
pub mod retry_after;
pub mod scan;

pub use delivery::{
    check_response_size, classify_response, merge_retry_hint, parse_response, WebPushError,
    MAX_RESPONSE_SIZE,
};
pub use retry_after::{HttpDate, RetryAfter};
