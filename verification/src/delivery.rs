//! Classification of a push-service HTTP response into a delivery outcome.
//!
//! The pipeline is linear: the size guard looks at the declared content
//! length before anyone touches the body; a body that nonetheless arrives
//! over the cap is refused before a byte of it is parsed; the status and
//! the body bytes are then classified into an outcome; last, a header-level
//! retry hint fills a server error whose body supplied none.

use vstd::prelude::*;
use crate::diagnostics::{parse_object, spec_body_hint, spec_parse_object};
use crate::retry_after::{spec_retry_after, RetryAfter};
use crate::scan::is_string_byte;

verus! {

/// Largest response body, in bytes, that the classifier is willing to read.
/// Push-service error bodies are small documents; anything larger is refused
/// outright, before a single body byte is consumed.
pub const MAX_RESPONSE_SIZE: usize = 64 * 1024;

/// The delivery error taxonomy. A successful delivery is `Ok(())`.
#[derive(Clone, Debug, PartialEq, Eq)]
pub enum WebPushError {
    /// The HTTP transport failed before any response arrived.
    TransportError { info: String },
    /// The response declared a body larger than `MAX_RESPONSE_SIZE`.
    ResponseTooLarge,
    /// A status outside the success and server-error ranges: the request
    /// itself is at fault, and retrying the same message will not help.
    ClientError { info: String },
    /// A 5xx status: the service failed; `retry_after` guides backoff.
    ServerError { retry_after: Option<RetryAfter>, info: String },
}

/// Whether a declared content length breaches the response-size cap.
/// An absent declaration is treated as not exceeding: the actual body is
/// judged against the cap again by the classifier once it has been read.
pub open spec fn spec_length_exceeds(content_length: Option<u64>) -> bool {
    match content_length {
        Some(n) => n > MAX_RESPONSE_SIZE as u64,
        None => false,
    }
}

/// Size guard: refuse a response whose declared content length is over the
/// cap, before any of its body is read.
pub fn check_response_size(content_length: Option<u64>) -> (r: Result<(), WebPushError>)
    ensures
        spec_length_exceeds(content_length) ==> r == Err::<(), WebPushError>(
            WebPushError::ResponseTooLarge,
        ),
        !spec_length_exceeds(content_length) ==> r == Ok::<(), WebPushError>(()),
{
    match content_length {
        Some(n) if n > MAX_RESPONSE_SIZE as u64 => Err(WebPushError::ResponseTooLarge),
        _ => Ok(()),
    }
}

/// The status says the message was accepted.
pub open spec fn spec_is_success(status: u16) -> bool {
    200 <= status < 300
}

/// The status says the service itself failed; such a send may be retried.
pub open spec fn spec_is_server_error(status: u16) -> bool {
    500 <= status < 600
}

/// ASCII bytes read as characters, one for one.
pub open spec fn spec_ascii_chars(s: Seq<u8>) -> Seq<char> {
    s.map(|_k: int, b: u8| b as char)
}

/// The diagnostic text for a body: its `message` where the body parses and
/// carries one, a fixed generic description otherwise.
pub open spec fn spec_body_info(body: Seq<u8>) -> Seq<char> {
    match spec_parse_object(body) {
        Some((Some(m), _)) => spec_ascii_chars(m),
        _ => spec_generic_info(),
    }
}

/// The generic diagnostic for a body with no readable description.
pub open spec fn spec_generic_info() -> Seq<char> {
    "push service error without readable body"@
}

/// The retry hint the body itself supplies, as a hint value.
pub open spec fn spec_body_retry(body: Seq<u8>) -> Option<RetryAfter> {
    match spec_body_hint(body) {
        Some(n) => Some(RetryAfter::Delay(n as u64)),
        None => None,
    }
}

/// Relies on `String::from_utf8_lossy`: bytes below 128 are valid UTF-8 and
/// decode to the characters of the same code points, unchanged.
#[verifier::external_body]
fn ascii_range_to_string(bytes: &Vec<u8>, a: usize, b: usize) -> (r: String)
    requires
        a <= b <= bytes@.len(),
        forall|k: int| a <= k < b ==> bytes@[k] < 128,
    ensures
        r@ == spec_ascii_chars(bytes@.subrange(a as int, b as int)),
{
    String::from_utf8_lossy(&bytes[a..b]).into_owned()
}

/// Map a status and a fully read body to a provisional outcome. A body over
/// the cap is refused outright, before any parse of it and whatever the
/// status: the size policy pre-empts all classification. Within the cap:
/// success for 2xx whatever the body holds; a server error carrying the
/// body's own diagnostics for 5xx; a client error for everything else,
/// status ranges with no place in the taxonomy included, since retrying an
/// undecipherable answer has nothing to recommend it.
pub fn parse_response(status: u16, body: Vec<u8>) -> (r: Result<(), WebPushError>)
    ensures
        body@.len() > MAX_RESPONSE_SIZE ==> r == Err::<(), WebPushError>(
            WebPushError::ResponseTooLarge,
        ),
        body@.len() <= MAX_RESPONSE_SIZE && spec_is_success(status) ==> r == Ok::<
            (),
            WebPushError,
        >(()),
        body@.len() <= MAX_RESPONSE_SIZE && spec_is_server_error(status) ==> (match r {
            Err(WebPushError::ServerError { retry_after, info }) => retry_after
                == spec_body_retry(body@) && info@ == spec_body_info(body@),
            _ => false,
        }),
        body@.len() <= MAX_RESPONSE_SIZE && !spec_is_success(status) && !spec_is_server_error(
            status,
        ) ==> (match r {
            Err(WebPushError::ClientError { info }) => info@ == spec_body_info(body@),
            _ => false,
        }),
{
    if body.len() > MAX_RESPONSE_SIZE {
        return Err(WebPushError::ResponseTooLarge);
    }
    if 200 <= status && status < 300 {
        return Ok(());
    }
    let parsed = parse_object(&body);
    let (msg, hint) = match parsed {
        Some((m, h)) => (m, h),
        None => (None, None),
    };
    let info: String = match msg {
        Some((a, b)) => {
            assert(forall|k: int| a <= k < b ==> is_string_byte(body@[k]));
            ascii_range_to_string(&body, a, b)
        },
        None => "push service error without readable body".to_owned(),
    };
    if 500 <= status && status < 600 {
        let retry_after: Option<RetryAfter> = match hint {
            Some(n) => Some(RetryAfter::Delay(n)),
            None => None,
        };
        Err(WebPushError::ServerError { retry_after, info })
    } else {
        Err(WebPushError::ClientError { info })
    }
}

/// How a header-level hint is reconciled with a provisional outcome: it
/// fills a server error that has no hint of its own; everywhere else it is
/// discarded. The body's own hint is the more specific and always wins.
pub open spec fn spec_merge(outcome: Result<(), WebPushError>, hint: Option<RetryAfter>) -> Result<
    (),
    WebPushError,
> {
    match outcome {
        Err(WebPushError::ServerError { retry_after: None, info }) => Err(
            WebPushError::ServerError { retry_after: hint, info },
        ),
        _ => outcome,
    }
}

/// Fill a hint-less server error with the header-derived retry hint.
pub fn merge_retry_hint(outcome: Result<(), WebPushError>, header_hint: Option<RetryAfter>) -> (r:
    Result<(), WebPushError>)
    ensures
        r == spec_merge(outcome, header_hint),
{
    match outcome {
        Err(WebPushError::ServerError { retry_after: None, info }) => Err(
            WebPushError::ServerError { retry_after: header_hint, info },
        ),
        other => other,
    }
}

/// The retry hint a server error ends up with: the body's own hint where it
/// has one, else whatever the `Retry-After` header yields, else none.
pub open spec fn spec_merged_retry(body: Seq<u8>, header: Option<Seq<u8>>) -> Option<RetryAfter> {
    match spec_body_hint(body) {
        Some(n) => Some(RetryAfter::Delay(n as u64)),
        None => match header {
            Some(h) => spec_retry_after(h),
            None => None,
        },
    }
}

/// The header value as bytes, where a header came at all.
pub open spec fn spec_header_view(header: Option<Vec<u8>>) -> Option<Seq<u8>> {
    match header {
        Some(h) => Some(h@),
        None => None,
    }
}

/// The whole classification step for a response whose declared length
/// passed the size guard: a body that still turns out larger than the cap
/// is refused before any parse of it and whatever the status; within the
/// cap, status and body make the outcome, and the `Retry-After` header
/// value fills a hint-less server error.
pub fn classify_response(status: u16, retry_header: Option<Vec<u8>>, body: Vec<u8>) -> (r: Result<
    (),
    WebPushError,
>)
    ensures
        body@.len() > MAX_RESPONSE_SIZE ==> r == Err::<(), WebPushError>(
            WebPushError::ResponseTooLarge,
        ),
        body@.len() <= MAX_RESPONSE_SIZE && spec_is_success(status) ==> r == Ok::<
            (),
            WebPushError,
        >(()),
        body@.len() <= MAX_RESPONSE_SIZE && spec_is_server_error(status) ==> (match r {
            Err(WebPushError::ServerError { retry_after, info }) => retry_after
                == spec_merged_retry(body@, spec_header_view(retry_header)) && info@
                == spec_body_info(body@),
            _ => false,
        }),
        body@.len() <= MAX_RESPONSE_SIZE && !spec_is_success(status) && !spec_is_server_error(
            status,
        ) ==> (match r {
            Err(WebPushError::ClientError { info }) => info@ == spec_body_info(body@),
            _ => false,
        }),
{
    let header_hint: Option<RetryAfter> = match &retry_header {
        Some(h) => RetryAfter::parse(h),
        None => None,
    };
    let outcome = parse_response(status, body);
    merge_retry_hint(outcome, header_hint)
}

/// A server error whose body supplied no hint takes the header's delay:
/// with the header value `120`, the merged hint is a delay of 120 seconds,
/// whatever the status in the server-error range and whatever the body.
pub proof fn lemma_header_hint_fills_gap(body: Seq<u8>, header: Seq<u8>)
    requires
        spec_body_hint(body) is None,
        header == seq![49u8, 50u8, 48u8],
    ensures
        spec_merged_retry(body, Some(header)) == Some(RetryAfter::Delay(120)),
{
    reveal_with_fuel(crate::scan::spec_digits_val, 4);
    assert(crate::scan::spec_digits_end(header, 0) == 3) by {
        reveal_with_fuel(crate::scan::spec_digits_end, 4);
    }
    assert(crate::scan::spec_digits_val(header, 0, 3) == 120);
    assert(crate::retry_after::spec_is_delay(header));
}

/// Where the body supplies no hint, whatever the header parse yields — a
/// delay, an absolute time, or nothing — is taken exactly as it is.
pub proof fn lemma_header_is_fallback(body: Seq<u8>, header: Seq<u8>)
    requires
        spec_body_hint(body) is None,
    ensures
        spec_merged_retry(body, Some(header)) == spec_retry_after(header),
{
}

/// The body-level hint takes precedence: where the body supplies `n`, the
/// merged hint is a delay of `n` seconds, whatever the header says — present,
/// absent, equal or different.
pub proof fn lemma_body_hint_wins(body: Seq<u8>, header: Option<Seq<u8>>, n: nat)
    requires
        spec_body_hint(body) == Some(n),
    ensures
        spec_merged_retry(body, header) == Some(RetryAfter::Delay(n as u64)),
{
}

/// No header hint and no body hint leave a server error with no hint at
/// all: the merged hint of a hint-less body and an absent header is `None`.
pub proof fn lemma_no_hint_stays_none(body: Seq<u8>)
    requires
        spec_body_hint(body) is None,
    ensures
        spec_merged_retry(body, None) is None,
{
}

} // verus!
