//! Best-effort extraction of diagnostics from a push-service error body.
//!
//! Services answer a failed push with a small flat JSON object, such as
//! `{"message": "quota exceeded", "retry_after": 120}`. This module parses
//! exactly that shape: one object of string keys whose values are quoted
//! strings (printable ASCII, no escapes) or decimal numbers, and extracts
//! the first `"message"` string and the first `"retry_after"` number.
//! A body of any other shape yields no hint and no message; the caller
//! falls back to a generic description, never to a failure.

use vstd::prelude::*;
use crate::scan::{
    is_digit, is_string_byte, spec_digits_end, spec_digits_val, spec_scan_string, spec_skip_ws,
    digit_byte, digits_end, digits_value, scan_string, skip_ws,
};

verus! {

/// The bytes `s[a .. b]` spell the key `message`.
pub open spec fn is_message_key_at(s: Seq<u8>, a: int, b: int) -> bool {
    &&& b - a == 7
    &&& s[a] == 109 && s[a + 1] == 101 && s[a + 2] == 115 && s[a + 3] == 115
    &&& s[a + 4] == 97 && s[a + 5] == 103 && s[a + 6] == 101
}

/// The bytes `s[a .. b]` spell the key `retry_after`.
pub open spec fn is_retry_key_at(s: Seq<u8>, a: int, b: int) -> bool {
    &&& b - a == 11
    &&& s[a] == 114 && s[a + 1] == 101 && s[a + 2] == 116 && s[a + 3] == 114
    &&& s[a + 4] == 121 && s[a + 5] == 95 && s[a + 6] == 97 && s[a + 7] == 102
    &&& s[a + 8] == 116 && s[a + 9] == 101 && s[a + 10] == 114
}

/// Parse the pair list of the object, starting at the opening quote of a
/// key, carrying the `message` and `retry_after` values found so far (the
/// first occurrence of each wins). Yields the values and the index just
/// after the closing brace. `fuel` only bounds the recursion; the caller
/// hands it more than any input could consume.
pub open spec fn spec_parse_pairs(
    s: Seq<u8>,
    i: int,
    msg: Option<Seq<u8>>,
    retry: Option<nat>,
    fuel: nat,
) -> Option<(Option<Seq<u8>>, Option<nat>, int)>
    decreases fuel, 1int,
{
    if fuel == 0 {
        None
    } else if i < s.len() && s[i] == 34 {
        match spec_scan_string(s, i + 1) {
            Some(c) => {
                let a = spec_skip_ws(s, c + 1);
                if a < s.len() && s[a] == 58 {
                    let b = spec_skip_ws(s, a + 1);
                    if b < s.len() && s[b] == 34 {
                        match spec_scan_string(s, b + 1) {
                            Some(c2) => {
                                let msg2 = if is_message_key_at(s, i + 1, c) && msg is None {
                                    Some(s.subrange(b + 1, c2))
                                } else {
                                    msg
                                };
                                spec_pairs_tail(s, c2 + 1, msg2, retry, fuel)
                            },
                            None => None,
                        }
                    } else if b < s.len() && is_digit(s[b]) {
                        let e = spec_digits_end(s, b);
                        if e - b <= 18 {
                            let retry2 = if is_retry_key_at(s, i + 1, c) && retry is None {
                                Some(spec_digits_val(s, b, e))
                            } else {
                                retry
                            };
                            spec_pairs_tail(s, e, msg, retry2, fuel)
                        } else {
                            None
                        }
                    } else {
                        None
                    }
                } else {
                    None
                }
            },
            None => None,
        }
    } else {
        None
    }
}

/// After a value ending at `e`: a closing brace ends the object, a comma
/// leads to the next pair.
pub open spec fn spec_pairs_tail(
    s: Seq<u8>,
    e: int,
    msg: Option<Seq<u8>>,
    retry: Option<nat>,
    fuel: nat,
) -> Option<(Option<Seq<u8>>, Option<nat>, int)>
    decreases fuel, 0int,
{
    let w = spec_skip_ws(s, e);
    if w < s.len() && s[w] == 125 {
        Some((msg, retry, w + 1))
    } else if w < s.len() && s[w] == 44 && fuel > 0 {
        spec_parse_pairs(s, spec_skip_ws(s, w + 1), msg, retry, (fuel - 1) as nat)
    } else {
        None
    }
}

/// Parse a whole body as one flat object, with whitespace allowed around
/// it, and nothing after it. Yields the extracted `message` bytes and
/// `retry_after` value, or `None` where the body has any other shape.
pub open spec fn spec_parse_object(s: Seq<u8>) -> Option<(Option<Seq<u8>>, Option<nat>)> {
    let i = spec_skip_ws(s, 0);
    if i < s.len() && s[i] == 123 {
        let j = spec_skip_ws(s, i + 1);
        if j < s.len() && s[j] == 125 {
            if spec_skip_ws(s, j + 1) == s.len() {
                Some((None, None))
            } else {
                None
            }
        } else {
            match spec_parse_pairs(s, j, None, None, s.len()) {
                Some((m, r, e)) => {
                    if spec_skip_ws(s, e) == s.len() {
                        Some((m, r))
                    } else {
                        None
                    }
                },
                None => None,
            }
        }
    } else {
        None
    }
}

/// The retry hint the body itself carries, in seconds.
pub open spec fn spec_body_hint(body: Seq<u8>) -> Option<nat> {
    match spec_parse_object(body) {
        Some((m, r)) => r,
        None => None,
    }
}

/// A `message` range as the exec parser reports it, read back as bytes.
pub open spec fn spec_range_view(s: Seq<u8>, m: Option<(usize, usize)>) -> Option<Seq<u8>> {
    match m {
        Some((a, b)) => Some(s.subrange(a as int, b as int)),
        None => None,
    }
}

/// A retry value as the exec parser reports it, read back as a number.
pub open spec fn spec_hint_view(r: Option<u64>) -> Option<nat> {
    match r {
        Some(n) => Some(n as nat),
        None => None,
    }
}

/// A reported `message` range lies inside `s` and holds string bytes only.
pub open spec fn range_wf(s: Seq<u8>, m: Option<(usize, usize)>) -> bool {
    match m {
        Some((a, b)) => a <= b <= s.len() && (forall|k: int| a <= k < b ==> is_string_byte(s[k])),
        None => true,
    }
}

/// Exec mirror of `is_message_key_at`.
fn key_is_message(s: &Vec<u8>, a: usize, b: usize) -> (r: bool)
    requires
        a <= b <= s.len(),
    ensures
        r == is_message_key_at(s@, a as int, b as int),
{
    b - a == 7 && s[a] == 109 && s[a + 1] == 101 && s[a + 2] == 115 && s[a + 3] == 115 && s[a + 4]
        == 97 && s[a + 5] == 103 && s[a + 6] == 101
}

/// Exec mirror of `is_retry_key_at`.
fn key_is_retry(s: &Vec<u8>, a: usize, b: usize) -> (r: bool)
    requires
        a <= b <= s.len(),
    ensures
        r == is_retry_key_at(s@, a as int, b as int),
{
    b - a == 11 && s[a] == 114 && s[a + 1] == 101 && s[a + 2] == 116 && s[a + 3] == 114 && s[a + 4]
        == 121 && s[a + 5] == 95 && s[a + 6] == 97 && s[a + 7] == 102 && s[a + 8] == 116 && s[a + 9]
        == 101 && s[a + 10] == 114
}

/// Exec mirror of `spec_parse_pairs`, reporting the `message` value as a
/// byte range into `s`.
fn parse_pairs(
    s: &Vec<u8>,
    i: usize,
    msg: Option<(usize, usize)>,
    retry: Option<u64>,
    fuel: usize,
) -> (r: Option<(Option<(usize, usize)>, Option<u64>, usize)>)
    requires
        i <= s.len(),
        range_wf(s@, msg),
    ensures
        match r {
            Some((m2, r2, e)) => {
                &&& spec_parse_pairs(
                    s@,
                    i as int,
                    spec_range_view(s@, msg),
                    spec_hint_view(retry),
                    fuel as nat,
                ) == Some((spec_range_view(s@, m2), spec_hint_view(r2), e as int))
                &&& e <= s.len()
                &&& range_wf(s@, m2)
            },
            None => spec_parse_pairs(
                s@,
                i as int,
                spec_range_view(s@, msg),
                spec_hint_view(retry),
                fuel as nat,
            ) is None,
        },
    decreases fuel, 1int,
{
    if fuel == 0 {
        return None;
    }
    if !(i < s.len() && s[i] == 34) {
        return None;
    }
    let c = match scan_string(s, i + 1) {
        Some(c) => c,
        None => {
            return None;
        },
    };
    let a = skip_ws(s, c + 1);
    if !(a < s.len() && s[a] == 58) {
        return None;
    }
    let b = skip_ws(s, a + 1);
    if b < s.len() && s[b] == 34 {
        let c2 = match scan_string(s, b + 1) {
            Some(x) => x,
            None => {
                return None;
            },
        };
        let msg2 = if key_is_message(s, i + 1, c) && msg.is_none() {
            Some((b + 1, c2))
        } else {
            msg
        };
        pairs_tail(s, c2 + 1, msg2, retry, fuel)
    } else if b < s.len() && digit_byte(s[b]) {
        let e = digits_end(s, b);
        if e - b > 18 {
            return None;
        }
        let v = digits_value(s, b, e);
        let retry2 = if key_is_retry(s, i + 1, c) && retry.is_none() {
            Some(v)
        } else {
            retry
        };
        pairs_tail(s, e, msg, retry2, fuel)
    } else {
        None
    }
}

/// Exec mirror of `spec_pairs_tail`.
fn pairs_tail(
    s: &Vec<u8>,
    e: usize,
    msg: Option<(usize, usize)>,
    retry: Option<u64>,
    fuel: usize,
) -> (r: Option<(Option<(usize, usize)>, Option<u64>, usize)>)
    requires
        e <= s.len(),
        range_wf(s@, msg),
    ensures
        match r {
            Some((m2, r2, e2)) => {
                &&& spec_pairs_tail(
                    s@,
                    e as int,
                    spec_range_view(s@, msg),
                    spec_hint_view(retry),
                    fuel as nat,
                ) == Some((spec_range_view(s@, m2), spec_hint_view(r2), e2 as int))
                &&& e2 <= s.len()
                &&& range_wf(s@, m2)
            },
            None => spec_pairs_tail(
                s@,
                e as int,
                spec_range_view(s@, msg),
                spec_hint_view(retry),
                fuel as nat,
            ) is None,
        },
    decreases fuel, 0int,
{
    let w = skip_ws(s, e);
    if w < s.len() && s[w] == 125 {
        Some((msg, retry, w + 1))
    } else if w < s.len() && s[w] == 44 && fuel > 0 {
        let n = skip_ws(s, w + 1);
        parse_pairs(s, n, msg, retry, fuel - 1)
    } else {
        None
    }
}

/// Exec mirror of `spec_parse_object`: the diagnostics a body carries,
/// with the `message` reported as a byte range into `body`.
pub fn parse_object(s: &Vec<u8>) -> (r: Option<(Option<(usize, usize)>, Option<u64>)>)
    ensures
        match r {
            Some((m, hint)) => {
                &&& spec_parse_object(s@) == Some(
                    (spec_range_view(s@, m), spec_hint_view(hint)),
                )
                &&& range_wf(s@, m)
            },
            None => spec_parse_object(s@) is None,
        },
{
    let i = skip_ws(s, 0);
    if !(i < s.len() && s[i] == 123) {
        return None;
    }
    let j = skip_ws(s, i + 1);
    if j < s.len() && s[j] == 125 {
        if skip_ws(s, j + 1) == s.len() {
            return Some((None, None));
        } else {
            return None;
        }
    }
    match parse_pairs(s, j, None, None, s.len()) {
        Some((m, hint, e)) => {
            if skip_ws(s, e) == s.len() {
                Some((m, hint))
            } else {
                None
            }
        },
        None => None,
    }
}

} // verus!
