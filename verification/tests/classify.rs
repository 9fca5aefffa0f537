use web_push::{
    check_response_size, classify_response, merge_retry_hint, parse_response, RetryAfter,
    WebPushError, MAX_RESPONSE_SIZE,
};

const GENERIC: &str = "push service error without readable body";

#[test]
fn size_guard_rejects_oversized() {
    let r = check_response_size(Some(MAX_RESPONSE_SIZE as u64 + 1));
    assert_eq!(r, Err(WebPushError::ResponseTooLarge));
}

#[test]
fn size_guard_accepts_the_cap_itself() {
    assert_eq!(check_response_size(Some(MAX_RESPONSE_SIZE as u64)), Ok(()));
    assert_eq!(check_response_size(Some(0)), Ok(()));
}

#[test]
fn size_guard_accepts_missing_length() {
    assert_eq!(check_response_size(None), Ok(()));
}

#[test]
fn oversized_response_never_reads_the_body() {
    let declared = MAX_RESPONSE_SIZE as u64 + 1;
    let body_read = std::cell::Cell::new(false);
    let read_body = || {
        body_read.set(true);
        b"{}".to_vec()
    };
    let outcome = match check_response_size(Some(declared)) {
        Err(e) => Err(e),
        Ok(()) => classify_response(500, None, read_body()),
    };
    assert_eq!(outcome, Err(WebPushError::ResponseTooLarge));
    assert!(!body_read.get());
}

#[test]
fn oversized_actual_body_preempts_classification() {
    let body = vec![b'x'; MAX_RESPONSE_SIZE + 1];
    for status in [200u16, 404, 503] {
        let r = classify_response(status, Some(b"120".to_vec()), body.clone());
        assert_eq!(r, Err(WebPushError::ResponseTooLarge));
        assert_eq!(parse_response(status, body.clone()), Err(WebPushError::ResponseTooLarge));
    }
}

#[test]
fn body_at_the_cap_is_still_classified() {
    let body = vec![b' '; MAX_RESPONSE_SIZE];
    assert_eq!(classify_response(204, None, body.clone()), Ok(()));
    let r = classify_response(500, None, body);
    assert_eq!(
        r,
        Err(WebPushError::ServerError { retry_after: None, info: GENERIC.to_string() })
    );
}

#[test]
fn success_ignores_body_and_header() {
    for status in [200u16, 201, 204, 226, 299] {
        let r = classify_response(status, Some(b"120".to_vec()), b"<<<garbage>>>".to_vec());
        assert_eq!(r, Ok(()));
    }
}

#[test]
fn server_error_takes_header_delay() {
    for status in [500u16, 503, 599] {
        let r = classify_response(status, Some(b"120".to_vec()), b"{}".to_vec());
        assert_eq!(
            r,
            Err(WebPushError::ServerError {
                retry_after: Some(RetryAfter::Delay(120)),
                info: GENERIC.to_string(),
            })
        );
    }
}

#[test]
fn body_hint_beats_header() {
    let body = b"{\"message\":\"try later\",\"retry_after\":60}".to_vec();
    let r = classify_response(500, Some(b"120".to_vec()), body);
    assert_eq!(
        r,
        Err(WebPushError::ServerError {
            retry_after: Some(RetryAfter::Delay(60)),
            info: "try later".to_string(),
        })
    );
}

#[test]
fn server_error_without_any_hint() {
    let r = classify_response(500, None, b"{}".to_vec());
    assert_eq!(
        r,
        Err(WebPushError::ServerError { retry_after: None, info: GENERIC.to_string() })
    );
}

#[test]
fn unparseable_header_is_no_hint() {
    let r = classify_response(503, Some(b"soon".to_vec()), b"{}".to_vec());
    assert_eq!(
        r,
        Err(WebPushError::ServerError { retry_after: None, info: GENERIC.to_string() })
    );
}

#[test]
fn client_error_carries_no_hint() {
    for status in [400u16, 404, 429, 499] {
        let body = b"{\"message\":\"unknown subscription\",\"retry_after\":60}".to_vec();
        let r = classify_response(status, Some(b"120".to_vec()), body);
        assert_eq!(
            r,
            Err(WebPushError::ClientError { info: "unknown subscription".to_string() })
        );
    }
}

#[test]
fn gone_with_date_header_and_junk_body() {
    let header = b"Wed, 21 Oct 2025 07:28:00 GMT".to_vec();
    let r = classify_response(410, Some(header), b"\x00\xffnot a diagnostic".to_vec());
    match r {
        Err(WebPushError::ClientError { info }) => assert!(!info.is_empty()),
        other => panic!("expected a client error, got {:?}", other),
    }
}

#[test]
fn statuses_outside_the_taxonomy_are_client_errors() {
    for status in [100u16, 304, 600, 999] {
        let r = classify_response(status, None, b"{}".to_vec());
        assert_eq!(r, Err(WebPushError::ClientError { info: GENERIC.to_string() }));
    }
}

#[test]
fn whitespace_in_body_is_tolerated() {
    let body = b" { \"message\" : \"busy\" , \"retry_after\" : 5 } ".to_vec();
    let r = classify_response(500, None, body);
    assert_eq!(
        r,
        Err(WebPushError::ServerError {
            retry_after: Some(RetryAfter::Delay(5)),
            info: "busy".to_string(),
        })
    );
}

#[test]
fn first_occurrence_of_a_key_wins() {
    let body = b"{\"message\":\"first\",\"message\":\"second\"}".to_vec();
    let r = classify_response(500, None, body);
    assert_eq!(
        r,
        Err(WebPushError::ServerError { retry_after: None, info: "first".to_string() })
    );
    let body = b"{\"retry_after\":1,\"retry_after\":2}".to_vec();
    let r = classify_response(500, None, body);
    assert_eq!(
        r,
        Err(WebPushError::ServerError {
            retry_after: Some(RetryAfter::Delay(1)),
            info: GENERIC.to_string(),
        })
    );
}

#[test]
fn mistyped_values_are_ignored() {
    let body = b"{\"message\":7,\"retry_after\":\"9\"}".to_vec();
    let r = classify_response(500, None, body);
    assert_eq!(
        r,
        Err(WebPushError::ServerError { retry_after: None, info: GENERIC.to_string() })
    );
}

#[test]
fn unknown_keys_are_skipped() {
    let body = b"{\"code\":410,\"errno\":106,\"message\":\"endpoint gone\"}".to_vec();
    let r = classify_response(500, None, body);
    assert_eq!(
        r,
        Err(WebPushError::ServerError { retry_after: None, info: "endpoint gone".to_string() })
    );
}

#[test]
fn malformed_bodies_fall_back_to_generic_info() {
    for body in [
        b"".to_vec(),
        b"{".to_vec(),
        b"{\"message\":\"x\"} trailing".to_vec(),
        b"{\"message\":\"a\\\\b\"}".to_vec(),
        b"{\"message\":\"caf\xc3\xa9\"}".to_vec(),
        b"{\"retry_after\":1234567890123456789012}".to_vec(),
        b"{\"message\":\"x\",}".to_vec(),
        b"[1,2]".to_vec(),
    ] {
        let r = classify_response(500, None, body);
        assert_eq!(
            r,
            Err(WebPushError::ServerError { retry_after: None, info: GENERIC.to_string() })
        );
    }
}

#[test]
fn eighteen_digit_body_hint_is_kept() {
    let body = b"{\"retry_after\":123456789012345678}".to_vec();
    let r = classify_response(500, None, body);
    assert_eq!(
        r,
        Err(WebPushError::ServerError {
            retry_after: Some(RetryAfter::Delay(123456789012345678)),
            info: GENERIC.to_string(),
        })
    );
}

#[test]
fn empty_object_is_a_readable_body_without_fields() {
    let r = classify_response(500, None, b" {} ".to_vec());
    assert_eq!(
        r,
        Err(WebPushError::ServerError { retry_after: None, info: GENERIC.to_string() })
    );
}

#[test]
fn parse_response_alone_leaves_the_header_out() {
    let r = parse_response(503, b"{}".to_vec());
    assert_eq!(
        r,
        Err(WebPushError::ServerError { retry_after: None, info: GENERIC.to_string() })
    );
    assert_eq!(parse_response(204, b"anything".to_vec()), Ok(()));
}

#[test]
fn merge_only_touches_hintless_server_errors() {
    let hint = Some(RetryAfter::Delay(30));
    assert_eq!(merge_retry_hint(Ok(()), hint), Ok(()));
    let client = Err(WebPushError::ClientError { info: "x".to_string() });
    assert_eq!(merge_retry_hint(client.clone(), hint), client);
    let transport = Err(WebPushError::TransportError { info: "connection refused".to_string() });
    assert_eq!(merge_retry_hint(transport.clone(), hint), transport);
    assert_eq!(merge_retry_hint(Err(WebPushError::ResponseTooLarge), hint),
        Err(WebPushError::ResponseTooLarge));
    let hinted = Err(WebPushError::ServerError {
        retry_after: Some(RetryAfter::Delay(7)),
        info: "x".to_string(),
    });
    assert_eq!(merge_retry_hint(hinted.clone(), hint), hinted);
    let bare = Err(WebPushError::ServerError { retry_after: None, info: "x".to_string() });
    assert_eq!(
        merge_retry_hint(bare, hint),
        Err(WebPushError::ServerError {
            retry_after: Some(RetryAfter::Delay(30)),
            info: "x".to_string(),
        })
    );
}
