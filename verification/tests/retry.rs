use sequence_rs::http::error::{response_outcome, ReqwestError, TransportFailure};
use sequence_rs::http::retry::{
    capped_backoff_ms, retry_delay, AttemptStep, RetryDecision, RetryDelay, RetryLoop,
};
use sequence_rs::http::retry_after::parse_retry_after;
use sequence_rs::RateLimit;

fn status(code: u16) -> ReqwestError {
    ReqwestError::Status {
        status: code,
        body: String::new(),
    }
}

fn network(timeout: bool, connect: bool) -> ReqwestError {
    ReqwestError::Client(TransportFailure {
        timeout,
        connect,
        detail: "io".to_string(),
    })
}

#[test]
fn transient_failures_are_retryable() {
    for code in [429u16, 500, 502, 503, 504] {
        assert!(status(code).is_retryable(), "{code}");
    }
    for code in [400u16, 401, 403, 404, 422, 501, 505] {
        assert!(!status(code).is_retryable(), "{code}");
    }
    assert!(network(true, false).is_retryable());
    assert!(network(false, true).is_retryable());
    assert!(!network(false, false).is_retryable());
    let budget = ReqwestError::Timeout {
        after: std::time::Duration::from_millis(120),
    };
    assert!(!budget.is_retryable());
}

#[test]
fn responses_outside_2xx_are_status_failures() {
    assert_eq!(response_outcome(200, "ok".to_string()).unwrap(), "ok");
    assert_eq!(response_outcome(299, "x".to_string()).unwrap(), "x");
    match response_outcome(502, "<html>bad gateway</html>".to_string()) {
        Err(ReqwestError::Status { status, body }) => {
            assert_eq!(status, 502);
            assert_eq!(body, "<html>bad gateway</html>");
        }
        _ => panic!("expected a status failure"),
    }
    assert!(response_outcome(199, String::new()).is_err());
    assert!(response_outcome(300, String::new()).is_err());
}

#[test]
fn gives_up_after_max_attempts() {
    // Every attempt fails with a 429: three attempts, then the failure is returned.
    let mut l = RetryLoop::new(3);
    assert_eq!(l.attempt(), 1);
    assert_eq!(l.decide(&status(429)), RetryDecision::Retry { attempt: 1 });
    assert_eq!(l.decide(&status(429)), RetryDecision::Retry { attempt: 2 });
    assert_eq!(l.attempt(), 3);
    assert_eq!(l.decide(&status(429)), RetryDecision::GiveUp);
    assert_eq!(l.attempt(), 3);
}

#[test]
fn no_retries_makes_a_single_attempt() {
    for max in [0u32, 1] {
        let mut l = RetryLoop::new(max);
        assert_eq!(l.decide(&status(429)), RetryDecision::GiveUp);
        assert_eq!(l.attempt(), 1);
    }
}

#[test]
fn final_failures_are_not_retried() {
    let mut l = RetryLoop::new(5);
    assert_eq!(l.decide(&status(404)), RetryDecision::GiveUp);
    assert_eq!(l.attempt(), 1);
}

#[test]
fn settle_returns_success_at_once_and_retries_transient_failures() {
    let mut l = RetryLoop::new(3);
    match l.settle(Err(status(500))) {
        AttemptStep::Retry { attempt } => assert_eq!(attempt, 1),
        AttemptStep::Finished(_) => panic!("a 500 with attempts left is retried"),
    }
    match l.settle(Ok("body".to_string())) {
        AttemptStep::Finished(Ok(b)) => assert_eq!(b, "body"),
        _ => panic!("a response ends the request"),
    }
    let mut l = RetryLoop::new(1);
    match l.settle(Err(status(503))) {
        AttemptStep::Finished(Err(ReqwestError::Status { status, .. })) => assert_eq!(status, 503),
        _ => panic!("no attempts left"),
    }
}

#[test]
fn retry_after_takes_precedence_when_larger() {
    // Retry-After of 5s beats the 500ms computed backoff.
    assert_eq!(
        retry_delay(500, true, Some(5)),
        RetryDelay::RetryAfter { secs: 5 }
    );
    // ...but a tiny Retry-After doesn't shrink a larger computed backoff.
    assert_eq!(
        retry_delay(2000, true, Some(1)),
        RetryDelay::Backoff { millis: 2000 }
    );
    // Equal waits: either is the same duration.
    assert_eq!(
        retry_delay(1000, true, Some(1)),
        RetryDelay::RetryAfter { secs: 1 }
    );
}

#[test]
fn retry_after_ignored_when_disabled() {
    assert_eq!(
        retry_delay(500, false, Some(99)),
        RetryDelay::Backoff { millis: 500 }
    );
    assert_eq!(
        retry_delay(500, true, None),
        RetryDelay::Backoff { millis: 500 }
    );
}

#[test]
fn backoff_caps_at_the_maximum() {
    assert_eq!(capped_backoff_ms(2000, 30_000), 2000);
    assert_eq!(capped_backoff_ms(262_144_000, 30_000), 30_000);
}

#[test]
fn retry_after_header_parsing() {
    assert_eq!(parse_retry_after("5"), Some(5));
    assert_eq!(parse_retry_after("  120\t"), Some(120));
    assert_eq!(parse_retry_after("+7"), Some(7));
    assert_eq!(parse_retry_after("18446744073709551615"), Some(u64::MAX));
    assert_eq!(parse_retry_after("18446744073709551616"), None);
    assert_eq!(parse_retry_after(""), None);
    assert_eq!(parse_retry_after("   "), None);
    assert_eq!(parse_retry_after("+"), None);
    assert_eq!(parse_retry_after("-1"), None);
    assert_eq!(parse_retry_after("1.5"), None);
    assert_eq!(parse_retry_after("Wed, 21 Oct 2015 07:28:00 GMT"), None);
    assert_eq!(parse_retry_after("1 2"), None);
}

#[test]
fn default_rate_limit_is_the_server_ceiling() {
    assert_eq!(RateLimit::default().requests_per_minute, 100);
    assert_eq!(sequence_rs::DEFAULT_RATE_LIMIT_PER_MINUTE, 100);
}

fn headers_with_key(key: Option<&str>) -> sequence_rs::http::headers::Headers {
    let creds = sequence_rs::Credentials::builder().api_key("k".to_string()).build();
    sequence_rs::build_headers(&creds, key, &None)
}

#[test]
fn retries_on_429_then_succeeds() {
    let mut x = sequence_rs::http::retry::Exchange::new(None, 3);
    let mut sends = 0;
    let outcomes = vec![Err(status(429)), Err(status(429)), Ok("done".to_string())];
    for outcome in outcomes {
        sends += 1;
        match x.settle(outcome) {
            AttemptStep::Retry { attempt } => assert_eq!(attempt, sends),
            AttemptStep::Finished(r) => {
                assert_eq!(r.unwrap(), "done");
                break;
            }
        }
    }
    assert_eq!(sends, 3);
}

#[test]
fn create_transfer_resends_idempotency_key_on_every_retry() {
    let mut x = sequence_rs::http::retry::Exchange::new(Some(headers_with_key(Some("stable-key"))), 3);
    let mut seen = Vec::new();
    for outcome in [Err(status(500)), Err(status(500)), Ok("t1".to_string())] {
        seen.push(x.headers().unwrap().get("idempotency-key").cloned());
        if let AttemptStep::Finished(r) = x.settle(outcome) {
            assert_eq!(r.unwrap(), "t1");
        }
    }
    assert_eq!(seen, vec![Some("stable-key".to_string()); 3]);
}

#[test]
fn no_idempotency_key_is_never_fabricated_across_retries() {
    let mut x = sequence_rs::http::retry::Exchange::new(Some(headers_with_key(None)), 3);
    let mut attempts = 0;
    loop {
        attempts += 1;
        assert!(x.headers().unwrap().get("idempotency-key").is_none());
        match x.settle(Err(status(500))) {
            AttemptStep::Retry { .. } => continue,
            AttemptStep::Finished(r) => {
                assert!(r.is_err());
                break;
            }
        }
    }
    assert_eq!(attempts, 3);
}
