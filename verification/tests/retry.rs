use gateway_client::builder::{parse, retry0};
use gateway_client::error::{SequencerError, StarknetError, TransportError};
use std::collections::VecDeque;

/// What the gateway answers: a status and a body.
fn reply(status: u16, body: &str) -> Result<String, SequencerError> {
    let error_body = if gateway_client::response::expects_error_body(status) {
        Some(decode_error(body))
    } else {
        None
    };
    let payload = serde_json::from_str::<String>(body).map_err(|_| TransportError::decode());
    parse(status, error_body, payload)
}

fn decode_error(body: &str) -> Result<StarknetError, TransportError> {
    let value: serde_json::Value =
        serde_json::from_str(body).map_err(|_| TransportError::decode())?;
    let code = value.get("code").and_then(|c| c.as_str());
    let message = value.get("message").and_then(|m| m.as_str());
    match (code, message) {
        (Some(code), Some(message)) => Ok(StarknetError {
            code: code.to_owned(),
            message: message.to_owned(),
        }),
        _ => Err(TransportError::decode()),
    }
}

#[test]
fn stop_on_ok() {
    let mut statuses = VecDeque::from([
        reply(429, ""),
        reply(502, ""),
        reply(503, ""),
        reply(504, ""),
        reply(200, r#""Finally!""#),
        reply(429, ""),
        reply(502, ""),
        reply(503, ""),
    ]);
    let run = retry0(&mut statuses);
    let result = run.result.unwrap().unwrap();
    assert_eq!(result, "Finally!");
    assert_eq!(run.delays, vec![2, 30, 450, 600]);
    assert_eq!(statuses.len(), 3);
}

#[test]
fn stop_on_fatal() {
    let mut statuses = VecDeque::from([
        reply(429, ""),
        reply(502, ""),
        reply(503, ""),
        reply(504, ""),
        reply(
            500,
            r#"{"code":"StarknetErrorCode.BLOCK_NOT_FOUND","message":""}"#,
        ),
        reply(429, ""),
        reply(502, ""),
        reply(503, ""),
    ]);
    let error = retry0(&mut statuses).result.unwrap().unwrap_err();
    match error {
        SequencerError::StarknetError(se) => {
            assert_eq!(se.code, "StarknetErrorCode.BLOCK_NOT_FOUND")
        }
        other => panic!("unexpected error: {:?}", other),
    }
    assert_eq!(statuses.len(), 3);
}

use gateway_client::error::TransportKind;
use gateway_client::retry::{retry_condition, severity, Backoff, RetryPolicy, Severity, Step};

fn timed_out() -> SequencerError {
    SequencerError::ReqwestError(TransportError {
        kind: TransportKind::Request,
        connect: false,
        timeout: true,
    })
}

/// How many attempts start within `window` seconds, where attempts take no
/// time and `delays` are the pauses between them.
fn attempts_within(window: u64, delays: &[u64]) -> usize {
    let mut start = 0;
    let mut attempts = 1;
    for delay in delays {
        start += delay;
        if start > window {
            break;
        }
        attempts += 1;
    }
    attempts
}

#[test]
fn request_timeout() {
    // Every attempt times out: the run goes on for as long as it is let.
    let mut attempts: VecDeque<Result<String, SequencerError>> =
        (0..12).map(|_| Err(timed_out())).collect();
    let run = retry0(&mut attempts);
    assert!(run.result.is_none());
    assert!(attempts.is_empty());
    assert_eq!(
        run.delays,
        vec![2, 30, 450, 600, 600, 600, 600, 600, 600, 600, 600, 600]
    );
    // Attempts start at 0 s, 2 s, 32 s, 482 s and 1082 s.
    assert_eq!(attempts_within(500, &run.delays), 4);
    assert_eq!(attempts_within(1081, &run.delays), 4);
    assert_eq!(attempts_within(1082, &run.delays), 5);
    assert_eq!(attempts_within(1100, &run.delays), 5);
    assert_eq!(attempts_within(1682, &run.delays), 6);
}

#[test]
fn the_delay_follows_the_recurrence() {
    let policy = RetryPolicy::gateway();
    assert_eq!(
        policy,
        RetryPolicy {
            initial_delay: 2,
            growth_factor: 15,
            max_delay: 600
        }
    );
    assert_eq!(policy.next_delay(2), 30);
    assert_eq!(policy.next_delay(30), 450);
    assert_eq!(policy.next_delay(39), 585);
    assert_eq!(policy.next_delay(40), 600);
    assert_eq!(policy.next_delay(450), 600);
    assert_eq!(policy.next_delay(600), 600);
    assert_eq!(policy.next_delay(0), 0);
    assert_eq!(policy.next_delay(u64::MAX), 600);
    let steep = RetryPolicy {
        initial_delay: 1,
        growth_factor: u64::MAX,
        max_delay: u64::MAX,
    };
    assert_eq!(steep.next_delay(1), u64::MAX);
    assert_eq!(steep.next_delay(2), u64::MAX);
}

#[test]
fn a_backoff_pauses_only_after_retryable_failures() {
    let mut backoff = Backoff::new(RetryPolicy {
        initial_delay: 1,
        growth_factor: 2,
        max_delay: 5,
    });
    assert_eq!(backoff.delay(), 1);
    assert_eq!(backoff.after(&Err::<(), _>(timed_out())), Step::Sleep(1));
    assert_eq!(backoff.after(&Ok::<(), SequencerError>(())), Step::Return);
    assert_eq!(backoff.delay(), 2);
    assert_eq!(backoff.after(&Err::<(), _>(timed_out())), Step::Sleep(2));
    assert_eq!(backoff.after(&Err::<(), _>(timed_out())), Step::Sleep(4));
    let own = SequencerError::StarknetError(StarknetError {
        code: "StarknetErrorCode.BLOCK_NOT_FOUND".to_owned(),
        message: String::new(),
    });
    assert_eq!(backoff.after(&Err::<(), _>(own)), Step::Return);
    assert_eq!(backoff.after(&Err::<(), _>(timed_out())), Step::Sleep(5));
    assert_eq!(backoff.after(&Err::<(), _>(timed_out())), Step::Sleep(5));
}

#[test]
fn a_run_without_attempts_returns_nothing() {
    let mut attempts: VecDeque<Result<u8, SequencerError>> = VecDeque::new();
    let run = retry0(&mut attempts);
    assert!(run.result.is_none());
    assert!(run.delays.is_empty());
}

#[test]
fn a_first_success_is_returned_without_a_pause() {
    let mut attempts = VecDeque::from([Ok(7u8), Err(timed_out()), Ok(8)]);
    let run = retry0(&mut attempts);
    assert_eq!(run.result, Some(Ok(7)));
    assert!(run.delays.is_empty());
    assert_eq!(attempts, VecDeque::from([Err(timed_out()), Ok(8)]));
}

#[test]
fn every_failure_but_the_gateways_own_is_retried() {
    let kinds = [
        TransportKind::Builder,
        TransportKind::Request,
        TransportKind::Redirect,
        TransportKind::Status(404),
        TransportKind::Status(500),
        TransportKind::Status(418),
        TransportKind::Body,
        TransportKind::Decode,
        TransportKind::Upgrade,
    ];
    for kind in kinds {
        for connect in [false, true] {
            for timeout in [false, true] {
                let e = SequencerError::ReqwestError(TransportError {
                    kind,
                    connect,
                    timeout,
                });
                assert!(retry_condition(&e));
                assert!(severity(&e).is_some());
            }
        }
    }
    assert!(retry_condition(&SequencerError::InvalidStarknetErrorVariant));
    let own = SequencerError::StarknetError(StarknetError {
        code: "StarknetErrorCode.BLOCK_NOT_FOUND".to_owned(),
        message: String::new(),
    });
    assert!(!retry_condition(&own));
    assert_eq!(severity(&own), None);
}

#[test]
fn failures_are_reported_by_how_ordinary_they_are() {
    let level = |kind| severity(&SequencerError::ReqwestError(TransportError::new(kind)));
    assert_eq!(level(TransportKind::Body), Some(Severity::Info));
    for status in [404, 429, 502, 503, 504] {
        assert_eq!(level(TransportKind::Status(status)), Some(Severity::Debug));
    }
    assert_eq!(level(TransportKind::Status(500)), Some(Severity::Error));
    for status in [400, 401, 403, 418, 501, 505, 301] {
        assert_eq!(level(TransportKind::Status(status)), Some(Severity::Warn));
    }
    assert_eq!(level(TransportKind::Decode), Some(Severity::Error));
    assert_eq!(level(TransportKind::Builder), Some(Severity::Warn));
    assert_eq!(level(TransportKind::Request), Some(Severity::Warn));
    assert_eq!(level(TransportKind::Redirect), Some(Severity::Warn));
    assert_eq!(level(TransportKind::Upgrade), Some(Severity::Warn));
    // A timeout or a failure to connect is network noise, whatever the kind.
    for kind in [TransportKind::Decode, TransportKind::Status(500), TransportKind::Request] {
        let connect = TransportError { kind, connect: true, timeout: false };
        let timeout = TransportError { kind, connect: false, timeout: true };
        assert_eq!(severity(&SequencerError::ReqwestError(connect)), Some(Severity::Info));
        assert_eq!(severity(&SequencerError::ReqwestError(timeout)), Some(Severity::Info));
    }
    assert_eq!(
        severity(&SequencerError::InvalidStarknetErrorVariant),
        Some(Severity::Error)
    );
}
