use jobless::protocol::{method, BrowserOpenParams, RpcErrorPayload};
use jobless::transport::{
    after_read, call_end, decode_failure, handle_frame, response_outcome, route_message, CallWait, DecodedMessage,
    Delivery, FrameOutcome, PendingRequests, ReaderStep, TransportError,
};

#[test]
fn reader_steps() {
    assert!(matches!(after_read(Ok(Some(b"{}".to_vec()))), ReaderStep::Deliver(f) if f == b"{}".to_vec()));
    assert!(matches!(after_read(Ok(None)), ReaderStep::Stop(TransportError::WorkerExited)));
    assert!(matches!(
        after_read(Err(TransportError::FrameTooLarge { limit: 3 })),
        ReaderStep::Stop(TransportError::FrameTooLarge { limit: 3 })
    ));
}

#[test]
fn messages_are_routed_by_id_then_method() {
    assert_eq!(route_message(Some(4), true), Delivery::Response(4));
    assert_eq!(route_message(Some(4), false), Delivery::Response(4));
    assert_eq!(route_message(None, true), Delivery::Notification);
    assert_eq!(route_message(None, false), Delivery::Dropped);
}

#[test]
fn worker_errors_become_rpc_errors() {
    let payload = RpcErrorPayload { code: -32601, message: "no such method".to_string(), data: Some("x".to_string()) };
    let expected = TransportError::Rpc { code: -32601, message: "no such method".to_string(), data: Some("x".to_string()) };
    assert_eq!(TransportError::from(payload.clone()), expected);
    assert_eq!(response_outcome(Some(payload), serde_json::Value::Bool(true)), Err(expected));
    assert_eq!(response_outcome(None, serde_json::Value::Null), Ok(serde_json::Value::Null));
    let default = RpcErrorPayload::default();
    assert_eq!((default.code, default.message.as_str(), default.data), (-32_000, "runtime error", None));
}

#[test]
fn undecodable_frames_fail_requests_and_are_announced() {
    let (error, notice) = decode_failure("expected value".to_string());
    assert_eq!(error, TransportError::Json("expected value".to_string()));
    assert_eq!(notice.message, "expected value");
}

#[test]
fn protocol_names_and_defaults() {
    assert_eq!(method::RUNTIME_READY, "runtime.ready");
    assert_eq!(method::CANCEL_REQUEST, "$/cancelRequest");
    let open = BrowserOpenParams::default();
    assert_eq!((open.url.as_str(), open.profile_id.as_str()), ("about:blank", "default"));
}

#[test]
fn a_call_ends_with_its_answer_or_a_clean_up() {
    let answered = call_end(CallWait::Answered(Ok(serde_json::Value::Bool(true))), 100);
    assert_eq!(answered.result, Ok(serde_json::Value::Bool(true)));
    assert!(!answered.forget && !answered.cancel);
    let timed_out = call_end(CallWait::TimedOut, 250);
    assert_eq!(timed_out.result, Err(TransportError::Timeout { timeout_ms: 250 }));
    assert!(timed_out.forget && timed_out.cancel);
    let lost = call_end(CallWait::Disconnected, 250);
    assert_eq!(lost.result, Err(TransportError::Disconnected));
    assert!(lost.forget && !lost.cancel);
}

#[test]
fn pending_requests_are_answered_once() {
    let mut pending: PendingRequests<&str> = PendingRequests::new();
    assert_eq!(pending.register(1, "first"), None);
    assert_eq!(pending.register(2, "second"), None);
    assert_eq!(pending.register(3, "third"), None);
    assert_eq!(pending.len(), 3);
    assert_eq!(pending.take(2), Some("second"));
    assert_eq!(pending.take(2), None);
    assert_eq!(pending.register(1, "again"), Some("first"));
    assert_eq!(pending.len(), 2);
    let mut drained = pending.drain();
    drained.sort();
    assert_eq!(drained, vec![(1, "again"), (3, "third")]);
    assert_eq!(pending.len(), 0);
    assert_eq!(pending.take(3), None);
}

fn message(id: Option<u64>, method: Option<&str>) -> DecodedMessage {
    DecodedMessage {
        id,
        method: method.map(|m| m.to_string()),
        params: serde_json::Value::Bool(false),
        result: serde_json::Value::Bool(true),
        error: None,
    }
}

#[test]
fn a_bad_frame_fails_every_waiting_request_and_is_announced() {
    let mut pending: PendingRequests<&str> = PendingRequests::new();
    pending.register(1, "one");
    pending.register(2, "two");
    match handle_frame(&mut pending, Err("expected value".to_string())) {
        FrameOutcome::FailAll { mut waiting, error, notice } => {
            waiting.sort();
            assert_eq!(waiting, vec![(1, "one"), (2, "two")]);
            assert_eq!(error, TransportError::Json("expected value".to_string()));
            assert_eq!(notice.message, "expected value");
        }
        _ => panic!("a bad frame must fail the waiting requests"),
    }
    assert_eq!(pending.len(), 0);
}

#[test]
fn frames_are_answers_notifications_or_ignored() {
    let mut pending: PendingRequests<&str> = PendingRequests::new();
    pending.register(5, "five");
    match handle_frame(&mut pending, Ok(message(Some(5), None))) {
        FrameOutcome::Answer { waiting, outcome } => {
            assert_eq!(waiting, Some("five"));
            assert_eq!(outcome, Ok(serde_json::Value::Bool(true)));
        }
        _ => panic!("an id makes an answer"),
    }
    match handle_frame(&mut pending, Ok(message(Some(5), None))) {
        FrameOutcome::Answer { waiting, .. } => assert_eq!(waiting, None),
        _ => panic!("an id makes an answer"),
    }
    let mut failed = message(Some(6), None);
    failed.error = Some(RpcErrorPayload { code: 7, message: "no".to_string(), data: None });
    match handle_frame(&mut pending, Ok(failed)) {
        FrameOutcome::Answer { outcome, .. } => {
            assert_eq!(outcome, Err(TransportError::Rpc { code: 7, message: "no".to_string(), data: None }))
        }
        _ => panic!("an id makes an answer"),
    }
    pending.register(8, "eight");
    match handle_frame(&mut pending, Ok(message(None, Some("browser.event")))) {
        FrameOutcome::Notify { method, params } => {
            assert_eq!(method, "browser.event");
            assert_eq!(params, serde_json::Value::Bool(false));
        }
        _ => panic!("a method without an id is a notification"),
    }
    assert!(matches!(handle_frame(&mut pending, Ok(message(None, None))), FrameOutcome::Ignore));
    assert_eq!(pending.len(), 1);
}

#[test]
fn errors_read_as_messages() {
    assert_eq!(TransportError::FrameTooLarge { limit: 1024 }.message(), "protocol frame exceeds the configured limit of 1024 bytes");
    assert_eq!(TransportError::Timeout { timeout_ms: 10_000 }.message(), "request timed out after 10s");
    assert_eq!(TransportError::Timeout { timeout_ms: 250 }.message(), "request timed out after 250ms");
    assert_eq!(
        TransportError::Rpc { code: -32601, message: "no such method".to_string(), data: None }.message(),
        "worker error -32601: no such method"
    );
    assert_eq!(TransportError::WorkerExited.message(), "worker exited");
}

#[test]
fn timeouts_read_as_durations_do() {
    for ms in [0u64, 1, 250, 999, 1000, 1001, 1010, 1100, 1250, 1500, 1999, 10_000, 600_000, u64::MAX] {
        let expected = format!("request timed out after {:?}", std::time::Duration::from_millis(ms));
        assert_eq!(TransportError::Timeout { timeout_ms: ms }.message(), expected);
    }
}
