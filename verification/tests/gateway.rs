use danielek::error::{classify_close, close_bucket, CloseBucket, CloseInfo, GCError};
use danielek::protocol::{
    payload_kind, GatewayData, GatewayDispatchEventName, GatewayEvent, GatewayHelloPayload,
    GatewayIntents, GatewayOpcode, GatewayReadyPayload, PayloadKind,
};
use danielek::session::{SessionState, DISARM_INTERVAL_MS};
use danielek::shard::{
    classify_engine_error, RetryCategory, ShardSupervisor, SupervisorAction, SupervisorPhase,
    BOUNDED_ATTEMPTS, RETRY_DELAY_MS,
};

fn fresh_session(now: u64) -> SessionState {
    SessionState::new("token-abc".to_string(), GatewayIntents(513), false, now)
}

fn hello_frame(interval: i64) -> GatewayEvent {
    GatewayEvent {
        op: GatewayOpcode::HELLO,
        d: Some(GatewayData::Hello(GatewayHelloPayload { heartbeat_interval: interval })),
        s: None,
        t: None,
    }
}

fn ready_frame(session_id: &str, resume_url: &str, seq: i64) -> GatewayEvent {
    GatewayEvent {
        op: GatewayOpcode::DISPATCH,
        d: Some(GatewayData::Ready(Box::new(GatewayReadyPayload {
            v: 10,
            user_name: "scanner".to_string(),
            guilds: Vec::new(),
            session_id: session_id.to_string(),
            resume_gateway_url: resume_url.to_string(),
            shard: None,
        }))),
        s: Some(seq),
        t: Some(GatewayDispatchEventName::READY),
    }
}

#[test]
fn close_code_buckets() {
    for code in [4000u16, 4001, 4002, 4003, 4005, 4007, 4008, 4009] {
        assert_eq!(close_bucket(code), CloseBucket::Reconnectable);
    }
    for code in [4004u16, 4010, 4011, 4012, 4013, 4014] {
        assert_eq!(close_bucket(code), CloseBucket::Unreconnectable);
    }
    assert_eq!(close_bucket(1000), CloseBucket::Unexpected);
    assert_eq!(close_bucket(4006), CloseBucket::Unexpected);
    assert_eq!(close_bucket(4015), CloseBucket::Unexpected);
}

#[test]
fn hello_schedules_half_interval_and_identifies() {
    let mut s = fresh_session(0);
    let outcome = s.handle_frame(&hello_frame(41_250), 1_000).unwrap();
    // the next heartbeat is at now + interval / 2
    assert_eq!(s.heartbeat_interval, 41_250);
    assert_eq!(s.next_heartbeat, 1_000 + 41_250 / 2);
    // no resume pending: exactly one identify goes out now
    assert!(outcome.send_identify);
    // and none before the next heartbeat: the timer has not fired yet
    assert!(!s.heartbeat_due(1_001));
}

#[test]
fn hello_while_resuming_does_not_identify() {
    let mut s = fresh_session(0);
    s.handle_frame(&ready_frame("sess", "wss://x", 5), 10).unwrap();
    let outcome = s.handle_frame(&hello_frame(1_000), 20).unwrap();
    assert!(!outcome.send_identify);
}

#[test]
fn ready_captures_resume_info_and_fresh_connect_clears_it() {
    let mut s = fresh_session(0);
    assert!(s.resume_info.is_none());
    s.handle_frame(&ready_frame("sess-1", "wss://resume.example", 1), 10)
        .unwrap();
    let info = s.resume_info.as_ref().unwrap();
    assert_eq!(info.session_id, "sess-1");
    assert_eq!(info.gateway_url, "wss://resume.example");
    // a fresh (non-resume) connect discards it and renumbers the session
    assert_eq!(s.last_sequence, 1);
    s.on_fresh_connect();
    assert!(s.resume_info.is_none());
    assert_eq!(s.last_sequence, 0);
}

#[test]
fn sequence_is_non_decreasing_over_a_session() {
    let mut s = fresh_session(0);
    let mut last = s.last_sequence;
    for (op, seq) in [
        (GatewayOpcode::DISPATCH, Some(1)),
        (GatewayOpcode::DISPATCH, None),
        (GatewayOpcode::DISPATCH, Some(2)),
        (GatewayOpcode::DISPATCH, Some(5)),
        (GatewayOpcode::HEARTBEAT_ACK, None),
        (GatewayOpcode::DISPATCH, Some(9)),
    ] {
        let ev = GatewayEvent { op, d: None, s: seq, t: None };
        s.handle_frame(&ev, 0).unwrap();
        assert!(s.last_sequence >= last);
        last = s.last_sequence;
    }
    assert_eq!(s.last_sequence, 9);
}

#[test]
fn heartbeat_ack_updates_ping() {
    let mut s = fresh_session(0);
    s.on_connected(1_000);
    let ev = GatewayEvent::new(GatewayOpcode::HEARTBEAT_ACK);
    s.handle_frame(&ev, 1_250).unwrap();
    assert_eq!(s.last_ack, 1_250);
    assert_eq!(s.ping, 250);
}

#[test]
fn server_heartbeat_request_fires_immediately() {
    let mut s = fresh_session(0);
    s.on_connected(0);
    assert!(!s.heartbeat_due(100));
    let ev = GatewayEvent::new(GatewayOpcode::HEARTBEAT);
    s.handle_frame(&ev, 100).unwrap();
    assert!(s.heartbeat_due(100));
}

#[test]
fn heartbeat_carries_last_sequence_and_advances_timer() {
    let mut s = fresh_session(0);
    s.handle_frame(&hello_frame(10_000), 0).unwrap();
    let ev = GatewayEvent {
        op: GatewayOpcode::DISPATCH,
        d: None,
        s: Some(77),
        t: Some(GatewayDispatchEventName::Other),
    };
    s.handle_frame(&ev, 100).unwrap();
    let beat = s.heartbeat_event();
    assert!(matches!(beat.d, Some(GatewayData::SendHeartbeat(77))));
    let due_at = s.next_heartbeat;
    s.on_heartbeat_sent(5_000);
    assert_eq!(s.last_heartbeat, 5_000);
    assert_eq!(s.next_heartbeat, due_at + 10_000);
}

#[test]
fn reconnect_request_fails_resumably() {
    let mut s = fresh_session(0);
    let ev = GatewayEvent::new(GatewayOpcode::RECONNECT);
    let r = s.handle_frame(&ev, 0);
    assert!(matches!(r, Err(GCError::ReconnectableClose(None))));
}

#[test]
fn invalid_session_resumable_fails_resumably() {
    let mut s = fresh_session(0);
    let ev = GatewayEvent {
        op: GatewayOpcode::INVALID_SESSION,
        d: Some(GatewayData::InvalidSession(true)),
        s: None,
        t: None,
    };
    assert!(matches!(s.handle_frame(&ev, 0), Err(GCError::ReconnectableClose(None))));
}

#[test]
fn invalid_session_non_resumable_fails_unexpectedly() {
    let mut s = fresh_session(0);
    let ev = GatewayEvent {
        op: GatewayOpcode::INVALID_SESSION,
        d: Some(GatewayData::InvalidSession(false)),
        s: None,
        t: None,
    };
    assert!(matches!(s.handle_frame(&ev, 0), Err(GCError::UnexpectedClose(None))));
}

#[test]
fn liveness_check_demands_acknowledgement() {
    let mut s = fresh_session(0);
    s.on_connected(0);
    // a heartbeat goes out and is never acknowledged
    s.on_heartbeat_sent(10_000);
    assert!(!s.liveness_failed(10_001));
    assert!(!s.liveness_failed(14_999));
    assert!(s.liveness_failed(15_000));
    // an acknowledged heartbeat keeps the connection alive
    let mut s = fresh_session(0);
    s.on_connected(0);
    s.on_heartbeat_sent(10_000);
    s.handle_frame(&GatewayEvent::new(GatewayOpcode::HEARTBEAT_ACK), 10_100).unwrap();
    assert!(!s.liveness_failed(20_000));
}

#[test]
fn resume_request_needs_resume_info() {
    let s = fresh_session(0);
    assert!(matches!(s.resume_request(), Err(GCError::Misc(_))));
    let mut s = fresh_session(0);
    s.handle_frame(&ready_frame("sess-2", "wss://resume.example", 42), 0)
        .unwrap();
    let (url, ev) = s.resume_request().unwrap();
    assert_eq!(url, "wss://resume.example/?v=10&encoding=json");
    match ev.d {
        Some(GatewayData::SendResume(p)) => {
            assert_eq!(p.token, "token-abc");
            assert_eq!(p.session_id, "sess-2");
            assert_eq!(p.seq, 42);
        }
        other => panic!("expected a resume payload, got {:?}", other),
    }
}

#[test]
fn identify_event_carries_token_and_intents() {
    let s = fresh_session(0);
    let ev = s.identify_event();
    assert!(matches!(ev.op, GatewayOpcode::IDENTIFY));
    match ev.d {
        Some(GatewayData::SendIdentify(p)) => {
            assert_eq!(p.token, "token-abc");
            assert_eq!(p.intents.bits(), 513);
            assert_eq!(p.properties.os, "Windows");
            assert!(p.presence.is_none());
        }
        other => panic!("expected an identify payload, got {:?}", other),
    }
}

#[test]
fn initial_timers_are_disarmed() {
    let s = fresh_session(500);
    assert_eq!(s.next_heartbeat, 500 + DISARM_INTERVAL_MS);
    assert_eq!(s.heartbeat_interval, DISARM_INTERVAL_MS);
    assert_eq!(s.last_sequence, 0);
    assert_eq!(s.ping, 999);
}

#[test]
fn opcode_wire_values_round_trip() {
    let all = [
        GatewayOpcode::DISPATCH,
        GatewayOpcode::HEARTBEAT,
        GatewayOpcode::IDENTIFY,
        GatewayOpcode::PRESENCE_UPDATE,
        GatewayOpcode::VOICE_STATE_UPDATE,
        GatewayOpcode::RESUME,
        GatewayOpcode::RECONNECT,
        GatewayOpcode::REQUEST_GUILD_MEMBERS,
        GatewayOpcode::INVALID_SESSION,
        GatewayOpcode::HELLO,
        GatewayOpcode::HEARTBEAT_ACK,
    ];
    for op in all {
        assert_eq!(GatewayOpcode::from_value(op.value()), Some(op));
    }
    assert_eq!(GatewayOpcode::from_value(5), None);
    assert_eq!(GatewayOpcode::from_value(12), None);
    assert_eq!(GatewayOpcode::from_value(-1), None);
}

#[test]
fn payload_selection_by_envelope() {
    assert_eq!(payload_kind(GatewayOpcode::HELLO, None, true), Some(PayloadKind::Hello));
    assert_eq!(
        payload_kind(GatewayOpcode::HEARTBEAT, None, false),
        None,
        "a payload-less heartbeat carries nothing to decode"
    );
    assert_eq!(
        payload_kind(GatewayOpcode::HEARTBEAT, None, true),
        Some(PayloadKind::SendHeartbeat)
    );
    assert_eq!(
        payload_kind(GatewayOpcode::DISPATCH, Some(GatewayDispatchEventName::READY), true),
        Some(PayloadKind::Ready)
    );
    assert_eq!(
        payload_kind(GatewayOpcode::DISPATCH, Some(GatewayDispatchEventName::MESSAGE_CREATE), true),
        Some(PayloadKind::MessageCreate)
    );
    // an unknown dispatch decodes to nothing rather than an error
    assert_eq!(
        payload_kind(GatewayOpcode::DISPATCH, Some(GatewayDispatchEventName::Other), true),
        None
    );
    assert_eq!(payload_kind(GatewayOpcode::DISPATCH, None, true), None);
    assert_eq!(payload_kind(GatewayOpcode::HEARTBEAT_ACK, None, false), None);
}

#[test]
fn error_classification_for_retry() {
    assert_eq!(
        classify_engine_error(&GCError::ReconnectableClose(None)),
        RetryCategory::Resume
    );
    assert_eq!(classify_engine_error(&GCError::NoHeartbeat), RetryCategory::Resume);
    assert_eq!(
        classify_engine_error(&GCError::UnreconnectableClose(CloseInfo {
            code: 4004,
            reason: "Authentication failed.".to_string(),
        })),
        RetryCategory::Terminal
    );
    assert_eq!(
        classify_engine_error(&GCError::Deserialization("bad frame".to_string())),
        RetryCategory::Terminal
    );
    assert_eq!(
        classify_engine_error(&GCError::InternalChannelError("closed".to_string())),
        RetryCategory::Terminal
    );
    assert_eq!(classify_engine_error(&GCError::Shutdown), RetryCategory::ShutdownStop);
    assert_eq!(
        classify_engine_error(&GCError::UnexpectedClose(None)),
        RetryCategory::Reconnect
    );
    assert_eq!(
        classify_engine_error(&GCError::WSInternal("reset".to_string())),
        RetryCategory::Reconnect
    );
}

#[test]
fn close_4004_stops_the_shard_permanently() {
    let frame = CloseInfo { code: 4004, reason: "Authentication failed.".to_string() };
    let err = classify_close(Some(frame));
    assert!(matches!(err, GCError::UnreconnectableClose(_)));
    let mut sup = ShardSupervisor::new(false);
    let action = sup.on_engine_error(&err);
    // the terminal error is published, the stream ends, and no resume or
    // reconnect attempt is ever made
    assert_eq!(action, SupervisorAction::PublishAndStop);
    assert_eq!(sup.phase, SupervisorPhase::Stopped);
}

#[test]
fn close_4000_resumes_and_a_third_success_ends_the_series() {
    let frame = CloseInfo { code: 4000, reason: "Unknown error".to_string() };
    let err = classify_close(Some(frame));
    assert!(matches!(err, GCError::ReconnectableClose(Some(_))));
    let mut sup = ShardSupervisor::new(false);
    // the first attempt is immediate
    assert_eq!(sup.on_engine_error(&err), SupervisorAction::AttemptResume { delay_ms: 0 });
    // two failures: each next attempt waits the fixed three seconds
    assert_eq!(
        sup.on_attempt_outcome(false),
        SupervisorAction::AttemptResume { delay_ms: RETRY_DELAY_MS }
    );
    assert_eq!(
        sup.on_attempt_outcome(false),
        SupervisorAction::AttemptResume { delay_ms: RETRY_DELAY_MS }
    );
    // the third attempt succeeds: steady state resumes, no further attempts
    assert_eq!(sup.on_attempt_outcome(true), SupervisorAction::RunEngine);
    assert_eq!(sup.phase, SupervisorPhase::Running);
}

#[test]
fn five_failed_resumes_stop_a_non_forcing_shard() {
    let mut sup = ShardSupervisor::new(false);
    let err = GCError::ReconnectableClose(None);
    let mut attempts = 0u64;
    let mut action = sup.on_engine_error(&err);
    loop {
        match action {
            SupervisorAction::AttemptResume { .. } => {
                attempts += 1;
                action = sup.on_attempt_outcome(false);
            }
            SupervisorAction::PublishAndStop => break,
            other => panic!("unexpected action {:?}", other),
        }
    }
    assert_eq!(attempts, BOUNDED_ATTEMPTS);
    assert_eq!(sup.phase, SupervisorPhase::Stopped);
}

#[test]
fn force_reconnect_never_gives_up() {
    let mut sup = ShardSupervisor::new(true);
    let err = GCError::ReconnectableClose(None);
    let mut action = sup.on_engine_error(&err);
    // exhaust the resume budget
    for _ in 0..BOUNDED_ATTEMPTS {
        assert!(matches!(action, SupervisorAction::AttemptResume { .. }));
        action = sup.on_attempt_outcome(false);
    }
    // then it keeps reconnecting at the same cadence instead of stopping
    for _ in 0..10 {
        assert_eq!(
            action,
            SupervisorAction::AttemptReconnect { delay_ms: RETRY_DELAY_MS }
        );
        action = sup.on_attempt_outcome(false);
    }
    assert_eq!(sup.phase, SupervisorPhase::ForceReconnecting);
    // until one attempt succeeds
    assert_eq!(sup.on_attempt_outcome(true), SupervisorAction::RunEngine);
    assert_eq!(sup.phase, SupervisorPhase::Running);
}

#[test]
fn unexpected_close_reconnects_afresh() {
    let mut sup = ShardSupervisor::new(false);
    let err = classify_close(None);
    assert!(matches!(err, GCError::UnexpectedClose(None)));
    assert_eq!(
        sup.on_engine_error(&err),
        SupervisorAction::AttemptReconnect { delay_ms: 0 }
    );
}

#[test]
fn shutdown_publishes_and_stops() {
    let mut sup = ShardSupervisor::new(true);
    assert_eq!(sup.on_engine_error(&GCError::Shutdown), SupervisorAction::PublishAndStop);
    assert_eq!(sup.phase, SupervisorPhase::Stopped);
}

#[test]
fn error_messages() {
    let e = GCError::NoHeartbeat;
    assert_eq!(e.message(), "Didn't receive a Heartbeat ACK in time");
    let e = GCError::UnreconnectableClose(CloseInfo {
        code: 4004,
        reason: "Authentication failed.".to_string(),
    });
    assert_eq!(
        e.message(),
        "The connection with the gateway was remotely closed: 4004: Authentication failed."
    );
    let e = GCError::Misc("anything".to_string());
    assert_eq!(e.message(), "anything");
}

#[test]
fn close_frames_are_written_as_code_and_reason() {
    let f = CloseInfo { code: 4000, reason: "Unknown error".to_string() };
    assert_eq!(danielek::error::close_text(&f), "4000: Unknown error");
}

#[test]
fn more_error_messages() {
    assert_eq!(
        GCError::Shutdown.message(),
        "The connection thread should shut down, this error should've been handled"
    );
    assert_eq!(
        GCError::ConnectError("refused".to_string()).message(),
        "Connecting with the remote websocket failed: refused"
    );
    assert_eq!(
        GCError::ReconnectableClose(None).message(),
        "The connection dropped or should drop, however it should be Resumed"
    );
    assert_eq!(
        GCError::Deserialization("bad json".to_string()).message(),
        "Could not deserialize GatewayEvent: bad json"
    );
}

#[test]
fn wss_urls_carry_the_protocol_version() {
    assert_eq!(
        danielek::session::wss_url_with_version("wss://entry.example"),
        "wss://entry.example/?v=10"
    );
}

#[test]
fn plain_dispatch_frames_only_move_the_sequence() {
    let mut s = fresh_session(0);
    s.handle_frame(&hello_frame(20_000), 0).unwrap();
    let before_beat = s.next_heartbeat;
    let ev = GatewayEvent {
        op: GatewayOpcode::DISPATCH,
        d: None,
        s: Some(3),
        t: Some(GatewayDispatchEventName::Other),
    };
    let outcome = s.handle_frame(&ev, 500).unwrap();
    assert!(!outcome.send_identify);
    assert_eq!(s.last_sequence, 3);
    assert_eq!(s.next_heartbeat, before_beat);
    assert!(s.resume_info.is_none());
}
