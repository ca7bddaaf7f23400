use danielek::limits::{MissingResourceId, RateLimitGate, RateLimitScope};
use danielek::request::{
    on_response_status, parse_scope, parse_u64, retry_at, status_class, DApiError, RequestStep,
    StatusClass,
};

#[test]
fn fresh_gate_blocks_nothing() {
    let mut gate = RateLimitGate::new();
    assert_eq!(gate.poll_global(5), None);
    assert_eq!(gate.poll_resource(42, 5), None);
}

#[test]
fn resource_limit_delays_same_resource_until_deadline() {
    let mut gate = RateLimitGate::new();
    gate.record_limit(RateLimitScope::Resource, Some(42), 10_000)
        .unwrap();
    // before the deadline: wait until exactly the deadline
    assert_eq!(gate.poll_resource(42, 9_999), Some(10_000));
    // at the deadline: proceed, and the deadline is cleared
    assert_eq!(gate.poll_resource(42, 10_000), None);
    assert_eq!(gate.poll_resource(42, 10_000), None);
}

#[test]
fn resource_limit_does_not_delay_other_resources() {
    let mut gate = RateLimitGate::new();
    gate.record_limit(RateLimitScope::Resource, Some(42), 10_000)
        .unwrap();
    assert_eq!(gate.poll_resource(7, 0), None);
    assert_eq!(gate.poll_global(0), None);
}

#[test]
fn global_limit_delays_everything() {
    let mut gate = RateLimitGate::new();
    gate.record_limit(RateLimitScope::Global, None, 30_000).unwrap();
    assert_eq!(gate.poll_global(100), Some(30_000));
    assert_eq!(gate.poll_global(29_999), Some(30_000));
    // once passed, the next wait clears it, never leaving it stale
    assert_eq!(gate.poll_global(30_000), None);
    assert_eq!(gate.poll_global(30_001), None);
}

#[test]
fn user_scope_sets_the_global_deadline() {
    let mut gate = RateLimitGate::new();
    gate.record_limit(RateLimitScope::User, Some(42), 500).unwrap();
    assert_eq!(gate.poll_global(0), Some(500));
    assert_eq!(gate.poll_resource(42, 0), None);
}

#[test]
fn resource_scope_without_id_is_a_config_error() {
    let mut gate = RateLimitGate::new();
    assert_eq!(gate.poll_resource(9, 0), None);
    let r = gate.record_limit(RateLimitScope::Resource, None, 99_999);
    assert_eq!(r, Err(MissingResourceId));
    // the limiter is unchanged: nothing was silently delayed or dropped
    assert_eq!(gate.poll_global(0), None);
    assert_eq!(gate.poll_resource(9, 0), None);
}

#[test]
fn status_classes() {
    assert_eq!(status_class(200), StatusClass::Success);
    assert_eq!(status_class(201), StatusClass::Success);
    assert_eq!(status_class(204), StatusClass::NoContent);
    assert_eq!(status_class(400), StatusClass::Failure);
    assert_eq!(status_class(404), StatusClass::Failure);
    assert_eq!(status_class(429), StatusClass::TooManyRequests);
    assert_eq!(status_class(500), StatusClass::Failure);
}

#[test]
fn no_content_decodes_without_parsing() {
    let mut gate = RateLimitGate::new();
    let step = on_response_status(&mut gate, 204, None, None, None, 0);
    assert!(matches!(step, RequestStep::NoContent));
}

#[test]
fn success_decodes_the_body() {
    let mut gate = RateLimitGate::new();
    let step = on_response_status(&mut gate, 200, None, None, Some(1), 0);
    assert!(matches!(step, RequestStep::DecodeBody));
}

#[test]
fn error_status_decodes_the_error_body() {
    let mut gate = RateLimitGate::new();
    let step = on_response_status(&mut gate, 403, None, None, None, 0);
    assert!(matches!(step, RequestStep::DecodeErrorBody));
}

#[test]
fn throttle_with_channel_scope_records_and_retries() {
    let mut gate = RateLimitGate::new();
    let step = on_response_status(&mut gate, 429, Some("channel"), Some("3"), Some(42), 1_000);
    assert!(matches!(step, RequestStep::Retry));
    // the bucket now delays the same resource until now + 3 s
    assert_eq!(gate.poll_resource(42, 1_001), Some(4_000));
    // and a different resource is untouched
    assert_eq!(gate.poll_resource(7, 1_001), None);
}

#[test]
fn throttle_with_global_scope_records_and_retries() {
    let mut gate = RateLimitGate::new();
    let step = on_response_status(&mut gate, 429, Some("global"), Some("2"), None, 500);
    assert!(matches!(step, RequestStep::Retry));
    assert_eq!(gate.poll_global(600), Some(2_500));
}

#[test]
fn resource_scoped_throttle_without_id_fails_without_retry() {
    let mut gate = RateLimitGate::new();
    let step = on_response_status(&mut gate, 429, Some("shared"), Some("5"), None, 0);
    match step {
        RequestStep::Fail(DApiError::ParsingResponse(_)) => {}
        other => panic!("expected a parse failure, got {:?}", other),
    }
    // nothing was recorded
    assert_eq!(gate.poll_global(0), None);
}

#[test]
fn throttle_without_headers_just_retries() {
    let mut gate = RateLimitGate::new();
    let step = on_response_status(&mut gate, 429, None, Some("5"), Some(1), 0);
    assert!(matches!(step, RequestStep::Retry));
    let step = on_response_status(&mut gate, 429, Some("channel"), None, Some(1), 0);
    assert!(matches!(step, RequestStep::Retry));
    assert_eq!(gate.poll_resource(1, 0), None);
}

#[test]
fn throttle_with_junk_retry_after_fails() {
    let mut gate = RateLimitGate::new();
    let step = on_response_status(&mut gate, 429, Some("channel"), Some("soon"), Some(1), 0);
    assert!(matches!(step, RequestStep::Fail(DApiError::ParsingResponse(_))));
}

#[test]
fn scope_parsing() {
    assert_eq!(parse_scope("user"), RateLimitScope::User);
    assert_eq!(parse_scope("global"), RateLimitScope::Global);
    assert_eq!(parse_scope("channel"), RateLimitScope::Resource);
    assert_eq!(parse_scope("shared"), RateLimitScope::Resource);
    assert_eq!(parse_scope(""), RateLimitScope::Resource);
    assert_eq!(parse_scope("User"), RateLimitScope::Resource);
}

#[test]
fn integer_header_parsing() {
    assert_eq!(parse_u64("0"), Some(0));
    assert_eq!(parse_u64("64"), Some(64));
    assert_eq!(parse_u64("18446744073709551615"), Some(u64::MAX));
    assert_eq!(parse_u64("18446744073709551616"), None);
    assert_eq!(parse_u64(""), None);
    assert_eq!(parse_u64("12a"), None);
    assert_eq!(parse_u64("-5"), None);
    assert_eq!(parse_u64(" 5"), None);
}

#[test]
fn retry_deadline_saturates() {
    assert_eq!(retry_at(1_000, 3), 4_000);
    assert_eq!(retry_at(u64::MAX - 500, 1), u64::MAX);
    assert_eq!(retry_at(0, u64::MAX), u64::MAX);
}

#[test]
fn dapi_error_messages() {
    let e = DApiError::ApiErrorWithoutBody(404);
    assert_eq!(e.message(), "Http error: 404");
    let e = DApiError::Requesting("timed out".to_string());
    assert_eq!(e.message(), "Http request error: timed out");
}

#[test]
fn more_dapi_error_messages() {
    let e = DApiError::Instantiation("no runtime".to_string());
    assert_eq!(
        e.message(),
        "An error occured while trying to create the client: no runtime"
    );
    let e = DApiError::ParsingResponse("trailing characters".to_string());
    assert_eq!(
        e.message(),
        "An error has occured while trying to parse the http response: trailing characters"
    );
    let e = DApiError::ApiError(danielek::types::DiscordApiError {
        code: 50001,
        message: "Missing Access".to_string(),
        errors: None,
    });
    assert_eq!(e.message(), "Discord API Error: Missing Access");
}
