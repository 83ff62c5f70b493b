use std::time::Duration;
use zinit_client::models::{parse_service_state, parse_service_target};
use zinit_client::retry::RetryDelay;
use zinit_client::{
    JsonNumber, JsonValue, Protocol, RetryStrategy, ServerCapabilities, ServiceState, ServiceTarget,
    ZinitError,
};

const STATES: [ServiceState; 7] = [
    ServiceState::Unknown,
    ServiceState::Blocked,
    ServiceState::Spawned,
    ServiceState::Running,
    ServiceState::Success,
    ServiceState::Error,
    ServiceState::TestFailure,
];

#[test]
fn state_names_round_trip() {
    for st in STATES {
        assert_eq!(parse_service_state(&st.to_string()), st);
    }
    assert_eq!(ServiceState::TestFailure.to_string(), "TestFailure");
    assert_eq!(parse_service_state("running"), ServiceState::Unknown);
    for t in [ServiceTarget::Up, ServiceTarget::Down] {
        assert_eq!(parse_service_target(&t.to_string()), t);
    }
    assert_eq!(parse_service_target("up"), ServiceTarget::Down);
}

#[test]
fn protocol_names() {
    assert_eq!(Protocol::JsonRpc.to_string(), "JSON-RPC");
    assert_eq!(Protocol::RawCommands.to_string(), "Raw Commands");
}

#[test]
fn capabilities() {
    let full = ServerCapabilities::full();
    assert!(full.supports_create && full.supports_delete && full.supports_http_server);
    let legacy = ServerCapabilities::legacy();
    assert!(!legacy.supports_create && !legacy.supports_stats && legacy.supports_log_streaming);
    assert_eq!(ServerCapabilities::for_protocol(Protocol::JsonRpc), full);
    assert_eq!(ServerCapabilities::for_protocol(Protocol::RawCommands), legacy);
}

#[test]
fn json_accessors() {
    let v = JsonValue::Object(vec![
        ("a".to_string(), JsonValue::Number(JsonNumber::PosInt(3))),
        ("b".to_string(), JsonValue::String("x".to_string())),
        ("c".to_string(), JsonValue::Number(JsonNumber::Float("1.5".to_string()))),
    ]);
    assert_eq!(v.get("a").and_then(|x| x.as_u64()), Some(3));
    assert_eq!(v.get("b").and_then(|x| x.as_str()).map(|s| s.as_str()), Some("x"));
    assert_eq!(v.get("c").and_then(|x| x.as_u64()), None);
    assert!(v.get("d").is_none());
    assert!(v.as_object().is_some());
    assert!(JsonValue::Null.get("a").is_none());
}

fn strategy(max: usize, base: u64, cap: u64, jitter: bool) -> RetryStrategy {
    RetryStrategy::new(max, Duration::from_millis(base), Duration::from_millis(cap), jitter)
}

#[test]
fn backoff_doubles_up_to_the_cap() {
    let s = strategy(10, 100, 1000, false);
    assert_eq!(s.backoff(1), 100);
    assert_eq!(s.backoff(2), 200);
    assert_eq!(s.backoff(4), 800);
    assert_eq!(s.backoff(5), 1000);
    assert_eq!(s.calculate_delay(3), RetryDelay::Exact(400));
    assert_eq!(strategy(10, 100, 1000, true).calculate_delay(3), RetryDelay::Jittered(400));
}

#[test]
fn delay_computation_limits() {
    let s = strategy(200, 1, 10, false);
    assert!(s.can_compute_delay(128));
    assert!(!s.can_compute_delay(129));
    assert!(!s.can_compute_delay(0));
    let s = strategy(200, 4, 10, false);
    assert!(!s.can_compute_delay(127));
    assert!(s.can_compute_delay(126));
}

#[test]
fn retry_decisions() {
    let s = strategy(2, 100, 5000, false);
    assert!(matches!(s.after_failure(1, ZinitError::ShuttingDown), Err(ZinitError::ShuttingDown)));
    assert!(matches!(
        s.after_failure(1, ZinitError::UnknownService("x".to_string())),
        Err(ZinitError::UnknownService(n)) if n == "x"
    ));
    assert_eq!(s.after_failure(1, ZinitError::ProtocolError("p".to_string())).unwrap(), RetryDelay::Exact(100));
    assert_eq!(s.after_failure(2, ZinitError::ProtocolError("p".to_string())).unwrap(), RetryDelay::Exact(200));
    assert!(matches!(
        s.after_failure(3, ZinitError::ProtocolError("p".to_string())),
        Err(ZinitError::RetryLimitReached(2))
    ));
}

#[test]
fn default_strategy() {
    let s = RetryStrategy::default();
    assert_eq!(s.max_retries(), 3);
    assert!(s.jitter());
    assert_eq!(s.backoff(1), 100);
    assert_eq!(s.backoff(3), 400);
}
