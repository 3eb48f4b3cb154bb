use dapr::duration::Duration;
use dapr::server_http::{
    dapr_grpc_port, listen_address, sidecar_address_for_port, ConnectRetry, RetryStep,
    MAX_CONNECT_ATTEMPTS,
};

#[test]
fn http_server_defaults_to_standard_dapr_grpc_port() {
    assert_eq!(dapr_grpc_port(None), Some(dapr::config::DEFAULT_DAPR_GRPC_PORT));
}

#[test]
fn http_server_honors_dapr_grpc_port_override() {
    assert_eq!(dapr_grpc_port(Some("12345")), Some(12345));
}

#[test]
fn http_server_refuses_a_port_that_is_not_a_number() {
    assert_eq!(dapr_grpc_port(Some("not-a-port")), None);
}

#[test]
fn sidecar_address_is_local_http() {
    assert_eq!(sidecar_address_for_port(50001), "http://127.0.0.1:50001");
}

#[test]
fn listen_address_prefers_the_given_port() {
    assert_eq!(listen_address(Some(3000), Some("4000")), "127.0.0.1:3000");
    assert_eq!(listen_address(None, Some("4000")), "127.0.0.1:4000");
    assert_eq!(listen_address(None, Some("oops")), "127.0.0.1:8080");
    assert_eq!(listen_address(None, None), "127.0.0.1:8080");
}

#[test]
fn retry_delays_double_up_to_two_seconds_and_stop_after_ten_attempts() {
    let mut state = ConnectRetry::start();
    let mut delays: Vec<Duration> = Vec::new();
    loop {
        match state.after_failure() {
            RetryStep::RetryAfter { delay, next } => {
                delays.push(delay);
                assert_eq!(next.attempt_number(), state.attempt_number() + 1);
                state = next;
            }
            RetryStep::GiveUp => break,
        }
    }
    assert_eq!(state.attempt_number(), MAX_CONNECT_ATTEMPTS);
    let millis: Vec<u64> = delays
        .iter()
        .map(|d| d.as_secs() * 1000 + u64::from(d.subsec_nanos()) / 1_000_000)
        .collect();
    assert_eq!(millis, vec![500, 1000, 2000, 2000, 2000, 2000, 2000, 2000, 2000]);
}
