use dapr::config::ClientEnv;
use dapr::workflow::{default_sidecar_address, ensure_url_scheme, FetchOptions};

#[test]
fn ensure_url_scheme_preserves_http() {
    assert_eq!(
        ensure_url_scheme("http://127.0.0.1:50001".to_string()),
        "http://127.0.0.1:50001"
    );
}

#[test]
fn ensure_url_scheme_preserves_https() {
    assert_eq!(
        ensure_url_scheme("https://sidecar:443".to_string()),
        "https://sidecar:443"
    );
}

#[test]
fn ensure_url_scheme_prepends_when_missing() {
    assert_eq!(
        ensure_url_scheme("sidecar:50001".to_string()),
        "http://sidecar:50001"
    );
}

#[test]
fn ensure_url_scheme_prepends_for_bare_host() {
    assert_eq!(
        ensure_url_scheme("127.0.0.1".to_string()),
        "http://127.0.0.1"
    );
}

#[test]
fn ensure_url_scheme_is_idempotent() {
    let once = ensure_url_scheme("sidecar:1".to_string());
    assert_eq!(ensure_url_scheme(once.clone()), once);
}

#[test]
fn workflow_address_adds_scheme_to_endpoint() {
    let env = ClientEnv {
        grpc_endpoint: Some("sidecar:9000".to_string()),
        grpc_port: None,
        api_token: None,
        client_timeout_seconds: None,
    };
    assert_eq!(default_sidecar_address(&env), "http://sidecar:9000");
}

#[test]
fn fetch_options_with_fetch_payloads_toggles() {
    let opts = FetchOptions::new();
    assert!(!opts.fetch_payloads);
    let opts = opts.with_fetch_payloads(true);
    assert!(opts.fetch_payloads);
}
