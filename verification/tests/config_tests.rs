use dapr::config::{
    default_sidecar_address, ClientEnv, ClientOptions, DEFAULT_CLIENT_TIMEOUT_SECONDS,
};
use dapr::duration::Duration;
use dapr::error::Error;

fn env(
    endpoint: Option<&str>,
    port: Option<&str>,
    token: Option<&str>,
    timeout: Option<&str>,
) -> ClientEnv {
    ClientEnv {
        grpc_endpoint: endpoint.map(|s| s.to_string()),
        grpc_port: port.map(|s| s.to_string()),
        api_token: token.map(|s| s.to_string()),
        client_timeout_seconds: timeout.map(|s| s.to_string()),
    }
}

fn unset() -> ClientEnv {
    env(None, None, None, None)
}

#[test]
fn default_address_uses_built_in_default_when_unset() {
    assert_eq!(default_sidecar_address(&unset()), "http://127.0.0.1:50001");
}

#[test]
fn default_address_uses_port_env() {
    assert_eq!(
        default_sidecar_address(&env(None, Some("12345"), None, None)),
        "http://127.0.0.1:12345"
    );
}

#[test]
fn default_address_prefers_endpoint_env() {
    assert_eq!(
        default_sidecar_address(&env(Some("https://sidecar:443?tls=true"), Some("12345"), None, None)),
        "https://sidecar:443?tls=true"
    );
}

#[test]
fn default_address_ignores_empty_variables() {
    assert_eq!(
        default_sidecar_address(&env(Some(""), Some(""), None, None)),
        "http://127.0.0.1:50001"
    );
}

#[test]
fn options_from_env_reads_token_and_timeout() {
    let opts = ClientOptions::from_env(&env(
        Some("http://1.2.3.4:50001"),
        None,
        Some("tok"),
        Some("17"),
    ))
    .unwrap();
    assert_eq!(opts.address(), "http://1.2.3.4:50001");
    assert_eq!(opts.api_token(), Some("tok"));
    assert_eq!(opts.timeout(), Duration::from_secs(17));
}

#[test]
fn options_from_env_rejects_invalid_timeout() {
    assert!(matches!(
        ClientOptions::from_env(&env(None, None, None, Some("not-a-number"))),
        Err(Error::ParseIntError)
    ));
}

#[test]
fn options_from_env_rejects_zero_timeout() {
    assert!(matches!(
        ClientOptions::from_env(&env(None, None, None, Some("0"))),
        Err(Error::ParseIntError)
    ));
}

#[test]
fn options_default_falls_back_on_invalid_timeout() {
    let opts = ClientOptions::new(&env(None, None, None, Some("nope")));
    assert_eq!(
        opts.timeout(),
        Duration::from_secs(DEFAULT_CLIENT_TIMEOUT_SECONDS)
    );
}

#[test]
fn options_timeout_accepts_plus_sign_and_empty_means_default() {
    let opts = ClientOptions::from_env(&env(None, None, None, Some("+9"))).unwrap();
    assert_eq!(opts.timeout(), Duration::from_secs(9));
    let opts = ClientOptions::from_env(&env(None, None, None, Some(""))).unwrap();
    assert_eq!(opts.timeout(), Duration::from_secs(5));
    assert!(ClientOptions::from_env(&env(None, None, None, Some("99999999999999999999"))).is_err());
}

#[test]
fn options_empty_token_variable_means_no_token() {
    let opts = ClientOptions::new(&env(None, None, Some(""), None));
    assert_eq!(opts.api_token(), None);
}

#[test]
fn builder_overrides_take_precedence() {
    let opts = ClientOptions::new(&unset())
        .with_address("http://override:1234")
        .with_api_token("abc")
        .with_timeout(Duration::from_secs(42));
    assert_eq!(opts.address(), "http://override:1234");
    assert_eq!(opts.api_token(), Some("abc"));
    assert_eq!(opts.timeout(), Duration::from_secs(42));
}

#[test]
fn empty_api_token_clears() {
    let opts = ClientOptions::new(&unset())
        .with_api_token("abc")
        .with_api_token("");
    assert_eq!(opts.api_token(), None);
}

#[test]
fn without_api_token_clears() {
    let opts = ClientOptions::new(&env(None, None, Some("tok"), None)).without_api_token();
    assert_eq!(opts.api_token(), None);
}

#[test]
fn duration_parts_and_ordering() {
    let d = Duration::from_millis(1500);
    assert_eq!(d.as_secs(), 1);
    assert_eq!(d.subsec_nanos(), 500_000_000);
    assert_eq!(d.double(), Duration::from_secs(3));
    assert_eq!(d.min(Duration::from_secs(1)), Duration::from_secs(1));
    assert!(Duration::from_secs(1).le(&d));
    assert_eq!(Duration::new(2, 5).subsec_nanos(), 5);
}

#[test]
fn duration_new_carries_whole_seconds_like_std() {
    let d = Duration::new(1, 2_500_000_000);
    let s = std::time::Duration::new(1, 2_500_000_000);
    assert_eq!(d.as_secs(), s.as_secs());
    assert_eq!(d.subsec_nanos(), s.subsec_nanos());
    assert_eq!((d.as_secs(), d.subsec_nanos()), (3, 500_000_000));
}
