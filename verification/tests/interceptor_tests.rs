use dapr::error::Error;
use dapr::interceptor::{ApiTokenInterceptor, AppApiTokenLayer, AuthDecision};

#[test]
fn interceptor_rejects_invalid_metadata() {
    // \n is not a valid ASCII metadata character.
    assert!(matches!(
        ApiTokenInterceptor::try_new(Some("bad\nvalue".to_string())),
        Err(Error::InvalidMetadata)
    ));
}

#[test]
fn interceptor_without_token_carries_nothing() {
    let interceptor = ApiTokenInterceptor::new(None);
    assert!(!interceptor.has_token());
    assert_eq!(interceptor.token(), None);
}

#[test]
fn interceptor_with_empty_token_carries_nothing() {
    let interceptor = ApiTokenInterceptor::new(Some(String::new()));
    assert!(!interceptor.has_token());
}

#[test]
fn interceptor_keeps_valid_token() {
    let interceptor = ApiTokenInterceptor::new(Some("abc".to_string()));
    assert!(interceptor.has_token());
    assert_eq!(interceptor.token(), Some("abc"));
}

#[test]
fn interceptor_new_drops_invalid_token() {
    let interceptor = ApiTokenInterceptor::new(Some("bad\u{7f}".to_string()));
    assert!(!interceptor.has_token());
    let ok = ApiTokenInterceptor::try_new(Some("tab\tand ünïcode".to_string())).unwrap();
    assert!(ok.has_token());
}

#[test]
fn app_layer_permissive_when_no_token() {
    let layer = AppApiTokenLayer::new(None);
    assert!(!layer.is_enforcing());
}

#[test]
fn app_layer_enforces_when_token_set() {
    let layer = AppApiTokenLayer::new(Some("token".to_string()));
    assert!(layer.is_enforcing());
}

#[test]
fn app_layer_empty_token_is_permissive() {
    let layer = AppApiTokenLayer::new(Some(String::new()));
    assert!(!layer.is_enforcing());
}

#[test]
fn app_layer_decides_by_presented_token() {
    let service = AppApiTokenLayer::new(Some("expected".to_string())).layer(());
    match service.authorize(None) {
        AuthDecision::Reject(r) => {
            assert_eq!(r.http_status, 401);
            assert_eq!(r.grpc_status, "16");
            assert_eq!(r.grpc_message, "invalid or missing dapr-api-token");
        }
        AuthDecision::Allow => panic!("missing token must be rejected"),
    }
    assert!(matches!(service.authorize(Some("wrong")), AuthDecision::Reject(_)));
    assert_eq!(service.authorize(Some("expected")), AuthDecision::Allow);
    let open = AppApiTokenLayer::new(None).layer(());
    assert_eq!(open.authorize(None), AuthDecision::Allow);
    assert_eq!(open.authorize(Some("anything")), AuthDecision::Allow);
}

#[test]
fn interceptor_no_token_is_noop() {
    let interceptor = ApiTokenInterceptor::new(None);
    assert!(interceptor.token().is_none());
}

#[test]
fn interceptor_empty_token_is_noop() {
    let interceptor = ApiTokenInterceptor::new(Some(String::new()));
    assert!(!interceptor.has_token());
    assert!(interceptor.token().is_none());
}

#[test]
fn interceptor_injects_token() {
    let interceptor = ApiTokenInterceptor::new(Some("abc".to_string()));
    assert_eq!(interceptor.token().unwrap(), "abc");
}
