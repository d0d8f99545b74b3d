use yaak_app::uri::safe_uri;

#[test]
fn endpoint_without_scheme_goes_over_http() {
    assert_eq!(safe_uri("localhost:50051"), "http://localhost:50051");
    assert_eq!(safe_uri(""), "http://");
    assert_eq!(safe_uri("grpc://host"), "http://grpc://host");
}

#[test]
fn endpoint_with_scheme_is_kept() {
    assert_eq!(safe_uri("http://localhost:50051"), "http://localhost:50051");
    assert_eq!(safe_uri("https://example.com"), "https://example.com");
}

#[test]
fn schemes_are_told_by_their_case() {
    assert_eq!(safe_uri("HTTP://host"), "http://HTTP://host");
    assert_eq!(safe_uri("http:/host"), "http://http:/host");
}

#[test]
fn address_is_its_own_address() {
    for endpoint in ["localhost", "http://a", "https://b", "", "http:", "\u{e9}t\u{e9}"] {
        let once = safe_uri(endpoint);
        assert_eq!(safe_uri(&once), once);
        assert!(once.starts_with("http://") || once.starts_with("https://"));
    }
}
