use http_send::request::Request;

#[test]
fn new_request_sets_nothing_else() {
    let data = Request::new("http://example.org/x".to_string(), reqwest::Method::POST);
    assert_eq!(data.url, "http://example.org/x");
    assert_eq!(data.method, reqwest::Method::POST);
    assert!(data.body.is_none() && data.raw_body.is_none() && data.headers.is_none());
    assert!(data.enable_redirect.is_none() && data.timeout.is_none());
    assert!(data.force_json_decode.is_none() && data.force_yaml_decode.is_none());
    assert!(data.cache.is_none() && data.force_cache.is_none());
    assert!(data.raise_error.is_none() && data.max_retry_attempts.is_none());
    assert!(data.tls_ca_cert.is_none() && data.caching_mode.is_none());
}
