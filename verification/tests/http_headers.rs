use miracle_backend::http::security_headers;

#[test]
fn hsts_is_sent_only_when_enabled() {
    let local = security_headers(false);
    assert_eq!(
        local,
        vec![
            ("x-content-type-options", "nosniff"),
            ("x-frame-options", "DENY"),
            ("referrer-policy", "no-referrer"),
        ]
    );
    let deployed = security_headers(true);
    assert_eq!(deployed.len(), 4);
    assert_eq!(&deployed[..3], &local[..]);
    assert_eq!(deployed[3], ("strict-transport-security", "max-age=63072000; includeSubDomains"));
}
