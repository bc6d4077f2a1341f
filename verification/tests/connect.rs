use ws_pool::{
    connect_target, handshake_headers, is_secure_scheme, make_request, plan_connect,
    tls_server_name, StartError,
};

#[test]
fn wss_defaults_to_443_over_tls() {
    let t = plan_connect("wss", Some("example.com"), Some("example.com"), None).unwrap();
    assert_eq!(t.host, "example.com");
    assert_eq!(t.domain, "example.com");
    assert_eq!(t.port, 443);
    assert!(t.use_tls);
}

#[test]
fn ws_defaults_to_80_in_clear() {
    let t = plan_connect("ws", Some("h.org"), Some("h.org"), None).unwrap();
    assert_eq!(t.port, 80);
    assert!(!t.use_tls);
}

#[test]
fn explicit_port_wins() {
    let t = plan_connect("wss", Some("h.org"), Some("h.org"), Some(8443)).unwrap();
    assert_eq!(t.port, 8443);
    assert!(t.use_tls);
}

#[test]
fn no_host_is_refused() {
    assert!(matches!(plan_connect("ws", None, None, Some(1)), Err(StartError::NoHost)));
}

#[test]
fn no_domain_is_refused() {
    assert!(matches!(
        plan_connect("ws", Some("127.0.0.1"), None, None),
        Err(StartError::NoDomain)
    ));
}

#[test]
fn scheme_test() {
    assert!(is_secure_scheme("wss"));
    assert!(!is_secure_scheme("ws"));
    assert!(!is_secure_scheme("wsss"));
    assert!(!is_secure_scheme("WSS"));
}

#[test]
fn target_of_parsed_url() {
    let url = url::Url::parse("wss://stream.example.com/feed").unwrap();
    let t = connect_target(&url).unwrap();
    assert_eq!(t.host, "stream.example.com");
    assert_eq!(t.port, 443);
    assert!(t.use_tls);

    let url = url::Url::parse("ws://localhost:9001/").unwrap();
    let t = connect_target(&url).unwrap();
    assert_eq!(t.host, "localhost");
    assert_eq!(t.port, 9001);
    assert!(!t.use_tls);

    let url = url::Url::parse("ws://10.0.0.1:9001/").unwrap();
    assert!(matches!(connect_target(&url), Err(StartError::NoDomain)));
}

#[test]
fn headers_in_order() {
    let h = handshake_headers("example.com", "dGhlIHNhbXBsZSBub25jZQ==");
    let expected = vec![
        ("Host", "example.com"),
        ("upgrade", "websocket"),
        ("connection", "upgrade"),
        ("Sec-WebSocket-Key", "dGhlIHNhbXBsZSBub25jZQ=="),
        ("Sec-WebSocket-Version", "13"),
    ];
    let got: Vec<(&str, &str)> = h.iter().map(|(n, v)| (n.as_str(), v.as_str())).collect();
    assert_eq!(got, expected);
}

#[test]
fn request_carries_handshake() {
    let url = url::Url::parse("wss://example.com/chat?x=1").unwrap();
    let req = make_request(&url, "example.com").unwrap();
    assert_eq!(req.method, "GET");
    assert_eq!(req.uri, "wss://example.com/chat?x=1");
    assert_eq!(req.headers.len(), 5);
    assert_eq!(req.headers[0], ("Host".to_string(), "example.com".to_string()));
    assert_eq!(req.headers[1], ("upgrade".to_string(), "websocket".to_string()));
    assert_eq!(req.headers[2], ("connection".to_string(), "upgrade".to_string()));
    assert_eq!(req.headers[3].0, "Sec-WebSocket-Key");
    assert_eq!(req.headers[3].1.len(), 24);
    assert!(req.headers[3].1.ends_with("=="));
    assert_eq!(req.headers[4], ("Sec-WebSocket-Version".to_string(), "13".to_string()));
}

#[test]
fn requests_differ_in_key_only() {
    let url = url::Url::parse("ws://example.com/chat").unwrap();
    let a = make_request(&url, "example.com").unwrap();
    let b = make_request(&url, "example.com").unwrap();
    assert_eq!(a.method, b.method);
    assert_eq!(a.uri, b.uri);
    for i in [0, 1, 2, 4] {
        assert_eq!(a.headers[i], b.headers[i]);
    }
}

#[test]
fn host_that_is_no_header_value_fails() {
    let url = url::Url::parse("wss://example.com/").unwrap();
    assert!(make_request(&url, "example.com\r\nX: y").is_err());
    assert!(make_request(&url, "exa\u{7f}mple.com").is_err());
    assert!(make_request(&url, "exa mple.com\t").is_ok());
}

#[test]
fn server_names() {
    assert!(tls_server_name("example.com").is_ok());
    assert!(tls_server_name("127.0.0.1").is_ok());
    match tls_server_name("not a name!") {
        Err(StartError::Io(e)) => assert_eq!(e.kind(), std::io::ErrorKind::InvalidInput),
        _ => panic!("expected an I/O error"),
    }
}

#[test]
fn server_name_is_the_domain() {
    let expected = tokio_rustls::rustls::pki_types::ServerName::try_from("stream.example.com").unwrap().to_owned();
    assert_eq!(tls_server_name("stream.example.com").unwrap(), expected);
    assert_ne!(tls_server_name("other.example.com").unwrap(), expected);
}
