use pumas_core::error::PumasError;
use pumas_core::rpc_access::{is_allowed_cors_origin, is_loopback_origin, IpAddress, LoopbackHost, UrlHost, UrlParts};

fn message(r: Result<LoopbackHost, PumasError>) -> String {
    match r {
        Ok(_) => String::new(),
        Err(PumasError::Other(m)) => m,
        Err(other) => panic!("unexpected {other:?}"),
    }
}

#[test]
fn loopback_host_rejects_every_remote_or_ambiguous_form() {
    let v4 = |a: u8, b: u8, c: u8, d: u8| Some(IpAddress::V4(u32::from_be_bytes([a, b, c, d])));
    let host = LoopbackHost::parse(v4(127, 0, 0, 1)).unwrap();
    assert_eq!(host.address(), IpAddress::V4(0x7f00_0001));
    assert!(LoopbackHost::parse(Some(IpAddress::V6(1))).is_ok());
    for (name, parsed) in [
        ("0.0.0.0", v4(0, 0, 0, 0)),
        ("::", Some(IpAddress::V6(0))),
        ("192.168.1.10", v4(192, 168, 1, 10)),
        ("8.8.8.8", v4(8, 8, 8, 8)),
        ("localhost", None),
    ] {
        let error = message(LoopbackHost::parse(parsed));
        assert!(error.contains("loopback"), "{name}: {error}");
    }
    assert_eq!(message(LoopbackHost::parse(None)), "RPC host must be a loopback IP address");
    assert_eq!(
        message(LoopbackHost::parse(v4(10, 0, 0, 1))),
        "RPC host must be a loopback IP address; remote access is not supported"
    );
    assert!(LoopbackHost::parse(v4(127, 255, 0, 9)).is_ok());
}

#[test]
fn cors_allows_loopback_origins() {
    for origin in ["http://localhost:5173", "http://127.0.0.1:5173", "http://[::1]:5173"] {
        assert!(is_allowed_cors_origin(origin), "{origin}");
    }
}

#[test]
fn cors_rejects_non_loopback_origins() {
    for origin in ["https://example.com", "http://192.168.1.10:5173", "file:///tmp/index.html"] {
        assert!(!is_allowed_cors_origin(origin), "{origin}");
    }
}

#[test]
fn cors_rejects_unparsable_and_non_text_origins() {
    assert!(!is_allowed_cors_origin("not a url"));
    assert!(!is_allowed_cors_origin("http://localhost\u{7f}"));
    assert!(is_allowed_cors_origin("https://127.10.0.1"));
}

#[test]
fn loopback_origin_decision_on_parsed_parts() {
    let parts = |scheme: &str, host: Option<UrlHost>| Some(UrlParts { scheme: scheme.to_string(), host });
    assert!(is_loopback_origin(&parts("https", Some(UrlHost::Domain("localhost".into())))));
    assert!(!is_loopback_origin(&parts("ftp", Some(UrlHost::Domain("localhost".into())))));
    assert!(!is_loopback_origin(&parts("http", Some(UrlHost::Domain("example.com".into())))));
    assert!(!is_loopback_origin(&parts("http", None)));
    assert!(is_loopback_origin(&parts("http", Some(UrlHost::Ipv6(1)))));
    assert!(!is_loopback_origin(&parts("http", Some(UrlHost::Ipv4(0x0a00_0001)))));
    assert!(!is_loopback_origin(&None));
}
