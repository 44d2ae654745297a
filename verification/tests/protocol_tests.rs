use tls_tunnel::config::{ProxyType, RoutingConfig, RoutingStrategy};
use tls_tunnel::forwarder::{
    bad_gateway_text, connect_established_text, connect_target_ok, format_proxy_type,
    forwarder_protocol, http_blacklisted_text, http_request_route, next_backoff_nanos,
    retry_after_failure, socks5_check_credentials, socks5_command_not_supported_reply,
    socks5_domain, socks5_domain_length, socks5_greeting, socks5_ipv4, socks5_ipv6,
    socks5_no_auth_reply, socks5_request, socks5_select_method, socks5_success_reply,
    socks5_target, tunnel_blacklisted_text, tunnel_route, ConnectionLimiter,
    FailedTargetManager, ForwardRoute, ForwarderProtocol, RetryConfig, Socks5Address, Socks5Auth,
    Socks5Error,
};
use tls_tunnel::frames::{
    check_config_message_len, check_config_message_version, classify_stream_request, confirmation_frame,
    is_confirmation,
    control_length_ok, forward_refusal, forward_request_frame, length_prefixed_frame,
    message_too_large_text, name_length_ok, parse_error_message, parse_stream_request,
    proxy_missing_text, refusal_frame, stream_request_frame, ConfigMessageError,
    ErrorMessageError, StreamRequestError, StreamTarget,
};
use tls_tunnel::geoip::{decide_by_country, decide_target, routing_host_text};
use tls_tunnel::http::{
    handle_http_direct, head_status, parse_http_head, split_lines, split_words, trim_text,
    DirectRequestError, HeadStatus, HttpParseError,
};
use tls_tunnel::netaddr::{
    direct_target_checkable, direct_target_host, is_local_address, is_unsafe_direct_target,
    resolution_address, IpAddress,
};
use std::time::Duration;

#[test]
fn stream_request_round_trip() {
    let frame = stream_request_frame("web", 8080);
    assert_eq!(frame, vec![0, 3, b'w', b'e', b'b', 0x1f, 0x90]);
    let (name, port, used) = parse_stream_request(&frame).unwrap();
    assert_eq!(name, "web");
    assert_eq!(port, 8080);
    assert_eq!(used, 7);
}

#[test]
fn stream_request_errors() {
    assert_eq!(parse_stream_request(&[0]), Err(StreamRequestError::Incomplete));
    assert_eq!(parse_stream_request(&[0, 0, 1, 2]), Err(StreamRequestError::InvalidNameLength));
    assert_eq!(parse_stream_request(&[1, 0]), Err(StreamRequestError::InvalidNameLength));
    assert_eq!(parse_stream_request(&[0, 2, b'a']), Err(StreamRequestError::Incomplete));
    assert_eq!(parse_stream_request(&[0, 1, 0xff, 0, 1]), Err(StreamRequestError::InvalidUtf8));
    assert!(name_length_ok(255));
    assert!(!name_length_ok(256));
    assert!(!name_length_ok(0));
}

#[test]
fn forward_request_names_the_target() {
    let frame = forward_request_frame("example.com:443");
    let (name, port, _) = parse_stream_request(&frame).unwrap();
    assert_eq!(name, "@forward:example.com:443");
    assert_eq!(port, 0);
    match classify_stream_request(&name) {
        StreamTarget::Forward(t) => assert_eq!(t, "example.com:443"),
        _ => panic!("expected a forward request"),
    }
    match classify_stream_request("web") {
        StreamTarget::Proxy(p) => assert_eq!(p, "web"),
        _ => panic!("expected a proxy request"),
    }
    match classify_stream_request("@forward") {
        StreamTarget::Proxy(p) => assert_eq!(p, "@forward"),
        _ => panic!("expected a proxy request"),
    }
}

#[test]
fn refusal_round_trip() {
    let frame = refusal_frame("no such proxy");
    assert_eq!(frame[0], 0);
    let (msg, used) = parse_error_message(&frame[1..]).unwrap();
    assert_eq!(msg, "no such proxy");
    assert_eq!(used, 15);
    assert_eq!(parse_error_message(&[0x10, 0x01]), Err(ErrorMessageError::TooLong));
    assert_eq!(parse_error_message(&[0]), Err(ErrorMessageError::Incomplete));
}

#[test]
fn refusal_messages() {
    assert_eq!(
        forward_refusal(false, "x:1", false),
        Some("Forward feature is not enabled on server".to_string())
    );
    assert_eq!(
        forward_refusal(true, "127.0.0.1:22", true),
        Some("Access denied: cannot forward to local or private address '127.0.0.1:22'".to_string())
    );
    assert_eq!(forward_refusal(true, "x:1", false), None);
    assert_eq!(
        proxy_missing_text("web", 8080),
        "Proxy 'web' with publish_port 8080 not found or client not connected"
    );
}

#[test]
fn length_prefixed_messages() {
    assert_eq!(length_prefixed_frame(b"{}"), vec![0, 0, 0, 2, b'{', b'}']);
    assert!(control_length_ok(10 * 1024 * 1024));
    assert!(!control_length_ok(10 * 1024 * 1024 + 1));
    assert_eq!(message_too_large_text(20000000), "Message too large: 20000000 bytes");
    assert_eq!(check_config_message_len(0), Err(ConfigMessageError::EmptyMessage));
    assert_eq!(check_config_message_len(5), Ok(()));
    assert_eq!(check_config_message_version(1), Ok(()));
    assert_eq!(
        check_config_message_version(2),
        Err(ConfigMessageError::UnsupportedVersion { version: 2 })
    );
}

#[test]
fn failed_targets_blacklist() {
    let mut m = FailedTargetManager::new();
    assert!(!m.is_blacklisted_at("a:80", 100));
    m.record_failure_at("a:80", 100);
    assert!(m.is_blacklisted_at("a:80", 100));
    assert!(m.is_blacklisted_at("a:80", 1899));
    assert!(!m.is_blacklisted_at("a:80", 1900));
    assert_eq!(m.failed_targets_count_at(200), 1);
    assert_eq!(m.failed_targets_count_at(2000), 0);
    // The third failure restarts the refusal.
    m.record_failure_at("a:80", 1000);
    m.record_failure_at("a:80", 1500);
    assert!(m.is_blacklisted_at("a:80", 3000));
    m.cleanup_expired_targets_at(3299);
    assert_eq!(m.failed_targets_count_at(3299), 1);
    m.cleanup_expired_targets_at(3300);
    assert_eq!(m.failed_targets_count_at(0), 0);
    assert!(!m.is_blacklisted_at("a:80", 3300));
}

#[test]
fn forwarder_routes() {
    assert_eq!(tunnel_route(true, true), ForwardRoute::RefuseBlacklisted);
    assert_eq!(tunnel_route(false, true), ForwardRoute::Direct);
    assert_eq!(tunnel_route(false, false), ForwardRoute::ViaServer);
    assert_eq!(http_request_route(false), ForwardRoute::Direct);
    assert_eq!(http_request_route(true), ForwardRoute::RefuseBlacklisted);
    assert_eq!(forwarder_protocol(ProxyType::HttpProxy), Ok(ForwarderProtocol::Http));
    assert_eq!(forwarder_protocol(ProxyType::Socks5Proxy), Ok(ForwarderProtocol::Socks5));
    assert_eq!(
        forwarder_protocol(ProxyType::Tcp),
        Err("Invalid proxy type for forwarder: Tcp".to_string())
    );
    assert_eq!(format_proxy_type(ProxyType::HttpProxy), "HTTP proxy");
    assert_eq!(format_proxy_type(ProxyType::Socks5Proxy), "SOCKS5 proxy");
    assert_eq!(format_proxy_type(ProxyType::Tcp), "Unknown");
}

#[test]
fn forwarder_answers() {
    assert_eq!(connect_established_text(), "HTTP/1.1 200 Connection Established\r\n\r\n");
    assert!(connect_target_ok("example.com:443"));
    assert!(!connect_target_ok("example.com"));
    assert_eq!(
        bad_gateway_text("refusé"),
        "HTTP/1.1 502 Bad Gateway\r\nContent-Type: text/plain\r\nContent-Length: 7\r\nConnection: close\r\n\r\nrefusé"
    );
    assert!(http_blacklisted_text().starts_with("HTTP/1.1 503"));
    let t = tunnel_blacklisted_text();
    let body = t.split("\r\n\r\n").nth(1).unwrap();
    assert_eq!(body.len(), 47);
}

#[test]
fn socks5_steps() {
    assert_eq!(socks5_greeting(5, 2), Ok(2));
    assert_eq!(socks5_greeting(4, 2), Err(Socks5Error::UnsupportedVersion(4)));
    assert_eq!(socks5_greeting(5, 0), Err(Socks5Error::InvalidMethodCount(0)));
    assert_eq!(socks5_no_auth_reply(), vec![5, 0]);
    assert_eq!(socks5_request(5, 1, 1), Ok(Socks5Address::Ipv4));
    assert_eq!(socks5_request(5, 1, 3), Ok(Socks5Address::Domain));
    assert_eq!(socks5_request(5, 1, 4), Ok(Socks5Address::Ipv6));
    assert_eq!(socks5_request(5, 1, 9), Err(Socks5Error::UnsupportedAddressType(9)));
    assert_eq!(socks5_request(5, 2, 1), Err(Socks5Error::UnsupportedCommand(2)));
    assert_eq!(socks5_request(4, 1, 1), Err(Socks5Error::InvalidRequestVersion));
    assert_eq!(socks5_command_not_supported_reply(), vec![5, 7, 0, 1, 0, 0, 0, 0, 0, 0]);
    assert_eq!(socks5_success_reply(), vec![5, 0, 0, 1, 0, 0, 0, 0, 0, 0]);
    assert_eq!(socks5_domain_length(0), Err(Socks5Error::InvalidDomainLength(0)));
    assert_eq!(socks5_domain_length(11), Ok(11));
    assert_eq!(socks5_domain(b"example.com"), Ok("example.com".to_string()));
    assert_eq!(socks5_domain(&[0xff]), Err(Socks5Error::InvalidDomainName));
    assert_eq!(socks5_ipv4(127, 0, 0, 1), "127.0.0.1");
    let v6 = [0x20u8, 0x01, 0x0d, 0xb8, 0, 0, 0, 0, 0, 0, 0, 0, 0, 0, 0xab, 0x01];
    assert_eq!(socks5_ipv6(&v6), "2001:0db8:0000:0000:0000:0000:0000:ab01");
    assert_eq!(socks5_target("example.com", 443), "example.com:443");
    assert_eq!(
        Socks5Error::UnsupportedCommand(2).message(),
        "Unsupported SOCKS5 command: 2"
    );
}

#[test]
fn socks5_authentication() {
    assert_eq!(socks5_select_method(true, &[0, 2]), Some(2));
    assert_eq!(socks5_select_method(false, &[0, 2]), Some(0));
    assert_eq!(socks5_select_method(true, &[1]), None);
    let auth = Socks5Auth { username: "u".into(), password: "p".into() };
    assert_eq!(socks5_check_credentials(b"u", b"p", &auth), Ok(true));
    assert_eq!(socks5_check_credentials(b"u", b"x", &auth), Ok(false));
    assert_eq!(socks5_check_credentials(&[0xff], b"p", &auth), Err(Socks5Error::InvalidCredentials));
}

#[test]
fn connection_limiter_caps() {
    let mut l = ConnectionLimiter::new(2);
    assert!(l.try_acquire());
    assert!(l.try_acquire());
    assert!(!l.try_acquire());
    l.release();
    assert!(l.try_acquire());
}

#[test]
fn test_retry_config() {
    let config = RetryConfig::default();
    assert_eq!(config.max_retries, 3);
    assert_eq!(config.initial_backoff, Duration::from_millis(100));
}

#[test]
fn retry_schedule() {
    assert!(retry_after_failure(1, 3));
    assert!(!retry_after_failure(3, 3));
    assert_eq!(next_backoff_nanos(100, 1000), 200);
    assert_eq!(next_backoff_nanos(600, 1000), 1000);
    assert_eq!(RetryConfig::default().max_backoff, Duration::from_secs(10));
}

#[test]
fn http_head_detection() {
    let buf = b"GET / HTTP/1.1\r\nHost: a\r\n\r\nbody";
    assert_eq!(head_status(buf, buf.len()), HeadStatus::Complete(27));
    assert_eq!(head_status(buf, 10), HeadStatus::NeedMore);
    let big = vec![b'a'; 16384];
    assert_eq!(head_status(&big, 16384), HeadStatus::TooLong);
}

#[test]
fn http_head_parsing() {
    let head = b"GET http://example.com/a?b=1 HTTP/1.1\r\nHost: example.com\r\nProxy-Connection: keep-alive\r\nX-A:  1 \r\nx-a: 2\r\n\r\n";
    let req = parse_http_head(head).unwrap();
    assert_eq!(req.method, "GET");
    assert_eq!(req.target, "http://example.com/a?b=1");
    assert_eq!(
        req.headers,
        vec![
            ("host".to_string(), "example.com".to_string()),
            ("proxy-connection".to_string(), "keep-alive".to_string()),
            ("x-a".to_string(), "2".to_string()),
        ]
    );
    assert_eq!(req.raw_request, head.to_vec());
    assert_eq!(parse_http_head(b"GET\r\n\r\n").unwrap_err(), HttpParseError::InvalidRequestLine);
    assert_eq!(HttpParseError::EmptyRequest.message(), "Empty HTTP request");
}

#[test]
fn text_helpers_match_std() {
    for s in ["a\r\nb\n", "", "\n", "x\ry", "a\n\nb", "tail\r"] {
        let ours = split_lines(s);
        let std: Vec<String> = s.lines().map(|l| l.to_string()).collect();
        assert_eq!(ours, std);
    }
    for s in ["  GET  /x  HTTP/1.1 ", "", "one", "\ta\u{3000}b"] {
        let ours = split_words(s);
        let std: Vec<String> = s.split_whitespace().map(|l| l.to_string()).collect();
        assert_eq!(ours, std);
    }
    for s in ["  x  ", "", "   ", "a b", "\u{2003}z\t"] {
        assert_eq!(trim_text(s), s.trim());
    }
}

#[test]
fn http_direct_rewrite() {
    let head = b"GET http://example.com:8080/a?b=1 HTTP/1.1\r\nHost: example.com\r\nConnection: keep-alive\r\nAccept: */*\r\n\r\n";
    let req = parse_http_head(head).unwrap();
    let (bytes, target) = handle_http_direct(&req).unwrap();
    assert_eq!(target, "example.com:8080");
    assert_eq!(
        String::from_utf8(bytes).unwrap(),
        "GET /a?b=1 HTTP/1.1\r\nhost: example.com\r\naccept: */*\r\nConnection: close\r\n\r\n"
    );
    let https = parse_http_head(b"GET https://secure.example HTTP/1.1\r\n\r\n").unwrap();
    assert_eq!(handle_http_direct(&https).unwrap().1, "secure.example:443");
    let relative = parse_http_head(b"GET /p HTTP/1.1\r\nHost: h:81\r\n\r\n").unwrap();
    let (bytes, target) = handle_http_direct(&relative).unwrap();
    assert_eq!(target, "h:81");
    assert_eq!(String::from_utf8(bytes).unwrap(), "GET /p HTTP/1.1\r\nhost: h:81\r\nConnection: close\r\n\r\n");
    let none = parse_http_head(b"GET /p HTTP/1.1\r\n\r\n").unwrap();
    assert_eq!(handle_http_direct(&none).unwrap_err(), DirectRequestError::NoTarget);
    assert_eq!(
        DirectRequestError::NoTarget.message(),
        "Cannot determine target from HTTP request"
    );
    let bad = parse_http_head(b"GET http:// HTTP/1.1\r\n\r\n").unwrap();
    assert!(matches!(handle_http_direct(&bad), Err(DirectRequestError::InvalidUrl(_))));
}

#[test]
fn local_targets() {
    let local = [IpAddress::V4(10, 1, 2, 3)];
    let public = [IpAddress::V4(8, 8, 8, 8)];
    assert!(is_local_address(None));
    assert!(is_local_address(Some(&local)));
    assert!(!is_local_address(Some(&public)));
    for ip in [
        IpAddress::V4(127, 0, 0, 1),
        IpAddress::V4(172, 16, 0, 1),
        IpAddress::V4(172, 31, 255, 1),
        IpAddress::V4(192, 168, 1, 1),
        IpAddress::V4(169, 254, 1, 1),
        IpAddress::V4(0, 1, 2, 3),
        IpAddress::V6([0, 0, 0, 0, 0, 0, 0, 1]),
        IpAddress::V6([0xfd00, 0, 0, 0, 0, 0, 0, 1]),
        IpAddress::V6([0xfe80, 0, 0, 0, 0, 0, 0, 1]),
    ] {
        assert!(is_local_address(Some(&[ip])));
    }
    for ip in [IpAddress::V4(172, 32, 0, 1), IpAddress::V6([0x2001, 0xdb8, 0, 0, 0, 0, 0, 1])] {
        assert!(!is_local_address(Some(&[ip])));
    }
    assert_eq!(resolution_address("example.com"), "example.com:80");
    assert_eq!(resolution_address("example.com:443"), "example.com:443");
}

#[test]
fn direct_target_safety() {
    assert_eq!(direct_target_host("example.com:443"), "example.com");
    assert_eq!(direct_target_host("[::1]:443"), "::1");
    assert_eq!(direct_target_host("fe80::1"), "fe80::1");
    assert_eq!(direct_target_host("host"), "host");
    assert!(is_unsafe_direct_target("localhost:80", None));
    assert!(is_unsafe_direct_target("[::1]:80", None));
    assert!(!is_unsafe_direct_target("example.com:80", None));
    assert!(is_unsafe_direct_target("example.com:80", Some(&[IpAddress::V4(10, 0, 0, 1)])));
    assert!(direct_target_checkable("example.com:80"));
    assert!(!direct_target_checkable("]:a:b"));
}

fn routing(default_strategy: RoutingStrategy) -> RoutingConfig {
    RoutingConfig {
        geoip_db: None,
        direct_countries: vec!["CN".to_string()],
        proxy_countries: vec!["US".to_string()],
        direct_ips: vec![],
        proxy_ips: vec![],
        direct_domains: vec![],
        proxy_domains: vec![],
        default_strategy,
    }
}

#[test]
fn test_default_strategy() {
    let config = RoutingConfig {
        geoip_db: None,
        direct_countries: vec![],
        proxy_countries: vec![],
        direct_ips: vec![],
        proxy_ips: vec![],
        direct_domains: vec![],
        proxy_domains: vec![],
        default_strategy: RoutingStrategy::Direct,
    };
    // Without a database every address follows the default strategy.
    assert_eq!(routing_host_text("8.8.8.8:80"), "8.8.8.8");
    let by_ip = decide_by_country(&config, Ok(None));
    assert!(decide_target(&config, Some(by_ip), None));
}

#[test]
fn routing_by_country() {
    let c = routing(RoutingStrategy::Proxy);
    assert!(decide_by_country(&c, Ok(Some("cn".to_string()))));
    assert!(!decide_by_country(&c, Ok(Some("US".to_string()))));
    assert!(!decide_by_country(&c, Ok(Some("DE".to_string()))));
    assert!(!decide_by_country(&c, Err("lookup failed".to_string())));
    let d = routing(RoutingStrategy::Direct);
    assert!(decide_by_country(&d, Ok(Some("DE".to_string()))));
    assert!(decide_target(&c, None, Some(&[false, true])));
    assert!(!decide_target(&c, None, Some(&[false])));
    assert!(!decide_target(&c, None, None));
}

#[test]
fn config_message_error_messages() {
    assert_eq!(
        ConfigMessageError::EmptyMessage.message(),
        "Client config message length cannot be 0"
    );
    assert_eq!(
        ConfigMessageError::UnsupportedVersion { version: 7 }.message(),
        "Unsupported protocol version 7"
    );
}

#[test]
fn confirmation_is_told_from_refusal() {
    let c = confirmation_frame();
    assert_eq!(c, vec![1u8]);
    assert!(is_confirmation(c[0]));
    let r = refusal_frame("no");
    assert!(!is_confirmation(r[0]));
}
