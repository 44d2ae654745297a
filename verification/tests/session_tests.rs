use tls_tunnel::client_session::{
    after_transfer, config_error_event, config_result_event, find_proxy_by_publish_port,
    local_service_address, no_pool_for_port_text, no_proxy_for_port_text, parse_u64,
    retry_local_connect, setting_or_default, ClientAction, ClientEvent, ClientSession,
    ClientState, PoolReturn, StreamNext,
};
use tls_tunnel::config::{ProxyConfig, ProxyType, VisitorConfig};
use tls_tunnel::registry::{validate_proxy_configs, ProxyInfo, ProxyListError, ProxyRegistry};
use tls_tunnel::session::{new_client_id, ServerSession, SessionState, SubmissionReply};

fn proxy(name: &str, addr: &str, port: u16, local: u16) -> ProxyConfig {
    ProxyConfig {
        name: name.to_string(),
        proxy_type: ProxyType::Tcp,
        publish_addr: addr.to_string(),
        publish_port: port,
        local_port: local,
    }
}

fn visitor(name: &str, port: u16) -> VisitorConfig {
    VisitorConfig {
        name: name.to_string(),
        proxy_type: ProxyType::Tcp,
        bind_addr: "127.0.0.1".to_string(),
        bind_port: 7000,
        publish_port: port,
    }
}

fn info(name: &str, addr: &str, port: u16, local: u16) -> ProxyInfo {
    ProxyInfo {
        name: name.to_string(),
        proxy_type: ProxyType::Tcp,
        publish_addr: addr.to_string(),
        publish_port: port,
        local_port: local,
    }
}

fn authenticated() -> ServerSession {
    let mut s = ServerSession::new();
    s.mark_authenticated("client_1".to_string());
    s
}

#[test]
fn proxy_configs_valid_list() {
    let list = vec![info("a", "0.0.0.0", 8080, 3000), info("b", "0.0.0.0", 8081, 3001)];
    assert_eq!(validate_proxy_configs(&list, 443), Ok(()));
    assert_eq!(validate_proxy_configs(&[], 443), Ok(()));
}

#[test]
fn proxy_configs_each_error() {
    let dup_name = vec![info("a", "0.0.0.0", 8080, 3000), info("a", "0.0.0.0", 8081, 3001)];
    let e = validate_proxy_configs(&dup_name, 443).unwrap_err();
    assert_eq!(e, ProxyListError::DuplicateName { name: "a".to_string() });
    assert_eq!(e.message(), "Duplicate proxy name 'a': each proxy must have a unique name");

    let dup_bind = vec![info("a", "0.0.0.0", 8080, 3000), info("b", "0.0.0.0", 8080, 3001)];
    let e = validate_proxy_configs(&dup_bind, 443).unwrap_err();
    assert_eq!(
        e.message(),
        "Duplicate publish binding 0.0.0.0:8080: each proxy must use a different server bind address/port"
    );

    let dup_local = vec![info("a", "0.0.0.0", 8080, 3000), info("b", "0.0.0.0", 8081, 3000)];
    let e = validate_proxy_configs(&dup_local, 443).unwrap_err();
    assert_eq!(e.message(), "Duplicate local_port 3000: each proxy must connect to a different client port");

    let conflict = vec![info("a", "0.0.0.0", 443, 3000)];
    let e = validate_proxy_configs(&conflict, 443).unwrap_err();
    assert_eq!(e.message(), "Proxy 'a' publish_port 443 conflicts with server bind port");

    let blank_addr = vec![info("a", "  ", 8080, 3000)];
    assert_eq!(
        validate_proxy_configs(&blank_addr, 443).unwrap_err().message(),
        "Proxy 'a': publish_addr cannot be empty"
    );
    let zero_publish = vec![info("a", "0.0.0.0", 0, 3000)];
    assert_eq!(
        validate_proxy_configs(&zero_publish, 443).unwrap_err().message(),
        "Proxy 'a': publish_port cannot be 0"
    );
    let zero_local = vec![info("a", "0.0.0.0", 8080, 0)];
    assert_eq!(
        validate_proxy_configs(&zero_local, 443).unwrap_err().message(),
        "Proxy 'a': local_port cannot be 0"
    );
    let blank_name = vec![info(" ", "0.0.0.0", 8080, 3000)];
    assert_eq!(
        validate_proxy_configs(&blank_name, 443).unwrap_err(),
        ProxyListError::EmptyName
    );
}

#[test]
fn registry_insert_lookup_remove() {
    let mut r: ProxyRegistry<u8> = ProxyRegistry::new();
    assert_eq!(r.len(), 0);
    r.insert(1, info("web", "0.0.0.0", 8080, 3000));
    assert!(r.contains_key("web", 8080));
    assert!(!r.contains_key("web", 8081));
    let reg = r.get("web", 8080).unwrap();
    assert_eq!(reg.stream_tx, 1);
    assert_eq!(reg.proxy_info.local_port, 3000);
    r.remove("web", 8080);
    assert!(!r.contains_key("web", 8080));
    assert_eq!(r.len(), 0);
}

#[test]
fn submission_before_authentication_ends_session() {
    let mut s = ServerSession::new();
    let mut r: ProxyRegistry<u8> = ProxyRegistry::new();
    let reply = s.submit_config(&mut r, &[proxy("a", "0.0.0.0", 8080, 3000)], &[], 443, &1);
    assert!(matches!(reply, SubmissionReply::NotAuthenticated));
    assert!(!reply.continues());
    assert_eq!(r.len(), 0);
    assert_eq!(s.state(), SessionState::Authenticating);
}

#[test]
fn submission_accepted_registers_everything() {
    let mut s = authenticated();
    let mut r: ProxyRegistry<u8> = ProxyRegistry::new();
    let proxies = vec![proxy("a", "0.0.0.0", 8080, 3000), proxy("b", "0.0.0.0", 8081, 3001)];
    let reply = s.submit_config(&mut r, &proxies, &[visitor("a", 8080)], 443, &9);
    assert!(matches!(reply, SubmissionReply::Accepted));
    assert!(reply.continues());
    assert_eq!(s.state(), SessionState::Running);
    assert!(s.accepts_inbound_streams());
    assert!(r.contains_key("a", 8080));
    assert!(r.contains_key("b", 8081));
    assert_eq!(r.get("b", 8081).unwrap().stream_tx, 9);
}

#[test]
fn submission_rejections_by_fault() {
    let cases = vec![
        (vec![proxy("a", "0.0.0.0", 8080, 3000), proxy("a", "0.0.0.0", 8081, 3001)], "Duplicate proxy name: a"),
        (vec![proxy("a", "0.0.0.0", 8080, 3000), proxy("b", "0.0.0.0", 8080, 3001)], "Duplicate binding: 0.0.0.0:8080"),
        (vec![proxy("a", "0.0.0.0", 0, 3000)], "Invalid proxy: a"),
        (vec![proxy("a", "0.0.0.0", 8080, 0)], "Invalid proxy: a"),
        (vec![proxy("a", " ", 8080, 3000)], "Invalid proxy: a"),
        (vec![proxy("a", "0.0.0.0", 443, 3000)], "Port conflict: a"),
    ];
    for (proxies, reason) in cases {
        let mut s = authenticated();
        let mut r: ProxyRegistry<u8> = ProxyRegistry::new();
        match s.submit_config(&mut r, &proxies, &[], 443, &1) {
            SubmissionReply::Rejected { reasons } => assert_eq!(reasons, vec![reason.to_string()]),
            other => panic!("unexpected reply {:?}", other),
        }
        assert_eq!(r.len(), 0);
        assert_eq!(s.state(), SessionState::ConfiguringProxy);
    }
}

#[test]
fn submission_all_registered_already_is_rejected() {
    let mut r: ProxyRegistry<u8> = ProxyRegistry::new();
    r.insert(1, info("a", "0.0.0.0", 8080, 3000));
    let mut s = authenticated();
    match s.submit_config(&mut r, &[proxy("a", "0.0.0.0", 8080, 3000)], &[], 443, &2) {
        SubmissionReply::AllRejected { rejected } => assert_eq!(rejected, vec!["a:8080".to_string()]),
        other => panic!("unexpected reply {:?}", other),
    }
    assert_eq!(r.len(), 1);
    assert_eq!(r.get("a", 8080).unwrap().stream_tx, 1);
}

#[test]
fn submission_partially_rejected_keeps_existing_registration() {
    let mut r: ProxyRegistry<u8> = ProxyRegistry::new();
    r.insert(1, info("a", "0.0.0.0", 8080, 3000));
    let mut s = authenticated();
    let proxies = vec![proxy("a", "0.0.0.0", 8080, 3000), proxy("b", "0.0.0.0", 8081, 3001)];
    let visitors = vec![visitor("b", 8081), visitor("zzz", 1)];
    match s.submit_config(&mut r, &proxies, &visitors, 443, &2) {
        SubmissionReply::PartiallyRejected { rejected_proxies, rejected_visitors } => {
            assert_eq!(rejected_proxies, vec!["a:8080".to_string()]);
            assert_eq!(rejected_visitors, vec!["zzz:1".to_string()]);
        }
        other => panic!("unexpected reply {:?}", other),
    }
    assert_eq!(r.get("a", 8080).unwrap().stream_tx, 1);
    assert_eq!(r.get("b", 8081).unwrap().stream_tx, 2);
    assert_eq!(s.state(), SessionState::Running);
}

#[test]
fn cleanup_removes_only_the_sessions_proxies() {
    let mut r: ProxyRegistry<u8> = ProxyRegistry::new();
    r.insert(1, info("other", "0.0.0.0", 9000, 4000));
    let mut s = authenticated();
    s.submit_config(&mut r, &[proxy("a", "0.0.0.0", 8080, 3000)], &[], 443, &2);
    assert_eq!(r.len(), 2);
    s.cleanup(&mut r);
    assert_eq!(r.len(), 1);
    assert!(r.contains_key("other", 9000));
    assert!(!r.contains_key("a", 8080));
}

#[test]
fn server_session_key_check_and_gating() {
    assert!(ServerSession::key_accepted("secret-key-12345", "secret-key-12345"));
    assert!(!ServerSession::key_accepted("wrong", "secret-key-12345"));
    let s = ServerSession::new();
    assert!(!s.accepts_inbound_streams());
    assert!(!s.serves_stream_requests());
    let s = authenticated();
    assert_eq!(s.state(), SessionState::Authenticated);
    assert!(!s.accepts_inbound_streams());
}

#[test]
fn client_session_events() {
    let mut s = ClientSession::new();
    assert_eq!(s.state(), ClientState::Authenticating);
    let a = s.handle_event(&ClientEvent::AuthenticationSuccess { client_id: "c".into() });
    assert_eq!(a, ClientAction::InitializeAndSubmit);
    assert_eq!(s.state(), ClientState::Authenticated);
    s.config_submitted();
    assert_eq!(s.state(), ClientState::ConfiguringProxy);
    assert!(!s.serves_inbound_streams());
    let a = s.handle_event(&ClientEvent::ConfigPartiallyRejected { rejected_proxies: vec!["a:1".into()] });
    assert_eq!(a, ClientAction::StartListeners);
    assert_eq!(s.state(), ClientState::Running);
    assert!(s.serves_inbound_streams());
    assert!(s.sends_heartbeats());
    let a = s.handle_event(&ClientEvent::AuthenticationFailed { reason: "bad key".into() });
    assert_eq!(a, ClientAction::Fail("Authentication failed: bad key".to_string()));
    let a = s.handle_event(&ClientEvent::ConfigRejected { rejected_proxies: vec![] });
    assert_eq!(a, ClientAction::Fail("All proxies rejected".to_string()));
    assert_eq!(s.handle_event(&ClientEvent::ConnectionClosed), ClientAction::Shutdown);
}

#[test]
fn client_config_answers_to_events() {
    assert_eq!(config_result_event(vec![]), ClientEvent::ConfigAccepted);
    assert_eq!(
        config_result_event(vec!["a:1".into()]),
        ClientEvent::ConfigPartiallyRejected { rejected_proxies: vec!["a:1".into()] }
    );
    assert_eq!(
        config_error_event("boom".into(), None),
        ClientEvent::ConfigRejected { rejected_proxies: vec!["boom".into()] }
    );
    assert_eq!(
        config_error_event("boom".into(), Some(vec!["x:2".into()])),
        ClientEvent::ConfigRejected { rejected_proxies: vec!["x:2".into()] }
    );
}

#[test]
fn client_stream_decisions() {
    let proxies = vec![proxy("a", "0.0.0.0", 8080, 3000), proxy("b", "0.0.0.0", 8080, 3001)];
    assert_eq!(find_proxy_by_publish_port(&proxies, 8080), Some(0));
    assert_eq!(find_proxy_by_publish_port(&proxies, 9), None);
    assert_eq!(no_proxy_for_port_text(9), "No proxy config found for publish_port 9");
    assert_eq!(no_pool_for_port_text(9), "No connection pool found for publish_port 9");
    assert_eq!(local_service_address(3000), "127.0.0.1:3000");
    assert_eq!(after_transfer(true, true, ProxyType::Http11, false), (PoolReturn::Return, StreamNext::Done));
    assert_eq!(after_transfer(true, true, ProxyType::Tcp, false), (PoolReturn::Discard, StreamNext::Done));
    assert_eq!(after_transfer(true, false, ProxyType::Http11, false), (PoolReturn::Discard, StreamNext::Done));
    assert_eq!(after_transfer(false, true, ProxyType::Tcp, false), (PoolReturn::Discard, StreamNext::Retry));
    assert_eq!(after_transfer(false, false, ProxyType::Tcp, true), (PoolReturn::Drop, StreamNext::Fail));
    assert!(retry_local_connect(1, 3));
    assert!(!retry_local_connect(3, 3));
}

#[test]
fn settings_parse_like_std() {
    assert_eq!(parse_u64("5"), Some(5));
    assert_eq!(parse_u64("+17"), Some(17));
    assert_eq!(parse_u64("18446744073709551615"), Some(u64::MAX));
    assert_eq!(parse_u64("18446744073709551616"), None);
    assert_eq!(parse_u64(""), None);
    assert_eq!(parse_u64("+"), None);
    assert_eq!(parse_u64("-1"), None);
    assert_eq!(parse_u64("1 "), None);
    for s in ["0", "42", "+0", "007", "99999999999999999999", "x", "4x"] {
        assert_eq!(parse_u64(s), s.parse::<u64>().ok());
    }
    assert_eq!(setting_or_default(Some("10"), 5), 10);
    assert_eq!(setting_or_default(Some("ten"), 5), 5);
    assert_eq!(setting_or_default(None, 5), 5);
}

#[test]
fn client_ids_are_prefixed_uuids() {
    let a = new_client_id();
    let b = new_client_id();
    assert_eq!(a.len(), 43);
    assert!(a.starts_with("client_"));
    let u: Vec<char> = a[7..].chars().collect();
    for (i, c) in u.iter().enumerate() {
        if i == 8 || i == 13 || i == 18 || i == 23 {
            assert_eq!(*c, '-');
        } else {
            assert!(c.is_ascii_digit() || ('a'..='f').contains(c));
        }
    }
    assert_ne!(a, b);
}
