use tls_tunnel::cli::check_server_config;
use tls_tunnel::config::ServerConfig;
use tls_tunnel::control_protocol::{ControlMethod, JsonRpcRequest};
use tls_tunnel::transport::TransportType;

fn server(cert: Option<&str>, key: Option<&str>) -> ServerConfig {
    ServerConfig {
        bind_addr: "0.0.0.0".to_string(),
        bind_port: 8443,
        transport: TransportType::Tls,
        behind_proxy: false,
        cert_path: cert.map(|s| s.to_string()),
        key_path: key.map(|s| s.to_string()),
        auth_key: "a-long-enough-secret-key".to_string(),
        stats_port: None,
        stats_addr: None,
        allow_forward: false,
        rate_limit: None,
        size_limits: None,
    }
}

#[test]
fn transport_names_ignore_case() {
    assert_eq!(TransportType::from_name("WSS").unwrap(), TransportType::Wss);
    assert_eq!(TransportType::from_name("Http2").unwrap(), TransportType::Http2);
    assert_eq!(TransportType::from_name("TLS").unwrap(), TransportType::Tls);
    assert!(TransportType::from_name("quic").is_err());
}

#[test]
fn missing_files_are_quoted_in_warnings() {
    let c = server(Some("/etc/t/cert.pem"), Some("/etc/t/key.pem"));
    let check = check_server_config(&c, false, true);
    assert!(check.valid);
    assert_eq!(check.warnings, vec!["Certificate file not found: \"/etc/t/cert.pem\"".to_string()]);
}

#[test]
fn request_ids_are_json_numbers() {
    let r = JsonRpcRequest::new("heartbeat".to_string(), serde_json::Value::Null, 7);
    assert_eq!(r.jsonrpc, "2.0");
    assert_eq!(r.id, Some(serde_json::Value::from(7u64)));
    assert!(!r.is_notification());
}

#[test]
fn method_names_read_back() {
    for m in [
        ControlMethod::Authenticate,
        ControlMethod::SubmitConfig,
        ControlMethod::Heartbeat,
        ControlMethod::PushConfigStatus,
        ControlMethod::PushStats,
    ] {
        assert_eq!(ControlMethod::from_str(m.as_str()).unwrap(), m);
    }
    assert_eq!(ControlMethod::SubmitConfig.as_str(), "submit_config");
    assert_eq!(ControlMethod::from_str("reboot").unwrap_err().name, "reboot");
}

#[test]
fn transport_names_read_back() {
    for t in [TransportType::Tls, TransportType::Http2, TransportType::Wss] {
        assert_eq!(TransportType::from_name(t.as_str()).unwrap(), t);
    }
    assert_eq!(TransportType::from_name("h2").unwrap(), TransportType::Http2);
    assert_eq!(TransportType::from_name("websocket").unwrap(), TransportType::Wss);
}
