use std::io;
use std::time::Duration;
use tls_tunnel::error::TunnelError;
use tls_tunnel::protocol::ConfigStatusResponse;

#[test]
fn test_error_creation() {
    let err = TunnelError::auth_failed("Invalid key");
    assert!(err.is_auth_failed());
    assert_eq!(err.message(), "Authentication failed: Invalid key");
}

#[test]
fn test_timeout_error() {
    let err = TunnelError::timeout(Duration::from_secs(30));
    assert!(err.is_timeout());
    assert!(err.message().contains("timeout"));
}

#[test]
fn test_proxy_not_found() {
    let err = TunnelError::proxy_not_found("test-proxy", 8080);
    assert_eq!(err.message(), "Proxy 'test-proxy' with port 8080 not found");
}

#[test]
fn test_connection_failed() {
    let io_err = io::Error::new(io::ErrorKind::ConnectionRefused, "refused");
    let err = TunnelError::connection_failed("127.0.0.1:8080", io_err);
    assert!(err.message().contains("Failed to connect"));
    assert!(err.message().contains("127.0.0.1:8080"));
}

#[test]
fn test_error_is_checks() {
    let auth_err = TunnelError::auth_failed("test");
    let config_err = TunnelError::config_error("test");
    let timeout_err = TunnelError::timeout(Duration::from_secs(1));

    assert!(auth_err.is_auth_failed());
    assert!(!auth_err.is_config_error());
    assert!(!auth_err.is_timeout());

    assert!(config_err.is_config_error());
    assert!(!config_err.is_auth_failed());

    assert!(timeout_err.is_timeout());
    assert!(!timeout_err.is_auth_failed());
}

#[test]
fn timeout_message_shows_duration() {
    let err = TunnelError::timeout(Duration::from_secs(30));
    assert_eq!(err.message(), "Operation timeout after 30s");
    let err = TunnelError::security_error("blocked");
    assert_eq!(err.message(), "Security error: blocked");
}

#[test]
fn test_config_status_response_accepted() {
    let resp = ConfigStatusResponse::accepted();
    assert!(resp.accepted);
    assert!(resp.rejected_proxies.is_empty());
}

#[test]
fn test_config_status_response_partially_rejected() {
    let resp = ConfigStatusResponse::partially_rejected(vec!["proxy1".to_string()]);
    assert!(resp.accepted);
    assert_eq!(resp.rejected_proxies.len(), 1);
    assert!(resp.has_rejected());
}

#[test]
fn test_config_status_response_all_rejected() {
    let resp = ConfigStatusResponse::all_rejected(vec!["proxy1".to_string()]);
    assert!(!resp.accepted);
    assert_eq!(resp.rejected_proxies.len(), 1);
}
