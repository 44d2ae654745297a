use tls_tunnel::builder::{ClientConfigBuilder, ClientFullConfigBuilder, ServerConfigBuilder};
use tls_tunnel::config::{
    ClientConfig, ConfigError, ProxyConfig, ProxyType, RateLimitConfig, RequiredField, Section,
    ServerConfig, SizeLimitConfig,
};
use tls_tunnel::transport::TransportType;
use tls_tunnel::validator::ConfigValidator;

fn server_config(auth_key: String) -> ServerConfig {
    ServerConfig {
        bind_addr: "0.0.0.0".to_string(),
        bind_port: 8443,
        transport: TransportType::Tls,
        behind_proxy: false,
        cert_path: Some("/path/to/cert.pem".to_string()),
        key_path: Some("/path/to/key.pem".to_string()),
        auth_key,
        stats_port: None,
        stats_addr: None,
        allow_forward: false,
        rate_limit: None,
        size_limits: None,
    }
}

#[test]
fn builder_test_server_config_builder() {
    let config = ServerConfigBuilder::new()
        .bind_addr("0.0.0.0")
        .bind_port(8443)
        .auth_key("1234567890123456")
        .build();

    assert!(config.is_ok());
    let config = config.unwrap();
    assert_eq!(config.bind_addr, "0.0.0.0");
    assert_eq!(config.bind_port, 8443);
    assert_eq!(config.auth_key, "1234567890123456");
}

#[test]
fn test_server_config_builder_missing_required() {
    let result = ServerConfigBuilder::new().bind_addr("0.0.0.0").build();

    assert!(result.is_err());
}

#[test]
fn test_server_config_builder_invalid_auth_key() {
    let result = ServerConfigBuilder::new()
        .bind_addr("0.0.0.0")
        .bind_port(8443)
        .auth_key("short")
        .build();

    assert!(result.is_err());
}

#[test]
fn builder_test_client_config_builder() {
    let config = ClientConfigBuilder::new()
        .server_addr("example.com")
        .server_port(8443)
        .auth_key("1234567890123456")
        .build();

    assert!(config.is_ok());
    let config = config.unwrap();
    assert_eq!(config.server_addr, "example.com");
    assert_eq!(config.server_port, 8443);
    assert_eq!(config.auth_key, "1234567890123456");
}

#[test]
fn test_client_full_config_builder() {
    let client = ClientConfigBuilder::new()
        .server_addr("example.com")
        .server_port(8443)
        .auth_key("1234567890123456")
        .build()
        .unwrap();

    let proxy = ProxyConfig {
        name: "test-proxy".to_string(),
        proxy_type: ProxyType::Tcp,
        publish_addr: "0.0.0.0".to_string(),
        publish_port: 9000,
        local_port: 8080,
    };

    let config = ClientFullConfigBuilder::new()
        .client(client)
        .add_proxy(proxy)
        .build();

    assert!(config.is_ok());
    let config = config.unwrap();
    assert_eq!(config.proxies.len(), 1);
}

#[test]
fn test_proxy_type_should_reuse_connections() {
    assert!(!ProxyType::Tcp.should_reuse_connections());
    assert!(ProxyType::Http11.should_reuse_connections());
    assert!(ProxyType::Http2.should_reuse_connections());
    assert!(!ProxyType::HttpProxy.should_reuse_connections());
    assert!(!ProxyType::Socks5Proxy.should_reuse_connections());
}

#[test]
fn test_proxy_type_is_multiplexed() {
    assert!(!ProxyType::Tcp.is_multiplexed());
    assert!(!ProxyType::Http11.is_multiplexed());
    assert!(ProxyType::Http2.is_multiplexed());
    assert!(!ProxyType::HttpProxy.is_multiplexed());
    assert!(!ProxyType::Socks5Proxy.is_multiplexed());
}

#[test]
fn test_server_config_validation() {
    let mut config = server_config("a".repeat(20));

    assert!(config.validate().is_ok());

    config.auth_key = "weak".to_string();
    assert!(config.validate().is_err());

    config.auth_key = "a".repeat(20);

    config.cert_path = Some("/cert.pem".to_string());
    config.key_path = None;
    assert!(config.validate().is_err());
}

#[test]
fn test_client_config_basic() {
    let config = ClientConfig {
        server_addr: "example.com".to_string(),
        server_port: 8443,
        server_path: "/".to_string(),
        transport: TransportType::Tls,
        skip_verify: false,
        ca_cert_path: Some("/path/to/ca.pem".to_string()),
        auth_key: "a".repeat(20),
        stats_port: None,
        stats_addr: None,
    };

    assert_eq!(config.server_port, 8443);
    assert_eq!(config.transport, TransportType::Tls);
}

#[test]
fn mod_test_server_config_builder() {
    let config = ServerConfig::builder()
        .bind_addr("0.0.0.0")
        .bind_port(8443)
        .auth_key("1234567890123456")
        .build();

    assert!(config.is_ok());
}

#[test]
fn mod_test_client_config_builder() {
    let config = ClientConfig::builder()
        .server_addr("example.com")
        .server_port(8443)
        .auth_key("1234567890123456")
        .build();

    assert!(config.is_ok());
}

#[test]
fn test_rate_limit_config_default() {
    let config = RateLimitConfig::default();
    assert_eq!(config.requests_per_second, 100);
    assert_eq!(config.burst_size, 200);
}

#[test]
fn test_size_limit_config_default() {
    let config = SizeLimitConfig::default();
    assert_eq!(config.max_request_size, 1024 * 1024);
    assert_eq!(config.max_header_size, 8 * 1024);
}

#[test]
fn test_server_config_with_rate_limit() {
    let rate_limit = RateLimitConfig {
        requests_per_second: 50,
        burst_size: 100,
    };
    let mut config = server_config("a".repeat(20));
    config.rate_limit = Some(rate_limit);

    assert!(config.validate().is_ok());
    assert_eq!(config.rate_limit.as_ref().unwrap().requests_per_second, 50);
}

#[test]
fn test_server_config_with_size_limits() {
    let size_limits = SizeLimitConfig {
        max_request_size: 2 * 1024 * 1024,
        max_header_size: 16 * 1024,
    };
    let mut config = server_config("a".repeat(20));
    config.size_limits = Some(size_limits);

    assert!(config.validate().is_ok());
    assert_eq!(
        config.size_limits.as_ref().unwrap().max_request_size,
        2 * 1024 * 1024
    );
}

#[test]
fn test_validate_auth_key() {
    assert!(ConfigValidator::validate_auth_key("short").is_err());
    assert!(ConfigValidator::validate_auth_key("1234567890123456").is_ok());
    assert!(ConfigValidator::validate_auth_key("very-long-secure-key-12345678").is_ok());
}

#[test]
fn test_validate_port() {
    assert!(ConfigValidator::validate_port(0, "test").is_err());
    assert!(ConfigValidator::validate_port(8080, "test").is_ok());
    assert!(ConfigValidator::validate_port(443, "test").is_ok());
    assert!(ConfigValidator::validate_port(65535, "test").is_ok());
}

#[test]
fn test_validate_address() {
    assert!(ConfigValidator::validate_address("", "test").is_err());
    assert!(ConfigValidator::validate_address("   ", "test").is_err());
    assert!(ConfigValidator::validate_address("127.0.0.1", "test").is_ok());
    assert!(ConfigValidator::validate_address("0.0.0.0", "test").is_ok());
    assert!(ConfigValidator::validate_address("example.com", "test").is_ok());
}

#[test]
fn test_validate_name() {
    assert!(ConfigValidator::validate_name("", "test").is_err());
    assert!(ConfigValidator::validate_name("   ", "test").is_err());
    assert!(ConfigValidator::validate_name("proxy1", "test").is_ok());
    assert!(ConfigValidator::validate_name("my-proxy", "test").is_ok());
}

#[test]
fn test_validate_rate_limit_config() {
    let invalid_config = RateLimitConfig {
        requests_per_second: 0,
        burst_size: 200,
    };
    assert!(ConfigValidator::validate_rate_limit_config(&invalid_config).is_err());

    let invalid_config = RateLimitConfig {
        requests_per_second: 100,
        burst_size: 0,
    };
    assert!(ConfigValidator::validate_rate_limit_config(&invalid_config).is_err());

    let valid_config = RateLimitConfig {
        requests_per_second: 100,
        burst_size: 200,
    };
    assert!(ConfigValidator::validate_rate_limit_config(&valid_config).is_ok());
}

#[test]
fn test_validate_size_limit_config() {
    let invalid_config = SizeLimitConfig {
        max_request_size: 0,
        max_header_size: 8192,
    };
    assert!(ConfigValidator::validate_size_limit_config(&invalid_config).is_err());

    let invalid_config = SizeLimitConfig {
        max_request_size: 1048576,
        max_header_size: 0,
    };
    assert!(ConfigValidator::validate_size_limit_config(&invalid_config).is_err());

    let invalid_config = SizeLimitConfig {
        max_request_size: 8192,
        max_header_size: 16384,
    };
    assert!(ConfigValidator::validate_size_limit_config(&invalid_config).is_err());

    let valid_config = SizeLimitConfig {
        max_request_size: 1048576,
        max_header_size: 8192,
    };
    assert!(ConfigValidator::validate_size_limit_config(&valid_config).is_ok());
}

// ---- further cases of the checks ----

fn proxy(name: &str, addr: &str, publish_port: u16, local_port: u16) -> ProxyConfig {
    ProxyConfig {
        name: name.to_string(),
        proxy_type: ProxyType::Tcp,
        publish_addr: addr.to_string(),
        publish_port,
        local_port,
    }
}

#[test]
fn proxies_report_first_problem_in_order() {
    let list = vec![proxy("a", "0.0.0.0", 9000, 8080), proxy("a", "0.0.0.0", 9001, 8081)];
    assert!(matches!(
        ConfigValidator::validate_proxies(&list),
        Err(ConfigError::DuplicateName { ref name, .. }) if name == "a"
    ));

    let list = vec![proxy("a", "0.0.0.0", 9000, 8080), proxy("b", "0.0.0.0", 9000, 8081)];
    assert!(matches!(
        ConfigValidator::validate_proxies(&list),
        Err(ConfigError::DuplicateBinding { port: 9000, .. })
    ));

    let list = vec![proxy("a", "0.0.0.0", 9000, 8080), proxy("b", "0.0.0.0", 9001, 8080)];
    assert!(matches!(
        ConfigValidator::validate_proxies(&list),
        Err(ConfigError::DuplicateLocalPort { port: 8080 })
    ));

    let list = vec![proxy("web", "0.0.0.0", 0, 8080)];
    match ConfigValidator::validate_proxies(&list) {
        Err(ConfigError::PortZero { context }) => assert_eq!(context, "Proxy 'web'"),
        other => panic!("unexpected {:?}", other),
    }

    let list = vec![proxy("web", " ", 9000, 8080)];
    assert!(matches!(
        ConfigValidator::validate_proxies(&list),
        Err(ConfigError::EmptyAddress { .. })
    ));

    let list = vec![proxy("\t", "0.0.0.0", 9000, 8080)];
    assert!(matches!(
        ConfigValidator::validate_proxies(&list),
        Err(ConfigError::EmptyName { .. })
    ));

    let list = vec![proxy("a", "0.0.0.0", 9000, 8080), proxy("b", "127.0.0.1", 9000, 8081)];
    assert!(ConfigValidator::validate_proxies(&list).is_ok());
}

#[test]
fn server_checks_follow_documented_order() {
    let mut config = server_config("a".repeat(20));
    config.behind_proxy = true;
    config.transport = TransportType::Tls;
    assert!(matches!(config.validate(), Err(ConfigError::TlsBehindProxy)));

    config.transport = TransportType::Wss;
    assert!(matches!(config.validate(), Err(ConfigError::CertificatesBehindProxy)));

    config.cert_path = None;
    config.key_path = None;
    assert!(config.validate().is_ok());

    config.stats_addr = Some("  ".to_string());
    assert!(matches!(config.validate(), Err(ConfigError::EmptyAddress { .. })));
}

#[test]
fn auth_key_length_counts_bytes() {
    // 6 characters of 3 bytes each: 18 bytes
    assert!(ConfigValidator::validate_auth_key("密钥密钥密钥").is_ok());
    assert!(matches!(
        ConfigValidator::validate_auth_key("123456789012345"),
        Err(ConfigError::AuthKeyTooShort { length: 15 })
    ));
}

#[test]
fn builders_report_missing_fields_in_order() {
    assert!(matches!(
        ServerConfigBuilder::new().build(),
        Err(ConfigError::MissingField { field: RequiredField::BindAddr })
    ));
    assert!(matches!(
        ServerConfigBuilder::new().bind_addr("x").build(),
        Err(ConfigError::MissingField { field: RequiredField::BindPort })
    ));
    assert!(matches!(
        ServerConfigBuilder::new().bind_addr("x").bind_port(1).build(),
        Err(ConfigError::MissingField { field: RequiredField::AuthKey })
    ));
    assert!(matches!(
        ClientFullConfigBuilder::new().build(),
        Err(ConfigError::MissingField { field: RequiredField::Client })
    ));
    let client = ClientConfig::builder()
        .server_addr("example.com")
        .server_port(8443)
        .auth_key("1234567890123456")
        .build()
        .unwrap();
    assert_eq!(client.server_path, "/");
    assert!(matches!(
        ClientFullConfigBuilder::new().client(client).build(),
        Err(ConfigError::NothingConfigured)
    ));
}

#[test]
fn forwarder_loopback_detection() {
    assert!(ConfigValidator::is_loopback_bind_addr("127.0.0.1"));
    assert!(ConfigValidator::is_loopback_bind_addr("localhost"));
    assert!(ConfigValidator::is_loopback_bind_addr("::1"));
    assert!(!ConfigValidator::is_loopback_bind_addr("0.0.0.0"));
}

#[test]
fn config_error_messages() {
    assert_eq!(
        ConfigError::AuthKeyTooShort { length: 5 }.message(),
        "auth_key must be at least 16 characters for security (current length: 5)"
    );
    assert_eq!(
        ConfigError::PortZero { context: "Proxy 'web'".to_string() }.message(),
        "Proxy 'web': port cannot be 0"
    );
    assert_eq!(
        ConfigError::DuplicateName { section: Section::Visitor, name: "v".to_string() }.message(),
        "Duplicate visitor name 'v': each visitor must have a unique name"
    );
    assert_eq!(
        ConfigError::DuplicateBinding { section: Section::Proxy, addr: "0.0.0.0".to_string(), port: 80 }
            .message(),
        "Duplicate publish binding 0.0.0.0:80: each proxy must use a different server bind address/port"
    );
    assert_eq!(
        ConfigError::DuplicateBinding { section: Section::Forwarder, addr: "127.0.0.1".to_string(), port: 1080 }
            .message(),
        "Duplicate forwarder binding 127.0.0.1:1080: each forwarder must use a different local bind address/port"
    );
    assert_eq!(
        ConfigError::HeaderLimitAboveRequestLimit { max_header_size: 10, max_request_size: 5 }.message(),
        "size_limits.max_header_size (10) cannot be greater than max_request_size (5)"
    );
    assert_eq!(
        ConfigError::MissingField { field: RequiredField::Client }.message(),
        "client config is required"
    );
    assert_eq!(
        ConfigError::NothingConfigured.message(),
        "No proxy, visitor, or forwarder configurations defined"
    );
}

#[test]
fn limit_advice_for_doubtful_limits() {
    let mut config = server_config("a-long-enough-secret-key".to_string());
    assert!(ConfigValidator::limit_advice(&config).is_empty());
    config.rate_limit = Some(RateLimitConfig { requests_per_second: 50, burst_size: 10 });
    config.size_limits = Some(SizeLimitConfig { max_request_size: 200 * 1024 * 1024, max_header_size: 8192 });
    assert_eq!(
        ConfigValidator::limit_advice(&config),
        vec![
            "rate_limit.burst_size (10) is less than requests_per_second (50), this may cause frequent rate limiting"
                .to_string(),
            "size_limits.max_request_size is very large (209715200 bytes = 200 MB), this may lead to memory exhaustion attacks"
                .to_string(),
        ]
    );
    config.rate_limit = Some(RateLimitConfig { requests_per_second: 10, burst_size: 10 });
    config.size_limits = Some(SizeLimitConfig { max_request_size: 100 * 1024 * 1024, max_header_size: 8192 });
    assert!(ConfigValidator::limit_advice(&config).is_empty());
}
