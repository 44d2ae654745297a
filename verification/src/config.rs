use vstd::prelude::*;

use crate::text::{decimal, push_decimal, push_text, text};
use crate::transport::TransportType;

verus! {

/// How the traffic of a proxy is carried.
#[derive(Debug, Clone, Copy, PartialEq, Eq, Structural)]
pub enum ProxyType {
    /// Plain TCP; every connection is a new one.
    Tcp,
    /// HTTP/1.1, whose connections may be kept alive and reused.
    Http11,
    /// HTTP/2, one long connection multiplexing many streams.
    Http2,
    /// An HTTP proxy (forwarders only).
    HttpProxy,
    /// A SOCKS5 proxy (forwarders only).
    Socks5Proxy,
}

impl ProxyType {
    /// The type used when a configuration names none.
    pub fn default_type() -> (t: ProxyType)
        ensures
            t == ProxyType::Tcp,
    {
        ProxyType::Tcp
    }

    /// Whether connections to the local service are kept and reused.
    pub fn should_reuse_connections(self) -> (r: bool)
        ensures
            r <==> (self == ProxyType::Http11 || self == ProxyType::Http2),
    {
        match self {
            ProxyType::Tcp => false,
            ProxyType::Http11 => true,
            ProxyType::Http2 => true,
            ProxyType::HttpProxy | ProxyType::Socks5Proxy => false,
        }
    }

    /// Whether one long connection carries every stream.
    pub fn is_multiplexed(self) -> (r: bool)
        ensures
            r <==> self == ProxyType::Http2,
    {
        matches!(self, ProxyType::Http2)
    }

    /// The name of the variant, as `{:?}` prints it.
    pub fn debug_name(self) -> (s: &'static str)
        ensures
            s@ == proxy_type_debug_name(self),
    {
        match self {
            ProxyType::Tcp => "Tcp",
            ProxyType::Http11 => "Http11",
            ProxyType::Http2 => "Http2",
            ProxyType::HttpProxy => "HttpProxy",
            ProxyType::Socks5Proxy => "Socks5Proxy",
        }
    }

    /// The name that configuration files use for the type.
    pub fn config_name(self) -> (s: &'static str)
        ensures
            s@ == proxy_type_config_name(self),
    {
        match self {
            ProxyType::Tcp => "tcp",
            ProxyType::Http11 => "http/1.1",
            ProxyType::Http2 => "http/2.0",
            ProxyType::HttpProxy => "http",
            ProxyType::Socks5Proxy => "socks5",
        }
    }
}

/// The variant name of a proxy type.
pub open spec fn proxy_type_debug_name(t: ProxyType) -> Seq<char> {
    match t {
        ProxyType::Tcp => "Tcp"@,
        ProxyType::Http11 => "Http11"@,
        ProxyType::Http2 => "Http2"@,
        ProxyType::HttpProxy => "HttpProxy"@,
        ProxyType::Socks5Proxy => "Socks5Proxy"@,
    }
}

/// The configuration-file name of a proxy type.
pub open spec fn proxy_type_config_name(t: ProxyType) -> Seq<char> {
    match t {
        ProxyType::Tcp => "tcp"@,
        ProxyType::Http11 => "http/1.1"@,
        ProxyType::Http2 => "http/2.0"@,
        ProxyType::HttpProxy => "http"@,
        ProxyType::Socks5Proxy => "socks5"@,
    }
}

/// A service of this client that the server publishes.
#[derive(Debug, Clone)]
pub struct ProxyConfig {
    /// Name of the proxy.
    pub name: String,
    /// How its traffic is carried.
    pub proxy_type: ProxyType,
    /// Address that the server binds for it.
    pub publish_addr: String,
    /// Port that the server binds for it.
    pub publish_port: u16,
    /// Port of the local service that connections go to.
    pub local_port: u16,
}

impl ProxyConfig {
    /// The publish address used when a configuration names none.
    pub fn default_publish_addr() -> (s: String)
        ensures
            s@ == "0.0.0.0"@,
    {
        text("0.0.0.0")
    }
}

/// A local port of this client that reaches a proxy of another client.
#[derive(Debug, Clone)]
pub struct VisitorConfig {
    /// Name of the proxy to reach.
    pub name: String,
    /// How its traffic is carried.
    pub proxy_type: ProxyType,
    /// Local address to bind.
    pub bind_addr: String,
    /// Local port to bind.
    pub bind_port: u16,
    /// Publish port of the proxy to reach.
    pub publish_port: u16,
}

impl VisitorConfig {
    /// The bind address used when a configuration names none.
    pub fn default_bind_addr() -> (s: String)
        ensures
            s@ == "127.0.0.1"@,
    {
        text("127.0.0.1")
    }
}

/// A local HTTP or SOCKS5 proxy of this client that forwards to the outside
/// network.
#[derive(Debug, Clone)]
pub struct ForwarderConfig {
    /// Name of the forwarder.
    pub name: String,
    /// `HttpProxy` or `Socks5Proxy`.
    pub proxy_type: ProxyType,
    /// Local address to bind.
    pub bind_addr: String,
    /// Local port to bind.
    pub bind_port: u16,
    /// Routing rules, if any.
    pub routing: Option<RoutingConfig>,
}

/// Which way a forwarded connection goes.
#[derive(Debug, Clone, Copy, PartialEq, Eq, Structural)]
pub enum RoutingStrategy {
    /// Straight to the target.
    Direct,
    /// Through the tunnel.
    Proxy,
}

/// The strategy used when a configuration names none.
pub fn default_routing_strategy() -> (s: RoutingStrategy)
    ensures
        s == RoutingStrategy::Proxy,
{
    RoutingStrategy::Proxy
}

/// Routing rules of a forwarder.
#[derive(Debug, Clone)]
pub struct RoutingConfig {
    /// Path of a GeoIP database.
    pub geoip_db: Option<String>,
    /// Countries reached directly.
    pub direct_countries: Vec<String>,
    /// Countries reached through the tunnel.
    pub proxy_countries: Vec<String>,
    /// Addresses reached directly.
    pub direct_ips: Vec<String>,
    /// Addresses reached through the tunnel.
    pub proxy_ips: Vec<String>,
    /// Domains reached directly.
    pub direct_domains: Vec<String>,
    /// Domains reached through the tunnel.
    pub proxy_domains: Vec<String>,
    /// What happens to everything else.
    pub default_strategy: RoutingStrategy,
}

/// Limits on how fast new connections are accepted.
#[derive(Debug, Clone, Copy)]
pub struct RateLimitConfig {
    /// New connections allowed per second.
    pub requests_per_second: u32,
    /// How many may come at once.
    pub burst_size: u32,
}

impl Default for RateLimitConfig {
    fn default() -> (c: Self)
        ensures
            c.requests_per_second == 100,
            c.burst_size == 200,
    {
        RateLimitConfig { requests_per_second: 100, burst_size: 200 }
    }
}

/// Limits on the size of requests.
#[derive(Debug, Clone, Copy)]
pub struct SizeLimitConfig {
    /// Largest request body in bytes.
    pub max_request_size: usize,
    /// Largest HTTP header block in bytes.
    pub max_header_size: usize,
}

impl Default for SizeLimitConfig {
    fn default() -> (c: Self)
        ensures
            c.max_request_size == 1024 * 1024,
            c.max_header_size == 8 * 1024,
    {
        SizeLimitConfig { max_request_size: 1024 * 1024, max_header_size: 8 * 1024 }
    }
}

/// Configuration of the server.
#[derive(Debug, Clone)]
pub struct ServerConfig {
    /// Address to listen on.
    pub bind_addr: String,
    /// Port to listen on.
    pub bind_port: u16,
    /// Transport that clients use.
    pub transport: TransportType,
    /// Whether a reverse proxy terminates TLS in front of the server.
    pub behind_proxy: bool,
    /// Path of the TLS certificate.
    pub cert_path: Option<String>,
    /// Path of the TLS private key.
    pub key_path: Option<String>,
    /// Key that clients authenticate with.
    pub auth_key: String,
    /// Port of the statistics page.
    pub stats_port: Option<u16>,
    /// Address of the statistics page.
    pub stats_addr: Option<String>,
    /// Whether clients may forward to the outside network through the server.
    pub allow_forward: bool,
    /// Limits on new connections.
    pub rate_limit: Option<RateLimitConfig>,
    /// Limits on request sizes.
    pub size_limits: Option<SizeLimitConfig>,
}

/// Configuration of the client's connection to the server.
#[derive(Debug, Clone)]
pub struct ClientConfig {
    /// Address of the server.
    pub server_addr: String,
    /// Port of the server.
    pub server_port: u16,
    /// Path under which a reverse proxy serves the server.
    pub server_path: String,
    /// Transport to use.
    pub transport: TransportType,
    /// Whether to skip certificate verification (testing only).
    pub skip_verify: bool,
    /// Path of a CA certificate.
    pub ca_cert_path: Option<String>,
    /// Key to authenticate with.
    pub auth_key: String,
    /// Port of the statistics page.
    pub stats_port: Option<u16>,
    /// Address of the statistics page.
    pub stats_addr: Option<String>,
}

impl ClientConfig {
    /// The server path used when a configuration names none.
    pub fn default_server_path() -> (s: String)
        ensures
            s@ == "/"@,
    {
        text("/")
    }
}

/// The complete configuration of a client.
#[derive(Debug, Clone)]
pub struct ClientFullConfig {
    /// Connection to the server.
    pub client: ClientConfig,
    /// Services published through the server.
    pub proxies: Vec<ProxyConfig>,
    /// Local ports that reach proxies of other clients.
    pub visitors: Vec<VisitorConfig>,
    /// Local proxies to the outside network.
    pub forwarders: Vec<ForwarderConfig>,
}

/// A configuration file holds either side.
#[derive(Debug, Clone)]
pub enum AppConfig {
    /// Server side.
    Server(ServerConfig),
    /// Client side.
    Client(ClientFullConfig),
}

/// The list that a configuration entry belongs to.
#[derive(Debug, Clone, Copy, PartialEq, Eq, Structural)]
pub enum Section {
    /// `proxies`
    Proxy,
    /// `visitors`
    Visitor,
    /// `forwarders`
    Forwarder,
}

/// A field that a builder needs before it can build.
#[derive(Debug, Clone, Copy, PartialEq, Eq, Structural)]
pub enum RequiredField {
    /// `bind_addr`
    BindAddr,
    /// `bind_port`
    BindPort,
    /// `auth_key`
    AuthKey,
    /// `server_addr`
    ServerAddr,
    /// `server_port`
    ServerPort,
    /// `client`
    Client,
}

/// A field of a proxy that the server found invalid.
#[derive(Debug, Clone, Copy, PartialEq, Eq, Structural)]
pub enum ProxyField {
    /// `publish_addr` is blank.
    PublishAddr,
    /// `publish_port` is 0.
    PublishPort,
    /// `local_port` is 0.
    LocalPort,
}

/// Why a configuration was refused.
#[derive(Debug, Clone)]
pub enum ConfigError {
    /// The authentication key is shorter than 16 bytes.
    AuthKeyTooShort { length: usize },
    /// A port is 0.
    PortZero { context: String },
    /// An address is blank.
    EmptyAddress { context: String },
    /// A name is blank.
    EmptyName { context: String },
    /// Two entries of a list share a name.
    DuplicateName { section: Section, name: String },
    /// Two entries of a list bind the same address and port.
    DuplicateBinding { section: Section, addr: String, port: u16 },
    /// Two proxies lead to the same local port.
    DuplicateLocalPort { port: u16 },
    /// Only one of the certificate and the key is given.
    CertificatePairIncomplete,
    /// The TLS transport is configured behind a reverse proxy.
    TlsBehindProxy,
    /// Certificates are configured behind a reverse proxy.
    CertificatesBehindProxy,
    /// `requests_per_second` is 0.
    ZeroRequestsPerSecond,
    /// `burst_size` is 0.
    ZeroBurstSize,
    /// `max_request_size` is 0.
    ZeroMaxRequestSize,
    /// `max_header_size` is 0.
    ZeroMaxHeaderSize,
    /// `max_header_size` exceeds `max_request_size`.
    HeaderLimitAboveRequestLimit { max_header_size: usize, max_request_size: usize },
    /// A client configuration with no proxy, visitor or forwarder.
    NothingConfigured,
    /// A builder lacks a required field.
    MissingField { field: RequiredField },
    /// A proxy sent to the server publishes on the server's own port.
    PortConflictsWithServer { name: String, port: u16 },
    /// A proxy sent to the server has an invalid field.
    InvalidProxyField { name: String, which: ProxyField },
    /// A proxy sent to the server has a blank name.
    BlankProxyName,
}

/// A `ConfigError` with its texts taken as character sequences.
pub enum ConfigErrorView {
    AuthKeyTooShort { length: usize },
    PortZero { context: Seq<char> },
    EmptyAddress { context: Seq<char> },
    EmptyName { context: Seq<char> },
    DuplicateName { section: Section, name: Seq<char> },
    DuplicateBinding { section: Section, addr: Seq<char>, port: u16 },
    DuplicateLocalPort { port: u16 },
    CertificatePairIncomplete,
    TlsBehindProxy,
    CertificatesBehindProxy,
    ZeroRequestsPerSecond,
    ZeroBurstSize,
    ZeroMaxRequestSize,
    ZeroMaxHeaderSize,
    HeaderLimitAboveRequestLimit { max_header_size: usize, max_request_size: usize },
    NothingConfigured,
    MissingField { field: RequiredField },
    PortConflictsWithServer { name: Seq<char>, port: u16 },
    InvalidProxyField { name: Seq<char>, which: ProxyField },
    BlankProxyName,
}

impl View for ConfigError {
    type V = ConfigErrorView;

    open spec fn view(&self) -> ConfigErrorView {
        match self {
            ConfigError::AuthKeyTooShort { length } => ConfigErrorView::AuthKeyTooShort {
                length: *length,
            },
            ConfigError::PortZero { context } => ConfigErrorView::PortZero { context: context@ },
            ConfigError::EmptyAddress { context } => ConfigErrorView::EmptyAddress {
                context: context@,
            },
            ConfigError::EmptyName { context } => ConfigErrorView::EmptyName { context: context@ },
            ConfigError::DuplicateName { section, name } => ConfigErrorView::DuplicateName {
                section: *section,
                name: name@,
            },
            ConfigError::DuplicateBinding { section, addr, port } =>
                ConfigErrorView::DuplicateBinding { section: *section, addr: addr@, port: *port },
            ConfigError::DuplicateLocalPort { port } => ConfigErrorView::DuplicateLocalPort {
                port: *port,
            },
            ConfigError::CertificatePairIncomplete => ConfigErrorView::CertificatePairIncomplete,
            ConfigError::TlsBehindProxy => ConfigErrorView::TlsBehindProxy,
            ConfigError::CertificatesBehindProxy => ConfigErrorView::CertificatesBehindProxy,
            ConfigError::ZeroRequestsPerSecond => ConfigErrorView::ZeroRequestsPerSecond,
            ConfigError::ZeroBurstSize => ConfigErrorView::ZeroBurstSize,
            ConfigError::ZeroMaxRequestSize => ConfigErrorView::ZeroMaxRequestSize,
            ConfigError::ZeroMaxHeaderSize => ConfigErrorView::ZeroMaxHeaderSize,
            ConfigError::HeaderLimitAboveRequestLimit { max_header_size, max_request_size } =>
                ConfigErrorView::HeaderLimitAboveRequestLimit {
                max_header_size: *max_header_size,
                max_request_size: *max_request_size,
            },
            ConfigError::NothingConfigured => ConfigErrorView::NothingConfigured,
            ConfigError::MissingField { field } => ConfigErrorView::MissingField { field: *field },
            ConfigError::PortConflictsWithServer { name, port } =>
                ConfigErrorView::PortConflictsWithServer { name: name@, port: *port },
            ConfigError::InvalidProxyField { name, which } => ConfigErrorView::InvalidProxyField {
                name: name@,
                which: *which,
            },
            ConfigError::BlankProxyName => ConfigErrorView::BlankProxyName,
        }
    }
}

/// The verdict of a check: `None` when it passes, else the first problem.
pub type Verdict = Option<ConfigErrorView>;

/// A check result as a verdict.
pub open spec fn verdict_of(r: Result<(), ConfigError>) -> Verdict {
    match r {
        Ok(()) => None,
        Err(e) => Some(e@),
    }
}

/// The name of a list's entries in messages.
pub open spec fn section_word(section: Section) -> Seq<char> {
    match section {
        Section::Proxy => "proxy"@,
        Section::Visitor => "visitor"@,
        Section::Forwarder => "forwarder"@,
    }
}

/// What the duplicate binding of a list's entry is called.
pub open spec fn binding_word(section: Section) -> Seq<char> {
    match section {
        Section::Proxy => "publish"@,
        Section::Visitor => "visitor"@,
        Section::Forwarder => "forwarder"@,
    }
}

/// What an entry of a list binds, in messages.
pub open spec fn binding_kind(section: Section) -> Seq<char> {
    match section {
        Section::Proxy => "server"@,
        _ => "local"@,
    }
}

/// The name of a required field in messages.
pub open spec fn field_word(field: RequiredField) -> Seq<char> {
    match field {
        RequiredField::BindAddr => "bind_addr"@,
        RequiredField::BindPort => "bind_port"@,
        RequiredField::AuthKey => "auth_key"@,
        RequiredField::ServerAddr => "server_addr"@,
        RequiredField::ServerPort => "server_port"@,
        RequiredField::Client => "client config"@,
    }
}

/// The name of an invalid proxy field in messages.
pub open spec fn proxy_field_word(which: ProxyField) -> Seq<char> {
    match which {
        ProxyField::PublishAddr => "publish_addr cannot be empty"@,
        ProxyField::PublishPort => "publish_port cannot be 0"@,
        ProxyField::LocalPort => "local_port cannot be 0"@,
    }
}

/// The message of a configuration error.
pub open spec fn config_error_text(e: ConfigErrorView) -> Seq<char> {
    match e {
        ConfigErrorView::AuthKeyTooShort { length } =>
            "auth_key must be at least 16 characters for security (current length: "@ + decimal(
            length as nat,
        ) + ")"@,
        ConfigErrorView::PortZero { context } => context + ": port cannot be 0"@,
        ConfigErrorView::EmptyAddress { context } => context + ": address cannot be empty"@,
        ConfigErrorView::EmptyName { context } => context + ": name cannot be empty"@,
        ConfigErrorView::DuplicateName { section, name } => "Duplicate "@ + section_word(section)
            + " name '"@ + name + "': each "@ + section_word(section) + " must have a unique name"@,
        ConfigErrorView::DuplicateBinding { section, addr, port } => "Duplicate "@ + binding_word(
            section,
        ) + " binding "@ + addr + ":"@ + decimal(port as nat) + ": each "@ + section_word(section)
            + " must use a different "@ + binding_kind(section) + " bind address/port"@,
        ConfigErrorView::DuplicateLocalPort { port } => "Duplicate local_port "@ + decimal(
            port as nat,
        ) + ": each proxy must connect to a different local service"@,
        ConfigErrorView::CertificatePairIncomplete =>
            "cert_path and key_path must both be set, or both omitted to auto-generate"@,
        ConfigErrorView::TlsBehindProxy =>
            "TLS transport cannot run behind a proxy. Use http2 or wss transport instead."@,
        ConfigErrorView::CertificatesBehindProxy =>
            "Certificates are not needed when running behind a proxy (TLS is terminated by the proxy)."@,
        ConfigErrorView::ZeroRequestsPerSecond =>
            "rate_limit.requests_per_second must be greater than 0"@,
        ConfigErrorView::ZeroBurstSize => "rate_limit.burst_size must be greater than 0"@,
        ConfigErrorView::ZeroMaxRequestSize => "size_limits.max_request_size must be greater than 0"@,
        ConfigErrorView::ZeroMaxHeaderSize => "size_limits.max_header_size must be greater than 0"@,
        ConfigErrorView::HeaderLimitAboveRequestLimit { max_header_size, max_request_size } =>
            "size_limits.max_header_size ("@ + decimal(max_header_size as nat)
            + ") cannot be greater than max_request_size ("@ + decimal(max_request_size as nat)
            + ")"@,
        ConfigErrorView::NothingConfigured =>
            "No proxy, visitor, or forwarder configurations defined"@,
        ConfigErrorView::MissingField { field } => field_word(field) + " is required"@,
        ConfigErrorView::PortConflictsWithServer { name, port } => "Proxy '"@ + name
            + "' publish_port "@ + decimal(port as nat) + " conflicts with server bind port"@,
        ConfigErrorView::InvalidProxyField { name, which } => "Proxy '"@ + name + "': "@
            + proxy_field_word(which),
        ConfigErrorView::BlankProxyName => "Proxy name cannot be empty"@,
    }
}

impl Section {
    /// The name of the list's entries in messages.
    pub fn word(self) -> (s: &'static str)
        ensures
            s@ == section_word(self),
    {
        proof {
            reveal_strlit("proxy");
            reveal_strlit("visitor");
            reveal_strlit("forwarder");
        }
        match self {
            Section::Proxy => "proxy",
            Section::Visitor => "visitor",
            Section::Forwarder => "forwarder",
        }
    }
}

impl ConfigError {
    /// The error's message.
    pub fn message(&self) -> (s: String)
        ensures
            s@ == config_error_text(self@),
    {
        let mut s = String::new();
        match self {
            ConfigError::AuthKeyTooShort { length } => {
                push_text(&mut s, "auth_key must be at least 16 characters for security (current length: ");
                push_decimal(&mut s, *length as u128);
                push_text(&mut s, ")");
            },
            ConfigError::PortZero { context } => {
                push_text(&mut s, context.as_str());
                push_text(&mut s, ": port cannot be 0");
            },
            ConfigError::EmptyAddress { context } => {
                push_text(&mut s, context.as_str());
                push_text(&mut s, ": address cannot be empty");
            },
            ConfigError::EmptyName { context } => {
                push_text(&mut s, context.as_str());
                push_text(&mut s, ": name cannot be empty");
            },
            ConfigError::DuplicateName { section, name } => {
                push_text(&mut s, "Duplicate ");
                push_text(&mut s, section.word());
                push_text(&mut s, " name '");
                push_text(&mut s, name.as_str());
                push_text(&mut s, "': each ");
                push_text(&mut s, section.word());
                push_text(&mut s, " must have a unique name");
            },
            ConfigError::DuplicateBinding { section, addr, port } => {
                push_text(&mut s, "Duplicate ");
                proof {
                    reveal_strlit("publish");
                    reveal_strlit("visitor");
                    reveal_strlit("forwarder");
                    reveal_strlit("server");
                    reveal_strlit("local");
                }
                let (bw, kind) = match section {
                    Section::Proxy => ("publish", "server"),
                    Section::Visitor => ("visitor", "local"),
                    Section::Forwarder => ("forwarder", "local"),
                };
                push_text(&mut s, bw);
                push_text(&mut s, " binding ");
                push_text(&mut s, addr.as_str());
                push_text(&mut s, ":");
                push_decimal(&mut s, *port as u128);
                push_text(&mut s, ": each ");
                push_text(&mut s, section.word());
                push_text(&mut s, " must use a different ");
                push_text(&mut s, kind);
                push_text(&mut s, " bind address/port");
            },
            ConfigError::DuplicateLocalPort { port } => {
                push_text(&mut s, "Duplicate local_port ");
                push_decimal(&mut s, *port as u128);
                push_text(&mut s, ": each proxy must connect to a different local service");
            },
            ConfigError::CertificatePairIncomplete => {
                push_text(&mut s, "cert_path and key_path must both be set, or both omitted to auto-generate");
            },
            ConfigError::TlsBehindProxy => {
                push_text(&mut s, "TLS transport cannot run behind a proxy. Use http2 or wss transport instead.");
            },
            ConfigError::CertificatesBehindProxy => {
                push_text(&mut s, "Certificates are not needed when running behind a proxy (TLS is terminated by the proxy).");
            },
            ConfigError::ZeroRequestsPerSecond => {
                push_text(&mut s, "rate_limit.requests_per_second must be greater than 0");
            },
            ConfigError::ZeroBurstSize => {
                push_text(&mut s, "rate_limit.burst_size must be greater than 0");
            },
            ConfigError::ZeroMaxRequestSize => {
                push_text(&mut s, "size_limits.max_request_size must be greater than 0");
            },
            ConfigError::ZeroMaxHeaderSize => {
                push_text(&mut s, "size_limits.max_header_size must be greater than 0");
            },
            ConfigError::HeaderLimitAboveRequestLimit { max_header_size, max_request_size } => {
                push_text(&mut s, "size_limits.max_header_size (");
                push_decimal(&mut s, *max_header_size as u128);
                push_text(&mut s, ") cannot be greater than max_request_size (");
                push_decimal(&mut s, *max_request_size as u128);
                push_text(&mut s, ")");
            },
            ConfigError::NothingConfigured => {
                push_text(&mut s, "No proxy, visitor, or forwarder configurations defined");
            },
            ConfigError::MissingField { field } => {
                proof {
                    reveal_strlit("bind_addr");
                    reveal_strlit("bind_port");
                    reveal_strlit("auth_key");
                    reveal_strlit("server_addr");
                    reveal_strlit("server_port");
                    reveal_strlit("client config");
                }
                let w = match field {
                    RequiredField::BindAddr => "bind_addr",
                    RequiredField::BindPort => "bind_port",
                    RequiredField::AuthKey => "auth_key",
                    RequiredField::ServerAddr => "server_addr",
                    RequiredField::ServerPort => "server_port",
                    RequiredField::Client => "client config",
                };
                push_text(&mut s, w);
                push_text(&mut s, " is required");
            },
            ConfigError::PortConflictsWithServer { name, port } => {
                push_text(&mut s, "Proxy '");
                push_text(&mut s, name.as_str());
                push_text(&mut s, "' publish_port ");
                push_decimal(&mut s, *port as u128);
                push_text(&mut s, " conflicts with server bind port");
            },
            ConfigError::InvalidProxyField { name, which } => {
                push_text(&mut s, "Proxy '");
                push_text(&mut s, name.as_str());
                push_text(&mut s, "': ");
                proof {
                    reveal_strlit("publish_addr cannot be empty");
                    reveal_strlit("publish_port cannot be 0");
                    reveal_strlit("local_port cannot be 0");
                }
                let w = match which {
                    ProxyField::PublishAddr => "publish_addr cannot be empty",
                    ProxyField::PublishPort => "publish_port cannot be 0",
                    ProxyField::LocalPort => "local_port cannot be 0",
                };
                push_text(&mut s, w);
            },
            ConfigError::BlankProxyName => {
                push_text(&mut s, "Proxy name cannot be empty");
            },
        }
        assert(s@ =~= config_error_text(self@));
        s
    }
}

} // verus!
