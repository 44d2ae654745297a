use vstd::prelude::*;

use crate::config::{
    verdict_of, ClientConfig, ClientFullConfig, ConfigError, ConfigErrorView, ForwarderConfig,
    ProxyConfig, RequiredField, ServerConfig, Verdict, VisitorConfig,
};
use crate::text::text;
use crate::transport::TransportType;
use crate::validator::{
    auth_key_verdict, client_full_fields_verdict, opt_text, server_fields_verdict, ConfigValidator,
};

verus! {

/// Builds a `ServerConfig` field by field.
#[derive(Debug)]
pub struct ServerConfigBuilder {
    bind_addr: Option<String>,
    bind_port: Option<u16>,
    transport: Option<TransportType>,
    behind_proxy: bool,
    cert_path: Option<String>,
    key_path: Option<String>,
    auth_key: Option<String>,
    stats_port: Option<u16>,
    stats_addr: Option<String>,
    allow_forward: bool,
}

/// What a `ServerConfigBuilder` holds so far.
pub struct ServerConfigBuilderView {
    pub bind_addr: Option<Seq<char>>,
    pub bind_port: Option<u16>,
    pub transport: Option<TransportType>,
    pub behind_proxy: bool,
    pub cert_path: Option<Seq<char>>,
    pub key_path: Option<Seq<char>>,
    pub auth_key: Option<Seq<char>>,
    pub stats_port: Option<u16>,
    pub stats_addr: Option<Seq<char>>,
    pub allow_forward: bool,
}

impl View for ServerConfigBuilder {
    type V = ServerConfigBuilderView;

    closed spec fn view(&self) -> ServerConfigBuilderView {
        ServerConfigBuilderView {
            bind_addr: opt_text(self.bind_addr),
            bind_port: self.bind_port,
            transport: self.transport,
            behind_proxy: self.behind_proxy,
            cert_path: opt_text(self.cert_path),
            key_path: opt_text(self.key_path),
            auth_key: opt_text(self.auth_key),
            stats_port: self.stats_port,
            stats_addr: opt_text(self.stats_addr),
            allow_forward: self.allow_forward,
        }
    }
}

/// The transport a builder settles on: the one set, else TLS.
pub open spec fn chosen_transport(t: Option<TransportType>) -> TransportType {
    match t {
        Some(t) => t,
        None => TransportType::Tls,
    }
}

/// Why a server builder holding `b` cannot build, if it cannot: the first
/// missing required field, else the first problem of the configuration.
pub open spec fn server_build_verdict(b: ServerConfigBuilderView) -> Verdict {
    if b.bind_addr is None {
        Some(ConfigErrorView::MissingField { field: RequiredField::BindAddr })
    } else if b.bind_port is None {
        Some(ConfigErrorView::MissingField { field: RequiredField::BindPort })
    } else if b.auth_key is None {
        Some(ConfigErrorView::MissingField { field: RequiredField::AuthKey })
    } else {
        server_fields_verdict(
            b.bind_addr->0,
            b.auth_key->0,
            b.stats_addr,
            b.cert_path is Some,
            b.key_path is Some,
            b.behind_proxy,
            chosen_transport(b.transport),
            None,
            None,
        )
    }
}

impl ServerConfigBuilder {
    /// A builder with nothing set.
    pub fn new() -> (b: Self)
        ensures
            b@.bind_addr is None,
            b@.bind_port is None,
            b@.transport is None,
            !b@.behind_proxy,
            b@.cert_path is None,
            b@.key_path is None,
            b@.auth_key is None,
            b@.stats_port is None,
            b@.stats_addr is None,
            !b@.allow_forward,
    {
        ServerConfigBuilder {
            bind_addr: None,
            bind_port: None,
            transport: None,
            behind_proxy: false,
            cert_path: None,
            key_path: None,
            auth_key: None,
            stats_port: None,
            stats_addr: None,
            allow_forward: false,
        }
    }

    /// Sets the address to listen on.
    pub fn bind_addr(self, addr: &str) -> (b: Self)
        ensures
            b@ == (ServerConfigBuilderView { bind_addr: Some(addr@), ..self@ }),
    {
        ServerConfigBuilder { bind_addr: Some(text(addr)), ..self }
    }

    /// Sets the port to listen on.
    pub fn bind_port(self, port: u16) -> (b: Self)
        ensures
            b@ == (ServerConfigBuilderView { bind_port: Some(port), ..self@ }),
    {
        ServerConfigBuilder { bind_port: Some(port), ..self }
    }

    /// Sets the transport.
    pub fn transport(self, transport: TransportType) -> (b: Self)
        ensures
            b@ == (ServerConfigBuilderView { transport: Some(transport), ..self@ }),
    {
        ServerConfigBuilder { transport: Some(transport), ..self }
    }

    /// Sets whether a reverse proxy stands in front.
    pub fn behind_proxy(self, behind: bool) -> (b: Self)
        ensures
            b@ == (ServerConfigBuilderView { behind_proxy: behind, ..self@ }),
    {
        ServerConfigBuilder { behind_proxy: behind, ..self }
    }

    /// Sets the certificate path.
    pub fn cert_path(self, path: &str) -> (b: Self)
        ensures
            b@ == (ServerConfigBuilderView { cert_path: Some(path@), ..self@ }),
    {
        ServerConfigBuilder { cert_path: Some(text(path)), ..self }
    }

    /// Sets the private key path.
    pub fn key_path(self, path: &str) -> (b: Self)
        ensures
            b@ == (ServerConfigBuilderView { key_path: Some(path@), ..self@ }),
    {
        ServerConfigBuilder { key_path: Some(text(path)), ..self }
    }

    /// Sets the authentication key.
    pub fn auth_key(self, key: &str) -> (b: Self)
        ensures
            b@ == (ServerConfigBuilderView { auth_key: Some(key@), ..self@ }),
    {
        ServerConfigBuilder { auth_key: Some(text(key)), ..self }
    }

    /// Sets the statistics port.
    pub fn stats_port(self, port: u16) -> (b: Self)
        ensures
            b@ == (ServerConfigBuilderView { stats_port: Some(port), ..self@ }),
    {
        ServerConfigBuilder { stats_port: Some(port), ..self }
    }

    /// Sets the statistics address.
    pub fn stats_addr(self, addr: &str) -> (b: Self)
        ensures
            b@ == (ServerConfigBuilderView { stats_addr: Some(addr@), ..self@ }),
    {
        ServerConfigBuilder { stats_addr: Some(text(addr)), ..self }
    }

    /// Sets whether forwarding through the server is allowed.
    pub fn allow_forward(self, allow: bool) -> (b: Self)
        ensures
            b@ == (ServerConfigBuilderView { allow_forward: allow, ..self@ }),
    {
        ServerConfigBuilder { allow_forward: allow, ..self }
    }

    /// Builds the configuration and checks it.
    pub fn build(self) -> (r: Result<ServerConfig, ConfigError>)
        ensures
            match r {
                Ok(c) => {
                    &&& server_build_verdict(self@) is None
                    &&& c.bind_addr@ == self@.bind_addr->0
                    &&& c.bind_port == self@.bind_port->0
                    &&& c.transport == chosen_transport(self@.transport)
                    &&& c.behind_proxy == self@.behind_proxy
                    &&& opt_text(c.cert_path) == self@.cert_path
                    &&& opt_text(c.key_path) == self@.key_path
                    &&& c.auth_key@ == self@.auth_key->0
                    &&& c.stats_port == self@.stats_port
                    &&& opt_text(c.stats_addr) == self@.stats_addr
                    &&& c.allow_forward == self@.allow_forward
                    &&& c.rate_limit is None
                    &&& c.size_limits is None
                },
                Err(e) => server_build_verdict(self@) == Some(e@),
            },
    {
        let bind_addr = match self.bind_addr {
            Some(a) => a,
            None => return Err(ConfigError::MissingField { field: RequiredField::BindAddr }),
        };
        let bind_port = match self.bind_port {
            Some(p) => p,
            None => return Err(ConfigError::MissingField { field: RequiredField::BindPort }),
        };
        let auth_key = match self.auth_key {
            Some(k) => k,
            None => return Err(ConfigError::MissingField { field: RequiredField::AuthKey }),
        };
        let transport = match self.transport {
            Some(t) => t,
            None => TransportType::default_transport(),
        };
        let config = ServerConfig {
            bind_addr,
            bind_port,
            transport,
            behind_proxy: self.behind_proxy,
            cert_path: self.cert_path,
            key_path: self.key_path,
            auth_key,
            stats_port: self.stats_port,
            stats_addr: self.stats_addr,
            allow_forward: self.allow_forward,
            rate_limit: None,
            size_limits: None,
        };
        ConfigValidator::validate_server_config(&config)?;
        Ok(config)
    }
}

/// Builds a `ClientConfig` field by field.
#[derive(Debug)]
pub struct ClientConfigBuilder {
    server_addr: Option<String>,
    server_port: Option<u16>,
    server_path: String,
    transport: Option<TransportType>,
    skip_verify: bool,
    ca_cert_path: Option<String>,
    auth_key: Option<String>,
}

/// What a `ClientConfigBuilder` holds so far.
pub struct ClientConfigBuilderView {
    pub server_addr: Option<Seq<char>>,
    pub server_port: Option<u16>,
    pub server_path: Seq<char>,
    pub transport: Option<TransportType>,
    pub skip_verify: bool,
    pub ca_cert_path: Option<Seq<char>>,
    pub auth_key: Option<Seq<char>>,
}

impl View for ClientConfigBuilder {
    type V = ClientConfigBuilderView;

    closed spec fn view(&self) -> ClientConfigBuilderView {
        ClientConfigBuilderView {
            server_addr: opt_text(self.server_addr),
            server_port: self.server_port,
            server_path: self.server_path@,
            transport: self.transport,
            skip_verify: self.skip_verify,
            ca_cert_path: opt_text(self.ca_cert_path),
            auth_key: opt_text(self.auth_key),
        }
    }
}

/// Why a client builder holding `b` cannot build, if it cannot.
pub open spec fn client_build_verdict(b: ClientConfigBuilderView) -> Verdict {
    if b.server_addr is None {
        Some(ConfigErrorView::MissingField { field: RequiredField::ServerAddr })
    } else if b.server_port is None {
        Some(ConfigErrorView::MissingField { field: RequiredField::ServerPort })
    } else if b.auth_key is None {
        Some(ConfigErrorView::MissingField { field: RequiredField::AuthKey })
    } else {
        auth_key_verdict(b.auth_key->0)
    }
}

impl ClientConfigBuilder {
    /// A builder with nothing set and the server path `/`.
    pub fn new() -> (b: Self)
        ensures
            b@.server_addr is None,
            b@.server_port is None,
            b@.server_path == "/"@,
            b@.transport is None,
            !b@.skip_verify,
            b@.ca_cert_path is None,
            b@.auth_key is None,
    {
        ClientConfigBuilder {
            server_addr: None,
            server_port: None,
            server_path: ClientConfig::default_server_path(),
            transport: None,
            skip_verify: false,
            ca_cert_path: None,
            auth_key: None,
        }
    }

    /// Sets the server address.
    pub fn server_addr(self, addr: &str) -> (b: Self)
        ensures
            b@ == (ClientConfigBuilderView { server_addr: Some(addr@), ..self@ }),
    {
        ClientConfigBuilder { server_addr: Some(text(addr)), ..self }
    }

    /// Sets the server port.
    pub fn server_port(self, port: u16) -> (b: Self)
        ensures
            b@ == (ClientConfigBuilderView { server_port: Some(port), ..self@ }),
    {
        ClientConfigBuilder { server_port: Some(port), ..self }
    }

    /// Sets the server path.
    pub fn server_path(self, path: &str) -> (b: Self)
        ensures
            b@ == (ClientConfigBuilderView { server_path: path@, ..self@ }),
    {
        ClientConfigBuilder { server_path: text(path), ..self }
    }

    /// Sets the transport.
    pub fn transport(self, transport: TransportType) -> (b: Self)
        ensures
            b@ == (ClientConfigBuilderView { transport: Some(transport), ..self@ }),
    {
        ClientConfigBuilder { transport: Some(transport), ..self }
    }

    /// Sets whether certificate verification is skipped.
    pub fn skip_verify(self, skip: bool) -> (b: Self)
        ensures
            b@ == (ClientConfigBuilderView { skip_verify: skip, ..self@ }),
    {
        ClientConfigBuilder { skip_verify: skip, ..self }
    }

    /// Sets the CA certificate path.
    pub fn ca_cert_path(self, path: &str) -> (b: Self)
        ensures
            b@ == (ClientConfigBuilderView { ca_cert_path: Some(path@), ..self@ }),
    {
        ClientConfigBuilder { ca_cert_path: Some(text(path)), ..self }
    }

    /// Sets the authentication key.
    pub fn auth_key(self, key: &str) -> (b: Self)
        ensures
            b@ == (ClientConfigBuilderView { auth_key: Some(key@), ..self@ }),
    {
        ClientConfigBuilder { auth_key: Some(text(key)), ..self }
    }

    /// Builds the configuration and checks the authentication key.
    pub fn build(self) -> (r: Result<ClientConfig, ConfigError>)
        ensures
            match r {
                Ok(c) => {
                    &&& client_build_verdict(self@) is None
                    &&& c.server_addr@ == self@.server_addr->0
                    &&& c.server_port == self@.server_port->0
                    &&& c.server_path@ == self@.server_path
                    &&& c.transport == chosen_transport(self@.transport)
                    &&& c.skip_verify == self@.skip_verify
                    &&& opt_text(c.ca_cert_path) == self@.ca_cert_path
                    &&& c.auth_key@ == self@.auth_key->0
                    &&& c.stats_port is None
                    &&& c.stats_addr is None
                },
                Err(e) => client_build_verdict(self@) == Some(e@),
            },
    {
        let server_addr = match self.server_addr {
            Some(a) => a,
            None => return Err(ConfigError::MissingField { field: RequiredField::ServerAddr }),
        };
        let server_port = match self.server_port {
            Some(p) => p,
            None => return Err(ConfigError::MissingField { field: RequiredField::ServerPort }),
        };
        let auth_key = match self.auth_key {
            Some(k) => k,
            None => return Err(ConfigError::MissingField { field: RequiredField::AuthKey }),
        };
        let transport = match self.transport {
            Some(t) => t,
            None => TransportType::default_transport(),
        };
        ConfigValidator::validate_auth_key(auth_key.as_str())?;
        Ok(
            ClientConfig {
                server_addr,
                server_port,
                server_path: self.server_path,
                transport,
                skip_verify: self.skip_verify,
                ca_cert_path: self.ca_cert_path,
                auth_key,
                stats_port: None,
                stats_addr: None,
            },
        )
    }
}

/// Builds a `ClientFullConfig` part by part.
#[derive(Debug)]
pub struct ClientFullConfigBuilder {
    client: Option<ClientConfig>,
    proxies: Vec<ProxyConfig>,
    visitors: Vec<VisitorConfig>,
    forwarders: Vec<ForwarderConfig>,
}

/// What a `ClientFullConfigBuilder` holds so far.
pub struct ClientFullConfigBuilderView {
    pub client: Option<ClientConfig>,
    pub proxies: Seq<ProxyConfig>,
    pub visitors: Seq<VisitorConfig>,
    pub forwarders: Seq<ForwarderConfig>,
}

impl View for ClientFullConfigBuilder {
    type V = ClientFullConfigBuilderView;

    closed spec fn view(&self) -> ClientFullConfigBuilderView {
        ClientFullConfigBuilderView {
            client: self.client,
            proxies: self.proxies@,
            visitors: self.visitors@,
            forwarders: self.forwarders@,
        }
    }
}

/// Why a complete-configuration builder holding `b` cannot build, if it
/// cannot.
pub open spec fn client_full_build_verdict(b: ClientFullConfigBuilderView) -> Verdict {
    if b.client is None {
        Some(ConfigErrorView::MissingField { field: RequiredField::Client })
    } else {
        client_full_fields_verdict(b.client->0.auth_key@, b.proxies, b.visitors, b.forwarders)
    }
}

impl ClientFullConfigBuilder {
    /// A builder with no client part and empty lists.
    pub fn new() -> (b: Self)
        ensures
            b@.client is None,
            b@.proxies.len() == 0,
            b@.visitors.len() == 0,
            b@.forwarders.len() == 0,
    {
        ClientFullConfigBuilder {
            client: None,
            proxies: Vec::new(),
            visitors: Vec::new(),
            forwarders: Vec::new(),
        }
    }

    /// Sets the connection to the server.
    pub fn client(self, client: ClientConfig) -> (b: Self)
        ensures
            b@ == (ClientFullConfigBuilderView { client: Some(client), ..self@ }),
    {
        ClientFullConfigBuilder { client: Some(client), ..self }
    }

    /// Appends a proxy.
    pub fn add_proxy(self, proxy: ProxyConfig) -> (b: Self)
        ensures
            b@ == (ClientFullConfigBuilderView { proxies: self@.proxies.push(proxy), ..self@ }),
    {
        let mut b = self;
        b.proxies.push(proxy);
        b
    }

    /// Replaces the list of proxies.
    pub fn proxies(self, proxies: Vec<ProxyConfig>) -> (b: Self)
        ensures
            b@ == (ClientFullConfigBuilderView { proxies: proxies@, ..self@ }),
    {
        ClientFullConfigBuilder { proxies, ..self }
    }

    /// Appends a visitor.
    pub fn add_visitor(self, visitor: VisitorConfig) -> (b: Self)
        ensures
            b@ == (ClientFullConfigBuilderView { visitors: self@.visitors.push(visitor), ..self@ }),
    {
        let mut b = self;
        b.visitors.push(visitor);
        b
    }

    /// Replaces the list of visitors.
    pub fn visitors(self, visitors: Vec<VisitorConfig>) -> (b: Self)
        ensures
            b@ == (ClientFullConfigBuilderView { visitors: visitors@, ..self@ }),
    {
        ClientFullConfigBuilder { visitors, ..self }
    }

    /// Appends a forwarder.
    pub fn add_forwarder(self, forwarder: ForwarderConfig) -> (b: Self)
        ensures
            b@ == (ClientFullConfigBuilderView {
                forwarders: self@.forwarders.push(forwarder),
                ..self@
            }),
    {
        let mut b = self;
        b.forwarders.push(forwarder);
        b
    }

    /// Replaces the list of forwarders.
    pub fn forwarders(self, forwarders: Vec<ForwarderConfig>) -> (b: Self)
        ensures
            b@ == (ClientFullConfigBuilderView { forwarders: forwarders@, ..self@ }),
    {
        ClientFullConfigBuilder { forwarders, ..self }
    }

    /// Builds the configuration and checks it.
    pub fn build(self) -> (r: Result<ClientFullConfig, ConfigError>)
        ensures
            match r {
                Ok(c) => {
                    &&& client_full_build_verdict(self@) is None
                    &&& Some(c.client) == self@.client
                    &&& c.proxies@ == self@.proxies
                    &&& c.visitors@ == self@.visitors
                    &&& c.forwarders@ == self@.forwarders
                },
                Err(e) => client_full_build_verdict(self@) == Some(e@),
            },
    {
        let client = match self.client {
            Some(c) => c,
            None => return Err(ConfigError::MissingField { field: RequiredField::Client }),
        };
        let config = ClientFullConfig {
            client,
            proxies: self.proxies,
            visitors: self.visitors,
            forwarders: self.forwarders,
        };
        ConfigValidator::validate_client_full_config(&config)?;
        Ok(config)
    }
}

impl ServerConfig {
    /// A builder for a server configuration.
    pub fn builder() -> (b: ServerConfigBuilder)
        ensures
            b@.bind_addr is None,
            b@.bind_port is None,
            b@.transport is None,
            !b@.behind_proxy,
            b@.cert_path is None,
            b@.key_path is None,
            b@.auth_key is None,
            b@.stats_port is None,
            b@.stats_addr is None,
            !b@.allow_forward,
    {
        ServerConfigBuilder::new()
    }
}

impl ClientConfig {
    /// A builder for a client configuration.
    pub fn builder() -> (b: ClientConfigBuilder)
        ensures
            b@.server_addr is None,
            b@.server_port is None,
            b@.auth_key is None,
            b@.server_path == "/"@,
    {
        ClientConfigBuilder::new()
    }
}

impl ClientFullConfig {
    /// A builder for a complete client configuration.
    pub fn builder() -> (b: ClientFullConfigBuilder)
        ensures
            b@.client is None,
            b@.proxies.len() == 0,
            b@.visitors.len() == 0,
            b@.forwarders.len() == 0,
    {
        ClientFullConfigBuilder::new()
    }
}

} // verus!
