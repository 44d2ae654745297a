use vstd::prelude::*;

use crate::text::{push_decimal, push_text, text};

verus! {

/// `std::io::Error`, carried as an opaque value.
#[verifier::external_type_specification]
#[verifier::external_body]
pub struct ExIoError(std::io::Error);

/// The text that `std::io::Error`'s `Display` writes. The text comes from
/// the operating system for OS errors, so nothing is stated of it.
#[verifier::external_body]
fn io_error_text(e: &std::io::Error) -> String {
    format!("{}", e)
}

/// What `Duration`'s `Debug` writes for a duration (such as `30s` or
/// `1.5ms`).
pub uninterp spec fn duration_debug(d: std::time::Duration) -> Seq<char>;

/// The text that `Duration`'s `Debug` writes.
///
/// Trusted: the text is named `duration_debug` of the duration.
#[verifier::external_body]
fn duration_debug_text(d: &std::time::Duration) -> (s: String)
    ensures
        s@ == duration_debug(*d),
{
    format!("{:?}", d)
}

/// The errors of the tunnel.
#[derive(Debug)]
pub enum TunnelError {
    /// Connecting to `addr` failed.
    ConnectionFailed { addr: String, source: std::io::Error },
    /// The peer's key was refused.
    AuthenticationFailed(String),
    /// A configuration was refused.
    ConfigError(String),
    /// The transport failed.
    TransportError(String),
    /// The peer broke the protocol.
    ProtocolError(String),
    /// An operation took too long.
    Timeout { duration: std::time::Duration },
    /// No proxy with this name and port is registered.
    ProxyNotFound { name: String, port: u16 },
    /// A route could not be chosen.
    RoutingError(String),
    /// A target was refused for safety.
    SecurityError(String),
    /// A resource ran out.
    ResourceExhausted(String),
    /// An I/O error.
    Io(std::io::Error),
    /// Any other error, by its message.
    Other(String),
}

impl TunnelError {
    /// A connection failure to `addr`.
    pub fn connection_failed(addr: &str, source: std::io::Error) -> (e: Self)
        ensures
            e matches TunnelError::ConnectionFailed { addr: a, source: s } && a@ == addr@ && s
                == source,
    {
        TunnelError::ConnectionFailed { addr: text(addr), source }
    }

    /// An authentication failure.
    pub fn auth_failed(msg: &str) -> (e: Self)
        ensures
            e matches TunnelError::AuthenticationFailed(m) && m@ == msg@,
    {
        TunnelError::AuthenticationFailed(text(msg))
    }

    /// A configuration error.
    pub fn config_error(msg: &str) -> (e: Self)
        ensures
            e matches TunnelError::ConfigError(m) && m@ == msg@,
    {
        TunnelError::ConfigError(text(msg))
    }

    /// A timeout after `duration`.
    pub fn timeout(duration: std::time::Duration) -> (e: Self)
        ensures
            e matches TunnelError::Timeout { duration: d } && d == duration,
    {
        TunnelError::Timeout { duration }
    }

    /// A missing proxy.
    pub fn proxy_not_found(name: &str, port: u16) -> (e: Self)
        ensures
            e matches TunnelError::ProxyNotFound { name: n, port: p } && n@ == name@ && p == port,
    {
        TunnelError::ProxyNotFound { name: text(name), port }
    }

    /// A refused target.
    pub fn security_error(msg: &str) -> (e: Self)
        ensures
            e matches TunnelError::SecurityError(m) && m@ == msg@,
    {
        TunnelError::SecurityError(text(msg))
    }

    /// Whether this is a timeout.
    pub fn is_timeout(&self) -> (r: bool)
        ensures
            r <==> self is Timeout,
    {
        matches!(self, TunnelError::Timeout { .. })
    }

    /// Whether this is an authentication failure.
    pub fn is_auth_failed(&self) -> (r: bool)
        ensures
            r <==> self is AuthenticationFailed,
    {
        matches!(self, TunnelError::AuthenticationFailed(_))
    }

    /// Whether this is a configuration error.
    pub fn is_config_error(&self) -> (r: bool)
        ensures
            r <==> self is ConfigError,
    {
        matches!(self, TunnelError::ConfigError(_))
    }

    /// The message of the error, as its `Display` would write it.
    pub fn message(&self) -> (s: String)
        ensures
            match self {
                TunnelError::ConnectionFailed { addr, .. } => s@.len() >= ("Failed to connect to "@
                    + addr@ + ": "@).len() && s@.subrange(
                    0,
                    ("Failed to connect to "@ + addr@ + ": "@).len() as int,
                ) == "Failed to connect to "@ + addr@ + ": "@,
                TunnelError::AuthenticationFailed(m) => s@ == "Authentication failed: "@ + m@,
                TunnelError::ConfigError(m) => s@ == "Configuration error: "@ + m@,
                TunnelError::TransportError(m) => s@ == "Transport error: "@ + m@,
                TunnelError::ProtocolError(m) => s@ == "Protocol error: "@ + m@,
                TunnelError::Timeout { duration } => s@ == "Operation timeout after "@ + duration_debug(
                    *duration,
                ),
                TunnelError::ProxyNotFound { name, port } => s@ == "Proxy '"@ + name@
                    + "' with port "@ + crate::text::decimal(*port as nat) + " not found"@,
                TunnelError::RoutingError(m) => s@ == "Routing error: "@ + m@,
                TunnelError::SecurityError(m) => s@ == "Security error: "@ + m@,
                TunnelError::ResourceExhausted(m) => s@ == "Resource exhausted: "@ + m@,
                TunnelError::Io(_) => s@.len() >= "I/O error: "@.len() && s@.subrange(
                    0,
                    "I/O error: "@.len() as int,
                ) == "I/O error: "@,
                TunnelError::Other(m) => s@ == m@,
            },
    {
        match self {
            TunnelError::ConnectionFailed { addr, source } => {
                let mut s = text("Failed to connect to ");
                push_text(&mut s, addr.as_str());
                push_text(&mut s, ": ");
                let ghost head = s@;
                let detail = io_error_text(source);
                push_text(&mut s, detail.as_str());
                assert(s@.subrange(0, head.len() as int) =~= head);
                s
            },
            TunnelError::AuthenticationFailed(m) => {
                let mut s = text("Authentication failed: ");
                push_text(&mut s, m.as_str());
                s
            },
            TunnelError::ConfigError(m) => {
                let mut s = text("Configuration error: ");
                push_text(&mut s, m.as_str());
                s
            },
            TunnelError::TransportError(m) => {
                let mut s = text("Transport error: ");
                push_text(&mut s, m.as_str());
                s
            },
            TunnelError::ProtocolError(m) => {
                let mut s = text("Protocol error: ");
                push_text(&mut s, m.as_str());
                s
            },
            TunnelError::Timeout { duration } => {
                let mut s = text("Operation timeout after ");
                let detail = duration_debug_text(duration);
                push_text(&mut s, detail.as_str());
                s
            },
            TunnelError::ProxyNotFound { name, port } => {
                let mut s = text("Proxy '");
                push_text(&mut s, name.as_str());
                push_text(&mut s, "' with port ");
                push_decimal(&mut s, *port as u128);
                push_text(&mut s, " not found");
                s
            },
            TunnelError::RoutingError(m) => {
                let mut s = text("Routing error: ");
                push_text(&mut s, m.as_str());
                s
            },
            TunnelError::SecurityError(m) => {
                let mut s = text("Security error: ");
                push_text(&mut s, m.as_str());
                s
            },
            TunnelError::ResourceExhausted(m) => {
                let mut s = text("Resource exhausted: ");
                push_text(&mut s, m.as_str());
                s
            },
            TunnelError::Io(e) => {
                let mut s = text("I/O error: ");
                let ghost head = s@;
                let detail = io_error_text(e);
                push_text(&mut s, detail.as_str());
                assert(s@.subrange(0, head.len() as int) =~= head);
                s
            },
            TunnelError::Other(m) => text(m.as_str()),
        }
    }
}

} // verus!
