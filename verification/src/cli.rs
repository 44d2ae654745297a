//! The command line: its commands, and the decisions that the commands make
//! before any I/O.
use vstd::prelude::*;

use crate::config::{ClientFullConfig, ServerConfig};
use crate::text::{decimal, is_blank, push_char, push_decimal, push_text, str_is_blank, text};
use crate::transport::TransportType;

verus! {

/// The commands of the program.
#[derive(Debug, Clone)]
pub enum Commands {
    /// Run the server with a configuration file.
    Server { config: String },
    /// Run the client with a configuration file.
    Client { config: String },
    /// Write a configuration template (`server` or `client`).
    Template { template_type: String, output: Option<String> },
    /// Write a self-signed certificate.
    Cert { cert_out: String, key_out: String, common_name: String, alt_names: Vec<String> },
    /// Register a systemd service.
    Register { service_type: String, config: String, name: Option<String>, executable: Option<String> },
    /// Remove a systemd service.
    Unregister { service_type: String, name: Option<String> },
    /// Check a configuration file, reporting as `text` or `json`.
    Check { config: String, format: String },
    /// Show the statistics of a server.
    Top { config: Option<String>, url: Option<String>, interval: u64 },
}

/// The parsed command line.
#[derive(Debug, Clone)]
pub struct Cli {
    pub command: Commands,
    /// How often `-v` was given.
    pub verbose: u8,
}

/// The log level for a verbosity count.
pub open spec fn log_level(verbose: u8) -> Seq<char> {
    if verbose == 0 {
        "off"@
    } else if verbose == 1 {
        "info"@
    } else if verbose == 2 {
        "debug"@
    } else {
        "trace"@
    }
}

/// The log level used when the environment sets none.
pub fn default_log_level(verbose: u8) -> (s: &'static str)
    ensures
        s@ == log_level(verbose),
{
    if verbose == 0 {
        "off"
    } else if verbose == 1 {
        "info"
    } else if verbose == 2 {
        "debug"
    } else {
        "trace"
    }
}

/// The ALPN protocols that a transport announces: `h2` for HTTP/2, none
/// otherwise.
pub fn alpn_protocols(transport: TransportType) -> (r: Option<Vec<Vec<u8>>>)
    ensures
        transport == TransportType::Http2 ==> (r matches Some(v) && v@.len() == 1 && v@[0]@ == seq![
            104u8,
            50u8,
        ]),
        transport != TransportType::Http2 ==> r is None,
{
    if transport == TransportType::Http2 {
        let h2: Vec<u8> = vec![104u8, 50u8];
        assert(h2@ =~= seq![104u8, 50u8]);
        let mut v: Vec<Vec<u8>> = Vec::new();
        v.push(h2);
        Some(v)
    } else {
        None
    }
}

/// The address that the server's statistics page listens on: the
/// configured statistics address unless it is blank, else the bind
/// address.
pub open spec fn stats_listen_addr(stats_addr: Option<Seq<char>>, bind_addr: Seq<char>) -> Seq<char> {
    match stats_addr {
        Some(a) => if is_blank(a) {
            bind_addr
        } else {
            a
        },
        None => bind_addr,
    }
}

/// The statistics page listens on the configured statistics address when
/// one is set with a character that is not a space, and on the server's
/// bind address when none is set or the one set is all spaces.
pub proof fn law_stats_address(config: ServerConfig)
    ensures
        (config.stats_addr matches Some(a) && (exists|i: int|
            0 <= i < a@.len() && !crate::text::is_space(#[trigger] a@[i])))
            ==> stats_listen_addr(crate::validator::opt_text(config.stats_addr), config.bind_addr@)
            == config.stats_addr->Some_0@,
        (config.stats_addr matches Some(a) && (forall|i: int|
            0 <= i < a@.len() ==> crate::text::is_space(#[trigger] a@[i])))
            ==> stats_listen_addr(crate::validator::opt_text(config.stats_addr), config.bind_addr@)
            == config.bind_addr@,
        config.stats_addr is None ==> stats_listen_addr(
            crate::validator::opt_text(config.stats_addr),
            config.bind_addr@,
        ) == config.bind_addr@,
{
}

/// The address that the server's statistics page listens on.
pub fn server_stats_addr(config: &ServerConfig) -> (s: String)
    ensures
        s@ == stats_listen_addr(crate::validator::opt_text(config.stats_addr), config.bind_addr@),
{
    match &config.stats_addr {
        Some(a) => if str_is_blank(a.as_str()) {
            config.bind_addr.clone()
        } else {
            a.clone()
        },
        None => config.bind_addr.clone(),
    }
}

/// The address that the client's statistics page listens on: the
/// configured one, else all interfaces.
pub fn client_stats_addr(stats_addr: &Option<String>) -> (s: String)
    ensures
        s@ == match stats_addr {
            Some(a) => a@,
            None => "0.0.0.0"@,
        },
{
    match stats_addr {
        Some(a) => a.clone(),
        None => text("0.0.0.0"),
    }
}

/// Why the statistics address of the dashboard cannot be found.
#[derive(Debug, Clone, Copy, PartialEq, Eq, Structural)]
pub enum TopTargetError {
    /// The server configuration has no statistics port.
    NoStatsPort,
    /// Neither a configuration nor a URL was given.
    NoSource,
}

impl TopTargetError {
    /// The error's message.
    pub fn message(&self) -> (s: String)
        ensures
            *self == TopTargetError::NoStatsPort ==> s@
                == "stats_port is not configured in the server configuration file"@,
            *self == TopTargetError::NoSource ==> s@ == "Either --config or --url must be provided"@,
    {
        match self {
            TopTargetError::NoStatsPort => text(
                "stats_port is not configured in the server configuration file",
            ),
            TopTargetError::NoSource => text("Either --config or --url must be provided"),
        }
    }
}

/// The URL of the statistics page that the dashboard reads: from a server
/// configuration (`http://addr:port`), else the URL given.
pub fn top_stats_url(config: Option<&ServerConfig>, url: Option<&str>) -> (r: Result<
    String,
    TopTargetError,
>)
    ensures
        match config {
            Some(c) => match c.stats_port {
                Some(p) => r matches Ok(s) && s@ == "http://"@ + stats_listen_addr(
                    crate::validator::opt_text(c.stats_addr),
                    c.bind_addr@,
                ) + ":"@ + decimal(p as nat),
                None => r == Err::<String, TopTargetError>(TopTargetError::NoStatsPort),
            },
            None => match url {
                Some(u) => r matches Ok(s) && s@ == u@,
                None => r == Err::<String, TopTargetError>(TopTargetError::NoSource),
            },
        },
{
    match config {
        Some(c) => match c.stats_port {
            Some(p) => {
                let mut s = text("http://");
                let addr = server_stats_addr(c);
                push_text(&mut s, addr.as_str());
                push_text(&mut s, ":");
                push_decimal(&mut s, p as u128);
                Ok(s)
            },
            None => Err(TopTargetError::NoStatsPort),
        },
        None => match url {
            Some(u) => Ok(text(u)),
            None => Err(TopTargetError::NoSource),
        },
    }
}

/// Checks the permissions of a configuration file where the platform has
/// no permission bits to read: nothing to check.
pub fn check_config_file_permissions(_config_path: &str) -> (r: Result<(), String>)
    ensures
        r is Ok,
{
    Ok(())
}

/// Octal notation of a number.
pub open spec fn octal(n: nat) -> Seq<char>
    decreases n,
{
    if n < 8 {
        seq![crate::text::digit_char(n as int)]
    } else {
        octal(n / 8).push(crate::text::digit_char((n % 8) as int))
    }
}

fn push_octal(s: &mut String, n: u32)
    ensures
        final(s)@ == old(s)@ + octal(n as nat),
    decreases n,
{
    if n >= 8 {
        push_octal(s, n / 8);
    }
    push_char(s, crate::text::digit_to_char((n % 8) as u64));
    proof {
        if n >= 8 {
            assert(octal(n as nat) == octal((n / 8) as nat).push(crate::text::digit_char((n % 8) as int)));
        }
    }
    assert(final(s)@ =~= old(s)@ + octal(n as nat));
}

/// The warning when others may read a configuration file.
pub open spec fn others_readable_warning(path: Seq<char>, mode: u32) -> Seq<char> {
    "SECURITY WARNING: Config file '"@ + path + "' is readable by others (permissions: "@ + octal(
        (mode % 512) as nat,
    ) + ")\nThis file may contain sensitive information (auth_key).\nRECOMMENDATION: chmod 600 "@
        + path
}

/// The warning when the group may read a configuration file.
pub open spec fn group_readable_warning(path: Seq<char>, mode: u32) -> Seq<char> {
    "SECURITY WARNING: Config file '"@ + path + "' is readable by group (permissions: "@ + octal(
        (mode % 512) as nat,
    ) + ")\nRECOMMENDATION: chmod 600 "@ + path
}

/// The warnings that the permission bits of a configuration file call
/// for: one when others may read it, one when the group may.
pub fn config_permission_warnings(config_path: &str, mode: u32) -> (v: Vec<String>)
    ensures
        v@.map_values(|s: String| s@) == (if (mode / 4) % 2 == 1 {
            seq![others_readable_warning(config_path@, mode)]
        } else {
            Seq::<Seq<char>>::empty()
        }) + (if (mode / 32) % 2 == 1 {
            seq![group_readable_warning(config_path@, mode)]
        } else {
            Seq::<Seq<char>>::empty()
        }),
{
    let mut v: Vec<String> = Vec::new();
    let bits = mode % 512;
    if (mode / 4) % 2 == 1 {
        let mut s = text("SECURITY WARNING: Config file '");
        push_text(&mut s, config_path);
        push_text(&mut s, "' is readable by others (permissions: ");
        push_octal(&mut s, bits);
        push_text(&mut s, ")\nThis file may contain sensitive information (auth_key).\nRECOMMENDATION: chmod 600 ");
        push_text(&mut s, config_path);
        v.push(s);
    }
    if (mode / 32) % 2 == 1 {
        let mut s = text("SECURITY WARNING: Config file '");
        push_text(&mut s, config_path);
        push_text(&mut s, "' is readable by group (permissions: ");
        push_octal(&mut s, bits);
        push_text(&mut s, ")\nRECOMMENDATION: chmod 600 ");
        push_text(&mut s, config_path);
        v.push(s);
    }
    proof {
        let e = Seq::<Seq<char>>::empty();
        assert(v@.map_values(|s: String| s@) =~= (if (mode / 4) % 2 == 1 {
            seq![others_readable_warning(config_path@, mode)]
        } else {
            e
        }) + (if (mode / 32) % 2 == 1 {
            seq![group_readable_warning(config_path@, mode)]
        } else {
            e
        }));
    }
    v
}

/// What `{:?}` writes for a path (quoted, with escapes).
pub uninterp spec fn path_debug(p: Seq<char>) -> Seq<char>;

/// A path as `{:?}` writes it, by `Path`'s `Debug`.
///
/// Trusted: the result is named `path_debug` of the path's text.
#[verifier::external_body]
pub(crate) fn path_debug_text(p: &str) -> (s: String)
    ensures
        s@ == path_debug(p@),
{
    format!("{:?}", std::path::Path::new(p))
}

/// The outcome of checking a configuration file.
#[derive(Debug, Clone)]
pub struct ConfigCheck {
    pub valid: bool,
    pub config_type: String,
    pub warnings: Vec<String>,
    pub error: Option<String>,
}

/// The error when the configuration file does not exist.
pub fn config_not_found(config_path: &str) -> (c: ConfigCheck)
    ensures
        !c.valid,
        c.config_type@ == "unknown"@,
        c.warnings@.len() == 0,
        c.error matches Some(e) && e@ == "Configuration file not found: "@ + config_path@,
{
    let mut e = text("Configuration file not found: ");
    push_text(&mut e, config_path);
    ConfigCheck { valid: false, config_type: text("unknown"), warnings: Vec::new(), error: Some(e) }
}

/// Checks a server configuration: its certificate and key paths must be
/// set together or left out together (then they are generated); a set path
/// whose file is missing gives a warning.
pub fn check_server_config(config: &ServerConfig, cert_exists: bool, key_exists: bool) -> (c: ConfigCheck)
    ensures
        c.config_type@ == "server"@,
        match (config.cert_path, config.key_path) {
            (Some(cert), Some(key)) => c.valid && c.error is None && c.warnings@.map_values(
                |s: String| s@,
            ) == (if cert_exists {
                Seq::<Seq<char>>::empty()
            } else {
                seq!["Certificate file not found: "@ + path_debug(cert@)]
            }) + (if key_exists {
                Seq::<Seq<char>>::empty()
            } else {
                seq!["Key file not found: "@ + path_debug(key@)]
            }),
            (None, None) => c.valid && c.error is None && c.warnings@.len() == 0,
            _ => !c.valid && c.warnings@.len() == 0 && (c.error matches Some(e) && e@
                == "cert_path and key_path must both be set, or both omitted"@),
        },
{
    match (&config.cert_path, &config.key_path) {
        (Some(cert), Some(key)) => {
            let mut warnings: Vec<String> = Vec::new();
            if !cert_exists {
                let mut w = text("Certificate file not found: ");
                let d = path_debug_text(cert.as_str());
                push_text(&mut w, d.as_str());
                warnings.push(w);
            }
            if !key_exists {
                let mut w = text("Key file not found: ");
                let d = path_debug_text(key.as_str());
                push_text(&mut w, d.as_str());
                warnings.push(w);
            }
            proof {
                let e = Seq::<Seq<char>>::empty();
                assert(warnings@.map_values(|s: String| s@) =~= (if cert_exists {
                    e
                } else {
                    seq!["Certificate file not found: "@ + path_debug(cert@)]
                }) + (if key_exists {
                    e
                } else {
                    seq!["Key file not found: "@ + path_debug(key@)]
                }));
            }
            ConfigCheck { valid: true, config_type: text("server"), warnings, error: None }
        },
        (None, None) => ConfigCheck {
            valid: true,
            config_type: text("server"),
            warnings: Vec::new(),
            error: None,
        },
        _ => ConfigCheck {
            valid: false,
            config_type: text("server"),
            warnings: Vec::new(),
            error: Some(text("cert_path and key_path must both be set, or both omitted")),
        },
    }
}

/// Checks a client configuration: no proxy gives a warning, and so does a
/// CA certificate path whose file is missing (`ca_exists` tells).
pub fn check_client_config(config: &ClientFullConfig, ca_exists: bool) -> (c: ConfigCheck)
    ensures
        c.valid,
        c.error is None,
        c.config_type@ == "client"@,
        c.warnings@.map_values(|s: String| s@) == (if config.proxies@.len() == 0 {
            seq!["No proxy configurations defined"@]
        } else {
            Seq::<Seq<char>>::empty()
        }) + match config.client.ca_cert_path {
            Some(p) => if ca_exists {
                Seq::<Seq<char>>::empty()
            } else {
                seq!["CA certificate file not found: "@ + path_debug(p@)]
            },
            None => Seq::<Seq<char>>::empty(),
        },
{
    let mut warnings: Vec<String> = Vec::new();
    if config.proxies.len() == 0 {
        warnings.push(text("No proxy configurations defined"));
    }
    let ghost first = warnings@.map_values(|s: String| s@);
    match &config.client.ca_cert_path {
        Some(p) => {
            if !ca_exists {
                let mut w = text("CA certificate file not found: ");
                let d = path_debug_text(p.as_str());
                push_text(&mut w, d.as_str());
                warnings.push(w);
            }
        },
        None => {},
    }
    proof {
        let e = Seq::<Seq<char>>::empty();
        assert(warnings@.map_values(|s: String| s@) =~= (if config.proxies@.len() == 0 {
            seq!["No proxy configurations defined"@]
        } else {
            e
        }) + match config.client.ca_cert_path {
            Some(p) => if ca_exists {
                e
            } else {
                seq!["CA certificate file not found: "@ + path_debug(p@)]
            },
            None => e,
        });
    }
    ConfigCheck { valid: true, config_type: text("client"), warnings, error: None }
}

} // verus!
