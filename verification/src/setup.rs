//! What the commands that prepare a machine compute: the names and files
//! of certificates, configuration templates, and systemd units.
use vstd::prelude::*;

use crate::config::ServerConfig;
use crate::text::{decimal, push_decimal, push_text, str_eq, text};

verus! {

/// The subject names of a certificate: the alternative names given, or the
/// common name alone when none is given, with the common name added when it
/// is missing.
pub open spec fn subject_names_spec(common_name: Seq<char>, alt_names: Seq<Seq<char>>) -> Seq<Seq<char>> {
    let base = if alt_names.len() == 0 {
        seq![common_name]
    } else {
        alt_names
    };
    if base.contains(common_name) {
        base
    } else {
        base.push(common_name)
    }
}

/// The subject names of a self-signed certificate for `common_name`.
pub fn subject_names(common_name: &str, alt_names: &[String]) -> (v: Vec<String>)
    ensures
        v@.map_values(|s: String| s@) == subject_names_spec(
            common_name@,
            alt_names@.map_values(|s: String| s@),
        ),
{
    let ghost alts = alt_names@.map_values(|s: String| s@);
    let mut names: Vec<String> = Vec::new();
    if alt_names.len() == 0 {
        names.push(text(common_name));
        proof {
            assert(names@.map_values(|s: String| s@) =~= seq![common_name@]);
        }
    } else {
        let n = alt_names.len();
        let mut i: usize = 0;
        while i < n
            invariant
                n == alt_names@.len(),
                0 <= i <= n,
                names@.len() == i,
                forall|k: int| 0 <= k < i ==> (#[trigger] names@[k])@ == alts[k],
                alts == alt_names@.map_values(|s: String| s@),
            decreases n - i,
        {
            let c = alt_names[i].clone();
            assert(c@ == alts[i as int]);
            names.push(c);
            i = i + 1;
        }
        proof {
            assert(names@.map_values(|s: String| s@) =~= alts);
        }
    }
    let ghost base = names@.map_values(|s: String| s@);
    let mut found = false;
    let m = names.len();
    let mut j: usize = 0;
    while j < m
        invariant
            m == names@.len(),
            0 <= j <= m,
            base == names@.map_values(|s: String| s@),
            found == (exists|k: int| 0 <= k < j && base[k] == common_name@),
        decreases m - j,
    {
        assert(base[j as int] == names@[j as int]@);
        if str_eq(names[j].as_str(), common_name) {
            found = true;
        }
        j = j + 1;

    }
    proof {
        if found {
            let k = choose|k: int| 0 <= k < m && base[k] == common_name@;
            assert(base.contains(common_name@));
        } else {
            assert(!base.contains(common_name@)) by {
                if base.contains(common_name@) {
                    let k = choose|k: int| 0 <= k < base.len() && base[k] == common_name@;
                    assert(0 <= k < m && base[k] == common_name@);
                }
            }
        }
    }
    if !found {
        names.push(text(common_name));
        proof {
            assert(names@.map_values(|s: String| s@) =~= base.push(common_name@));
        }
    }
    names
}

/// A self-signed certificate for `names` with a fresh key pair, by rcgen's
/// `generate_simple_self_signed`, both written in PEM (`Certificate::pem`,
/// `KeyPair::serialize_pem`).
///
/// Trusted; the key pair is random, so of the texts only their PEM
/// framing is stated: `pem::encode_config` starts each with
/// `-----BEGIN <tag>-----`, with the tags `CERTIFICATE` and `PRIVATE KEY`
/// that rcgen gives. When rcgen refuses the names (or its key generation
/// fails) is not stated; a refusal comes back as rcgen's message.
#[verifier::external_body]
fn generate_simple_self_signed_pem(names: Vec<String>) -> (r: Result<(String, String), String>)
    ensures
        r matches Ok((cert, key)) ==> pem_framed(cert@, "CERTIFICATE"@) && pem_framed(key@, "PRIVATE KEY"@),
{
    match rcgen::generate_simple_self_signed(names) {
        Ok(certified) => Ok((certified.cert.pem(), certified.key_pair.serialize_pem())),
        Err(e) => Err(e.to_string()),
    }
}

/// Whether a text starts as a PEM block of `tag`: `-----BEGIN <tag>-----`.
pub open spec fn pem_framed(text: Seq<char>, tag: Seq<char>) -> bool {
    let head = "-----BEGIN "@ + tag + "-----"@;
    text.len() >= head.len() && text.subrange(0, head.len() as int) == head
}

/// A self-signed certificate and its private key, in PEM, for the subject
/// names of `common_name` and `alt_names` (see `subject_names`). The key is
/// random; rcgen alone decides whether it accepts the names. What comes
/// back is a `CERTIFICATE` block and a `PRIVATE KEY` block.
pub fn self_signed_pems(common_name: &str, alt_names: &[String]) -> (r: Result<(String, String), String>)
    ensures
        r matches Ok((cert, key)) ==> pem_framed(cert@, "CERTIFICATE"@) && pem_framed(key@, "PRIVATE KEY"@),
{
    let names = subject_names(common_name, alt_names);
    generate_simple_self_signed_pem(names)
}

/// Where a server's certificate and key come from.
#[derive(Debug)]
pub enum CertSource {
    /// Both files are configured.
    Configured { cert_path: String, key_path: String },
    /// Neither is configured: a self-signed pair for `common_name` is written
    /// to these file names in the temporary directory.
    Generate { common_name: String, cert_file: String, key_file: String },
}

/// The error when only one of the certificate and the key is configured.
pub open spec fn half_configured_text() -> Seq<char> {
    "Both cert_path and key_path must be set, or leave both empty to auto-generate"@
}

/// The common name of a certificate generated for a server that listens on
/// `bind_addr`: `localhost` for every address, the address otherwise.
pub open spec fn generated_common_name(bind_addr: Seq<char>) -> Seq<char> {
    if bind_addr == "0.0.0.0"@ {
        "localhost"@
    } else {
        bind_addr
    }
}

/// Where a server's certificate and key come from, at Unix time `ts`.
pub fn server_cert_source(config: &ServerConfig, ts: u64) -> (r: Result<CertSource, String>)
    ensures
        match (config.cert_path, config.key_path) {
            (Some(c), Some(k)) => r matches Ok(CertSource::Configured { cert_path, key_path })
                && cert_path@ == c@ && key_path@ == k@,
            (None, None) => r matches Ok(CertSource::Generate { common_name, cert_file, key_file })
                && common_name@ == generated_common_name(config.bind_addr@)
                && cert_file@ == "tls-tunnel-cert-"@ + decimal(ts as nat) + ".pem"@
                && key_file@ == "tls-tunnel-key-"@ + decimal(ts as nat) + ".pem"@,
            _ => r matches Err(e) && e@ == half_configured_text(),
        },
{
    match (&config.cert_path, &config.key_path) {
        (Some(c), Some(k)) => Ok(CertSource::Configured { cert_path: c.clone(), key_path: k.clone() }),
        (None, None) => {
            let common_name = if str_eq(config.bind_addr.as_str(), "0.0.0.0") {
                text("localhost")
            } else {
                config.bind_addr.clone()
            };
            let mut cert_file = text("tls-tunnel-cert-");
            push_decimal(&mut cert_file, ts as u128);
            push_text(&mut cert_file, ".pem");
            let mut key_file = text("tls-tunnel-key-");
            push_decimal(&mut key_file, ts as u128);
            push_text(&mut key_file, ".pem");
            Ok(CertSource::Generate { common_name, cert_file, key_file })
        },
        _ => Err(text("Both cert_path and key_path must be set, or leave both empty to auto-generate")),
    }
}

/// Whether a command names a kind of service: `server` or `client`.
pub open spec fn is_service_type(t: Seq<char>) -> bool {
    t == "server"@ || t == "client"@
}

/// The configuration template of a server.
pub const SERVER_TEMPLATE: &'static str = r#"# TLS tunnel server configuration
[server]
# Address and port that clients connect to
bind_addr = "0.0.0.0"
bind_port = 8443

# Transport: "tls", "http2" or "wss"
transport = "tls"

# Set to true when a reverse proxy (such as Nginx) terminates TLS in front
# of the server; then use the http2 or wss transport and omit certificates.
behind_proxy = false

# Certificate and key; omit both to generate a self-signed pair at start
# cert_path = "/etc/tls-tunnel/cert.pem"
# key_path = "/etc/tls-tunnel/key.pem"

# Shared secret of the clients (at least 16 characters)
auth_key = "change-me-to-a-long-random-secret"

# Statistics page (optional)
# stats_port = 9090
# stats_addr = "127.0.0.1"

# Let clients reach outside targets through this server (forwarders)
allow_forward = false

# Limit of new connections (optional)
# [server.rate_limit]
# requests_per_second = 100
# burst_size = 200

# Request size limits (optional)
# [server.size_limits]
# max_request_size = 1048576
# max_header_size = 8192
"#;

/// The configuration template of a client.
pub const CLIENT_TEMPLATE: &'static str = r#"# TLS tunnel client configuration
[client]
server_addr = "tunnel.example.com"
server_port = 8443
# Path on the server, for a reverse proxy in front of it
server_path = "/"
# Transport: "tls", "http2" or "wss"
transport = "tls"
# Only for testing: accept any server certificate
skip_verify = false
# ca_cert_path = "/etc/tls-tunnel/ca.pem"
auth_key = "change-me-to-a-long-random-secret"
# Statistics page (optional)
# stats_port = 9091
# stats_addr = "127.0.0.1"

# A local service published on the server
[[proxies]]
name = "web"
proxy_type = "http/1.1"
publish_addr = "0.0.0.0"
publish_port = 8080
local_port = 3000

# A service of another client reached through the server
# [[visitors]]
# name = "ssh"
# bind_addr = "127.0.0.1"
# bind_port = 2222
# publish_port = 2222

# A local HTTP or SOCKS5 proxy to outside targets
# [[forwarders]]
# name = "socks"
# proxy_type = "socks5"
# bind_addr = "127.0.0.1"
# bind_port = 1080
# [forwarders.routing]
# geoip_db = "/usr/share/GeoIP/GeoLite2-Country.mmdb"
# direct_countries = ["CN"]
# default_strategy = "proxy"
"#;

/// The configuration template of a kind.
pub open spec fn template_of(template_type: Seq<char>) -> Seq<char> {
    if template_type == "server"@ {
        SERVER_TEMPLATE@
    } else {
        CLIENT_TEMPLATE@
    }
}

/// The configuration template of a kind: `server` or `client`.
pub fn config_template(template_type: &str) -> (s: &'static str)
    requires
        is_service_type(template_type@),
    ensures
        s@ == template_of(template_type@),
{
    if str_eq(template_type, "server") {
        SERVER_TEMPLATE
    } else {
        CLIENT_TEMPLATE
    }
}

/// The unit name used when none is given.
pub open spec fn default_service_name_spec(service_type: Seq<char>) -> Seq<char> {
    if service_type == "server"@ {
        "tls-tunnel-server"@
    } else {
        "tls-tunnel-client"@
    }
}

/// The unit name used when none is given: `tls-tunnel-server` or
/// `tls-tunnel-client`.
pub fn default_service_name(service_type: &str) -> (s: &'static str)
    requires
        is_service_type(service_type@),
    ensures
        s@ == default_service_name_spec(service_type@),
{
    if str_eq(service_type, "server") {
        "tls-tunnel-server"
    } else {
        "tls-tunnel-client"
    }
}

/// The name of the service: the one given, or the default of its kind.
pub fn service_name(service_type: &str, name: Option<&str>) -> (s: String)
    requires
        is_service_type(service_type@),
    ensures
        s@ == match name {
            Some(n) => n@,
            None => default_service_name_spec(service_type@),
        },
{
    match name {
        Some(n) => text(n),
        None => text(default_service_name(service_type)),
    }
}

/// The description of a unit.
pub open spec fn service_description_spec(service_type: Seq<char>) -> Seq<char> {
    if service_type == "server"@ {
        "TLS Tunnel Server"@
    } else {
        "TLS Tunnel Client"@
    }
}

/// The description of a unit: `TLS Tunnel Server` or `TLS Tunnel Client`.
pub fn service_description(service_type: &str) -> (s: &'static str)
    requires
        is_service_type(service_type@),
    ensures
        s@ == service_description_spec(service_type@),
{
    if str_eq(service_type, "server") {
        "TLS Tunnel Server"
    } else {
        "TLS Tunnel Client"
    }
}

/// The systemd unit that runs `exec_path service_type --config config_path`.
pub open spec fn systemd_unit_spec(service_type: Seq<char>, exec_path: Seq<char>, config_path: Seq<char>) -> Seq<char> {
    "[Unit]\nDescription="@ + service_description_spec(service_type)
        + "\nAfter=network-online.target\nWants=network-online.target\n\n[Service]\nType=simple\nExecStart="@
        + exec_path + " "@ + service_type + " --config "@ + config_path
        + "\nRestart=on-failure\nRestartSec=3\nEnvironment=RUST_LOG=info\n\n[Install]\nWantedBy=multi-user.target\n"@
}

/// The text of the systemd unit of a service.
pub fn systemd_unit(service_type: &str, exec_path: &str, config_path: &str) -> (s: String)
    requires
        is_service_type(service_type@),
    ensures
        s@ == systemd_unit_spec(service_type@, exec_path@, config_path@),
{
    let mut s = text("[Unit]\nDescription=");
    push_text(&mut s, service_description(service_type));
    push_text(
        &mut s,
        "\nAfter=network-online.target\nWants=network-online.target\n\n[Service]\nType=simple\nExecStart=",
    );
    push_text(&mut s, exec_path);
    push_text(&mut s, " ");
    push_text(&mut s, service_type);
    push_text(&mut s, " --config ");
    push_text(&mut s, config_path);
    push_text(
        &mut s,
        "\nRestart=on-failure\nRestartSec=3\nEnvironment=RUST_LOG=info\n\n[Install]\nWantedBy=multi-user.target\n",
    );
    s
}

/// The unit name of a service, as `systemctl` takes it.
pub fn unit_name(service_name: &str) -> (s: String)
    ensures
        s@ == service_name@ + ".service"@,
{
    let mut s = text(service_name);
    push_text(&mut s, ".service");
    s
}

/// Where the unit file of a service is written.
pub fn unit_file_path(service_name: &str) -> (s: String)
    ensures
        s@ == "/etc/systemd/system/"@ + service_name@ + ".service"@,
{
    let mut s = text("/etc/systemd/system/");
    push_text(&mut s, service_name);
    push_text(&mut s, ".service");
    s
}

} // verus!
