use vstd::prelude::*;

use crate::config::{
    verdict_of, ClientFullConfig, ConfigError, ConfigErrorView, ForwarderConfig, ProxyConfig,
    RateLimitConfig, Section, ServerConfig, SizeLimitConfig, Verdict, VisitorConfig,
};
use crate::text::{byte_len, decimal, is_blank, push_decimal, push_text, str_byte_len, str_is_blank, text};
use crate::transport::TransportType;

verus! {

/// The advice for a rate limit, if it calls for one.
pub open spec fn rate_limit_advice(c: RateLimitConfig) -> Option<Seq<char>> {
    if c.burst_size < c.requests_per_second {
        Some(
            "rate_limit.burst_size ("@ + decimal(c.burst_size as nat) + ") is less than requests_per_second ("@
                + decimal(c.requests_per_second as nat) + "), this may cause frequent rate limiting"@,
        )
    } else {
        None
    }
}

/// The advice for size limits, if they call for one.
pub open spec fn size_limit_advice(c: SizeLimitConfig) -> Option<Seq<char>> {
    if c.max_request_size > 104857600 {
        Some(
            "size_limits.max_request_size is very large ("@ + decimal(c.max_request_size as nat) + " bytes = "@
                + decimal((c.max_request_size as nat) / 1048576)
                + " MB), this may lead to memory exhaustion attacks"@,
        )
    } else {
        None
    }
}

/// An optional text as a sequence of none or one.
pub open spec fn opt_seq(w: Option<Seq<char>>) -> Seq<Seq<char>> {
    match w {
        Some(t) => seq![t],
        None => Seq::empty(),
    }
}

/// All advice on a server's limits, in order.
pub open spec fn server_limit_advice(c: ServerConfig) -> Seq<Seq<char>> {
    (match c.rate_limit {
        Some(r) => opt_seq(rate_limit_advice(r)),
        None => Seq::empty(),
    }) + (match c.size_limits {
        Some(s) => opt_seq(size_limit_advice(s)),
        None => Seq::empty(),
    })
}

/// The security warning up to the forwarder's name.
pub const FORWARDER_WARNING_START: &'static str = "\u{26a0}\u{fe0f}  SECURITY WARNING: Forwarder '";

/// The security warning between the name and the bind address.
pub const FORWARDER_WARNING_MIDDLE: &'static str = "' is binding to '";

/// The security warning after the bind address.
pub const FORWARDER_WARNING_END: &'static str = "' which exposes the proxy to your network!\nThis allows anyone on the network to use your proxy, which may lead to:\n- Abuse of your IP address\n- Your IP being blacklisted\n- Unauthorized use of your bandwidth\nRECOMMENDATION: Use bind_addr = '127.0.0.1' for localhost-only access.";

/// The warning for a forwarder that listens beyond the loopback interface.
pub open spec fn forwarder_exposure_warning(name: Seq<char>, bind_addr: Seq<char>) -> Seq<char> {
    FORWARDER_WARNING_START@ + name + FORWARDER_WARNING_MIDDLE@ + bind_addr + FORWARDER_WARNING_END@
}

/// `prefix` followed by `name` and a closing quote, as in `Proxy 'web'`.
pub open spec fn entry_context(prefix: Seq<char>, name: Seq<char>) -> Seq<char> {
    prefix + name + "'"@
}

/// Verdict on an authentication key: at least 16 bytes.
pub open spec fn auth_key_verdict(key: Seq<char>) -> Verdict {
    if byte_len(key) < 16 {
        Some(ConfigErrorView::AuthKeyTooShort { length: byte_len(key) })
    } else {
        None
    }
}

/// Verdict on a port: not 0.
pub open spec fn port_verdict(port: u16, context: Seq<char>) -> Verdict {
    if port == 0 {
        Some(ConfigErrorView::PortZero { context })
    } else {
        None
    }
}

/// Verdict on an address: not blank.
pub open spec fn address_verdict(addr: Seq<char>, context: Seq<char>) -> Verdict {
    if is_blank(addr) {
        Some(ConfigErrorView::EmptyAddress { context })
    } else {
        None
    }
}

/// Verdict on a name: not blank.
pub open spec fn name_verdict(name: Seq<char>, context: Seq<char>) -> Verdict {
    if is_blank(name) {
        Some(ConfigErrorView::EmptyName { context })
    } else {
        None
    }
}

/// Verdict on rate limits: both positive.
pub open spec fn rate_limit_verdict(c: RateLimitConfig) -> Verdict {
    if c.requests_per_second == 0 {
        Some(ConfigErrorView::ZeroRequestsPerSecond)
    } else if c.burst_size == 0 {
        Some(ConfigErrorView::ZeroBurstSize)
    } else {
        None
    }
}

/// Verdict on size limits: both positive, the header limit within the
/// request limit.
pub open spec fn size_limit_verdict(c: SizeLimitConfig) -> Verdict {
    if c.max_request_size == 0 {
        Some(ConfigErrorView::ZeroMaxRequestSize)
    } else if c.max_header_size == 0 {
        Some(ConfigErrorView::ZeroMaxHeaderSize)
    } else if c.max_header_size > c.max_request_size {
        Some(
            ConfigErrorView::HeaderLimitAboveRequestLimit {
                max_header_size: c.max_header_size,
                max_request_size: c.max_request_size,
            },
        )
    } else {
        None
    }
}

/// Verdict on the fields of a server configuration: the checks in the order
/// the server makes them.
pub open spec fn server_fields_verdict(
    bind_addr: Seq<char>,
    auth_key: Seq<char>,
    stats_addr: Option<Seq<char>>,
    has_cert: bool,
    has_key: bool,
    behind_proxy: bool,
    transport: TransportType,
    rate_limit: Option<RateLimitConfig>,
    size_limits: Option<SizeLimitConfig>,
) -> Verdict {
    if is_blank(bind_addr) {
        Some(ConfigErrorView::EmptyAddress { context: "Server bind_addr"@ })
    } else if auth_key_verdict(auth_key) is Some {
        auth_key_verdict(auth_key)
    } else if stats_addr is Some && is_blank(stats_addr->0) {
        Some(ConfigErrorView::EmptyAddress { context: "Server stats_addr"@ })
    } else if has_cert != has_key {
        Some(ConfigErrorView::CertificatePairIncomplete)
    } else if behind_proxy && transport == TransportType::Tls {
        Some(ConfigErrorView::TlsBehindProxy)
    } else if behind_proxy && (has_cert || has_key) {
        Some(ConfigErrorView::CertificatesBehindProxy)
    } else if rate_limit is Some && rate_limit_verdict(rate_limit->0) is Some {
        rate_limit_verdict(rate_limit->0)
    } else if size_limits is Some {
        size_limit_verdict(size_limits->0)
    } else {
        None
    }
}

/// The texts of an optional string.
pub open spec fn opt_text(o: Option<String>) -> Option<Seq<char>> {
    match o {
        Some(s) => Some(s@),
        None => None,
    }
}

/// Verdict on a server configuration.
pub open spec fn server_verdict(c: ServerConfig) -> Verdict {
    server_fields_verdict(
        c.bind_addr@,
        c.auth_key@,
        opt_text(c.stats_addr),
        c.cert_path is Some,
        c.key_path is Some,
        c.behind_proxy,
        c.transport,
        c.rate_limit,
        c.size_limits,
    )
}

/// Verdict on one proxy `p`, given the proxies `prev` listed before it.
pub open spec fn proxy_verdict(prev: Seq<ProxyConfig>, p: ProxyConfig) -> Verdict {
    if is_blank(p.name@) {
        Some(ConfigErrorView::EmptyName { context: "Proxy name"@ })
    } else if exists|j: int| 0 <= j < prev.len() && (#[trigger] prev[j]).name@ == p.name@ {
        Some(ConfigErrorView::DuplicateName { section: Section::Proxy, name: p.name@ })
    } else if exists|j: int|
        0 <= j < prev.len() && (#[trigger] prev[j]).publish_addr@ == p.publish_addr@
            && prev[j].publish_port == p.publish_port {
        Some(
            ConfigErrorView::DuplicateBinding {
                section: Section::Proxy,
                addr: p.publish_addr@,
                port: p.publish_port,
            },
        )
    } else if exists|j: int| 0 <= j < prev.len() && (#[trigger] prev[j]).local_port == p.local_port {
        Some(ConfigErrorView::DuplicateLocalPort { port: p.local_port })
    } else if p.publish_port == 0 || p.local_port == 0 {
        Some(ConfigErrorView::PortZero { context: entry_context("Proxy '"@, p.name@) })
    } else if is_blank(p.publish_addr@) {
        Some(ConfigErrorView::EmptyAddress { context: entry_context("Proxy '"@, p.name@) })
    } else {
        None
    }
}

/// Verdict on a list of proxies: the first problem of the first entry that
/// has one.
pub open spec fn proxies_verdict(s: Seq<ProxyConfig>) -> Verdict
    decreases s.len(),
{
    if s.len() == 0 {
        None
    } else {
        match proxies_verdict(s.drop_last()) {
            Some(e) => Some(e),
            None => proxy_verdict(s.drop_last(), s.last()),
        }
    }
}

/// Verdict on one visitor, given the visitors listed before it.
pub open spec fn visitor_verdict(prev: Seq<VisitorConfig>, v: VisitorConfig) -> Verdict {
    if is_blank(v.name@) {
        Some(ConfigErrorView::EmptyName { context: "Visitor name"@ })
    } else if exists|j: int| 0 <= j < prev.len() && (#[trigger] prev[j]).name@ == v.name@ {
        Some(ConfigErrorView::DuplicateName { section: Section::Visitor, name: v.name@ })
    } else if exists|j: int|
        0 <= j < prev.len() && (#[trigger] prev[j]).bind_addr@ == v.bind_addr@ && prev[j].bind_port
            == v.bind_port {
        Some(
            ConfigErrorView::DuplicateBinding {
                section: Section::Visitor,
                addr: v.bind_addr@,
                port: v.bind_port,
            },
        )
    } else if v.bind_port == 0 || v.publish_port == 0 {
        Some(ConfigErrorView::PortZero { context: entry_context("Visitor '"@, v.name@) })
    } else if is_blank(v.bind_addr@) {
        Some(ConfigErrorView::EmptyAddress { context: entry_context("Visitor '"@, v.name@) })
    } else {
        None
    }
}

/// Verdict on a list of visitors.
pub open spec fn visitors_verdict(s: Seq<VisitorConfig>) -> Verdict
    decreases s.len(),
{
    if s.len() == 0 {
        None
    } else {
        match visitors_verdict(s.drop_last()) {
            Some(e) => Some(e),
            None => visitor_verdict(s.drop_last(), s.last()),
        }
    }
}

/// Verdict on one forwarder, given the forwarders listed before it.
pub open spec fn forwarder_verdict(prev: Seq<ForwarderConfig>, f: ForwarderConfig) -> Verdict {
    if is_blank(f.name@) {
        Some(ConfigErrorView::EmptyName { context: "Forwarder name"@ })
    } else if exists|j: int| 0 <= j < prev.len() && (#[trigger] prev[j]).name@ == f.name@ {
        Some(ConfigErrorView::DuplicateName { section: Section::Forwarder, name: f.name@ })
    } else if exists|j: int|
        0 <= j < prev.len() && (#[trigger] prev[j]).bind_addr@ == f.bind_addr@ && prev[j].bind_port
            == f.bind_port {
        Some(
            ConfigErrorView::DuplicateBinding {
                section: Section::Forwarder,
                addr: f.bind_addr@,
                port: f.bind_port,
            },
        )
    } else if f.bind_port == 0 {
        Some(ConfigErrorView::PortZero { context: entry_context("Forwarder '"@, f.name@) })
    } else if is_blank(f.bind_addr@) {
        Some(ConfigErrorView::EmptyAddress { context: entry_context("Forwarder '"@, f.name@) })
    } else {
        None
    }
}

/// Verdict on a list of forwarders.
pub open spec fn forwarders_verdict(s: Seq<ForwarderConfig>) -> Verdict
    decreases s.len(),
{
    if s.len() == 0 {
        None
    } else {
        match forwarders_verdict(s.drop_last()) {
            Some(e) => Some(e),
            None => forwarder_verdict(s.drop_last(), s.last()),
        }
    }
}

/// A list of proxies is accepted exactly when no two share a name or a publish address and port, or a local port,
/// and each has a name that is not blank, a publish address that is not blank, and ports that are not 0.
pub proof fn law_proxy_configs_accepted(s: Seq<ProxyConfig>)
    ensures
        proxies_verdict(s) is None <==> (forall|i: int, j: int|
            0 <= i < j < s.len() ==> #[trigger] s[i].name@ != #[trigger] s[j].name@ && !(s[i].publish_addr@ == s[j].publish_addr@ && s[i].publish_port == s[j].publish_port) && s[i].local_port != s[j].local_port) && (forall|i: int|
            0 <= i < s.len() ==> !is_blank((#[trigger] s[i]).name@) && s[i].publish_port != 0 && s[i].local_port != 0 && !is_blank(s[i].publish_addr@)),
    decreases s.len(),
{
    if s.len() > 0 {
        let t = s.drop_last();
        let q = s.last();
        let n = t.len() as int;
        law_proxy_configs_accepted(t);
        assert forall|i: int| 0 <= i < n implies t[i] == s[i] by {}
        assert(q == s[n]);
        if proxies_verdict(s) is None {
            assert(proxies_verdict(t) is None);
            assert(proxy_verdict(t, q) is None);
            assert forall|i: int, j: int| 0 <= i < j < s.len() implies #[trigger] s[i].name@ != #[trigger] s[j].name@
                && !(s[i].publish_addr@ == s[j].publish_addr@ && s[i].publish_port == s[j].publish_port) && s[i].local_port != s[j].local_port by {
                if j < n {
                    assert(t[i] == s[i] && t[j] == s[j]);
                } else {
                    assert(t[i] == s[i]);
                }
            }
            assert forall|i: int| 0 <= i < s.len() implies !is_blank((#[trigger] s[i]).name@) && s[i].publish_port != 0 && s[i].local_port != 0 && !is_blank(s[i].publish_addr@) by {
                if i < n {
                    assert(t[i] == s[i]);
                }
            }
        } else {
            if proxies_verdict(t) is None {
                assert(proxy_verdict(t, q) is Some);
                if exists|j: int| 0 <= j < t.len() && (#[trigger] t[j]).name@ == q.name@ {
                    let j = choose|j: int| 0 <= j < t.len() && (#[trigger] t[j]).name@ == q.name@;
                    assert(s[j].name@ == s[n].name@);
                }
                else if exists|j: int| 0 <= j < t.len() && (#[trigger] t[j]).publish_addr@ == q.publish_addr@ && t[j].publish_port == q.publish_port {
                    let j = choose|j: int| 0 <= j < t.len() && (#[trigger] t[j]).publish_addr@ == q.publish_addr@ && t[j].publish_port == q.publish_port;
                    assert(s[j].publish_addr@ == s[n].publish_addr@ && s[j].publish_port == s[n].publish_port);
                }
                else if exists|j: int| 0 <= j < t.len() && (#[trigger] t[j]).local_port == q.local_port {
                    let j = choose|j: int| 0 <= j < t.len() && (#[trigger] t[j]).local_port == q.local_port;
                    assert(s[j].local_port == s[n].local_port);
                }
                else {
                    assert(s[n] == q);
                }
            } else {
                if !(forall|i: int, j: int|
                    0 <= i < j < t.len() ==> #[trigger] t[i].name@ != #[trigger] t[j].name@ && !(t[i].publish_addr@ == t[j].publish_addr@ && t[i].publish_port == t[j].publish_port) && t[i].local_port != t[j].local_port) {
                    let (i, j) = choose|i: int, j: int|
                        !(0 <= i < j < t.len() ==> #[trigger] t[i].name@ != #[trigger] t[j].name@ && !(t[i].publish_addr@ == t[j].publish_addr@ && t[i].publish_port == t[j].publish_port) && t[i].local_port != t[j].local_port);
                    assert(t[i] == s[i] && t[j] == s[j]);
                } else {
                    let i = choose|i: int| !(0 <= i < t.len() ==> !is_blank((#[trigger] t[i]).name@) && t[i].publish_port != 0 && t[i].local_port != 0 && !is_blank(t[i].publish_addr@));
                    assert(t[i] == s[i]);
                }
            }
        }
    }
}

/// A list of visitors is accepted exactly when no two share a name or a local bind address and port,
/// and each has a name that is not blank, a bind address that is not blank, and bind and publish ports that are not 0.
pub proof fn law_visitor_list_accepted(s: Seq<VisitorConfig>)
    ensures
        visitors_verdict(s) is None <==> (forall|i: int, j: int|
            0 <= i < j < s.len() ==> #[trigger] s[i].name@ != #[trigger] s[j].name@ && !(s[i].bind_addr@ == s[j].bind_addr@ && s[i].bind_port == s[j].bind_port)) && (forall|i: int|
            0 <= i < s.len() ==> !is_blank((#[trigger] s[i]).name@) && s[i].bind_port != 0 && s[i].publish_port != 0 && !is_blank(s[i].bind_addr@)),
    decreases s.len(),
{
    if s.len() > 0 {
        let t = s.drop_last();
        let q = s.last();
        let n = t.len() as int;
        law_visitor_list_accepted(t);
        assert forall|i: int| 0 <= i < n implies t[i] == s[i] by {}
        assert(q == s[n]);
        if visitors_verdict(s) is None {
            assert(visitors_verdict(t) is None);
            assert(visitor_verdict(t, q) is None);
            assert forall|i: int, j: int| 0 <= i < j < s.len() implies #[trigger] s[i].name@ != #[trigger] s[j].name@
                && !(s[i].bind_addr@ == s[j].bind_addr@ && s[i].bind_port == s[j].bind_port) by {
                if j < n {
                    assert(t[i] == s[i] && t[j] == s[j]);
                } else {
                    assert(t[i] == s[i]);
                }
            }
            assert forall|i: int| 0 <= i < s.len() implies !is_blank((#[trigger] s[i]).name@) && s[i].bind_port != 0 && s[i].publish_port != 0 && !is_blank(s[i].bind_addr@) by {
                if i < n {
                    assert(t[i] == s[i]);
                }
            }
        } else {
            if visitors_verdict(t) is None {
                assert(visitor_verdict(t, q) is Some);
                if exists|j: int| 0 <= j < t.len() && (#[trigger] t[j]).name@ == q.name@ {
                    let j = choose|j: int| 0 <= j < t.len() && (#[trigger] t[j]).name@ == q.name@;
                    assert(s[j].name@ == s[n].name@);
                }
                else if exists|j: int| 0 <= j < t.len() && (#[trigger] t[j]).bind_addr@ == q.bind_addr@ && t[j].bind_port == q.bind_port {
                    let j = choose|j: int| 0 <= j < t.len() && (#[trigger] t[j]).bind_addr@ == q.bind_addr@ && t[j].bind_port == q.bind_port;
                    assert(s[j].bind_addr@ == s[n].bind_addr@ && s[j].bind_port == s[n].bind_port);
                }
                else {
                    assert(s[n] == q);
                }
            } else {
                if !(forall|i: int, j: int|
                    0 <= i < j < t.len() ==> #[trigger] t[i].name@ != #[trigger] t[j].name@ && !(t[i].bind_addr@ == t[j].bind_addr@ && t[i].bind_port == t[j].bind_port)) {
                    let (i, j) = choose|i: int, j: int|
                        !(0 <= i < j < t.len() ==> #[trigger] t[i].name@ != #[trigger] t[j].name@ && !(t[i].bind_addr@ == t[j].bind_addr@ && t[i].bind_port == t[j].bind_port));
                    assert(t[i] == s[i] && t[j] == s[j]);
                } else {
                    let i = choose|i: int| !(0 <= i < t.len() ==> !is_blank((#[trigger] t[i]).name@) && t[i].bind_port != 0 && t[i].publish_port != 0 && !is_blank(t[i].bind_addr@));
                    assert(t[i] == s[i]);
                }
            }
        }
    }
}

/// A list of forwarders is accepted exactly when no two share a name or a bind address and port,
/// and each has a name that is not blank, a bind address that is not blank, and a bind port that is not 0.
pub proof fn law_forwarder_list_accepted(s: Seq<ForwarderConfig>)
    ensures
        forwarders_verdict(s) is None <==> (forall|i: int, j: int|
            0 <= i < j < s.len() ==> #[trigger] s[i].name@ != #[trigger] s[j].name@ && !(s[i].bind_addr@ == s[j].bind_addr@ && s[i].bind_port == s[j].bind_port)) && (forall|i: int|
            0 <= i < s.len() ==> !is_blank((#[trigger] s[i]).name@) && s[i].bind_port != 0 && !is_blank(s[i].bind_addr@)),
    decreases s.len(),
{
    if s.len() > 0 {
        let t = s.drop_last();
        let q = s.last();
        let n = t.len() as int;
        law_forwarder_list_accepted(t);
        assert forall|i: int| 0 <= i < n implies t[i] == s[i] by {}
        assert(q == s[n]);
        if forwarders_verdict(s) is None {
            assert(forwarders_verdict(t) is None);
            assert(forwarder_verdict(t, q) is None);
            assert forall|i: int, j: int| 0 <= i < j < s.len() implies #[trigger] s[i].name@ != #[trigger] s[j].name@
                && !(s[i].bind_addr@ == s[j].bind_addr@ && s[i].bind_port == s[j].bind_port) by {
                if j < n {
                    assert(t[i] == s[i] && t[j] == s[j]);
                } else {
                    assert(t[i] == s[i]);
                }
            }
            assert forall|i: int| 0 <= i < s.len() implies !is_blank((#[trigger] s[i]).name@) && s[i].bind_port != 0 && !is_blank(s[i].bind_addr@) by {
                if i < n {
                    assert(t[i] == s[i]);
                }
            }
        } else {
            if forwarders_verdict(t) is None {
                assert(forwarder_verdict(t, q) is Some);
                if exists|j: int| 0 <= j < t.len() && (#[trigger] t[j]).name@ == q.name@ {
                    let j = choose|j: int| 0 <= j < t.len() && (#[trigger] t[j]).name@ == q.name@;
                    assert(s[j].name@ == s[n].name@);
                }
                else if exists|j: int| 0 <= j < t.len() && (#[trigger] t[j]).bind_addr@ == q.bind_addr@ && t[j].bind_port == q.bind_port {
                    let j = choose|j: int| 0 <= j < t.len() && (#[trigger] t[j]).bind_addr@ == q.bind_addr@ && t[j].bind_port == q.bind_port;
                    assert(s[j].bind_addr@ == s[n].bind_addr@ && s[j].bind_port == s[n].bind_port);
                }
                else {
                    assert(s[n] == q);
                }
            } else {
                if !(forall|i: int, j: int|
                    0 <= i < j < t.len() ==> #[trigger] t[i].name@ != #[trigger] t[j].name@ && !(t[i].bind_addr@ == t[j].bind_addr@ && t[i].bind_port == t[j].bind_port)) {
                    let (i, j) = choose|i: int, j: int|
                        !(0 <= i < j < t.len() ==> #[trigger] t[i].name@ != #[trigger] t[j].name@ && !(t[i].bind_addr@ == t[j].bind_addr@ && t[i].bind_port == t[j].bind_port));
                    assert(t[i] == s[i] && t[j] == s[j]);
                } else {
                    let i = choose|i: int| !(0 <= i < t.len() ==> !is_blank((#[trigger] t[i]).name@) && t[i].bind_port != 0 && !is_blank(t[i].bind_addr@));
                    assert(t[i] == s[i]);
                }
            }
        }
    }
}

/// Once a prefix of a list has a problem, the whole list has that problem.
proof fn lemma_proxies_verdict_prefix(s: Seq<ProxyConfig>, k: int)
    requires
        0 <= k <= s.len(),
        proxies_verdict(s.take(k)) is Some,
    ensures
        proxies_verdict(s) == proxies_verdict(s.take(k)),
    decreases s.len(),
{
    if k == s.len() {
        assert(s.take(k) =~= s);
    } else {
        assert(s.drop_last().take(k) =~= s.take(k));
        lemma_proxies_verdict_prefix(s.drop_last(), k);
    }
}

/// Once a prefix of a list has a problem, the whole list has that problem.
proof fn lemma_visitors_verdict_prefix(s: Seq<VisitorConfig>, k: int)
    requires
        0 <= k <= s.len(),
        visitors_verdict(s.take(k)) is Some,
    ensures
        visitors_verdict(s) == visitors_verdict(s.take(k)),
    decreases s.len(),
{
    if k == s.len() {
        assert(s.take(k) =~= s);
    } else {
        assert(s.drop_last().take(k) =~= s.take(k));
        lemma_visitors_verdict_prefix(s.drop_last(), k);
    }
}

/// Once a prefix of a list has a problem, the whole list has that problem.
proof fn lemma_forwarders_verdict_prefix(s: Seq<ForwarderConfig>, k: int)
    requires
        0 <= k <= s.len(),
        forwarders_verdict(s.take(k)) is Some,
    ensures
        forwarders_verdict(s) == forwarders_verdict(s.take(k)),
    decreases s.len(),
{
    if k == s.len() {
        assert(s.take(k) =~= s);
    } else {
        assert(s.drop_last().take(k) =~= s.take(k));
        lemma_forwarders_verdict_prefix(s.drop_last(), k);
    }
}

/// Verdict on the parts of a complete client configuration.
pub open spec fn client_full_fields_verdict(
    auth_key: Seq<char>,
    proxies: Seq<ProxyConfig>,
    visitors: Seq<VisitorConfig>,
    forwarders: Seq<ForwarderConfig>,
) -> Verdict {
    if auth_key_verdict(auth_key) is Some {
        auth_key_verdict(auth_key)
    } else if proxies.len() == 0 && visitors.len() == 0 && forwarders.len() == 0 {
        Some(ConfigErrorView::NothingConfigured)
    } else if proxies_verdict(proxies) is Some {
        proxies_verdict(proxies)
    } else if visitors_verdict(visitors) is Some {
        visitors_verdict(visitors)
    } else {
        forwarders_verdict(forwarders)
    }
}

/// Verdict on a complete client configuration.
pub open spec fn client_full_verdict(c: ClientFullConfig) -> Verdict {
    client_full_fields_verdict(c.client.auth_key@, c.proxies@, c.visitors@, c.forwarders@)
}

/// A complete client configuration that is accepted has a key of at least
/// 16 bytes and something configured, and in each of its lists no two
/// entries share a name, and no two proxies, visitors or forwarders share
/// the address and port that they bind or publish.
pub proof fn law_client_config_accepted(c: ClientFullConfig)
    requires
        client_full_verdict(c) is None,
    ensures
        byte_len(c.client.auth_key@) >= 16,
        c.proxies@.len() > 0 || c.visitors@.len() > 0 || c.forwarders@.len() > 0,
        forall|i: int, j: int|
            0 <= i < j < c.proxies@.len() ==> #[trigger] c.proxies@[i].name@ != #[trigger] c.proxies@[j].name@
                && !(c.proxies@[i].publish_addr@ == c.proxies@[j].publish_addr@ && c.proxies@[i].publish_port
                == c.proxies@[j].publish_port) && c.proxies@[i].local_port != c.proxies@[j].local_port,
        forall|i: int, j: int|
            0 <= i < j < c.visitors@.len() ==> #[trigger] c.visitors@[i].name@ != #[trigger] c.visitors@[j].name@
                && !(c.visitors@[i].bind_addr@ == c.visitors@[j].bind_addr@ && c.visitors@[i].bind_port
                == c.visitors@[j].bind_port),
        forall|i: int, j: int|
            0 <= i < j < c.forwarders@.len() ==> #[trigger] c.forwarders@[i].name@
                != #[trigger] c.forwarders@[j].name@ && !(c.forwarders@[i].bind_addr@
                == c.forwarders@[j].bind_addr@ && c.forwarders@[i].bind_port == c.forwarders@[j].bind_port),
{
    law_proxy_configs_accepted(c.proxies@);
    law_visitor_list_accepted(c.visitors@);
    law_forwarder_list_accepted(c.forwarders@);
}

/// Whether a forwarder's bind address is one of the loopback names, so that
/// only this machine can use it.
pub open spec fn is_loopback_bind(addr: Seq<char>) -> bool {
    addr == "127.0.0.1"@ || addr == "localhost"@ || addr == "::1"@
}

/// A new string: `prefix`, then `name`, then a closing quote.
fn entry_context_string(prefix: &str, name: &String) -> (s: String)
    ensures
        s@ == entry_context(prefix@, name@),
{
    let mut s = text(prefix);
    push_text(&mut s, name.as_str());
    push_text(&mut s, "'");
    s
}

/// Checks of configurations, each returning the first problem found.
pub struct ConfigValidator;

impl ConfigValidator {
    /// Checks that an authentication key is at least 16 bytes long.
    pub fn validate_auth_key(auth_key: &str) -> (r: Result<(), ConfigError>)
        ensures
            verdict_of(r) == auth_key_verdict(auth_key@),
    {
        let len = str_byte_len(auth_key);
        if len < 16 {
            return Err(ConfigError::AuthKeyTooShort { length: len });
        }
        Ok(())
    }

    /// Checks that a port is not 0.
    pub fn validate_port(port: u16, context: &str) -> (r: Result<(), ConfigError>)
        ensures
            verdict_of(r) == port_verdict(port, context@),
    {
        if port == 0 {
            return Err(ConfigError::PortZero { context: text(context) });
        }
        Ok(())
    }

    /// Checks that an address is not blank.
    pub fn validate_address(addr: &str, context: &str) -> (r: Result<(), ConfigError>)
        ensures
            verdict_of(r) == address_verdict(addr@, context@),
    {
        if str_is_blank(addr) {
            return Err(ConfigError::EmptyAddress { context: text(context) });
        }
        Ok(())
    }

    /// Checks that a name is not blank.
    pub fn validate_name(name: &str, context: &str) -> (r: Result<(), ConfigError>)
        ensures
            verdict_of(r) == name_verdict(name@, context@),
    {
        if str_is_blank(name) {
            return Err(ConfigError::EmptyName { context: text(context) });
        }
        Ok(())
    }

    /// Checks a server configuration.
    pub fn validate_server_config(config: &ServerConfig) -> (r: Result<(), ConfigError>)
        ensures
            verdict_of(r) == server_verdict(*config),
    {
        Self::validate_address(config.bind_addr.as_str(), "Server bind_addr")?;
        Self::validate_auth_key(config.auth_key.as_str())?;
        if let Some(addr) = &config.stats_addr {
            Self::validate_address(addr.as_str(), "Server stats_addr")?;
        }
        if config.cert_path.is_some() != config.key_path.is_some() {
            return Err(ConfigError::CertificatePairIncomplete);
        }
        if config.behind_proxy && matches!(config.transport, TransportType::Tls) {
            return Err(ConfigError::TlsBehindProxy);
        }
        if config.behind_proxy && (config.cert_path.is_some() || config.key_path.is_some()) {
            return Err(ConfigError::CertificatesBehindProxy);
        }
        if let Some(rate_limit) = &config.rate_limit {
            Self::validate_rate_limit_config(rate_limit)?;
        }
        if let Some(size_limits) = &config.size_limits {
            Self::validate_size_limit_config(size_limits)?;
        }
        Ok(())
    }

    /// Checks rate limits.
    pub fn validate_rate_limit_config(config: &RateLimitConfig) -> (r: Result<(), ConfigError>)
        ensures
            verdict_of(r) == rate_limit_verdict(*config),
    {
        if config.requests_per_second == 0 {
            return Err(ConfigError::ZeroRequestsPerSecond);
        }
        if config.burst_size == 0 {
            return Err(ConfigError::ZeroBurstSize);
        }
        Ok(())
    }

    /// Checks size limits.
    pub fn validate_size_limit_config(config: &SizeLimitConfig) -> (r: Result<(), ConfigError>)
        ensures
            verdict_of(r) == size_limit_verdict(*config),
    {
        if config.max_request_size == 0 {
            return Err(ConfigError::ZeroMaxRequestSize);
        }
        if config.max_header_size == 0 {
            return Err(ConfigError::ZeroMaxHeaderSize);
        }
        if config.max_header_size > config.max_request_size {
            return Err(
                ConfigError::HeaderLimitAboveRequestLimit {
                    max_header_size: config.max_header_size,
                    max_request_size: config.max_request_size,
                },
            );
        }
        Ok(())
    }

    /// Checks the proxy at `i` against the proxies before it.
    fn check_proxy(proxies: &[ProxyConfig], i: usize) -> (r: Result<(), ConfigError>)
        requires
            i < proxies@.len(),
        ensures
            verdict_of(r) == proxy_verdict(proxies@.take(i as int), proxies@[i as int]),
    {
        let ghost prev = proxies@.take(i as int);
        let p = &proxies[i];
        if str_is_blank(p.name.as_str()) {
            let e = ConfigError::EmptyName { context: text("Proxy name") };
            proof {
                assert(proxy_verdict(prev, *p) == Some(e@));
            }
            return Err(e);
        }
        let mut k: usize = 0;
        while k < i
            invariant
                i < proxies@.len(),
                k <= i,
                prev == proxies@.take(i as int),
                !is_blank(p.name@),
                *p == proxies@[i as int],
                forall|j: int| 0 <= j < k ==> (#[trigger] prev[j]).name@ != p.name@,
            decreases i - k,
        {
            if proxies[k].name == p.name {
                assert(prev[k as int] == proxies@[k as int]);
                assert(prev[k as int].name@ == p.name@);
                assert(exists|j: int| 0 <= j < prev.len() && (#[trigger] prev[j]).name@ == p.name@);
                let e = ConfigError::DuplicateName { section: Section::Proxy, name: p.name.clone() };
                assert(e@ == ConfigErrorView::DuplicateName { section: Section::Proxy, name: p.name@ });
                proof {
                    assert(proxy_verdict(prev, *p) == Some(e@));
                }
                return Err(e);
            }
            k = k + 1;
        }
        let mut k: usize = 0;
        while k < i
            invariant
                i < proxies@.len(),
                k <= i,
                prev == proxies@.take(i as int),
                !is_blank(p.name@),
                *p == proxies@[i as int],
                forall|j: int| 0 <= j < i ==> (#[trigger] prev[j]).name@ != p.name@,
                forall|j: int|
                    0 <= j < k ==> !((#[trigger] prev[j]).publish_addr@ == p.publish_addr@
                        && prev[j].publish_port == p.publish_port),
            decreases i - k,
        {
            if proxies[k].publish_addr == p.publish_addr && proxies[k].publish_port == p.publish_port {
                assert(prev[k as int] == proxies@[k as int]);
                assert(prev[k as int].publish_addr@ == p.publish_addr@);
                assert(exists|j: int|
                    0 <= j < prev.len() && (#[trigger] prev[j]).publish_addr@ == p.publish_addr@
                        && prev[j].publish_port == p.publish_port);
                let e = ConfigError::DuplicateBinding {
                        section: Section::Proxy,
                        addr: p.publish_addr.clone(),
                        port: p.publish_port,
                    };
                assert(e@ == ConfigErrorView::DuplicateBinding {
                        section: Section::Proxy,
                        addr: p.publish_addr@,
                        port: p.publish_port,
                    });
                proof {
                    assert(proxy_verdict(prev, *p) == Some(e@));
                }
                return Err(e);
            }
            k = k + 1;
        }
        let mut k: usize = 0;
        while k < i
            invariant
                i < proxies@.len(),
                k <= i,
                prev == proxies@.take(i as int),
                !is_blank(p.name@),
                *p == proxies@[i as int],
                forall|j: int| 0 <= j < i ==> (#[trigger] prev[j]).name@ != p.name@,
                forall|j: int|
                    0 <= j < i ==> !((#[trigger] prev[j]).publish_addr@ == p.publish_addr@
                        && prev[j].publish_port == p.publish_port),
                forall|j: int| 0 <= j < k ==> (#[trigger] prev[j]).local_port != p.local_port,
            decreases i - k,
        {
            if proxies[k].local_port == p.local_port {
                assert(prev[k as int] == proxies@[k as int]);
                assert(prev[k as int].local_port == p.local_port);
                assert(exists|j: int| 0 <= j < prev.len() && (#[trigger] prev[j]).local_port == p.local_port);
                let e = ConfigError::DuplicateLocalPort { port: p.local_port };
                assert(e@ == ConfigErrorView::DuplicateLocalPort { port: p.local_port });
                proof {
                    assert(proxy_verdict(prev, *p) == Some(e@));
                }
                return Err(e);
            }
            k = k + 1;
        }
        if p.publish_port == 0 || p.local_port == 0 {
            let e = ConfigError::PortZero { context: entry_context_string("Proxy '", &p.name) };
            proof {
                assert(proxy_verdict(prev, *p) == Some(e@));
            }
            return Err(e);
        }
        if str_is_blank(p.publish_addr.as_str()) {
            let e = ConfigError::EmptyAddress { context: entry_context_string("Proxy '", &p.name) };
            proof {
                assert(proxy_verdict(prev, *p) == Some(e@));
            }
            return Err(e);
        }
        Ok(())
    }

    /// Checks a list of proxies: names, publish bindings and local ports
    /// unique, ports not 0, addresses not blank.
    pub fn validate_proxies(proxies: &[ProxyConfig]) -> (r: Result<(), ConfigError>)
        ensures
            verdict_of(r) == proxies_verdict(proxies@),
    {
        let n = proxies.len();
        let mut i: usize = 0;
        while i < n
            invariant
                n == proxies@.len(),
                i <= n,
                proxies_verdict(proxies@.take(i as int)) is None,
            decreases n - i,
        {
            let ghost s = proxies@.take(i as int + 1);
            assert(s.drop_last() =~= proxies@.take(i as int));
            assert(s.last() == proxies@[i as int]);
            let r = Self::check_proxy(proxies, i);
            if r.is_err() {
                proof {
                    lemma_proxies_verdict_prefix(proxies@, i as int + 1);
                }
                return r;
            }
            i = i + 1;
        }
        assert(proxies@.take(n as int) =~= proxies@);
        Ok(())
    }

    /// Checks the visitor at `i` against the visitors before it.
    fn check_visitor(visitors: &[VisitorConfig], i: usize) -> (r: Result<(), ConfigError>)
        requires
            i < visitors@.len(),
        ensures
            verdict_of(r) == visitor_verdict(visitors@.take(i as int), visitors@[i as int]),
    {
        let ghost prev = visitors@.take(i as int);
        let v = &visitors[i];
        if str_is_blank(v.name.as_str()) {
            let e = ConfigError::EmptyName { context: text("Visitor name") };
            proof {
                assert(visitor_verdict(prev, *v) == Some(e@));
            }
            return Err(e);
        }
        let mut k: usize = 0;
        while k < i
            invariant
                i < visitors@.len(),
                k <= i,
                prev == visitors@.take(i as int),
                !is_blank(v.name@),
                *v == visitors@[i as int],
                forall|j: int| 0 <= j < k ==> (#[trigger] prev[j]).name@ != v.name@,
            decreases i - k,
        {
            if visitors[k].name == v.name {
                assert(prev[k as int] == visitors@[k as int]);
                assert(prev[k as int].name@ == v.name@);
                assert(exists|j: int| 0 <= j < prev.len() && (#[trigger] prev[j]).name@ == v.name@);
                let e = ConfigError::DuplicateName { section: Section::Visitor, name: v.name.clone() };
                assert(e@ == ConfigErrorView::DuplicateName { section: Section::Visitor, name: v.name@ });
                proof {
                    assert(visitor_verdict(prev, *v) == Some(e@));
                }
                return Err(e);
            }
            k = k + 1;
        }
        let mut k: usize = 0;
        while k < i
            invariant
                i < visitors@.len(),
                k <= i,
                prev == visitors@.take(i as int),
                !is_blank(v.name@),
                *v == visitors@[i as int],
                forall|j: int| 0 <= j < i ==> (#[trigger] prev[j]).name@ != v.name@,
                forall|j: int|
                    0 <= j < k ==> !((#[trigger] prev[j]).bind_addr@ == v.bind_addr@
                        && prev[j].bind_port == v.bind_port),
            decreases i - k,
        {
            if visitors[k].bind_addr == v.bind_addr && visitors[k].bind_port == v.bind_port {
                assert(prev[k as int] == visitors@[k as int]);
                assert(prev[k as int].bind_addr@ == v.bind_addr@);
                assert(exists|j: int|
                    0 <= j < prev.len() && (#[trigger] prev[j]).bind_addr@ == v.bind_addr@
                        && prev[j].bind_port == v.bind_port);
                let e = ConfigError::DuplicateBinding {
                        section: Section::Visitor,
                        addr: v.bind_addr.clone(),
                        port: v.bind_port,
                    };
                assert(e@ == ConfigErrorView::DuplicateBinding {
                        section: Section::Visitor,
                        addr: v.bind_addr@,
                        port: v.bind_port,
                    });
                proof {
                    assert(visitor_verdict(prev, *v) == Some(e@));
                }
                return Err(e);
            }
            k = k + 1;
        }
        if v.bind_port == 0 || v.publish_port == 0 {
            let e = ConfigError::PortZero { context: entry_context_string("Visitor '", &v.name) };
            proof {
                assert(visitor_verdict(prev, *v) == Some(e@));
            }
            return Err(e);
        }
        if str_is_blank(v.bind_addr.as_str()) {
            let e = ConfigError::EmptyAddress { context: entry_context_string("Visitor '", &v.name) };
            proof {
                assert(visitor_verdict(prev, *v) == Some(e@));
            }
            return Err(e);
        }
        Ok(())
    }

    /// Checks a list of visitors: names and bindings unique, ports not 0,
    /// addresses not blank.
    pub fn validate_visitors(visitors: &[VisitorConfig]) -> (r: Result<(), ConfigError>)
        ensures
            verdict_of(r) == visitors_verdict(visitors@),
    {
        let n = visitors.len();
        let mut i: usize = 0;
        while i < n
            invariant
                n == visitors@.len(),
                i <= n,
                visitors_verdict(visitors@.take(i as int)) is None,
            decreases n - i,
        {
            let ghost s = visitors@.take(i as int + 1);
            assert(s.drop_last() =~= visitors@.take(i as int));
            assert(s.last() == visitors@[i as int]);
            let r = Self::check_visitor(visitors, i);
            if r.is_err() {
                proof {
                    lemma_visitors_verdict_prefix(visitors@, i as int + 1);
                }
                return r;
            }
            i = i + 1;
        }
        assert(visitors@.take(n as int) =~= visitors@);
        Ok(())
    }

    /// Checks the forwarder at `i` against the forwarders before it.
    fn check_forwarder(forwarders: &[ForwarderConfig], i: usize) -> (r: Result<(), ConfigError>)
        requires
            i < forwarders@.len(),
        ensures
            verdict_of(r) == forwarder_verdict(forwarders@.take(i as int), forwarders@[i as int]),
    {
        let ghost prev = forwarders@.take(i as int);
        let f = &forwarders[i];
        if str_is_blank(f.name.as_str()) {
            let e = ConfigError::EmptyName { context: text("Forwarder name") };
            proof {
                assert(forwarder_verdict(prev, *f) == Some(e@));
            }
            return Err(e);
        }
        let mut k: usize = 0;
        while k < i
            invariant
                i < forwarders@.len(),
                k <= i,
                prev == forwarders@.take(i as int),
                !is_blank(f.name@),
                *f == forwarders@[i as int],
                forall|j: int| 0 <= j < k ==> (#[trigger] prev[j]).name@ != f.name@,
            decreases i - k,
        {
            if forwarders[k].name == f.name {
                assert(prev[k as int] == forwarders@[k as int]);
                assert(prev[k as int].name@ == f.name@);
                assert(exists|j: int| 0 <= j < prev.len() && (#[trigger] prev[j]).name@ == f.name@);
                let e = ConfigError::DuplicateName { section: Section::Forwarder, name: f.name.clone() };
                assert(e@ == ConfigErrorView::DuplicateName { section: Section::Forwarder, name: f.name@ });
                proof {
                    assert(forwarder_verdict(prev, *f) == Some(e@));
                }
                return Err(e);
            }
            k = k + 1;
        }
        let mut k: usize = 0;
        while k < i
            invariant
                i < forwarders@.len(),
                k <= i,
                prev == forwarders@.take(i as int),
                !is_blank(f.name@),
                *f == forwarders@[i as int],
                forall|j: int| 0 <= j < i ==> (#[trigger] prev[j]).name@ != f.name@,
                forall|j: int|
                    0 <= j < k ==> !((#[trigger] prev[j]).bind_addr@ == f.bind_addr@
                        && prev[j].bind_port == f.bind_port),
            decreases i - k,
        {
            if forwarders[k].bind_addr == f.bind_addr && forwarders[k].bind_port == f.bind_port {
                assert(prev[k as int] == forwarders@[k as int]);
                assert(prev[k as int].bind_addr@ == f.bind_addr@);
                assert(exists|j: int|
                    0 <= j < prev.len() && (#[trigger] prev[j]).bind_addr@ == f.bind_addr@
                        && prev[j].bind_port == f.bind_port);
                let e = ConfigError::DuplicateBinding {
                        section: Section::Forwarder,
                        addr: f.bind_addr.clone(),
                        port: f.bind_port,
                    };
                assert(e@ == ConfigErrorView::DuplicateBinding {
                        section: Section::Forwarder,
                        addr: f.bind_addr@,
                        port: f.bind_port,
                    });
                proof {
                    assert(forwarder_verdict(prev, *f) == Some(e@));
                }
                return Err(e);
            }
            k = k + 1;
        }
        if f.bind_port == 0 {
            let e = ConfigError::PortZero { context: entry_context_string("Forwarder '", &f.name) };
            proof {
                assert(forwarder_verdict(prev, *f) == Some(e@));
            }
            return Err(e);
        }
        if str_is_blank(f.bind_addr.as_str()) {
            let e = ConfigError::EmptyAddress { context: entry_context_string("Forwarder '", &f.name) };
            proof {
                assert(forwarder_verdict(prev, *f) == Some(e@));
            }
            return Err(e);
        }
        Ok(())
    }

    /// Checks a list of forwarders: names and bindings unique, ports not 0,
    /// addresses not blank.
    pub fn validate_forwarders(forwarders: &[ForwarderConfig]) -> (r: Result<(), ConfigError>)
        ensures
            verdict_of(r) == forwarders_verdict(forwarders@),
    {
        let n = forwarders.len();
        let mut i: usize = 0;
        while i < n
            invariant
                n == forwarders@.len(),
                i <= n,
                forwarders_verdict(forwarders@.take(i as int)) is None,
            decreases n - i,
        {
            let ghost s = forwarders@.take(i as int + 1);
            assert(s.drop_last() =~= forwarders@.take(i as int));
            assert(s.last() == forwarders@[i as int]);
            let r = Self::check_forwarder(forwarders, i);
            if r.is_err() {
                proof {
                    lemma_forwarders_verdict_prefix(forwarders@, i as int + 1);
                }
                return r;
            }
            i = i + 1;
        }
        assert(forwarders@.take(n as int) =~= forwarders@);
        Ok(())
    }

    /// Whether a forwarder bound to `bind_addr` is reachable only from this
    /// machine (`127.0.0.1`, `localhost` or `::1`); otherwise anyone on the
    /// network may use it.
    pub fn is_loopback_bind_addr(bind_addr: &str) -> (r: bool)
        ensures
            r == is_loopback_bind(bind_addr@),
    {
        let a = text(bind_addr);
        let l1 = text("127.0.0.1");
        let l2 = text("localhost");
        let l3 = text("::1");
        a == l1 || a == l2 || a == l3
    }

    /// The warning for a forwarder `name` bound to `bind_addr`, when that
    /// address is not a loopback one.
    pub fn check_forwarder_security(name: &str, bind_addr: &str) -> (w: Option<String>)
        ensures
            is_loopback_bind(bind_addr@) ==> w is None,
            !is_loopback_bind(bind_addr@) ==> (w matches Some(t) && t@ == forwarder_exposure_warning(
                name@,
                bind_addr@,
            )),
    {
        if Self::is_loopback_bind_addr(bind_addr) {
            None
        } else {
            let mut t = text(FORWARDER_WARNING_START);
            push_text(&mut t, name);
            push_text(&mut t, FORWARDER_WARNING_MIDDLE);
            push_text(&mut t, bind_addr);
            push_text(&mut t, FORWARDER_WARNING_END);
            Some(t)
        }
    }

    /// The advice for a rate limit whose burst is below its rate, which
    /// limits often.
    pub fn check_rate_limit_advice(config: &RateLimitConfig) -> (w: Option<String>)
        ensures
            w matches Some(t) ==> rate_limit_advice(*config) == Some(t@),
            w is None ==> rate_limit_advice(*config) is None,
    {
        if config.burst_size < config.requests_per_second {
            let mut t = text("rate_limit.burst_size (");
            push_decimal(&mut t, config.burst_size as u128);
            push_text(&mut t, ") is less than requests_per_second (");
            push_decimal(&mut t, config.requests_per_second as u128);
            push_text(&mut t, "), this may cause frequent rate limiting");
            Some(t)
        } else {
            None
        }
    }

    /// The advice for a request size limit above 100 MB, which leaves room
    /// for exhausting memory.
    pub fn check_size_limit_advice(config: &SizeLimitConfig) -> (w: Option<String>)
        ensures
            w matches Some(t) ==> size_limit_advice(*config) == Some(t@),
            w is None ==> size_limit_advice(*config) is None,
    {
        if config.max_request_size > 104857600 {
            let mut t = text("size_limits.max_request_size is very large (");
            push_decimal(&mut t, config.max_request_size as u128);
            push_text(&mut t, " bytes = ");
            push_decimal(&mut t, (config.max_request_size / 1048576) as u128);
            push_text(&mut t, " MB), this may lead to memory exhaustion attacks");
            Some(t)
        } else {
            None
        }
    }

    /// The advice that a server's valid but doubtful limits call for: on the
    /// rate limit first, then on the size limits.
    pub fn limit_advice(config: &ServerConfig) -> (v: Vec<String>)
        ensures
            v@.map_values(|s: String| s@) == server_limit_advice(*config),
    {
        let mut v: Vec<String> = Vec::new();
        if let Some(r) = &config.rate_limit {
            if let Some(w) = Self::check_rate_limit_advice(r) {
                v.push(w);
            }
        }
        if let Some(s) = &config.size_limits {
            if let Some(w) = Self::check_size_limit_advice(s) {
                v.push(w);
            }
        }
        proof {
            assert(v@.map_values(|s: String| s@) =~= server_limit_advice(*config));
        }
        v
    }

    /// Checks a complete client configuration.
    pub fn validate_client_full_config(config: &ClientFullConfig) -> (r: Result<(), ConfigError>)
        ensures
            verdict_of(r) == client_full_verdict(*config),
    {
        Self::validate_auth_key(config.client.auth_key.as_str())?;
        if config.proxies.len() == 0 && config.visitors.len() == 0 && config.forwarders.len() == 0 {
            return Err(ConfigError::NothingConfigured);
        }
        Self::validate_proxies(config.proxies.as_slice())?;
        Self::validate_visitors(config.visitors.as_slice())?;
        Self::validate_forwarders(config.forwarders.as_slice())?;
        Ok(())
    }
}

impl ServerConfig {
    /// Checks this configuration (see `ConfigValidator::validate_server_config`).
    pub fn validate(&self) -> (r: Result<(), ConfigError>)
        ensures
            verdict_of(r) == server_verdict(*self),
    {
        ConfigValidator::validate_server_config(self)
    }
}

impl ClientFullConfig {
    /// Checks this configuration (see
    /// `ConfigValidator::validate_client_full_config`).
    pub fn validate(&self) -> (r: Result<(), ConfigError>)
        ensures
            verdict_of(r) == client_full_verdict(*self),
    {
        ConfigValidator::validate_client_full_config(self)
    }
}

} // verus!
