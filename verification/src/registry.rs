//! The server's table of published proxies, keyed by name and publish port.
use vstd::prelude::*;

use crate::config::{ProxyConfig, ProxyType};
use crate::stats::ProxyStatsTracker;
use crate::text::{decimal, is_blank, push_decimal, push_text, str_eq, str_is_blank, text};

verus! {

/// A proxy as the server knows it.
#[derive(Debug)]
pub struct ProxyInfo {
    pub name: String,
    pub proxy_type: ProxyType,
    pub publish_addr: String,
    pub publish_port: u16,
    pub local_port: u16,
}

/// What a [`ProxyInfo`] holds, as plain values.
pub struct ProxyInfoView {
    pub name: Seq<char>,
    pub proxy_type: ProxyType,
    pub publish_addr: Seq<char>,
    pub publish_port: u16,
    pub local_port: u16,
}

impl View for ProxyInfo {
    type V = ProxyInfoView;

    open spec fn view(&self) -> ProxyInfoView {
        ProxyInfoView {
            name: self.name@,
            proxy_type: self.proxy_type,
            publish_addr: self.publish_addr@,
            publish_port: self.publish_port,
            local_port: self.local_port,
        }
    }
}

/// The server's record of a proxy that a client submitted.
pub open spec fn info_of(p: ProxyConfig) -> ProxyInfoView {
    ProxyInfoView {
        name: p.name@,
        proxy_type: p.proxy_type,
        publish_addr: p.publish_addr@,
        publish_port: p.publish_port,
        local_port: p.local_port,
    }
}

impl ProxyInfo {
    /// A copy.
    pub fn copy(&self) -> (r: ProxyInfo)
        ensures
            r@ == self@,
    {
        ProxyInfo {
            name: self.name.clone(),
            proxy_type: self.proxy_type,
            publish_addr: self.publish_addr.clone(),
            publish_port: self.publish_port,
            local_port: self.local_port,
        }
    }

    /// The record of a submitted proxy.
    pub fn from_config(p: &ProxyConfig) -> (r: ProxyInfo)
        ensures
            r@ == info_of(*p),
    {
        ProxyInfo {
            name: p.name.clone(),
            proxy_type: p.proxy_type,
            publish_addr: p.publish_addr.clone(),
            publish_port: p.publish_port,
            local_port: p.local_port,
        }
    }
}

impl Clone for ProxyInfo {
    fn clone(&self) -> (r: ProxyInfo)
        ensures
            r@ == self@,
    {
        self.copy()
    }
}

/// A visitor as the server knows it.
#[derive(Debug, Clone)]
pub struct VisitorInfo {
    pub name: String,
    pub bind_addr: String,
    pub bind_port: u16,
    pub publish_port: u16,
}

/// Keeps a proxy's counters while one of its connections is open; the
/// connection is counted as ended when the guard is given back.
pub struct ConnectionGuard {
    tracker: ProxyStatsTracker,
}

impl ConnectionGuard {
    /// Guards a connection counted by `tracker`.
    pub fn new(tracker: ProxyStatsTracker) -> (g: Self)
        ensures
            g.tracker_view() == tracker@,
    {
        ConnectionGuard { tracker }
    }

    /// The counters held.
    pub closed spec fn tracker_view(&self) -> crate::stats::ProxyStatsView {
        self.tracker@
    }

    /// Ends the guarded connection: the counters with the connection counted
    /// as ended.
    pub fn finish(self) -> (t: ProxyStatsTracker)
        ensures
            t@ == crate::stats::ended(self.tracker_view()),
    {
        let mut t = self.tracker;
        t.connection_ended();
        t
    }
}

/// What is wrong with a list of proxies that a client submitted.
#[derive(Debug, Clone, PartialEq, Eq)]
pub enum ProxyListError {
    DuplicateName { name: String },
    DuplicateBinding { addr: String, port: u16 },
    DuplicateLocalPort { port: u16 },
    PortConflict { name: String, port: u16 },
    EmptyPublishAddr { name: String },
    ZeroPublishPort { name: String },
    ZeroLocalPort { name: String },
    EmptyName,
}

/// What a [`ProxyListError`] holds, as plain values.
pub enum ProxyListErrorView {
    DuplicateName { name: Seq<char> },
    DuplicateBinding { addr: Seq<char>, port: u16 },
    DuplicateLocalPort { port: u16 },
    PortConflict { name: Seq<char>, port: u16 },
    EmptyPublishAddr { name: Seq<char> },
    ZeroPublishPort { name: Seq<char> },
    ZeroLocalPort { name: Seq<char> },
    EmptyName,
}

impl View for ProxyListError {
    type V = ProxyListErrorView;

    open spec fn view(&self) -> ProxyListErrorView {
        match self {
            ProxyListError::DuplicateName { name } => ProxyListErrorView::DuplicateName {
                name: name@,
            },
            ProxyListError::DuplicateBinding { addr, port } => ProxyListErrorView::DuplicateBinding {
                addr: addr@,
                port: *port,
            },
            ProxyListError::DuplicateLocalPort { port } => ProxyListErrorView::DuplicateLocalPort {
                port: *port,
            },
            ProxyListError::PortConflict { name, port } => ProxyListErrorView::PortConflict {
                name: name@,
                port: *port,
            },
            ProxyListError::EmptyPublishAddr { name } => ProxyListErrorView::EmptyPublishAddr {
                name: name@,
            },
            ProxyListError::ZeroPublishPort { name } => ProxyListErrorView::ZeroPublishPort {
                name: name@,
            },
            ProxyListError::ZeroLocalPort { name } => ProxyListErrorView::ZeroLocalPort {
                name: name@,
            },
            ProxyListError::EmptyName => ProxyListErrorView::EmptyName,
        }
    }
}

/// The text of each error.
pub open spec fn proxy_list_error_text(e: ProxyListErrorView) -> Seq<char> {
    match e {
        ProxyListErrorView::DuplicateName { name } => "Duplicate proxy name '"@ + name
            + "': each proxy must have a unique name"@,
        ProxyListErrorView::DuplicateBinding { addr, port } => "Duplicate publish binding "@ + addr
            + ":"@ + decimal(port as nat)
            + ": each proxy must use a different server bind address/port"@,
        ProxyListErrorView::DuplicateLocalPort { port } => "Duplicate local_port "@ + decimal(
            port as nat,
        ) + ": each proxy must connect to a different client port"@,
        ProxyListErrorView::PortConflict { name, port } => "Proxy '"@ + name + "' publish_port "@
            + decimal(port as nat) + " conflicts with server bind port"@,
        ProxyListErrorView::EmptyPublishAddr { name } => "Proxy '"@ + name
            + "': publish_addr cannot be empty"@,
        ProxyListErrorView::ZeroPublishPort { name } => "Proxy '"@ + name
            + "': publish_port cannot be 0"@,
        ProxyListErrorView::ZeroLocalPort { name } => "Proxy '"@ + name
            + "': local_port cannot be 0"@,
        ProxyListErrorView::EmptyName => "Proxy name cannot be empty"@,
    }
}

impl ProxyListError {
    /// The error's message.
    pub fn message(&self) -> (s: String)
        ensures
            s@ == proxy_list_error_text(self@),
    {
        let mut s = String::new();
        match self {
            ProxyListError::DuplicateName { name } => {
                push_text(&mut s, "Duplicate proxy name '");
                push_text(&mut s, name.as_str());
                push_text(&mut s, "': each proxy must have a unique name");
            },
            ProxyListError::DuplicateBinding { addr, port } => {
                push_text(&mut s, "Duplicate publish binding ");
                push_text(&mut s, addr.as_str());
                push_text(&mut s, ":");
                push_decimal(&mut s, *port as u128);
                push_text(&mut s, ": each proxy must use a different server bind address/port");
            },
            ProxyListError::DuplicateLocalPort { port } => {
                push_text(&mut s, "Duplicate local_port ");
                push_decimal(&mut s, *port as u128);
                push_text(&mut s, ": each proxy must connect to a different client port");
            },
            ProxyListError::PortConflict { name, port } => {
                push_text(&mut s, "Proxy '");
                push_text(&mut s, name.as_str());
                push_text(&mut s, "' publish_port ");
                push_decimal(&mut s, *port as u128);
                push_text(&mut s, " conflicts with server bind port");
            },
            ProxyListError::EmptyPublishAddr { name } => {
                push_text(&mut s, "Proxy '");
                push_text(&mut s, name.as_str());
                push_text(&mut s, "': publish_addr cannot be empty");
            },
            ProxyListError::ZeroPublishPort { name } => {
                push_text(&mut s, "Proxy '");
                push_text(&mut s, name.as_str());
                push_text(&mut s, "': publish_port cannot be 0");
            },
            ProxyListError::ZeroLocalPort { name } => {
                push_text(&mut s, "Proxy '");
                push_text(&mut s, name.as_str());
                push_text(&mut s, "': local_port cannot be 0");
            },
            ProxyListError::EmptyName => {
                push_text(&mut s, "Proxy name cannot be empty");
            },
        }
        s
    }
}

/// The first problem of proxy `p`, given the proxies `prev` before it.
pub open spec fn info_fault(prev: Seq<ProxyInfoView>, p: ProxyInfoView, server_port: u16) -> Option<
    ProxyListErrorView,
> {
    if exists|j: int| 0 <= j < prev.len() && (#[trigger] prev[j]).name == p.name {
        Some(ProxyListErrorView::DuplicateName { name: p.name })
    } else if exists|j: int|
        0 <= j < prev.len() && (#[trigger] prev[j]).publish_addr == p.publish_addr
            && prev[j].publish_port == p.publish_port {
        Some(ProxyListErrorView::DuplicateBinding { addr: p.publish_addr, port: p.publish_port })
    } else if exists|j: int| 0 <= j < prev.len() && (#[trigger] prev[j]).local_port == p.local_port {
        Some(ProxyListErrorView::DuplicateLocalPort { port: p.local_port })
    } else if p.publish_port == server_port {
        Some(ProxyListErrorView::PortConflict { name: p.name, port: p.publish_port })
    } else if is_blank(p.publish_addr) {
        Some(ProxyListErrorView::EmptyPublishAddr { name: p.name })
    } else if p.publish_port == 0 {
        Some(ProxyListErrorView::ZeroPublishPort { name: p.name })
    } else if p.local_port == 0 {
        Some(ProxyListErrorView::ZeroLocalPort { name: p.name })
    } else if is_blank(p.name) {
        Some(ProxyListErrorView::EmptyName)
    } else {
        None
    }
}

/// The first problem of the first proxy in `s` that has one.
pub open spec fn infos_fault(s: Seq<ProxyInfoView>, server_port: u16) -> Option<ProxyListErrorView>
    decreases s.len(),
{
    if s.len() == 0 {
        None
    } else {
        match infos_fault(s.drop_last(), server_port) {
            Some(e) => Some(e),
            None => info_fault(s.drop_last(), s.last(), server_port),
        }
    }
}

/// Once a prefix of a list has a problem, the whole list has that problem.
proof fn lemma_infos_fault_prefix(s: Seq<ProxyInfoView>, k: int, server_port: u16)
    requires
        0 <= k <= s.len(),
        infos_fault(s.take(k), server_port) is Some,
    ensures
        infos_fault(s, server_port) == infos_fault(s.take(k), server_port),
    decreases s.len(),
{
    if k == s.len() {
        assert(s.take(k) =~= s);
    } else {
        assert(s.drop_last().take(k) =~= s.take(k));
        lemma_infos_fault_prefix(s.drop_last(), k, server_port);
    }
}

/// A submitted list of proxies is accepted exactly when no two proxies
/// share a name, a publish address and port, or a local port, and every
/// proxy has a name and a publish address that are not blank, ports that
/// are not 0, and a publish port other than the server's own.
pub proof fn law_proxy_list_accepted(s: Seq<ProxyInfoView>, server_port: u16)
    ensures
        infos_fault(s, server_port) is None <==> (forall|i: int, j: int|
            0 <= i < j < s.len() ==> #[trigger] s[i].name != #[trigger] s[j].name
                && !(s[i].publish_addr == s[j].publish_addr && s[i].publish_port == s[j].publish_port)
                && s[i].local_port != s[j].local_port) && (forall|i: int|
            0 <= i < s.len() ==> (#[trigger] s[i]).publish_port != server_port && s[i].publish_port != 0
                && s[i].local_port != 0 && !is_blank(s[i].name) && !is_blank(s[i].publish_addr)),
    decreases s.len(),
{
    if s.len() > 0 {
        let t = s.drop_last();
        let q = s.last();
        let n = t.len() as int;
        law_proxy_list_accepted(t, server_port);
        assert forall|i: int| 0 <= i < n implies t[i] == s[i] by {}
        assert(q == s[n]);
        if infos_fault(s, server_port) is None {
            assert(infos_fault(t, server_port) is None);
            assert(info_fault(t, q, server_port) is None);
            assert forall|i: int, j: int| 0 <= i < j < s.len() implies #[trigger] s[i].name != #[trigger] s[j].name
                && !(s[i].publish_addr == s[j].publish_addr && s[i].publish_port == s[j].publish_port)
                && s[i].local_port != s[j].local_port by {
                if j < n {
                    assert(t[i] == s[i] && t[j] == s[j]);
                } else {
                    assert(t[i] == s[i]);
                }
            }
            assert forall|i: int| 0 <= i < s.len() implies (#[trigger] s[i]).publish_port != server_port
                && s[i].publish_port != 0 && s[i].local_port != 0 && !is_blank(s[i].name) && !is_blank(
                s[i].publish_addr,
            ) by {
                if i < n {
                    assert(t[i] == s[i]);
                }
            }
        } else {
            if infos_fault(t, server_port) is None {
                assert(info_fault(t, q, server_port) is Some);
                if exists|j: int| 0 <= j < t.len() && (#[trigger] t[j]).name == q.name {
                    let j = choose|j: int| 0 <= j < t.len() && (#[trigger] t[j]).name == q.name;
                    assert(s[j].name == s[n].name);
                } else if exists|j: int|
                    0 <= j < t.len() && (#[trigger] t[j]).publish_addr == q.publish_addr
                        && t[j].publish_port == q.publish_port {
                    let j = choose|j: int|
                        0 <= j < t.len() && (#[trigger] t[j]).publish_addr == q.publish_addr
                            && t[j].publish_port == q.publish_port;
                    assert(s[j].publish_addr == s[n].publish_addr && s[j].publish_port == s[n].publish_port);
                } else if exists|j: int| 0 <= j < t.len() && (#[trigger] t[j]).local_port == q.local_port {
                    let j = choose|j: int| 0 <= j < t.len() && (#[trigger] t[j]).local_port == q.local_port;
                    assert(s[j].local_port == s[n].local_port);
                } else {
                    assert(s[n] == q);
                }
            } else {
                if !(forall|i: int, j: int|
                    0 <= i < j < t.len() ==> #[trigger] t[i].name != #[trigger] t[j].name
                        && !(t[i].publish_addr == t[j].publish_addr && t[i].publish_port == t[j].publish_port)
                        && t[i].local_port != t[j].local_port) {
                    let (i, j) = choose|i: int, j: int|
                        !(0 <= i < j < t.len() ==> #[trigger] t[i].name != #[trigger] t[j].name
                            && !(t[i].publish_addr == t[j].publish_addr && t[i].publish_port == t[j].publish_port)
                            && t[i].local_port != t[j].local_port);
                    assert(t[i] == s[i] && t[j] == s[j]);
                } else {
                    let i = choose|i: int|
                        !(0 <= i < t.len() ==> (#[trigger] t[i]).publish_port != server_port && t[i].publish_port != 0
                            && t[i].local_port != 0 && !is_blank(t[i].name) && !is_blank(t[i].publish_addr));
                    assert(t[i] == s[i]);
                }
            }
        }
    }
}

/// The views of a list of proxies.
pub open spec fn infos_view(s: Seq<ProxyInfo>) -> Seq<ProxyInfoView> {
    s.map_values(|p: ProxyInfo| p@)
}

/// The outcome of a check, by its error's view.
pub open spec fn list_verdict(r: Result<(), ProxyListError>) -> Option<ProxyListErrorView> {
    match r {
        Ok(()) => None,
        Err(e) => Some(e@),
    }
}

fn check_info(proxies: &[ProxyInfo], i: usize, server_bind_port: u16) -> (r: Result<(), ProxyListError>)
    requires
        i < proxies@.len(),
    ensures
        list_verdict(r) == info_fault(
            infos_view(proxies@.take(i as int)),
            proxies@[i as int]@,
            server_bind_port,
        ),
{
    let ghost prev = infos_view(proxies@.take(i as int));
    let p = &proxies[i];
    let mut k: usize = 0;
    while k < i
        invariant
            i < proxies@.len(),
            k <= i,
            prev == infos_view(proxies@.take(i as int)),
            *p == proxies@[i as int],
            forall|j: int| 0 <= j < k ==> (#[trigger] prev[j]).name != p.name@,
        decreases i - k,
    {
        if proxies[k].name == p.name {
            assert(prev[k as int] == proxies@[k as int]@);
            let e = ProxyListError::DuplicateName { name: p.name.clone() };
            assert(info_fault(prev, p@, server_bind_port) == Some(e@));
            return Err(e);
        }
        k = k + 1;
    }
    let mut k: usize = 0;
    while k < i
        invariant
            i < proxies@.len(),
            k <= i,
            prev == infos_view(proxies@.take(i as int)),
            *p == proxies@[i as int],
            forall|j: int| 0 <= j < i ==> (#[trigger] prev[j]).name != p.name@,
            forall|j: int|
                0 <= j < k ==> !((#[trigger] prev[j]).publish_addr == p.publish_addr@
                    && prev[j].publish_port == p.publish_port),
        decreases i - k,
    {
        if proxies[k].publish_addr == p.publish_addr && proxies[k].publish_port == p.publish_port {
            assert(prev[k as int] == proxies@[k as int]@);
            let e = ProxyListError::DuplicateBinding {
                addr: p.publish_addr.clone(),
                port: p.publish_port,
            };
            assert(info_fault(prev, p@, server_bind_port) == Some(e@));
            return Err(e);
        }
        k = k + 1;
    }
    let mut k: usize = 0;
    while k < i
        invariant
            i < proxies@.len(),
            k <= i,
            prev == infos_view(proxies@.take(i as int)),
            *p == proxies@[i as int],
            forall|j: int| 0 <= j < i ==> (#[trigger] prev[j]).name != p.name@,
            forall|j: int|
                0 <= j < i ==> !((#[trigger] prev[j]).publish_addr == p.publish_addr@
                    && prev[j].publish_port == p.publish_port),
            forall|j: int| 0 <= j < k ==> (#[trigger] prev[j]).local_port != p.local_port,
        decreases i - k,
    {
        if proxies[k].local_port == p.local_port {
            assert(prev[k as int] == proxies@[k as int]@);
            let e = ProxyListError::DuplicateLocalPort { port: p.local_port };
            assert(info_fault(prev, p@, server_bind_port) == Some(e@));
            return Err(e);
        }
        k = k + 1;
    }
    if p.publish_port == server_bind_port {
        return Err(ProxyListError::PortConflict { name: p.name.clone(), port: p.publish_port });
    }
    if str_is_blank(p.publish_addr.as_str()) {
        return Err(ProxyListError::EmptyPublishAddr { name: p.name.clone() });
    }
    if p.publish_port == 0 {
        return Err(ProxyListError::ZeroPublishPort { name: p.name.clone() });
    }
    if p.local_port == 0 {
        return Err(ProxyListError::ZeroLocalPort { name: p.name.clone() });
    }
    if str_is_blank(p.name.as_str()) {
        return Err(ProxyListError::EmptyName);
    }
    Ok(())
}

/// Checks the proxies of a client against each other and against the
/// server's own port: names, publish bindings and local ports unique, no
/// publish port equal to the server's, no blank address or name, no port 0.
/// The first problem of the first proxy that has one is reported.
pub fn validate_proxy_configs(proxies: &[ProxyInfo], server_bind_port: u16) -> (r: Result<
    (),
    ProxyListError,
>)
    ensures
        list_verdict(r) == infos_fault(infos_view(proxies@), server_bind_port),
{
    let n = proxies.len();
    let mut i: usize = 0;
    while i < n
        invariant
            n == proxies@.len(),
            i <= n,
            infos_fault(infos_view(proxies@.take(i as int)), server_bind_port) is None,
        decreases n - i,
    {
        let ghost before = infos_view(proxies@.take(i as int));
        let ghost after = infos_view(proxies@.take(i + 1));
        proof {
            assert(after.drop_last() =~= before);
            assert(after.last() == proxies@[i as int]@);
        }
        match check_info(proxies, i, server_bind_port) {
            Ok(()) => {},
            Err(e) => {
                proof {
                    assert(infos_view(proxies@).take(i + 1) =~= after);
                    lemma_infos_fault_prefix(infos_view(proxies@), i + 1, server_bind_port);
                }
                return Err(e);
            },
        }
        i = i + 1;
    }
    proof {
        assert(proxies@.take(n as int) =~= proxies@);
    }
    Ok(())
}

/// The registered proxy with this name and publish port, if any.
pub open spec fn key_registered(infos: Seq<ProxyInfoView>, name: Seq<char>, port: u16) -> bool {
    exists|i: int|
        0 <= i < infos.len() && (#[trigger] infos[i]).name == name && infos[i].publish_port == port
}

/// The position of the registration with this key, if any.
pub open spec fn key_position(infos: Seq<ProxyInfoView>, name: Seq<char>, port: u16) -> Option<int> {
    if key_registered(infos, name, port) {
        Some(
            choose|i: int|
                0 <= i < infos.len() && (#[trigger] infos[i]).name == name && infos[i].publish_port
                    == port,
        )
    } else {
        None
    }
}

/// No two registrations share a name and publish port.
pub open spec fn keys_unique(infos: Seq<ProxyInfoView>) -> bool {
    forall|i: int, j: int|
        0 <= i < infos.len() && 0 <= j < infos.len() && i != j ==> !((#[trigger] infos[i]).name
            == (#[trigger] infos[j]).name && infos[i].publish_port == infos[j].publish_port)
}

/// A published proxy, with the handle through which its client is asked
/// for new streams.
pub struct ProxyRegistration<H> {
    pub stream_tx: H,
    pub proxy_info: ProxyInfo,
}

/// The proxies published on this server, shared by all client sessions.
pub struct ProxyRegistry<H> {
    entries: Vec<ProxyRegistration<H>>,
}

impl<H> ProxyRegistry<H> {
    /// The registered proxies, in the order they were registered.
    pub closed spec fn infos(&self) -> Seq<ProxyInfoView> {
        self.entries@.map_values(|e: ProxyRegistration<H>| e.proxy_info@)
    }

    /// The handles of the registered proxies, in the same order.
    pub closed spec fn handles(&self) -> Seq<H> {
        self.entries@.map_values(|e: ProxyRegistration<H>| e.stream_tx)
    }

    /// Keys are unique and there is a handle for every proxy.
    pub closed spec fn wf(&self) -> bool {
        &&& keys_unique(self.infos())
        &&& self.handles().len() == self.infos().len()
    }

    /// A well-formed registry has one handle per proxy.
    pub proof fn lemma_wf_lengths(&self)
        requires
            self.wf(),
        ensures
            self.handles().len() == self.infos().len(),
    {
    }

    /// An empty registry.
    pub fn new() -> (r: Self)
        ensures
            r.infos() == Seq::<ProxyInfoView>::empty(),
            r.handles() == Seq::<H>::empty(),
            r.wf(),
    {
        let r = ProxyRegistry { entries: Vec::new() };
        proof {
            assert(r.infos() =~= Seq::<ProxyInfoView>::empty());
            assert(r.handles() =~= Seq::<H>::empty());
        }
        r
    }

    /// Number of registrations.
    pub fn len(&self) -> (n: usize)
        ensures
            n == self.infos().len(),
    {
        self.entries.len()
    }

    /// The position of the registration with this key.
    pub fn position(&self, name: &str, port: u16) -> (r: Option<usize>)
        ensures
            r is None <==> !key_registered(self.infos(), name@, port),
            r matches Some(i) ==> i < self.infos().len() && self.infos()[i as int].name == name@
                && self.infos()[i as int].publish_port == port,
    {
        let mut i: usize = 0;
        while i < self.entries.len()
            invariant
                0 <= i <= self.entries@.len(),
                self.infos().len() == self.entries@.len(),
                forall|j: int|
                    0 <= j < i ==> !((#[trigger] self.infos()[j]).name == name@
                        && self.infos()[j].publish_port == port),
            decreases self.entries@.len() - i,
        {
            let e = &self.entries[i];
            assert(self.infos()[i as int] == e.proxy_info@);
            if e.proxy_info.publish_port == port && str_eq(e.proxy_info.name.as_str(), name) {
                return Some(i);
            }
            i = i + 1;
        }
        None
    }

    /// Whether a proxy with this name and publish port is registered.
    pub fn contains_key(&self, name: &str, port: u16) -> (b: bool)
        ensures
            b == key_registered(self.infos(), name@, port),
    {
        self.position(name, port).is_some()
    }

    /// The registration with this name and publish port.
    pub fn get(&self, name: &str, port: u16) -> (r: Option<&ProxyRegistration<H>>)
        ensures
            r is None <==> !key_registered(self.infos(), name@, port),
            r matches Some(reg) ==> reg.proxy_info@.name == name@ && reg.proxy_info@.publish_port
                == port && exists|i: int|
                0 <= i < self.infos().len() && self.infos()[i] == reg.proxy_info@
                    && self.handles()[i] == reg.stream_tx,
    {
        match self.position(name, port) {
            Some(i) => {
                let reg = &self.entries[i];
                assert(self.infos()[i as int] == reg.proxy_info@);
                assert(self.handles()[i as int] == reg.stream_tx);
                Some(reg)
            },
            None => None,
        }
    }

    /// Registers a proxy whose key is free; it comes last.
    pub fn insert(&mut self, stream_tx: H, proxy_info: ProxyInfo)
        requires
            old(self).wf(),
            !key_registered(old(self).infos(), proxy_info@.name, proxy_info@.publish_port),
        ensures
            final(self).infos() == old(self).infos().push(proxy_info@),
            final(self).handles() == old(self).handles().push(stream_tx),
            final(self).wf(),
    {
        let ghost pi = proxy_info@;
        self.entries.push(ProxyRegistration { stream_tx, proxy_info });
        proof {
            assert(self.infos() =~= old(self).infos().push(pi));
            assert(self.handles() =~= old(self).handles().push(stream_tx));
            assert forall|i: int, j: int|
                0 <= i < self.infos().len() && 0 <= j < self.infos().len() && i != j implies !((
            #[trigger] self.infos()[i]).name == (#[trigger] self.infos()[j]).name
                && self.infos()[i].publish_port == self.infos()[j].publish_port) by {
                if i == old(self).infos().len() as int {
                    assert(!(old(self).infos()[j].name == pi.name && old(self).infos()[j].publish_port
                        == pi.publish_port));
                } else if j == old(self).infos().len() as int {
                    assert(!(old(self).infos()[i].name == pi.name && old(self).infos()[i].publish_port
                        == pi.publish_port));
                }
            }
        }
    }

    /// Removes the registration with this key, if any.
    pub fn remove(&mut self, name: &str, port: u16)
        requires
            old(self).wf(),
        ensures
            final(self).wf(),
            !key_registered(final(self).infos(), name@, port),
            match key_position(old(self).infos(), name@, port) {
                Some(i) => final(self).infos() == old(self).infos().remove(i) && final(self).handles()
                    == old(self).handles().remove(i),
                None => final(self).infos() == old(self).infos() && final(self).handles() == old(
                    self,
                ).handles(),
            },
    {
        match self.position(name, port) {
            Some(i) => {
                let ghost oi = self.infos();
                let ghost oh = self.handles();
                self.entries.remove(i);
                proof {
                    assert(self.infos() =~= oi.remove(i as int));
                    assert(self.handles() =~= oh.remove(i as int));
                    assert forall|a: int, b: int|
                        0 <= a < self.infos().len() && 0 <= b < self.infos().len() && a != b implies !((
                    #[trigger] self.infos()[a]).name == (#[trigger] self.infos()[b]).name
                        && self.infos()[a].publish_port == self.infos()[b].publish_port) by {
                        let a0 = if a < i { a } else { a + 1 };
                        let b0 = if b < i { b } else { b + 1 };
                        assert(self.infos()[a] == oi[a0]);
                        assert(self.infos()[b] == oi[b0]);
                    }
                    if key_registered(self.infos(), name@, port) {
                        let a = choose|a: int|
                            0 <= a < self.infos().len() && (#[trigger] self.infos()[a]).name == name@
                                && self.infos()[a].publish_port == port;
                        let a0 = if a < i { a } else { a + 1 };
                        assert(self.infos()[a] == oi[a0]);
                        assert(a0 != i);
                    }
                    assert(key_position(old(self).infos(), name@, port) == Some(i as int));
                }
            },
            None => {},
        }
    }
}

} // verus!
