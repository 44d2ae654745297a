//! The server's side of one client session: authentication, the proxies
//! that the client submits, and what the session may do in each state.
use vstd::prelude::*;

use crate::config::{ProxyConfig, VisitorConfig};
use crate::registry::{info_of, key_registered, ProxyInfo, ProxyInfoView, ProxyRegistry};
use crate::text::{decimal, is_blank, push_decimal, push_text, str_eq, str_is_blank, text};
use crate::validator::opt_text;

verus! {

/// Where a session stands.
#[derive(Debug, Clone, Copy, PartialEq, Eq, Structural)]
pub enum SessionState {
    /// Waiting for the client's key.
    Authenticating,
    /// The key was accepted; waiting for the proxies.
    Authenticated,
    /// The submitted proxies are being checked.
    ConfiguringProxy,
    /// Proxies are published; streams flow.
    Running,
}

/// `name:port`, as proxies are named in replies.
pub open spec fn key_text(name: Seq<char>, port: u16) -> Seq<char> {
    name + ":"@ + decimal(port as nat)
}

/// Why the proxy `p` of a submission is refused, given the proxies `prev`
/// before it and the server's own port.
pub open spec fn submission_fault_at(prev: Seq<ProxyConfig>, p: ProxyConfig, server_port: u16) -> Option<
    Seq<char>,
> {
    if exists|j: int| 0 <= j < prev.len() && (#[trigger] prev[j]).name@ == p.name@ {
        Some("Duplicate proxy name: "@ + p.name@)
    } else if exists|j: int|
        0 <= j < prev.len() && (#[trigger] prev[j]).publish_addr@ == p.publish_addr@
            && prev[j].publish_port == p.publish_port {
        Some("Duplicate binding: "@ + p.publish_addr@ + ":"@ + decimal(p.publish_port as nat))
    } else if p.publish_port == 0 || p.local_port == 0 || is_blank(p.publish_addr@) || is_blank(
        p.name@,
    ) {
        Some("Invalid proxy: "@ + p.name@)
    } else if p.publish_port == server_port {
        Some("Port conflict: "@ + p.name@)
    } else {
        None
    }
}

/// Why a submission is refused: the reason of its first refused proxy.
pub open spec fn submission_fault(s: Seq<ProxyConfig>, server_port: u16) -> Option<Seq<char>>
    decreases s.len(),
{
    if s.len() == 0 {
        None
    } else {
        match submission_fault(s.drop_last(), server_port) {
            Some(e) => Some(e),
            None => submission_fault_at(s.drop_last(), s.last(), server_port),
        }
    }
}

/// The keys, as `name:port`, of the submitted proxies that are registered
/// already, in submission order.
pub open spec fn already_registered(infos: Seq<ProxyInfoView>, ps: Seq<ProxyConfig>) -> Seq<
    Seq<char>,
>
    decreases ps.len(),
{
    if ps.len() == 0 {
        Seq::empty()
    } else {
        let r = already_registered(infos, ps.drop_last());
        let p = ps.last();
        if key_registered(infos, p.name@, p.publish_port) {
            r.push(key_text(p.name@, p.publish_port))
        } else {
            r
        }
    }
}

/// The submitted proxies that are not registered yet, in submission order.
pub open spec fn newly_registered(infos: Seq<ProxyInfoView>, ps: Seq<ProxyConfig>) -> Seq<
    ProxyInfoView,
>
    decreases ps.len(),
{
    if ps.len() == 0 {
        Seq::empty()
    } else {
        let r = newly_registered(infos, ps.drop_last());
        let p = ps.last();
        if key_registered(infos, p.name@, p.publish_port) {
            r
        } else {
            r.push(info_of(p))
        }
    }
}

/// The keys of some registrations.
pub open spec fn keys_of(infos: Seq<ProxyInfoView>) -> Seq<(Seq<char>, u16)> {
    infos.map_values(|i: ProxyInfoView| (i.name, i.publish_port))
}

/// The visitors, as `name:port`, whose proxy is not registered.
pub open spec fn unreachable_visitors(infos: Seq<ProxyInfoView>, vs: Seq<VisitorConfig>) -> Seq<
    Seq<char>,
>
    decreases vs.len(),
{
    if vs.len() == 0 {
        Seq::empty()
    } else {
        let r = unreachable_visitors(infos, vs.drop_last());
        let v = vs.last();
        if key_registered(infos, v.name@, v.publish_port) {
            r
        } else {
            r.push(key_text(v.name@, v.publish_port))
        }
    }
}

/// The texts of a list of strings.
pub open spec fn texts(v: Seq<String>) -> Seq<Seq<char>> {
    v.map_values(|s: String| s@)
}

/// The server's answer to a submission of proxies.
#[derive(Debug)]
pub enum SubmissionReply {
    /// Proxies came before the key was accepted: the session ends.
    NotAuthenticated,
    /// A proxy is malformed or clashes with another: refused, with the
    /// reason; the session ends.
    Rejected { reasons: Vec<String> },
    /// Every proxy is registered already: refused, with their keys; the
    /// session ends.
    AllRejected { rejected: Vec<String> },
    /// Everything was registered; the session runs.
    Accepted,
    /// Some proxies were registered already, or some visitors name a proxy
    /// that is not published; the rest was registered and the session runs.
    PartiallyRejected { rejected_proxies: Vec<String>, rejected_visitors: Vec<String> },
}

/// What a [`SubmissionReply`] holds, as plain values.
pub enum ReplyView {
    NotAuthenticated,
    Rejected { reasons: Seq<Seq<char>> },
    AllRejected { rejected: Seq<Seq<char>> },
    Accepted,
    PartiallyRejected { rejected_proxies: Seq<Seq<char>>, rejected_visitors: Seq<Seq<char>> },
}

impl View for SubmissionReply {
    type V = ReplyView;

    open spec fn view(&self) -> ReplyView {
        match self {
            SubmissionReply::NotAuthenticated => ReplyView::NotAuthenticated,
            SubmissionReply::Rejected { reasons } => ReplyView::Rejected { reasons: texts(reasons@) },
            SubmissionReply::AllRejected { rejected } => ReplyView::AllRejected {
                rejected: texts(rejected@),
            },
            SubmissionReply::Accepted => ReplyView::Accepted,
            SubmissionReply::PartiallyRejected { rejected_proxies, rejected_visitors } =>
                ReplyView::PartiallyRejected {
                rejected_proxies: texts(rejected_proxies@),
                rejected_visitors: texts(rejected_visitors@),
            },
        }
    }
}

/// The reply to a submission from an authenticated session, given the
/// registry before it.
pub open spec fn submission_reply(
    infos: Seq<ProxyInfoView>,
    ps: Seq<ProxyConfig>,
    vs: Seq<VisitorConfig>,
    server_port: u16,
) -> ReplyView {
    match submission_fault(ps, server_port) {
        Some(reason) => ReplyView::Rejected { reasons: seq![reason] },
        None => {
            let rejected = already_registered(infos, ps);
            if ps.len() > 0 && rejected.len() == ps.len() {
                ReplyView::AllRejected { rejected }
            } else {
                let after = infos + newly_registered(infos, ps);
                let rv = unreachable_visitors(after, vs);
                if rejected.len() == 0 && rv.len() == 0 {
                    ReplyView::Accepted
                } else {
                    ReplyView::PartiallyRejected { rejected_proxies: rejected, rejected_visitors: rv }
                }
            }
        },
    }
}

/// Whether the session goes on after this reply.
pub open spec fn reply_continues(r: ReplyView) -> bool {
    r is Accepted || r is PartiallyRejected
}

impl SubmissionReply {
    /// Whether the session goes on after this reply.
    pub fn continues(&self) -> (b: bool)
        ensures
            b == reply_continues(self@),
    {
        match self {
            SubmissionReply::Accepted => true,
            SubmissionReply::PartiallyRejected { .. } => true,
            _ => false,
        }
    }
}

/// `name:port` as a new string.
fn key_string(name: &str, port: u16) -> (s: String)
    ensures
        s@ == key_text(name@, port),
{
    let mut s = text(name);
    push_text(&mut s, ":");
    push_decimal(&mut s, port as u128);
    s
}

/// Once a prefix of a submission has a fault, the whole submission has it.
proof fn lemma_submission_fault_prefix(s: Seq<ProxyConfig>, k: int, server_port: u16)
    requires
        0 <= k <= s.len(),
        submission_fault(s.take(k), server_port) is Some,
    ensures
        submission_fault(s, server_port) == submission_fault(s.take(k), server_port),
    decreases s.len(),
{
    if k == s.len() {
        assert(s.take(k) =~= s);
    } else {
        assert(s.drop_last().take(k) =~= s.take(k));
        lemma_submission_fault_prefix(s.drop_last(), k, server_port);
    }
}

/// A submission without fault names each proxy once.
proof fn lemma_fault_free_names_distinct(s: Seq<ProxyConfig>, server_port: u16)
    requires
        submission_fault(s, server_port) is None,
    ensures
        forall|a: int, b: int|
            0 <= a < s.len() && 0 <= b < s.len() && a != b ==> (#[trigger] s[a]).name@ != (
            #[trigger] s[b]).name@,
    decreases s.len(),
{
    if s.len() > 0 {
        let t = s.drop_last();
        lemma_fault_free_names_distinct(t, server_port);
        assert forall|a: int, b: int|
            0 <= a < s.len() && 0 <= b < s.len() && a != b implies (#[trigger] s[a]).name@ != (
        #[trigger] s[b]).name@ by {
            if a == s.len() - 1 {
                assert(t[b] == s[b]);
            } else if b == s.len() - 1 {
                assert(t[a] == s[a]);
            } else {
                assert(t[a] == s[a]);
                assert(t[b] == s[b]);
            }
        }
    }
}

/// Every newly registered proxy comes from the submission.
proof fn lemma_newly_registered_names(infos: Seq<ProxyInfoView>, ps: Seq<ProxyConfig>)
    ensures
        forall|e: int|
            0 <= e < newly_registered(infos, ps).len() ==> exists|j: int|
                0 <= j < ps.len() && (#[trigger] ps[j]).name@ == (#[trigger] newly_registered(
                    infos,
                    ps,
                )[e]).name,
        forall|e: int|
            0 <= e < newly_registered(infos, ps).len() ==> !key_registered(
                infos,
                (#[trigger] newly_registered(infos, ps)[e]).name,
                newly_registered(infos, ps)[e].publish_port,
            ),
        newly_registered(infos, ps).len() <= ps.len(),
    decreases ps.len(),
{
    if ps.len() > 0 {
        let t = ps.drop_last();
        lemma_newly_registered_names(infos, t);
        let n = newly_registered(infos, ps);
        let m = newly_registered(infos, t);
        assert forall|e: int| 0 <= e < n.len() implies exists|j: int|
            0 <= j < ps.len() && (#[trigger] ps[j]).name@ == (#[trigger] n[e]).name by {
            if e < m.len() {
                assert(n[e] == m[e]);
                let j = choose|j: int| 0 <= j < t.len() && (#[trigger] t[j]).name@ == m[e].name;
                assert(ps[j] == t[j]);
            } else {
                assert(ps[ps.len() - 1].name@ == n[e].name);
            }
        }
        assert forall|e: int| 0 <= e < n.len() implies !key_registered(
            infos,
            (#[trigger] n[e]).name,
            n[e].publish_port,
        ) by {
            if e < m.len() {
                assert(n[e] == m[e]);
            }
        }
    }
}

/// Counting the proxies registered already: at most one per proxy, and one
/// for each exactly when all are registered.
proof fn lemma_already_registered_len(infos: Seq<ProxyInfoView>, ps: Seq<ProxyConfig>)
    ensures
        already_registered(infos, ps).len() <= ps.len(),
        already_registered(infos, ps).len() == ps.len() <==> forall|j: int|
            0 <= j < ps.len() ==> key_registered(
                infos,
                (#[trigger] ps[j]).name@,
                ps[j].publish_port,
            ),
        already_registered(infos, ps).len() == 0 ==> newly_registered(infos, ps).len() == ps.len(),
    decreases ps.len(),
{
    if ps.len() > 0 {
        let t = ps.drop_last();
        lemma_already_registered_len(infos, t);
        if already_registered(infos, ps).len() == ps.len() {
            assert forall|j: int| 0 <= j < ps.len() implies key_registered(
                infos,
                (#[trigger] ps[j]).name@,
                ps[j].publish_port,
            ) by {
                if j < t.len() {
                    assert(ps[j] == t[j]);
                }
            }
        }
        if forall|j: int|
            0 <= j < ps.len() ==> key_registered(infos, (#[trigger] ps[j]).name@, ps[j].publish_port) {
            assert forall|j: int| 0 <= j < t.len() implies key_registered(
                infos,
                (#[trigger] t[j]).name@,
                t[j].publish_port,
            ) by {
                assert(ps[j] == t[j]);
            }
            assert(key_registered(infos, ps[ps.len() - 1].name@, ps[ps.len() - 1].publish_port));
        }
    }
}

/// The reason, if any, why the proxy at `i` of a submission is refused.
fn check_submission_at(proxies: &[ProxyConfig], i: usize, server_port: u16) -> (r: Option<String>)
    requires
        i < proxies@.len(),
    ensures
        opt_text(r) == submission_fault_at(proxies@.take(i as int), proxies@[i as int], server_port),
{
    let ghost prev = proxies@.take(i as int);
    let p = &proxies[i];
    let mut k: usize = 0;
    while k < i
        invariant
            i < proxies@.len(),
            k <= i,
            prev == proxies@.take(i as int),
            *p == proxies@[i as int],
            forall|j: int| 0 <= j < k ==> (#[trigger] prev[j]).name@ != p.name@,
        decreases i - k,
    {
        if proxies[k].name == p.name {
            assert(prev[k as int] == proxies@[k as int]);
            let mut s = text("Duplicate proxy name: ");
            push_text(&mut s, p.name.as_str());
            return Some(s);
        }
        k = k + 1;
    }
    let mut k: usize = 0;
    while k < i
        invariant
            i < proxies@.len(),
            k <= i,
            prev == proxies@.take(i as int),
            *p == proxies@[i as int],
            forall|j: int| 0 <= j < i ==> (#[trigger] prev[j]).name@ != p.name@,
            forall|j: int|
                0 <= j < k ==> !((#[trigger] prev[j]).publish_addr@ == p.publish_addr@
                    && prev[j].publish_port == p.publish_port),
        decreases i - k,
    {
        if proxies[k].publish_addr == p.publish_addr && proxies[k].publish_port == p.publish_port {
            assert(prev[k as int] == proxies@[k as int]);
            let mut s = text("Duplicate binding: ");
            push_text(&mut s, p.publish_addr.as_str());
            push_text(&mut s, ":");
            push_decimal(&mut s, p.publish_port as u128);
            return Some(s);
        }
        k = k + 1;
    }
    if p.publish_port == 0 || p.local_port == 0 || str_is_blank(p.publish_addr.as_str())
        || str_is_blank(p.name.as_str()) {
        let mut s = text("Invalid proxy: ");
        push_text(&mut s, p.name.as_str());
        return Some(s);
    }
    if p.publish_port == server_port {
        let mut s = text("Port conflict: ");
        push_text(&mut s, p.name.as_str());
        return Some(s);
    }
    None
}

/// The reason, if any, why a submission is refused.
fn check_submission(proxies: &[ProxyConfig], server_port: u16) -> (r: Option<String>)
    ensures
        opt_text(r) == submission_fault(proxies@, server_port),
{
    let n = proxies.len();
    let mut i: usize = 0;
    while i < n
        invariant
            n == proxies@.len(),
            i <= n,
            submission_fault(proxies@.take(i as int), server_port) is None,
        decreases n - i,
    {
        let ghost upto = proxies@.take(i + 1);
        proof {
            assert(upto.drop_last() =~= proxies@.take(i as int));
            assert(upto.last() == proxies@[i as int]);
        }
        match check_submission_at(proxies, i, server_port) {
            Some(s) => {
                proof {
                    assert(proxies@.take(i + 1) =~= upto);
                    lemma_submission_fault_prefix(proxies@, i + 1, server_port);
                }
                return Some(s);
            },
            None => {},
        }
        i = i + 1;
    }
    proof {
        assert(proxies@.take(n as int) =~= proxies@);
    }
    None
}

/// `after` is `before` once the registrations with the given keys are
/// removed: none of those keys is registered, every other registration
/// stays, and nothing new appears.
pub open spec fn cleaned(
    before: Seq<ProxyInfoView>,
    keys: Seq<(Seq<char>, u16)>,
    after: Seq<ProxyInfoView>,
) -> bool {
    &&& forall|k: int| 0 <= k < keys.len() ==> !key_registered(after, (#[trigger] keys[k]).0, keys[k].1)
    &&& forall|i: int|
        0 <= i < before.len() && !keys.contains((before[i].name, before[i].publish_port))
            ==> after.contains(#[trigger] before[i])
    &&& forall|j: int| 0 <= j < after.len() ==> before.contains(#[trigger] after[j])
}

/// Whether `s` is a UUID as uuid's `Display` writes it: 36 characters,
/// `-` at 8, 13, 18 and 23, lowercase hexadecimal digits elsewhere.
pub open spec fn is_hyphenated_uuid(s: Seq<char>) -> bool {
    &&& s.len() == 36
    &&& forall|i: int|
        0 <= i < 36 ==> if i == 8 || i == 13 || i == 18 || i == 23 {
            #[trigger] s[i] == '-'
        } else {
            ('0' <= s[i] <= '9') || ('a' <= s[i] <= 'f')
        }
}

/// A random version 4 UUID, by `uuid::Uuid::new_v4`, as its `Display`
/// writes it.
///
/// Trusted; the value is random, so only its form is stated: the hyphenated
/// lowercase form that uuid's formatting writes.
#[verifier::external_body]
fn random_uuid_text() -> (s: String)
    ensures
        is_hyphenated_uuid(s@),
{
    uuid::Uuid::new_v4().to_string()
}

/// A fresh identifier for a client that authenticated: `client_` and a
/// random UUID.
pub fn new_client_id() -> (s: String)
    ensures
        s@.len() == 43,
        s@.subrange(0, 7) == "client_"@,
        is_hyphenated_uuid(s@.subrange(7, 43)),
{
    let mut s = text("client_");
    let u = random_uuid_text();
    push_text(&mut s, u.as_str());
    proof {
        reveal_strlit("client_");
        assert(s@.subrange(0, 7) =~= "client_"@);
        assert(s@.subrange(7, 43) =~= u@);
    }
    s
}

/// One client session as the server sees it.
pub struct ServerSession {
    state: SessionState,
    proxy_keys: Vec<(String, u16)>,
    client_id: Option<String>,
}

impl ServerSession {
    /// Where the session stands.
    pub closed spec fn state_view(&self) -> SessionState {
        self.state
    }

    /// The keys of the proxies that this session registered, in order.
    pub closed spec fn keys(&self) -> Seq<(Seq<char>, u16)> {
        self.proxy_keys@.map_values(|k: (String, u16)| (k.0@, k.1))
    }

    /// The identifier given to the client, once authenticated.
    pub closed spec fn client_id_view(&self) -> Option<Seq<char>> {
        match self.client_id {
            Some(s) => Some(s@),
            None => None,
        }
    }

    /// A session that waits for the client's key.
    pub fn new() -> (s: Self)
        ensures
            s.state_view() == SessionState::Authenticating,
            s.keys() == Seq::<(Seq<char>, u16)>::empty(),
            s.client_id_view() is None,
    {
        let s = ServerSession { state: SessionState::Authenticating, proxy_keys: Vec::new(), client_id: None };
        proof {
            assert(s.keys() =~= Seq::<(Seq<char>, u16)>::empty());
        }
        s
    }

    /// Where the session stands.
    pub fn state(&self) -> (st: SessionState)
        ensures
            st == self.state_view(),
    {
        self.state
    }

    /// Whether the key that the client presented is the server's key.
    pub fn key_accepted(presented: &str, configured: &str) -> (b: bool)
        ensures
            b == (presented@ == configured@),
    {
        str_eq(presented, configured)
    }

    /// Records that the client was told it is authenticated as `client_id`.
    pub fn mark_authenticated(&mut self, client_id: String)
        ensures
            final(self).state_view() == SessionState::Authenticated,
            final(self).client_id_view() == Some(client_id@),
            final(self).keys() == old(self).keys(),
    {
        self.state = SessionState::Authenticated;
        self.client_id = Some(client_id);
    }

    /// Whether streams that the client opens are served: only once the
    /// session runs.
    pub fn accepts_inbound_streams(&self) -> (b: bool)
        ensures
            b == (self.state_view() == SessionState::Running),
    {
        self.state == SessionState::Running
    }

    /// Whether requests for streams to this client are served: only once
    /// the session runs.
    pub fn serves_stream_requests(&self) -> (b: bool)
        ensures
            b == (self.state_view() == SessionState::Running),
    {
        self.state == SessionState::Running
    }

    /// Handles the client's submission of proxies and visitors.
    ///
    /// Outside the `Authenticated` state nothing changes and the session
    /// ends. Otherwise the proxies are checked in order (a name or a
    /// binding seen before, a port 0 or a blank address or name, the
    /// server's own port); a fault refuses the whole submission. If every
    /// proxy is registered already, the submission is refused with their
    /// keys. Else each proxy not registered yet is registered, in order,
    /// with a clone of `handle`, and its key is kept by the session;
    /// proxies registered already and visitors whose proxy is not
    /// published are reported, and the session runs.
    pub fn submit_config<H: Clone>(
        &mut self,
        registry: &mut ProxyRegistry<H>,
        proxies: &[ProxyConfig],
        visitors: &[VisitorConfig],
        server_port: u16,
        handle: &H,
    ) -> (r: SubmissionReply)
        requires
            old(registry).wf(),
        ensures
            final(registry).wf(),
            old(self).state_view() != SessionState::Authenticated ==> r@ == ReplyView::NotAuthenticated
                && final(self).state_view() == old(self).state_view(),
            old(self).state_view() == SessionState::Authenticated ==> r@ == submission_reply(
                old(registry).infos(),
                proxies@,
                visitors@,
                server_port,
            ),
            reply_continues(r@) ==> final(registry).infos() == old(registry).infos()
                + newly_registered(old(registry).infos(), proxies@),
            reply_continues(r@) ==> final(self).keys() == old(self).keys() + keys_of(
                newly_registered(old(registry).infos(), proxies@),
            ),
            reply_continues(r@) ==> final(self).state_view() == SessionState::Running,
            reply_continues(r@) ==> final(registry).handles().take(
                old(registry).handles().len() as int,
            ) == old(registry).handles(),
            !reply_continues(r@) ==> final(registry).infos() == old(registry).infos(),
            !reply_continues(r@) ==> final(registry).handles() == old(registry).handles(),
            !reply_continues(r@) ==> final(self).keys() == old(self).keys(),
            old(self).state_view() == SessionState::Authenticated && !reply_continues(r@)
                ==> final(self).state_view() == SessionState::ConfiguringProxy,
            final(self).client_id_view() == old(self).client_id_view(),
    {
        if self.state != SessionState::Authenticated {
            return SubmissionReply::NotAuthenticated;
        }
        self.state = SessionState::ConfiguringProxy;
        let ghost infos0 = registry.infos();
        let ghost handles0 = registry.handles();
        let ghost keys0 = self.keys();
        proof {
            registry.lemma_wf_lengths();
        }
        match check_submission(proxies, server_port) {
            Some(reason) => {
                let mut reasons: Vec<String> = Vec::new();
                reasons.push(reason);
                proof {
                    assert(texts(reasons@) =~= seq![reason@]);
                }
                return SubmissionReply::Rejected { reasons };
            },
            None => {},
        }
        proof {
            lemma_fault_free_names_distinct(proxies@, server_port);
        }
        let n = proxies.len();
        // Proxies registered already.
        let mut rejected: Vec<String> = Vec::new();
        let mut i: usize = 0;
        while i < n
            invariant
                n == proxies@.len(),
                i <= n,
                registry.infos() == infos0,
                texts(rejected@) == already_registered(infos0, proxies@.take(i as int)),
            decreases n - i,
        {
            let p = &proxies[i];
            let ghost upto = proxies@.take(i + 1);
            proof {
                assert(upto.drop_last() =~= proxies@.take(i as int));
                assert(upto.last() == proxies@[i as int]);
            }
            if registry.contains_key(p.name.as_str(), p.publish_port) {
                rejected.push(key_string(p.name.as_str(), p.publish_port));
                proof {
                    assert(texts(rejected@) =~= already_registered(infos0, upto));
                }
            }
            i = i + 1;
        }
        proof {
            assert(proxies@.take(n as int) =~= proxies@);
            lemma_already_registered_len(infos0, proxies@);
        }
        if n > 0 && rejected.len() == n {
            return SubmissionReply::AllRejected { rejected };
        }
        // Registration.
        let mut i: usize = 0;
        while i < n
            invariant
                n == proxies@.len(),
                i <= n,
                registry.wf(),
                registry.infos() == infos0 + newly_registered(infos0, proxies@.take(i as int)),
                registry.handles().take(handles0.len() as int) == handles0,
                handles0.len() == infos0.len(),
                self.keys() == keys0 + keys_of(newly_registered(infos0, proxies@.take(i as int))),
                self.state_view() == SessionState::ConfiguringProxy,
                self.client_id_view() == old(self).client_id_view(),
                forall|a: int, b: int|
                    0 <= a < proxies@.len() && 0 <= b < proxies@.len() && a != b ==> (
                    #[trigger] proxies@[a]).name@ != (#[trigger] proxies@[b]).name@,
            decreases n - i,
        {
            let p = &proxies[i];
            let ghost prefix = proxies@.take(i as int);
            let ghost upto = proxies@.take(i + 1);
            let ghost added = newly_registered(infos0, prefix);
            proof {
                assert(upto.drop_last() =~= prefix);
                assert(upto.last() == proxies@[i as int]);
                lemma_newly_registered_names(infos0, prefix);
                // A proxy of this submission is registered now exactly when
                // it was registered before: the added ones have other names.
                if key_registered(registry.infos(), p.name@, p.publish_port) {
                    let a = choose|a: int|
                        0 <= a < registry.infos().len() && (#[trigger] registry.infos()[a]).name
                            == p.name@ && registry.infos()[a].publish_port == p.publish_port;
                    if a >= infos0.len() {
                        let e = a - infos0.len();
                        assert(registry.infos()[a] == added[e]);
                        let j = choose|j: int|
                            0 <= j < prefix.len() && (#[trigger] prefix[j]).name@ == (
                            #[trigger] added[e]).name;
                        assert(prefix[j] == proxies@[j]);
                        assert(false);
                    } else {
                        assert(registry.infos()[a] == infos0[a]);
                        assert(key_registered(infos0, p.name@, p.publish_port));
                    }
                }
                if key_registered(infos0, p.name@, p.publish_port) {
                    let a = choose|a: int|
                        0 <= a < infos0.len() && (#[trigger] infos0[a]).name == p.name@
                            && infos0[a].publish_port == p.publish_port;
                    assert(registry.infos()[a] == infos0[a]);
                }
            }
            if !registry.contains_key(p.name.as_str(), p.publish_port) {
                let info = ProxyInfo::from_config(p);
                let h = handle.clone();
                let ghost hs = registry.handles();
                let ghost ks = self.keys();
                proof {
                    registry.lemma_wf_lengths();
                    assert(newly_registered(infos0, upto) == added.push(info_of(*p)));
                }
                registry.insert(h, info);
                self.proxy_keys.push((p.name.clone(), p.publish_port));
                proof {
                    assert(self.keys() =~= ks.push((p.name@, p.publish_port)));
                    assert(keys_of(added.push(info_of(*p))) =~= keys_of(added).push(
                        (p.name@, p.publish_port),
                    ));
                    assert(registry.infos() =~= infos0 + newly_registered(infos0, upto));
                    assert(self.keys() =~= keys0 + keys_of(newly_registered(infos0, upto)));
                    assert(registry.handles().take(handles0.len() as int) =~= hs.take(
                        handles0.len() as int,
                    ));
                }
            } else {
                proof {
                    assert(newly_registered(infos0, upto) == added);
                }
            }
            i = i + 1;
        }
        proof {
            assert(proxies@.take(n as int) =~= proxies@);
        }
        // Visitors whose proxy is not published.
        let m = visitors.len();
        let ghost after = registry.infos();
        let mut rejected_visitors: Vec<String> = Vec::new();
        let mut j: usize = 0;
        while j < m
            invariant
                m == visitors@.len(),
                j <= m,
                registry.infos() == after,
                texts(rejected_visitors@) == unreachable_visitors(after, visitors@.take(j as int)),
            decreases m - j,
        {
            let v = &visitors[j];
            let ghost upto = visitors@.take(j + 1);
            proof {
                assert(upto.drop_last() =~= visitors@.take(j as int));
                assert(upto.last() == visitors@[j as int]);
            }
            if !registry.contains_key(v.name.as_str(), v.publish_port) {
                rejected_visitors.push(key_string(v.name.as_str(), v.publish_port));
                proof {
                    assert(texts(rejected_visitors@) =~= unreachable_visitors(after, upto));
                }
            }
            j = j + 1;
        }
        proof {
            assert(visitors@.take(m as int) =~= visitors@);
        }
        self.state = SessionState::Running;
        if rejected.len() == 0 && rejected_visitors.len() == 0 {
            SubmissionReply::Accepted
        } else {
            SubmissionReply::PartiallyRejected { rejected_proxies: rejected, rejected_visitors }
        }
    }

    /// Removes every proxy that this session registered, as when its
    /// client disconnects.
    pub fn cleanup<H>(&self, registry: &mut ProxyRegistry<H>)
        requires
            old(registry).wf(),
        ensures
            final(registry).wf(),
            cleaned(old(registry).infos(), self.keys(), final(registry).infos()),
    {
        let ghost before = registry.infos();
        let n = self.proxy_keys.len();
        let mut k: usize = 0;
        while k < n
            invariant
                n == self.proxy_keys@.len(),
                n == self.keys().len(),
                k <= n,
                registry.wf(),
                cleaned(before, self.keys().take(k as int), registry.infos()),
            decreases n - k,
        {
            let key = &self.proxy_keys[k];
            let ghost cur = registry.infos();
            let ghost kv = (key.0@, key.1);
            assert(self.keys()[k as int] == kv);
            registry.remove(key.0.as_str(), key.1);
            proof {
                let nxt = registry.infos();
                let ks = self.keys().take(k + 1);
                assert(ks =~= self.keys().take(k as int).push(kv));
                // What stays and what is removed.
                assert forall|j: int| 0 <= j < nxt.len() implies cur.contains(#[trigger] nxt[j]) by {
                    match crate::registry::key_position(cur, kv.0, kv.1) {
                        Some(p) => {
                            let q = if j < p { j } else { j + 1 };
                            assert(nxt[j] == cur[q]);
                        },
                        None => {},
                    }
                }
                assert forall|j: int| 0 <= j < nxt.len() implies before.contains(#[trigger] nxt[j]) by {
                    assert(cur.contains(nxt[j]));
                    let q = choose|q: int| 0 <= q < cur.len() && cur[q] == nxt[j];
                    assert(before.contains(cur[q]));
                }
                assert forall|i: int|
                    0 <= i < before.len() && !ks.contains((before[i].name, before[i].publish_port))
                        implies nxt.contains(#[trigger] before[i]) by {
                    assert(!self.keys().take(k as int).contains((before[i].name, before[i].publish_port))) by {
                        if self.keys().take(k as int).contains((before[i].name, before[i].publish_port)) {
                            let t = choose|t: int| 0 <= t < k && self.keys().take(k as int)[t] == (before[i].name, before[i].publish_port);
                            assert(ks[t] == self.keys().take(k as int)[t]);
                        }
                    }
                    assert(cur.contains(before[i]));
                    let q = choose|q: int| 0 <= q < cur.len() && cur[q] == before[i];
                    assert(ks[k as int] == kv);
                    assert((before[i].name, before[i].publish_port) != kv);
                    match crate::registry::key_position(cur, kv.0, kv.1) {
                        Some(p) => {
                            assert(q != p);
                            let r = if q < p { q } else { q - 1 };
                            assert(nxt[r] == cur[q]);
                        },
                        None => {
                            assert(nxt[q] == cur[q]);
                        },
                    }
                }
                assert forall|t: int| 0 <= t < ks.len() implies !key_registered(nxt, (#[trigger] ks[t]).0, ks[t].1) by {
                    if t < k {
                        assert(ks[t] == self.keys().take(k as int)[t]);
                        if key_registered(nxt, ks[t].0, ks[t].1) {
                            let a = choose|a: int| 0 <= a < nxt.len() && (#[trigger] nxt[a]).name == ks[t].0 && nxt[a].publish_port == ks[t].1;
                            assert(cur.contains(nxt[a]));
                            let q = choose|q: int| 0 <= q < cur.len() && cur[q] == nxt[a];
                            assert(key_registered(cur, ks[t].0, ks[t].1));
                        }
                    }
                }
            }
            k = k + 1;
        }
        proof {
            assert(self.keys().take(n as int) =~= self.keys());
        }
    }
}

/// A session that had registered nothing, registered the proxies of an
/// accepted submission and then cleaned up leaves the registry holding
/// exactly what it held before the submission.
pub proof fn law_cleanup_restores_registry(
    before: Seq<ProxyInfoView>,
    proxies: Seq<ProxyConfig>,
    after: Seq<ProxyInfoView>,
)
    requires
        crate::registry::keys_unique(before),
        cleaned(
            before + newly_registered(before, proxies),
            keys_of(newly_registered(before, proxies)),
            after,
        ),
    ensures
        forall|x: ProxyInfoView| after.contains(x) <==> before.contains(x),
{
    let added = newly_registered(before, proxies);
    let all = before + added;
    let keys = keys_of(added);
    lemma_newly_registered_names(before, proxies);
    assert forall|x: ProxyInfoView| after.contains(x) implies before.contains(x) by {
        let j = choose|j: int| 0 <= j < after.len() && after[j] == x;
        assert(all.contains(after[j]));
        let q = choose|q: int| 0 <= q < all.len() && all[q] == x;
        if q >= before.len() {
            let e = q - before.len();
            assert(all[q] == added[e]);
            assert(keys[e] == (added[e].name, added[e].publish_port));
            assert(key_registered(after, keys[e].0, keys[e].1));
        } else {
            assert(all[q] == before[q]);
        }
    }
    assert forall|x: ProxyInfoView| before.contains(x) implies after.contains(x) by {
        let i = choose|i: int| 0 <= i < before.len() && before[i] == x;
        assert(all[i] == before[i]);
        if keys.contains((before[i].name, before[i].publish_port)) {
            let e = choose|e: int| 0 <= e < keys.len() && keys[e] == (before[i].name, before[i].publish_port);
            assert(keys[e] == (added[e].name, added[e].publish_port));
            assert(key_registered(before, added[e].name, added[e].publish_port));
        }
    }
}

/// After a submission that the session survives, every submitted proxy is
/// published: registered before, or registered by the submission.
pub proof fn law_submitted_proxies_published(
    infos: Seq<ProxyInfoView>,
    proxies: Seq<ProxyConfig>,
    visitors: Seq<VisitorConfig>,
    server_port: u16,
)
    requires
        reply_continues(submission_reply(infos, proxies, visitors, server_port)),
    ensures
        forall|j: int|
            0 <= j < proxies.len() ==> key_registered(
                infos + newly_registered(infos, proxies),
                (#[trigger] proxies[j]).name@,
                proxies[j].publish_port,
            ),
{
    lemma_published(infos, proxies);
}

proof fn lemma_published(infos: Seq<ProxyInfoView>, proxies: Seq<ProxyConfig>)
    ensures
        forall|j: int|
            0 <= j < proxies.len() ==> key_registered(
                infos + newly_registered(infos, proxies),
                (#[trigger] proxies[j]).name@,
                proxies[j].publish_port,
            ),
    decreases proxies.len(),
{
    if proxies.len() > 0 {
        let t = proxies.drop_last();
        lemma_published(infos, t);
        let all_t = infos + newly_registered(infos, t);
        let all = infos + newly_registered(infos, proxies);
        assert forall|j: int| 0 <= j < proxies.len() implies key_registered(
            all,
            (#[trigger] proxies[j]).name@,
            proxies[j].publish_port,
        ) by {
            if j < t.len() {
                assert(proxies[j] == t[j]);
                let a = choose|a: int|
                    0 <= a < all_t.len() && (#[trigger] all_t[a]).name == t[j].name@
                        && all_t[a].publish_port == t[j].publish_port;
                assert(all[a] == all_t[a]);
            } else {
                let p = proxies.last();
                if key_registered(infos, p.name@, p.publish_port) {
                    let a = choose|a: int|
                        0 <= a < infos.len() && (#[trigger] infos[a]).name == p.name@
                            && infos[a].publish_port == p.publish_port;
                    assert(all[a] == infos[a]);
                } else {
                    assert(all[all.len() - 1] == info_of(p));
                }
            }
        }
    }
}

} // verus!
