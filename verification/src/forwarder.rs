//! The decisions of a forwarder: the local HTTP or SOCKS5 proxy of a
//! client that reaches outside targets, directly or through the server.
use vstd::prelude::*;

use crate::config::{proxy_type_debug_name, ProxyType};
use crate::frames::utf8_to_string;
use crate::stats::{unix_now_secs, wrap_add};
use crate::text::{decimal, push_char, push_decimal, push_text, str_byte_len, str_eq, text};
use vstd::utf8::{decode_utf8, valid_utf8};

verus! {

/// Failures after which a target counts as failing for good.
pub const FAILED_TARGET_THRESHOLD: u32 = 3;

/// Seconds that a failing target stays refused.
pub const FAILED_TARGET_TIMEOUT_SECS: u64 = 1800;

/// One target that failed.
#[derive(Debug, Clone)]
pub struct FailedTarget {
    pub target: String,
    pub failure_count: u32,
    /// Unix time, in seconds, from which the refusal runs.
    pub blacklist_time: u64,
}

/// What a [`FailedTarget`] holds, as plain values.
pub struct FailedTargetView {
    pub target: Seq<char>,
    pub failure_count: u32,
    pub blacklist_time: u64,
}

/// The position of the entry for `target`, if any.
pub open spec fn target_index(entries: Seq<FailedTargetView>, target: Seq<char>) -> Option<int> {
    if exists|i: int| 0 <= i < entries.len() && (#[trigger] entries[i]).target == target {
        Some(choose|i: int| 0 <= i < entries.len() && (#[trigger] entries[i]).target == target)
    } else {
        None
    }
}

/// Whether an entry still refuses its target at time `now`.
pub open spec fn refusing(e: FailedTargetView, now: u64) -> bool {
    now < e.blacklist_time + FAILED_TARGET_TIMEOUT_SECS
}

/// Whether `target` is refused at time `now`.
pub open spec fn blacklisted(entries: Seq<FailedTargetView>, target: Seq<char>, now: u64) -> bool {
    match target_index(entries, target) {
        Some(i) => refusing(entries[i], now),
        None => false,
    }
}

/// The entries after a failure of `target` at time `now`: the count goes
/// up (a new target starts at 0, refused from `now`), and once it reaches
/// the threshold the refusal restarts at `now`.
pub open spec fn after_failure(entries: Seq<FailedTargetView>, target: Seq<char>, now: u64) -> Seq<
    FailedTargetView,
> {
    let (base, i) = match target_index(entries, target) {
        Some(i) => (entries, i),
        None => (
            entries.push(FailedTargetView { target, failure_count: 0, blacklist_time: now }),
            entries.len() as int,
        ),
    };
    let e = base[i];
    let count = if e.failure_count == u32::MAX { 0 } else { (e.failure_count + 1) as u32 };
    let time = if count >= FAILED_TARGET_THRESHOLD { now } else { e.blacklist_time };
    base.update(i, FailedTargetView { target, failure_count: count, blacklist_time: time })
}

/// Remembers targets that failed, so that they are refused at once for a
/// while.
#[derive(Debug, Clone)]
pub struct FailedTargetManager {
    targets: Vec<FailedTarget>,
}

impl FailedTargetManager {
    /// The entries, in the order the targets first failed.
    pub closed spec fn entries(&self) -> Seq<FailedTargetView> {
        self.targets@.map_values(
            |t: FailedTarget|
                FailedTargetView {
                    target: t.target@,
                    failure_count: t.failure_count,
                    blacklist_time: t.blacklist_time,
                },
        )
    }

    /// Every target occurs once.
    pub open spec fn wf(&self) -> bool {
        targets_unique(self.entries())
    }

    /// No target has failed.
    pub fn new() -> (m: Self)
        ensures
            m.entries() == Seq::<FailedTargetView>::empty(),
            m.wf(),
    {
        let m = FailedTargetManager { targets: Vec::new() };
        assert(m.entries() =~= Seq::<FailedTargetView>::empty());
        m
    }

    fn find(&self, target: &str) -> (r: Option<usize>)
        requires
            self.wf(),
        ensures
            r matches Some(i) ==> target_index(self.entries(), target@) == Some(i as int),
            r is None ==> target_index(self.entries(), target@) is None,
    {
        let mut i: usize = 0;
        while i < self.targets.len()
            invariant
                0 <= i <= self.targets@.len(),
                self.entries().len() == self.targets@.len(),
                self.wf(),
                forall|j: int| 0 <= j < i ==> (#[trigger] self.entries()[j]).target != target@,
            decreases self.targets@.len() - i,
        {
            assert(self.entries()[i as int].target == self.targets@[i as int].target@);
            if str_eq(self.targets[i].target.as_str(), target) {
                proof {
                    let k = target_index(self.entries(), target@)->Some_0;
                    assert(self.entries()[k].target == target@);
                }
                return Some(i);
            }
            i = i + 1;
        }
        None
    }

    /// Whether `target` is refused at time `now`.
    pub fn is_blacklisted_at(&self, target: &str, now: u64) -> (b: bool)
        requires
            self.wf(),
        ensures
            b == blacklisted(self.entries(), target@, now),
    {
        match self.find(target) {
            Some(i) => {
                let e = &self.targets[i];
                assert(self.entries()[i as int].blacklist_time == e.blacklist_time);
                (now as u128) < (e.blacklist_time as u128) + (FAILED_TARGET_TIMEOUT_SECS as u128)
            },
            None => false,
        }
    }

    /// Whether `target` is refused now.
    pub fn is_blacklisted(&self, target: &str) -> (b: bool)
        requires
            self.wf(),
        ensures
            exists|now: u64| b == blacklisted(self.entries(), target@, now),
    {
        let now = unix_now_secs();
        self.is_blacklisted_at(target, now)
    }

    /// Records a failure of `target` at time `now`.
    pub fn record_failure_at(&mut self, target: &str, now: u64)
        requires
            old(self).wf(),
        ensures
            final(self).entries() == after_failure(old(self).entries(), target@, now),
            final(self).wf(),
    {
        let ghost before = self.entries();
        let i = match self.find(target) {
            Some(i) => i,
            None => {
                self.targets.push(FailedTarget { target: text(target), failure_count: 0, blacklist_time: now });
                proof {
                    assert(self.entries() =~= before.push(
                        FailedTargetView { target: target@, failure_count: 0, blacklist_time: now },
                    ));
                }
                self.targets.len() - 1
            },
        };
        let ghost base = self.entries();
        let old_count = self.targets[i].failure_count;
        let count = if old_count == u32::MAX {
            0
        } else {
            old_count + 1
        };
        let time = if count >= FAILED_TARGET_THRESHOLD {
            now
        } else {
            self.targets[i].blacklist_time
        };
        self.targets.set(i, FailedTarget { target: text(target), failure_count: count, blacklist_time: time });
        proof {
            assert(self.entries() =~= after_failure(before, target@, now));
        }
    }

    /// Records a failure of `target` now.
    pub fn record_failure(&mut self, target: &str)
        requires
            old(self).wf(),
        ensures
            exists|now: u64| final(self).entries() == after_failure(old(self).entries(), target@, now),
            final(self).wf(),
    {
        let now = unix_now_secs();
        self.record_failure_at(target, now);
    }

    /// Forgets the targets whose refusal has run out at time `now`.
    pub fn cleanup_expired_targets_at(&mut self, now: u64)
        requires
            old(self).wf(),
        ensures
            final(self).entries() == live_entries(old(self).entries(), now),
            final(self).wf(),
    {
        let ghost before = self.entries();
        let mut kept: Vec<FailedTarget> = Vec::new();
        let mut i: usize = 0;
        while i < self.targets.len()
            invariant
                0 <= i <= self.targets@.len(),
                self.entries() == before,
                before.len() == self.targets@.len(),
                kept@.map_values(
                    |t: FailedTarget|
                        FailedTargetView {
                            target: t.target@,
                            failure_count: t.failure_count,
                            blacklist_time: t.blacklist_time,
                        },
                ) == live_entries(before.take(i as int), now),
            decreases self.targets@.len() - i,
        {
            let t = &self.targets[i];
            proof {
                assert(before.take(i + 1).drop_last() =~= before.take(i as int));
                assert(before[i as int].blacklist_time == t.blacklist_time);
                assert(before.take(i + 1).last() == before[i as int]);
            }
            if (now as u128) < (t.blacklist_time as u128) + (FAILED_TARGET_TIMEOUT_SECS as u128) {
                kept.push(FailedTarget { target: t.target.clone(), failure_count: t.failure_count, blacklist_time: t.blacklist_time });
            }
            proof {
                let k = kept@.map_values(
                    |t: FailedTarget|
                        FailedTargetView {
                            target: t.target@,
                            failure_count: t.failure_count,
                            blacklist_time: t.blacklist_time,
                        },
                );
                assert(k =~= live_entries(before.take(i + 1), now));
            }
            i = i + 1;
        }
        proof {
            assert(before.take(self.targets@.len() as int) =~= before);
        }
        self.targets = kept;
        proof {
            lemma_live_entries_unique(before, now);
        }
    }

    /// Forgets the targets whose refusal has run out now.
    pub fn cleanup_expired_targets(&mut self)
        requires
            old(self).wf(),
        ensures
            exists|now: u64| final(self).entries() == live_entries(old(self).entries(), now),
            final(self).wf(),
    {
        let now = unix_now_secs();
        self.cleanup_expired_targets_at(now);
    }

    /// How many targets are refused at time `now`.
    pub fn failed_targets_count_at(&self, now: u64) -> (n: usize)
        ensures
            n == live_entries(self.entries(), now).len(),
    {
        let ghost es = self.entries();
        let mut n: usize = 0;
        let mut i: usize = 0;
        while i < self.targets.len()
            invariant
                0 <= i <= self.targets@.len(),
                es == self.entries(),
                es.len() == self.targets@.len(),
                n == live_entries(es.take(i as int), now).len(),
                n <= i,
            decreases self.targets@.len() - i,
        {
            proof {
                assert(es.take(i + 1).drop_last() =~= es.take(i as int));
                assert(es[i as int].blacklist_time == self.targets@[i as int].blacklist_time);
                assert(es.take(i + 1).last() == es[i as int]);
            }
            if (now as u128) < (self.targets[i].blacklist_time as u128) + (FAILED_TARGET_TIMEOUT_SECS as u128) {
                n = n + 1;
            }
            i = i + 1;
        }
        proof {
            assert(es.take(self.targets@.len() as int) =~= es);
        }
        n
    }

    /// How many targets are refused now.
    pub fn failed_targets_count(&self) -> (n: usize)
        ensures
            exists|now: u64| n == live_entries(self.entries(), now).len(),
    {
        let now = unix_now_secs();
        self.failed_targets_count_at(now)
    }
}

impl Default for FailedTargetManager {
    fn default() -> (m: Self)
        ensures
            m.entries() == Seq::<FailedTargetView>::empty(),
            m.wf(),
    {
        FailedTargetManager::new()
    }
}

/// The entries that still refuse their target at time `now`, in order.
pub open spec fn live_entries(s: Seq<FailedTargetView>, now: u64) -> Seq<FailedTargetView>
    decreases s.len(),
{
    if s.len() == 0 {
        s
    } else {
        let r = live_entries(s.drop_last(), now);
        if refusing(s.last(), now) {
            r.push(s.last())
        } else {
            r
        }
    }
}

/// No two entries name the same target.
pub open spec fn targets_unique(s: Seq<FailedTargetView>) -> bool {
    forall|i: int, j: int|
        0 <= i < s.len() && 0 <= j < s.len() && i != j ==> (#[trigger] s[i]).target != (
        #[trigger] s[j]).target
}

/// The live entries are those that still refuse at `now`.
proof fn lemma_live_entries_members(s: Seq<FailedTargetView>, now: u64)
    ensures
        forall|a: int|
            0 <= a < live_entries(s, now).len() ==> refusing(#[trigger] live_entries(s, now)[a], now),
        forall|k: int|
            0 <= k < s.len() && refusing(#[trigger] s[k], now) ==> live_entries(s, now).contains(s[k]),
    decreases s.len(),
{
    if s.len() > 0 {
        let t = s.drop_last();
        lemma_live_entries_members(t, now);
        let f = live_entries(s, now);
        let ft = live_entries(t, now);
        assert forall|a: int| 0 <= a < f.len() implies refusing(#[trigger] f[a], now) by {
            if a < ft.len() {
                assert(f[a] == ft[a]);
            }
        }
        assert forall|k: int| 0 <= k < s.len() && refusing(#[trigger] s[k], now) implies f.contains(
            s[k],
        ) by {
            if k < t.len() {
                assert(t[k] == s[k]);
                let q = choose|q: int| 0 <= q < ft.len() && ft[q] == t[k];
                assert(f[q] == ft[q]);
            } else {
                assert(f[f.len() - 1] == s[k]);
            }
        }
    }
}

/// With unique targets, the entry found for a target is the one at the
/// position that holds it.
proof fn lemma_target_index_at(s: Seq<FailedTargetView>, k: int)
    requires
        targets_unique(s),
        0 <= k < s.len(),
    ensures
        target_index(s, s[k].target) == Some(k),
{
    assert(s[k].target == s[k].target);
}

/// A failure keeps targets unique.
proof fn lemma_after_failure_unique(entries: Seq<FailedTargetView>, target: Seq<char>, now: u64)
    requires
        targets_unique(entries),
    ensures
        targets_unique(after_failure(entries, target, now)),
        target_index(entries, target) matches Some(i) ==> target_index(
            after_failure(entries, target, now),
            target,
        ) == Some(i),
        target_index(entries, target) is None ==> target_index(
            after_failure(entries, target, now),
            target,
        ) == Some(entries.len() as int),
{
    let r = after_failure(entries, target, now);
    match target_index(entries, target) {
        Some(i) => {
            assert(entries[i].target == target);
            assert forall|a: int, b: int| 0 <= a < r.len() && 0 <= b < r.len() && a != b implies (
            #[trigger] r[a]).target != (#[trigger] r[b]).target by {
                assert(r[a].target == entries[a].target);
                assert(r[b].target == entries[b].target);
            }
            lemma_target_index_at(r, i);
        },
        None => {
            assert forall|a: int, b: int| 0 <= a < r.len() && 0 <= b < r.len() && a != b implies (
            #[trigger] r[a]).target != (#[trigger] r[b]).target by {
                if a < entries.len() && b < entries.len() {
                    assert(r[a] == entries[a]);
                    assert(r[b] == entries[b]);
                } else if a < entries.len() {
                    assert(r[a] == entries[a]);
                    assert(entries[a].target != target);
                } else {
                    assert(r[b] == entries[b]);
                    assert(entries[b].target != target);
                }
            }
            lemma_target_index_at(r, entries.len() as int);
        },
    }
}

/// A target is refused, for the whole timeout, from the moment of its first
/// failure and from the moment its failures reach the threshold.
pub proof fn law_failure_refuses(
    entries: Seq<FailedTargetView>,
    target: Seq<char>,
    now: u64,
    later: u64,
)
    requires
        targets_unique(entries),
        now <= later < now + FAILED_TARGET_TIMEOUT_SECS,
        match target_index(entries, target) {
            Some(i) => entries[i].failure_count + 1 >= FAILED_TARGET_THRESHOLD
                && entries[i].failure_count < u32::MAX,
            None => true,
        },
    ensures
        blacklisted(after_failure(entries, target, now), target, later),
{
    lemma_after_failure_unique(entries, target, now);
}

/// A failure of one target changes no answer about another.
pub proof fn law_failure_leaves_others(
    entries: Seq<FailedTargetView>,
    target: Seq<char>,
    other: Seq<char>,
    now: u64,
    at: u64,
)
    requires
        targets_unique(entries),
        other != target,
    ensures
        blacklisted(after_failure(entries, target, now), other, at) == blacklisted(entries, other, at),
{
    lemma_after_failure_unique(entries, target, now);
    let r = after_failure(entries, target, now);
    match target_index(entries, other) {
        Some(k) => {
            assert(entries[k].target == other);
            assert(r[k] == entries[k]);
            lemma_target_index_at(r, k);
        },
        None => {
            if exists|a: int| 0 <= a < r.len() && (#[trigger] r[a]).target == other {
                let a = choose|a: int| 0 <= a < r.len() && (#[trigger] r[a]).target == other;
                if a < entries.len() {
                    assert(r[a] == entries[a]);
                } else {
                    assert(r[a].target == target);
                }
            }
        },
    }
}

/// Forgetting the targets whose refusal ran out at `now` changes no answer
/// from `now` on.
pub proof fn law_cleanup_keeps_answers(
    entries: Seq<FailedTargetView>,
    now: u64,
    target: Seq<char>,
    at: u64,
)
    requires
        targets_unique(entries),
        now <= at,
    ensures
        blacklisted(live_entries(entries, now), target, at) == blacklisted(entries, target, at),
{
    let f = live_entries(entries, now);
    lemma_live_entries_unique(entries, now);
    lemma_live_entries_members(entries, now);
    match target_index(entries, target) {
        Some(k) => {
            let e = entries[k];
            assert(e.target == target);
            if refusing(e, now) {
                assert(f.contains(entries[k]));
                let q = choose|q: int| 0 <= q < f.len() && f[q] == entries[k];
                lemma_target_index_at(f, q);
            } else {
                if exists|a: int| 0 <= a < f.len() && (#[trigger] f[a]).target == target {
                    let a = choose|a: int| 0 <= a < f.len() && (#[trigger] f[a]).target == target;
                    assert(entries.contains(f[a]));
                    let q = choose|q: int| 0 <= q < entries.len() && entries[q] == f[a];
                    assert(refusing(f[a], now));
                    assert(q == k);
                }
            }
        },
        None => {
            if exists|a: int| 0 <= a < f.len() && (#[trigger] f[a]).target == target {
                let a = choose|a: int| 0 <= a < f.len() && (#[trigger] f[a]).target == target;
                assert(entries.contains(f[a]));
                let q = choose|q: int| 0 <= q < entries.len() && entries[q] == f[a];
                assert(entries[q].target == target);
            }
        },
    }
}

/// The live entries come from the entries, and keep targets unique.
proof fn lemma_live_entries_unique(s: Seq<FailedTargetView>, now: u64)
    requires
        forall|i: int, j: int|
            0 <= i < s.len() && 0 <= j < s.len() && i != j ==> (#[trigger] s[i]).target != (
            #[trigger] s[j]).target,
    ensures
        forall|a: int| 0 <= a < live_entries(s, now).len() ==> s.contains(#[trigger] live_entries(s, now)[a]),
        forall|i: int, j: int|
            0 <= i < live_entries(s, now).len() && 0 <= j < live_entries(s, now).len() && i != j
                ==> (#[trigger] live_entries(s, now)[i]).target != (#[trigger] live_entries(s, now)[j]).target,
    decreases s.len(),
{
    if s.len() > 0 {
        let t = s.drop_last();
        lemma_live_entries_unique(t, now);
        let f = live_entries(s, now);
        let ft = live_entries(t, now);
        assert forall|a: int| 0 <= a < f.len() implies s.contains(#[trigger] f[a]) by {
            if a < ft.len() {
                assert(f[a] == ft[a]);
                let q = choose|q: int| 0 <= q < t.len() && t[q] == ft[a];
                assert(s[q] == t[q]);
            } else {
                assert(f[a] == s[s.len() - 1]);
            }
        }
        assert forall|i: int, j: int| 0 <= i < f.len() && 0 <= j < f.len() && i != j implies (
        #[trigger] f[i]).target != (#[trigger] f[j]).target by {
            if i < ft.len() && j < ft.len() {
                assert(f[i] == ft[i]);
                assert(f[j] == ft[j]);
            } else {
                let other = if i < ft.len() { i } else { j };
                assert(other < ft.len());
                assert(f[other] == ft[other]);
                let q = choose|q: int| 0 <= q < t.len() && t[q] == ft[other];
                assert(s[q] == t[q]);
                assert(f[f.len() - 1] == s[s.len() - 1]);
            }
        }
    }
}


/// How a forwarder names its kind in logs.
pub open spec fn proxy_type_label(t: ProxyType) -> Seq<char> {
    match t {
        ProxyType::HttpProxy => "HTTP proxy"@,
        ProxyType::Socks5Proxy => "SOCKS5 proxy"@,
        _ => "Unknown"@,
    }
}

/// The label of a forwarder's kind.
pub fn format_proxy_type(proxy_type: ProxyType) -> (s: &'static str)
    ensures
        s@ == proxy_type_label(proxy_type),
{
    match proxy_type {
        ProxyType::HttpProxy => "HTTP proxy",
        ProxyType::Socks5Proxy => "SOCKS5 proxy",
        _ => "Unknown",
    }
}

/// The protocol a forwarder speaks with its local clients.
#[derive(Debug, Clone, Copy, PartialEq, Eq, Structural)]
pub enum ForwarderProtocol {
    Http,
    Socks5,
}

/// The protocol for a forwarder of this kind, or the error text for a kind
/// that cannot forward.
pub fn forwarder_protocol(proxy_type: ProxyType) -> (r: Result<ForwarderProtocol, String>)
    ensures
        proxy_type == ProxyType::HttpProxy ==> r == Ok::<ForwarderProtocol, String>(
            ForwarderProtocol::Http,
        ),
        proxy_type == ProxyType::Socks5Proxy ==> r == Ok::<ForwarderProtocol, String>(
            ForwarderProtocol::Socks5,
        ),
        proxy_type != ProxyType::HttpProxy && proxy_type != ProxyType::Socks5Proxy ==> (r matches Err(
            m,
        ) && m@ == "Invalid proxy type for forwarder: "@ + proxy_type_debug_name(proxy_type)),
{
    match proxy_type {
        ProxyType::HttpProxy => Ok(ForwarderProtocol::Http),
        ProxyType::Socks5Proxy => Ok(ForwarderProtocol::Socks5),
        _ => {
            let mut m = text("Invalid proxy type for forwarder: ");
            push_text(&mut m, proxy_type.debug_name());
            Err(m)
        },
    }
}

/// Where a forwarded connection goes once its target is known.
#[derive(Debug, Clone, Copy, PartialEq, Eq, Structural)]
pub enum ForwardRoute {
    /// The target failed recently: refused at once.
    RefuseBlacklisted,
    /// Connect to the target from this client.
    Direct,
    /// Ask the server to connect.
    ViaServer,
}

/// The route of a tunnelled connection (CONNECT or SOCKS5): a recently
/// failed target is refused first; then the routing rules choose between
/// a direct connection and the server.
pub fn tunnel_route(blacklisted: bool, should_direct: bool) -> (r: ForwardRoute)
    ensures
        blacklisted ==> r == ForwardRoute::RefuseBlacklisted,
        !blacklisted && should_direct ==> r == ForwardRoute::Direct,
        !blacklisted && !should_direct ==> r == ForwardRoute::ViaServer,
{
    if blacklisted {
        ForwardRoute::RefuseBlacklisted
    } else if should_direct {
        ForwardRoute::Direct
    } else {
        ForwardRoute::ViaServer
    }
}

/// The route of a plain HTTP request (not CONNECT): always direct, unless
/// the target failed recently.
pub fn http_request_route(blacklisted: bool) -> (r: ForwardRoute)
    ensures
        blacklisted ==> r == ForwardRoute::RefuseBlacklisted,
        !blacklisted ==> r == ForwardRoute::Direct,
{
    if blacklisted {
        ForwardRoute::RefuseBlacklisted
    } else {
        ForwardRoute::Direct
    }
}

/// The answer to a CONNECT request whose tunnel is set up.
pub open spec fn connect_established_response() -> Seq<char> {
    "HTTP/1.1 200 Connection Established\r\n\r\n"@
}

/// Whether a CONNECT target names a port: it holds a colon.
pub fn connect_target_ok(target: &str) -> (b: bool)
    ensures
        b == target@.contains(':'),
{
    let n = target.unicode_len();
    let mut i: usize = 0;
    while i < n
        invariant
            0 <= i <= n,
            n == target@.len(),
            forall|j: int| 0 <= j < i ==> target@[j] != ':',
        decreases n - i,
    {
        if target.get_char(i) == ':' {
            return true;
        }
        i = i + 1;
    }
    false
}

/// The error text for a CONNECT target without a port.
pub fn invalid_connect_target_text(target: &str) -> (s: String)
    ensures
        s@ == "Invalid target address: "@ + target@,
{
    let mut s = text("Invalid target address: ");
    push_text(&mut s, target);
    s
}

/// The answer to a plain HTTP request whose target failed recently.
pub open spec fn http_blacklisted_response() -> Seq<char> {
    "HTTP/1.1 503 Service Unavailable\r\nContent-Type: text/plain\r\nConnection: close\r\n\r\nService temporarily unavailable"@
}

/// The answer to a plain HTTP request whose target could not be reached.
pub open spec fn http_connect_failed_response() -> Seq<char> {
    "HTTP/1.1 502 Bad Gateway\r\nContent-Type: text/plain\r\nConnection: close\r\n\r\nConnection failed"@
}

/// The answer to a tunnel request whose target failed recently.
pub open spec fn tunnel_blacklisted_response() -> Seq<char> {
    "HTTP/1.1 503 Service Unavailable\r\nContent-Type: text/plain\r\nContent-Length: 47\r\nConnection: close\r\n\r\nTarget is temporarily unavailable (blacklisted)"@
}

/// The answer to an HTTP client when the server refused the target with
/// `msg`; the length is the message's byte length.
pub open spec fn bad_gateway_response(msg: Seq<char>) -> Seq<char> {
    "HTTP/1.1 502 Bad Gateway\r\nContent-Type: text/plain\r\nContent-Length: "@ + decimal(
        crate::text::byte_len(msg) as nat,
    ) + "\r\nConnection: close\r\n\r\n"@ + msg
}

/// The texts of the fixed answers.
pub fn connect_established_text() -> (s: String)
    ensures
        s@ == connect_established_response(),
{
    text("HTTP/1.1 200 Connection Established\r\n\r\n")
}

/// The answer to a plain HTTP request whose target failed recently.
pub fn http_blacklisted_text() -> (s: String)
    ensures
        s@ == http_blacklisted_response(),
{
    text(
        "HTTP/1.1 503 Service Unavailable\r\nContent-Type: text/plain\r\nConnection: close\r\n\r\nService temporarily unavailable",
    )
}

/// The answer to a plain HTTP request whose target could not be reached.
pub fn http_connect_failed_text() -> (s: String)
    ensures
        s@ == http_connect_failed_response(),
{
    text(
        "HTTP/1.1 502 Bad Gateway\r\nContent-Type: text/plain\r\nConnection: close\r\n\r\nConnection failed",
    )
}

/// The answer to a tunnel request whose target failed recently.
pub fn tunnel_blacklisted_text() -> (s: String)
    ensures
        s@ == tunnel_blacklisted_response(),
{
    text(
        "HTTP/1.1 503 Service Unavailable\r\nContent-Type: text/plain\r\nContent-Length: 47\r\nConnection: close\r\n\r\nTarget is temporarily unavailable (blacklisted)",
    )
}

/// The answer to an HTTP client when the server refused the target.
pub fn bad_gateway_text(msg: &str) -> (s: String)
    ensures
        s@ == bad_gateway_response(msg@),
{
    let mut s = text("HTTP/1.1 502 Bad Gateway\r\nContent-Type: text/plain\r\nContent-Length: ");
    push_decimal(&mut s, str_byte_len(msg) as u128);
    push_text(&mut s, "\r\nConnection: close\r\n\r\n");
    push_text(&mut s, msg);
    s
}

/// The message used when the server's refusal could not be read.
pub fn unknown_error_text() -> (s: String)
    ensures
        s@ == "Unknown error"@,
{
    text("Unknown error")
}

/// Why a SOCKS5 exchange fails.
#[derive(Debug, Clone, PartialEq, Eq)]
pub enum Socks5Error {
    UnsupportedVersion(u8),
    InvalidMethodCount(u8),
    InvalidRequestVersion,
    UnsupportedCommand(u8),
    UnsupportedAddressType(u8),
    InvalidDomainLength(u8),
    InvalidDomainName,
    NoAcceptableMethod,
    InvalidCredentials,
    AuthenticationFailed,
}

impl Socks5Error {
    /// The error's message.
    pub fn message(&self) -> (s: String)
        ensures
            s@ == socks5_error_text(*self),
    {
        match self {
            Socks5Error::UnsupportedVersion(v) => {
                let mut s = text("Unsupported SOCKS version: ");
                push_decimal(&mut s, *v as u128);
                s
            },
            Socks5Error::InvalidMethodCount(n) => {
                let mut s = text("Invalid number of methods: ");
                push_decimal(&mut s, *n as u128);
                s
            },
            Socks5Error::InvalidRequestVersion => text("Invalid SOCKS5 request version"),
            Socks5Error::UnsupportedCommand(c) => {
                let mut s = text("Unsupported SOCKS5 command: ");
                push_decimal(&mut s, *c as u128);
                s
            },
            Socks5Error::UnsupportedAddressType(a) => {
                let mut s = text("Unsupported address type: ");
                push_decimal(&mut s, *a as u128);
                s
            },
            Socks5Error::InvalidDomainLength(n) => {
                let mut s = text("Invalid SOCKS5 domain name length: ");
                push_decimal(&mut s, *n as u128);
                s
            },
            Socks5Error::InvalidDomainName => text("invalid utf-8 in SOCKS5 domain name"),
            Socks5Error::NoAcceptableMethod => text("No supported authentication method"),
            Socks5Error::InvalidCredentials => text("invalid utf-8 in SOCKS5 credentials"),
            Socks5Error::AuthenticationFailed => text("Authentication failed"),
        }
    }
}

/// The text of each SOCKS5 error.
pub open spec fn socks5_error_text(e: Socks5Error) -> Seq<char> {
    match e {
        Socks5Error::UnsupportedVersion(v) => "Unsupported SOCKS version: "@ + decimal(v as nat),
        Socks5Error::InvalidMethodCount(n) => "Invalid number of methods: "@ + decimal(n as nat),
        Socks5Error::InvalidRequestVersion => "Invalid SOCKS5 request version"@,
        Socks5Error::UnsupportedCommand(c) => "Unsupported SOCKS5 command: "@ + decimal(c as nat),
        Socks5Error::UnsupportedAddressType(a) => "Unsupported address type: "@ + decimal(a as nat),
        Socks5Error::InvalidDomainLength(n) => "Invalid SOCKS5 domain name length: "@ + decimal(
            n as nat,
        ),
        Socks5Error::InvalidDomainName => "invalid utf-8 in SOCKS5 domain name"@,
        Socks5Error::NoAcceptableMethod => "No supported authentication method"@,
        Socks5Error::InvalidCredentials => "invalid utf-8 in SOCKS5 credentials"@,
        Socks5Error::AuthenticationFailed => "Authentication failed"@,
    }
}

/// Checks the client's greeting (version and method count) and gives the
/// number of method bytes that follow.
pub fn socks5_greeting(version: u8, nmethods: u8) -> (r: Result<usize, Socks5Error>)
    ensures
        version != 5 ==> r == Err::<usize, Socks5Error>(Socks5Error::UnsupportedVersion(version)),
        version == 5 && nmethods == 0 ==> r == Err::<usize, Socks5Error>(
            Socks5Error::InvalidMethodCount(0),
        ),
        version == 5 && nmethods != 0 ==> r == Ok::<usize, Socks5Error>(nmethods as usize),
{
    if version != 5 {
        return Err(Socks5Error::UnsupportedVersion(version));
    }
    if nmethods == 0 {
        return Err(Socks5Error::InvalidMethodCount(nmethods));
    }
    Ok(nmethods as usize)
}

/// The reply that picks "no authentication".
pub fn socks5_no_auth_reply() -> (v: Vec<u8>)
    ensures
        v@ == seq![5u8, 0u8],
{
    let v = vec![5u8, 0u8];
    assert(v@ =~= seq![5u8, 0u8]);
    v
}

/// The kind of address in a SOCKS5 request.
#[derive(Debug, Clone, Copy, PartialEq, Eq, Structural)]
pub enum Socks5Address {
    Ipv4,
    Domain,
    Ipv6,
}

/// Checks the request header (version, command, address type). Only
/// CONNECT is served; any other command is answered with
/// [`socks5_command_not_supported_reply`] first.
pub fn socks5_request(version: u8, command: u8, address_type: u8) -> (r: Result<
    Socks5Address,
    Socks5Error,
>)
    ensures
        version != 5 ==> r == Err::<Socks5Address, Socks5Error>(Socks5Error::InvalidRequestVersion),
        version == 5 && command != 1 ==> r == Err::<Socks5Address, Socks5Error>(
            Socks5Error::UnsupportedCommand(command),
        ),
        version == 5 && command == 1 ==> r == (if address_type == 1 {
            Ok::<Socks5Address, Socks5Error>(Socks5Address::Ipv4)
        } else if address_type == 3 {
            Ok(Socks5Address::Domain)
        } else if address_type == 4 {
            Ok(Socks5Address::Ipv6)
        } else {
            Err(Socks5Error::UnsupportedAddressType(address_type))
        }),
{
    if version != 5 {
        return Err(Socks5Error::InvalidRequestVersion);
    }
    if command != 1 {
        return Err(Socks5Error::UnsupportedCommand(command));
    }
    if address_type == 1 {
        Ok(Socks5Address::Ipv4)
    } else if address_type == 3 {
        Ok(Socks5Address::Domain)
    } else if address_type == 4 {
        Ok(Socks5Address::Ipv6)
    } else {
        Err(Socks5Error::UnsupportedAddressType(address_type))
    }
}

/// The reply to a command other than CONNECT.
pub fn socks5_command_not_supported_reply() -> (v: Vec<u8>)
    ensures
        v@ == seq![5u8, 7u8, 0u8, 1u8, 0u8, 0u8, 0u8, 0u8, 0u8, 0u8],
{
    let v = vec![5u8, 7u8, 0u8, 1u8, 0u8, 0u8, 0u8, 0u8, 0u8, 0u8];
    assert(v@ =~= seq![5u8, 7u8, 0u8, 1u8, 0u8, 0u8, 0u8, 0u8, 0u8, 0u8]);
    v
}

/// The reply once the target is read.
pub fn socks5_success_reply() -> (v: Vec<u8>)
    ensures
        v@ == seq![5u8, 0u8, 0u8, 1u8, 0u8, 0u8, 0u8, 0u8, 0u8, 0u8],
{
    let v = vec![5u8, 0u8, 0u8, 1u8, 0u8, 0u8, 0u8, 0u8, 0u8, 0u8];
    assert(v@ =~= seq![5u8, 0u8, 0u8, 1u8, 0u8, 0u8, 0u8, 0u8, 0u8, 0u8]);
    v
}

/// Checks the length byte of a domain name.
pub fn socks5_domain_length(len: u8) -> (r: Result<usize, Socks5Error>)
    ensures
        len == 0 ==> r == Err::<usize, Socks5Error>(Socks5Error::InvalidDomainLength(0)),
        len != 0 ==> r == Ok::<usize, Socks5Error>(len as usize),
{
    if len == 0 {
        Err(Socks5Error::InvalidDomainLength(len))
    } else {
        Ok(len as usize)
    }
}

/// The domain name of a request.
pub fn socks5_domain(bytes: &[u8]) -> (r: Result<String, Socks5Error>)
    ensures
        valid_utf8(bytes@) ==> (r matches Ok(s) && s@ == decode_utf8(bytes@)),
        !valid_utf8(bytes@) ==> r == Err::<String, Socks5Error>(Socks5Error::InvalidDomainName),
{
    match utf8_to_string(bytes) {
        Some(s) => Ok(s),
        None => Err(Socks5Error::InvalidDomainName),
    }
}

/// Dotted decimal notation of an IPv4 address.
pub open spec fn ipv4_text(a: u8, b: u8, c: u8, d: u8) -> Seq<char> {
    decimal(a as nat) + "."@ + decimal(b as nat) + "."@ + decimal(c as nat) + "."@ + decimal(d as nat)
}

/// The IPv4 address of a request, in dotted decimal.
pub fn socks5_ipv4(a: u8, b: u8, c: u8, d: u8) -> (s: String)
    ensures
        s@ == ipv4_text(a, b, c, d),
{
    let mut s = String::new();
    push_decimal(&mut s, a as u128);
    push_text(&mut s, ".");
    push_decimal(&mut s, b as u128);
    push_text(&mut s, ".");
    push_decimal(&mut s, c as u128);
    push_text(&mut s, ".");
    push_decimal(&mut s, d as u128);
    s
}

/// The lowercase hexadecimal digit of a value below 16.
pub open spec fn hex_digit(d: int) -> char {
    if d < 10 {
        crate::text::digit_char(d)
    } else if d == 10 {
        'a'
    } else if d == 11 {
        'b'
    } else if d == 12 {
        'c'
    } else if d == 13 {
        'd'
    } else if d == 14 {
        'e'
    } else {
        'f'
    }
}

/// A byte as two lowercase hexadecimal digits.
pub open spec fn hex_byte(b: u8) -> Seq<char> {
    seq![hex_digit(b as int / 16), hex_digit(b as int % 16)]
}

fn hex_digit_char(d: u8) -> (c: char)
    requires
        d < 16,
    ensures
        c == hex_digit(d as int),
{
    if d < 10 {
        crate::text::digit_to_char(d as u64)
    } else if d == 10 {
        'a'
    } else if d == 11 {
        'b'
    } else if d == 12 {
        'c'
    } else if d == 13 {
        'd'
    } else if d == 14 {
        'e'
    } else {
        'f'
    }
}

/// The IPv6 address of a request.
pub fn socks5_ipv6(b: &[u8]) -> (s: String)
    requires
        b@.len() == 16,
    ensures
        s@ == ipv6_groups(b@, 8),
{
    let mut s = String::new();
    let mut g: usize = 0;
    while g < 8
        invariant
            0 <= g <= 8,
            b@.len() == 16,
            s@ == ipv6_groups(b@, g as int),
        decreases 8 - g,
    {
        if g > 0 {
            push_text(&mut s, ":");
        }
        let hi = b[2 * g];
        let lo = b[2 * g + 1];
        push_char(&mut s, hex_digit_char(hi / 16));
        push_char(&mut s, hex_digit_char(hi % 16));
        push_char(&mut s, hex_digit_char(lo / 16));
        push_char(&mut s, hex_digit_char(lo % 16));
        proof {
            assert(s@ =~= ipv6_groups(b@, g + 1));
        }
        g = g + 1;
    }
    s
}

/// The first `n` groups of an IPv6 address, each as four lowercase
/// hexadecimal digits, joined by colons and not shortened.
pub open spec fn ipv6_groups(b: Seq<u8>, n: int) -> Seq<char>
    decreases n,
{
    if n <= 0 {
        Seq::empty()
    } else if n == 1 {
        hex_byte(b[0]) + hex_byte(b[1])
    } else {
        ipv6_groups(b, n - 1) + ":"@ + hex_byte(b[2 * (n - 1)]) + hex_byte(b[2 * (n - 1) + 1])
    }
}

/// `host:port`, the target that a SOCKS5 request names.
pub fn socks5_target(host: &str, port: u16) -> (s: String)
    ensures
        s@ == host@ + ":"@ + decimal(port as nat),
{
    let mut s = text(host);
    push_text(&mut s, ":");
    push_decimal(&mut s, port as u128);
    s
}

/// Credentials that a SOCKS5 client must present.
#[derive(Clone, Debug)]
pub struct Socks5Auth {
    pub username: String,
    pub password: String,
}

/// The method chosen from the client's list: username and password when
/// credentials are configured and offered, else no authentication when
/// offered, else none (the client is then told `[5, 0xFF]`).
pub fn socks5_select_method(auth_configured: bool, methods: &[u8]) -> (r: Option<u8>)
    ensures
        auth_configured && methods@.contains(2u8) ==> r == Some(2u8),
        !(auth_configured && methods@.contains(2u8)) && methods@.contains(0u8) ==> r == Some(0u8),
        !(auth_configured && methods@.contains(2u8)) && !methods@.contains(0u8) ==> r is None,
{
    let mut has_password = false;
    let mut has_none = false;
    let mut i: usize = 0;
    while i < methods.len()
        invariant
            0 <= i <= methods@.len(),
            has_password == methods@.subrange(0, i as int).contains(2u8),
            has_none == methods@.subrange(0, i as int).contains(0u8),
        decreases methods@.len() - i,
    {
        proof {
            let a = methods@.subrange(0, i as int);
            let b = methods@.subrange(0, i + 1);
            assert(b =~= a.push(methods@[i as int]));
            assert(b.contains(2u8) == (a.contains(2u8) || methods@[i as int] == 2u8)) by {
                if a.contains(2u8) {
                    let k = choose|k: int| 0 <= k < a.len() && a[k] == 2u8;
                    assert(b[k] == a[k]);
                }
                if b.contains(2u8) && !a.contains(2u8) {
                    let k = choose|k: int| 0 <= k < b.len() && b[k] == 2u8;
                    if k < a.len() {
                        assert(a[k] == b[k]);
                    }
                }
                if methods@[i as int] == 2u8 {
                    assert(b[i as int] == 2u8);
                }
            }
            assert(b.contains(0u8) == (a.contains(0u8) || methods@[i as int] == 0u8)) by {
                if a.contains(0u8) {
                    let k = choose|k: int| 0 <= k < a.len() && a[k] == 0u8;
                    assert(b[k] == a[k]);
                }
                if b.contains(0u8) && !a.contains(0u8) {
                    let k = choose|k: int| 0 <= k < b.len() && b[k] == 0u8;
                    if k < a.len() {
                        assert(a[k] == b[k]);
                    }
                }
                if methods@[i as int] == 0u8 {
                    assert(b[i as int] == 0u8);
                }
            }
        }
        if methods[i] == 2 {
            has_password = true;
        }
        if methods[i] == 0 {
            has_none = true;
        }
        i = i + 1;
    }
    proof {
        assert(methods@.subrange(0, methods@.len() as int) =~= methods@);
    }
    if auth_configured && has_password {
        Some(2)
    } else if has_none {
        Some(0)
    } else {
        None
    }
}

/// The reply when no offered method is acceptable.
pub fn socks5_no_method_reply() -> (v: Vec<u8>)
    ensures
        v@ == seq![5u8, 0xFFu8],
{
    let v = vec![5u8, 0xFFu8];
    assert(v@ =~= seq![5u8, 0xFFu8]);
    v
}

/// Checks the username and password that a client sent: both must be
/// UTF-8 and equal the configured ones. `Ok(true)` is answered `[1, 0]`,
/// `Ok(false)` is answered `[1, 1]` and fails the exchange.
pub fn socks5_check_credentials(username: &[u8], password: &[u8], auth: &Socks5Auth) -> (r: Result<
    bool,
    Socks5Error,
>)
    ensures
        !valid_utf8(username@) || !valid_utf8(password@) ==> r == Err::<bool, Socks5Error>(
            Socks5Error::InvalidCredentials,
        ),
        valid_utf8(username@) && valid_utf8(password@) ==> r == Ok::<bool, Socks5Error>(
            decode_utf8(username@) == auth.username@ && decode_utf8(password@) == auth.password@,
        ),
{
    let u = match utf8_to_string(username) {
        Some(u) => u,
        None => {
            return Err(Socks5Error::InvalidCredentials);
        },
    };
    let p = match utf8_to_string(password) {
        Some(p) => p,
        None => {
            return Err(Socks5Error::InvalidCredentials);
        },
    };
    Ok(u == auth.username && p == auth.password)
}


/// The most connections a forwarder serves at once.
pub const MAX_CONCURRENT_CONNECTIONS: usize = 1000;

/// Counts the connections that a forwarder serves at once; a connection
/// beyond the limit is refused.
#[derive(Debug)]
pub struct ConnectionLimiter {
    limit: usize,
    active: usize,
}

impl ConnectionLimiter {
    /// Connections being served.
    pub closed spec fn active_view(&self) -> nat {
        self.active as nat
    }

    /// The limit.
    pub closed spec fn limit_view(&self) -> nat {
        self.limit as nat
    }

    /// Never more served than the limit.
    pub open spec fn wf(&self) -> bool {
        self.active_view() <= self.limit_view()
    }

    /// A limiter with room for `limit` connections.
    pub fn new(limit: usize) -> (l: Self)
        ensures
            l.limit_view() == limit,
            l.active_view() == 0,
            l.wf(),
    {
        ConnectionLimiter { limit, active: 0 }
    }

    /// Takes a place for a new connection, if one is free.
    pub fn try_acquire(&mut self) -> (ok: bool)
        requires
            old(self).wf(),
        ensures
            ok == (old(self).active_view() < old(self).limit_view()),
            ok ==> final(self).active_view() == old(self).active_view() + 1,
            !ok ==> final(self).active_view() == old(self).active_view(),
            final(self).limit_view() == old(self).limit_view(),
            final(self).wf(),
    {
        if self.active < self.limit {
            self.active = self.active + 1;
            true
        } else {
            false
        }
    }

    /// Gives a place back when a connection ends.
    pub fn release(&mut self)
        requires
            old(self).wf(),
        ensures
            final(self).active_view() == (if old(self).active_view() > 0 {
                old(self).active_view() - 1
            } else {
                0
            }),
            final(self).limit_view() == old(self).limit_view(),
            final(self).wf(),
    {
        if self.active > 0 {
            self.active = self.active - 1;
        }
    }
}

/// A connection to an outside target kept for reuse, and when it was
/// given back (in nanoseconds of a monotonic clock).
pub struct CachedConnection<C> {
    pub target: String,
    pub stream: C,
    pub created_at: u128,
}

/// Whether a connection given back at `created_at` may still be reused at
/// `now`: it has waited less than `max_idle`.
pub open spec fn cached_fresh(created_at: u128, now: u128, max_idle: u128) -> bool {
    (if now >= created_at { now - created_at } else { 0 }) < max_idle
}

/// The entries of `s` whose target is not `t`, in order.
pub open spec fn other_targets<C>(s: Seq<CachedConnection<C>>, t: Seq<char>) -> Seq<CachedConnection<C>>
    decreases s.len(),
{
    if s.len() == 0 {
        s
    } else {
        let rest = other_targets(s.skip(1), t);
        if s[0].target@ == t {
            rest
        } else {
            seq![s[0]] + rest
        }
    }
}

/// `s` without the entries for `t` from position `i` on.
pub open spec fn without_target_from<C>(s: Seq<CachedConnection<C>>, t: Seq<char>, i: int) -> Seq<
    CachedConnection<C>,
> {
    s.take(i) + other_targets(s.skip(i), t)
}

/// The position of the newest fresh entry for `t` among the first `n`.
pub open spec fn last_fresh_below<C>(
    s: Seq<CachedConnection<C>>,
    t: Seq<char>,
    n: int,
    now: u128,
    max_idle: u128,
) -> Option<int>
    decreases n,
{
    if n <= 0 {
        None
    } else if s[n - 1].target@ == t && cached_fresh(s[n - 1].created_at, now, max_idle) {
        Some(n - 1)
    } else {
        last_fresh_below(s, t, n - 1, now, max_idle)
    }
}

/// How many entries are for `t`.
pub open spec fn count_target<C>(s: Seq<CachedConnection<C>>, t: Seq<char>) -> nat
    decreases s.len(),
{
    if s.len() == 0 {
        0
    } else {
        count_target(s.drop_last(), t) + if s.last().target@ == t { 1nat } else { 0nat }
    }
}

/// The entries that may still be reused at `now`, in order.
pub open spec fn fresh_cached<C>(s: Seq<CachedConnection<C>>, now: u128, max_idle: u128) -> Seq<
    CachedConnection<C>,
>
    decreases s.len(),
{
    if s.len() == 0 {
        s
    } else {
        let r = fresh_cached(s.drop_last(), now, max_idle);
        if cached_fresh(s.last().created_at, now, max_idle) {
            r.push(s.last())
        } else {
            r
        }
    }
}

/// Splitting off the entry at `i` of a suffix.
proof fn lemma_other_targets_step<C>(s: Seq<CachedConnection<C>>, t: Seq<char>, i: int)
    requires
        0 <= i < s.len(),
    ensures
        other_targets(s.skip(i), t) == (if s[i].target@ == t {
            other_targets(s.skip(i + 1), t)
        } else {
            seq![s[i]] + other_targets(s.skip(i + 1), t)
        }),
{
    assert(s.skip(i).skip(1) =~= s.skip(i + 1));
    assert(s.skip(i)[0] == s[i]);
}

/// The connections that a client's forwarder keeps to outside targets.
pub struct ConnectionPool<C> {
    entries: Vec<CachedConnection<C>>,
    max_pool_size: usize,
    max_idle_nanos: u128,
}

impl<C> ConnectionPool<C> {
    /// The kept connections, oldest first.
    pub closed spec fn entries_view(&self) -> Seq<CachedConnection<C>> {
        self.entries@
    }

    /// How many connections are kept per target at most.
    pub closed spec fn max_pool_size_view(&self) -> usize {
        self.max_pool_size
    }

    /// How long a kept connection may wait, in nanoseconds.
    pub closed spec fn max_idle_view(&self) -> u128 {
        self.max_idle_nanos
    }

    /// An empty pool keeping up to `max_pool_size` connections per target,
    /// each for less than `max_idle_nanos`.
    pub fn new(max_pool_size: usize, max_idle_nanos: u128) -> (p: Self)
        ensures
            p.entries_view().len() == 0,
            p.max_pool_size_view() == max_pool_size,
            p.max_idle_view() == max_idle_nanos,
    {
        ConnectionPool { entries: Vec::new(), max_pool_size, max_idle_nanos }
    }

    /// Takes the most recently given back connection to `target` that is
    /// still fresh at `now`; the stale ones given back after it are
    /// dropped on the way (all of them, when none is fresh).
    pub fn take_fresh(&mut self, target: &str, now: u128) -> (r: Option<C>)
        ensures
            final(self).max_pool_size_view() == old(self).max_pool_size_view(),
            final(self).max_idle_view() == old(self).max_idle_view(),
            match last_fresh_below(
                old(self).entries_view(),
                target@,
                old(self).entries_view().len() as int,
                now,
                old(self).max_idle_view(),
            ) {
                Some(j) => r == Some(old(self).entries_view()[j].stream) && final(self).entries_view()
                    == without_target_from(old(self).entries_view(), target@, j),
                None => r is None && final(self).entries_view() == without_target_from(
                    old(self).entries_view(),
                    target@,
                    0,
                ),
            },
    {
        let ghost orig = self.entries@;
        let n = self.entries.len();
        let mut i: usize = n;
        proof {
            assert(orig.skip(n as int) =~= Seq::<CachedConnection<C>>::empty());
            assert(orig.take(n as int) =~= orig);
            assert(self.entries@ =~= without_target_from(orig, target@, n as int));
        }
        while i > 0
            invariant
                0 <= i <= n,
                n == orig.len(),
                self.entries@ == without_target_from(orig, target@, i as int),
                last_fresh_below(orig, target@, n as int, now, self.max_idle_nanos)
                    == last_fresh_below(orig, target@, i as int, now, self.max_idle_nanos),
                self.max_pool_size == old(self).max_pool_size,
                self.max_idle_nanos == old(self).max_idle_nanos,
                orig == old(self).entries@,
            decreases i,
        {
            let k = i - 1;
            proof {
                lemma_other_targets_step(orig, target@, k as int);
                assert(orig.take(i as int) =~= orig.take(k as int).push(orig[k as int]));
                assert(self.entries@[k as int] == orig[k as int]);
            }
            if str_eq(self.entries[k].target.as_str(), target) {
                let e = self.entries.remove(k);
                proof {
                    assert(self.entries@ =~= without_target_from(orig, target@, k as int));
                }
                let fresh = (if now >= e.created_at {
                    now - e.created_at
                } else {
                    0
                }) < self.max_idle_nanos;
                if fresh {
                    return Some(e.stream);
                }
            } else {
                proof {
                    assert(without_target_from(orig, target@, i as int) =~= without_target_from(
                        orig,
                        target@,
                        k as int,
                    ));
                }
            }
            i = k;
        }
        None
    }

    /// Keeps a connection to `target` given back at `now`, unless that
    /// target has its full share already (then the connection is dropped).
    pub fn return_connection(&mut self, target: String, stream: C, now: u128)
        ensures
            final(self).max_pool_size_view() == old(self).max_pool_size_view(),
            final(self).max_idle_view() == old(self).max_idle_view(),
            count_target(old(self).entries_view(), target@) < old(self).max_pool_size_view()
                ==> final(self).entries_view() == old(self).entries_view().push(
                CachedConnection { target, stream, created_at: now },
            ),
            count_target(old(self).entries_view(), target@) >= old(self).max_pool_size_view()
                ==> final(self).entries_view() == old(self).entries_view(),
    {
        let mut count: usize = 0;
        let mut i: usize = 0;
        while i < self.entries.len()
            invariant
                0 <= i <= self.entries@.len(),
                count == count_target(self.entries@.take(i as int), target@),
                count <= i,
            decreases self.entries@.len() - i,
        {
            proof {
                assert(self.entries@.take(i + 1).drop_last() =~= self.entries@.take(i as int));
            }
            if str_eq(self.entries[i].target.as_str(), target.as_str()) {
                count = count + 1;
            }
            i = i + 1;
        }
        proof {
            assert(self.entries@.take(self.entries@.len() as int) =~= self.entries@);
        }
        if count < self.max_pool_size {
            self.entries.push(CachedConnection { target, stream, created_at: now });
        }
    }

    /// Drops the connections that are no longer fresh at `now`.
    pub fn cleanup_expired(&mut self, now: u128)
        ensures
            final(self).entries_view() == fresh_cached(old(self).entries_view(), now, old(self).max_idle_view()),
            final(self).max_pool_size_view() == old(self).max_pool_size_view(),
            final(self).max_idle_view() == old(self).max_idle_view(),
    {
        let ghost orig = self.entries@;
        let n = self.entries.len();
        let mut i: usize = 0;
        let mut k: usize = 0;
        proof {
            assert(orig.take(0) =~= Seq::<CachedConnection<C>>::empty());
            assert(orig.skip(0) =~= orig);
            assert(self.entries@ =~= fresh_cached(orig.take(0), now, self.max_idle_nanos) + orig.skip(0));
        }
        while k < n
            invariant
                n == orig.len(),
                0 <= k <= orig.len(),
                self.entries@ == fresh_cached(orig.take(k as int), now, self.max_idle_nanos) + orig.skip(k as int),
                i == fresh_cached(orig.take(k as int), now, self.max_idle_nanos).len(),
                i <= k,
                self.max_pool_size == old(self).max_pool_size,
                self.max_idle_nanos == old(self).max_idle_nanos,
                orig == old(self).entries@,
            decreases n - k,
        {
            let ghost f = fresh_cached(orig.take(k as int), now, self.max_idle_nanos);
            proof {
                assert(orig.take(k + 1).drop_last() =~= orig.take(k as int));
                assert(orig.take(k + 1).last() == orig[k as int]);
                assert(orig.skip(k as int) =~= seq![orig[k as int]] + orig.skip(k + 1));
                assert(self.entries@[i as int] == orig[k as int]);
            }
            let created = self.entries[i].created_at;
            let fresh = (if now >= created {
                now - created
            } else {
                0
            }) < self.max_idle_nanos;
            if fresh {
                proof {
                    assert(self.entries@ =~= f.push(orig[k as int]) + orig.skip(k + 1));
                }
                i = i + 1;
            } else {
                let _dropped = self.entries.remove(i);
                proof {
                    assert(self.entries@ =~= f + orig.skip(k + 1));
                }
            }
            k = k + 1;
        }
        proof {
            assert(orig.take(orig.len() as int) =~= orig);
            assert(orig.skip(orig.len() as int) =~= Seq::<CachedConnection<C>>::empty());
            assert(self.entries@ =~= fresh_cached(orig, now, self.max_idle_nanos));
        }
    }
}

/// Retries of an operation that may fail for a while.
#[derive(Debug, Clone, Copy)]
pub struct RetryConfig {
    /// Attempts in all.
    pub max_retries: u32,
    /// Wait after the first failure.
    pub initial_backoff: std::time::Duration,
    /// Longest wait.
    pub max_backoff: std::time::Duration,
}

impl Default for RetryConfig {
    fn default() -> (c: Self)
        ensures
            c.max_retries == 3,
            c.initial_backoff == crate::connection_pool::millis_duration(100),
            c.max_backoff == crate::connection_pool::secs_duration(10),
    {
        RetryConfig {
            max_retries: 3,
            initial_backoff: crate::connection_pool::duration_from_millis(100),
            max_backoff: crate::connection_pool::duration_from_secs(10),
        }
    }
}

/// Whether to try again after the `attempt`-th failure (counting from 1):
/// only while fewer attempts than the maximum were made.
pub fn retry_after_failure(attempt: u32, max_retries: u32) -> (b: bool)
    ensures
        b == (attempt < max_retries),
{
    attempt < max_retries
}

/// The next wait, in nanoseconds: twice the last one, but never more than
/// the longest wait.
pub fn next_backoff_nanos(current: u128, max: u128) -> (n: u128)
    ensures
        n == (if 2 * current <= max { 2 * current } else { max as int }),
{
    if current <= max / 2 {
        current * 2
    } else {
        max
    }
}

} // verus!
