//! Per-proxy traffic counters kept by the server.
use vstd::prelude::*;

use crate::connection_pool::duration_nanos;
use crate::text::str_eq;

verus! {

/// `a + b` on 64 bits, wrapping around as the atomic counters do.
pub open spec fn wrap_add(a: u64, b: u64) -> u64 {
    if a + b <= u64::MAX {
        (a + b) as u64
    } else {
        (a + b - 0x1_0000_0000_0000_0000) as u64
    }
}

/// `a - b` on 64 bits, wrapping around as the atomic counters do.
pub open spec fn wrap_sub(a: u64, b: u64) -> u64 {
    if a >= b {
        (a - b) as u64
    } else {
        (a - b + 0x1_0000_0000_0000_0000) as u64
    }
}

/// Wrapping 64-bit addition.
pub fn add_wrapping(a: u64, b: u64) -> (r: u64)
    ensures
        r == wrap_add(a, b),
{
    if a <= u64::MAX - b {
        a + b
    } else {
        b - (u64::MAX - a) - 1
    }
}

/// Wrapping 64-bit subtraction.
pub fn sub_wrapping(a: u64, b: u64) -> (r: u64)
    ensures
        r == wrap_sub(a, b),
{
    if a >= b {
        a - b
    } else {
        u64::MAX - (b - a) + 1
    }
}

/// `std::time::SystemTime`, carried as an opaque value.
#[verifier::external_type_specification]
#[verifier::external_body]
pub struct ExSystemTime(std::time::SystemTime);

/// The current time, by `SystemTime::now`.
///
/// Trusted; the result depends on the clock, so nothing is stated of it.
#[verifier::external_body]
fn system_now() -> std::time::SystemTime {
    std::time::SystemTime::now()
}

/// How long after the Unix epoch a time is, by
/// `SystemTime::duration_since(UNIX_EPOCH)`; `None` for a time before it.
///
/// Trusted; the time is opaque here, so nothing is stated of the result.
#[verifier::external_body]
fn since_unix_epoch(t: &std::time::SystemTime) -> Option<std::time::Duration> {
    t.duration_since(std::time::UNIX_EPOCH).ok()
}

/// The whole seconds of a duration, by `Duration::as_secs`.
///
/// Trusted: std documents it as the whole seconds, which is the length in
/// nanoseconds divided by 10^9.
#[verifier::external_body]
fn whole_secs(d: std::time::Duration) -> (s: u64)
    ensures
        s == duration_nanos(d) / 1_000_000_000,
{
    d.as_secs()
}

/// Seconds since the Unix epoch by the system clock; a clock set before
/// 1970 reads as 0.
pub(crate) fn unix_now_secs() -> u64 {
    match since_unix_epoch(&system_now()) {
        Some(d) => whole_secs(d),
        None => 0,
    }
}

/// A snapshot of one proxy's counters.
#[derive(Debug)]
pub struct ProxyStats {
    pub name: String,
    pub publish_addr: String,
    pub publish_port: u16,
    pub local_port: u16,
    pub total_connections: u64,
    pub active_connections: u64,
    pub bytes_sent: u64,
    pub bytes_received: u64,
    /// Unix time, in seconds, at which the proxy was registered.
    pub start_time: u64,
}

/// What a [`ProxyStats`] holds, as plain values.
pub struct ProxyStatsView {
    pub name: Seq<char>,
    pub publish_addr: Seq<char>,
    pub publish_port: u16,
    pub local_port: u16,
    pub total_connections: u64,
    pub active_connections: u64,
    pub bytes_sent: u64,
    pub bytes_received: u64,
    pub start_time: u64,
}

impl View for ProxyStats {
    type V = ProxyStatsView;

    open spec fn view(&self) -> ProxyStatsView {
        ProxyStatsView {
            name: self.name@,
            publish_addr: self.publish_addr@,
            publish_port: self.publish_port,
            local_port: self.local_port,
            total_connections: self.total_connections,
            active_connections: self.active_connections,
            bytes_sent: self.bytes_sent,
            bytes_received: self.bytes_received,
            start_time: self.start_time,
        }
    }
}

impl ProxyStats {
    /// A copy of the snapshot.
    pub fn copy(&self) -> (s: ProxyStats)
        ensures
            s@ == self@,
    {
        ProxyStats {
            name: self.name.clone(),
            publish_addr: self.publish_addr.clone(),
            publish_port: self.publish_port,
            local_port: self.local_port,
            total_connections: self.total_connections,
            active_connections: self.active_connections,
            bytes_sent: self.bytes_sent,
            bytes_received: self.bytes_received,
            start_time: self.start_time,
        }
    }
}

impl Clone for ProxyStats {
    fn clone(&self) -> (s: ProxyStats)
        ensures
            s@ == self@,
    {
        self.copy()
    }
}

/// The counters of one proxy, as they change. A tracker has one owner and
/// is not cloned: counters that several tasks update live in a manager.
#[derive(Debug)]
pub struct ProxyStatsTracker {
    stats: ProxyStats,
}

impl View for ProxyStatsTracker {
    type V = ProxyStatsView;

    closed spec fn view(&self) -> ProxyStatsView {
        self.stats@
    }
}

impl ProxyStatsTracker {
    /// Counters equal to these, for updating an entry of a manager.
    fn duplicate(&self) -> (t: ProxyStatsTracker)
        ensures
            t@ == self@,
    {
        ProxyStatsTracker { stats: self.stats.copy() }
    }
}

/// The counters of a proxy registered at `start_time`, all zero.
pub open spec fn fresh_stats(
    name: Seq<char>,
    publish_addr: Seq<char>,
    publish_port: u16,
    local_port: u16,
    start_time: u64,
) -> ProxyStatsView {
    ProxyStatsView {
        name,
        publish_addr,
        publish_port,
        local_port,
        total_connections: 0,
        active_connections: 0,
        bytes_sent: 0,
        bytes_received: 0,
        start_time,
    }
}

/// The counters after a connection starts.
pub open spec fn started(s: ProxyStatsView) -> ProxyStatsView {
    ProxyStatsView {
        total_connections: wrap_add(s.total_connections, 1),
        active_connections: wrap_add(s.active_connections, 1),
        ..s
    }
}

/// The counters after a connection ends.
pub open spec fn ended(s: ProxyStatsView) -> ProxyStatsView {
    ProxyStatsView { active_connections: wrap_sub(s.active_connections, 1), ..s }
}

/// The counters after `n` more bytes were sent.
pub open spec fn sent(s: ProxyStatsView, n: u64) -> ProxyStatsView {
    ProxyStatsView { bytes_sent: wrap_add(s.bytes_sent, n), ..s }
}

/// The counters after `n` more bytes were received.
pub open spec fn received(s: ProxyStatsView, n: u64) -> ProxyStatsView {
    ProxyStatsView { bytes_received: wrap_add(s.bytes_received, n), ..s }
}

impl ProxyStatsTracker {
    /// Counters for a proxy registered at `start_time`.
    pub fn new_at(
        name: String,
        publish_addr: String,
        publish_port: u16,
        local_port: u16,
        start_time: u64,
    ) -> (t: Self)
        ensures
            t@ == fresh_stats(name@, publish_addr@, publish_port, local_port, start_time),
    {
        ProxyStatsTracker {
            stats: ProxyStats {
                name,
                publish_addr,
                publish_port,
                local_port,
                total_connections: 0,
                active_connections: 0,
                bytes_sent: 0,
                bytes_received: 0,
                start_time,
            },
        }
    }

    /// Counters for a proxy registered now.
    pub fn new(name: String, publish_addr: String, publish_port: u16, local_port: u16) -> (t: Self)
        ensures
            t@ == fresh_stats(name@, publish_addr@, publish_port, local_port, t@.start_time),
    {
        let now = unix_now_secs();
        Self::new_at(name, publish_addr, publish_port, local_port, now)
    }

    /// Counts a connection that starts.
    pub fn connection_started(&mut self)
        ensures
            final(self)@ == started(old(self)@),
    {
        self.stats.total_connections = add_wrapping(self.stats.total_connections, 1);
        self.stats.active_connections = add_wrapping(self.stats.active_connections, 1);
    }

    /// Counts a connection that ends.
    pub fn connection_ended(&mut self)
        ensures
            final(self)@ == ended(old(self)@),
    {
        self.stats.active_connections = sub_wrapping(self.stats.active_connections, 1);
    }

    /// Counts bytes sent.
    pub fn add_bytes_sent(&mut self, bytes: u64)
        ensures
            final(self)@ == sent(old(self)@, bytes),
    {
        self.stats.bytes_sent = add_wrapping(self.stats.bytes_sent, bytes);
    }

    /// Counts bytes received.
    pub fn add_bytes_received(&mut self, bytes: u64)
        ensures
            final(self)@ == received(old(self)@, bytes),
    {
        self.stats.bytes_received = add_wrapping(self.stats.bytes_received, bytes);
    }

    /// A snapshot of the counters.
    pub fn get_stats(&self) -> (s: ProxyStats)
        ensures
            s@ == self@,
    {
        self.stats.copy()
    }

    /// The proxy's name.
    pub fn name(&self) -> (n: &str)
        ensures
            n@ == self@.name,
    {
        self.stats.name.as_str()
    }
}

/// The position of the entry named `name`, if any.
pub open spec fn index_of_name(entries: Seq<ProxyStatsView>, name: Seq<char>) -> Option<int> {
    if exists|i: int| 0 <= i < entries.len() && #[trigger] entries[i].name == name {
        Some(choose|i: int| 0 <= i < entries.len() && #[trigger] entries[i].name == name)
    } else {
        None
    }
}

/// No two entries share a name.
pub open spec fn names_unique(entries: Seq<ProxyStatsView>) -> bool {
    forall|i: int, j: int|
        0 <= i < entries.len() && 0 <= j < entries.len() && i != j ==> entries[i].name
            != entries[j].name
}

/// The entries after `f` was applied to the one named `name` (if any).
pub open spec fn update_named(
    entries: Seq<ProxyStatsView>,
    name: Seq<char>,
    f: spec_fn(ProxyStatsView) -> ProxyStatsView,
) -> Seq<ProxyStatsView> {
    match index_of_name(entries, name) {
        Some(i) => entries.update(i, f(entries[i])),
        None => entries,
    }
}

/// The entries without the one named `name` (if any).
pub open spec fn remove_named(entries: Seq<ProxyStatsView>, name: Seq<char>) -> Seq<
    ProxyStatsView,
> {
    match index_of_name(entries, name) {
        Some(i) => entries.remove(i),
        None => entries,
    }
}

/// The entries after registering `t`: it replaces the entry of the same
/// name in place, or comes last.
pub open spec fn register_named(entries: Seq<ProxyStatsView>, t: ProxyStatsView) -> Seq<
    ProxyStatsView,
> {
    match index_of_name(entries, t.name) {
        Some(i) => entries.update(i, t),
        None => entries.push(t),
    }
}

/// With unique names, the entry found for a name is the one at the
/// position that holds it.
proof fn lemma_index_of_name_at(entries: Seq<ProxyStatsView>, k: int)
    requires
        names_unique(entries),
        0 <= k < entries.len(),
    ensures
        index_of_name(entries, entries[k].name) == Some(k),
{
    assert(entries[k].name == entries[k].name);
}

/// Right after a proxy is registered, its name finds its fresh counters,
/// and names stay unique.
pub proof fn law_registered_found(entries: Seq<ProxyStatsView>, t: ProxyStatsView)
    requires
        names_unique(entries),
    ensures
        names_unique(register_named(entries, t)),
        index_of_name(register_named(entries, t), t.name) matches Some(i) && register_named(
            entries,
            t,
        )[i] == t,
{
    let r = register_named(entries, t);
    match index_of_name(entries, t.name) {
        Some(i) => {
            assert forall|a: int, b: int| 0 <= a < r.len() && 0 <= b < r.len() && a != b implies r[a].name
                != r[b].name by {
                assert(r[a].name == entries[a].name);
                assert(r[b].name == entries[b].name);
            }
            lemma_index_of_name_at(r, i);
        },
        None => {
            assert forall|a: int, b: int| 0 <= a < r.len() && 0 <= b < r.len() && a != b implies r[a].name
                != r[b].name by {
                if a < entries.len() {
                    assert(r[a] == entries[a]);
                }
                if b < entries.len() {
                    assert(r[b] == entries[b]);
                }
            }
            lemma_index_of_name_at(r, entries.len() as int);
        },
    }
}

/// Once a proxy is unregistered its name finds nothing.
pub proof fn law_unregistered_absent(entries: Seq<ProxyStatsView>, name: Seq<char>)
    requires
        names_unique(entries),
    ensures
        index_of_name(remove_named(entries, name), name) is None,
{
    let r = remove_named(entries, name);
    match index_of_name(entries, name) {
        Some(i) => {
            if exists|a: int| 0 <= a < r.len() && #[trigger] r[a].name == name {
                let a = choose|a: int| 0 <= a < r.len() && #[trigger] r[a].name == name;
                if a < i {
                    assert(r[a] == entries[a]);
                } else {
                    assert(r[a] == entries[a + 1]);
                }
            }
        },
        None => {},
    }
}

/// The counters of every registered proxy, by name. It has one owner: the
/// tasks of a server that count together share it behind one lock, and
/// each counts through it by the proxy's name.
#[derive(Debug)]
pub struct StatsManager {
    proxies: Vec<ProxyStatsTracker>,
}

impl View for StatsManager {
    type V = Seq<ProxyStatsView>;

    closed spec fn view(&self) -> Seq<ProxyStatsView> {
        self.proxies@.map_values(|t: ProxyStatsTracker| t@)
    }
}

impl StatsManager {
    /// Every name occurs once.
    pub open spec fn wf(&self) -> bool {
        names_unique(self@)
    }

    /// No proxy registered.
    pub fn new() -> (m: Self)
        ensures
            m@ == Seq::<ProxyStatsView>::empty(),
            m.wf(),
    {
        StatsManager { proxies: Vec::new() }
    }

    fn find(&self, name: &str) -> (r: Option<usize>)
        ensures
            r matches Some(i) ==> i < self@.len() && self@[i as int].name == name@,
            r is None ==> forall|i: int| 0 <= i < self@.len() ==> self@[i].name != name@,
            self.wf() ==> r == (match index_of_name(self@, name@) {
                Some(i) => Some(i as usize),
                None => None::<usize>,
            }),
    {
        let mut i: usize = 0;
        while i < self.proxies.len()
            invariant
                0 <= i <= self@.len(),
                self@.len() == self.proxies@.len(),
                forall|j: int| 0 <= j < i ==> self@[j].name != name@,
            decreases self@.len() - i,
        {
            if str_eq(self.proxies[i].name(), name) {
                proof {
                    if self.wf() {
                        let k = index_of_name(self@, name@)->Some_0;
                        assert(self@[i as int].name == name@);
                        assert(k == i);
                    }
                }
                return Some(i);
            }
            i = i + 1;
        }
        None
    }

    /// Starts counting for a proxy, replacing the counters of a proxy of the
    /// same name, and gives a snapshot of the fresh counters. Counting goes on
    /// through the manager, by the proxy's name.
    pub fn register_proxy(
        &mut self,
        name: String,
        publish_addr: String,
        publish_port: u16,
        local_port: u16,
    ) -> (s: ProxyStats)
        requires
            old(self).wf(),
        ensures
            s@ == fresh_stats(name@, publish_addr@, publish_port, local_port, s@.start_time),
            final(self)@ == register_named(old(self)@, s@),
            final(self).wf(),
    {
        let tracker = ProxyStatsTracker::new(name, publish_addr, publish_port, local_port);
        let copy = tracker.get_stats();
        match self.find(copy.name.as_str()) {
            Some(i) => {
                self.proxies.set(i, tracker);
            },
            None => {
                self.proxies.push(tracker);
            },
        }
        proof {
            assert(self@ =~= register_named(old(self)@, copy@));
        }
        copy
    }

    /// Stops counting for the proxy named `name`.
    pub fn unregister_proxy(&mut self, name: &str)
        requires
            old(self).wf(),
        ensures
            final(self)@ == remove_named(old(self)@, name@),
            final(self).wf(),
    {
        match self.find(name) {
            Some(i) => {
                self.proxies.remove(i);
                proof {
                    assert(self@ =~= old(self)@.remove(i as int));
                }
            },
            None => {},
        }
    }

    /// Snapshots of every proxy's counters.
    pub fn get_all_stats(&self) -> (v: Vec<ProxyStats>)
        ensures
            v@.map_values(|s: ProxyStats| s@) == self@,
    {
        let mut v: Vec<ProxyStats> = Vec::new();
        let mut i: usize = 0;
        while i < self.proxies.len()
            invariant
                0 <= i <= self.proxies@.len(),
                v@.len() == i,
                forall|j: int| 0 <= j < i ==> #[trigger] v@[j]@ == self.proxies@[j]@,
            decreases self.proxies@.len() - i,
        {
            v.push(self.proxies[i].get_stats());
            i = i + 1;
        }
        proof {
            assert(v@.map_values(|s: ProxyStats| s@) =~= self@);
        }
        v
    }

    /// A snapshot of the counters of the proxy named `name`.
    pub fn get_proxy_stats(&self, name: &str) -> (r: Option<ProxyStats>)
        requires
            self.wf(),
        ensures
            r is None <==> index_of_name(self@, name@) is None,
            r matches Some(s) ==> s@ == self@[index_of_name(self@, name@)->Some_0],
    {
        match self.find(name) {
            Some(i) => Some(self.proxies[i].get_stats()),
            None => None,
        }
    }

    /// Forgets every proxy.
    pub fn clear(&mut self)
        ensures
            final(self)@ == Seq::<ProxyStatsView>::empty(),
            final(self).wf(),
    {
        self.proxies.clear();
        proof {
            assert(self@ =~= Seq::<ProxyStatsView>::empty());
        }
    }

    /// Counts a connection that starts on the proxy named `name`.
    pub fn connection_started(&mut self, name: &str)
        requires
            old(self).wf(),
        ensures
            final(self)@ == update_named(old(self)@, name@, |s: ProxyStatsView| started(s)),
            final(self).wf(),
    {
        match self.find(name) {
            Some(i) => {
                let mut t = self.proxies[i].duplicate();
                t.connection_started();
                self.proxies.set(i, t);
                proof {
                    assert(self@ =~= update_named(old(self)@, name@, |s: ProxyStatsView| started(s)));
                }
            },
            None => {},
        }
    }

    /// Counts a connection that ends on the proxy named `name`.
    pub fn connection_ended(&mut self, name: &str)
        requires
            old(self).wf(),
        ensures
            final(self)@ == update_named(old(self)@, name@, |s: ProxyStatsView| ended(s)),
            final(self).wf(),
    {
        match self.find(name) {
            Some(i) => {
                let mut t = self.proxies[i].duplicate();
                t.connection_ended();
                self.proxies.set(i, t);
                proof {
                    assert(self@ =~= update_named(old(self)@, name@, |s: ProxyStatsView| ended(s)));
                }
            },
            None => {},
        }
    }

    /// Counts bytes sent by the proxy named `name`.
    pub fn add_bytes_sent(&mut self, name: &str, bytes: u64)
        requires
            old(self).wf(),
        ensures
            final(self)@ == update_named(old(self)@, name@, |s: ProxyStatsView| sent(s, bytes)),
            final(self).wf(),
    {
        match self.find(name) {
            Some(i) => {
                let mut t = self.proxies[i].duplicate();
                t.add_bytes_sent(bytes);
                self.proxies.set(i, t);
                proof {
                    assert(self@ =~= update_named(
                        old(self)@,
                        name@,
                        |s: ProxyStatsView| sent(s, bytes),
                    ));
                }
            },
            None => {},
        }
    }

    /// Counts bytes received by the proxy named `name`.
    pub fn add_bytes_received(&mut self, name: &str, bytes: u64)
        requires
            old(self).wf(),
        ensures
            final(self)@ == update_named(
                old(self)@,
                name@,
                |s: ProxyStatsView| received(s, bytes),
            ),
            final(self).wf(),
    {
        match self.find(name) {
            Some(i) => {
                let mut t = self.proxies[i].duplicate();
                t.add_bytes_received(bytes);
                self.proxies.set(i, t);
                proof {
                    assert(self@ =~= update_named(
                        old(self)@,
                        name@,
                        |s: ProxyStatsView| received(s, bytes),
                    ));
                }
            },
            None => {},
        }
    }
}

impl Default for StatsManager {
    fn default() -> (m: Self)
        ensures
            m@ == Seq::<ProxyStatsView>::empty(),
            m.wf(),
    {
        StatsManager::new()
    }
}

/// A connection that starts and then ends leaves the count of active
/// connections as it was and counts one more connection in all; nothing
/// else changes.
pub proof fn law_connection_round_trip(s: ProxyStatsView)
    ensures
        ended(started(s)).active_connections == s.active_connections,
        ended(started(s)).total_connections == wrap_add(s.total_connections, 1),
        ended(started(s)) == (ProxyStatsView { total_connections: wrap_add(s.total_connections, 1), ..s }),
{
}

} // verus!
