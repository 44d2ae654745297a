//! Traffic counters that a client keeps for its proxies and forwarders.
use vstd::prelude::*;

use crate::config::{proxy_type_debug_name, ProxyType};
use crate::stats::{add_wrapping, unix_now_secs, wrap_add};
use crate::text::{str_eq, text};

verus! {

/// `a - 1` on a machine word, wrapping around as the atomic counter does.
pub open spec fn wrap_dec(a: usize) -> usize {
    if a >= 1 {
        (a - 1) as usize
    } else {
        usize::MAX
    }
}

/// A snapshot of a client proxy's counters.
#[derive(Debug)]
pub struct ClientProxyStats {
    pub name: String,
    pub proxy_type: String,
    pub bind_addr: String,
    pub bind_port: u16,
    pub target_addr: String,
    pub target_port: u16,
    pub active_connections: usize,
    pub total_connections: u64,
    pub bytes_sent: u64,
    pub bytes_received: u64,
    pub start_time: u64,
    pub status: String,
}

/// What a client proxy's counters hold, as plain values.
pub struct ClientStatsView {
    pub name: Seq<char>,
    pub proxy_type: ProxyType,
    pub bind_addr: Seq<char>,
    pub bind_port: u16,
    pub target_addr: Seq<char>,
    pub target_port: u16,
    pub active_connections: usize,
    pub total_connections: u64,
    pub bytes_sent: u64,
    pub bytes_received: u64,
    pub start_time: u64,
    pub status: Seq<char>,
}

/// The counters of one client proxy. A tracker has one owner and is not
/// cloned: counters that several tasks update live in a manager.
#[derive(Debug)]
pub struct ClientStatsTracker {
    name: String,
    proxy_type: ProxyType,
    bind_addr: String,
    bind_port: u16,
    target_addr: String,
    target_port: u16,
    active_connections: usize,
    total_connections: u64,
    bytes_sent: u64,
    bytes_received: u64,
    start_time: u64,
    status: String,
}

/// Whether `s` is a snapshot of a tracker holding `t`, its type given by
/// the variant's name.
pub open spec fn snapshot_of(s: ClientProxyStats, t: ClientStatsView) -> bool {
    &&& s.name@ == t.name
    &&& s.proxy_type@ == proxy_type_debug_name(t.proxy_type)
    &&& s.bind_addr@ == t.bind_addr
    &&& s.bind_port == t.bind_port
    &&& s.target_addr@ == t.target_addr
    &&& s.target_port == t.target_port
    &&& s.active_connections == t.active_connections
    &&& s.total_connections == t.total_connections
    &&& s.bytes_sent == t.bytes_sent
    &&& s.bytes_received == t.bytes_received
    &&& s.start_time == t.start_time
    &&& s.status@ == t.status
}

impl View for ClientStatsTracker {
    type V = ClientStatsView;

    closed spec fn view(&self) -> ClientStatsView {
        ClientStatsView {
            name: self.name@,
            proxy_type: self.proxy_type,
            bind_addr: self.bind_addr@,
            bind_port: self.bind_port,
            target_addr: self.target_addr@,
            target_port: self.target_port,
            active_connections: self.active_connections,
            total_connections: self.total_connections,
            bytes_sent: self.bytes_sent,
            bytes_received: self.bytes_received,
            start_time: self.start_time,
            status: self.status@,
        }
    }
}

impl ClientStatsTracker {
    /// Counters equal to these, for updating an entry of a manager.
    fn duplicate(&self) -> (t: Self)
        ensures
            t@ == self@,
    {
        ClientStatsTracker {
            name: self.name.clone(),
            proxy_type: self.proxy_type,
            bind_addr: self.bind_addr.clone(),
            bind_port: self.bind_port,
            target_addr: self.target_addr.clone(),
            target_port: self.target_port,
            active_connections: self.active_connections,
            total_connections: self.total_connections,
            bytes_sent: self.bytes_sent,
            bytes_received: self.bytes_received,
            start_time: self.start_time,
            status: self.status.clone(),
        }
    }
}

/// The counters after a connection starts: one more active and in total,
/// status `Connected`.
pub open spec fn client_started(s: ClientStatsView) -> ClientStatsView {
    ClientStatsView {
        active_connections: if s.active_connections < usize::MAX {
            (s.active_connections + 1) as usize
        } else {
            0
        },
        total_connections: wrap_add(s.total_connections, 1),
        status: "Connected"@,
        ..s
    }
}

/// The counters after a connection ends: one fewer active, status `Idle`
/// once none is left.
pub open spec fn client_ended(s: ClientStatsView) -> ClientStatsView {
    let active = wrap_dec(s.active_connections);
    ClientStatsView {
        active_connections: active,
        status: if active == 0 { "Idle"@ } else { s.status },
        ..s
    }
}

/// The counters after a reset: zero, status `Reset`, start time kept.
pub open spec fn client_reset(s: ClientStatsView) -> ClientStatsView {
    ClientStatsView {
        active_connections: 0,
        total_connections: 0,
        bytes_sent: 0,
        bytes_received: 0,
        status: "Reset"@,
        ..s
    }
}

impl ClientStatsTracker {
    /// Counters for a proxy started at `start_time`: all zero, status `Idle`.
    pub fn new_at(
        name: String,
        proxy_type: ProxyType,
        bind_addr: String,
        bind_port: u16,
        target_addr: String,
        target_port: u16,
        start_time: u64,
    ) -> (t: Self)
        ensures
            t@ == (ClientStatsView {
                name: name@,
                proxy_type,
                bind_addr: bind_addr@,
                bind_port,
                target_addr: target_addr@,
                target_port,
                active_connections: 0,
                total_connections: 0,
                bytes_sent: 0,
                bytes_received: 0,
                start_time,
                status: "Idle"@,
            }),
    {
        proof {
            reveal_strlit("Idle");
        }
        ClientStatsTracker {
            name,
            proxy_type,
            bind_addr,
            bind_port,
            target_addr,
            target_port,
            active_connections: 0,
            total_connections: 0,
            bytes_sent: 0,
            bytes_received: 0,
            start_time,
            status: text("Idle"),
        }
    }

    /// Counters for a proxy started now.
    pub fn new(
        name: String,
        proxy_type: ProxyType,
        bind_addr: String,
        bind_port: u16,
        target_addr: String,
        target_port: u16,
    ) -> (t: Self)
        ensures
            t@ == (ClientStatsView {
                name: name@,
                proxy_type,
                bind_addr: bind_addr@,
                bind_port,
                target_addr: target_addr@,
                target_port,
                active_connections: 0,
                total_connections: 0,
                bytes_sent: 0,
                bytes_received: 0,
                start_time: t@.start_time,
                status: "Idle"@,
            }),
    {
        let now = unix_now_secs();
        Self::new_at(name, proxy_type, bind_addr, bind_port, target_addr, target_port, now)
    }

    /// The proxy's name.
    pub fn name(&self) -> (n: &str)
        ensures
            n@ == self@.name,
    {
        self.name.as_str()
    }

    /// Counts a connection that starts.
    pub fn connection_started(&mut self)
        ensures
            final(self)@ == client_started(old(self)@),
    {
        if self.active_connections < usize::MAX {
            self.active_connections = self.active_connections + 1;
        } else {
            self.active_connections = 0;
        }
        self.total_connections = add_wrapping(self.total_connections, 1);
        self.status = text("Connected");
    }

    /// Counts a connection that ends.
    pub fn connection_ended(&mut self)
        ensures
            final(self)@ == client_ended(old(self)@),
    {
        if self.active_connections >= 1 {
            self.active_connections = self.active_connections - 1;
        } else {
            self.active_connections = usize::MAX;
        }
        if self.active_connections == 0 {
            self.status = text("Idle");
        }
    }

    /// Counts bytes sent.
    pub fn record_bytes_sent(&mut self, bytes: u64)
        ensures
            final(self)@ == (ClientStatsView { bytes_sent: wrap_add(old(self)@.bytes_sent, bytes), ..old(self)@ }),
    {
        self.bytes_sent = add_wrapping(self.bytes_sent, bytes);
    }

    /// Counts bytes received.
    pub fn record_bytes_received(&mut self, bytes: u64)
        ensures
            final(self)@ == (ClientStatsView {
                bytes_received: wrap_add(old(self)@.bytes_received, bytes),
                ..old(self)@
            }),
    {
        self.bytes_received = add_wrapping(self.bytes_received, bytes);
    }

    /// Sets the status text.
    pub fn update_status(&mut self, status: &str)
        ensures
            final(self)@ == (ClientStatsView { status: status@, ..old(self)@ }),
    {
        self.status = text(status);
    }

    /// A snapshot; the type is given by its variant name.
    pub fn snapshot(&self) -> (s: ClientProxyStats)
        ensures
            snapshot_of(s, self@),
    {
        ClientProxyStats {
            name: self.name.clone(),
            proxy_type: text(self.proxy_type.debug_name()),
            bind_addr: self.bind_addr.clone(),
            bind_port: self.bind_port,
            target_addr: self.target_addr.clone(),
            target_port: self.target_port,
            active_connections: self.active_connections,
            total_connections: self.total_connections,
            bytes_sent: self.bytes_sent,
            bytes_received: self.bytes_received,
            start_time: self.start_time,
            status: self.status.clone(),
        }
    }

    /// Zeroes the counters; the start time stays.
    pub fn reset(&mut self)
        ensures
            final(self)@ == client_reset(old(self)@),
    {
        self.active_connections = 0;
        self.total_connections = 0;
        self.bytes_sent = 0;
        self.bytes_received = 0;
        self.status = text("Reset");
    }
}

/// The position of the first tracker named `name`, if any.
pub open spec fn first_named(ts: Seq<ClientStatsView>, name: Seq<char>) -> Option<int> {
    if exists|i: int| 0 <= i < ts.len() && ts[i].name == name {
        Some(
            choose|i: int|
                0 <= i < ts.len() && ts[i].name == name && forall|j: int| 0 <= j < i ==> ts[j].name != name,
        )
    } else {
        None
    }
}

/// The counters of all client proxies, in the order they were added. It
/// has one owner: the tasks of a client that count together share it
/// behind one lock, and each counts through it by the proxy's name.
#[derive(Debug)]
pub struct ClientStatsManager {
    trackers: Vec<ClientStatsTracker>,
}

impl View for ClientStatsManager {
    type V = Seq<ClientStatsView>;

    closed spec fn view(&self) -> Seq<ClientStatsView> {
        self.trackers@.map_values(|t: ClientStatsTracker| t@)
    }
}

impl ClientStatsManager {
    /// No tracker.
    pub fn new() -> (m: Self)
        ensures
            m@ == Seq::<ClientStatsView>::empty(),
    {
        let m = ClientStatsManager { trackers: Vec::new() };
        assert(m@ =~= Seq::<ClientStatsView>::empty());
        m
    }

    fn find(&self, name: &str) -> (r: Option<usize>)
        ensures
            match r {
                Some(i) => first_named(self@, name@) == Some(i as int),
                None => first_named(self@, name@) is None,
            },
            r matches Some(i) ==> i < self@.len(),
    {
        let mut i: usize = 0;
        while i < self.trackers.len()
            invariant
                0 <= i <= self.trackers@.len(),
                self@.len() == self.trackers@.len(),
                forall|j: int| 0 <= j < i ==> self@[j].name != name@,
            decreases self.trackers@.len() - i,
        {
            assert(self@[i as int] == self.trackers@[i as int]@);
            if str_eq(self.trackers[i].name(), name) {
                proof {
                    let w = choose|w: int|
                        0 <= w < self@.len() && self@[w].name == name@ && forall|j: int|
                            0 <= j < w ==> self@[j].name != name@;
                    assert(w == i);
                }
                return Some(i);
            }
            i = i + 1;
        }
        None
    }

    /// Adds a tracker at the end, even if one of the same name exists.
    pub fn add_tracker(&mut self, tracker: ClientStatsTracker)
        ensures
            final(self)@ == old(self)@.push(tracker@),
    {
        let ghost t = tracker@;
        self.trackers.push(tracker);
        assert(self@ =~= old(self)@.push(t));
    }

    /// Replaces the first tracker of the same name, or adds it at the end.
    pub fn add_or_update_tracker(&mut self, tracker: ClientStatsTracker)
        ensures
            final(self)@ == match first_named(old(self)@, tracker@.name) {
                Some(i) => old(self)@.update(i, tracker@),
                None => old(self)@.push(tracker@),
            },
    {
        let ghost t = tracker@;
        match self.find(tracker.name()) {
            Some(i) => {
                self.trackers.set(i, tracker);
                assert(self@ =~= old(self)@.update(i as int, t));
            },
            None => {
                self.trackers.push(tracker);
                assert(self@ =~= old(self)@.push(t));
            },
        }
    }

    /// Snapshots of every tracker, in the order they were added.
    pub fn get_all_stats(&self) -> (v: Vec<ClientProxyStats>)
        ensures
            v@.len() == self@.len(),
            forall|i: int| 0 <= i < v@.len() ==> snapshot_of(#[trigger] v@[i], self@[i]),
    {
        let mut v: Vec<ClientProxyStats> = Vec::new();
        let mut i: usize = 0;
        while i < self.trackers.len()
            invariant
                0 <= i <= self.trackers@.len(),
                self@.len() == self.trackers@.len(),
                v@.len() == i,
                forall|j: int| 0 <= j < i ==> snapshot_of(#[trigger] v@[j], self@[j]),
            decreases self.trackers@.len() - i,
        {
            assert(self@[i as int] == self.trackers@[i as int]@);
            v.push(self.trackers[i].snapshot());
            i = i + 1;
        }
        v
    }

    /// A snapshot of the first tracker named `name`; counting goes on
    /// through the manager, by name.
    pub fn get_tracker(&self, name: &str) -> (r: Option<ClientProxyStats>)
        ensures
            r is None <==> first_named(self@, name@) is None,
            r matches Some(s) ==> snapshot_of(s, self@[first_named(self@, name@)->Some_0]),
    {
        match self.find(name) {
            Some(i) => {
                assert(self@[i as int] == self.trackers@[i as int]@);
                Some(self.trackers[i].snapshot())
            },
            None => None,
        }
    }

    /// Resets every tracker.
    pub fn reset_all(&mut self)
        ensures
            final(self)@ == old(self)@.map_values(|s: ClientStatsView| client_reset(s)),
    {
        let ghost before = self@;
        let mut i: usize = 0;
        while i < self.trackers.len()
            invariant
                0 <= i <= self.trackers@.len(),
                before.len() == self.trackers@.len(),
                forall|j: int| 0 <= j < i ==> #[trigger] self@[j] == client_reset(before[j]),
                forall|j: int| i <= j < before.len() ==> #[trigger] self@[j] == before[j],
            decreases self.trackers@.len() - i,
        {
            let ghost prev = self@;
            assert(prev[i as int] == self.trackers@[i as int]@);
            let mut t = self.trackers[i].duplicate();
            t.reset();
            self.trackers.set(i, t);
            assert(self@ =~= prev.update(i as int, client_reset(before[i as int])));
            i = i + 1;
        }
        assert(self@ =~= before.map_values(|s: ClientStatsView| client_reset(s)));
    }

    /// Counts a connection that starts on the first tracker named `name`.
    pub fn connection_started(&mut self, name: &str)
        ensures
            final(self)@ == match first_named(old(self)@, name@) {
                Some(i) => old(self)@.update(i, client_started(old(self)@[i])),
                None => old(self)@,
            },
    {
        match self.find(name) {
            Some(i) => {
                let mut t = self.trackers[i].duplicate();
                t.connection_started();
                self.trackers.set(i, t);
                assert(self@ =~= old(self)@.update(i as int, client_started(old(self)@[i as int])));
            },
            None => {},
        }
    }

    /// Counts a connection that ends on the first tracker named `name`.
    pub fn connection_ended(&mut self, name: &str)
        ensures
            final(self)@ == match first_named(old(self)@, name@) {
                Some(i) => old(self)@.update(i, client_ended(old(self)@[i])),
                None => old(self)@,
            },
    {
        match self.find(name) {
            Some(i) => {
                let mut t = self.trackers[i].duplicate();
                t.connection_ended();
                self.trackers.set(i, t);
                assert(self@ =~= old(self)@.update(i as int, client_ended(old(self)@[i as int])));
            },
            None => {},
        }
    }

    /// Counts bytes sent through the first tracker named `name`.
    pub fn record_bytes_sent(&mut self, name: &str, bytes: u64)
        ensures
            final(self)@ == match first_named(old(self)@, name@) {
                Some(i) => old(self)@.update(
                    i,
                    ClientStatsView { bytes_sent: wrap_add(old(self)@[i].bytes_sent, bytes), ..old(self)@[i] },
                ),
                None => old(self)@,
            },
    {
        match self.find(name) {
            Some(i) => {
                let mut t = self.trackers[i].duplicate();
                t.record_bytes_sent(bytes);
                self.trackers.set(i, t);
                assert(self@ =~= old(self)@.update(
                    i as int,
                    ClientStatsView {
                        bytes_sent: wrap_add(old(self)@[i as int].bytes_sent, bytes),
                        ..old(self)@[i as int]
                    },
                ));
            },
            None => {},
        }
    }

    /// Counts bytes received through the first tracker named `name`.
    pub fn record_bytes_received(&mut self, name: &str, bytes: u64)
        ensures
            final(self)@ == match first_named(old(self)@, name@) {
                Some(i) => old(self)@.update(
                    i,
                    ClientStatsView {
                        bytes_received: wrap_add(old(self)@[i].bytes_received, bytes),
                        ..old(self)@[i]
                    },
                ),
                None => old(self)@,
            },
    {
        match self.find(name) {
            Some(i) => {
                let mut t = self.trackers[i].duplicate();
                t.record_bytes_received(bytes);
                self.trackers.set(i, t);
                assert(self@ =~= old(self)@.update(
                    i as int,
                    ClientStatsView {
                        bytes_received: wrap_add(old(self)@[i as int].bytes_received, bytes),
                        ..old(self)@[i as int]
                    },
                ));
            },
            None => {},
        }
    }
}

impl Default for ClientStatsManager {
    fn default() -> (m: Self)
        ensures
            m@ == Seq::<ClientStatsView>::empty(),
    {
        ClientStatsManager::new()
    }
}

/// A connection that starts and then ends leaves the count of active
/// connections as it was and counts one more connection in all; the
/// status then reads `Idle` when no other connection is active and
/// `Connected` otherwise.
pub proof fn law_client_connection_round_trip(s: ClientStatsView)
    ensures
        client_ended(client_started(s)).active_connections == s.active_connections,
        client_ended(client_started(s)).total_connections == wrap_add(s.total_connections, 1),
        client_ended(client_started(s)).status == (if s.active_connections == 0 {
            "Idle"@
        } else {
            "Connected"@
        }),
        client_ended(client_started(s)).bytes_sent == s.bytes_sent,
        client_ended(client_started(s)).bytes_received == s.bytes_received,
{
}

} // verus!
