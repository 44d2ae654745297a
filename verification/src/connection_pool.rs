//! Pools of connections to local services, one pool per address.
//!
//! The pool keeps the bookkeeping: which idle connections may be reused,
//! how many are lent out, when a new one may be opened. Opening and
//! checking connections is left to the caller, which hands the pool the
//! connections and the current time (nanoseconds on a monotonic clock).
use vstd::prelude::*;

use crate::client_session::{parse_u64, parsed_u64, setting_or_default};
use crate::config::ProxyType;
use crate::text::{decimal, push_decimal, push_text, str_eq, text};

verus! {

/// What `Duration::from_secs` gives for a number of seconds.
pub uninterp spec fn secs_duration(secs: u64) -> std::time::Duration;

/// What `Duration::from_millis` gives for a number of milliseconds.
pub uninterp spec fn millis_duration(millis: u64) -> std::time::Duration;

/// What `Duration::as_nanos` gives for a duration.
pub uninterp spec fn duration_nanos(d: std::time::Duration) -> u128;

/// A duration of whole seconds, by `Duration::from_secs`.
///
/// Trusted: std documents that it lasts `secs` seconds.
#[verifier::external_body]
pub(crate) fn duration_from_secs(secs: u64) -> (d: std::time::Duration)
    ensures
        d == secs_duration(secs),
        duration_nanos(d) == secs as u128 * 1_000_000_000,
{
    std::time::Duration::from_secs(secs)
}

/// A duration of whole milliseconds, by `Duration::from_millis`.
///
/// Trusted: std documents that it lasts `millis` milliseconds.
#[verifier::external_body]
pub(crate) fn duration_from_millis(millis: u64) -> (d: std::time::Duration)
    ensures
        d == millis_duration(millis),
        duration_nanos(d) == millis as u128 * 1_000_000,
{
    std::time::Duration::from_millis(millis)
}

/// The length of a duration in nanoseconds, by `Duration::as_nanos`.
///
/// Trusted: the result is named `duration_nanos` of the duration.
#[verifier::external_body]
pub(crate) fn nanos_of(d: std::time::Duration) -> (n: u128)
    ensures
        n == duration_nanos(d),
{
    d.as_nanos()
}

/// How a pool behaves.
#[derive(Debug, Clone, Copy)]
pub struct PoolConfig {
    /// Idle connections that warming up aims for.
    pub min_idle: usize,
    /// Connections, lent out and idle, beyond which no new one is opened.
    pub max_size: usize,
    /// How long an idle connection may wait before it is dropped.
    pub max_idle_time: std::time::Duration,
    /// How long opening a connection may take.
    pub connect_timeout: std::time::Duration,
    /// Idle time before the first keepalive probe, if any.
    pub keepalive_time: Option<std::time::Duration>,
    /// Time between keepalive probes, if any.
    pub keepalive_interval: Option<std::time::Duration>,
    /// Whether connections given back are kept for reuse.
    pub reuse_connections: bool,
}

impl Default for PoolConfig {
    fn default() -> (c: Self)
        ensures
            c.min_idle == 2,
            c.max_size == 10,
            c.max_idle_time == secs_duration(60),
            c.connect_timeout == millis_duration(5000),
            c.keepalive_time == Some(secs_duration(30)),
            c.keepalive_interval == Some(secs_duration(10)),
            !c.reuse_connections,
    {
        PoolConfig {
            min_idle: 2,
            max_size: 10,
            max_idle_time: duration_from_secs(60),
            connect_timeout: duration_from_millis(5000),
            keepalive_time: Some(duration_from_secs(30)),
            keepalive_interval: Some(duration_from_secs(10)),
            reuse_connections: false,
        }
    }
}

/// The pool settings for one proxy: connections are reused for types that
/// keep them alive, and a multiplexed proxy keeps exactly one.
pub fn pool_config_for(base: PoolConfig, proxy_type: ProxyType) -> (c: PoolConfig)
    ensures
        c.reuse_connections == (proxy_type == ProxyType::Http11 || proxy_type == ProxyType::Http2),
        proxy_type == ProxyType::Http2 ==> c.max_size == 1 && c.min_idle == 1,
        proxy_type != ProxyType::Http2 ==> c.max_size == base.max_size && c.min_idle
            == base.min_idle,
        c.max_idle_time == base.max_idle_time,
        c.connect_timeout == base.connect_timeout,
        c.keepalive_time == base.keepalive_time,
        c.keepalive_interval == base.keepalive_interval,
{
    let mut c = base;
    c.reuse_connections = proxy_type.should_reuse_connections();
    if proxy_type.is_multiplexed() {
        c.max_size = 1;
        c.min_idle = 1;
    }
    c
}

/// The text of an optional setting.
pub open spec fn opt_str(v: Option<&str>) -> Option<Seq<char>> {
    match v {
        Some(s) => Some(s@),
        None => None,
    }
}

/// A number setting: the number that its text spells, where it has a text
/// and spells one, else the default.
pub open spec fn number_setting(value: Option<Seq<char>>, default: u64) -> u64 {
    match value {
        Some(s) => match parsed_u64(s) {
            Some(n) => n,
            None => default,
        },
        None => default,
    }
}

/// A count setting: as a number setting, where the number fits in `usize`.
pub open spec fn count_setting(value: Option<Seq<char>>, default: usize) -> usize {
    match value {
        Some(s) => match parsed_u64(s) {
            Some(n) => if n <= usize::MAX {
                n as usize
            } else {
                default
            },
            None => default,
        },
        None => default,
    }
}

/// A keepalive setting in seconds: the duration that its text spells, where
/// it has a text and spells a number, else the default.
pub open spec fn keepalive_setting(
    value: Option<Seq<char>>,
    default: Option<std::time::Duration>,
) -> Option<std::time::Duration> {
    match value {
        Some(s) => match parsed_u64(s) {
            Some(n) => Some(secs_duration(n)),
            None => default,
        },
        None => default,
    }
}

fn count_or_default(value: Option<&str>, default: usize) -> (r: usize)
    ensures
        r == count_setting(opt_str(value), default),
{
    match value {
        Some(v) => match parse_u64(v) {
            Some(n) => if n <= usize::MAX as u64 {
                n as usize
            } else {
                default
            },
            None => default,
        },
        None => default,
    }
}

fn keepalive_or_default(value: Option<&str>, default: Option<std::time::Duration>) -> (r: Option<
    std::time::Duration,
>)
    ensures
        r == keepalive_setting(opt_str(value), default),
{
    match value {
        Some(v) => match parse_u64(v) {
            Some(n) => Some(duration_from_secs(n)),
            None => default,
        },
        None => default,
    }
}

/// The pool settings of the client, given the values of their environment
/// variables where set (`POOL_MIN_IDLE`, `POOL_MAX_SIZE`,
/// `POOL_MAX_IDLE_SECS`, `POOL_CONNECT_TIMEOUT_MS`, `POOL_KEEPALIVE_SECS`,
/// `POOL_KEEPALIVE_INTERVAL_SECS`): each value that spells a number
/// overrides the default; connections are reused.
pub fn get_pool_config(
    min_idle: Option<&str>,
    max_size: Option<&str>,
    max_idle_secs: Option<&str>,
    connect_timeout_ms: Option<&str>,
    keepalive_secs: Option<&str>,
    keepalive_interval_secs: Option<&str>,
) -> (c: PoolConfig)
    ensures
        c.min_idle == count_setting(opt_str(min_idle), 2),
        c.max_size == count_setting(opt_str(max_size), 10),
        c.max_idle_time == secs_duration(number_setting(opt_str(max_idle_secs), 60)),
        c.connect_timeout == millis_duration(number_setting(opt_str(connect_timeout_ms), 5000)),
        c.keepalive_time == keepalive_setting(opt_str(keepalive_secs), Some(secs_duration(30))),
        c.keepalive_interval == keepalive_setting(
            opt_str(keepalive_interval_secs),
            Some(secs_duration(10)),
        ),
        c.reuse_connections,
{
    let d = PoolConfig::default();
    PoolConfig {
        min_idle: count_or_default(min_idle, d.min_idle),
        max_size: count_or_default(max_size, d.max_size),
        max_idle_time: duration_from_secs(setting_or_default(max_idle_secs, 60)),
        connect_timeout: duration_from_millis(setting_or_default(connect_timeout_ms, 5000)),
        keepalive_time: keepalive_or_default(keepalive_secs, d.keepalive_time),
        keepalive_interval: keepalive_or_default(keepalive_interval_secs, d.keepalive_interval),
        reuse_connections: true,
    }
}

/// Counts of a pool.
#[derive(Debug, Clone, Copy)]
pub struct PoolStats {
    pub active: usize,
    pub idle: usize,
    pub total: usize,
    pub max_size: usize,
}

/// An idle connection and when it was last used.
pub struct PooledConnection<C> {
    pub stream: C,
    pub created_at: u128,
    pub last_used: u128,
}

/// Whether a connection last used at `last_used` has waited longer than
/// `max_idle` by time `now`.
pub open spec fn expired(last_used: u128, now: u128, max_idle: u128) -> bool {
    (if now >= last_used { now - last_used } else { 0 }) > max_idle
}

impl<C> PooledConnection<C> {
    /// A connection first used at `now`.
    pub fn new(stream: C, now: u128) -> (p: Self)
        ensures
            p.stream == stream,
            p.created_at == now,
            p.last_used == now,
    {
        PooledConnection { stream, created_at: now, last_used: now }
    }

    /// Whether the connection has waited longer than `max_idle` by `now`.
    pub fn is_expired(&self, now: u128, max_idle: u128) -> (b: bool)
        ensures
            b == expired(self.last_used, now, max_idle),
    {
        let elapsed = if now >= self.last_used {
            now - self.last_used
        } else {
            0
        };
        elapsed > max_idle
    }
}

/// What asking a pool for a connection gives.
pub enum Acquire<C> {
    /// An idle connection, lent out now.
    Reused(C),
    /// The pool is full; the message says so.
    Exhausted(String),
    /// The caller may open a new connection and report it with
    /// [`AddressPool::connection_opened`].
    Connect,
}

/// The connections to one address.
pub struct AddressPool<C> {
    address: String,
    config: PoolConfig,
    max_idle_nanos: u128,
    idle_connections: Vec<PooledConnection<C>>,
    active_count: usize,
}

/// The idle connections that have not waited too long.
pub open spec fn fresh<C>(idle: Seq<PooledConnection<C>>, now: u128, max_idle: u128) -> Seq<
    PooledConnection<C>,
>
    decreases idle.len(),
{
    if idle.len() == 0 {
        idle
    } else {
        let r = fresh(idle.drop_last(), now, max_idle);
        if expired(idle.last().last_used, now, max_idle) {
            r
        } else {
            r.push(idle.last())
        }
    }
}

/// A connection given back at `now` is the one lent out next, as long as
/// the next request comes before it has waited too long.
pub proof fn law_returned_connection_reused<C>(
    idle: Seq<PooledConnection<C>>,
    stream: C,
    now: u128,
    later: u128,
    max_idle: u128,
)
    requires
        !expired(now, later, max_idle),
    ensures
        ({
            let f = fresh(idle.push(PooledConnection { stream, created_at: now, last_used: now }), later, max_idle);
            f.len() > 0 && f.last().stream == stream
        }),
{
    let s = idle.push(PooledConnection { stream, created_at: now, last_used: now });
    assert(s.drop_last() =~= idle);
}

/// Dropping stale connections twice at the same time drops nothing more.
pub proof fn law_cleanup_idempotent<C>(idle: Seq<PooledConnection<C>>, now: u128, max_idle: u128)
    ensures
        fresh(fresh(idle, now, max_idle), now, max_idle) == fresh(idle, now, max_idle),
    decreases idle.len(),
{
    if idle.len() > 0 {
        let t = idle.drop_last();
        law_cleanup_idempotent(t, now, max_idle);
        let r = fresh(t, now, max_idle);
        if !expired(idle.last().last_used, now, max_idle) {
            assert(r.push(idle.last()).drop_last() =~= r);
        }
    }
}

/// The message of an exhausted pool.
pub open spec fn exhausted_message(address: Seq<char>, max_size: usize) -> Seq<char> {
    "Connection pool exhausted for "@ + address + " (max: "@ + decimal(max_size as nat) + ")"@
}

impl<C> AddressPool<C> {
    /// The address served.
    pub closed spec fn address_view(&self) -> Seq<char> {
        self.address@
    }

    /// The settings.
    pub closed spec fn config_view(&self) -> PoolConfig {
        self.config
    }

    /// The idle time allowed, in nanoseconds.
    pub closed spec fn max_idle(&self) -> u128 {
        self.max_idle_nanos
    }

    /// The idle connections, oldest first.
    pub closed spec fn idle(&self) -> Seq<PooledConnection<C>> {
        self.idle_connections@
    }

    /// Connections lent out.
    pub closed spec fn active(&self) -> usize {
        self.active_count
    }

    /// An empty pool for `address`.
    pub fn new(address: String, config: PoolConfig) -> (p: Self)
        ensures
            p.address_view() == address@,
            p.config_view() == config,
            p.max_idle() == duration_nanos(config.max_idle_time),
            p.idle().len() == 0,
            p.active() == 0,
    {
        let max_idle_nanos = nanos_of(config.max_idle_time);
        AddressPool { address, config, max_idle_nanos, idle_connections: Vec::new(), active_count: 0 }
    }

    /// Drops the idle connections that waited too long by `now`.
    pub fn cleanup_expired(&mut self, now: u128)
        ensures
            final(self).idle() == fresh(old(self).idle(), now, old(self).max_idle()),
            final(self).active() == old(self).active(),
            final(self).config_view() == old(self).config_view(),
            final(self).address_view() == old(self).address_view(),
            final(self).max_idle() == old(self).max_idle(),
    {
        let mut all: Vec<PooledConnection<C>> = Vec::new();
        std::mem::swap(&mut all, &mut self.idle_connections);
        let ghost before = all@;
        let mut rest: Vec<PooledConnection<C>> = Vec::new();
        proof {
            assert(before =~= all@ + rest@.reverse());
        }
        // Take every connection out; `rest` holds them newest first.
        while all.len() > 0
            invariant
                before == all@ + rest@.reverse(),
            decreases all@.len(),
        {
            let c = all.pop().unwrap();
            rest.push(c);
            proof {
                assert(rest@.reverse() =~= seq![c].add(rest@.drop_last().reverse()));
            }
        }
        proof {
            assert(before =~= rest@.reverse());
        }
        // Go through them oldest first, keeping the fresh ones.
        let mut kept: Vec<PooledConnection<C>> = Vec::new();
        let ghost mut taken: Seq<PooledConnection<C>> = Seq::empty();
        proof {
            assert(before =~= taken + rest@.reverse());
        }
        while rest.len() > 0
            invariant
                before == taken + rest@.reverse(),
                kept@ == fresh(taken, now, self.max_idle_nanos),
            decreases rest@.len(),
        {
            let c = rest.pop().unwrap();
            let exp = c.is_expired(now, self.max_idle_nanos);
            let ghost cv = c;
            proof {
                assert(taken.push(cv).drop_last() =~= taken);
            }
            if !exp {
                kept.push(PooledConnection { stream: c.stream, created_at: c.created_at, last_used: c.last_used });
            }
            proof {
                taken = taken.push(cv);
                assert(before =~= taken + rest@.reverse());
            }
        }
        proof {
            assert(taken =~= before);
        }
        self.idle_connections = kept;
    }

    /// Asks for a connection at time `now`: stale idle connections are
    /// dropped first; then the most recently returned idle one is lent out;
    /// else, if lent and idle connections reach the maximum, the pool is
    /// exhausted; else the caller may open a new one.
    pub fn get_connection(&mut self, now: u128) -> (r: Acquire<C>)
        requires
            old(self).active() < usize::MAX,
        ensures
            ({
                let f = fresh(old(self).idle(), now, old(self).max_idle());
                if f.len() > 0 {
                    &&& r matches Acquire::Reused(c) && c == f.last().stream
                    &&& final(self).idle() == f.drop_last()
                    &&& final(self).active() == old(self).active() + 1
                } else {
                    &&& final(self).idle() == f
                    &&& final(self).active() == old(self).active()
                    &&& (old(self).active() >= old(self).config_view().max_size ==> (r matches Acquire::Exhausted(
                        m,
                    ) && m@ == exhausted_message(old(self).address_view(), old(self).config_view().max_size)))
                    &&& (old(self).active() < old(self).config_view().max_size ==> r is Connect)
                }
            }),
            final(self).config_view() == old(self).config_view(),
            final(self).address_view() == old(self).address_view(),
            final(self).max_idle() == old(self).max_idle(),
    {
        self.cleanup_expired(now);
        if self.idle_connections.len() > 0 {
            let pooled = self.idle_connections.pop().unwrap();
            self.active_count = self.active_count + 1;
            return Acquire::Reused(pooled.stream);
        }
        if self.active_count >= self.config.max_size {
            let mut m = text("Connection pool exhausted for ");
            push_text(&mut m, self.address.as_str());
            push_text(&mut m, " (max: ");
            push_decimal(&mut m, self.config.max_size as u128);
            push_text(&mut m, ")");
            return Acquire::Exhausted(m);
        }
        Acquire::Connect
    }

    /// Whether one more connection can be lent out without the count
    /// overflowing.
    pub fn can_lend(&self) -> (b: bool)
        ensures
            b == (self.active() < usize::MAX),
    {
        self.active_count < usize::MAX
    }

    /// Whether the lent and idle connections can be counted together.
    pub fn counts_fit(&self) -> (b: bool)
        ensures
            b == (self.active() + self.idle().len() <= usize::MAX),
    {
        self.active_count <= usize::MAX - self.idle_connections.len()
    }

    /// Counts a new connection that the caller opened and lends out.
    pub fn connection_opened(&mut self)
        requires
            old(self).active() < usize::MAX,
        ensures
            final(self).active() == old(self).active() + 1,
            final(self).idle() == old(self).idle(),
            final(self).config_view() == old(self).config_view(),
            final(self).address_view() == old(self).address_view(),
            final(self).max_idle() == old(self).max_idle(),
    {
        self.active_count = self.active_count + 1;
    }

    /// Whether giving a connection back stays within the counts: the
    /// connections still lent out after it do not exceed the maximum.
    pub open spec fn return_in_bounds(&self) -> bool {
        self.active() == 0 || self.active() - 1 <= self.config_view().max_size
    }

    /// Whether giving a connection back stays within the counts.
    pub fn can_return(&self) -> (b: bool)
        ensures
            b == self.return_in_bounds(),
    {
        self.active_count == 0 || self.active_count - 1 <= self.config.max_size
    }

    /// Gives a connection back at `now`; `healthy` tells whether it is
    /// still open. It is kept only when reuse is on, it is healthy, and
    /// the idle connections stay below the room that the lent ones leave.
    pub fn return_connection(&mut self, stream: C, healthy: bool, now: u128)
        requires
            old(self).return_in_bounds(),
        ensures
            final(self).active() == (if old(self).active() > 0 { old(self).active() - 1 } else { 0 }),
            ({
                let a = final(self).active();
                let keep = old(self).config_view().reuse_connections && healthy && old(self).idle().len()
                    < old(self).config_view().max_size - a;
                if keep {
                    final(self).idle() == old(self).idle().push(PooledConnection { stream, created_at: now, last_used: now })
                } else {
                    final(self).idle() == old(self).idle()
                }
            }),
            final(self).config_view() == old(self).config_view(),
            final(self).address_view() == old(self).address_view(),
            final(self).max_idle() == old(self).max_idle(),
    {
        if self.active_count > 0 {
            self.active_count = self.active_count - 1;
        }
        if !self.config.reuse_connections {
            return;
        }
        if !healthy {
            return;
        }
        if self.idle_connections.len() >= self.config.max_size - self.active_count {
            return;
        }
        self.idle_connections.push(PooledConnection::new(stream, now));
    }

    /// Counts a lent connection that turned out bad.
    pub fn discard_connection(&mut self)
        ensures
            final(self).active() == (if old(self).active() > 0 { old(self).active() - 1 } else { 0 }),
            final(self).idle() == old(self).idle(),
            final(self).config_view() == old(self).config_view(),
            final(self).address_view() == old(self).address_view(),
            final(self).max_idle() == old(self).max_idle(),
    {
        if self.active_count > 0 {
            self.active_count = self.active_count - 1;
        }
    }

    /// How many connections warming up should open: what the idle ones
    /// lack of the minimum.
    pub fn warmup_target(&self) -> (n: usize)
        ensures
            n == (if self.config_view().min_idle > self.idle().len() {
                self.config_view().min_idle - self.idle().len()
            } else {
                0
            }),
    {
        if self.config.min_idle > self.idle_connections.len() {
            self.config.min_idle - self.idle_connections.len()
        } else {
            0
        }
    }

    /// Adds a connection opened while warming up, at `now`.
    pub fn add_warm_connection(&mut self, stream: C, now: u128)
        ensures
            final(self).idle() == old(self).idle().push(PooledConnection { stream, created_at: now, last_used: now }),
            final(self).active() == old(self).active(),
            final(self).config_view() == old(self).config_view(),
            final(self).address_view() == old(self).address_view(),
            final(self).max_idle() == old(self).max_idle(),
    {
        self.idle_connections.push(PooledConnection::new(stream, now));
    }

    /// The pool's counts.
    pub fn stats(&self) -> (s: PoolStats)
        requires
            self.active() + self.idle().len() <= usize::MAX,
        ensures
            s.active == self.active(),
            s.idle == self.idle().len(),
            s.total == self.active() + self.idle().len(),
            s.max_size == self.config_view().max_size,
    {
        PoolStats {
            active: self.active_count,
            idle: self.idle_connections.len(),
            total: self.active_count + self.idle_connections.len(),
            max_size: self.config.max_size,
        }
    }
}

} // verus!
