//! The client's side of a session: what it does on each control event, and
//! the decisions of the streams the server opens to it.
use vstd::prelude::*;

use crate::config::{ProxyConfig, ProxyType, VisitorConfig};
use crate::frames::PROTOCOL_VERSION;
use crate::text::{decimal, push_decimal, push_text, text};

verus! {

/// Where the client's session stands.
#[derive(Debug, Clone, Copy, PartialEq, Eq, Structural)]
pub enum ClientState {
    Authenticating,
    Authenticated,
    ConfiguringProxy,
    Running,
}

/// What the control channel reports to the session.
#[derive(Debug, Clone, PartialEq, Eq)]
pub enum ClientEvent {
    AuthenticationSuccess { client_id: String },
    AuthenticationFailed { reason: String },
    ConfigAccepted,
    ConfigPartiallyRejected { rejected_proxies: Vec<String> },
    ConfigRejected { rejected_proxies: Vec<String> },
    ConnectionClosed,
}

/// What the session does next.
#[derive(Debug, Clone, PartialEq, Eq)]
pub enum ClientAction {
    /// Set up pools and counters, then submit the configuration.
    InitializeAndSubmit,
    /// Start the visitor and forwarder listeners.
    StartListeners,
    /// Tell the listeners and end the session normally.
    Shutdown,
    /// End the session with this error.
    Fail(String),
}

/// The session's reaction to an event.
pub open spec fn next_state(s: ClientState, e: ClientEvent) -> ClientState {
    match e {
        ClientEvent::AuthenticationSuccess { .. } => ClientState::Authenticated,
        ClientEvent::ConfigAccepted => ClientState::Running,
        ClientEvent::ConfigPartiallyRejected { .. } => ClientState::Running,
        _ => s,
    }
}

/// The client's view of its session.
#[derive(Debug)]
pub struct ClientSession {
    state: ClientState,
}

impl ClientSession {
    /// Where the session stands.
    pub closed spec fn state_view(&self) -> ClientState {
        self.state
    }

    /// A session that has just sent its key.
    pub fn new() -> (s: Self)
        ensures
            s.state_view() == ClientState::Authenticating,
    {
        ClientSession { state: ClientState::Authenticating }
    }

    /// Where the session stands.
    pub fn state(&self) -> (st: ClientState)
        ensures
            st == self.state_view(),
    {
        self.state
    }

    /// Reacts to a control event: authentication success leads to setting
    /// up and submitting, an accepted (or partly accepted) configuration
    /// starts the listeners, a failed authentication or a rejected
    /// configuration ends the session with an error, and a closed channel
    /// ends it normally.
    pub fn handle_event(&mut self, event: &ClientEvent) -> (a: ClientAction)
        ensures
            final(self).state_view() == next_state(old(self).state_view(), *event),
            match *event {
                ClientEvent::AuthenticationSuccess { .. } => a == ClientAction::InitializeAndSubmit,
                ClientEvent::AuthenticationFailed { reason } => a matches ClientAction::Fail(m) && m@
                    == "Authentication failed: "@ + reason@,
                ClientEvent::ConfigAccepted => a == ClientAction::StartListeners,
                ClientEvent::ConfigPartiallyRejected { .. } => a == ClientAction::StartListeners,
                ClientEvent::ConfigRejected { .. } => a matches ClientAction::Fail(m) && m@
                    == "All proxies rejected"@,
                ClientEvent::ConnectionClosed => a == ClientAction::Shutdown,
            },
    {
        match event {
            ClientEvent::AuthenticationSuccess { .. } => {
                self.state = ClientState::Authenticated;
                ClientAction::InitializeAndSubmit
            },
            ClientEvent::AuthenticationFailed { reason } => {
                let mut m = text("Authentication failed: ");
                push_text(&mut m, reason.as_str());
                ClientAction::Fail(m)
            },
            ClientEvent::ConfigAccepted => {
                self.state = ClientState::Running;
                ClientAction::StartListeners
            },
            ClientEvent::ConfigPartiallyRejected { .. } => {
                self.state = ClientState::Running;
                ClientAction::StartListeners
            },
            ClientEvent::ConfigRejected { .. } => ClientAction::Fail(text("All proxies rejected")),
            ClientEvent::ConnectionClosed => ClientAction::Shutdown,
        }
    }

    /// Records that the configuration was sent.
    pub fn config_submitted(&mut self)
        ensures
            final(self).state_view() == ClientState::ConfiguringProxy,
    {
        self.state = ClientState::ConfiguringProxy;
    }

    /// Whether streams that the server opens are served: only while the
    /// session runs.
    pub fn serves_inbound_streams(&self) -> (b: bool)
        ensures
            b == (self.state_view() == ClientState::Running),
    {
        self.state == ClientState::Running
    }

    /// Whether heartbeats are sent: only while the session runs.
    pub fn sends_heartbeats(&self) -> (b: bool)
        ensures
            b == (self.state_view() == ClientState::Running),
    {
        self.state == ClientState::Running
    }
}

/// The event for a successful answer to the configuration: accepted when
/// nothing was rejected.
pub fn config_result_event(rejected_proxies: Vec<String>) -> (e: ClientEvent)
    ensures
        rejected_proxies@.len() == 0 ==> e == ClientEvent::ConfigAccepted,
        rejected_proxies@.len() > 0 ==> e == (ClientEvent::ConfigPartiallyRejected {
            rejected_proxies,
        }),
{
    if rejected_proxies.len() == 0 {
        ClientEvent::ConfigAccepted
    } else {
        ClientEvent::ConfigPartiallyRejected { rejected_proxies }
    }
}

/// The event for an error answer to the configuration: the rejected keys
/// that the error's data lists, or else its message alone.
pub fn config_error_event(message: String, data_rejected: Option<Vec<String>>) -> (e: ClientEvent)
    ensures
        e matches ClientEvent::ConfigRejected { rejected_proxies } && rejected_proxies@.map_values(
            |s: String| s@,
        ) == match data_rejected {
            Some(v) => v@.map_values(|s: String| s@),
            None => seq![message@],
        },
{
    let rejected_proxies = match data_rejected {
        Some(v) => v,
        None => {
            let mut v: Vec<String> = Vec::new();
            v.push(message);
            proof {
                assert(v@.map_values(|s: String| s@) =~= seq![message@]);
            }
            v
        },
    };
    ClientEvent::ConfigRejected { rejected_proxies }
}

/// The first proxy whose publish port is `port`.
pub open spec fn proxy_for_port(proxies: Seq<ProxyConfig>, port: u16) -> Option<int> {
    if exists|i: int| 0 <= i < proxies.len() && proxies[i].publish_port == port {
        Some(
            choose|i: int|
                0 <= i < proxies.len() && proxies[i].publish_port == port && forall|j: int|
                    0 <= j < i ==> proxies[j].publish_port != port,
        )
    } else {
        None
    }
}

/// The proxy that a stream from the server is for, by the publish port
/// that the stream starts with.
pub fn find_proxy_by_publish_port(proxies: &[ProxyConfig], port: u16) -> (r: Option<usize>)
    ensures
        match r {
            Some(i) => proxy_for_port(proxies@, port) == Some(i as int),
            None => proxy_for_port(proxies@, port) is None,
        },
        r matches Some(i) ==> i < proxies@.len(),
{
    let mut i: usize = 0;
    while i < proxies.len()
        invariant
            0 <= i <= proxies@.len(),
            forall|j: int| 0 <= j < i ==> proxies@[j].publish_port != port,
        decreases proxies@.len() - i,
    {
        if proxies[i].publish_port == port {
            proof {
                let w = choose|w: int|
                    0 <= w < proxies@.len() && proxies@[w].publish_port == port && forall|j: int|
                        0 <= j < w ==> proxies@[j].publish_port != port;
                assert(w == i);
            }
            return Some(i);
        }
        i = i + 1;
    }
    None
}

/// The error when no proxy has the stream's publish port.
pub fn no_proxy_for_port_text(port: u16) -> (s: String)
    ensures
        s@ == "No proxy config found for publish_port "@ + decimal(port as nat),
{
    let mut s = text("No proxy config found for publish_port ");
    push_decimal(&mut s, port as u128);
    s
}

/// The error when no pool serves the stream's publish port.
pub fn no_pool_for_port_text(port: u16) -> (s: String)
    ensures
        s@ == "No connection pool found for publish_port "@ + decimal(port as nat),
{
    let mut s = text("No connection pool found for publish_port ");
    push_decimal(&mut s, port as u128);
    s
}

/// The address of a local service.
pub fn local_service_address(local_port: u16) -> (s: String)
    ensures
        s@ == "127.0.0.1:"@ + decimal(local_port as nat),
{
    let mut s = text("127.0.0.1:");
    push_decimal(&mut s, local_port as u128);
    s
}

/// What becomes of a local connection after a transfer.
#[derive(Debug, Clone, Copy, PartialEq, Eq, Structural)]
pub enum PoolReturn {
    /// Back to the pool for reuse.
    Return,
    /// Dropped, and the pool's count corrected.
    Discard,
    /// Dropped; it never came from the pool.
    Drop,
}

/// What the stream handler does after a transfer.
#[derive(Debug, Clone, Copy, PartialEq, Eq, Structural)]
pub enum StreamNext {
    /// The stream is done.
    Done,
    /// Connect to the local service again and retry, once.
    Retry,
    /// Give up after the retry.
    Fail,
}

/// After a transfer between a stream and a local connection: a clean end
/// gives a pooled connection of a reusable type back (other pooled ones
/// are discarded) and ends; an error discards a pooled connection and
/// retries once, then fails.
pub fn after_transfer(ok: bool, pooled: bool, proxy_type: ProxyType, attempted_retry: bool) -> (r: (
    PoolReturn,
    StreamNext,
))
    ensures
        ok ==> r.1 == StreamNext::Done,
        ok && pooled && (proxy_type == ProxyType::Http11 || proxy_type == ProxyType::Http2) ==> r.0
            == PoolReturn::Return,
        ok && !(pooled && (proxy_type == ProxyType::Http11 || proxy_type == ProxyType::Http2))
            ==> r.0 == PoolReturn::Discard,
        !ok && pooled ==> r.0 == PoolReturn::Discard,
        !ok && !pooled ==> r.0 == PoolReturn::Drop,
        !ok && attempted_retry ==> r.1 == StreamNext::Fail,
        !ok && !attempted_retry ==> r.1 == StreamNext::Retry,
{
    if ok {
        if pooled && proxy_type.should_reuse_connections() {
            (PoolReturn::Return, StreamNext::Done)
        } else {
            (PoolReturn::Discard, StreamNext::Done)
        }
    } else {
        let p = if pooled {
            PoolReturn::Discard
        } else {
            PoolReturn::Drop
        };
        let n = if attempted_retry {
            StreamNext::Fail
        } else {
            StreamNext::Retry
        };
        (p, n)
    }
}

/// Whether a failed attempt to reach a local service is followed by
/// another: attempts run from 1 to `max_retries`.
pub fn retry_local_connect(attempt: u32, max_retries: u32) -> (b: bool)
    ensures
        b == (attempt < max_retries),
{
    attempt < max_retries
}

/// The value of a decimal text as `str::parse` reads an unsigned number:
/// an optional `+`, then at least one ASCII digit and nothing else.
pub open spec fn digits_value(s: Seq<char>) -> Option<nat>
    decreases s.len(),
{
    if s.len() == 0 {
        None
    } else {
        let c = s.last();
        if '0' <= c <= '9' {
            let d = (c as nat - '0' as nat) as nat;
            if s.len() == 1 {
                Some(d)
            } else if s.len() == 2 && s[0] == '+' {
                Some(d)
            } else {
                match digits_value(s.drop_last()) {
                    Some(v) => Some(v * 10 + d),
                    None => None,
                }
            }
        } else {
            None
        }
    }
}

/// The `u64` that a text parses to, if any.
pub open spec fn parsed_u64(s: Seq<char>) -> Option<u64> {
    match digits_value(s) {
        Some(v) => if v <= u64::MAX {
            Some(v as u64)
        } else {
            None
        },
        None => None,
    }
}

/// Parses an unsigned decimal number, as `str::parse::<u64>` does.
pub fn parse_u64(s: &str) -> (r: Option<u64>)
    ensures
        r == parsed_u64(s@),
{
    let n = s.unicode_len();
    if n == 0 {
        return None;
    }
    let mut start: usize = 0;
    if s.get_char(0) == '+' {
        if n == 1 {
            proof {
                assert(s@.last() == '+');
            }
            return None;
        }
        start = 1;
    }
    let mut v: u128 = 0;
    let mut i: usize = start;
    let mut overflow = false;
    while i < n
        invariant
            start <= i <= n,
            n == s@.len(),
            n >= 1,
            start == 0 || (start == 1 && s@[0] == '+' && n >= 2),
            start == 0 ==> s@[0] != '+',
            i > start ==> digits_value(s@.subrange(0, i as int)) is Some,
            !overflow ==> v <= u64::MAX,
            !overflow && i > start ==> digits_value(s@.subrange(0, i as int)) == Some(v as nat),
            overflow ==> i > start && digits_value(s@.subrange(0, i as int)) is Some && digits_value(
                s@.subrange(0, i as int),
            )->Some_0 > u64::MAX,
            forall|j: int| start <= j < i ==> '0' <= #[trigger] s@[j] <= '9',
        decreases n - i,
    {
        let c = s.get_char(i);
        if !('0' <= c && c <= '9') {
            proof {
                lemma_digits_fail(s@, i as int, start as int);
            }
            return None;
        }
        let d = (c as u32 - '0' as u32) as u128;
        proof {
            let t = s@.subrange(0, i + 1);
            assert(t.drop_last() =~= s@.subrange(0, i as int));
            assert(t.last() == c);
            if i == start {
                if start == 1 {
                    assert(t.len() == 2 && t[0] == '+');
                }
            } else {
                assert(t.len() != 1);
                assert(!(t.len() == 2 && t[0] == '+')) by {
                    if t.len() == 2 {
                        assert(start == 0);
                        assert('0' <= s@[0] <= '9');
                    }
                }
            }
        }
        if !overflow {
            if i == start {
                v = d;
            } else {
                v = v * 10 + d;
            }
            if v > u64::MAX as u128 {
                overflow = true;
            }
        }
        i = i + 1;
    }
    proof {
        assert(s@.subrange(0, n as int) =~= s@);
    }
    if overflow {
        None
    } else {
        Some(v as u64)
    }
}

/// A text with a non-digit after the sign has no value.
proof fn lemma_digits_fail(s: Seq<char>, i: int, start: int)
    requires
        0 <= start <= i < s.len(),
        !('0' <= s[i] <= '9'),
        start == 0 || (start == 1 && s[0] == '+'),
        start == 0 ==> s[0] != '+',
        forall|j: int| start <= j < i ==> '0' <= #[trigger] s[j] <= '9',
    ensures
        digits_value(s) is None,
    decreases s.len(),
{
    if s.len() - 1 == i {
    } else {
        lemma_digits_fail(s.drop_last(), i, start);
        let t = s.drop_last();
        assert(t.len() >= 1);
    }
}

/// A setting read from an environment variable: its value when it parses,
/// else the default.
pub fn setting_or_default(value: Option<&str>, default: u64) -> (r: u64)
    ensures
        r == match value {
            Some(v) => match parsed_u64(v@) {
                Some(n) => n,
                None => default,
            },
            None => default,
        },
{
    match value {
        Some(v) => match parse_u64(v) {
            Some(n) => n,
            None => default,
        },
        None => default,
    }
}

/// Seconds between reconnection attempts when nothing overrides it.
pub const RECONNECT_DELAY_SECS: u64 = 5;

/// Attempts at reaching a local service when nothing overrides it.
pub const LOCAL_CONNECT_RETRIES: u32 = 3;

/// Milliseconds between attempts at reaching a local service when nothing
/// overrides it.
pub const LOCAL_RETRY_DELAY_MS: u64 = 1000;

/// The reconnection delay in seconds, given the value of its environment
/// variable where one is set.
pub fn get_reconnect_delay(env_value: Option<&str>) -> (r: u64)
    ensures
        r == match env_value {
            Some(v) => match parsed_u64(v@) {
                Some(n) => n,
                None => RECONNECT_DELAY_SECS,
            },
            None => RECONNECT_DELAY_SECS,
        },
{
    setting_or_default(env_value, RECONNECT_DELAY_SECS)
}

/// The delay in milliseconds between attempts at a local service, given the
/// value of its environment variable where one is set.
pub fn get_local_retry_delay(env_value: Option<&str>) -> (r: u64)
    ensures
        r == match env_value {
            Some(v) => match parsed_u64(v@) {
                Some(n) => n,
                None => LOCAL_RETRY_DELAY_MS,
            },
            None => LOCAL_RETRY_DELAY_MS,
        },
{
    setting_or_default(env_value, LOCAL_RETRY_DELAY_MS)
}

/// The number of attempts at a local service, given the value of its
/// environment variable where one is set: a value that does not fit in a
/// `u32` counts as unset.
pub fn get_local_retries(env_value: Option<&str>) -> (r: u32)
    ensures
        r == match env_value {
            Some(v) => match parsed_u64(v@) {
                Some(n) => if n <= u32::MAX {
                    n as u32
                } else {
                    LOCAL_CONNECT_RETRIES
                },
                None => LOCAL_CONNECT_RETRIES,
            },
            None => LOCAL_CONNECT_RETRIES,
        },
{
    match env_value {
        Some(v) => match parse_u64(v) {
            Some(n) => if n <= u32::MAX as u64 {
                n as u32
            } else {
                LOCAL_CONNECT_RETRIES
            },
            None => LOCAL_CONNECT_RETRIES,
        },
        None => LOCAL_CONNECT_RETRIES,
    }
}

/// The configuration message a client sends after authenticating: the
/// protocol version, its proxies and its visitors.
#[derive(Debug, Clone)]
pub struct ClientConfigMessage {
    pub version: u8,
    pub proxies: Vec<ProxyConfig>,
    pub visitors: Vec<VisitorConfig>,
}

impl ClientConfigMessage {
    /// The message for a client's proxies and visitors, at this protocol's
    /// version.
    pub fn new(proxies: Vec<ProxyConfig>, visitors: Vec<VisitorConfig>) -> (m: Self)
        ensures
            m.version == PROTOCOL_VERSION,
            m.proxies@ == proxies@,
            m.visitors@ == visitors@,
    {
        ClientConfigMessage { version: PROTOCOL_VERSION, proxies, visitors }
    }
}

} // verus!
