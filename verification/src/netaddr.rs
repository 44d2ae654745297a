//! Which targets count as local or private, so that tunnels cannot be
//! used to reach into the networks they start from.
use vstd::prelude::*;

use crate::text::{push_text, str_eq, text};

verus! {

/// An IP address, as the resolver gives it.
#[derive(Debug, Clone, Copy, PartialEq, Eq)]
pub enum IpAddress {
    /// The four octets of an IPv4 address.
    V4(u8, u8, u8, u8),
    /// The eight 16-bit segments of an IPv6 address.
    V6([u16; 8]),
}

/// Loopback (127.0.0.0/8), private (10.0.0.0/8, 172.16.0.0/12,
/// 192.168.0.0/16), link-local (169.254.0.0/16) and "this network"
/// (0.0.0.0/8) IPv4 addresses.
pub open spec fn is_local_v4(a: u8, b: u8) -> bool {
    ||| a == 127
    ||| a == 10
    ||| (a == 172 && 16 <= b <= 31)
    ||| (a == 192 && b == 168)
    ||| (a == 169 && b == 254)
    ||| a == 0
}

/// The IPv6 loopback `::1`, unique local addresses (fc00::/7) and unicast
/// link-local addresses (fe80::/10).
pub open spec fn is_local_v6(s: Seq<u16>) -> bool {
    ||| s =~= seq![0u16, 0, 0, 0, 0, 0, 0, 1]
    ||| (0xfc00 <= s[0] <= 0xfdff)
    ||| (0xfe80 <= s[0] <= 0xfebf)
}

/// Whether an address is loopback, private or link-local.
pub open spec fn is_local_ip(ip: IpAddress) -> bool {
    match ip {
        IpAddress::V4(a, b, _, _) => is_local_v4(a, b),
        IpAddress::V6(s) => is_local_v6(s@),
    }
}

/// Whether an address is loopback, private or link-local.
pub fn ip_is_local(ip: &IpAddress) -> (b: bool)
    ensures
        b == is_local_ip(*ip),
{
    match ip {
        IpAddress::V4(a, b, _, _) => *a == 127 || *a == 10 || (*a == 172 && 16 <= *b && *b <= 31) || (
        *a == 192 && *b == 168) || (*a == 169 && *b == 254) || *a == 0,
        IpAddress::V6(s) => {
            let loopback = s[0] == 0 && s[1] == 0 && s[2] == 0 && s[3] == 0 && s[4] == 0 && s[5] == 0
                && s[6] == 0 && s[7] == 1;
            proof {
                if loopback {
                    assert(s@ =~= seq![0u16, 0, 0, 0, 0, 0, 0, 1]);
                }
                if s@ =~= seq![0u16, 0, 0, 0, 0, 0, 0, 1] {
                    assert(s@[7] == 1);
                }
            }
            loopback || (0xfc00 <= s[0] && s[0] <= 0xfdff) || (0xfe80 <= s[0] && s[0] <= 0xfebf)
        },
    }
}

/// Whether any of the addresses is local.
pub open spec fn any_local(addrs: Seq<IpAddress>) -> bool {
    exists|i: int| 0 <= i < addrs.len() && is_local_ip(#[trigger] addrs[i])
}

/// Whether any of the addresses is local.
pub fn any_address_local(addrs: &[IpAddress]) -> (b: bool)
    ensures
        b == any_local(addrs@),
{
    let mut i: usize = 0;
    while i < addrs.len()
        invariant
            0 <= i <= addrs@.len(),
            forall|j: int| 0 <= j < i ==> !is_local_ip(#[trigger] addrs@[j]),
        decreases addrs@.len() - i,
    {
        if ip_is_local(&addrs[i]) {
            return true;
        }
        i = i + 1;
    }
    false
}

/// The address to resolve for a target: the target itself when it holds a
/// colon, else the target on port 80.
pub open spec fn resolution_address_spec(target: Seq<char>) -> Seq<char> {
    if target.contains(':') {
        target
    } else {
        target + ":80"@
    }
}

/// Whether a text holds a character.
fn contains_char(s: &str, c: char) -> (b: bool)
    ensures
        b == s@.contains(c),
{
    let n = s.unicode_len();
    let mut i: usize = 0;
    while i < n
        invariant
            0 <= i <= n,
            n == s@.len(),
            forall|j: int| 0 <= j < i ==> s@[j] != c,
        decreases n - i,
    {
        if s.get_char(i) == c {
            return true;
        }
        i = i + 1;
    }
    false
}

/// The address to resolve for a target.
pub fn resolution_address(target: &str) -> (s: String)
    ensures
        s@ == resolution_address_spec(target@),
{
    if contains_char(target, ':') {
        text(target)
    } else {
        let mut s = text(target);
        push_text(&mut s, ":80");
        s
    }
}

/// Whether the server refuses to forward to a target: when it cannot be
/// resolved (`None`), or when any address it resolves to is local.
pub fn is_local_address(resolved: Option<&[IpAddress]>) -> (b: bool)
    ensures
        b == match resolved {
            None => true,
            Some(addrs) => any_local(addrs@),
        },
{
    match resolved {
        None => true,
        Some(addrs) => any_address_local(addrs),
    }
}

/// The number of colons in a text.
pub open spec fn colon_count(s: Seq<char>) -> nat
    decreases s.len(),
{
    if s.len() == 0 {
        0
    } else {
        colon_count(s.drop_last()) + if s.last() == ':' { 1nat } else { 0nat }
    }
}

/// The position of the first occurrence of `c`, if any.
pub open spec fn first_index(s: Seq<char>, c: char) -> Option<int> {
    if s.contains(c) {
        Some(choose|i: int| 0 <= i < s.len() && s[i] == c && forall|j: int| 0 <= j < i ==> s[j] != c)
    } else {
        None
    }
}

/// The position of the last occurrence of `c`, if any.
pub open spec fn last_index(s: Seq<char>, c: char) -> Option<int> {
    if s.contains(c) {
        Some(
            choose|i: int|
                0 <= i < s.len() && s[i] == c && forall|j: int| i < j < s.len() ==> s[j] != c,
        )
    } else {
        None
    }
}

/// Whether taking the host out of a target slices inside a character (the
/// target has several colons, a `]`, and the first `]` comes first, or the
/// first character is not ASCII).
pub open spec fn host_slice_fails(t: Seq<char>) -> bool {
    colon_count(t) > 1 && match first_index(t, ']') {
        Some(k) => k == 0 || t[0] as u32 >= 0x80,
        None => false,
    }
}

/// The host part of a target: `[v6]:port` gives `v6`, a bare IPv6 address
/// stays whole, `host:port` gives `host`, and a target without colon is the
/// host itself.
pub open spec fn target_host(t: Seq<char>) -> Seq<char> {
    match last_index(t, ':') {
        Some(colon) => if colon_count(t) > 1 {
            match first_index(t, ']') {
                Some(k) => t.subrange(1, k),
                None => t,
            }
        } else {
            t.subrange(0, colon)
        },
        None => t,
    }
}

/// Host names refused without resolving.
pub open spec fn is_named_local(host: Seq<char>) -> bool {
    host == "localhost"@ || host == "127.0.0.1"@ || host == "::1"@
}

/// Whether the host of a direct target can be taken out.
pub fn direct_target_checkable(target: &str) -> (b: bool)
    ensures
        b == !host_slice_fails(target@),
{
    let (colons, first_bracket, _last_colon) = scan_target(target);
    if colons > 1 {
        match first_bracket {
            Some(k) => !(k == 0 || (target.get_char(0) as u32) >= 0x80),
            None => true,
        }
    } else {
        true
    }
}

/// Counts colons and finds the first `]` and the last `:`.
fn scan_target(t: &str) -> (r: (usize, Option<usize>, Option<usize>))
    ensures
        r.0 == colon_count(t@),
        r.1 matches Some(k) ==> k < t@.len(),
        r.2 matches Some(k) ==> k < t@.len(),
        match r.1 {
            Some(k) => first_index(t@, ']') == Some(k as int),
            None => first_index(t@, ']') is None,
        },
        match r.2 {
            Some(k) => last_index(t@, ':') == Some(k as int),
            None => last_index(t@, ':') is None,
        },
{
    let n = t.unicode_len();
    let mut colons: usize = 0;
    let mut bracket: Option<usize> = None;
    let mut last: Option<usize> = None;
    let mut i: usize = 0;
    while i < n
        invariant
            0 <= i <= n,
            n == t@.len(),
            colons == colon_count(t@.subrange(0, i as int)),
            colons <= i,
            match bracket {
                Some(k) => k < i && t@[k as int] == ']' && forall|j: int| 0 <= j < k ==> t@[j] != ']',
                None => forall|j: int| 0 <= j < i ==> t@[j] != ']',
            },
            match last {
                Some(k) => k < i && t@[k as int] == ':' && forall|j: int| k < j < i ==> t@[j] != ':',
                None => forall|j: int| 0 <= j < i ==> t@[j] != ':',
            },
        decreases n - i,
    {
        let c = t.get_char(i);
        proof {
            assert(t@.subrange(0, i + 1).drop_last() =~= t@.subrange(0, i as int));
        }
        if c == ':' {
            colons = colons + 1;
            last = Some(i);
        }
        if c == ']' && bracket.is_none() {
            bracket = Some(i);
        }
        i = i + 1;
    }
    proof {
        assert(t@.subrange(0, n as int) =~= t@);
        match bracket {
            Some(k) => {
                assert(t@.contains(']'));
                let w = choose|w: int| 0 <= w < t@.len() && t@[w] == ']' && forall|j: int| 0 <= j < w ==> t@[j] != ']';
                assert(w == k);
            },
            None => {
                assert(!t@.contains(']'));
            },
        }
        match last {
            Some(k) => {
                assert(t@.contains(':'));
                let w = choose|w: int| 0 <= w < t@.len() && t@[w] == ':' && forall|j: int| w < j < t@.len() ==> t@[j] != ':';
                assert(w == k);
            },
            None => {
                assert(!t@.contains(':'));
            },
        }
    }
    (colons, bracket, last)
}

/// The host part of a direct target.
pub fn direct_target_host(target: &str) -> (h: String)
    requires
        !host_slice_fails(target@),
    ensures
        h@ == target_host(target@),
{
    let (colons, first_bracket, last_colon) = scan_target(target);
    match last_colon {
        Some(colon) => {
            if colons > 1 {
                match first_bracket {
                    Some(k) => text(target.substring_char(1, k)),
                    None => text(target),
                }
            } else {
                text(target.substring_char(0, colon))
            }
        },
        None => text(target),
    }
}

/// Whether a direct target is refused by its name alone.
pub fn unsafe_by_name(target: &str) -> (b: bool)
    requires
        !host_slice_fails(target@),
    ensures
        b == is_named_local(target_host(target@)),
{
    let host = direct_target_host(target);
    proof {
        reveal_strlit("localhost");
        reveal_strlit("127.0.0.1");
        reveal_strlit("::1");
    }
    str_eq(host.as_str(), "localhost") || str_eq(host.as_str(), "127.0.0.1") || str_eq(
        host.as_str(),
        "::1",
    )
}

/// Whether a client refuses to connect directly to a target: when its
/// host is named local, or when any address it resolves to is local. A
/// target that cannot be resolved (`None`) is let through, and its
/// connection attempt fails on its own.
pub fn is_unsafe_direct_target(target: &str, resolved: Option<&[IpAddress]>) -> (b: bool)
    requires
        !host_slice_fails(target@),
    ensures
        b == (is_named_local(target_host(target@)) || match resolved {
            None => false,
            Some(addrs) => any_local(addrs@),
        }),
{
    if unsafe_by_name(target) {
        return true;
    }
    match resolved {
        None => false,
        Some(addrs) => any_address_local(addrs),
    }
}

} // verus!
