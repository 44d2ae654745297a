//! Routing of forwarded connections by the country of their target.
use vstd::prelude::*;

use crate::config::{RoutingConfig, RoutingStrategy};
use crate::text::{push_text, str_eq, text};

verus! {

/// What `str::to_uppercase` makes of a text (Unicode uppercase mapping).
pub uninterp spec fn uppercase(s: Seq<char>) -> Seq<char>;

/// The Unicode uppercase of a text, by `str::to_uppercase`.
#[verifier::external_body]
pub(crate) fn to_uppercase(s: &str) -> (r: String)
    ensures
        r@ == uppercase(s@),
{
    s.to_uppercase()
}

/// Whether the default strategy sends connections directly.
pub open spec fn default_direct(config: RoutingConfig) -> bool {
    config.default_strategy == RoutingStrategy::Direct
}

/// Whether a list of country codes holds `code`.
pub open spec fn lists_code(codes: Seq<String>, code: Seq<char>) -> bool {
    exists|i: int| 0 <= i < codes.len() && codes[i]@ == code
}

/// The decision for an address whose country lookup gave `lookup`: a
/// country listed as direct goes directly, one listed as proxied (when that
/// list is not empty) goes through the tunnel, anything else follows the
/// default strategy.
pub open spec fn country_decision(config: RoutingConfig, lookup: Result<Option<Seq<char>>, Seq<char>>) -> bool {
    match lookup {
        Ok(Some(code)) => if lists_code(config.direct_countries@, code) {
            true
        } else if config.proxy_countries@.len() > 0 && lists_code(config.proxy_countries@, code) {
            false
        } else {
            default_direct(config)
        },
        _ => default_direct(config),
    }
}

/// Routing by country: a country listed in `direct_countries` goes
/// directly; one listed in `proxy_countries` and not as direct goes through
/// the server, whatever the default strategy; any other country, an address
/// without one and a failed lookup follow the default strategy.
pub proof fn law_country_routing(config: RoutingConfig, code: Seq<char>, failure: Seq<char>)
    ensures
        (exists|i: int| 0 <= i < config.direct_countries@.len() && #[trigger] config.direct_countries@[i]@ == code)
            ==> country_decision(config, Ok(Some(code))),
        !(exists|i: int| 0 <= i < config.direct_countries@.len() && #[trigger] config.direct_countries@[i]@ == code)
            && (exists|i: int|
            0 <= i < config.proxy_countries@.len() && #[trigger] config.proxy_countries@[i]@ == code)
            ==> !country_decision(config, Ok(Some(code))),
        !(exists|i: int| 0 <= i < config.direct_countries@.len() && #[trigger] config.direct_countries@[i]@ == code)
            && !(exists|i: int|
            0 <= i < config.proxy_countries@.len() && #[trigger] config.proxy_countries@[i]@ == code)
            ==> country_decision(config, Ok(Some(code))) == (config.default_strategy
            == RoutingStrategy::Direct),
        country_decision(config, Ok(None)) == (config.default_strategy == RoutingStrategy::Direct),
        country_decision(config, Err(failure)) == (config.default_strategy == RoutingStrategy::Direct),
{
}

/// Whether a list of texts holds one equal to `code`.
fn contains_code(codes: &Vec<String>, code: &str) -> (b: bool)
    ensures
        b == lists_code(codes@, code@),
{
    let mut i: usize = 0;
    while i < codes.len()
        invariant
            0 <= i <= codes@.len(),
            forall|j: int| 0 <= j < i ==> codes@[j]@ != code@,
        decreases codes@.len() - i,
    {
        if str_eq(codes[i].as_str(), code) {
            return true;
        }
        i = i + 1;
    }
    false
}

/// Decides by the country of an address, given the lookup's outcome (the
/// code as the database gives it; it is compared in uppercase).
pub fn decide_by_country(config: &RoutingConfig, lookup: Result<Option<String>, String>) -> (b: bool)
    ensures
        b == country_decision(
            *config,
            match lookup {
                Ok(Some(s)) => Ok(Some(uppercase(s@))),
                Ok(None) => Ok(None),
                Err(e) => Err(e@),
            },
        ),
{
    let direct_default = config.default_strategy == RoutingStrategy::Direct;
    match lookup {
        Ok(Some(raw)) => {
            let code = to_uppercase(raw.as_str());
            if contains_code(&config.direct_countries, code.as_str()) {
                true
            } else if config.proxy_countries.len() > 0 && contains_code(
                &config.proxy_countries,
                code.as_str(),
            ) {
                false
            } else {
                direct_default
            }
        },
        _ => direct_default,
    }
}

/// The host part of a routing target: what comes before its last colon.
pub open spec fn routing_host(t: Seq<char>) -> Seq<char> {
    match crate::netaddr::last_index(t, ':') {
        Some(c) => t.subrange(0, c),
        None => t,
    }
}

/// Whether a connection to a target goes directly, given the decisions
/// for its host: `host_ip` is the decision for the host when it is an
/// address; otherwise `resolved` holds the decisions for the addresses it
/// resolves to (`None` when it does not resolve), and any one of them
/// going directly is enough; anything else follows the default strategy.
pub fn decide_target(config: &RoutingConfig, host_ip: Option<bool>, resolved: Option<&[bool]>) -> (b: bool)
    ensures
        b == match host_ip {
            Some(d) => d,
            None => match resolved {
                Some(ds) => (exists|k: int| 0 <= k < ds@.len() && #[trigger] ds@[k]) || default_direct(*config),
                None => default_direct(*config),
            },
        },
{
    match host_ip {
        Some(d) => d,
        None => match resolved {
            Some(ds) => any_true(ds) || config.default_strategy == RoutingStrategy::Direct,
            None => config.default_strategy == RoutingStrategy::Direct,
        },
    }
}

/// Whether any of the decisions is true.
fn any_true(ds: &[bool]) -> (b: bool)
    ensures
        b == (exists|k: int| 0 <= k < ds@.len() && #[trigger] ds@[k]),
{
    let mut i: usize = 0;
    while i < ds.len()
        invariant
            0 <= i <= ds@.len(),
            forall|j: int| 0 <= j < i ==> !ds@[j],
        decreases ds@.len() - i,
    {
        if ds[i] {
            assert(ds@[i as int]);
            return true;
        }
        i = i + 1;
    }
    false
}

/// The host part of a routing target.
pub fn routing_host_text(target: &str) -> (h: String)
    ensures
        h@ == routing_host(target@),
{
    let n = target.unicode_len();
    let mut i: usize = n;
    while i > 0
        invariant
            0 <= i <= n,
            n == target@.len(),
            forall|j: int| i <= j < n ==> target@[j] != ':',
        decreases i,
    {
        if target.get_char(i - 1) == ':' {
            proof {
                let k = (i - 1) as int;
                assert(target@.contains(':'));
                let w = choose|w: int|
                    0 <= w < target@.len() && target@[w] == ':' && forall|j: int|
                        w < j < target@.len() ==> target@[j] != ':';
                if w < k {
                    assert(target@[k] != ':');
                }
                assert(w == k);
            }
            return text(target.substring_char(0, i - 1));
        }
        i = i - 1;
    }
    proof {
        assert(!target@.contains(':'));
    }
    text(target)
}

} // verus!
