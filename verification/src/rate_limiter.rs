//! Settings for admitting new connections at a bounded rate.
use vstd::prelude::*;

verus! {

/// How many new connections are admitted: a steady rate per second and a
/// burst that may come at once.
#[derive(Debug, Clone, Copy)]
pub struct RateLimiterConfig {
    pub requests_per_second: u32,
    pub burst_size: u32,
}

impl Default for RateLimiterConfig {
    fn default() -> (c: Self)
        ensures
            c.requests_per_second == 100,
            c.burst_size == 200,
    {
        RateLimiterConfig { requests_per_second: 100, burst_size: 200 }
    }
}

impl RateLimiterConfig {
    /// Whether a limiter can be built from these settings: both numbers
    /// must be positive.
    pub fn is_usable(&self) -> (b: bool)
        ensures
            b == (self.requests_per_second > 0 && self.burst_size > 0),
    {
        self.requests_per_second > 0 && self.burst_size > 0
    }
}

} // verus!
