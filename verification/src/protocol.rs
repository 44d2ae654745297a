use vstd::prelude::*;

verus! {

/// The server's answer to a submitted configuration.
#[derive(Debug)]
pub struct ConfigStatusResponse {
    /// Whether the configuration was accepted (possibly in part).
    pub accepted: bool,
    /// The proxies refused (taken by another client).
    pub rejected_proxies: Vec<String>,
}

impl ConfigStatusResponse {
    /// Everything accepted.
    pub fn accepted() -> (r: Self)
        ensures
            r.accepted,
            r.rejected_proxies@.len() == 0,
    {
        ConfigStatusResponse { accepted: true, rejected_proxies: Vec::new() }
    }

    /// Accepted except the proxies named.
    pub fn partially_rejected(rejected: Vec<String>) -> (r: Self)
        ensures
            r.accepted,
            r.rejected_proxies@ == rejected@,
    {
        ConfigStatusResponse { accepted: true, rejected_proxies: rejected }
    }

    /// Everything refused.
    pub fn all_rejected(rejected: Vec<String>) -> (r: Self)
        ensures
            !r.accepted,
            r.rejected_proxies@ == rejected@,
    {
        ConfigStatusResponse { accepted: false, rejected_proxies: rejected }
    }

    /// Whether any proxy was refused.
    pub fn has_rejected(&self) -> (r: bool)
        ensures
            r <==> self.rejected_proxies@.len() > 0,
    {
        self.rejected_proxies.len() != 0
    }
}

} // verus!
