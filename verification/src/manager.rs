//! One place that holds the local handlers (visitors and forwarders) of a
//! client.
use vstd::prelude::*;

use crate::config::ProxyType;

verus! {

/// Where a handler stands.
#[derive(Debug, Clone, PartialEq, Eq)]
pub enum HandlerStatus {
    Starting,
    Running,
    Stopping,
    Stopped,
    /// Failed, with the error's message.
    Failed(String),
}

/// What a [`HandlerStatus`] holds, as plain values.
pub enum HandlerStatusView {
    Starting,
    Running,
    Stopping,
    Stopped,
    Failed(Seq<char>),
}

impl View for HandlerStatus {
    type V = HandlerStatusView;

    open spec fn view(&self) -> HandlerStatusView {
        match self {
            HandlerStatus::Starting => HandlerStatusView::Starting,
            HandlerStatus::Running => HandlerStatusView::Running,
            HandlerStatus::Stopping => HandlerStatusView::Stopping,
            HandlerStatus::Stopped => HandlerStatusView::Stopped,
            HandlerStatus::Failed(m) => HandlerStatusView::Failed(m@),
        }
    }
}

impl HandlerStatus {
    /// Whether a handler with this status counts as healthy: only while it
    /// runs.
    pub fn is_healthy(&self) -> (b: bool)
        ensures
            b == (self@ is Running),
    {
        match self {
            HandlerStatus::Running => true,
            _ => false,
        }
    }
}

/// A local handler of a client, such as a visitor or a forwarder. Users
/// of the library implement it; what its methods report is up to them.
pub trait ProxyHandler {
    /// The handler's status.
    fn status(&self) -> HandlerStatus;

    /// The handler's name.
    fn name(&self) -> &str;

    /// The handler's kind.
    fn proxy_type(&self) -> ProxyType;

    /// The handler's listening address, as `addr:port`.
    fn bind_address(&self) -> String;
}

/// The handlers of a client, in the order they were added.
pub struct ProxyManager<H: ProxyHandler> {
    handlers: Vec<H>,
}

impl<H: ProxyHandler> ProxyManager<H> {
    /// The handlers.
    pub closed spec fn handlers_view(&self) -> Seq<H> {
        self.handlers@
    }

    /// No handler.
    pub fn new() -> (m: Self)
        ensures
            m.handlers_view() == Seq::<H>::empty(),
    {
        ProxyManager { handlers: Vec::new() }
    }

    /// Adds a handler at the end.
    pub fn add_handler(&mut self, handler: H)
        ensures
            final(self).handlers_view() == old(self).handlers_view().push(handler),
    {
        self.handlers.push(handler);
    }

    /// The number of handlers.
    pub fn handler_count(&self) -> (n: usize)
        ensures
            n == self.handlers_view().len(),
    {
        self.handlers.len()
    }

    /// Name, kind, address and status of every handler, one entry per
    /// handler in order, as each handler reports them.
    pub fn list_handlers(&self) -> (v: Vec<(&str, ProxyType, String, HandlerStatus)>)
        ensures
            v@.len() == self.handlers_view().len(),
    {
        let mut v: Vec<(&str, ProxyType, String, HandlerStatus)> = Vec::new();
        let mut i: usize = 0;
        while i < self.handlers.len()
            invariant
                0 <= i <= self.handlers@.len(),
                v@.len() == i,
            decreases self.handlers@.len() - i,
        {
            let h = &self.handlers[i];
            v.push((h.name(), h.proxy_type(), h.bind_address(), h.status()));
            i = i + 1;
        }
        v
    }

    /// The handlers, for starting, stopping and health checks.
    pub fn handlers(&self) -> (s: &[H])
        ensures
            s@ == self.handlers_view(),
    {
        self.handlers.as_slice()
    }
}

} // verus!
