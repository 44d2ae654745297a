use vstd::prelude::*;

use crate::text::{is_lower_ascii_text, lowercase, str_eq, text, to_lowercase};

verus! {

/// How a client reaches the server.
#[derive(Debug, Clone, Copy, PartialEq, Eq, Structural)]
pub enum TransportType {
    /// TCP wrapped in TLS.
    Tls,
    /// HTTP/2 over TLS.
    Http2,
    /// WebSocket over TLS.
    Wss,
}

/// The name of a transport, as it is displayed and configured.
pub open spec fn transport_name(t: TransportType) -> Seq<char> {
    match t {
        TransportType::Tls => "tls"@,
        TransportType::Http2 => "http2"@,
        TransportType::Wss => "wss"@,
    }
}

/// The transport that a name stands for, after lowercasing: `tls`;
/// `http2` or `h2`; `wss` or `websocket`.
pub open spec fn transport_named(lower: Seq<char>) -> Option<TransportType> {
    if lower == "tls"@ {
        Some(TransportType::Tls)
    } else if lower == "http2"@ || lower == "h2"@ {
        Some(TransportType::Http2)
    } else if lower == "wss"@ || lower == "websocket"@ {
        Some(TransportType::Wss)
    } else {
        None
    }
}

/// A transport's name reads back as the same transport.
pub proof fn law_transport_name_round_trip(t: TransportType)
    ensures
        is_lower_ascii_text(transport_name(t)),
        transport_named(transport_name(t)) == Some(t),
{
    reveal_strlit("tls");
    reveal_strlit("http2");
    reveal_strlit("h2");
    reveal_strlit("wss");
    reveal_strlit("websocket");
    assert("tls"@.len() != "http2"@.len());
    assert("wss"@[0] != "tls"@[0]);
    assert("wss"@.len() != "http2"@.len() && "wss"@.len() != "h2"@.len());
}

/// A transport name that no transport answers to.
#[derive(Debug)]
pub struct UnknownTransport {
    /// The name as given.
    pub name: String,
}

impl TransportType {
    /// The transport used when a configuration names none.
    pub fn default_transport() -> (t: TransportType)
        ensures
            t == TransportType::Tls,
    {
        TransportType::Tls
    }

    /// The name of the transport.
    pub fn as_str(self) -> (s: &'static str)
        ensures
            s@ == transport_name(self),
    {
        match self {
            TransportType::Tls => "tls",
            TransportType::Http2 => "http2",
            TransportType::Wss => "wss",
        }
    }

    /// The transport that a name stands for, whatever its case.
    pub fn from_name(s: &str) -> (r: Result<TransportType, UnknownTransport>)
        ensures
            match r {
                Ok(t) => transport_named(lowercase(s@)) == Some(t),
                Err(e) => transport_named(lowercase(s@)) is None && e.name@ == s@,
            },
            is_lower_ascii_text(s@) ==> (r is Ok <==> transport_named(s@) is Some),
            is_lower_ascii_text(s@) ==> (r matches Ok(t) ==> transport_named(s@) == Some(t)),
    {
        let lower = to_lowercase(s);
        let l = lower.as_str();
        if str_eq(l, "tls") {
            Ok(TransportType::Tls)
        } else if str_eq(l, "http2") || str_eq(l, "h2") {
            Ok(TransportType::Http2)
        } else if str_eq(l, "wss") || str_eq(l, "websocket") {
            Ok(TransportType::Wss)
        } else {
            Err(UnknownTransport { name: text(s) })
        }
    }
}

} // verus!
