use vstd::prelude::*;

use crate::config::ProxyConfig;
use crate::text::{str_eq, text};

verus! {

/// `serde_json::Value`, carried as an opaque value.
#[verifier::external_type_specification]
#[verifier::external_body]
pub struct ExJsonValue(serde_json::Value);

/// The JSON number that `serde_json::Value::from(u64)` makes of `n`.
pub uninterp spec fn json_number(n: u64) -> serde_json::Value;

/// `serde_json::Value::from(n)`: a JSON number.
#[verifier::external_body]
fn json_from_u64(n: u64) -> (v: serde_json::Value)
    ensures
        v == json_number(n),
{
    serde_json::Value::from(n)
}

/// A JSON-RPC 2.0 request (a notification when it has no id).
#[derive(Debug)]
pub struct JsonRpcRequest {
    /// Always `2.0`.
    pub jsonrpc: String,
    /// The method called.
    pub method: String,
    /// Its parameters.
    pub params: serde_json::Value,
    /// The id that the response carries back; none for a notification.
    pub id: Option<serde_json::Value>,
}

impl JsonRpcRequest {
    /// A request with a numeric id.
    pub fn new(method: String, params: serde_json::Value, id: u64) -> (r: Self)
        ensures
            r.jsonrpc@ == "2.0"@,
            r.method == method,
            r.params == params,
            r.id == Some(json_number(id)),
    {
        JsonRpcRequest { jsonrpc: text("2.0"), method, params, id: Some(json_from_u64(id)) }
    }

    /// Whether the request is a notification, which gets no response.
    pub fn is_notification(&self) -> (r: bool)
        ensures
            r <==> self.id is None,
    {
        self.id.is_none()
    }
}

/// A JSON-RPC 2.0 error object.
#[derive(Debug)]
pub struct JsonRpcError {
    /// Error code.
    pub code: i32,
    /// Error message.
    pub message: String,
    /// Further data.
    pub data: Option<serde_json::Value>,
}

/// A JSON-RPC 2.0 response: a result or an error.
#[derive(Debug)]
pub struct JsonRpcResponse {
    /// Always `2.0`.
    pub jsonrpc: String,
    /// The result, on success.
    pub result: Option<serde_json::Value>,
    /// The error, on failure.
    pub error: Option<JsonRpcError>,
    /// The id of the request answered.
    pub id: serde_json::Value,
}

impl JsonRpcResponse {
    /// A successful response.
    pub fn success(id: serde_json::Value, result: serde_json::Value) -> (r: Self)
        ensures
            r.jsonrpc@ == "2.0"@,
            r.result == Some(result),
            r.error is None,
            r.id == id,
    {
        JsonRpcResponse { jsonrpc: text("2.0"), result: Some(result), error: None, id }
    }

    /// A failed response.
    pub fn error(id: serde_json::Value, error: JsonRpcError) -> (r: Self)
        ensures
            r.jsonrpc@ == "2.0"@,
            r.result is None,
            r.error == Some(error),
            r.id == id,
    {
        JsonRpcResponse { jsonrpc: text("2.0"), result: None, error: Some(error), id }
    }
}

/// Parameters of `authenticate`.
#[derive(Debug)]
pub struct AuthenticateParams {
    pub auth_key: String,
}

/// Result of `authenticate`.
#[derive(Debug)]
pub struct AuthenticateResult {
    pub client_id: String,
}

/// Parameters of `submit_config`.
#[derive(Debug)]
pub struct SubmitConfigParams {
    pub proxies: Vec<ProxyConfig>,
}

/// Result of `submit_config`.
#[derive(Debug)]
pub struct SubmitConfigResult {
    pub rejected_proxies: Vec<String>,
}

/// The methods of the control channel.
#[derive(Debug, Clone, Copy, PartialEq, Eq, Structural)]
pub enum ControlMethod {
    /// Client to server: authenticate.
    Authenticate,
    /// Client to server: submit proxies.
    SubmitConfig,
    /// Client to server: keep alive.
    Heartbeat,
    /// Server to client: configuration status.
    PushConfigStatus,
    /// Server to client: statistics.
    PushStats,
}

/// The wire name of a method.
pub open spec fn method_name(m: ControlMethod) -> Seq<char> {
    match m {
        ControlMethod::Authenticate => "authenticate"@,
        ControlMethod::SubmitConfig => "submit_config"@,
        ControlMethod::Heartbeat => "heartbeat"@,
        ControlMethod::PushConfigStatus => "push_config_status"@,
        ControlMethod::PushStats => "push_stats"@,
    }
}

/// Each method has a wire name of its own, so reading back the name that
/// `as_str` writes gives the same method.
pub proof fn law_method_names_distinct(a: ControlMethod, b: ControlMethod)
    ensures
        method_name(a) == method_name(b) ==> a == b,
{
    reveal_strlit("authenticate");
    reveal_strlit("submit_config");
    reveal_strlit("heartbeat");
    reveal_strlit("push_config_status");
    reveal_strlit("push_stats");
    if method_name(a) == method_name(b) {
        assert(method_name(a).len() == method_name(b).len());
    }
}

/// A method name that no method answers to.
#[derive(Debug)]
pub struct UnknownMethod {
    /// The name as received.
    pub name: String,
}

impl ControlMethod {
    /// The method with this wire name.
    pub fn from_str(s: &str) -> (r: Result<ControlMethod, UnknownMethod>)
        ensures
            match r {
                Ok(m) => method_name(m) == s@,
                Err(e) => (forall|m: ControlMethod| method_name(m) != s@) && e.name@ == s@,
            },
    {
        if str_eq(s, "authenticate") {
            Ok(ControlMethod::Authenticate)
        } else if str_eq(s, "submit_config") {
            Ok(ControlMethod::SubmitConfig)
        } else if str_eq(s, "heartbeat") {
            Ok(ControlMethod::Heartbeat)
        } else if str_eq(s, "push_config_status") {
            Ok(ControlMethod::PushConfigStatus)
        } else if str_eq(s, "push_stats") {
            Ok(ControlMethod::PushStats)
        } else {
            proof {
                assert forall|m: ControlMethod| method_name(m) != s@ by {
                    match m {
                        ControlMethod::Authenticate => {},
                        ControlMethod::SubmitConfig => {},
                        ControlMethod::Heartbeat => {},
                        ControlMethod::PushConfigStatus => {},
                        ControlMethod::PushStats => {},
                    }
                }
            }
            Err(UnknownMethod { name: text(s) })
        }
    }

    /// The wire name of the method.
    pub fn as_str(&self) -> (s: &'static str)
        ensures
            s@ == method_name(*self),
    {
        match self {
            ControlMethod::Authenticate => "authenticate",
            ControlMethod::SubmitConfig => "submit_config",
            ControlMethod::Heartbeat => "heartbeat",
            ControlMethod::PushConfigStatus => "push_config_status",
            ControlMethod::PushStats => "push_stats",
        }
    }
}

} // verus!
