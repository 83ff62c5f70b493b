//! The data the client exchanges with the server.

use vstd::prelude::*;
use vstd::string::StringExecFns;
use crate::json::JsonValue;
use crate::text::str_eq;

verus! {

/// Protocol spoken by a Zinit server.
#[derive(Debug, Clone, Copy, PartialEq, Eq, Structural)]
pub enum Protocol {
    /// JSON-RPC protocol (servers v0.2.25 and later).
    JsonRpc,
    /// Raw command protocol (servers v0.2.14).
    RawCommands,
}

/// The name under which a protocol is shown.
pub open spec fn protocol_name(p: Protocol) -> Seq<char> {
    match p {
        Protocol::JsonRpc => "JSON-RPC"@,
        Protocol::RawCommands => "Raw Commands"@,
    }
}

impl Protocol {
    /// The name under which the protocol is shown.
    pub fn to_string(&self) -> (r: String)
        ensures
            r@ == protocol_name(*self),
    {
        match self {
            Protocol::JsonRpc => String::from_str("JSON-RPC"),
            Protocol::RawCommands => String::from_str("Raw Commands"),
        }
    }
}

/// What a server can do, by protocol.
#[derive(Debug, Clone, Copy, PartialEq, Eq, Structural)]
pub struct ServerCapabilities {
    /// Protocol used by the server
    pub protocol: Protocol,
    /// Whether the server supports dynamic service creation
    pub supports_create: bool,
    /// Whether the server supports service deletion
    pub supports_delete: bool,
    /// Whether the server supports getting service configuration
    pub supports_get_config: bool,
    /// Whether the server supports service statistics
    pub supports_stats: bool,
    /// Whether the server supports log streaming
    pub supports_log_streaming: bool,
    /// Whether the server supports HTTP/RPC server management
    pub supports_http_server: bool,
}

/// Every feature, over JSON-RPC.
pub open spec fn full_capabilities() -> ServerCapabilities {
    ServerCapabilities {
        protocol: Protocol::JsonRpc,
        supports_create: true,
        supports_delete: true,
        supports_get_config: true,
        supports_stats: true,
        supports_log_streaming: true,
        supports_http_server: true,
    }
}

/// Log streaming only, over raw commands.
pub open spec fn legacy_capabilities() -> ServerCapabilities {
    ServerCapabilities {
        protocol: Protocol::RawCommands,
        supports_create: false,
        supports_delete: false,
        supports_get_config: false,
        supports_stats: false,
        supports_log_streaming: true,
        supports_http_server: false,
    }
}

/// The capabilities of a server that speaks `protocol`.
pub open spec fn capabilities_for(protocol: Protocol) -> ServerCapabilities {
    match protocol {
        Protocol::JsonRpc => full_capabilities(),
        Protocol::RawCommands => legacy_capabilities(),
    }
}

/// Only servers that speak JSON-RPC can create or delete services, read a
/// service's configuration or statistics, or manage the HTTP server; every
/// server can stream logs; the capabilities name the protocol they were derived from.
pub proof fn lemma_capabilities_by_protocol(protocol: Protocol)
    ensures
        capabilities_for(protocol).supports_create <==> protocol == Protocol::JsonRpc,
        capabilities_for(protocol).supports_delete <==> protocol == Protocol::JsonRpc,
        capabilities_for(protocol).supports_get_config <==> protocol == Protocol::JsonRpc,
        capabilities_for(protocol).supports_stats <==> protocol == Protocol::JsonRpc,
        capabilities_for(protocol).supports_http_server <==> protocol == Protocol::JsonRpc,
        capabilities_for(protocol).supports_log_streaming,
        capabilities_for(protocol).protocol == protocol,
{
}

impl ServerCapabilities {
    /// Full capabilities for new servers (JSON-RPC).
    pub fn full() -> (r: Self)
        ensures
            r == full_capabilities(),
    {
        ServerCapabilities {
            protocol: Protocol::JsonRpc,
            supports_create: true,
            supports_delete: true,
            supports_get_config: true,
            supports_stats: true,
            supports_log_streaming: true,
            supports_http_server: true,
        }
    }

    /// Legacy capabilities for old servers (raw commands): log streaming only.
    pub fn legacy() -> (r: Self)
        ensures
            r == legacy_capabilities(),
    {
        ServerCapabilities {
            protocol: Protocol::RawCommands,
            supports_create: false,
            supports_delete: false,
            supports_get_config: false,
            supports_stats: false,
            supports_log_streaming: true,
            supports_http_server: false,
        }
    }

    /// The capabilities of a server that speaks `protocol`.
    pub fn for_protocol(protocol: Protocol) -> (r: Self)
        ensures
            r == capabilities_for(protocol),
    {
        match protocol {
            Protocol::JsonRpc => Self::full(),
            Protocol::RawCommands => Self::legacy(),
        }
    }
}

/// State of a service.
#[derive(Debug, Clone, Copy, PartialEq, Eq, Structural)]
pub enum ServiceState {
    /// Service state is unknown
    Unknown,
    /// Service is blocked by dependencies
    Blocked,
    /// Service is spawned but not yet running
    Spawned,
    /// Service is running
    Running,
    /// Service completed successfully (for oneshot services)
    Success,
    /// Service exited with an error
    Error,
    /// Service test command failed
    TestFailure,
}

/// The name of a service state on the wire.
pub open spec fn state_name(s: ServiceState) -> Seq<char> {
    match s {
        ServiceState::Unknown => "Unknown"@,
        ServiceState::Blocked => "Blocked"@,
        ServiceState::Spawned => "Spawned"@,
        ServiceState::Running => "Running"@,
        ServiceState::Success => "Success"@,
        ServiceState::Error => "Error"@,
        ServiceState::TestFailure => "TestFailure"@,
    }
}

/// The state a name stands for; any other text stands for `Unknown`.
pub open spec fn state_from_name(s: Seq<char>) -> ServiceState {
    if s == "Unknown"@ {
        ServiceState::Unknown
    } else if s == "Blocked"@ {
        ServiceState::Blocked
    } else if s == "Spawned"@ {
        ServiceState::Spawned
    } else if s == "Running"@ {
        ServiceState::Running
    } else if s == "Success"@ {
        ServiceState::Success
    } else if s == "Error"@ {
        ServiceState::Error
    } else if s == "TestFailure"@ {
        ServiceState::TestFailure
    } else {
        ServiceState::Unknown
    }
}

impl ServiceState {
    /// The name of the state on the wire.
    pub fn to_string(&self) -> (r: String)
        ensures
            r@ == state_name(*self),
    {
        match self {
            ServiceState::Unknown => String::from_str("Unknown"),
            ServiceState::Blocked => String::from_str("Blocked"),
            ServiceState::Spawned => String::from_str("Spawned"),
            ServiceState::Running => String::from_str("Running"),
            ServiceState::Success => String::from_str("Success"),
            ServiceState::Error => String::from_str("Error"),
            ServiceState::TestFailure => String::from_str("TestFailure"),
        }
    }
}

/// Parses a service state name; any text that names no state gives `Unknown`.
pub fn parse_service_state(s: &str) -> (r: ServiceState)
    ensures
        r == state_from_name(s@),
{
    if str_eq(s, "Unknown") {
        ServiceState::Unknown
    } else if str_eq(s, "Blocked") {
        ServiceState::Blocked
    } else if str_eq(s, "Spawned") {
        ServiceState::Spawned
    } else if str_eq(s, "Running") {
        ServiceState::Running
    } else if str_eq(s, "Success") {
        ServiceState::Success
    } else if str_eq(s, "Error") {
        ServiceState::Error
    } else if str_eq(s, "TestFailure") {
        ServiceState::TestFailure
    } else {
        ServiceState::Unknown
    }
}

/// Target state of a service.
#[derive(Debug, Clone, Copy, PartialEq, Eq, Structural)]
pub enum ServiceTarget {
    /// Service should be running
    Up,
    /// Service should be stopped
    Down,
}

/// The name of a target on the wire.
pub open spec fn target_name(t: ServiceTarget) -> Seq<char> {
    match t {
        ServiceTarget::Up => "Up"@,
        ServiceTarget::Down => "Down"@,
    }
}

/// The target a name stands for; any text but `Up` stands for `Down`.
pub open spec fn target_from_name(s: Seq<char>) -> ServiceTarget {
    if s == "Up"@ {
        ServiceTarget::Up
    } else {
        ServiceTarget::Down
    }
}

impl ServiceTarget {
    /// The name of the target on the wire.
    pub fn to_string(&self) -> (r: String)
        ensures
            r@ == target_name(*self),
    {
        match self {
            ServiceTarget::Up => String::from_str("Up"),
            ServiceTarget::Down => String::from_str("Down"),
        }
    }
}

/// Parses a target name; any text but `Up` gives `Down`.
pub fn parse_service_target(s: &str) -> (r: ServiceTarget)
    ensures
        r == target_from_name(s@),
{
    if str_eq(s, "Up") {
        ServiceTarget::Up
    } else if str_eq(s, "Down") {
        ServiceTarget::Down
    } else {
        ServiceTarget::Down
    }
}

/// Naming a state and parsing the name gives the state back.
pub proof fn lemma_state_name_roundtrip(s: ServiceState)
    ensures
        state_from_name(state_name(s)) == s,
{
    reveal_strlit("Unknown");
    reveal_strlit("Blocked");
    reveal_strlit("Spawned");
    reveal_strlit("Running");
    reveal_strlit("Success");
    reveal_strlit("Error");
    reveal_strlit("TestFailure");
    assert("Unknown"@.len() == 7);
    assert("Blocked"@.len() == 7);
    assert("Spawned"@.len() == 7);
    assert("Running"@.len() == 7);
    assert("Success"@.len() == 7);
    assert("Error"@.len() == 5);
    assert("TestFailure"@.len() == 11);
    assert("Blocked"@[0] != "Unknown"@[0]);
    assert("Spawned"@[0] != "Unknown"@[0]);
    assert("Spawned"@[0] != "Blocked"@[0]);
    assert("Running"@[0] != "Unknown"@[0]);
    assert("Running"@[0] != "Blocked"@[0]);
    assert("Running"@[0] != "Spawned"@[0]);
    assert("Success"@[0] != "Unknown"@[0]);
    assert("Success"@[0] != "Blocked"@[0]);
    assert("Success"@[1] != "Spawned"@[1]);
    assert("Success"@[0] != "Running"@[0]);
}

/// Each state has its own wire name, and a text parses to a state exactly
/// when it is that state's name; every other text, "Unknown" among them,
/// parses to `Unknown`.
pub proof fn lemma_state_wire_names(st: ServiceState, s: Seq<char>)
    ensures
        state_from_name(s) == ServiceState::Blocked <==> s == "Blocked"@,
        state_from_name(s) == ServiceState::Spawned <==> s == "Spawned"@,
        state_from_name(s) == ServiceState::Running <==> s == "Running"@,
        state_from_name(s) == ServiceState::Success <==> s == "Success"@,
        state_from_name(s) == ServiceState::Error <==> s == "Error"@,
        state_from_name(s) == ServiceState::TestFailure <==> s == "TestFailure"@,
        state_from_name(s) == ServiceState::Unknown <==> !(s == "Blocked"@ || s == "Spawned"@ || s
            == "Running"@ || s == "Success"@ || s == "Error"@ || s == "TestFailure"@),
        state_name(st) == "Unknown"@ <==> st == ServiceState::Unknown,
        state_name(st) == "Blocked"@ <==> st == ServiceState::Blocked,
        state_name(st) == "Spawned"@ <==> st == ServiceState::Spawned,
        state_name(st) == "Running"@ <==> st == ServiceState::Running,
        state_name(st) == "Success"@ <==> st == ServiceState::Success,
        state_name(st) == "Error"@ <==> st == ServiceState::Error,
        state_name(st) == "TestFailure"@ <==> st == ServiceState::TestFailure,
{
    reveal_strlit("Unknown");
    reveal_strlit("Blocked");
    reveal_strlit("Spawned");
    reveal_strlit("Running");
    reveal_strlit("Success");
    reveal_strlit("Error");
    reveal_strlit("TestFailure");
    assert("Unknown"@.len() == 7);
    assert("Blocked"@.len() == 7);
    assert("Spawned"@.len() == 7);
    assert("Running"@.len() == 7);
    assert("Success"@.len() == 7);
    assert("Error"@.len() == 5);
    assert("TestFailure"@.len() == 11);
    assert("Blocked"@[0] != "Unknown"@[0]);
    assert("Spawned"@[0] != "Unknown"@[0]);
    assert("Spawned"@[0] != "Blocked"@[0]);
    assert("Running"@[0] != "Unknown"@[0]);
    assert("Running"@[0] != "Blocked"@[0]);
    assert("Running"@[0] != "Spawned"@[0]);
    assert("Success"@[0] != "Unknown"@[0]);
    assert("Success"@[0] != "Blocked"@[0]);
    assert("Success"@[1] != "Spawned"@[1]);
    assert("Success"@[0] != "Running"@[0]);
}

/// Each target has its own wire name; only "Up" parses to `Up`.
pub proof fn lemma_target_wire_names(t: ServiceTarget, s: Seq<char>)
    ensures
        target_from_name(s) == ServiceTarget::Up <==> s == "Up"@,
        target_name(t) == "Up"@ <==> t == ServiceTarget::Up,
        target_name(t) == "Down"@ <==> t == ServiceTarget::Down,
{
    reveal_strlit("Up");
    reveal_strlit("Down");
    assert("Down"@.len() == 4);
    assert("Up"@.len() == 2);
}

/// Each protocol is shown under its own name.
pub proof fn lemma_protocol_names(p: Protocol)
    ensures
        protocol_name(p) == "JSON-RPC"@ <==> p == Protocol::JsonRpc,
        protocol_name(p) == "Raw Commands"@ <==> p == Protocol::RawCommands,
{
    reveal_strlit("JSON-RPC");
    reveal_strlit("Raw Commands");
    assert("JSON-RPC"@.len() == 8);
    assert("Raw Commands"@.len() == 12);
}

/// Naming a target and parsing the name gives the target back.
pub proof fn lemma_target_name_roundtrip(t: ServiceTarget)
    ensures
        target_from_name(target_name(t)) == t,
{
    reveal_strlit("Up");
    reveal_strlit("Down");
    assert("Down"@.len() == 4);
    assert("Up"@.len() == 2);
    assert("Down"@ != "Up"@);
}

} // verus!

verus! {

/// State of a raw-protocol response.
#[derive(Debug, Clone, Copy, PartialEq, Eq, Structural)]
pub enum ResponseState {
    /// Success response (`"ok"` on the wire)
    Success,
    /// Error response (`"error"` on the wire)
    Error,
}

/// A raw-protocol response: `{"state": "ok" | "error", "body": ...}`.
#[derive(Debug)]
pub struct Response {
    /// Response state (ok or error)
    pub state: ResponseState,
    /// Response body
    pub body: JsonValue,
    /// The body as compact JSON text, when it could be written out.
    pub body_text: Option<String>,
}

/// A JSON-RPC 2.0 request.
#[derive(Debug)]
pub struct JsonRpcRequest {
    /// JSON-RPC version
    pub jsonrpc: String,
    /// Method name
    pub method: String,
    /// Parameters
    pub params: JsonValue,
    /// Request ID
    pub id: u64,
}

impl JsonRpcRequest {
    /// A JSON-RPC 2.0 request for `method` with `params` and `id`.
    pub fn new(method: &str, params: JsonValue, id: u64) -> (r: Self)
        ensures
            r.jsonrpc@ == "2.0"@,
            r.method@ == method@,
            r.params == params,
            r.id == id,
    {
        JsonRpcRequest { jsonrpc: String::from_str("2.0"), method: String::from_str(method), params, id }
    }
}

/// A JSON-RPC 2.0 response.
#[derive(Debug)]
pub struct JsonRpcResponse {
    /// JSON-RPC version
    pub jsonrpc: String,
    /// Request ID
    pub id: Option<u64>,
    /// Result (if successful)
    pub result: Option<JsonValue>,
    /// Error (if failed)
    pub error: Option<JsonRpcError>,
}

/// The error member of a JSON-RPC response.
#[derive(Debug)]
pub struct JsonRpcError {
    /// Error code
    pub code: i32,
    /// Error message
    pub message: String,
    /// Additional error data
    pub data: Option<JsonValue>,
}

} // verus!

verus! {

/// Service status information.
#[derive(Debug)]
pub struct ServiceStatus {
    /// Service name
    pub name: String,
    /// Process ID (0 if not running)
    pub pid: u32,
    /// Current state
    pub state: ServiceState,
    /// Target state
    pub target: ServiceTarget,
    /// Dependencies and their states, in the order the server listed them
    pub after: Vec<(String, String)>,
}

/// Log entry from a service.
#[derive(Debug)]
pub struct LogEntry {
    /// When the line was read, in UTC
    pub timestamp: chrono::NaiveDateTime,
    /// Service that generated the log
    pub service: String,
    /// Log message
    pub message: String,
}

} // verus!
