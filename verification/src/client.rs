//! The decisions of the Zinit client: configuration, what to send for each
//! operation, and what the server's answers mean.

use vstd::prelude::*;
use vstd::string::StringExecFns;
use std::path::PathBuf;
use std::time::Duration;
use crate::connection::ConnectionManager;
use crate::error::ZinitError;
use crate::foreign::{
    clone_path, duration_from_millis, duration_from_secs, millis_duration, path_from,
    path_from_str, secs_duration,
};
use crate::json::{distinct_keys, member, string_of_value, u64_of_value, JsonValue};
use crate::models::{
    parse_service_state, parse_service_target, protocol_name, state_from_name, target_from_name,
    lemma_state_name_roundtrip, lemma_target_name_roundtrip, JsonRpcResponse, LogEntry, Protocol,
    ServerCapabilities,
    ServiceState, ServiceStatus, ServiceTarget,
};
use crate::retry::RetryStrategy;
use crate::text::{
    has_prefix, has_substring, index_of, index_of_from, lemma_index_of_from_bounds,
    lemma_rskip_char_bounds, lemma_skip_char_bounds, rskip_char, rskip_char_at, seq_eq_vec,
    skip_char, skip_char_at, starts_with, str_eq, string_of, sub_vec, to_chars, contains,
};

verus! {

/// Configuration for the Zinit client.
#[derive(Debug)]
pub struct ClientConfig {
    /// Path to the Zinit Unix socket
    pub socket_path: PathBuf,
    /// Timeout for connection attempts
    pub connection_timeout: Duration,
    /// Timeout for operations
    pub operation_timeout: Duration,
    /// Maximum number of retry attempts
    pub max_retries: usize,
    /// Base delay between retries
    pub retry_delay: Duration,
    /// Maximum delay between retries
    pub max_retry_delay: Duration,
    /// Whether to add jitter to retry delays
    pub retry_jitter: bool,
}

/// The default configuration for the socket at `socket_path`: connect
/// within 5 s, operate within 30 s; 3 retries from 100 ms up to 5 s, with
/// jitter.
pub open spec fn default_config_for(socket_path: PathBuf) -> ClientConfig {
    ClientConfig {
        socket_path,
        connection_timeout: secs_duration(5),
        operation_timeout: secs_duration(30),
        max_retries: 3,
        retry_delay: millis_duration(100),
        max_retry_delay: secs_duration(5),
        retry_jitter: true,
    }
}

impl Default for ClientConfig {
    /// Socket `/var/run/zinit.sock`, with the default timeouts and retries.
    fn default() -> (r: Self)
        ensures
            r == default_config_for(path_from_str("/var/run/zinit.sock"@)),
    {
        ClientConfig {
            socket_path: path_from("/var/run/zinit.sock"),
            connection_timeout: duration_from_secs(5),
            operation_timeout: duration_from_secs(30),
            max_retries: 3,
            retry_delay: duration_from_millis(100),
            max_retry_delay: duration_from_secs(5),
            retry_jitter: true,
        }
    }
}

impl Clone for ClientConfig {
    /// A configuration with the same socket, timeouts and retries.
    fn clone(&self) -> (r: Self)
        ensures
            r == *self,
    {
        ClientConfig {
            socket_path: clone_path(&self.socket_path),
            connection_timeout: self.connection_timeout,
            operation_timeout: self.operation_timeout,
            max_retries: self.max_retries,
            retry_delay: self.retry_delay,
            max_retry_delay: self.max_retry_delay,
            retry_jitter: self.retry_jitter,
        }
    }
}

impl ClientConfig {
    /// The configuration for the socket at `socket_path`, all else default.
    pub fn for_socket(socket_path: PathBuf) -> (r: Self)
        ensures
            r == default_config_for(socket_path),
    {
        let d = Self::default();
        ClientConfig { socket_path, ..d }
    }

    /// The retry strategy this configuration asks for.
    pub fn retry_strategy(&self) -> (r: RetryStrategy)
        ensures
            r.spec_max_retries() == self.max_retries,
            r.spec_base_delay() == self.retry_delay,
            r.spec_max_delay() == self.max_retry_delay,
            r.spec_jitter() == self.retry_jitter,
    {
        RetryStrategy::new(self.max_retries, self.retry_delay, self.max_retry_delay, self.retry_jitter)
    }

    /// The connection manager for this configuration.
    pub fn connection_manager(&self) -> (r: ConnectionManager)
        ensures
            r.spec_socket_path() == self.socket_path,
            r.spec_connection_timeout() == self.connection_timeout,
            r.spec_operation_timeout() == self.operation_timeout,
            r.spec_retry_strategy().spec_max_retries() == self.max_retries,
            r.spec_retry_strategy().spec_base_delay() == self.retry_delay,
            r.spec_retry_strategy().spec_max_delay() == self.max_retry_delay,
            r.spec_retry_strategy().spec_jitter() == self.retry_jitter,
    {
        ConnectionManager::new(
            clone_path(&self.socket_path),
            self.connection_timeout,
            self.operation_timeout,
            self.retry_strategy(),
        )
    }
}

// ---------------------------------------------------------------------------
// What to send.

/// An operation as the protocol layer sees it: a method, its arguments, and
/// for JSON-RPC optionally explicit parameters.
#[derive(Debug)]
pub struct Command {
    /// Method (JSON-RPC) or command word (raw protocol)
    pub method: String,
    /// Arguments, for the raw protocol or as default JSON-RPC parameters
    pub args: Vec<String>,
    /// Explicit JSON-RPC parameters
    pub params: Option<JsonValue>,
}

/// The command that lists all services.
pub fn list_command(protocol: Protocol) -> (r: Command)
    ensures
        r.method@ == (if protocol == Protocol::JsonRpc {
            "service_list"@
        } else {
            "list"@
        }),
        r.args@.len() == 0,
        r.params is None,
{
    let method = match protocol {
        Protocol::JsonRpc => String::from_str("service_list"),
        Protocol::RawCommands => String::from_str("list"),
    };
    Command { method, args: Vec::new(), params: None }
}

/// The command that asks for the status of `service`: `service_status` with
/// parameters `[service]`, or `status service`.
pub fn status_command(protocol: Protocol, service: &str) -> (r: Command)
    ensures
        protocol == Protocol::JsonRpc ==> {
            &&& r.method@ == "service_status"@
            &&& r.args@.len() == 0
            &&& r.params matches Some(JsonValue::Array(items)) && items@.len() == 1 && (
            items@[0] matches JsonValue::String(s) && s@ == service@)
        },
        protocol == Protocol::RawCommands ==> {
            &&& r.method@ == "status"@
            &&& r.args@.len() == 1
            &&& r.args@[0]@ == service@
            &&& r.params is None
        },
{
    match protocol {
        Protocol::JsonRpc => {
            let mut items: Vec<JsonValue> = Vec::new();
            items.push(JsonValue::String(String::from_str(service)));
            Command {
                method: String::from_str("service_status"),
                args: Vec::new(),
                params: Some(JsonValue::Array(items)),
            }
        },
        Protocol::RawCommands => {
            let mut args: Vec<String> = Vec::new();
            args.push(String::from_str(service));
            Command { method: String::from_str("status"), args, params: None }
        },
    }
}

/// An operation on one service.
#[derive(Debug, Clone, Copy, PartialEq, Eq, Structural)]
pub enum ServiceAction {
    /// Start the service
    Start,
    /// Stop the service
    Stop,
    /// Start monitoring the service (load its configuration)
    Monitor,
    /// Stop monitoring the service
    Forget,
}

/// The raw command word of an operation on a service.
pub open spec fn action_word(action: ServiceAction) -> Seq<char> {
    match action {
        ServiceAction::Start => "start"@,
        ServiceAction::Stop => "stop"@,
        ServiceAction::Monitor => "monitor"@,
        ServiceAction::Forget => "forget"@,
    }
}

/// The JSON-RPC method of an operation on a service.
pub open spec fn action_method(action: ServiceAction) -> Seq<char> {
    match action {
        ServiceAction::Start => "service_start"@,
        ServiceAction::Stop => "service_stop"@,
        ServiceAction::Monitor => "service_monitor"@,
        ServiceAction::Forget => "service_forget"@,
    }
}

/// Each operation on a service has its own raw command word, which is its
/// name ("start", "stop", "monitor", "forget"), and its JSON-RPC method is
/// that word behind "service_".
pub proof fn lemma_action_names(action: ServiceAction)
    ensures
        action_word(action) == "start"@ <==> action == ServiceAction::Start,
        action_word(action) == "stop"@ <==> action == ServiceAction::Stop,
        action_word(action) == "monitor"@ <==> action == ServiceAction::Monitor,
        action_word(action) == "forget"@ <==> action == ServiceAction::Forget,
        action_method(action) == "service_"@ + action_word(action),
{
    reveal_strlit("start");
    reveal_strlit("stop");
    reveal_strlit("monitor");
    reveal_strlit("forget");
    reveal_strlit("service_");
    reveal_strlit("service_start");
    reveal_strlit("service_stop");
    reveal_strlit("service_monitor");
    reveal_strlit("service_forget");
    assert("start"@.len() == 5);
    assert("stop"@.len() == 4);
    assert("monitor"@.len() == 7);
    assert("forget"@.len() == 6);
    assert("service_start"@ =~= "service_"@ + "start"@);
    assert("service_stop"@ =~= "service_"@ + "stop"@);
    assert("service_monitor"@ =~= "service_"@ + "monitor"@);
    assert("service_forget"@ =~= "service_"@ + "forget"@);
}

/// The command that applies `action` to `service`: the JSON-RPC method
/// (`service_start`, ...) or the raw command word (`start`, ...), with the
/// service as its one argument.
pub fn action_command(protocol: Protocol, action: ServiceAction, service: &str) -> (r: Command)
    ensures
        r.method@ == (if protocol == Protocol::JsonRpc {
            action_method(action)
        } else {
            action_word(action)
        }),
        r.args@.len() == 1,
        r.args@[0]@ == service@,
        r.params is None,
{
    let method = match protocol {
        Protocol::JsonRpc => match action {
            ServiceAction::Start => String::from_str("service_start"),
            ServiceAction::Stop => String::from_str("service_stop"),
            ServiceAction::Monitor => String::from_str("service_monitor"),
            ServiceAction::Forget => String::from_str("service_forget"),
        },
        Protocol::RawCommands => match action {
            ServiceAction::Start => String::from_str("start"),
            ServiceAction::Stop => String::from_str("stop"),
            ServiceAction::Monitor => String::from_str("monitor"),
            ServiceAction::Forget => String::from_str("forget"),
        },
    };
    let mut args: Vec<String> = Vec::new();
    args.push(String::from_str(service));
    Command { method, args, params: None }
}

/// The command that sends `signal` to `service`: `service_kill` or `kill`,
/// with the service and the signal as arguments.
pub fn kill_command(protocol: Protocol, service: &str, signal: &str) -> (r: Command)
    ensures
        r.method@ == (if protocol == Protocol::JsonRpc {
            "service_kill"@
        } else {
            "kill"@
        }),
        r.args@.len() == 2,
        r.args@[0]@ == service@,
        r.args@[1]@ == signal@,
        r.params is None,
{
    let method = match protocol {
        Protocol::JsonRpc => String::from_str("service_kill"),
        Protocol::RawCommands => String::from_str("kill"),
    };
    let mut args: Vec<String> = Vec::new();
    args.push(String::from_str(service));
    args.push(String::from_str(signal));
    Command { method, args, params: None }
}

/// An operation on the whole system.
#[derive(Debug, Clone, Copy, PartialEq, Eq, Structural)]
pub enum SystemAction {
    /// Shut the system down
    Shutdown,
    /// Reboot the system
    Reboot,
}

/// The command for a system operation: `system_shutdown` / `system_reboot`
/// over JSON-RPC, `shutdown` / `reboot` as raw commands; no arguments.
pub fn system_command(protocol: Protocol, action: SystemAction) -> (r: Command)
    ensures
        r.method@ == (match (protocol, action) {
            (Protocol::JsonRpc, SystemAction::Shutdown) => "system_shutdown"@,
            (Protocol::JsonRpc, SystemAction::Reboot) => "system_reboot"@,
            (Protocol::RawCommands, SystemAction::Shutdown) => "shutdown"@,
            (Protocol::RawCommands, SystemAction::Reboot) => "reboot"@,
        }),
        r.args@.len() == 0,
        r.params is None,
{
    let method = match (protocol, action) {
        (Protocol::JsonRpc, SystemAction::Shutdown) => String::from_str("system_shutdown"),
        (Protocol::JsonRpc, SystemAction::Reboot) => String::from_str("system_reboot"),
        (Protocol::RawCommands, SystemAction::Shutdown) => String::from_str("shutdown"),
        (Protocol::RawCommands, SystemAction::Reboot) => String::from_str("reboot"),
    };
    Command { method, args: Vec::new(), params: None }
}

/// The message given when the server cannot create services.
pub open spec fn create_unsupported_message(protocol: Protocol, name: Seq<char>) -> Seq<char> {
    "Dynamic service creation is not supported by this zinit server ("@ + protocol_name(protocol)
        + "). Please create a service configuration file manually in /etc/zinit/"@ + name
        + ".yaml"@
}

/// The command that creates service `name` with `config`: `service_create`
/// with parameters `[name, config]`, on a server that supports creation and
/// speaks JSON-RPC; otherwise `FeatureNotSupported`.
pub fn create_service_command(
    capabilities: &ServerCapabilities,
    protocol: Protocol,
    name: &str,
    config: JsonValue,
) -> (r: Result<Command, ZinitError>)
    ensures
        !capabilities.supports_create ==> (r matches Err(ZinitError::FeatureNotSupported(m)) && m@
            == create_unsupported_message(capabilities.protocol, name@)),
        capabilities.supports_create && protocol == Protocol::RawCommands ==> (r matches Err(
            ZinitError::FeatureNotSupported(m),
        ) && m@ == "Dynamic service creation requires zinit v0.2.25+"@),
        capabilities.supports_create && protocol == Protocol::JsonRpc ==> (r matches Ok(c) && {
            &&& c.method@ == "service_create"@
            &&& c.args@.len() == 0
            &&& c.params matches Some(JsonValue::Array(items)) && items@.len() == 2 && (
            items@[0] matches JsonValue::String(s) && s@ == name@) && items@[1] == config
        }),
{
    if !capabilities.supports_create {
        let mut m = String::from_str(
            "Dynamic service creation is not supported by this zinit server (",
        );
        let p = capabilities.protocol.to_string();
        m.append(p.as_str());
        m.append("). Please create a service configuration file manually in /etc/zinit/");
        m.append(name);
        m.append(".yaml");
        return Err(ZinitError::FeatureNotSupported(m));
    }
    match protocol {
        Protocol::JsonRpc => {
            let mut items: Vec<JsonValue> = Vec::new();
            items.push(JsonValue::String(String::from_str(name)));
            items.push(config);
            Ok(
                Command {
                    method: String::from_str("service_create"),
                    args: Vec::new(),
                    params: Some(JsonValue::Array(items)),
                },
            )
        },
        Protocol::RawCommands => Err(
            ZinitError::FeatureNotSupported(
                String::from_str("Dynamic service creation requires zinit v0.2.25+"),
            ),
        ),
    }
}

/// The command that streams logs: `log` to follow, `log snapshot` otherwise.
pub fn log_command(follow: bool) -> (r: String)
    ensures
        r@ == (if follow {
            "log"@
        } else {
            "log snapshot"@
        }),
{
    if follow {
        String::from_str("log")
    } else {
        String::from_str("log snapshot")
    }
}

// ---------------------------------------------------------------------------
// What the answers mean.

/// Every member of an object is a string.
pub open spec fn all_string_members(entries: Seq<(String, JsonValue)>) -> bool {
    forall|i: int| 0 <= i < entries.len() ==> (#[trigger] entries[i]).1 is String
}

/// The state a member of a service list gives.
pub open spec fn listed_state(v: JsonValue) -> ServiceState {
    match v {
        JsonValue::String(s) => state_from_name(s@),
        _ => ServiceState::Unknown,
    }
}

/// The services and their states that a service list answer gives, in the
/// order of its members: `None` unless the answer is an object whose members
/// are all strings. A state text that names no state gives `Unknown`.
pub fn service_states_of(reply: &JsonValue) -> (r: Option<Vec<(String, ServiceState)>>)
    ensures
        r is Some <==> (reply matches JsonValue::Object(m) && all_string_members(m@)),
        r matches Some(v) ==> (reply matches JsonValue::Object(m) && v@.len() == m@.len() && forall|i: int|
            0 <= i < v@.len() ==> (#[trigger] v@[i]).0@ == m@[i].0@ && v@[i].1 == listed_state(
                m@[i].1,
            )),
        r matches Some(v) ==> (reply matches JsonValue::Object(m) && (distinct_keys(m@)
            ==> distinct_keys(v@))),
{
    match reply {
        JsonValue::Object(m) => {
            let mut r: Vec<(String, ServiceState)> = Vec::new();
            let mut i: usize = 0;
            while i < m.len()
                invariant
                    *reply == JsonValue::Object(*m),
                    i <= m.len(),
                    r@.len() == i,
                    forall|j: int| 0 <= j < i ==> (#[trigger] m@[j]).1 is String,
                    forall|j: int|
                        0 <= j < i ==> (#[trigger] r@[j]).0@ == m@[j].0@ && r@[j].1
                            == listed_state(m@[j].1),
                decreases m.len() - i,
            {
                match m[i].1.as_str() {
                    Some(text) => {
                        let state = parse_service_state(text.as_str());
                        r.push((String::from_str(m[i].0.as_str()), state));
                    },
                    None => {
                        return None;
                    },
                }
                i += 1;
            }
            assert(distinct_keys(m@) ==> distinct_keys(r@)) by {
                if distinct_keys(m@) {
                    assert forall|a: int, b: int| 0 <= a < b < r@.len() implies (#[trigger] r@[a]).0@
                        != (#[trigger] r@[b]).0@ by {
                        assert(m@[a].0@ != m@[b].0@);
                    }
                }
            }
            Some(r)
        },
        _ => None,
    }
}

/// A dependency entry as text: its name and its state, or "Unknown" when
/// the state is not a string.
pub open spec fn after_entry(e: (String, JsonValue)) -> (Seq<char>, Seq<char>) {
    (
        e.0@,
        match e.1 {
            JsonValue::String(s) => s@,
            _ => "Unknown"@,
        },
    )
}

/// The texts of a list of dependency entries.
pub open spec fn after_texts(a: Seq<(String, String)>) -> Seq<(Seq<char>, Seq<char>)> {
    a.map_values(|p: (String, String)| (p.0@, p.1@))
}

/// The dependencies an answer lists: the members of its `after` object, or none.
pub open spec fn after_of(response: JsonValue) -> Seq<(Seq<char>, Seq<char>)> {
    match member(response, "after"@) {
        Some(JsonValue::Object(m)) => m@.map_values(|e: (String, JsonValue)| after_entry(e)),
        _ => Seq::empty(),
    }
}

/// A text member of an answer, or `default` when it is missing or not a string.
pub open spec fn text_or(response: JsonValue, key: Seq<char>, default: Seq<char>) -> Seq<char> {
    match string_of_value(member(response, key)) {
        Some(t) => t,
        None => default,
    }
}

/// The names of the dependencies an answer lists are distinct, as the keys
/// of its `after` object are.
pub open spec fn after_names_distinct(response: JsonValue) -> bool {
    match member(response, "after"@) {
        Some(JsonValue::Object(m)) => distinct_keys(m@),
        _ => true,
    }
}

/// `r` carries the pid, state, target and dependencies that the answer
/// `response` gives, with the defaults 0, `Unknown`, `Down` and none.
pub open spec fn status_fields_from(r: ServiceStatus, response: JsonValue) -> bool {
    &&& r.pid == (match u64_of_value(member(response, "pid"@)) {
        Some(n) => n,
        None => 0,
    }) as u32
    &&& r.state == state_from_name(text_or(response, "state"@, "Unknown"@))
    &&& r.target == target_from_name(text_or(response, "target"@, "Down"@))
    &&& after_texts(r.after@) == after_of(response)
}

/// A status answer that leaves a field out gives its default: no process,
/// state `Unknown`, target `Down`, no dependencies; a target is `Up` only
/// when the answer says "Up".
pub proof fn lemma_status_defaults(r: ServiceStatus, response: JsonValue)
    requires
        status_fields_from(r, response),
    ensures
        member(response, "pid"@) is None ==> r.pid == 0,
        member(response, "state"@) is None ==> r.state == ServiceState::Unknown,
        member(response, "target"@) is None ==> r.target == ServiceTarget::Down,
        member(response, "after"@) is None ==> r.after@.len() == 0,
        r.target == ServiceTarget::Up <==> string_of_value(member(response, "target"@)) == Some(
            "Up"@,
        ),
{
    crate::models::lemma_state_wire_names(r.state, "Unknown"@);
    crate::models::lemma_target_wire_names(r.target, text_or(response, "target"@, "Down"@));
    reveal_strlit("Up");
    reveal_strlit("Down");
    assert("Down"@.len() == 4);
    assert("Up"@.len() == 2);
    assert(after_texts(r.after@).len() == r.after@.len());
}

fn status_from_json(response: &JsonValue, name: String) -> (r: ServiceStatus)
    ensures
        r.name == name,
        status_fields_from(r, *response),
        after_names_distinct(*response) ==> distinct_keys(r.after@),
{
    let pid = match response.get("pid") {
        Some(v) => match v.as_u64() {
            Some(n) => n,
            None => 0,
        },
        None => 0,
    };
    let state = match response.get("state") {
        Some(v) => match v.as_str() {
            Some(s) => parse_service_state(s.as_str()),
            None => parse_service_state("Unknown"),
        },
        None => parse_service_state("Unknown"),
    };
    let target = match response.get("target") {
        Some(v) => match v.as_str() {
            Some(s) => parse_service_target(s.as_str()),
            None => parse_service_target("Down"),
        },
        None => parse_service_target("Down"),
    };
    let mut after: Vec<(String, String)> = Vec::new();
    match response.get("after") {
        Some(v) => match v.as_object() {
            Some(m) => {
                let mut i: usize = 0;
                while i < m.len()
                    invariant
                        i <= m.len(),
                        after@.len() == i,
                        forall|j: int|
                            0 <= j < i ==> ((#[trigger] after@[j]).0@, after@[j].1@)
                                == after_entry(m@[j]),
                    decreases m.len() - i,
                {
                    let key = String::from_str(m[i].0.as_str());
                    let value = match m[i].1.as_str() {
                        Some(s) => String::from_str(s.as_str()),
                        None => String::from_str("Unknown"),
                    };
                    assert((key@, value@) == after_entry(m@[i as int]));
                    after.push((key, value));
                    i += 1;
                }
                assert(after_texts(after@) =~= m@.map_values(
                    |e: (String, JsonValue)| after_entry(e),
                ));
                assert(distinct_keys(m@) ==> distinct_keys(after@)) by {
                    if distinct_keys(m@) {
                        assert forall|a: int, b: int| 0 <= a < b < after@.len() implies (
                        #[trigger] after@[a]).0@ != (#[trigger] after@[b]).0@ by {
                            assert(m@[a].0@ != m@[b].0@);
                        }
                    }
                }
            },
            None => {
                assert(after_texts(after@) =~= Seq::<(Seq<char>, Seq<char>)>::empty());
            },
        },
        None => {
            assert(after_texts(after@) =~= Seq::<(Seq<char>, Seq<char>)>::empty());
        },
    }
    ServiceStatus { name, pid: pid as u32, state, target, after }
}

/// The status of `service_name` that the answer `response` describes.
///
/// Over JSON-RPC the name comes from the answer, defaulting to
/// `service_name`. Over the raw protocol `decoded` is the answer read as a
/// complete status record, if it is one, and is taken as it is; otherwise the
/// name is `service_name`. Missing fields default to pid 0, state `Unknown`,
/// target `Down` and no dependencies.
pub fn parse_status_response(
    protocol: Protocol,
    response: &JsonValue,
    decoded: Option<ServiceStatus>,
    service_name: &str,
) -> (r: ServiceStatus)
    ensures
        protocol == Protocol::JsonRpc ==> r.name@ == text_or(*response, "name"@, service_name@)
            && status_fields_from(r, *response),
        protocol == Protocol::RawCommands ==> match decoded {
            Some(d) => r == d,
            None => r.name@ == service_name@ && status_fields_from(r, *response),
        },
        (protocol == Protocol::JsonRpc || decoded is None) && after_names_distinct(*response)
            ==> distinct_keys(r.after@),
        decoded matches Some(d) && protocol == Protocol::RawCommands && distinct_keys(d.after@)
            ==> distinct_keys(r.after@),
{
    match protocol {
        Protocol::JsonRpc => {
            let name = match response.get("name") {
                Some(v) => match v.as_str() {
                    Some(s) => String::from_str(s.as_str()),
                    None => String::from_str(service_name),
                },
                None => String::from_str(service_name),
            };
            status_from_json(response, name)
        },
        Protocol::RawCommands => match decoded {
            Some(mut status) => {
                let ghost before = status;
                let state_text = status.state.to_string();
                status.state = parse_service_state(state_text.as_str());
                let target_text = status.target.to_string();
                status.target = parse_service_target(target_text.as_str());
                proof {
                    lemma_state_name_roundtrip(before.state);
                    lemma_target_name_roundtrip(before.target);
                }
                status
            },
            None => status_from_json(response, String::from_str(service_name)),
        },
    }
}

} // verus!

verus! {

// ---------------------------------------------------------------------------
// Log lines.

/// `s` without its leading `(`s and then its trailing `)`s.
pub open spec fn strip_parens(s: Seq<char>) -> Seq<char> {
    let t = s.subrange(skip_char(s, '(', 0), s.len() as int);
    t.subrange(0, rskip_char(t, ')', t.len() as int))
}

/// The level, service and message of a log line `zinit: LEVEL (service) message`:
/// the line split at its first three spaces, when it has three spaces and its
/// first part starts with "zinit:".
pub open spec fn log_fields(l: Seq<char>) -> Option<(Seq<char>, Seq<char>, Seq<char>)> {
    let s1 = index_of_from(l, ' ', 0);
    let s2 = index_of_from(l, ' ', s1 + 1);
    let s3 = index_of_from(l, ' ', s2 + 1);
    if s3 < l.len() && has_prefix(l.subrange(0, s1), "zinit:"@) {
        Some((l.subrange(s1 + 1, s2), strip_parens(l.subrange(s2 + 1, s3)), l.subrange(s3 + 1, l.len() as int)))
    } else {
        None
    }
}

/// Parses a log line, read at time `now` (UTC), into an entry. Lines that
/// are not `zinit: LEVEL (service) message`, and lines of services other
/// than `filter` when it is given, give `None`. The message is
/// `[LEVEL] message`.
pub fn parse_log_line(line: &str, filter: &Option<String>, now: chrono::NaiveDateTime) -> (r:
    Option<LogEntry>)
    ensures
        match log_fields(line@) {
            None => r is None,
            Some((level, service, message)) => if filter matches Some(f) && f@ != service {
                r is None
            } else {
                r matches Some(e) && e.service@ == service && e.message@ == "["@ + level + "] "@
                    + message && e.timestamp == now
            },
        },
{
    let l = to_chars(line);
    let s1 = index_of(&l, ' ', 0);
    proof {
        lemma_index_of_from_bounds(l@, ' ', 0);
    }
    if s1 >= l.len() {
        return None;
    }
    let s2 = index_of(&l, ' ', s1 + 1);
    proof {
        lemma_index_of_from_bounds(l@, ' ', s1 + 1);
    }
    if s2 >= l.len() {
        return None;
    }
    let s3 = index_of(&l, ' ', s2 + 1);
    proof {
        lemma_index_of_from_bounds(l@, ' ', s2 + 1);
    }
    if s3 >= l.len() {
        return None;
    }
    let head = sub_vec(&l, 0, s1);
    if !starts_with(&head, &to_chars("zinit:")) {
        return None;
    }
    let raw = sub_vec(&l, s2 + 1, s3);
    let a = skip_char_at(&raw, '(', 0);
    proof {
        lemma_skip_char_bounds(raw@, '(', 0);
    }
    let t = sub_vec(&raw, a, raw.len());
    let b = rskip_char_at(&t, ')', t.len());
    proof {
        lemma_rskip_char_bounds(t@, ')', t@.len() as int);
    }
    let service = sub_vec(&t, 0, b);
    assert(service@ == strip_parens(l@.subrange(s2 + 1, s3 as int)));
    if let Some(f) = filter {
        let fc = to_chars(f.as_str());
        if !seq_eq_vec(&fc, &service) {
            return None;
        }
    }
    let mut message = String::from_str("[");
    let level = string_of(&l, s1 + 1, s2);
    message.append(level.as_str());
    message.append("] ");
    let rest = string_of(&l, s3 + 1, l.len());
    message.append(rest.as_str());
    let service_name = string_of(&service, 0, service.len());
    assert(service_name@ =~= service@);
    Some(LogEntry { timestamp: now, service: service_name, message })
}

// ---------------------------------------------------------------------------
// Protocol detection.

/// Where protocol detection stands.
#[derive(Debug)]
pub enum Detection {
    /// A JSON-RPC `service_list` probe is to be sent.
    ProbeJsonRpc,
    /// A raw `list` probe is to be sent.
    ProbeRaw,
    /// The server speaks this protocol.
    Detected(Protocol),
    /// Detection failed, for this reason.
    Failed(String),
}

/// The text that marks a success answer of the raw protocol.
pub open spec fn raw_ok_marker() -> Seq<char> {
    "\"state\":\"ok\""@
}

/// The text that marks an error answer of the raw protocol.
pub open spec fn raw_error_marker() -> Seq<char> {
    "\"state\":\"error\""@
}

/// The texts of a reply: the answer, or the text of the error that
/// prevented one.
pub open spec fn reply_texts(reply: Result<String, String>) -> Result<Seq<char>, Seq<char>> {
    match reply {
        Ok(t) => Ok(t@),
        Err(e) => Err(e@),
    }
}

/// An answer to the JSON-RPC probe shows a JSON-RPC server when it decodes
/// as a JSON-RPC 2.0 response. An answer in the raw envelope does not
/// decode so, even when it quotes the probe.
pub open spec fn is_json_rpc_answer(
    reply: Result<Result<JsonRpcResponse, serde_json::Error>, String>,
) -> bool {
    reply matches Ok(Ok(resp)) && resp.jsonrpc@ == "2.0"@
}

/// `n` is where detection stands after the JSON-RPC probe received `reply`:
/// JSON-RPC when the answer shows a JSON-RPC server, else the raw probe.
pub open spec fn after_json_rpc_probe(
    reply: Result<Result<JsonRpcResponse, serde_json::Error>, String>,
    n: Detection,
) -> bool {
    if is_json_rpc_answer(reply) {
        n == Detection::Detected(Protocol::JsonRpc)
    } else {
        n is ProbeRaw
    }
}

/// `n` is where detection stands after the raw probe received `reply`: the
/// raw protocol when the answer carries a raw envelope marker, else failure
/// with the reason.
pub open spec fn after_raw_probe(reply: Result<Seq<char>, Seq<char>>, n: Detection) -> bool {
    match reply {
        Ok(t) => if has_substring(t, raw_ok_marker()) || has_substring(t, raw_error_marker()) {
            n == Detection::Detected(Protocol::RawCommands)
        } else {
            n matches Detection::Failed(m) && m@ == "Unable to determine server protocol"@
        },
        Err(e) => n matches Detection::Failed(m) && m@ == "Failed to detect protocol: "@ + e,
    }
}

/// The raw probe detects the raw protocol exactly when its answer carries
/// the raw envelope's `"state":"ok"` or `"state":"error"`; an answer without
/// either, or no answer, ends detection in failure.
pub proof fn lemma_raw_envelope_detected(reply: Result<Seq<char>, Seq<char>>, n: Detection)
    requires
        after_raw_probe(reply, n),
    ensures
        n == Detection::Detected(Protocol::RawCommands) <==> (reply matches Ok(t) && (
        has_substring(t, "\"state\":\"ok\""@) || has_substring(t, "\"state\":\"error\""@))),
        !(n == Detection::Detected(Protocol::RawCommands)) ==> n is Failed,
{
}

impl Detection {
    /// Detection starts with a JSON-RPC probe.
    pub fn new() -> (r: Self)
        ensures
            r is ProbeJsonRpc,
    {
        Detection::ProbeJsonRpc
    }

    /// Whether a probe is still to be sent.
    pub fn is_probing(&self) -> (r: bool)
        ensures
            r == (self is ProbeJsonRpc || self is ProbeRaw),
    {
        match self {
            Detection::ProbeJsonRpc | Detection::ProbeRaw => true,
            _ => false,
        }
    }

    /// The probe to send: `service_list` with no parameters over JSON-RPC,
    /// or the raw command `list`.
    pub fn probe(&self, id: u64) -> (r: crate::protocol::FormattedRequest)
        requires
            self is ProbeJsonRpc || self is ProbeRaw,
        ensures
            self is ProbeJsonRpc ==> (r matches crate::protocol::FormattedRequest::JsonRpc(req) && {
                &&& req.jsonrpc@ == "2.0"@
                &&& req.method@ == "service_list"@
                &&& req.id == id
                &&& req.params matches JsonValue::Array(items) && items@.len() == 0
            }),
            self is ProbeRaw ==> (r matches crate::protocol::FormattedRequest::Raw(s) && s@
                == "list"@),
    {
        match self {
            Detection::ProbeJsonRpc => crate::protocol::FormattedRequest::JsonRpc(
                crate::models::JsonRpcRequest::new("service_list", JsonValue::Array(Vec::new()), id),
            ),
            _ => crate::protocol::FormattedRequest::Raw(String::from_str("list")),
        }
    }

    /// Where detection stands after the JSON-RPC probe received `reply`: the
    /// answer decoded as a JSON-RPC response, or the text of the error that
    /// prevented an answer.
    pub fn on_json_rpc_reply(
        self,
        reply: Result<Result<JsonRpcResponse, serde_json::Error>, String>,
    ) -> (r: Self)
        requires
            self is ProbeJsonRpc,
        ensures
            after_json_rpc_probe(reply, r),
    {
        match reply {
            Ok(Ok(resp)) => {
                if str_eq(resp.jsonrpc.as_str(), "2.0") {
                    Detection::Detected(Protocol::JsonRpc)
                } else {
                    Detection::ProbeRaw
                }
            },
            _ => Detection::ProbeRaw,
        }
    }

    /// Where detection stands after the raw probe received `reply`: the
    /// server's answer, or the text of the error that prevented one.
    pub fn on_raw_reply(self, reply: Result<String, String>) -> (r: Self)
        requires
            self is ProbeRaw,
        ensures
            after_raw_probe(reply_texts(reply), r),
    {
        match reply {
            Ok(t) => {
                let c = to_chars(t.as_str());
                if contains(&c, &to_chars("\"state\":\"ok\"")) || contains(
                    &c,
                    &to_chars("\"state\":\"error\""),
                ) {
                    Detection::Detected(Protocol::RawCommands)
                } else {
                    Detection::Failed(String::from_str("Unable to determine server protocol"))
                }
            },
            Err(e) => {
                let mut m = String::from_str("Failed to detect protocol: ");
                m.append(e.as_str());
                Detection::Failed(m)
            },
        }
    }

    /// The outcome, once detection is over.
    pub fn outcome(self) -> (r: Option<Result<Protocol, ZinitError>>)
        ensures
            self matches Detection::Detected(p) ==> r == Some(Ok::<Protocol, ZinitError>(p)),
            self matches Detection::Failed(m) ==> r == Some(
                Err::<Protocol, ZinitError>(ZinitError::ProtocolDetectionFailed(m)),
            ),
            (self is ProbeJsonRpc || self is ProbeRaw) ==> r is None,
    {
        match self {
            Detection::Detected(p) => Some(Ok(p)),
            Detection::Failed(m) => Some(Err(ZinitError::ProtocolDetectionFailed(m))),
            _ => None,
        }
    }
}

/// Detection ends after at most two probes: the JSON-RPC probe either finds
/// JSON-RPC or leads to the raw probe, and the raw probe always ends
/// detection. JSON-RPC is chosen only on an answer that decodes as a
/// JSON-RPC 2.0 response.
pub proof fn lemma_detection_ends_after_two_probes(
    r1: Result<Result<JsonRpcResponse, serde_json::Error>, String>,
    r2: Result<Seq<char>, Seq<char>>,
    d1: Detection,
    d2: Detection,
)
    requires
        after_json_rpc_probe(r1, d1),
        d1 is ProbeRaw ==> after_raw_probe(r2, d2),
    ensures
        d1 == Detection::Detected(Protocol::JsonRpc) ==> is_json_rpc_answer(r1),
        d1 == Detection::Detected(Protocol::JsonRpc) || (d1 is ProbeRaw && (d2 == Detection::Detected(
            Protocol::RawCommands,
        ) || d2 is Failed)),
{
}

// ---------------------------------------------------------------------------
// Waiting for a service to stop.

/// Polls allowed while restarting a service, one second apart.
pub const RESTART_MAX_POLLS: u32 = 20;

/// Milliseconds between polls while restarting a service.
pub const RESTART_POLL_INTERVAL_MS: u64 = 1000;

/// Polls allowed while deleting a service, half a second apart.
pub const DELETE_MAX_POLLS: u32 = 10;

/// Milliseconds between polls while deleting a service.
pub const DELETE_POLL_INTERVAL_MS: u64 = 500;

/// A service is stopped when it has no process and its target is `Down`.
pub open spec fn is_stopped(status: ServiceStatus) -> bool {
    status.pid == 0 && status.target == ServiceTarget::Down
}

/// A service is stopped exactly when it has no process and is meant to be
/// down: one with a live process, or meant to be up, is never stopped.
pub proof fn lemma_stopped_means_no_process(status: ServiceStatus)
    ensures
        status.pid != 0 ==> !is_stopped(status),
        status.target == ServiceTarget::Up ==> !is_stopped(status),
        status.pid == 0 && status.target == ServiceTarget::Down ==> is_stopped(status),
{
}

/// Whether `status` shows a stopped service.
pub fn service_is_stopped(status: &ServiceStatus) -> (r: bool)
    ensures
        r == is_stopped(*status),
{
    status.pid == 0 && status.target == ServiceTarget::Down
}

/// Whether a service must be stopped before it is deleted: it is running or
/// meant to be up.
pub fn needs_stop_before_delete(status: &ServiceStatus) -> (r: bool)
    ensures
        r == (status.state == ServiceState::Running || status.target == ServiceTarget::Up),
{
    status.state == ServiceState::Running || status.target == ServiceTarget::Up
}

/// What to do after a status poll while waiting for a service to stop.
#[derive(Debug, Clone, Copy, PartialEq, Eq, Structural)]
pub enum WaitStep {
    /// The service has stopped.
    Stopped,
    /// Sleep, then poll again.
    PollAgain,
    /// Sleep, then stop waiting: the poll budget is spent.
    GiveUp,
}

/// Waiting for a service to stop, with a budget of polls.
#[derive(Debug, Clone, Copy)]
pub struct StopWait {
    /// Polls that found the service still up
    pub polls: u32,
    /// Polls allowed
    pub max_polls: u32,
}

impl StopWait {
    /// A wait allowing `max_polls` polls.
    pub fn new(max_polls: u32) -> (r: Self)
        ensures
            r.polls == 0,
            r.max_polls == max_polls,
    {
        StopWait { polls: 0, max_polls }
    }

    /// The next step after a poll found `status`: `Stopped` when the service
    /// is stopped; otherwise the poll is counted, and the wait goes on while
    /// polls remain.
    pub fn on_status(&mut self, status: &ServiceStatus) -> (r: WaitStep)
        requires
            old(self).polls < old(self).max_polls,
        ensures
            final(self).max_polls == old(self).max_polls,
            is_stopped(*status) ==> r == WaitStep::Stopped && final(self).polls == old(self).polls,
            !is_stopped(*status) ==> final(self).polls == old(self).polls + 1,
            !is_stopped(*status) && old(self).polls + 1 < old(self).max_polls ==> r
                == WaitStep::PollAgain,
            !is_stopped(*status) && old(self).polls + 1 == old(self).max_polls ==> r
                == WaitStep::GiveUp,
            r == WaitStep::Stopped <==> (status.pid == 0 && status.target == ServiceTarget::Down),
    {
        proof {
            lemma_stopped_means_no_process(*status);
        }
        if service_is_stopped(status) {
            return WaitStep::Stopped;
        }
        self.polls = self.polls + 1;
        if self.polls < self.max_polls {
            WaitStep::PollAgain
        } else {
            WaitStep::GiveUp
        }
    }
}

/// What a restart does after a status poll of the service it stopped.
#[derive(Debug, Clone, Copy, PartialEq, Eq, Structural)]
pub enum RestartAction {
    /// The service has stopped: start it.
    Start,
    /// Sleep for the poll interval, then poll again.
    SleepThenPoll,
    /// Sleep for the poll interval, then kill the service with the restart
    /// signal and start it.
    SleepThenKillAndStart,
}

/// The restart action that follows `step`: a stopped service is started, a
/// running one polled again while polls remain, and killed then started
/// once they are spent.
pub fn restart_action(step: WaitStep) -> (r: RestartAction)
    ensures
        r == match step {
            WaitStep::Stopped => RestartAction::Start,
            WaitStep::PollAgain => RestartAction::SleepThenPoll,
            WaitStep::GiveUp => RestartAction::SleepThenKillAndStart,
        },
{
    match step {
        WaitStep::Stopped => RestartAction::Start,
        WaitStep::PollAgain => RestartAction::SleepThenPoll,
        WaitStep::GiveUp => RestartAction::SleepThenKillAndStart,
    }
}

/// The signal a restart sends to a service that did not stop in time.
pub fn restart_kill_signal() -> (r: String)
    ensures
        r@ == "SIGKILL"@,
{
    String::from_str("SIGKILL")
}

/// What a delete does after a status poll of the service it stopped.
#[derive(Debug, Clone, Copy, PartialEq, Eq, Structural)]
pub enum DeleteAction {
    /// The service has stopped: forget it.
    Forget,
    /// Sleep for the poll interval, then poll again.
    SleepThenPoll,
    /// Sleep for the poll interval, then forget the service all the same.
    SleepThenForget,
}

/// The delete action that follows `step`: a stopped service is forgotten, a
/// running one polled again while polls remain, and forgotten anyway once
/// they are spent.
pub fn delete_action(step: WaitStep) -> (r: DeleteAction)
    ensures
        r == match step {
            WaitStep::Stopped => DeleteAction::Forget,
            WaitStep::PollAgain => DeleteAction::SleepThenPoll,
            WaitStep::GiveUp => DeleteAction::SleepThenForget,
        },
{
    match step {
        WaitStep::Stopped => DeleteAction::Forget,
        WaitStep::PollAgain => DeleteAction::SleepThenPoll,
        WaitStep::GiveUp => DeleteAction::SleepThenForget,
    }
}

} // verus!
