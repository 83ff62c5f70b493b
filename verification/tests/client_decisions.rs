use zinit_client::client::{
    action_command, create_service_command, delete_action, kill_command, list_command, log_command,
    needs_stop_before_delete, parse_log_line, parse_status_response, restart_action,
    restart_kill_signal, service_is_stopped, service_states_of, status_command, system_command,
    DELETE_MAX_POLLS, RESTART_MAX_POLLS,
};
use zinit_client::{
    ClientConfig, DeleteAction, Detection, JsonNumber, JsonRpcResponse, JsonValue, Protocol, ServerCapabilities,
    ServiceAction, ServiceState, ServiceStatus, ServiceTarget, RestartAction, StopWait, SystemAction,
    WaitStep, ZinitError,
};
use zinit_client::protocol::FormattedRequest;

fn s(x: &str) -> JsonValue {
    JsonValue::String(x.to_string())
}

fn status_json() -> JsonValue {
    JsonValue::Object(vec![
        ("after".to_string(), JsonValue::Object(vec![
            ("db".to_string(), s("Running")),
            ("net".to_string(), JsonValue::Null),
        ])),
        ("name".to_string(), s("web")),
        ("pid".to_string(), JsonValue::Number(JsonNumber::PosInt(1001))),
        ("state".to_string(), s("Running")),
        ("target".to_string(), s("Up")),
    ])
}

fn status(pid: u32, state: ServiceState, target: ServiceTarget) -> ServiceStatus {
    ServiceStatus { name: "svc".to_string(), pid, state, target, after: vec![] }
}

#[test]
fn json_rpc_status_reads_every_field() {
    let st = parse_status_response(Protocol::JsonRpc, &status_json(), None, "asked");
    assert_eq!(st.name, "web");
    assert_eq!(st.pid, 1001);
    assert_eq!(st.state, ServiceState::Running);
    assert_eq!(st.target, ServiceTarget::Up);
    assert_eq!(st.after, vec![("db".to_string(), "Running".to_string()), ("net".to_string(), "Unknown".to_string())]);
}

#[test]
fn status_fields_default_when_missing() {
    let st = parse_status_response(Protocol::JsonRpc, &JsonValue::Object(vec![]), None, "asked");
    assert_eq!(st.name, "asked");
    assert_eq!(st.pid, 0);
    assert_eq!(st.state, ServiceState::Unknown);
    assert_eq!(st.target, ServiceTarget::Down);
    assert!(st.after.is_empty());
    let odd = JsonValue::Object(vec![
        ("pid".to_string(), JsonValue::Number(JsonNumber::NegInt(-4))),
        ("state".to_string(), s("Sleeping")),
        ("target".to_string(), s("Sideways")),
    ]);
    let st = parse_status_response(Protocol::JsonRpc, &odd, None, "asked");
    assert_eq!(st.pid, 0);
    assert_eq!(st.state, ServiceState::Unknown);
    assert_eq!(st.target, ServiceTarget::Down);
}

#[test]
fn pid_is_truncated_to_32_bits() {
    let big = JsonValue::Object(vec![("pid".to_string(), JsonValue::Number(JsonNumber::PosInt(0x1_0000_0005)))]);
    assert_eq!(parse_status_response(Protocol::JsonRpc, &big, None, "x").pid, 5);
}

#[test]
fn raw_status_prefers_the_complete_record() {
    let decoded = status(7, ServiceState::Success, ServiceTarget::Down);
    let st = parse_status_response(Protocol::RawCommands, &status_json(), Some(decoded), "asked");
    assert_eq!(st.name, "svc");
    assert_eq!(st.pid, 7);
    assert_eq!(st.state, ServiceState::Success);
    let st = parse_status_response(Protocol::RawCommands, &status_json(), None, "asked");
    assert_eq!(st.name, "asked");
    assert_eq!(st.pid, 1001);
}

#[test]
fn list_maps_state_names() {
    let reply = JsonValue::Object(vec![
        ("a".to_string(), s("Running")),
        ("b".to_string(), s("TestFailure")),
        ("c".to_string(), s("whatever")),
    ]);
    assert_eq!(service_states_of(&reply), Some(vec![
        ("a".to_string(), ServiceState::Running),
        ("b".to_string(), ServiceState::TestFailure),
        ("c".to_string(), ServiceState::Unknown),
    ]));
    let bad = JsonValue::Object(vec![("a".to_string(), JsonValue::Null)]);
    assert_eq!(service_states_of(&bad), None);
    assert_eq!(service_states_of(&JsonValue::Null), None);
    assert_eq!(service_states_of(&JsonValue::Object(vec![])), Some(vec![]));
}

#[test]
fn operations_by_protocol() {
    let c = action_command(Protocol::JsonRpc, ServiceAction::Start, "web");
    assert_eq!(c.method, "service_start");
    assert_eq!(c.args, vec!["web".to_string()]);
    assert_eq!(action_command(Protocol::RawCommands, ServiceAction::Forget, "web").method, "forget");
    assert_eq!(action_command(Protocol::JsonRpc, ServiceAction::Monitor, "web").method, "service_monitor");
    let k = kill_command(Protocol::RawCommands, "web", "SIGTERM");
    assert_eq!(k.method, "kill");
    assert_eq!(k.args, vec!["web".to_string(), "SIGTERM".to_string()]);
    assert_eq!(kill_command(Protocol::JsonRpc, "web", "SIGTERM").method, "service_kill");
    assert_eq!(system_command(Protocol::JsonRpc, SystemAction::Reboot).method, "system_reboot");
    assert_eq!(system_command(Protocol::RawCommands, SystemAction::Shutdown).method, "shutdown");
}

#[test]
fn commands_by_protocol() {
    assert_eq!(list_command(Protocol::JsonRpc).method, "service_list");
    assert_eq!(list_command(Protocol::RawCommands).method, "list");
    let c = status_command(Protocol::RawCommands, "web");
    assert_eq!(c.method, "status");
    assert_eq!(c.args, vec!["web".to_string()]);
    let c = status_command(Protocol::JsonRpc, "web");
    assert_eq!(c.method, "service_status");
    assert!(matches!(c.params, Some(JsonValue::Array(ref items)) if items.len() == 1));
    assert_eq!(log_command(true), "log");
    assert_eq!(log_command(false), "log snapshot");
}

#[test]
fn create_service_needs_a_json_rpc_server() {
    let legacy = ServerCapabilities::legacy();
    match create_service_command(&legacy, Protocol::RawCommands, "app", JsonValue::Null) {
        Err(ZinitError::FeatureNotSupported(m)) => assert_eq!(
            m,
            "Dynamic service creation is not supported by this zinit server (Raw Commands). Please create a service configuration file manually in /etc/zinit/app.yaml"
        ),
        other => panic!("unexpected {:?}", other),
    }
    let full = ServerCapabilities::full();
    match create_service_command(&full, Protocol::RawCommands, "app", JsonValue::Null) {
        Err(ZinitError::FeatureNotSupported(m)) => assert_eq!(m, "Dynamic service creation requires zinit v0.2.25+"),
        other => panic!("unexpected {:?}", other),
    }
    match create_service_command(&full, Protocol::JsonRpc, "app", JsonValue::Bool(true)) {
        Ok(c) => {
            assert_eq!(c.method, "service_create");
            match c.params {
                Some(JsonValue::Array(items)) => {
                    assert!(matches!(&items[0], JsonValue::String(n) if n == "app"));
                    assert!(matches!(&items[1], JsonValue::Bool(true)));
                }
                other => panic!("unexpected {:?}", other),
            }
        }
        other => panic!("unexpected {:?}", other),
    }
}

fn now() -> chrono::NaiveDateTime {
    chrono::DateTime::from_timestamp(1_700_000_000, 0).unwrap().naive_utc()
}

#[test]
fn log_lines() {
    let e = parse_log_line("zinit: INFO (web) listening on :80", &None, now()).expect("entry");
    assert_eq!(e.service, "web");
    assert_eq!(e.message, "[INFO] listening on :80");
    assert_eq!(e.timestamp, now());
    assert!(parse_log_line("zinit: INFO (web) x", &Some("db".to_string()), now()).is_none());
    assert!(parse_log_line("zinit: INFO (web) x", &Some("web".to_string()), now()).is_some());
    assert!(parse_log_line("other: INFO (web) x", &None, now()).is_none());
    assert!(parse_log_line("zinit: INFO (web)", &None, now()).is_none());
    let e = parse_log_line("zinit:x ERROR ((db)) ", &None, now()).expect("entry");
    assert_eq!(e.service, "db");
    assert_eq!(e.message, "[ERROR] ");
}

fn rpc_answer() -> JsonRpcResponse {
    JsonRpcResponse {
        jsonrpc: "2.0".to_string(),
        id: Some(1),
        result: Some(JsonValue::Object(vec![])),
        error: None,
    }
}

#[test]
fn detection_prefers_json_rpc() {
    let d = Detection::new();
    assert!(matches!(d.probe(1), FormattedRequest::JsonRpc(ref r) if r.method == "service_list"));
    let d = d.on_json_rpc_reply(Ok(Ok(rpc_answer())));
    assert!(matches!(d.outcome(), Some(Ok(Protocol::JsonRpc))));
}

#[test]
fn detection_falls_back_to_raw() {
    let d = Detection::new().on_json_rpc_reply(Err("Connection error".to_string()));
    assert!(d.is_probing());
    assert!(matches!(d.probe(2), FormattedRequest::Raw(ref s) if s == "list"));
    let d = d.on_raw_reply(Ok("{\"state\":\"ok\",\"body\":{}}".to_string()));
    assert!(matches!(d.outcome(), Some(Ok(Protocol::RawCommands))));
}

#[test]
fn raw_error_echoing_the_probe_is_not_json_rpc() {
    // A raw-protocol server answers the JSON-RPC probe with an error envelope
    // that pastes the probe in unescaped; that answer does not decode as a
    // JSON-RPC response (it is not even well-formed JSON).
    let probe = "{\"jsonrpc\":\"2.0\",\"method\":\"service_list\",\"params\":[],\"id\":1}";
    let answer = format!("{{\"state\":\"error\",\"body\":\"unknown command '{}' or wrong arguments count\"}}", probe);
    assert!(answer.contains("\"jsonrpc\":\"2.0\""));
    let decode_error = serde_json::from_str::<serde_json::Value>(&answer).unwrap_err();
    let d = Detection::new().on_json_rpc_reply(Ok(Err(decode_error)));
    assert!(d.is_probing());
    let d = d.on_raw_reply(Ok("{\"state\":\"ok\",\"body\":{\"web-server\":\"Running\",\"database\":\"Running\"}}".to_string()));
    assert!(matches!(d.outcome(), Some(Ok(Protocol::RawCommands))));
    let mut other = rpc_answer();
    other.jsonrpc = "1.0".to_string();
    assert!(Detection::new().on_json_rpc_reply(Ok(Ok(other))).is_probing());
}

#[test]
fn detection_fails_with_a_reason() {
    let d = Detection::new().on_json_rpc_reply(Err("x".to_string())).on_raw_reply(Ok("hello".to_string()));
    assert!(matches!(d.outcome(), Some(Err(ZinitError::ProtocolDetectionFailed(m))) if m == "Unable to determine server protocol"));
    let d = Detection::new().on_json_rpc_reply(Err("x".to_string())).on_raw_reply(Err("boom".to_string()));
    assert!(matches!(d.outcome(), Some(Err(ZinitError::ProtocolDetectionFailed(m))) if m == "Failed to detect protocol: boom"));
}

#[test]
fn waiting_for_a_stop() {
    let mut w = StopWait::new(3);
    let up = status(42, ServiceState::Running, ServiceTarget::Up);
    assert_eq!(w.on_status(&up), WaitStep::PollAgain);
    assert_eq!(w.on_status(&up), WaitStep::PollAgain);
    assert_eq!(w.on_status(&up), WaitStep::GiveUp);
    let mut w = StopWait::new(RESTART_MAX_POLLS);
    assert_eq!(w.on_status(&status(0, ServiceState::Success, ServiceTarget::Down)), WaitStep::Stopped);
    assert_eq!(w.polls, 0);
    assert_eq!(DELETE_MAX_POLLS, 10);
    assert!(!service_is_stopped(&status(0, ServiceState::Success, ServiceTarget::Up)));
    assert!(needs_stop_before_delete(&status(0, ServiceState::Unknown, ServiceTarget::Up)));
    assert!(needs_stop_before_delete(&status(3, ServiceState::Running, ServiceTarget::Down)));
    assert!(!needs_stop_before_delete(&status(0, ServiceState::Success, ServiceTarget::Down)));
}

#[test]
fn default_configuration() {
    let c = ClientConfig::default();
    assert_eq!(c.socket_path, std::path::PathBuf::from("/var/run/zinit.sock"));
    assert_eq!(c.connection_timeout, std::time::Duration::from_secs(5));
    assert_eq!(c.operation_timeout, std::time::Duration::from_secs(30));
    assert_eq!(c.max_retries, 3);
    assert_eq!(c.retry_delay, std::time::Duration::from_millis(100));
    assert_eq!(c.max_retry_delay, std::time::Duration::from_secs(5));
    assert!(c.retry_jitter);
    let copy = c.clone();
    assert_eq!(copy.socket_path, c.socket_path);
    assert_eq!(copy.max_retry_delay, c.max_retry_delay);
    let m = ClientConfig::for_socket(std::path::PathBuf::from("/tmp/z.sock")).connection_manager();
    assert_eq!(m.socket_path(), &std::path::PathBuf::from("/tmp/z.sock"));
    assert_eq!(m.operation_timeout(), std::time::Duration::from_secs(30));
    assert_eq!(m.retry_strategy().max_retries(), 3);
}

#[test]
fn restart_after_each_poll() {
    let mut w = StopWait::new(2);
    let up = status(42, ServiceState::Running, ServiceTarget::Up);
    assert_eq!(restart_action(w.on_status(&up)), RestartAction::SleepThenPoll);
    assert_eq!(restart_action(w.on_status(&up)), RestartAction::SleepThenKillAndStart);
    assert_eq!(restart_action(WaitStep::Stopped), RestartAction::Start);
    assert_eq!(restart_kill_signal(), "SIGKILL");
}

#[test]
fn delete_after_each_poll() {
    let mut w = StopWait::new(DELETE_MAX_POLLS);
    let up = status(42, ServiceState::Running, ServiceTarget::Up);
    assert_eq!(delete_action(w.on_status(&up)), DeleteAction::SleepThenPoll);
    let down = status(0, ServiceState::Success, ServiceTarget::Down);
    assert_eq!(delete_action(w.on_status(&down)), DeleteAction::Forget);
    assert_eq!(delete_action(WaitStep::GiveUp), DeleteAction::SleepThenForget);
}

#[test]
fn listed_names_stay_distinct() {
    let reply = JsonValue::Object(vec![
        ("b".to_string(), s("Running")),
        ("a".to_string(), s("Blocked")),
        ("c".to_string(), s("Spawned")),
    ]);
    let names: Vec<String> = service_states_of(&reply).unwrap().into_iter().map(|p| p.0).collect();
    assert_eq!(names, vec!["b".to_string(), "a".to_string(), "c".to_string()]);
    let st = parse_status_response(Protocol::JsonRpc, &status_json(), None, "asked");
    let deps: Vec<&String> = st.after.iter().map(|p| &p.0).collect();
    assert_eq!(deps, vec!["db", "net"]);
}
