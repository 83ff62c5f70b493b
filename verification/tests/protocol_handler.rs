use zinit_client::protocol::{extract_service_name, DecodedReply, FormattedRequest, ProtocolHandler};
use zinit_client::{
    JsonRpcError, JsonRpcResponse, JsonValue, Protocol, Response, ResponseState, ZinitError,
};

fn decode_error() -> serde_json::Error {
    serde_json::from_str::<serde_json::Value>("{").unwrap_err()
}

fn error_envelope(msg: &str) -> Response {
    Response {
        state: ResponseState::Error,
        body: JsonValue::String(msg.to_string()),
        body_text: Some(format!("\"{}\"", msg)),
    }
}

fn raw_error(msg: &str) -> ZinitError {
    match ProtocolHandler::parse_response("{...}", Ok(error_envelope(msg))) {
        Err(e) => e,
        Ok(v) => panic!("expected an error, got {:?}", v),
    }
}

#[test]
fn format_command_joins_arguments_with_spaces() {
    assert_eq!(ProtocolHandler::format_command("start", &["web"]), "start web");
    assert_eq!(ProtocolHandler::format_command("kill", &["web", "SIGTERM"]), "kill web SIGTERM");
    assert_eq!(ProtocolHandler::format_command("list", &[]), "list");
    assert_eq!(ProtocolHandler::format_raw_command("status", &["db"]), "status db");
}

#[test]
fn extract_service_name_takes_quoted_text() {
    assert_eq!(extract_service_name("service name \"web\" unknown"), "web");
    assert_eq!(extract_service_name("service \"db\" is up"), "db");
    assert_eq!(extract_service_name("unterminated \"tail"), "tail");
    assert_eq!(extract_service_name("two \"a\" and \"b\""), "a");
}

#[test]
fn extract_service_name_falls_back_to_a_word() {
    assert_eq!(extract_service_name("service web is down"), "web");
    assert_eq!(extract_service_name("  myservice   service  "), "unknown");
    assert_eq!(extract_service_name(""), "unknown");
    assert_eq!(extract_service_name("unknown service"), "unknown");
}

#[test]
fn log_text_is_passed_through() {
    let text = "zinit: INFO (web) started";
    match ProtocolHandler::parse_response(text, Err(decode_error())) {
        Ok(JsonValue::String(s)) => assert_eq!(s, text),
        other => panic!("unexpected {:?}", other),
    }
}

#[test]
fn ok_envelope_gives_its_body() {
    let resp = Response { state: ResponseState::Success, body: JsonValue::Bool(true), body_text: None };
    match ProtocolHandler::parse_response("{\"state\":\"ok\",\"body\":true}", Ok(resp)) {
        Ok(JsonValue::Bool(true)) => {}
        other => panic!("unexpected {:?}", other),
    }
}

#[test]
fn undecodable_reply_is_a_parse_error() {
    match ProtocolHandler::parse_raw_response("garbage", Err(decode_error())) {
        Err(ZinitError::ParseError(_)) => {}
        other => panic!("unexpected {:?}", other),
    }
}

#[test]
fn error_messages_become_typed_errors() {
    assert!(matches!(raw_error("service name \"web\" unknown"), ZinitError::UnknownService(s) if s == "web"));
    assert!(matches!(raw_error("service \"web\" already monitored"), ZinitError::ServiceAlreadyMonitored(s) if s == "web"));
    assert!(matches!(raw_error("service \"web\" is up"), ZinitError::ServiceIsUp(s) if s == "web"));
    assert!(matches!(raw_error("service \"web\" is down"), ZinitError::ServiceIsDown(s) if s == "web"));
    assert!(matches!(raw_error("process not running"), ZinitError::ServiceIsDown(s) if s == "process"));
    assert!(matches!(raw_error("invalid signal SIGFOO"), ZinitError::InvalidSignal(s) if s == "SIGFOO"));
    assert!(matches!(raw_error("bad signal  X  signal Y"), ZinitError::InvalidSignal(s) if s == "X"));
    assert!(matches!(raw_error("system is shutting down"), ZinitError::ShuttingDown));
    assert!(matches!(raw_error("something else"), ZinitError::ServiceError(s) if s == "something else"));
}

#[test]
fn error_body_that_is_not_a_string_uses_its_json_text() {
    let resp = Response {
        state: ResponseState::Error,
        body: JsonValue::Null,
        body_text: Some("null".to_string()),
    };
    assert!(matches!(ProtocolHandler::parse_response("{}", Ok(resp)), Err(ZinitError::ServiceError(s)) if s == "null"));
    let resp = Response { state: ResponseState::Error, body: JsonValue::Null, body_text: None };
    assert!(matches!(ProtocolHandler::parse_response("{}", Ok(resp)), Err(ZinitError::ServiceError(s)) if s == "Unknown error"));
}

#[test]
fn json_rpc_replies() {
    let ok = JsonRpcResponse {
        jsonrpc: "2.0".to_string(),
        id: Some(1),
        result: Some(JsonValue::String("done".to_string())),
        error: None,
    };
    assert!(matches!(ProtocolHandler::parse_json_rpc_response(Ok(ok)), Ok(JsonValue::String(s)) if s == "done"));
    let empty = JsonRpcResponse { jsonrpc: "2.0".to_string(), id: None, result: None, error: None };
    assert!(matches!(ProtocolHandler::parse_json_rpc_response(Ok(empty)), Ok(JsonValue::Null)));
    let failed = JsonRpcResponse {
        jsonrpc: "2.0".to_string(),
        id: Some(2),
        result: None,
        error: Some(JsonRpcError { code: -32000, message: "Service not found".to_string(), data: None }),
    };
    assert!(matches!(
        ProtocolHandler::parse_json_rpc_response(Ok(failed)),
        Err(ZinitError::JsonRpcError { code: -32000, message, data: None }) if message == "Service not found"
    ));
    assert!(matches!(ProtocolHandler::parse_json_rpc_response(Err(decode_error())), Err(ZinitError::ParseError(_))));
}

#[test]
fn parse_by_protocol_dispatches() {
    let reply = DecodedReply::JsonRpc(Ok(JsonRpcResponse {
        jsonrpc: "2.0".to_string(),
        id: Some(3),
        result: Some(JsonValue::Bool(false)),
        error: None,
    }));
    assert!(matches!(
        ProtocolHandler::parse_response_by_protocol(Protocol::JsonRpc, "{}", reply),
        Ok(JsonValue::Bool(false))
    ));
    let reply = DecodedReply::Raw(Ok(error_envelope("service \"x\" is up")));
    assert!(matches!(
        ProtocolHandler::parse_response_by_protocol(Protocol::RawCommands, "{}", reply),
        Err(ZinitError::ServiceIsUp(s)) if s == "x"
    ));
}

#[test]
fn format_request_by_protocol() {
    match ProtocolHandler::format_request(Protocol::JsonRpc, "service_start", &["web"], None, 7) {
        FormattedRequest::JsonRpc(req) => {
            assert_eq!(req.jsonrpc, "2.0");
            assert_eq!(req.method, "service_start");
            assert_eq!(req.id, 7);
            match req.params {
                JsonValue::Array(items) => {
                    assert_eq!(items.len(), 1);
                    assert!(matches!(&items[0], JsonValue::String(s) if s == "web"));
                }
                other => panic!("unexpected {:?}", other),
            }
        }
        other => panic!("unexpected {:?}", other),
    }
    match ProtocolHandler::format_request(Protocol::JsonRpc, "service_list", &["x"], Some(JsonValue::Null), 8) {
        FormattedRequest::JsonRpc(req) => assert!(matches!(req.params, JsonValue::Null)),
        other => panic!("unexpected {:?}", other),
    }
    match ProtocolHandler::format_request(Protocol::RawCommands, "kill", &["web", "SIGKILL"], None, 9) {
        FormattedRequest::Raw(s) => assert_eq!(s, "kill web SIGKILL"),
        other => panic!("unexpected {:?}", other),
    }
}

#[test]
fn command_lines_split_back_into_their_words() {
    let line = ProtocolHandler::format_command("kill", &["web-server", "SIGTERM"]);
    let words: Vec<&str> = line.split_whitespace().collect();
    assert_eq!(words, vec!["kill", "web-server", "SIGTERM"]);
}

#[test]
fn quoted_name_is_extracted_whatever_follows() {
    assert_eq!(extract_service_name("service \"db-01\" is down, \"later\" text"), "db-01");
}
