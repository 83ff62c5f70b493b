//! The two wire protocols of Zinit: raw text commands answered by a JSON
//! envelope, and JSON-RPC 2.0.

use vstd::prelude::*;
use vstd::string::StringExecFns;
use crate::error::ZinitError;
use crate::json::JsonValue;
use crate::models::{JsonRpcRequest, JsonRpcResponse, Protocol, Response, ResponseState};
use crate::text::{
    contains, find, find_from, has_prefix, has_substring, index_of, index_of_from,
    lemma_find_from_bounds, lemma_index_of_from_bounds, lemma_skip_ws_bounds,
    lemma_word_end_progress, skip_whitespace, skip_ws, starts_with, string_of, sub_vec, to_chars,
    trim_range, trimmed, word_end, word_end_at,
};

verus! {

/// The texts of a list of arguments.
pub open spec fn arg_texts(args: Seq<&str>) -> Seq<Seq<char>> {
    args.map_values(|a: &str| a@)
}

/// A raw command: the command followed by each argument, separated by single spaces.
pub open spec fn command_text(command: Seq<char>, args: Seq<Seq<char>>) -> Seq<char>
    decreases args.len(),
{
    if args.len() == 0 {
        command
    } else {
        command_text(command, args.drop_last()) + seq![' '] + args.last()
    }
}

/// A word names a service unless it starts with a quote or mentions "service".
pub open spec fn acceptable_name(w: Seq<char>) -> bool {
    !has_prefix(w, seq!['"']) && !has_substring(w, "service"@)
}

/// The first whitespace-separated word at or after `from` that names a
/// service, or "unknown".
pub open spec fn first_name_word(m: Seq<char>, from: int) -> Seq<char>
    decreases m.len() - from,
{
    if from < 0 || from >= m.len() {
        "unknown"@
    } else {
        let a = skip_ws(m, from);
        if a >= m.len() {
            "unknown"@
        } else {
            let b = word_end(m, a);
            if acceptable_name(m.subrange(a, b)) {
                m.subrange(a, b)
            } else {
                proof {
                    lemma_skip_ws_bounds(m, from);
                    lemma_word_end_progress(m, a);
                }
                first_name_word(m, b)
            }
        }
    }
}

/// The service an error message is about: the text between its first quote
/// and the next one (or the end); without quotes, the first word that names
/// a service; failing that, "unknown".
pub open spec fn service_name_in(m: Seq<char>) -> Seq<char> {
    let q1 = index_of_from(m, '"', 0);
    if q1 < m.len() {
        m.subrange(q1 + 1, index_of_from(m, '"', q1 + 1))
    } else {
        first_name_word(m, 0)
    }
}

/// The signal an error message rejects: the text after the first "signal",
/// up to the next "signal" or the end, trimmed; "unknown" when the message
/// does not mention "signal".
pub open spec fn signal_argument(m: Seq<char>) -> Seq<char> {
    let p = find_from(m, "signal"@, 0);
    if p < m.len() {
        trimmed(m.subrange(p + "signal"@.len(), find_from(m, "signal"@, p + "signal"@.len())))
    } else {
        "unknown"@
    }
}

/// `e` is the error that the server's error message `m` stands for.
pub open spec fn error_for_message(e: ZinitError, m: Seq<char>) -> bool {
    if has_substring(m, "unknown"@) && has_substring(m, "service"@) {
        e matches ZinitError::UnknownService(s) && s@ == service_name_in(m)
    } else if has_substring(m, "already monitored"@) {
        e matches ZinitError::ServiceAlreadyMonitored(s) && s@ == service_name_in(m)
    } else if has_substring(m, "is up"@) {
        e matches ZinitError::ServiceIsUp(s) && s@ == service_name_in(m)
    } else if has_substring(m, "is down"@) || has_substring(m, "not running"@) {
        e matches ZinitError::ServiceIsDown(s) && s@ == service_name_in(m)
    } else if has_substring(m, "signal"@) {
        e matches ZinitError::InvalidSignal(s) && s@ == signal_argument(m)
    } else if has_substring(m, "shutting down"@) {
        e is ShuttingDown
    } else {
        e matches ZinitError::ServiceError(s) && s@ == m
    }
}

/// What a server's error message is taken for: a message is an unknown
/// service only when it mentions both "unknown" and "service"; each other
/// typed error needs its own phrase ("already monitored", "is up", "is down"
/// or "not running", "signal", "shutting down"); a message with none of these
/// phrases stays a plain service error carrying the message.
pub proof fn lemma_error_phrases(e: ZinitError, m: Seq<char>)
    requires
        error_for_message(e, m),
    ensures
        e is UnknownService <==> has_substring(m, "unknown"@) && has_substring(m, "service"@),
        e is ServiceAlreadyMonitored ==> has_substring(m, "already monitored"@),
        e is ServiceIsUp ==> has_substring(m, "is up"@),
        e is ServiceIsDown ==> has_substring(m, "is down"@) || has_substring(m, "not running"@),
        e is InvalidSignal ==> has_substring(m, "signal"@),
        e is ShuttingDown ==> has_substring(m, "shutting down"@),
        !(has_substring(m, "unknown"@) && has_substring(m, "service"@)) && !has_substring(
            m,
            "already monitored"@,
        ) && !has_substring(m, "is up"@) && !has_substring(m, "is down"@) && !has_substring(
            m,
            "not running"@,
        ) && !has_substring(m, "signal"@) && !has_substring(m, "shutting down"@) ==> (e matches ZinitError::ServiceError(s) && s@ == m),
        e matches ZinitError::ServiceError(s) ==> s@ == m,
{
}

/// The message of an error response: the body when it is a string, else its
/// JSON text, else "Unknown error".
pub open spec fn error_message(resp: Response) -> Seq<char> {
    match resp.body {
        JsonValue::String(s) => s@,
        _ => match resp.body_text {
            Some(t) => t@,
            None => "Unknown error"@,
        },
    }
}

/// `r` is what the raw reply `response`, decoded as `decoded`, means.
pub open spec fn raw_reply_result(
    response: Seq<char>,
    decoded: Result<Response, serde_json::Error>,
    r: Result<JsonValue, ZinitError>,
) -> bool {
    if has_prefix(response, "zinit:"@) {
        r matches Ok(JsonValue::String(s)) && s@ == response
    } else {
        match decoded {
            Err(e) => r == Err::<JsonValue, ZinitError>(ZinitError::ParseError(e)),
            Ok(resp) => match resp.state {
                ResponseState::Success => r == Ok::<JsonValue, ZinitError>(resp.body),
                ResponseState::Error => r matches Err(e) && error_for_message(e, error_message(resp)),
            },
        }
    }
}

/// `r` is what the JSON-RPC reply decoded as `decoded` means.
pub open spec fn rpc_reply_result(
    decoded: Result<JsonRpcResponse, serde_json::Error>,
    r: Result<JsonValue, ZinitError>,
) -> bool {
    match decoded {
        Err(e) => r == Err::<JsonValue, ZinitError>(ZinitError::ParseError(e)),
        Ok(resp) => match resp.error {
            Some(err) => r == Err::<JsonValue, ZinitError>(
                ZinitError::JsonRpcError { code: err.code, message: err.message, data: err.data },
            ),
            None => match resp.result {
                Some(v) => r == Ok::<JsonValue, ZinitError>(v),
                None => r == Ok::<JsonValue, ZinitError>(JsonValue::Null),
            },
        },
    }
}

/// `v` is a JSON array of the strings `items`.
pub open spec fn is_string_array(v: JsonValue, items: Seq<Seq<char>>) -> bool {
    v matches JsonValue::Array(elems) && elems@.len() == items.len() && forall|i: int|
        0 <= i < items.len() ==> (#[trigger] elems@[i] matches JsonValue::String(s) && s@
            == items[i])
}

/// A request ready to be written to the socket.
#[derive(Debug)]
pub enum FormattedRequest {
    /// A JSON-RPC request, to be written as JSON text.
    JsonRpc(JsonRpcRequest),
    /// A raw command line.
    Raw(String),
}

/// A reply, decoded as the protocol in use prescribes.
#[derive(Debug)]
pub enum DecodedReply {
    /// A raw-protocol envelope, or the reason it could not be decoded.
    Raw(Result<Response, serde_json::Error>),
    /// A JSON-RPC response, or the reason it could not be decoded.
    JsonRpc(Result<JsonRpcResponse, serde_json::Error>),
}

/// Handler for the Zinit protocols.
#[derive(Debug, Clone, Copy)]
pub struct ProtocolHandler;

/// The service an error message is about (see `service_name_in`).
pub fn extract_service_name(error_msg: &str) -> (r: String)
    ensures
        r@ == service_name_in(error_msg@),
{
    let m = to_chars(error_msg);
    let q1 = index_of(&m, '"', 0);
    proof {
        lemma_index_of_from_bounds(m@, '"', 0);
    }
    if q1 < m.len() {
        let q2 = index_of(&m, '"', q1 + 1);
        proof {
            lemma_index_of_from_bounds(m@, '"', q1 + 1);
        }
        return string_of(&m, q1 + 1, q2);
    }
    let service = to_chars("service");
    let mut i: usize = 0;
    while i < m.len()
        invariant
            i <= m.len(),
            m@ == error_msg@,
            service@ == "service"@,
            service_name_in(m@) == first_name_word(m@, i as int),
        decreases m.len() - i,
    {
        let a = skip_whitespace(&m, i);
        proof {
            lemma_skip_ws_bounds(m@, i as int);
        }
        if a >= m.len() {
            return String::from_str("unknown");
        }
        let b = word_end_at(&m, a);
        proof {
            lemma_word_end_progress(m@, a as int);
        }
        let w = sub_vec(&m, a, b);
        let quoted = w[0] == '"';
        proof {
            reveal_strlit("\"");
            assert(has_prefix(w@, seq!['"']) == (w@[0] == '"')) by {
                if w@[0] == '"' {
                    assert(w@.subrange(0, 1) =~= seq!['"']);
                }
                if has_prefix(w@, seq!['"']) {
                    assert(w@.subrange(0, 1)[0] == '"');
                }
            }
        }
        if !quoted && !contains(&w, &service) {
            return string_of(&m, a, b);
        }
        i = b;
    }
    String::from_str("unknown")
}

impl ProtocolHandler {
    /// A raw command line: `command` followed by each argument, separated by single spaces.
    pub fn format_command(command: &str, args: &[&str]) -> (r: String)
        ensures
            r@ == command_text(command@, arg_texts(args@)),
    {
        let mut cmd = String::from_str(command);
        let mut i: usize = 0;
        proof {
            reveal_strlit(" ");
            assert(arg_texts(args@).take(0) =~= Seq::<Seq<char>>::empty());
        }
        while i < args.len()
            invariant
                i <= args.len(),
                " "@ == seq![' '],
                cmd@ == command_text(command@, arg_texts(args@).take(i as int)),
            decreases args.len() - i,
        {
            cmd.append(" ");
            cmd.append(args[i]);
            proof {
                let t = arg_texts(args@).take(i + 1);
                assert(t.drop_last() =~= arg_texts(args@).take(i as int));
                assert(t.last() == args@[i as int]@);
            }
            i += 1;
        }
        assert(arg_texts(args@).take(args.len() as int) =~= arg_texts(args@));
        cmd
    }

    /// A raw command line for servers that speak the raw protocol.
    pub fn format_raw_command(command: &str, args: &[&str]) -> (r: String)
        ensures
            r@ == command_text(command@, arg_texts(args@)),
    {
        Self::format_command(command, args)
    }

    /// The error that the server's error message `error_msg` stands for.
    pub fn error_from_message(error_msg: String) -> (r: ZinitError)
        ensures
            error_for_message(r, error_msg@),
    {
        let m = to_chars(error_msg.as_str());
        if contains(&m, &to_chars("unknown")) && contains(&m, &to_chars("service")) {
            ZinitError::UnknownService(extract_service_name(error_msg.as_str()))
        } else if contains(&m, &to_chars("already monitored")) {
            ZinitError::ServiceAlreadyMonitored(extract_service_name(error_msg.as_str()))
        } else if contains(&m, &to_chars("is up")) {
            ZinitError::ServiceIsUp(extract_service_name(error_msg.as_str()))
        } else if contains(&m, &to_chars("is down")) || contains(&m, &to_chars("not running")) {
            ZinitError::ServiceIsDown(extract_service_name(error_msg.as_str()))
        } else if contains(&m, &to_chars("signal")) {
            let sig = to_chars("signal");
            let p = find(&m, &sig, 0);
            proof {
                lemma_find_from_bounds(m@, sig@, 0);
            }
            if p < m.len() {
                let q = find(&m, &sig, p + sig.len());
                proof {
                    lemma_find_from_bounds(m@, sig@, p + sig@.len());
                }
                ZinitError::InvalidSignal(trim_range(&m, p + sig.len(), q))
            } else {
                ZinitError::InvalidSignal(String::from_str("unknown"))
            }
        } else if contains(&m, &to_chars("shutting down")) {
            ZinitError::ShuttingDown
        } else {
            ZinitError::ServiceError(error_msg)
        }
    }

    /// What a raw-protocol reply means. A reply that starts with "zinit:" is
    /// log text and is returned as a string; any other reply is the JSON
    /// envelope `decoded`, whose error messages become typed errors.
    pub fn parse_response(response: &str, decoded: Result<Response, serde_json::Error>) -> (r:
        Result<JsonValue, ZinitError>)
        ensures
            raw_reply_result(response@, decoded, r),
    {
        let chars = to_chars(response);
        if starts_with(&chars, &to_chars("zinit:")) {
            return Ok(JsonValue::String(String::from_str(response)));
        }
        match decoded {
            Err(e) => Err(ZinitError::ParseError(e)),
            Ok(resp) => match resp.state {
                ResponseState::Success => Ok(resp.body),
                ResponseState::Error => {
                    let ghost whole = resp;
                    let msg = match resp.body {
                        JsonValue::String(s) => s,
                        _ => match resp.body_text {
                            Some(t) => t,
                            None => String::from_str("Unknown error"),
                        },
                    };
                    assert(msg@ == error_message(whole));
                    Err(Self::error_from_message(msg))
                },
            },
        }
    }

    /// What a JSON-RPC reply means: its error as a typed error, else its
    /// result, else null.
    pub fn parse_json_rpc_response(decoded: Result<JsonRpcResponse, serde_json::Error>) -> (r:
        Result<JsonValue, ZinitError>)
        ensures
            rpc_reply_result(decoded, r),
    {
        match decoded {
            Err(e) => Err(ZinitError::ParseError(e)),
            Ok(resp) => {
                if let Some(error) = resp.error {
                    return Err(
                        ZinitError::JsonRpcError {
                            code: error.code,
                            message: error.message,
                            data: error.data,
                        },
                    );
                }
                match resp.result {
                    Some(v) => Ok(v),
                    None => Ok(JsonValue::Null),
                }
            },
        }
    }

    /// What a reply from a server of the old protocol means.
    pub fn parse_raw_response(response: &str, decoded: Result<Response, serde_json::Error>) -> (r:
        Result<JsonValue, ZinitError>)
        ensures
            raw_reply_result(response@, decoded, r),
    {
        Self::parse_response(response, decoded)
    }

    /// A request for `method` in `protocol`: a JSON-RPC request whose
    /// parameters are `params`, or else the arguments as an array of strings;
    /// or a raw command line.
    pub fn format_request(
        protocol: Protocol,
        method: &str,
        args: &[&str],
        params: Option<JsonValue>,
        id: u64,
    ) -> (r: FormattedRequest)
        ensures
            protocol == Protocol::JsonRpc ==> (r matches FormattedRequest::JsonRpc(req) && {
                &&& req.jsonrpc@ == "2.0"@
                &&& req.method@ == method@
                &&& req.id == id
                &&& match params {
                    Some(p) => req.params == p,
                    None => is_string_array(req.params, arg_texts(args@)),
                }
            }),
            protocol == Protocol::RawCommands ==> (r matches FormattedRequest::Raw(s) && s@
                == command_text(method@, arg_texts(args@))),
    {
        match protocol {
            Protocol::JsonRpc => {
                let params = match params {
                    Some(p) => p,
                    None => {
                        let mut items: Vec<JsonValue> = Vec::new();
                        let mut i: usize = 0;
                        while i < args.len()
                            invariant
                                i <= args.len(),
                                items@.len() == i,
                                forall|j: int|
                                    0 <= j < i ==> (#[trigger] items@[j] matches JsonValue::String(
                                        s,
                                    ) && s@ == arg_texts(args@)[j]),
                            decreases args.len() - i,
                        {
                            items.push(JsonValue::String(String::from_str(args[i])));
                            i += 1;
                        }
                        JsonValue::Array(items)
                    },
                };
                FormattedRequest::JsonRpc(JsonRpcRequest::new(method, params, id))
            },
            Protocol::RawCommands => FormattedRequest::Raw(Self::format_raw_command(method, args)),
        }
    }

    /// What a reply means in `protocol`, the reply having been decoded as
    /// that protocol prescribes.
    pub fn parse_response_by_protocol(protocol: Protocol, response: &str, decoded: DecodedReply) -> (r:
        Result<JsonValue, ZinitError>)
        requires
            protocol == Protocol::JsonRpc <==> decoded is JsonRpc,
        ensures
            decoded matches DecodedReply::Raw(d) ==> raw_reply_result(response@, d, r),
            decoded matches DecodedReply::JsonRpc(d) ==> rpc_reply_result(d, r),
    {
        match decoded {
            DecodedReply::JsonRpc(d) => Self::parse_json_rpc_response(d),
            DecodedReply::Raw(d) => Self::parse_raw_response(response, d),
        }
    }
}

} // verus!

verus! {

/// When an error message quotes a service name, that name is what comes
/// back: for a message `p "n" q` where neither `p` nor `n` holds a quote,
/// the service named is `n`, whatever follows.
pub proof fn lemma_quoted_name_extracted(p: Seq<char>, n: Seq<char>, q: Seq<char>)
    requires
        forall|i: int| 0 <= i < p.len() ==> p[i] != '"',
        forall|i: int| 0 <= i < n.len() ==> n[i] != '"',
    ensures
        service_name_in(p + seq!['"'] + n + seq!['"'] + q) == n,
{
    let m = p + seq!['"'] + n + seq!['"'] + q;
    let q1 = p.len() as int;
    let q2 = (p.len() + 1 + n.len()) as int;
    assert(m[q1] == '"');
    assert forall|j: int| 0 <= j < q1 implies m[j] != '"' by {
        assert(m[j] == p[j]);
    }
    crate::text::lemma_index_of_from_is(m, '"', 0, q1);
    assert(m[q2] == '"');
    assert forall|j: int| q1 + 1 <= j < q2 implies m[j] != '"' by {
        assert(m[j] == n[j - q1 - 1]);
    }
    crate::text::lemma_index_of_from_is(m, '"', q1 + 1, q2);
    assert(m.subrange(q1 + 1, q2) =~= n);
}

} // verus!

verus! {

/// A raw command line splits back, at whitespace, into the command and its
/// arguments, when each of them is a non-empty text without whitespace: what
/// the server reads is what the client wrote.
pub proof fn lemma_command_words(command: Seq<char>, args: Seq<Seq<char>>)
    requires
        crate::text::is_word(command),
        forall|i: int| 0 <= i < args.len() ==> crate::text::is_word(#[trigger] args[i]),
    ensures
        crate::text::words(command_text(command, args)) == seq![command] + args,
    decreases args.len(),
{
    if args.len() == 0 {
        crate::text::lemma_words_of_word(command);
        assert(seq![command] + args =~= seq![command]);
    } else {
        let init = args.drop_last();
        lemma_command_words(command, init);
        crate::text::lemma_words_append_word(command_text(command, init), args.last(), 0);
        assert(seq![command] + init + seq![args.last()] =~= seq![command] + args);
    }
}

} // verus!
