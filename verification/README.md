# zinit-client

A client library for the [Zinit](https://github.com/threefoldtech/zinit)
service manager, verified with Verus.

Zinit servers speak one of two protocols over a Unix socket: raw text
commands answered by a `{"state": ..., "body": ...}` envelope (v0.2.14), or
JSON-RPC 2.0 (v0.2.25 and later). The client detects which one a server
speaks and uses it for every operation.

## Layout

- `src/` — the verified library: the client's decisions.
  - `protocol.rs`: raw command lines, the meaning of raw and JSON-RPC
    replies, the mapping of the server's error messages to typed errors.
  - `client.rs`: configuration, the request for each operation, the reading
    of status answers and log lines, protocol detection, the wait for a
    service to stop and what a restart or a delete does after each poll, as
    small state machines.
  - `retry.rs`: when a failed operation is tried again, and after how long
    (capped exponential backoff).
  - `models.rs`, `json.rs`, `error.rs`: the data exchanged with the server.
  - `text.rs`: character-level text handling, specified over `Seq<char>`.
  - `foreign.rs`: the std and outside-crate items the library relies on,
    with the contracts it assumes of them.
- `app/` — the async client around the library: socket I/O with Tokio,
  JSON text with serde_json, timers, the retry loop and log streaming.
- `tests/` — tests of the library on concrete values.

JSON documents cross into the library already decoded (`JsonValue`,
`Response`, `JsonRpcResponse`); a raw envelope also carries the compact
JSON text of its body, which error messages quote when the body is not a
string.
