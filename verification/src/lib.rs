//! # Zinit Client
//!
//! A client library for the Zinit service manager. It speaks both of
//! Zinit's wire protocols: raw text commands answered by a JSON envelope
//! (servers v0.2.14) and JSON-RPC 2.0 (servers v0.2.25 and later), detects
//! which one a server speaks, maps the server's error messages to typed
//! errors, and retries transient failures with capped exponential backoff.
//!
//! This crate holds the client's logic: what to send for each operation,
//! what each answer means, and when to retry. Sockets, timers and JSON text
//! are handled by the caller.

pub mod client;
pub mod connection;
pub mod error;
pub mod foreign;
pub mod json;
pub mod models;
pub mod protocol;
pub mod retry;
pub mod text;

pub use client::{
    ClientConfig, Command, DeleteAction, Detection, RestartAction, ServiceAction, StopWait,
    SystemAction, WaitStep,
};
pub use connection::ConnectionManager;
pub use error::{Result, ZinitError};
pub use json::{JsonNumber, JsonValue};
pub use models::{
    JsonRpcError, JsonRpcRequest, JsonRpcResponse, LogEntry, Protocol, Response, ResponseState,
    ServerCapabilities, ServiceState, ServiceStatus, ServiceTarget,
};
pub use protocol::{extract_service_name, DecodedReply, FormattedRequest, ProtocolHandler};
pub use retry::{RetryDelay, RetryStrategy};
