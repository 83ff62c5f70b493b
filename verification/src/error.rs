//! Errors of the Zinit client.

use vstd::prelude::*;
use std::time::Duration;
use crate::json::JsonValue;

verus! {

/// Errors of the Zinit client.
#[derive(Debug)]
pub enum ZinitError {
    /// Error connecting to the Zinit socket
    ConnectionError(std::io::Error),
    /// Error in the Zinit protocol
    ProtocolError(String),
    /// Error from the Zinit service
    ServiceError(String),
    /// Operation timed out
    TimeoutError(Duration),
    /// Retry limit reached
    RetryLimitReached(usize),
    /// Error parsing JSON response
    ParseError(serde_json::Error),
    /// Unknown service
    UnknownService(String),
    /// Service already monitored
    ServiceAlreadyMonitored(String),
    /// Service is up (can't forget)
    ServiceIsUp(String),
    /// Service is down (can't kill)
    ServiceIsDown(String),
    /// Invalid signal name
    InvalidSignal(String),
    /// System is shutting down
    ShuttingDown,
    /// Feature not supported by this server version
    FeatureNotSupported(String),
    /// Protocol detection failed
    ProtocolDetectionFailed(String),
    /// JSON-RPC error from server
    JsonRpcError {
        /// Error code
        code: i32,
        /// Error message
        message: String,
        /// Additional error data
        data: Option<JsonValue>,
    },
}

/// An error that a retry cannot cure: the server answered, and the answer
/// concerns the service or the system, not the transport.
pub open spec fn is_permanent(e: ZinitError) -> bool {
    ||| e is UnknownService
    ||| e is ServiceAlreadyMonitored
    ||| e is ServiceIsUp
    ||| e is ServiceIsDown
    ||| e is InvalidSignal
    ||| e is ShuttingDown
}

impl ZinitError {
    /// Whether a retry cannot cure this error.
    pub fn is_permanent(&self) -> (r: bool)
        ensures
            r == is_permanent(*self),
    {
        match self {
            ZinitError::UnknownService(_)
            | ZinitError::ServiceAlreadyMonitored(_)
            | ZinitError::ServiceIsUp(_)
            | ZinitError::ServiceIsDown(_)
            | ZinitError::InvalidSignal(_)
            | ZinitError::ShuttingDown => true,
            _ => false,
        }
    }
}

/// Only the server's answers about a service or the system are permanent:
/// unknown service, already monitored, service up, service down, invalid
/// signal and shutting down. Transport failures (a failed connection, a
/// timeout), undecodable or unexpected answers, other service errors and
/// JSON-RPC errors can all be cured by a retry.
pub proof fn lemma_permanent_errors(e: ZinitError)
    ensures
        e is UnknownService ==> is_permanent(e),
        e is ServiceAlreadyMonitored ==> is_permanent(e),
        e is ServiceIsUp ==> is_permanent(e),
        e is ServiceIsDown ==> is_permanent(e),
        e is InvalidSignal ==> is_permanent(e),
        e is ShuttingDown ==> is_permanent(e),
        e is ConnectionError ==> !is_permanent(e),
        e is TimeoutError ==> !is_permanent(e),
        e is ProtocolError ==> !is_permanent(e),
        e is ServiceError ==> !is_permanent(e),
        e is RetryLimitReached ==> !is_permanent(e),
        e is ParseError ==> !is_permanent(e),
        e is FeatureNotSupported ==> !is_permanent(e),
        e is ProtocolDetectionFailed ==> !is_permanent(e),
        e is JsonRpcError ==> !is_permanent(e),
{
}

/// Result type for Zinit client operations.
pub type Result<T> = std::result::Result<T, ZinitError>;

} // verus!
