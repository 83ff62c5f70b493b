//! Where and how the client reaches the Zinit socket.

use vstd::prelude::*;
use std::path::PathBuf;
use std::time::Duration;
use crate::foreign::clone_path;
use crate::retry::RetryStrategy;

verus! {

/// Manages connections to the Zinit Unix socket: where it is, how long to
/// wait, and how to retry.
#[derive(Debug)]
pub struct ConnectionManager {
    /// Path to the Zinit Unix socket
    socket_path: PathBuf,
    /// Timeout for connection attempts
    connection_timeout: Duration,
    /// Timeout for operations
    operation_timeout: Duration,
    /// Retry strategy for failed operations
    retry_strategy: RetryStrategy,
}

impl ConnectionManager {
    pub closed spec fn spec_socket_path(&self) -> PathBuf {
        self.socket_path
    }

    pub closed spec fn spec_connection_timeout(&self) -> Duration {
        self.connection_timeout
    }

    pub closed spec fn spec_operation_timeout(&self) -> Duration {
        self.operation_timeout
    }

    pub closed spec fn spec_retry_strategy(&self) -> RetryStrategy {
        self.retry_strategy
    }

    /// Create a new connection manager.
    pub fn new(
        socket_path: PathBuf,
        connection_timeout: Duration,
        operation_timeout: Duration,
        retry_strategy: RetryStrategy,
    ) -> (r: Self)
        ensures
            r.spec_socket_path() == socket_path,
            r.spec_connection_timeout() == connection_timeout,
            r.spec_operation_timeout() == operation_timeout,
            r.spec_retry_strategy() == retry_strategy,
    {
        ConnectionManager { socket_path, connection_timeout, operation_timeout, retry_strategy }
    }

    /// Path to the Zinit Unix socket.
    pub fn socket_path(&self) -> (r: &PathBuf)
        ensures
            *r == self.spec_socket_path(),
    {
        &self.socket_path
    }

    /// Timeout for connection attempts.
    pub fn connection_timeout(&self) -> (r: Duration)
        ensures
            r == self.spec_connection_timeout(),
    {
        self.connection_timeout
    }

    /// Timeout for operations.
    pub fn operation_timeout(&self) -> (r: Duration)
        ensures
            r == self.spec_operation_timeout(),
    {
        self.operation_timeout
    }

    /// Retry strategy for failed operations.
    pub fn retry_strategy(&self) -> (r: &RetryStrategy)
        ensures
            *r == self.spec_retry_strategy(),
    {
        &self.retry_strategy
    }
}

impl Clone for ConnectionManager {
    /// A manager for the same socket, with the same timeouts and retries.
    fn clone(&self) -> (r: Self)
        ensures
            r == *self,
    {
        ConnectionManager {
            socket_path: clone_path(&self.socket_path),
            connection_timeout: self.connection_timeout,
            operation_timeout: self.operation_timeout,
            retry_strategy: self.retry_strategy,
        }
    }
}

} // verus!
