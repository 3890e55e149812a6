//! Configuration and errors of the peer transport.

use vstd::prelude::*;
use crate::signaling::SocketAddress;

verus! {

/// Configuration of the peer transport.
#[derive(Debug, Clone, Copy, PartialEq, Eq, Structural)]
pub struct TransportConfig {
    /// Local endpoint to bind; any when absent
    pub local_addr: Option<SocketAddress>,
}

impl Default for TransportConfig {
    fn default() -> (r: Self)
        ensures
            r.local_addr is None,
    {
        TransportConfig { local_addr: None }
    }
}

/// Errors of the peer transport.
#[derive(Debug, Clone, PartialEq, Eq)]
pub enum TransportError {
    /// Connection error
    ConnectionError(String),
    /// Send error
    SendError(String),
    /// Receive error
    ReceiveError(String),
}

} // verus!
