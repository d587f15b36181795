//! The state of a connection.

use std::time::Instant;
use vstd::prelude::*;

verus! {

/// `std::time::Instant`, a moment of the monotonic clock. It is carried, not looked into.
#[verifier::external_type_specification]
#[verifier::external_body]
pub struct ExInstant(Instant);

/// Connection state tracking.
#[non_exhaustive]
#[derive(Debug, Clone, Copy, PartialEq, Eq)]
pub enum ConnectionState {
    /// Not connected
    Disconnected,
    /// Attempting to connect
    Connecting,
    /// Successfully connected
    Connected {
        /// When the connection was established
        since: Instant,
    },
    /// Reconnecting after failure
    Reconnecting {
        /// Current reconnection attempt number
        attempt: u32,
    },
}

impl ConnectionState {
    /// Whether the connection is currently active.
    #[must_use]
    pub fn is_connected(self) -> (r: bool)
        ensures
            r == (self is Connected),
    {
        matches!(self, ConnectionState::Connected { .. })
    }
}

} // verus!
