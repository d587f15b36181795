//! How a connection is run.

use std::time::Duration;
use vstd::prelude::*;

verus! {

/// When to give up reconnecting.
#[derive(Debug, Clone, Copy, PartialEq, Eq)]
pub struct ReconnectConfig {
    /// How many attempts in a row may fail, or `None` for no limit.
    pub max_attempts: Option<u32>,
}

/// The configuration of a connection.
#[derive(Debug)]
pub struct Config {
    /// The time from one PING to the next.
    pub heartbeat_interval: Duration,
    /// How long to wait for a PONG.
    pub heartbeat_timeout: Duration,
    pub reconnect: ReconnectConfig,
    /// The address of the SOCKS5 proxy to connect through, if any.
    pub socks5_proxy: Option<String>,
}

} // verus!
