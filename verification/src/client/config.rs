//! What a client needs to know to connect.

use vstd::prelude::*;

verus! {

/// Where the server listens.
#[derive(Clone, Debug)]
pub enum Target {
    /// The path of a local socket.
    Unix(String),
    /// A host and a TCP port.
    Tcp(String, u16),
}

/// A client's settings.
pub struct Config {
    /// Seconds between keep-alive probes; 0 for none.
    pub tcp_keepalive: u32,
    pub tcp_backlog: i32,
    /// Seconds that a read or a write may take; 0 for no limit.
    pub timeout: u64,
    pub target: Target,
}

/// The time that an option of so many seconds sets: none for 0.
pub open spec fn seconds_option(seconds: u64) -> Option<u64> {
    if seconds > 0 {
        Some(seconds)
    } else {
        None
    }
}

impl Config {
    /// The settings as shipped, for a client of `target`.
    pub fn default(target: Target) -> (config: Config)
        ensures
            config.tcp_keepalive == 0,
            config.tcp_backlog == 511,
            config.timeout == 0,
            config.target == target,
    {
        Config { tcp_keepalive: 0, tcp_backlog: 511, timeout: 0, target: target }
    }

    /// The settings as shipped, for a client of `target`.
    pub fn new(target: Target) -> (config: Config)
        ensures
            config.tcp_keepalive == 0,
            config.tcp_backlog == 511,
            config.timeout == 0,
            config.target == target,
    {
        Self::default(target)
    }

    /// The keep-alive time to set on the stream, in seconds.
    pub fn keepalive(&self) -> (seconds: Option<u64>)
        ensures
            seconds == seconds_option(self.tcp_keepalive as u64),
    {
        if self.tcp_keepalive > 0 {
            Some(self.tcp_keepalive as u64)
        } else {
            None
        }
    }

    /// The time limit to set on the stream's reads and writes, in seconds.
    pub fn stream_timeout(&self) -> (seconds: Option<u64>)
        ensures
            seconds == seconds_option(self.timeout),
    {
        if self.timeout > 0 {
            Some(self.timeout)
        } else {
            None
        }
    }
}

} // verus!
