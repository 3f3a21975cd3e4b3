//! The handshake: version, sub-protocol, accept or reject.

pub mod client;
pub mod message;
pub mod server;
