//! A content-addressed file store served over a length-prefixed binary protocol.

pub mod client;
pub mod connection;
pub mod proto;
pub mod protocol;
pub mod server;
pub mod types;
