//! The client's side of a connection.

pub mod config;
pub mod connection;
