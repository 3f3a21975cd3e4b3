//! The server's side: its settings, its store, and the machine that runs a connection.

pub mod config;
pub mod connection;
pub mod database;
