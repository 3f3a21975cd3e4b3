//! The content operations: tasks that report on the server or take a file into the store.

pub mod actions;
pub mod client;
pub mod message;
pub mod server;
pub mod state;
pub mod task;
