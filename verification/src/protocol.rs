//! Wire-level building blocks: the primitive codec, message framing and the
//! signals that drive a connection.

pub mod message;
pub mod serde;
pub mod text;
pub mod workflow;
