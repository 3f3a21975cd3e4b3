//! The two dialects that share the framing: the handshake and the content operations.

use vstd::prelude::*;

use crate::protocol::workflow::ProtocolVersion;

pub mod auth;
pub mod content;

verus! {

/// The version of the protocol that this library speaks.
pub fn protocol_version() -> (v: ProtocolVersion)
    ensures
        v == ProtocolVersion(1, 0, 0),
{
    ProtocolVersion::new(1, 0, 0)
}

/// The code of the content operations among the sub-protocols.
pub const CONTENT_SUBPROTOCOL: u8 = 1;

} // verus!
