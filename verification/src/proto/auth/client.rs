//! The client's side of the handshake.

use vstd::prelude::*;
use vstd::string::*;

use crate::client::connection::Connection;
use crate::connection::{deliverable, queue_after};
use crate::proto::auth::message::{
    CStart, CStartView, ClientMessage, ClientMessageView, ServerMessage, ServerMessageView,
};
use crate::proto::{protocol_version, CONTENT_SUBPROTOCOL};
use crate::protocol::message::{EncodeError, RawMessage, RawMessageView, ReadError, ReadErrorView};
use crate::protocol::text::join2;
use crate::protocol::workflow::{
    Protocol, ProtocolVersion, Workflow, WorkflowError, WorkflowErrorView, WorkflowView,
};

verus! {

/// Why the handshake did not end in an accepted connection.
#[derive(Debug, PartialEq)]
pub enum AuthError {
    EncodeError(EncodeError),
    ReadError(ReadError),
    WorkflowError(WorkflowError),
    InacceptableProtocol,
}

/// `AuthError` as contracts see it.
pub enum AuthErrorView {
    EncodeError(EncodeError),
    ReadError(ReadErrorView),
    WorkflowError(WorkflowErrorView),
    InacceptableProtocol,
}

impl View for AuthError {
    type V = AuthErrorView;

    open spec fn view(&self) -> AuthErrorView {
        match *self {
            AuthError::EncodeError(e) => AuthErrorView::EncodeError(e),
            AuthError::ReadError(e) => AuthErrorView::ReadError(e@),
            AuthError::WorkflowError(e) => AuthErrorView::WorkflowError(e@),
            AuthError::InacceptableProtocol => AuthErrorView::InacceptableProtocol,
        }
    }
}

/// What the client brings to the handshake.
#[derive(Debug, PartialEq)]
pub struct AuthConfig {
    password: Option<String>,
}

/// How far the handshake has come.
#[derive(Debug, Clone, Copy, PartialEq, Eq, Structural)]
pub enum AuthProtocolStage {
    BeforeStart,
    NeedAuth,
    Accepted,
}

/// The handshake as the client runs it.
#[derive(Debug)]
pub struct AuthProtocol {
    config: AuthConfig,
    pub connection: Connection,
}

/// The start that the client sends: its version, the content operations, no arguments.
pub open spec fn opening() -> RawMessageView {
    ClientMessageView::Start(
        CStartView {
            version: ProtocolVersion(1, 0, 0),
            subprotocol: CONTENT_SUBPROTOCOL,
            args: Seq::empty(),
        },
    ).raw()
}

/// What the client makes of a message of the server.
pub open spec fn flow_outcome(raw: RawMessageView) -> WorkflowView {
    match ServerMessageView::parsed(raw) {
        Err(e) => WorkflowView::Terminate(WorkflowErrorView::Exception(e.debug_text())),
        Ok(ServerMessageView::Error(m)) => WorkflowView::Terminate(
            WorkflowErrorView::ProtocolError("Server error with message: "@ + m.message),
        ),
        Ok(ServerMessageView::Reject(m)) => WorkflowView::Terminate(
            WorkflowErrorView::ProtocolError(
                "Server rejected connection with message: "@ + m.reason,
            ),
        ),
        Ok(ServerMessageView::AuthOk(m)) => WorkflowView::SwitchProtocol(m.id),
    }
}

/// What the handshake has come to once the wait for a message ended: the client's number,
/// or why there is none. `None` says that the next message is to be awaited.
pub open spec fn auth_outcome(inbound: Result<RawMessageView, ReadErrorView>) -> Option<
    Result<usize, AuthErrorView>,
> {
    match inbound {
        Err(e) => Some(Err(AuthErrorView::ReadError(e))),
        Ok(raw) => match flow_outcome(raw) {
            WorkflowView::Continue => None,
            WorkflowView::SwitchProtocol(client_id) => Some(Ok(client_id)),
            WorkflowView::Terminate(e) => Some(Err(AuthErrorView::WorkflowError(e))),
        },
    }
}

/// The outcome of the handshake as contracts see it.
pub open spec fn auth_result_view(r: Option<Result<usize, AuthError>>) -> Option<
    Result<usize, AuthErrorView>,
> {
    match r {
        None => None,
        Some(Ok(id)) => Some(Ok(id)),
        Some(Err(e)) => Some(Err(e@)),
    }
}

impl AuthProtocol {
    /// The handshake on a connection, before the start is sent.
    pub fn new(connection: Connection) -> (protocol: AuthProtocol)
        ensures
            protocol.connection() == connection,
    {
        AuthProtocol { config: AuthConfig { password: None }, connection: connection }
    }

    /// The connection that carries the handshake.
    pub closed spec fn connection(&self) -> Connection {
        self.connection
    }

    /// Gives up the protocol for its connection.
    pub fn into_connection(self) -> (connection: Connection)
        ensures
            connection == self.connection(),
    {
        self.connection
    }

    /// Encodes a message of the handshake, frames it and queues the frame.
    pub fn send_message(&mut self, client_message: ClientMessage) -> (r: Result<
        (),
        EncodeError,
    >)
        ensures
            r is Ok <==> deliverable(client_message@.raw()),
            final(self).connection()@ == queue_after(
                old(self).connection()@,
                client_message@.raw(),
            ),
    {
        match self.connection.send_raw(client_message.encode()) {
            Ok(_) => Ok(()),
            Err(_) => Err(EncodeError::TooLong),
        }
    }

    /// Opens the handshake: queues the start.
    pub fn start(&mut self) -> (r: Result<(), AuthError>)
        ensures
            r is Ok,
            deliverable(opening()),
            final(self).connection()@ == queue_after(old(self).connection()@, opening()),
    {
        proof {
            crate::proto::auth::message::lemma_start_wire_len(
                CStartView {
                    version: ProtocolVersion(1, 0, 0),
                    subprotocol: CONTENT_SUBPROTOCOL,
                    args: Seq::empty(),
                },
            );
        }
        let start = CStart::create(protocol_version(), CONTENT_SUBPROTOCOL, Vec::new());
        match self.send_message(start) {
            Ok(_) => Ok(()),
            Err(e) => Err(AuthError::EncodeError(e)),
        }
    }

    /// Takes what the wait for a message ended in, and says what the handshake has come
    /// to: `None` to go on waiting, else the client's number or the error.
    pub fn auth(&mut self, inbound: Result<RawMessage, ReadError>) -> (r: Option<
        Result<usize, AuthError>,
    >)
        ensures
            final(self).connection()@ == old(self).connection()@,
            inbound matches Ok(raw) ==> auth_result_view(r) == auth_outcome(
                Ok::<RawMessageView, ReadErrorView>(raw@),
            ),
            inbound matches Err(e) ==> auth_result_view(r) == auth_outcome(
                Err::<RawMessageView, ReadErrorView>(e@),
            ),
    {
        let message = match inbound {
            Ok(message) => message,
            Err(e) => {
                return Some(Err(AuthError::ReadError(e)));
            },
        };
        match self.flow(message) {
            Workflow::Continue => None,
            Workflow::SwitchProtocol(client_id) => Some(Ok(client_id)),
            Workflow::Terminate(err) => Some(Err(AuthError::WorkflowError(err))),
        }
    }
}

impl Protocol for AuthProtocol {
    /// Takes one message of the server: an acceptance switches the connection to the
    /// content operations under the number it brings; anything else ends the connection.
    fn flow(&mut self, raw_message: RawMessage) -> (w: Workflow)
        ensures
            w@ == flow_outcome(raw_message@),
            final(self).connection()@ == old(self).connection()@,
    {
        match ServerMessage::parse(raw_message) {
            Err(err) => Workflow::Terminate(WorkflowError::Exception(err.debug_string())),
            Ok(message) => match message {
                ServerMessage::Error(m) => Workflow::Terminate(
                    WorkflowError::ProtocolError(
                        join2("Server error with message: ", m.message.as_str()),
                    ),
                ),
                ServerMessage::Reject(m) => Workflow::Terminate(
                    WorkflowError::ProtocolError(
                        join2("Server rejected connection with message: ", m.reason.as_str()),
                    ),
                ),
                ServerMessage::AuthOk(m) => Workflow::SwitchProtocol(m.id),
            },
        }
    }
}

} // verus!
