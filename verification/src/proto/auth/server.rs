//! The server's side of the handshake.

use vstd::prelude::*;
use vstd::string::*;

use crate::connection::{deliverable, queue_after, send_raw, StreamSender};
use crate::proto::auth::message::{
    ClientMessage, ClientMessageView, SAuthOk, SAuthOkView, ServerMessage, ServerMessageView,
};
use crate::proto::CONTENT_SUBPROTOCOL;
use crate::protocol::message::{RawMessage, RawMessageView};
use crate::protocol::serde::lemma_be_bytes_len;
use crate::protocol::text::{decimal, decimal_text, join2};
use crate::protocol::workflow::{Protocol, Workflow, WorkflowError, WorkflowErrorView, WorkflowView};

verus! {

/// What the server asks of a client before it accepts it.
#[derive(Debug)]
pub struct AuthConfig {
    need_password: bool,
}

/// How far the handshake has come.
#[derive(Debug, Clone, Copy, PartialEq, Eq, Structural)]
pub enum AuthProtocolStage {
    BeforeStart,
    NeedAuth,
    Accepted,
}

/// The handshake as the server runs it on one connection.
#[derive(Debug)]
pub struct AuthProtocol {
    config: AuthConfig,
    stage: AuthProtocolStage,
    pub id: usize,
    pub sender: StreamSender,
}

/// Encodes a message of the handshake, frames it and queues the frame. Fails, and queues
/// nothing, where the message is too long for a frame.
pub fn send_message(sender: &mut StreamSender, message: ServerMessage) -> (r: Result<(), ()>)
    ensures
        r is Ok <==> deliverable(message@.raw()),
        final(sender)@ == queue_after(old(sender)@, message@.raw()),
{
    send_raw(sender, message.encode())
}

/// Whether a message in a stage opens the content operations: the first message, a start
/// that asks for them.
pub open spec fn accepted(stage: AuthProtocolStage, raw: RawMessageView) -> bool {
    &&& stage == AuthProtocolStage::BeforeStart
    &&& ClientMessageView::parsed(raw) matches Ok(ClientMessageView::Start(start))
    &&& start.subprotocol == CONTENT_SUBPROTOCOL
}

/// What the server answers to a message in a stage.
pub open spec fn flow_outcome(stage: AuthProtocolStage, raw: RawMessageView) -> WorkflowView {
    match ClientMessageView::parsed(raw) {
        Err(e) => WorkflowView::Terminate(WorkflowErrorView::Exception(e.debug_text())),
        Ok(ClientMessageView::Start(start)) => if stage != AuthProtocolStage::BeforeStart {
            WorkflowView::Terminate(WorkflowErrorView::Exception("Wrong message order"@))
        } else if start.subprotocol != CONTENT_SUBPROTOCOL {
            WorkflowView::Terminate(
                WorkflowErrorView::Exception(
                    "Wrong requested protocol: "@ + decimal_text(start.subprotocol as nat),
                ),
            )
        } else {
            WorkflowView::SwitchProtocol(0)
        },
    }
}

/// The acceptance that the server sends: the client's number is 0.
pub open spec fn acceptance() -> RawMessageView {
    ServerMessageView::AuthOk(SAuthOkView { id: 0 }).raw()
}

impl AuthProtocol {
    /// The handshake with the client `id`, before its start has come.
    pub fn new(sender: StreamSender, id: usize) -> (protocol: AuthProtocol)
        ensures
            protocol.stage() == AuthProtocolStage::BeforeStart,
            protocol.id() == id,
            protocol.sender() == sender,
    {
        AuthProtocol {
            config: AuthConfig { need_password: false },
            stage: AuthProtocolStage::BeforeStart,
            id: id,
            sender: sender,
        }
    }

    /// How far the handshake has come.
    pub closed spec fn stage(&self) -> AuthProtocolStage {
        self.stage
    }

    /// The client's number.
    pub closed spec fn id(&self) -> usize {
        self.id
    }

    /// The queue of outbound frames.
    pub closed spec fn sender(&self) -> StreamSender {
        self.sender
    }

    /// Gives up the protocol for its queue of outbound frames.
    pub fn into_sender(self) -> (sender: StreamSender)
        ensures
            sender == self.sender(),
    {
        self.sender
    }

    /// Takes out all that waits to be written, oldest first.
    pub fn take_outbound(&mut self) -> (messages: Vec<crate::connection::StreamMessage>)
        ensures
            final(self).sender()@ == Seq::<Option<Seq<u8>>>::empty(),
            messages@.map_values(
                |m: crate::connection::StreamMessage| crate::connection::stream_message_view(m),
            ) == old(self).sender()@,
            final(self).stage() == old(self).stage(),
            final(self).id() == old(self).id(),
    {
        self.sender.take()
    }

    /// Encodes a message, frames it and queues the frame, where it fits a frame.
    pub fn send_message(&mut self, message: ServerMessage) -> (r: Result<(), ()>)
        ensures
            r is Ok <==> deliverable(message@.raw()),
            final(self).sender()@ == queue_after(old(self).sender()@, message@.raw()),
            final(self).stage() == old(self).stage(),
            final(self).id() == old(self).id(),
    {
        send_message(&mut self.sender, message)
    }
}

impl Protocol for AuthProtocol {
    /// Takes one message of the client. A start that asks for the content operations, as
    /// the first message, is accepted: the acceptance is queued and the connection
    /// switches. Anything else ends the connection, and nothing is sent.
    fn flow(&mut self, raw_message: RawMessage) -> (w: Workflow)
        ensures
            w@ == flow_outcome(old(self).stage(), raw_message@),
            final(self).id() == old(self).id(),
            accepted(old(self).stage(), raw_message@) ==> final(self).stage()
                == AuthProtocolStage::Accepted && final(self).sender()@ == queue_after(
                old(self).sender()@,
                acceptance(),
            ) && deliverable(acceptance()),
            !accepted(old(self).stage(), raw_message@) ==> final(self).stage() == old(
                self,
            ).stage() && final(self).sender()@ == old(self).sender()@,
    {
        match ClientMessage::parse(raw_message) {
            Err(err) => Workflow::Terminate(WorkflowError::Exception(err.debug_string())),
            Ok(ClientMessage::Start(c)) => match self.stage {
                AuthProtocolStage::BeforeStart => {
                    if c.subprotocol != CONTENT_SUBPROTOCOL {
                        let number = decimal(c.subprotocol as u64);
                        return Workflow::Terminate(
                            WorkflowError::Exception(
                                join2("Wrong requested protocol: ", number.as_str()),
                            ),
                        );
                    }
                    proof {
                        lemma_be_bytes_len(0, 8);
                    }
                    self.stage = AuthProtocolStage::Accepted;
                    match self.send_message(SAuthOk::create(0)) {
                        Ok(_) => Workflow::SwitchProtocol(0),
                        Err(_) => Workflow::Terminate(WorkflowError::ConnectionError),
                    }
                },
                _ => Workflow::Terminate(
                    WorkflowError::Exception("Wrong message order".to_owned()),
                ),
            },
        }
    }
}

} // verus!
