//! A client's connection: what it has to send, and how it waits for a message.

use vstd::prelude::*;

use crate::connection::{
    queue_after, read_result, read_result_view, read_step, send_message, send_raw,
    stream_message_view, StreamMessage, StreamSender,
};
use crate::proto::auth::client::{AuthError, AuthProtocol};
use crate::proto::content::client::{ContentInterface, ContentProtocol};
use crate::proto::content::state::ContentState;
use crate::proto::content::task::StateHandle;
use crate::protocol::message::{
    read_outcome, taken_from, RawMessage, RawMessageView, ReadError, ReadErrorView, Reader,
};
use crate::types::TaskId;

verus! {

/// A client's connection to the server. It owns the queue of outbound frames; the stream
/// itself is with whoever runs the connection.
#[derive(Debug)]
pub struct Connection {
    writer_tx: StreamSender,
}

impl View for Connection {
    type V = Seq<Option<Seq<u8>>>;

    /// The messages that wait to be written, oldest first.
    closed spec fn view(&self) -> Seq<Option<Seq<u8>>> {
        self.writer_tx@
    }
}

impl Connection {
    /// A connection with nothing to send.
    pub fn new() -> (connection: Connection)
        ensures
            connection@ == Seq::<Option<Seq<u8>>>::empty(),
    {
        Connection { writer_tx: StreamSender::new() }
    }

    /// Ends the handshake: where it gave the client a number, the content operations
    /// open on the connection that carried it, with no task yet and all that still waits
    /// to be written.
    pub fn connect(protocol: AuthProtocol, outcome: Result<usize, AuthError>) -> (r: Result<
        ContentInterface,
        AuthError,
    >)
        ensures
            outcome matches Err(e) ==> r == Err::<ContentInterface, AuthError>(e),
            outcome matches Ok(client_id) ==> (r matches Ok(interface)
                && interface.protocol.spec_client_id() == client_id && interface.protocol.tasks()
                == Map::<TaskId, StateHandle<ContentState>>::empty()
                && interface.protocol.next_task_id() == 0 && interface.protocol.outbound()
                == protocol.connection()@),
    {
        match outcome {
            Ok(client_id) => Ok(
                ContentInterface::new(ContentProtocol::new(protocol.into_connection(), client_id)),
            ),
            Err(err) => Err(err),
        }
    }

    /// Puts a message at the end of the queue.
    pub fn send_message(&mut self, message: StreamMessage)
        ensures
            final(self)@ == old(self)@.push(stream_message_view(message)),
    {
        send_message(&mut self.writer_tx, message);
    }

    /// Frames a raw message and queues the frame, where it can be framed.
    pub fn send_raw(&mut self, raw: RawMessage) -> (r: Result<(), ()>)
        ensures
            r is Ok <==> crate::connection::deliverable(raw@),
            final(self)@ == queue_after(old(self)@, raw@),
    {
        send_raw(&mut self.writer_tx, raw)
    }

    /// Takes out all that waits to be written, oldest first.
    pub fn take_outbound(&mut self) -> (messages: Vec<StreamMessage>)
        ensures
            final(self)@ == Seq::<Option<Seq<u8>>>::empty(),
            messages@.map_values(|m: StreamMessage| stream_message_view(m)) == old(self)@,
    {
        self.writer_tx.take()
    }

    /// One step of the wait for a message: takes up what a read of the stream brought.
    pub fn read(reader: &mut Reader, received: Result<&[u8], String>) -> (r: Option<
        Result<RawMessage, ReadError>,
    >)
        ensures
            received matches Err(detail) ==> final(reader)@ == old(reader)@ && read_result_view(r)
                == Some(
                Err::<RawMessageView, ReadErrorView>(
                    ReadErrorView::ConnectionError("Reading from client: "@ + detail@),
                ),
            ),
            received matches Ok(chunk) ==> final(reader)@ == old(reader)@ + taken_from(
                old(reader)@,
                chunk@,
            ) && read_result_view(r) == read_result(
                final(reader)@,
                read_outcome(old(reader)@, taken_from(old(reader)@, chunk@)),
            ),
    {
        read_step(reader, received)
    }
}

} // verus!
