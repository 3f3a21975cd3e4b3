//! The one queue through which a connection's outbound frames pass.

use vstd::prelude::*;

use crate::protocol::message::{
    frame, message_of, read_outcome, taken_from, Message, RawMessage, RawMessageBody,
    RawMessageBodyView, RawMessageView, ReadError, ReadErrorView, ReadFlow, ReadFlowView, Reader,
    BODY_SIZE_LIMIT,
};
use crate::protocol::text::join2;

verus! {

/// What goes to the writer: a frame, or `None` to hang up.
pub type StreamMessage = Option<Message>;

/// What a queued message is in contracts: the frame's bytes, or `None`.
pub open spec fn stream_message_view(message: StreamMessage) -> Option<Seq<u8>> {
    match message {
        Some(m) => Some(m@),
        None => None,
    }
}

/// The sending end of a connection's outbound queue. Whoever has something to send puts
/// it here; the writer takes the messages out in the order in which they were put in.
#[derive(Debug)]
pub struct StreamSender {
    queue: Vec<StreamMessage>,
}

impl View for StreamSender {
    type V = Seq<Option<Seq<u8>>>;

    /// The messages that wait to be written, oldest first.
    closed spec fn view(&self) -> Seq<Option<Seq<u8>>> {
        self.queue@.map_values(|m: StreamMessage| stream_message_view(m))
    }
}

impl StreamSender {
    /// An empty queue.
    pub fn new() -> (tx: StreamSender)
        ensures
            tx@ == Seq::<Option<Seq<u8>>>::empty(),
    {
        let tx = StreamSender { queue: Vec::new() };
        proof {
            assert(tx@ =~= Seq::<Option<Seq<u8>>>::empty());
        }
        tx
    }

    /// Takes out all that waits, oldest first, and leaves the queue empty.
    pub fn take(&mut self) -> (messages: Vec<StreamMessage>)
        ensures
            final(self)@ == Seq::<Option<Seq<u8>>>::empty(),
            messages@.map_values(|m: StreamMessage| stream_message_view(m)) == old(self)@,
    {
        let mut messages: Vec<StreamMessage> = Vec::new();
        core::mem::swap(&mut self.queue, &mut messages);
        proof {
            assert(self@ =~= Seq::<Option<Seq<u8>>>::empty());
        }
        messages
    }
}

/// Puts a message at the end of the queue.
pub fn send_message(tx: &mut StreamSender, message: StreamMessage)
    ensures
        final(tx)@ == old(tx)@.push(stream_message_view(message)),
{
    tx.queue.push(message);
    proof {
        assert(tx@ =~= old(tx)@.push(stream_message_view(message)));
    }
}

/// Whether a raw message can be framed: its body is binary and within the limit.
pub open spec fn deliverable(raw: RawMessageView) -> bool {
    raw.body matches RawMessageBodyView::Binary(body) && body.len() <= BODY_SIZE_LIMIT
}

/// The queue after a raw message was handed in: its frame is added where it can be framed.
pub open spec fn queue_after(queue: Seq<Option<Seq<u8>>>, raw: RawMessageView) -> Seq<
    Option<Seq<u8>>,
> {
    if deliverable(raw) {
        queue.push(Some(frame(raw.mtype, raw.body->Binary_0)))
    } else {
        queue
    }
}

/// Frames a raw message and queues the frame; a message that cannot be framed is dropped
/// and reported.
pub fn send_raw(tx: &mut StreamSender, raw: RawMessage) -> (r: Result<(), ()>)
    ensures
        r is Ok <==> deliverable(raw@),
        final(tx)@ == queue_after(old(tx)@, raw@),
{
    match &raw.body {
        RawMessageBody::Binary(_) => {},
        _ => {
            return Err(());
        },
    }
    match Message::from_raw(raw) {
        Err(_) => Err(()),
        Ok(message) => {
            send_message(tx, Some(message));
            Ok(())
        },
    }
}

/// What one read means for whoever waits for a message: nothing yet, the message, or the
/// error that ends the wait. A complete frame that is no message is a fatal error.
pub open spec fn read_result(accepted: Seq<u8>, flow: ReadFlowView) -> Option<
    Result<RawMessageView, ReadErrorView>,
> {
    match flow {
        ReadFlowView::Error(e) => Some(Err(e)),
        ReadFlowView::Incomplete => None,
        ReadFlowView::Complete => match message_of(accepted) {
            Ok(m) => Some(Ok(m)),
            Err(e) => Some(Err(ReadErrorView::Fatal("Parse error: "@ + e.debug_text()))),
        },
    }
}

/// What a wait for a message has come to, as contracts see it.
pub open spec fn read_result_view(r: Option<Result<RawMessage, ReadError>>) -> Option<
    Result<RawMessageView, ReadErrorView>,
> {
    match r {
        None => None,
        Some(Ok(m)) => Some(Ok(m@)),
        Some(Err(e)) => Some(Err(e@)),
    }
}

/// Hands the reader what one read of the stream brought and says what the wait for a
/// message has come to.
pub fn read_step(reader: &mut Reader, received: Result<&[u8], String>) -> (r: Option<
    Result<RawMessage, ReadError>,
>)
    ensures
        received matches Err(detail) ==> final(reader)@ == old(reader)@ && read_result_view(r)
            == Some(
            Err::<RawMessageView, ReadErrorView>(
                ReadErrorView::ConnectionError("Reading from client: "@ + detail@),
            ),
        ),
        received matches Ok(chunk) ==> final(reader)@ == old(reader)@ + taken_from(
            old(reader)@,
            chunk@,
        ) && read_result_view(r) == read_result(
            final(reader)@,
            read_outcome(old(reader)@, taken_from(old(reader)@, chunk@)),
        ),
{
    match reader.read(received) {
        ReadFlow::Error(err) => Some(Err(err)),
        ReadFlow::Incomplete => None,
        ReadFlow::Complete => match reader.to_message() {
            Ok(message) => Some(Ok(message)),
            Err(err) => {
                let detail = err.debug_string();
                Some(Err(ReadError::Fatal(join2("Parse error: ", detail.as_str()))))
            },
        },
    }
}

} // verus!
