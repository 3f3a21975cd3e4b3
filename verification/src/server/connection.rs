//! The machine that runs one connection on the server: first the handshake, then the
//! content operations.

use vstd::prelude::*;

use crate::connection::{
    queue_after, read_result, read_result_view, read_step, stream_message_view, StreamMessage,
    StreamSender,
};
use crate::proto::auth::server as auth;
use crate::proto::content::actions::{copy_reply, copy_result_view, info_message, TaskContainer};
use crate::proto::content::message::ClientMessageView;
use crate::proto::content::task::TaskHandle;
use crate::proto::content::server as content;
use crate::protocol::message::{
    read_outcome, taken_from, RawMessage, RawMessageView, ReadError, ReadErrorView, Reader,
};
use crate::protocol::workflow::{Protocol, Workflow, WorkflowView};
use crate::types::{ContentId, TaskId};

verus! {

/// The stage of a connection, with what the stage keeps.
#[derive(Debug)]
pub enum Stage {
    /// The handshake is under way.
    Auth(auth::AuthProtocol),
    /// The client was accepted; tasks are served.
    Content(content::ContentProtocol),
    /// The connection has ended; what was queued before may still be written.
    Closed(StreamSender),
}

/// A client's connection as the server runs it.
#[derive(Debug)]
pub struct Connection {
    /// The client's number.
    id: usize,
    stage: Stage,
}

/// The stage of a connection, by name.
#[derive(Debug, Clone, Copy, PartialEq, Eq, Structural)]
pub enum StageKind {
    Auth,
    Content,
    Closed,
}

impl Connection {
    /// The stage that the connection is in.
    pub closed spec fn kind(&self) -> StageKind {
        match self.stage {
            Stage::Auth(_) => StageKind::Auth,
            Stage::Content(_) => StageKind::Content,
            Stage::Closed(_) => StageKind::Closed,
        }
    }

    /// How far the handshake has come, while it is under way.
    pub closed spec fn auth_stage(&self) -> auth::AuthProtocolStage {
        self.stage->Auth_0.stage()
    }

    /// The frames that wait to be written.
    pub closed spec fn outbound(&self) -> Seq<Option<Seq<u8>>> {
        match self.stage {
            Stage::Auth(p) => p.sender()@,
            Stage::Content(p) => p.outbound(),
            Stage::Closed(sender) => sender@,
        }
    }

    /// The tasks of the connection; none before the client is accepted.
    pub closed spec fn tasks(&self) -> Map<TaskId, TaskContainer> {
        match self.stage {
            Stage::Content(p) => p.tasks(),
            _ => Map::empty(),
        }
    }

    /// The tasks whose workers are yet to be launched, oldest first.
    pub closed spec fn started(&self) -> Seq<TaskId> {
        match self.stage {
            Stage::Content(p) => p.started(),
            _ => Seq::empty(),
        }
    }

    /// The client's number.
    pub closed spec fn spec_id(&self) -> usize {
        self.id
    }

    /// A connection that awaits the client's start.
    pub fn new(id: usize) -> (connection: Connection)
        ensures
            connection.kind() == StageKind::Auth,
            connection.auth_stage() == auth::AuthProtocolStage::BeforeStart,
            connection.outbound() == Seq::<Option<Seq<u8>>>::empty(),
            connection.spec_id() == id,
    {
        Connection { id: id, stage: Stage::Auth(auth::AuthProtocol::new(StreamSender::new(), id)) }
    }

    /// The client's number.
    pub fn id(&self) -> (id: usize)
        ensures
            id == self.spec_id(),
    {
        self.id
    }

    /// Whether the connection has ended.
    pub fn is_closed(&self) -> (b: bool)
        ensures
            b == (self.kind() == StageKind::Closed),
    {
        match &self.stage {
            Stage::Closed(_) => true,
            _ => false,
        }
    }

    /// One step of the wait for a message: takes up what a read of the stream brought.
    pub fn read(reader: &mut Reader, received: Result<&[u8], String>) -> (r: Option<
        Result<RawMessage, ReadError>,
    >)
        ensures
            received matches Err(detail) ==> final(reader)@ == old(reader)@ && read_result_view(r)
                == Some(
                Err::<RawMessageView, ReadErrorView>(
                    ReadErrorView::ConnectionError("Reading from client: "@ + detail@),
                ),
            ),
            received matches Ok(chunk) ==> final(reader)@ == old(reader)@ + taken_from(
                old(reader)@,
                chunk@,
            ) && read_result_view(r) == read_result(
                final(reader)@,
                read_outcome(old(reader)@, taken_from(old(reader)@, chunk@)),
            ),
    {
        read_step(reader, received)
    }

    /// What a message does to a connection in a stage: the stage that follows.
    pub open spec fn next_kind(
        kind: StageKind,
        auth_stage: auth::AuthProtocolStage,
        tasks: Set<TaskId>,
        raw: RawMessageView,
    ) -> StageKind {
        match kind {
            StageKind::Auth => match auth::flow_outcome(auth_stage, raw) {
                WorkflowView::Continue => StageKind::Auth,
                WorkflowView::SwitchProtocol(_) => StageKind::Content,
                WorkflowView::Terminate(_) => StageKind::Closed,
            },
            StageKind::Content => match content::flow_outcome(tasks, raw) {
                WorkflowView::Continue => StageKind::Content,
                _ => StageKind::Closed,
            },
            StageKind::Closed => StageKind::Closed,
        }
    }

    /// One step of the connection's run: takes what the wait for a message ended in, and
    /// says whether the connection goes on. A failed read ends it in any stage; what
    /// was queued is kept for the writer. During
    /// the handshake an accepted start switches to the content operations, with the
    /// acceptance queued; anything else ends the connection. After it, a request starts
    /// a task, and a message that cannot be taken ends the connection.
    pub fn run(&mut self, inbound: Result<RawMessage, ReadError>) -> (open: bool)
        ensures
            open == (final(self).kind() != StageKind::Closed),
            final(self).spec_id() == old(self).spec_id(),
            final(self).kind() == StageKind::Closed ==> ({
                &&& final(self).outbound() == old(self).outbound()
                &&& final(self).tasks() == Map::<TaskId, TaskContainer>::empty()
                &&& final(self).started() == Seq::<TaskId>::empty()
            }),
            inbound is Err ==> final(self).kind() == StageKind::Closed,
            inbound matches Ok(raw) ==> ({
                let request = ClientMessageView::parsed(raw@)->Ok_0;
                &&& final(self).kind() == Self::next_kind(
                    old(self).kind(),
                    old(self).auth_stage(),
                    old(self).tasks().dom(),
                    raw@,
                )
                &&& old(self).kind() == StageKind::Auth && final(self).kind()
                    == StageKind::Auth ==> {
                    &&& final(self).outbound() == old(self).outbound()
                    &&& final(self).auth_stage() == old(self).auth_stage()
                }
                &&& old(self).kind() == StageKind::Auth && final(self).kind()
                    == StageKind::Content ==> {
                    &&& final(self).outbound() == queue_after(
                        old(self).outbound(),
                        auth::acceptance(),
                    )
                    &&& final(self).tasks() == Map::<TaskId, TaskContainer>::empty()
                    &&& final(self).started() == Seq::<TaskId>::empty()
                }
                &&& old(self).kind() == StageKind::Content && final(self).kind()
                    == StageKind::Content ==> {
                    &&& content::starts(old(self).tasks().dom(), raw@)
                    &&& final(self).outbound() == old(self).outbound()
                    &&& final(self).tasks().dom() == old(self).tasks().dom().insert(
                        request.task_id(),
                    )
                    &&& final(self).tasks()[request.task_id()].handle == (TaskHandle {
                        task_id: request.task_id(),
                        finished: false,
                    })
                    &&& final(self).tasks()[request.task_id()].action@ == content::action_of(
                        request,
                    )
                    &&& final(self).started() == old(self).started().push(request.task_id())
                    &&& forall|id: TaskId|
                        old(self).tasks().contains_key(id) ==> #[trigger] final(self).tasks()[id]
                            == old(self).tasks()[id]
                }
            }),
    {
        let mut stage = Stage::Closed(StreamSender::new());
        core::mem::swap(&mut self.stage, &mut stage);
        match stage {
            Stage::Auth(protocol) => {
                let mut protocol = protocol;
                let message = match inbound {
                    Ok(message) => message,
                    Err(_) => {
                        self.stage = Stage::Closed(protocol.into_sender());
                        return false;
                    },
                };
                match protocol.flow(message) {
                    Workflow::Continue => {
                        self.stage = Stage::Auth(protocol);
                        true
                    },
                    Workflow::Terminate(_) => {
                        self.stage = Stage::Closed(protocol.into_sender());
                        false
                    },
                    Workflow::SwitchProtocol(_) => {
                        let sender = protocol.into_sender();
                        self.stage = Stage::Content(content::ContentProtocol::new(sender, self.id));
                        true
                    },
                }
            },
            Stage::Content(protocol) => {
                let mut protocol = protocol;
                let message = match inbound {
                    Ok(message) => message,
                    Err(_) => {
                        self.stage = Stage::Closed(protocol.into_sender());
                        return false;
                    },
                };
                match protocol.flow(message) {
                    Workflow::Continue => {
                        self.stage = Stage::Content(protocol);
                        true
                    },
                    _ => {
                        self.stage = Stage::Closed(protocol.into_sender());
                        false
                    },
                }
            },
            Stage::Closed(sender) => {
                self.stage = Stage::Closed(sender);
                false
            },
        }
    }

    /// Takes out all that waits to be written, oldest first.
    pub fn take_outbound(&mut self) -> (messages: Vec<StreamMessage>)
        ensures
            final(self).outbound() == Seq::<Option<Seq<u8>>>::empty(),
            messages@.map_values(|m: StreamMessage| stream_message_view(m)) == old(self).outbound(),
            final(self).kind() == old(self).kind(),
            final(self).tasks() == old(self).tasks(),
            final(self).started() == old(self).started(),
            final(self).spec_id() == old(self).spec_id(),
    {
        match &mut self.stage {
            Stage::Auth(p) => p.take_outbound(),
            Stage::Content(p) => p.take_outbound(),
            Stage::Closed(sender) => sender.take(),
        }
    }

    /// Takes out the tasks whose workers are to be launched, oldest first.
    pub fn take_started(&mut self) -> (started: Vec<TaskId>)
        ensures
            started@ == old(self).started(),
            final(self).started() == Seq::<TaskId>::empty(),
            final(self).kind() == old(self).kind(),
            final(self).tasks() == old(self).tasks(),
            final(self).outbound() == old(self).outbound(),
            final(self).spec_id() == old(self).spec_id(),
    {
        match &mut self.stage {
            Stage::Content(p) => p.take_started(),
            _ => Vec::new(),
        }
    }

    /// A task, if it is there.
    pub fn task(&self, task_id: TaskId) -> (found: Option<&TaskContainer>)
        ensures
            self.tasks().contains_key(task_id) ==> found == Some(&self.tasks()[task_id]),
            !self.tasks().contains_key(task_id) ==> found is None,
    {
        match &self.stage {
            Stage::Content(p) => p.task(task_id),
            _ => None,
        }
    }

    /// The worker of a question after the server has what it needs; see
    /// `ContentProtocol::report_info`. Says whether the task was there.
    pub fn report_info(&mut self, task_id: TaskId, pid: u32, os: (&str, &str, &str)) -> (found:
        bool)
        ensures
            found == old(self).tasks().contains_key(task_id),
            final(self).kind() == old(self).kind(),
            final(self).started() == old(self).started(),
            final(self).tasks().dom() == old(self).tasks().dom(),
            !found ==> ({
                &&& final(self).outbound() == old(self).outbound()
                &&& final(self).tasks() == old(self).tasks()
            }),
            found ==> ({
                let before = old(self).tasks()[task_id];
                let after = final(self).tasks()[task_id];
                &&& final(self).tasks() == old(self).tasks().insert(task_id, after)
                &&& after.handle.finished
                &&& after.handle.task_id == before.handle.task_id
                &&& after.action == before.action
                &&& final(self).outbound() == queue_after(
                    old(self).outbound(),
                    info_message(before.handle.task_id, pid, (os.0@, os.1@, os.2@)).raw(),
                )
            }),
    {
        match &mut self.stage {
            Stage::Content(p) => p.report_info(task_id, pid, os).is_ok(),
            _ => false,
        }
    }

    /// The worker of a copy has ended; see `ContentProtocol::report_copy`. Says whether
    /// the task was there.
    pub fn report_copy(&mut self, task_id: TaskId, result: Result<ContentId, String>) -> (found:
        bool)
        ensures
            found == old(self).tasks().contains_key(task_id),
            final(self).kind() == old(self).kind(),
            final(self).started() == old(self).started(),
            final(self).tasks().dom() == old(self).tasks().dom(),
            !found ==> ({
                &&& final(self).outbound() == old(self).outbound()
                &&& final(self).tasks() == old(self).tasks()
            }),
            found ==> ({
                let before = old(self).tasks()[task_id];
                let after = final(self).tasks()[task_id];
                &&& final(self).tasks() == old(self).tasks().insert(task_id, after)
                &&& after.handle.finished
                &&& after.handle.task_id == before.handle.task_id
                &&& after.action == before.action
                &&& final(self).outbound() == queue_after(
                    old(self).outbound(),
                    copy_reply(before.handle.task_id, copy_result_view(result)).raw(),
                )
            }),
    {
        match &mut self.stage {
            Stage::Content(p) => p.report_copy(task_id, result).is_ok(),
            _ => false,
        }
    }
}

} // verus!
