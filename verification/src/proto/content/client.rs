//! The client's side of the content operations.

use std::collections::HashMap;
use vstd::prelude::*;
use vstd::string::*;

use crate::client::connection::Connection;
use crate::connection::{deliverable, queue_after, send_raw, StreamSender};
use crate::proto::content::message::{ClientMessage, ServerMessage, ServerMessageView};
use crate::proto::content::state::{
    complaint, ContentState, ContentStateView, CopyFrom, CopyFromView, GetInfo, GetInfoView,
    Handled,
};
use crate::proto::content::task::{SimpleState, StateHandle};
use crate::protocol::message::{RawMessage, RawMessageView, ReadError};
use crate::protocol::text::{decimal, decimal_text, join2};
use crate::protocol::workflow::{
    Protocol, Workflow, WorkflowError, WorkflowErrorView, WorkflowView,
};
use crate::types::TaskId;

verus! {

broadcast use vstd::std_specs::hash::group_hash_axioms;

/// Encodes a message of the content operations, frames it and queues the frame. Fails,
/// and queues nothing, where the message is too long for a frame.
pub fn send_message(sender: &mut StreamSender, message: ClientMessage) -> (r: Result<(), ()>)
    ensures
        r is Ok <==> deliverable(message@.raw()),
        final(sender)@ == queue_after(old(sender)@, message@.raw()),
{
    send_raw(sender, message.encode())
}

/// Why a task could not be started.
#[derive(Debug, Clone, Copy, PartialEq, Eq, Structural)]
pub enum RequestError {
    Error,
}

/// The tasks of a connection, by their numbers.
pub type Tasks = Map<TaskId, StateHandle<ContentState>>;

/// The content operations as the client runs them on one connection.
#[derive(Debug)]
pub struct ContentProtocol {
    connection: Connection,
    client_id: usize,
    next_id: TaskId,
    tasks: HashMap<TaskId, StateHandle<ContentState>>,
}

/// The handle on one task that was started.
pub struct TaskInterface {
    pub task_id: TaskId,
}

/// The operations that a client has once the server has accepted it.
pub struct ContentInterface {
    pub protocol: ContentProtocol,
}

/// The complaint about a task that is not there.
pub open spec fn absent_text(task_id: TaskId) -> Seq<char> {
    "Absent task id "@ + decimal_text(task_id as nat)
}

/// The task by which a message is handled: the one it names, where the message is an
/// answer or a report and the task is there.
pub open spec fn addressed(tasks: Tasks, raw: RawMessageView) -> Option<TaskId> {
    match ServerMessageView::parsed(raw) {
        Ok(m) => if (m is Info || m is CopyFrom) && tasks.contains_key(m.task_id()) {
            Some(m.task_id())
        } else {
            None
        },
        Err(_) => None,
    }
}

/// What a task becomes by a message of the server.
pub open spec fn handled_by(handle: StateHandle<ContentState>, raw: RawMessageView) -> Handled<
    ContentStateView,
> {
    handle.task@.handled(handle.state, ServerMessageView::parsed(raw)->Ok_0)
}

/// What the client makes of a message of the server. An error or a refusal ends the
/// connection, and so do a message for a task that is not there and one that the task it
/// names cannot take.
pub open spec fn flow_outcome(tasks: Tasks, raw: RawMessageView) -> WorkflowView {
    match ServerMessageView::parsed(raw) {
        Err(e) => WorkflowView::Terminate(WorkflowErrorView::Exception(e.debug_text())),
        Ok(ServerMessageView::Error(m)) => WorkflowView::Terminate(
            WorkflowErrorView::ProtocolError("Server error with message: "@ + m.message),
        ),
        Ok(ServerMessageView::Reject(m)) => WorkflowView::Terminate(
            WorkflowErrorView::ProtocolError(
                "Server rejected connection with message: "@ + m.reason,
            ),
        ),
        Ok(m) => if !tasks.contains_key(m.task_id()) {
            WorkflowView::Terminate(
                WorkflowErrorView::ProtocolError(
                    "Message for an absent task #"@ + decimal_text(m.task_id() as nat) + ": "@
                        + m.debug_text(),
                ),
            )
        } else {
            match handled_by(tasks[m.task_id()], raw).result {
                Ok(_) => WorkflowView::Continue,
                Err(text) => WorkflowView::Terminate(
                    WorkflowErrorView::ProtocolError(
                        "Client error while processing message: "@ + text,
                    ),
                ),
            }
        },
    }
}

/// What reading one message comes to.
pub open spec fn read_one_outcome(tasks: Tasks, raw: RawMessageView) -> Result<
    (),
    WorkflowErrorView,
> {
    match flow_outcome(tasks, raw) {
        WorkflowView::Continue => Ok(()),
        WorkflowView::SwitchProtocol(_) => Err(
            WorkflowErrorView::ProtocolError("Unexpected protocol switching"@),
        ),
        WorkflowView::Terminate(e) => Err(e),
    }
}

/// The error of a result, as contracts see it.
pub open spec fn workflow_result<T>(r: Result<T, WorkflowError>) -> Result<T, WorkflowErrorView> {
    match r {
        Ok(x) => Ok(x),
        Err(e) => Err(e@),
    }
}

impl ContentProtocol {
    #[verifier::type_invariant]
    spec fn numbered(self) -> bool {
        forall|id: TaskId| #[trigger]
            self.tasks@.contains_key(id) ==> id < self.next_id && self.tasks@[id].task_id == id
    }

    /// The tasks that were started and not yet finished.
    pub closed spec fn tasks(&self) -> Tasks {
        self.tasks@
    }

    /// The number that the next task gets.
    pub closed spec fn next_task_id(&self) -> TaskId {
        self.next_id
    }

    /// The frames that wait to be written.
    pub closed spec fn outbound(&self) -> Seq<Option<Seq<u8>>> {
        self.connection@
    }

    /// The number that the server gave this client.
    pub closed spec fn spec_client_id(&self) -> usize {
        self.client_id
    }

    /// The content operations on a connection, with no task yet.
    pub fn new(connection: Connection, client_id: usize) -> (protocol: ContentProtocol)
        ensures
            protocol.tasks() == Map::<TaskId, StateHandle<ContentState>>::empty(),
            protocol.next_task_id() == 0,
            protocol.outbound() == connection@,
            protocol.spec_client_id() == client_id,
    {
        ContentProtocol {
            connection: connection,
            client_id: client_id,
            next_id: 0,
            tasks: HashMap::new(),
        }
    }

    /// The number that the server gave this client.
    pub fn client_id(&self) -> (id: usize)
        ensures
            id == self.spec_client_id(),
    {
        self.client_id
    }

    /// Takes out all that waits to be written, oldest first.
    pub fn take_outbound(&mut self) -> (messages: Vec<crate::connection::StreamMessage>)
        ensures
            final(self).outbound() == Seq::<Option<Seq<u8>>>::empty(),
            messages@.map_values(
                |m: crate::connection::StreamMessage| crate::connection::stream_message_view(m),
            ) == old(self).outbound(),
            final(self).tasks() == old(self).tasks(),
            final(self).next_task_id() == old(self).next_task_id(),
    {
        proof {
            use_type_invariant(&*self);
        }
        let mut connection = Connection::new();
        core::mem::swap(&mut self.connection, &mut connection);
        connection.take_outbound()
    }

    /// Encodes a message, frames it and queues the frame, where it fits a frame.
    pub fn send_message(&mut self, message: ClientMessage) -> (r: Result<(), ()>)
        ensures
            r is Ok <==> deliverable(message@.raw()),
            final(self).outbound() == queue_after(old(self).outbound(), message@.raw()),
            final(self).tasks() == old(self).tasks(),
            final(self).next_task_id() == old(self).next_task_id(),
    {
        proof {
            use_type_invariant(&*self);
        }
        let mut connection = Connection::new();
        core::mem::swap(&mut self.connection, &mut connection);
        let r = connection.send_raw(message.encode());
        self.connection = connection;
        r
    }

    /// Starts a task under the next number: keeps it as waiting and queues its request.
    /// Fails only when the numbers are used up.
    pub fn start_task(&mut self, task: ContentState) -> (r: Result<TaskId, RequestError>)
        ensures
            old(self).next_task_id() == u64::MAX ==> ({
                &&& r == Err::<TaskId, RequestError>(RequestError::Error)
                &&& final(self).tasks() == old(self).tasks()
                &&& final(self).next_task_id() == old(self).next_task_id()
                &&& final(self).outbound() == old(self).outbound()
            }),
            old(self).next_task_id() < u64::MAX ==> ({
                let id = old(self).next_task_id();
                &&& r == Ok::<TaskId, RequestError>(id)
                &&& final(self).next_task_id() == id + 1
                &&& !old(self).tasks().contains_key(id)
                &&& final(self).tasks().dom() == old(self).tasks().dom().insert(id)
                &&& final(self).tasks()[id].task_id == id
                &&& final(self).tasks()[id].state == SimpleState::Waiting
                &&& final(self).tasks()[id].task@ == task@
                &&& forall|other: TaskId|
                    old(self).tasks().contains_key(other) ==> #[trigger] final(self).tasks()[other]
                        == old(self).tasks()[other]
                &&& final(self).outbound() == queue_after(
                    old(self).outbound(),
                    task@.request(id).raw(),
                )
            }),
    {
        proof {
            use_type_invariant(&*self);
        }
        if self.next_id == u64::MAX {
            return Err(RequestError::Error);
        }
        let task_id: TaskId = self.next_id;
        let mut task = task;
        let mut connection = Connection::new();
        core::mem::swap(&mut self.connection, &mut connection);
        task.start(task_id, &mut connection);
        self.connection = connection;
        let mut tasks: HashMap<TaskId, StateHandle<ContentState>> = HashMap::new();
        core::mem::swap(&mut self.tasks, &mut tasks);
        tasks.insert(task_id, StateHandle::new(task_id, task));
        self.next_id = task_id + 1;
        self.tasks = tasks;
        proof {
            assert(self.tasks().dom() =~= old(self).tasks().dom().insert(task_id));
        }
        Ok(task_id)
    }

    /// Takes a task out, with all that it has collected.
    pub fn finish_task(&mut self, task_id: TaskId) -> (r: Result<StateHandle<ContentState>, String>)
        ensures
            final(self).next_task_id() == old(self).next_task_id(),
            final(self).outbound() == old(self).outbound(),
            final(self).tasks() == old(self).tasks().remove(task_id),
            old(self).tasks().contains_key(task_id) ==> r == Ok::<
                StateHandle<ContentState>,
                String,
            >(old(self).tasks()[task_id]),
            !old(self).tasks().contains_key(task_id) ==> (r matches Err(text) && text@
                == absent_text(task_id)),
    {
        proof {
            use_type_invariant(&*self);
        }
        let mut tasks: HashMap<TaskId, StateHandle<ContentState>> = HashMap::new();
        core::mem::swap(&mut self.tasks, &mut tasks);
        let found = tasks.remove(&task_id);
        self.tasks = tasks;
        match found {
            Some(handle) => Ok(handle),
            None => {
                proof {
                    assert(self.tasks() =~= old(self).tasks().remove(task_id));
                }
                let number = decimal(task_id);
                Err(join2("Absent task id ", number.as_str()))
            },
        }
    }

    /// Where a task stands, if it is there.
    pub fn state_of(&self, task_id: TaskId) -> (state: Option<SimpleState>)
        ensures
            self.tasks().contains_key(task_id) ==> state == Some(self.tasks()[task_id].state),
            !self.tasks().contains_key(task_id) ==> state is None,
    {
        match self.tasks.get(&task_id) {
            Some(handle) => Some(handle.state),
            None => None,
        }
    }

    /// Says whether a task can be waited for: it must be there.
    pub fn awaited(&self, task_id: TaskId) -> (r: Result<(), WorkflowError>)
        ensures
            self.tasks().contains_key(task_id) ==> r is Ok,
            !self.tasks().contains_key(task_id) ==> (r matches Err(e) && e@
                == WorkflowErrorView::Exception(absent_text(task_id))),
    {
        match self.state_of(task_id) {
            Some(_) => Ok(()),
            None => {
                let number = decimal(task_id);
                Err(WorkflowError::Exception(join2("Absent task id ", number.as_str())))
            },
        }
    }

    /// Takes what the wait for a message ended in. A lost connection and a message that
    /// ends the connection are errors.
    pub fn read_one(&mut self, inbound: Result<RawMessage, ReadError>) -> (r: Result<
        (),
        WorkflowError,
    >)
        ensures
            final(self).next_task_id() == old(self).next_task_id(),
            final(self).outbound() == old(self).outbound(),
            inbound matches Err(_) ==> final(self).tasks() == old(self).tasks() && workflow_result(
                r,
            ) == Err::<(), WorkflowErrorView>(WorkflowErrorView::ConnectionError),
            inbound matches Ok(raw) ==> workflow_result(r) == read_one_outcome(
                old(self).tasks(),
                raw@,
            ) && flowed(old(self).tasks(), raw@, final(self).tasks()),
    {
        let message = match inbound {
            Ok(message) => message,
            Err(_) => {
                return Err(WorkflowError::ConnectionError);
            },
        };
        match self.flow(message) {
            Workflow::Continue => Ok(()),
            Workflow::SwitchProtocol(_) => Err(
                WorkflowError::ProtocolError("Unexpected protocol switching".to_owned()),
            ),
            Workflow::Terminate(err) => Err(err),
        }
    }

    /// One step of the wait for a task: takes what the wait for a message ended in, and
    /// says whether the task has left the waiting state. A task that is not there is an
    /// error, and the message is not looked at.
    pub fn wait(&mut self, task_id: TaskId, inbound: Result<RawMessage, ReadError>) -> (r: Result<
        bool,
        WorkflowError,
    >)
        ensures
            final(self).next_task_id() == old(self).next_task_id(),
            final(self).outbound() == old(self).outbound(),
            !old(self).tasks().contains_key(task_id) ==> ({
                &&& final(self).tasks() == old(self).tasks()
                &&& workflow_result(r) == Err::<bool, WorkflowErrorView>(
                    WorkflowErrorView::Exception(absent_text(task_id)),
                )
            }),
            old(self).tasks().contains_key(task_id) ==> match inbound {
                Err(_) => {
                    &&& final(self).tasks() == old(self).tasks()
                    &&& workflow_result(r) == Err::<bool, WorkflowErrorView>(
                        WorkflowErrorView::ConnectionError,
                    )
                },
                Ok(raw) => {
                    &&& flowed(old(self).tasks(), raw@, final(self).tasks())
                    &&& match read_one_outcome(old(self).tasks(), raw@) {
                        Err(e) => workflow_result(r) == Err::<bool, WorkflowErrorView>(e),
                        Ok(_) => r == Ok::<bool, WorkflowError>(
                            final(self).tasks()[task_id].state != SimpleState::Waiting,
                        ),
                    }
                },
            },
    {
        match self.awaited(task_id) {
            Ok(_) => {},
            Err(e) => {
                return Err(e);
            },
        }
        match self.read_one(inbound) {
            Ok(_) => {},
            Err(e) => {
                return Err(e);
            },
        }
        match self.state_of(task_id) {
            Some(state) => Ok(!state.is_waiting()),
            None => Ok(true),
        }
    }
}

/// How the tasks stand after a message: the task that the message is handled by has
/// become what the message makes of it, and every other task is as it was.
pub open spec fn flowed(before: Tasks, raw: RawMessageView, after: Tasks) -> bool {
    &&& after.dom() == before.dom()
    &&& forall|id: TaskId|
        before.contains_key(id) && addressed(before, raw) != Some(id) ==> #[trigger] after[id]
            == before[id]
    &&& addressed(before, raw) matches Some(id) ==> {
        &&& after[id].task_id == before[id].task_id
        &&& after[id].task@ == handled_by(before[id], raw).task
        &&& after[id].state == handled_by(before[id], raw).state
    }
}

impl Protocol for ContentProtocol {
    /// Takes one message of the server and hands it to the task that it names.
    fn flow(&mut self, raw_message: RawMessage) -> (w: Workflow)
        ensures
            w@ == flow_outcome(old(self).tasks(), raw_message@),
            flowed(old(self).tasks(), raw_message@, final(self).tasks()),
            final(self).next_task_id() == old(self).next_task_id(),
            final(self).outbound() == old(self).outbound(),
    {
        proof {
            use_type_invariant(&*self);
        }
        let message = match ServerMessage::parse(raw_message) {
            Err(err) => {
                return Workflow::Terminate(WorkflowError::Exception(err.debug_string()));
            },
            Ok(message) => message,
        };
        let task_id: TaskId = message.get_task_id();
        match message {
            ServerMessage::Error(m) => {
                return Workflow::Terminate(
                    WorkflowError::ProtocolError(
                        join2("Server error with message: ", m.message.as_str()),
                    ),
                );
            },
            ServerMessage::Reject(m) => {
                return Workflow::Terminate(
                    WorkflowError::ProtocolError(
                        join2("Server rejected connection with message: ", m.reason.as_str()),
                    ),
                );
            },
            _ => {},
        }
        let mut tasks: HashMap<TaskId, StateHandle<ContentState>> = HashMap::new();
        core::mem::swap(&mut self.tasks, &mut tasks);
        let w = match tasks.remove(&task_id) {
            None => {
                let number = decimal(task_id);
                let shown = message.debug_string();
                let mut text = "Message for an absent task #".to_owned();
                text.append(number.as_str());
                text.append(": ");
                text.append(shown.as_str());
                proof {
                    assert(tasks@ =~= old(self).tasks());
                    assert(text@ =~= "Message for an absent task #"@ + decimal_text(
                        task_id as nat,
                    ) + ": "@ + message@.debug_text());
                }
                Workflow::Terminate(WorkflowError::ProtocolError(text))
            },
            Some(handle) => {
                let mut handle = handle;
                let r = handle.task.handle_message(&mut handle.state, message);
                tasks.insert(task_id, handle);
                proof {
                    assert(tasks@.dom() =~= old(self).tasks().dom());
                }
                match r {
                    Ok(_) => Workflow::Continue,
                    Err(err) => Workflow::Terminate(
                        WorkflowError::ProtocolError(
                            join2("Client error while processing message: ", err.as_str()),
                        ),
                    ),
                }
            },
        };
        self.tasks = tasks;
        w
    }
}

impl TaskInterface {
    /// The handle on the task with a number.
    pub fn new(task_id: TaskId) -> (task: Self)
        ensures
            task.task_id == task_id,
    {
        TaskInterface { task_id: task_id }
    }

    /// One step of the wait for the task, as `ContentProtocol::wait` makes it.
    pub fn wait(
        &self,
        protocol: &mut ContentProtocol,
        inbound: Result<RawMessage, ReadError>,
    ) -> (r: Result<bool, WorkflowError>)
        ensures
            final(protocol).next_task_id() == old(protocol).next_task_id(),
            final(protocol).outbound() == old(protocol).outbound(),
            !old(protocol).tasks().contains_key(self.task_id) ==> ({
                &&& final(protocol).tasks() == old(protocol).tasks()
                &&& workflow_result(r) == Err::<bool, WorkflowErrorView>(
                    WorkflowErrorView::Exception(absent_text(self.task_id)),
                )
            }),
            old(protocol).tasks().contains_key(self.task_id) ==> match inbound {
                Err(_) => {
                    &&& final(protocol).tasks() == old(protocol).tasks()
                    &&& workflow_result(r) == Err::<bool, WorkflowErrorView>(
                        WorkflowErrorView::ConnectionError,
                    )
                },
                Ok(raw) => {
                    &&& flowed(old(protocol).tasks(), raw@, final(protocol).tasks())
                    &&& match read_one_outcome(old(protocol).tasks(), raw@) {
                        Err(e) => workflow_result(r) == Err::<bool, WorkflowErrorView>(e),
                        Ok(_) => r == Ok::<bool, WorkflowError>(
                            final(protocol).tasks()[self.task_id].state != SimpleState::Waiting,
                        ),
                    }
                },
            },
    {
        protocol.wait(self.task_id, inbound)
    }

    /// Ends the task and hands out what it has collected.
    pub fn finish(self, protocol: &mut ContentProtocol) -> (r: Result<ContentState, String>)
        ensures
            final(protocol).tasks() == old(protocol).tasks().remove(self.task_id),
            old(protocol).tasks().contains_key(self.task_id) ==> r == Ok::<ContentState, String>(
                old(protocol).tasks()[self.task_id].task,
            ),
            !old(protocol).tasks().contains_key(self.task_id) ==> (r matches Err(text) && text@
                == absent_text(self.task_id)),
    {
        match protocol.finish_task(self.task_id) {
            Ok(handle) => Ok(handle.task),
            Err(text) => Err(text),
        }
    }
}

impl ContentInterface {
    /// The operations on a connection that was accepted.
    pub fn new(protocol: ContentProtocol) -> (interface: Self)
        ensures
            interface.protocol == protocol,
    {
        ContentInterface { protocol: protocol }
    }

    /// Asks what the server is.
    pub fn info(&mut self) -> (r: Result<TaskInterface, RequestError>)
        ensures
            r is Ok <==> old(self).protocol.next_task_id() < u64::MAX,
            r matches Ok(task) ==> ({
                let state = ContentStateView::GetInfo(GetInfoView { response: None });
                &&& task.task_id == old(self).protocol.next_task_id()
                &&& final(self).protocol.next_task_id() == task.task_id + 1
                &&& final(self).protocol.tasks().contains_key(task.task_id)
                &&& final(self).protocol.tasks()[task.task_id].task@ == state
                &&& final(self).protocol.tasks()[task.task_id].state == SimpleState::Waiting
                &&& final(self).protocol.outbound() == queue_after(
                    old(self).protocol.outbound(),
                    state.request(task.task_id).raw(),
                )
            }),
    {
        match self.protocol.start_task(GetInfo::create()) {
            Ok(task_id) => Ok(TaskInterface::new(task_id)),
            Err(err) => Err(err),
        }
    }

    /// Asks the server to take the file at `path` into the store.
    pub fn copy_from(&mut self, path: &str) -> (r: Result<TaskInterface, RequestError>)
        ensures
            r is Ok <==> old(self).protocol.next_task_id() < u64::MAX,
            r matches Ok(task) ==> ({
                let state = ContentStateView::CopyFrom(CopyFromView { uri: path@, result: None });
                &&& task.task_id == old(self).protocol.next_task_id()
                &&& final(self).protocol.next_task_id() == task.task_id + 1
                &&& final(self).protocol.tasks().contains_key(task.task_id)
                &&& final(self).protocol.tasks()[task.task_id].task@ == state
                &&& final(self).protocol.tasks()[task.task_id].state == SimpleState::Waiting
                &&& final(self).protocol.outbound() == queue_after(
                    old(self).protocol.outbound(),
                    state.request(task.task_id).raw(),
                )
            }),
    {
        match self.protocol.start_task(CopyFrom::create(path.to_owned())) {
            Ok(task_id) => Ok(TaskInterface::new(task_id)),
            Err(err) => Err(err),
        }
    }
}

} // verus!
