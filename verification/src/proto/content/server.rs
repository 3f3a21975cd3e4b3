//! The server's side of the content operations.

use std::collections::HashMap;
use vstd::prelude::*;
use vstd::string::*;

use crate::connection::{deliverable, queue_after, send_raw, StreamSender};
use crate::proto::content::actions::{
    copy_from, copy_reply, copy_result_view, get_info, info_message, ContentAction,
    ContentActionView, CopyFrom, TaskContainer,
};
use crate::proto::content::message::{ClientMessage, ClientMessageView, ServerMessage};
use crate::proto::content::task::TaskHandle;
use crate::protocol::message::{RawMessage, RawMessageView};
use crate::protocol::text::{decimal, decimal_text, join2};
use crate::protocol::workflow::{
    Protocol, Workflow, WorkflowError, WorkflowErrorView, WorkflowView,
};
use crate::types::{ContentId, TaskId};

verus! {

broadcast use vstd::std_specs::hash::group_hash_axioms;

/// Encodes a message of the content operations, frames it and queues the frame. Fails,
/// and queues nothing, where the message is too long for a frame.
pub fn send_message(sender: &mut StreamSender, message: ServerMessage) -> (r: Result<(), ()>)
    ensures
        r is Ok <==> deliverable(message@.raw()),
        final(sender)@ == queue_after(old(sender)@, message@.raw()),
{
    send_raw(sender, message.encode())
}

/// Where the content lies.
#[derive(Debug)]
pub struct ContentConfig {
    pub root: String,
}

/// The content operations as the server runs them on one connection.
#[derive(Debug)]
pub struct ContentProtocol {
    id: usize,
    sender: StreamSender,
    tasks_h: HashMap<TaskId, TaskContainer>,
    started: Vec<TaskId>,
}

/// The complaint about a task's number that is in use.
pub open spec fn duplicate_text(task_id: TaskId) -> Seq<char> {
    "Duplicate task id "@ + decimal_text(task_id as nat)
}

/// The complaint about a task that is not there.
pub open spec fn absent_text(task_id: TaskId) -> Seq<char> {
    "Absent task id "@ + decimal_text(task_id as nat)
}

/// What a client's message asks the server to do.
pub open spec fn action_of(m: ClientMessageView) -> ContentActionView {
    match m {
        ClientMessageView::GetInfo(_) => ContentActionView::GetInfo,
        ClientMessageView::CopyFrom(c) => ContentActionView::CopyFrom(c.uri),
    }
}

/// Whether a message starts a task: it is a request, and its number is not in use.
pub open spec fn starts(tasks: Set<TaskId>, raw: RawMessageView) -> bool {
    ClientMessageView::parsed(raw) matches Ok(m) && !tasks.contains(m.task_id())
}

/// What the server makes of a client's message, given the numbers in use. A message that
/// does not parse ends the connection, and so does a request under a number in use.
pub open spec fn flow_outcome(tasks: Set<TaskId>, raw: RawMessageView) -> WorkflowView {
    match ClientMessageView::parsed(raw) {
        Err(e) => WorkflowView::Terminate(WorkflowErrorView::Exception(e.debug_text())),
        Ok(m) => if tasks.contains(m.task_id()) {
            WorkflowView::Terminate(
                WorkflowErrorView::ProtocolError(duplicate_text(m.task_id())),
            )
        } else {
            WorkflowView::Continue
        },
    }
}

/// A request under the number of a task that is in use ends the connection with a
/// protocol error; so a second request under the number of one that was just started.
pub proof fn lemma_duplicate_ends_connection(
    tasks: Set<TaskId>,
    first: RawMessageView,
    second: RawMessageView,
)
    requires
        ClientMessageView::parsed(first) matches Ok(a) && ClientMessageView::parsed(
            second,
        ) matches Ok(b) && a.task_id() == b.task_id(),
        flow_outcome(tasks, first) == WorkflowView::Continue,
    ensures
        starts(tasks, first),
        flow_outcome(
            tasks.insert(ClientMessageView::parsed(first)->Ok_0.task_id()),
            second,
        ) == WorkflowView::Terminate(
            WorkflowErrorView::ProtocolError(
                duplicate_text(ClientMessageView::parsed(second)->Ok_0.task_id()),
            ),
        ),
{
}

impl ContentProtocol {
    /// The tasks of the connection.
    pub closed spec fn tasks(&self) -> Map<TaskId, TaskContainer> {
        self.tasks_h@
    }

    /// The frames that wait to be written.
    pub closed spec fn outbound(&self) -> Seq<Option<Seq<u8>>> {
        self.sender@
    }

    /// The tasks whose workers are yet to be launched, oldest first.
    pub closed spec fn started(&self) -> Seq<TaskId> {
        self.started@
    }

    /// The client's number.
    pub closed spec fn spec_id(&self) -> usize {
        self.id
    }

    /// The content operations for the client `id`, with no task yet.
    pub fn new(sender: StreamSender, id: usize) -> (protocol: ContentProtocol)
        ensures
            protocol.tasks() == Map::<TaskId, TaskContainer>::empty(),
            protocol.outbound() == sender@,
            protocol.started() == Seq::<TaskId>::empty(),
            protocol.spec_id() == id,
    {
        ContentProtocol { id: id, sender: sender, tasks_h: HashMap::new(), started: Vec::new() }
    }

    /// The number of the client on this connection.
    pub fn id(&self) -> (id: usize)
        ensures
            id == self.spec_id(),
    {
        self.id
    }

    /// Gives up the protocol, and its tasks, for its queue of outbound frames.
    pub fn into_sender(self) -> (sender: StreamSender)
        ensures
            sender@ == self.outbound(),
    {
        self.sender
    }

    /// Takes out all that waits to be written, oldest first.
    pub fn take_outbound(&mut self) -> (messages: Vec<crate::connection::StreamMessage>)
        ensures
            final(self).outbound() == Seq::<Option<Seq<u8>>>::empty(),
            messages@.map_values(
                |m: crate::connection::StreamMessage| crate::connection::stream_message_view(m),
            ) == old(self).outbound(),
            final(self).tasks() == old(self).tasks(),
            final(self).started() == old(self).started(),
    {
        self.sender.take()
    }

    /// Takes out the tasks whose workers are to be launched, oldest first.
    pub fn take_started(&mut self) -> (started: Vec<TaskId>)
        ensures
            started@ == old(self).started(),
            final(self).started() == Seq::<TaskId>::empty(),
            final(self).tasks() == old(self).tasks(),
            final(self).outbound() == old(self).outbound(),
    {
        let mut started: Vec<TaskId> = Vec::new();
        core::mem::swap(&mut self.started, &mut started);
        started
    }

    /// A task, if it is there.
    pub fn task(&self, task_id: TaskId) -> (found: Option<&TaskContainer>)
        ensures
            self.tasks().contains_key(task_id) ==> found == Some(&self.tasks()[task_id]),
            !self.tasks().contains_key(task_id) ==> found is None,
    {
        self.tasks_h.get(&task_id)
    }

    /// Registers a task under a number that is not in use; its worker is then to be
    /// launched. A number in use is refused.
    pub fn start_task(&mut self, task_id: TaskId, action: ContentAction) -> (r: Result<(), String>)
        ensures
            final(self).outbound() == old(self).outbound(),
            old(self).tasks().contains_key(task_id) ==> ({
                &&& r matches Err(text) && text@ == duplicate_text(task_id)
                &&& final(self).tasks() == old(self).tasks()
                &&& final(self).started() == old(self).started()
            }),
            !old(self).tasks().contains_key(task_id) ==> ({
                &&& r is Ok
                &&& final(self).tasks() == old(self).tasks().insert(
                    task_id,
                    TaskContainer {
                        handle: TaskHandle { task_id: task_id, finished: false },
                        action: action,
                    },
                )
                &&& final(self).started() == old(self).started().push(task_id)
            }),
    {
        if self.tasks_h.contains_key(&task_id) {
            let number = decimal(task_id);
            return Err(join2("Duplicate task id ", number.as_str()));
        }
        let handle = TaskHandle::new(task_id);
        let container = TaskContainer::new(handle, action);
        self.tasks_h.insert(task_id, container);
        self.started.push(task_id);
        Ok(())
    }

    /// Forgets a task.
    pub fn finish_task(&mut self, task_id: TaskId) -> (r: Result<(), String>)
        ensures
            final(self).outbound() == old(self).outbound(),
            final(self).started() == old(self).started(),
            final(self).tasks() == old(self).tasks().remove(task_id),
            old(self).tasks().contains_key(task_id) ==> r is Ok,
            !old(self).tasks().contains_key(task_id) ==> (r matches Err(text) && text@
                == absent_text(task_id)),
    {
        match self.tasks_h.remove(&task_id) {
            Some(_) => Ok(()),
            None => {
                proof {
                    assert(self.tasks() =~= old(self).tasks().remove(task_id));
                }
                let number = decimal(task_id);
                Err(join2("Absent task id ", number.as_str()))
            },
        }
    }

    /// The worker of a question after the server has what it needs: the answer is queued
    /// and the task marked finished. Nothing happens for a task that is not there.
    pub fn report_info(&mut self, task_id: TaskId, pid: u32, os: (&str, &str, &str)) -> (r: Result<
        (),
        String,
    >)
        ensures
            final(self).started() == old(self).started(),
            final(self).tasks().dom() == old(self).tasks().dom(),
            !old(self).tasks().contains_key(task_id) ==> ({
                &&& r matches Err(text) && text@ == absent_text(task_id)
                &&& final(self).tasks() == old(self).tasks()
                &&& final(self).outbound() == old(self).outbound()
            }),
            old(self).tasks().contains_key(task_id) ==> ({
                let before = old(self).tasks()[task_id];
                let after = final(self).tasks()[task_id];
                &&& r is Ok
                &&& final(self).tasks() == old(self).tasks().insert(task_id, after)
                &&& after.handle.finished
                &&& after.handle.task_id == before.handle.task_id
                &&& after.action == before.action
                &&& final(self).outbound() == queue_after(
                    old(self).outbound(),
                    info_message(before.handle.task_id, pid, (os.0@, os.1@, os.2@)).raw(),
                )
            }),
    {
        match self.tasks_h.remove(&task_id) {
            None => {
                proof {
                    assert(self.tasks() =~= old(self).tasks());
                }
                let number = decimal(task_id);
                Err(join2("Absent task id ", number.as_str()))
            },
            Some(container) => {
                let mut container = container;
                get_info(&mut container, &mut self.sender, pid, os);
                self.tasks_h.insert(task_id, container);
                proof {
                    assert(self.tasks().dom() =~= old(self).tasks().dom());
                    assert(self.tasks() =~= old(self).tasks().insert(
                        task_id,
                        self.tasks()[task_id],
                    ));
                }
                Ok(())
            },
        }
    }

    /// The worker of a copy has ended: the report is queued and the task marked
    /// finished. Nothing happens for a task that is not there.
    pub fn report_copy(&mut self, task_id: TaskId, result: Result<ContentId, String>) -> (r: Result<
        (),
        String,
    >)
        ensures
            final(self).started() == old(self).started(),
            final(self).tasks().dom() == old(self).tasks().dom(),
            !old(self).tasks().contains_key(task_id) ==> ({
                &&& r matches Err(text) && text@ == absent_text(task_id)
                &&& final(self).tasks() == old(self).tasks()
                &&& final(self).outbound() == old(self).outbound()
            }),
            old(self).tasks().contains_key(task_id) ==> ({
                let before = old(self).tasks()[task_id];
                let after = final(self).tasks()[task_id];
                &&& r is Ok
                &&& final(self).tasks() == old(self).tasks().insert(task_id, after)
                &&& after.handle.finished
                &&& after.handle.task_id == before.handle.task_id
                &&& after.action == before.action
                &&& final(self).outbound() == queue_after(
                    old(self).outbound(),
                    copy_reply(before.handle.task_id, copy_result_view(result)).raw(),
                )
            }),
    {
        match self.tasks_h.remove(&task_id) {
            None => {
                proof {
                    assert(self.tasks() =~= old(self).tasks());
                }
                let number = decimal(task_id);
                Err(join2("Absent task id ", number.as_str()))
            },
            Some(container) => {
                let mut container = container;
                copy_from(&mut container, &mut self.sender, result);
                self.tasks_h.insert(task_id, container);
                proof {
                    assert(self.tasks().dom() =~= old(self).tasks().dom());
                    assert(self.tasks() =~= old(self).tasks().insert(
                        task_id,
                        self.tasks()[task_id],
                    ));
                }
                Ok(())
            },
        }
    }
}

impl Protocol for ContentProtocol {
    /// Takes one request of the client: registers the task that it asks for, to have its
    /// worker launched. A request under a number in use ends the connection.
    fn flow(&mut self, raw_message: RawMessage) -> (w: Workflow)
        ensures
            w@ == flow_outcome(old(self).tasks().dom(), raw_message@),
            final(self).outbound() == old(self).outbound(),
            !starts(old(self).tasks().dom(), raw_message@) ==> ({
                &&& final(self).tasks() == old(self).tasks()
                &&& final(self).started() == old(self).started()
            }),
            starts(old(self).tasks().dom(), raw_message@) ==> ({
                let m = ClientMessageView::parsed(raw_message@)->Ok_0;
                &&& final(self).tasks().dom() == old(self).tasks().dom().insert(m.task_id())
                &&& final(self).tasks()[m.task_id()].handle == (TaskHandle {
                    task_id: m.task_id(),
                    finished: false,
                })
                &&& final(self).tasks()[m.task_id()].action@ == action_of(m)
                &&& final(self).started() == old(self).started().push(m.task_id())
                &&& forall|id: TaskId|
                    old(self).tasks().contains_key(id) ==> #[trigger] final(self).tasks()[id]
                        == old(self).tasks()[id]
            }),
    {
        match ClientMessage::parse(raw_message) {
            Err(err) => Workflow::Terminate(WorkflowError::Exception(err.debug_string())),
            Ok(v) => {
                let (task_id, action) = match v {
                    ClientMessage::GetInfo(m) => (m.task_id, ContentAction::GetInfo),
                    ClientMessage::CopyFrom(m) => (
                        m.task_id,
                        ContentAction::CopyFrom(CopyFrom { uri: m.uri }),
                    ),
                };
                match self.start_task(task_id, action) {
                    Ok(_) => Workflow::Continue,
                    Err(err) => Workflow::Terminate(WorkflowError::ProtocolError(err)),
                }
            },
        }
    }
}

} // verus!
