//! The kinds of task as the client sees them, and what each collects.

use vstd::prelude::*;
use vstd::string::*;

use crate::client::connection::Connection;
use crate::connection::queue_after;
use crate::proto::content::message::{
    CCopyFrom, CCopyFromView, CGetInfo, CGetInfoView, ClientMessageView, SCopyFrom, SCopyFromView,
    SInfo, SInfoView, ServerMessage, ServerMessageView,
};
use crate::proto::content::task::{SimpleState, State};
use crate::protocol::text::{quoted, quoted_text};
use crate::types::TaskId;

verus! {

/// A task of either kind.
#[derive(Debug, PartialEq)]
pub enum ContentState {
    GetInfo(GetInfo),
    CopyFrom(CopyFrom),
}

/// A question after the server, and the answer once it has come.
#[derive(Debug, PartialEq)]
pub struct GetInfo {
    pub response: Option<SInfo>,
}

/// A copy of the file at `uri`, and the last report on it.
#[derive(Debug, PartialEq)]
pub struct CopyFrom {
    pub uri: String,
    pub result: Option<SCopyFrom>,
}

/// `GetInfo` as contracts see it.
pub struct GetInfoView {
    pub response: Option<SInfoView>,
}

/// `CopyFrom` as contracts see it.
pub struct CopyFromView {
    pub uri: Seq<char>,
    pub result: Option<SCopyFromView>,
}

/// `ContentState` as contracts see it.
pub enum ContentStateView {
    GetInfo(GetInfoView),
    CopyFrom(CopyFromView),
}

impl View for GetInfo {
    type V = GetInfoView;

    open spec fn view(&self) -> GetInfoView {
        GetInfoView {
            response: match self.response {
                Some(info) => Some(info@),
                None => None,
            },
        }
    }
}

impl View for CopyFrom {
    type V = CopyFromView;

    open spec fn view(&self) -> CopyFromView {
        CopyFromView {
            uri: self.uri@,
            result: match self.result {
                Some(copy) => Some(copy@),
                None => None,
            },
        }
    }
}

impl View for ContentState {
    type V = ContentStateView;

    open spec fn view(&self) -> ContentStateView {
        match *self {
            ContentState::GetInfo(s) => ContentStateView::GetInfo(s@),
            ContentState::CopyFrom(s) => ContentStateView::CopyFrom(s@),
        }
    }
}

/// What a task has become once a message was handled: what it holds, where it stands,
/// and the complaint, if the message was not for a task of its kind.
pub struct Handled<T> {
    pub task: T,
    pub state: SimpleState,
    pub result: Result<(), Seq<char>>,
}

/// The complaint about a message that a task of another kind got.
pub open spec fn unexpected(message: ServerMessageView, task: Seq<char>) -> Seq<char> {
    "Unexpected message "@ + message.debug_text() + " for task "@ + task
}

impl GetInfoView {
    /// The task as debugging output shows it.
    pub open spec fn debug_text(self) -> Seq<char> {
        "GetInfo { response: "@ + match self.response {
            None => "None"@,
            Some(info) => "Some("@ + info.debug_text() + ")"@,
        } + " }"@
    }

    /// The answer makes the task ready; any other message is an error.
    pub open spec fn handled(self, state: SimpleState, message: ServerMessageView) -> Handled<
        GetInfoView,
    > {
        match message {
            ServerMessageView::Info(info) => Handled {
                task: GetInfoView { response: Some(info) },
                state: SimpleState::Ready,
                result: Ok(()),
            },
            _ => Handled {
                task: self,
                state: SimpleState::Error,
                result: Err(unexpected(message, self.debug_text())),
            },
        }
    }
}

impl CopyFromView {
    /// The task as debugging output shows it.
    pub open spec fn debug_text(self) -> Seq<char> {
        "CopyFrom { uri: "@ + quoted_text(self.uri) + ", result: "@ + match self.result {
            None => "None"@,
            Some(copy) => "Some("@ + copy.debug_text() + ")"@,
        } + " }"@
    }

    /// A report is kept; the one that says the copy is complete makes the task ready, a
    /// report of progress leaves it where it stands. Any other message is an error.
    pub open spec fn handled(self, state: SimpleState, message: ServerMessageView) -> Handled<
        CopyFromView,
    > {
        match message {
            ServerMessageView::CopyFrom(copy) => Handled {
                task: CopyFromView { uri: self.uri, result: Some(copy) },
                state: if copy.state is Complete {
                    SimpleState::Ready
                } else {
                    state
                },
                result: Ok(()),
            },
            _ => Handled {
                task: self,
                state: SimpleState::Error,
                result: Err(unexpected(message, self.debug_text())),
            },
        }
    }
}

impl ContentStateView {
    /// The request that starts the task under a number.
    pub open spec fn request(self, task_id: TaskId) -> ClientMessageView {
        match self {
            ContentStateView::GetInfo(_) => ClientMessageView::GetInfo(
                CGetInfoView { task_id: task_id },
            ),
            ContentStateView::CopyFrom(s) => ClientMessageView::CopyFrom(
                CCopyFromView { task_id: task_id, uri: s.uri },
            ),
        }
    }

    /// What the task becomes by a message, by its kind.
    pub open spec fn handled(self, state: SimpleState, message: ServerMessageView) -> Handled<
        ContentStateView,
    > {
        match self {
            ContentStateView::GetInfo(s) => {
                let h = s.handled(state, message);
                Handled {
                    task: ContentStateView::GetInfo(h.task),
                    state: h.state,
                    result: h.result,
                }
            },
            ContentStateView::CopyFrom(s) => {
                let h = s.handled(state, message);
                Handled {
                    task: ContentStateView::CopyFrom(h.task),
                    state: h.state,
                    result: h.result,
                }
            },
        }
    }
}

/// The text of the complaint, where there is one.
pub open spec fn complaint(r: Result<(), String>) -> Result<(), Seq<char>> {
    match r {
        Ok(_) => Ok(()),
        Err(text) => Err(text@),
    }
}

impl ContentState {
    /// Queues the request that starts the task.
    pub fn start(&mut self, task_id: TaskId, connection: &mut Connection)
        ensures
            final(self)@ == old(self)@,
            final(connection)@ == queue_after(old(connection)@, old(self)@.request(task_id).raw()),
    {
        match self {
            ContentState::GetInfo(s) => s.start(task_id, connection),
            ContentState::CopyFrom(s) => s.start(task_id, connection),
        }
    }

    /// Takes a message that the server sent for the task, and moves `state` on.
    pub fn handle_message(&mut self, state: &mut SimpleState, message: ServerMessage) -> (r:
        Result<(), String>)
        ensures
            (Handled { task: final(self)@, state: *final(state), result: complaint(r) })
                == old(self)@.handled(*old(state), message@),
    {
        match self {
            ContentState::GetInfo(s) => s.handle_message(state, message),
            ContentState::CopyFrom(s) => s.handle_message(state, message),
        }
    }
}

impl State for ContentState {
    fn start(&mut self, task_id: TaskId, connection: &mut Connection)
        ensures
            final(self)@ == old(self)@,
            final(connection)@ == queue_after(old(connection)@, old(self)@.request(task_id).raw()),
    {
        ContentState::start(self, task_id, connection)
    }

    fn handle_message(&mut self, state: &mut SimpleState, server_message: ServerMessage) -> (r:
        Result<(), String>)
        ensures
            (Handled { task: final(self)@, state: *final(state), result: complaint(r) })
                == old(self)@.handled(*old(state), server_message@),
    {
        ContentState::handle_message(self, state, server_message)
    }
}

impl GetInfo {
    /// The message with these fields.
    pub fn create() -> (s: ContentState)
        ensures
            s@ == ContentStateView::GetInfo(GetInfoView { response: None }),
    {
        ContentState::GetInfo(GetInfo { response: None })
    }

    /// The value as debugging output shows it.
    pub fn debug_string(&self) -> (text: String)
        ensures
            text@ == self@.debug_text(),
    {
        let mut text = "GetInfo { response: ".to_owned();
        match &self.response {
            None => {
                text.append("None");
            },
            Some(info) => {
                let inner = info.debug_string();
                text.append("Some(");
                text.append(inner.as_str());
                text.append(")");
            },
        }
        text.append(" }");
        proof {
            assert(text@ =~= self@.debug_text());
        }
        text
    }

    /// Queues the request that starts the task.
    pub fn start(&mut self, task_id: TaskId, connection: &mut Connection)
        ensures
            final(self)@ == old(self)@,
            final(connection)@ == queue_after(
                old(connection)@,
                ClientMessageView::GetInfo(CGetInfoView { task_id: task_id }).raw(),
            ),
    {
        let _ = connection.send_raw(CGetInfo::create(task_id).encode());
    }

    /// Takes a message that the server sent for the task, and moves `state` on.
    pub fn handle_message(&mut self, state: &mut SimpleState, server_message: ServerMessage) -> (r:
        Result<(), String>)
        ensures
            (Handled { task: final(self)@, state: *final(state), result: complaint(r) })
                == old(self)@.handled(*old(state), server_message@),
    {
        match server_message {
            ServerMessage::Info(info) => {
                self.response = Some(info);
                *state = SimpleState::Ready;
                Ok(())
            },
            _ => {
                *state = SimpleState::Error;
                let message = server_message.debug_string();
                let task = self.debug_string();
                let mut text = "Unexpected message ".to_owned();
                text.append(message.as_str());
                text.append(" for task ");
                text.append(task.as_str());
                proof {
                    assert(text@ =~= unexpected(server_message@, self@.debug_text()));
                }
                Err(text)
            },
        }
    }
}

impl State for GetInfo {
    fn start(&mut self, task_id: TaskId, connection: &mut Connection)
        ensures
            final(self)@ == old(self)@,
            final(connection)@ == queue_after(
                old(connection)@,
                ClientMessageView::GetInfo(CGetInfoView { task_id: task_id }).raw(),
            ),
    {
        GetInfo::start(self, task_id, connection)
    }

    fn handle_message(&mut self, state: &mut SimpleState, server_message: ServerMessage) -> (r:
        Result<(), String>)
        ensures
            (Handled { task: final(self)@, state: *final(state), result: complaint(r) })
                == old(self)@.handled(*old(state), server_message@),
    {
        GetInfo::handle_message(self, state, server_message)
    }
}

impl CopyFrom {
    /// The message with these fields.
    pub fn create(uri: String) -> (s: ContentState)
        ensures
            s@ == ContentStateView::CopyFrom(CopyFromView { uri: uri@, result: None }),
    {
        ContentState::CopyFrom(CopyFrom { uri: uri, result: None })
    }

    /// The value as debugging output shows it.
    pub fn debug_string(&self) -> (text: String)
        ensures
            text@ == self@.debug_text(),
    {
        let uri = quoted(self.uri.as_str());
        let mut text = "CopyFrom { uri: ".to_owned();
        text.append(uri.as_str());
        text.append(", result: ");
        match &self.result {
            None => {
                text.append("None");
            },
            Some(copy) => {
                let inner = copy.debug_string();
                text.append("Some(");
                text.append(inner.as_str());
                text.append(")");
            },
        }
        text.append(" }");
        proof {
            assert(text@ =~= self@.debug_text());
        }
        text
    }

    /// Queues the request that starts the task.
    pub fn start(&mut self, task_id: TaskId, connection: &mut Connection)
        ensures
            final(self)@ == old(self)@,
            final(connection)@ == queue_after(
                old(connection)@,
                ClientMessageView::CopyFrom(
                    CCopyFromView { task_id: task_id, uri: old(self)@.uri },
                ).raw(),
            ),
    {
        let _ = connection.send_raw(CCopyFrom::create(task_id, self.uri.clone()).encode());
    }

    /// Takes a message that the server sent for the task, and moves `state` on.
    pub fn handle_message(&mut self, state: &mut SimpleState, server_message: ServerMessage) -> (r:
        Result<(), String>)
        ensures
            (Handled { task: final(self)@, state: *final(state), result: complaint(r) })
                == old(self)@.handled(*old(state), server_message@),
    {
        match server_message {
            ServerMessage::CopyFrom(copy_from) => {
                let complete: bool = match &copy_from.state {
                    crate::proto::content::message::SCopyFromState::Complete(_) => true,
                    crate::proto::content::message::SCopyFromState::Progress(_) => false,
                };
                self.result = Some(copy_from);
                if complete {
                    *state = SimpleState::Ready;
                }
                Ok(())
            },
            _ => {
                *state = SimpleState::Error;
                let message = server_message.debug_string();
                let task = self.debug_string();
                let mut text = "Unexpected message ".to_owned();
                text.append(message.as_str());
                text.append(" for task ");
                text.append(task.as_str());
                proof {
                    assert(text@ =~= unexpected(server_message@, self@.debug_text()));
                }
                Err(text)
            },
        }
    }
}

impl State for CopyFrom {
    fn start(&mut self, task_id: TaskId, connection: &mut Connection)
        ensures
            final(self)@ == old(self)@,
            final(connection)@ == queue_after(
                old(connection)@,
                ClientMessageView::CopyFrom(
                    CCopyFromView { task_id: task_id, uri: old(self)@.uri },
                ).raw(),
            ),
    {
        CopyFrom::start(self, task_id, connection)
    }

    fn handle_message(&mut self, state: &mut SimpleState, server_message: ServerMessage) -> (r:
        Result<(), String>)
        ensures
            (Handled { task: final(self)@, state: *final(state), result: complaint(r) })
                == old(self)@.handled(*old(state), server_message@),
    {
        CopyFrom::handle_message(self, state, server_message)
    }
}

} // verus!
