//! What both sides keep for each task.

use vstd::prelude::*;

use crate::client::connection::Connection;
use crate::proto::content::message::ServerMessage;
use crate::types::TaskId;

verus! {

/// What the server keeps for a task: its number, and whether its worker is done.
#[derive(Debug, PartialEq)]
pub struct TaskHandle {
    pub task_id: TaskId,
    pub finished: bool,
}

/// Where a task stands for the client that waits for it.
#[derive(Debug, Clone, Copy, PartialEq, Eq, Structural)]
pub enum SimpleState {
    Waiting,
    Error,
    Ready,
}

/// What the client keeps for a task: its number, where it stands, and what has come in
/// for it.
#[derive(Debug, PartialEq)]
pub struct StateHandle<S: State> {
    pub task_id: TaskId,
    pub state: SimpleState,
    pub task: S,
}

/// A kind of task as the client sees it: how it is asked for, and what it makes of the
/// server's messages.
pub trait State {
    /// Sends the request that starts the task.
    fn start(&mut self, task_id: TaskId, connection: &mut Connection);

    /// Takes a message that the server sent for the task, and moves `state` on.
    fn handle_message(&mut self, state: &mut SimpleState, server_message: ServerMessage) -> Result<
        (),
        String,
    >;
}

impl TaskHandle {
    /// The handle of a task whose worker has not finished.
    pub fn new(task_id: TaskId) -> (handle: Self)
        ensures
            handle.task_id == task_id,
            !handle.finished,
    {
        TaskHandle { task_id: task_id, finished: false }
    }
}

impl<S: State> StateHandle<S> {
    /// The record of a task that waits.
    pub fn new(task_id: TaskId, task: S) -> (handle: StateHandle<S>)
        ensures
            handle.task_id == task_id,
            handle.state == SimpleState::Waiting,
            handle.task == task,
    {
        StateHandle { task_id: task_id, state: SimpleState::Waiting, task: task }
    }
}

impl SimpleState {
    /// Whether the task still waits for the server.
    pub fn is_waiting(&self) -> (b: bool)
        ensures
            b == (*self == SimpleState::Waiting),
    {
        match *self {
            SimpleState::Waiting => true,
            _ => false,
        }
    }

    /// Whether the task got a message that it could not take.
    pub fn is_error(&self) -> (b: bool)
        ensures
            b == (*self == SimpleState::Error),
    {
        match *self {
            SimpleState::Error => true,
            _ => false,
        }
    }

    /// Whether the task has its result.
    pub fn is_ready(&self) -> (b: bool)
        ensures
            b == (*self == SimpleState::Ready),
    {
        match *self {
            SimpleState::Ready => true,
            _ => false,
        }
    }
}

} // verus!
