//! What the server's workers do for each kind of task, once the outside work is done.

use vstd::prelude::*;
use vstd::string::*;

use crate::connection::{queue_after, StreamSender};
use crate::proto::content::message::{
    SCopyFrom, SCopyFromState, SCopyFromStateView, SCopyFromView, SError, SErrorView, SInfo,
    SInfoView, ServerMessageView,
};
use crate::proto::content::server::send_message;
use crate::proto::content::task::TaskHandle;
use crate::types::{ContentId, TaskId};

verus! {

/// What a task is to do.
#[derive(Debug, PartialEq)]
pub enum ContentAction {
    GetInfo,
    CopyFrom(CopyFrom),
}

/// To report what the server is.
#[derive(Debug, PartialEq)]
pub struct GetInfo;

/// To take the file at `uri` into the store.
#[derive(Debug, PartialEq)]
pub struct CopyFrom {
    pub uri: String,
}

/// `ContentAction` as contracts see it.
pub enum ContentActionView {
    GetInfo,
    CopyFrom(Seq<char>),
}

impl View for ContentAction {
    type V = ContentActionView;

    open spec fn view(&self) -> ContentActionView {
        match *self {
            ContentAction::GetInfo => ContentActionView::GetInfo,
            ContentAction::CopyFrom(a) => ContentActionView::CopyFrom(a.uri@),
        }
    }
}

/// A task on the server: its handle and what it is to do.
#[derive(Debug, PartialEq)]
pub struct TaskContainer {
    pub handle: TaskHandle,
    pub action: ContentAction,
}

impl TaskContainer {
    /// A task of a handle and what it is to do.
    pub fn new(handle: TaskHandle, action: ContentAction) -> (task: Self)
        ensures
            task.handle == handle,
            task.action == action,
    {
        TaskContainer { handle: handle, action: action }
    }
}

/// The width of the machine's word in bits.
pub fn arch_bits() -> (bits: u16)
    ensures
        bits == usize::BITS,
        bits == 32 || bits == 64,
{
    if usize::BITS == 32 {
        32
    } else {
        64
    }
}

/// The description of the server that answers a task: its process, the width of its
/// word, and the three names of its operating system with a space between them.
pub open spec fn info_message(
    task_id: TaskId,
    pid: u32,
    os: (Seq<char>, Seq<char>, Seq<char>),
) -> ServerMessageView {
    ServerMessageView::Info(
        SInfoView {
            task_id: task_id,
            pid: pid,
            arch_bits: usize::BITS as u16,
            os: os.0 + " "@ + os.1 + " "@ + os.2,
        },
    )
}

/// The worker of a question after the server: sends the one answer and marks the task
/// finished. An answer that is too long for a frame is not sent.
pub fn get_info(
    task: &mut TaskContainer,
    sender: &mut StreamSender,
    pid: u32,
    os: (&str, &str, &str),
)
    ensures
        final(task).handle.task_id == old(task).handle.task_id,
        final(task).handle.finished,
        final(task).action == old(task).action,
        final(sender)@ == queue_after(
            old(sender)@,
            info_message(old(task).handle.task_id, pid, (os.0@, os.1@, os.2@)).raw(),
        ),
{
    let mut text = os.0.to_owned();
    text.append(" ");
    text.append(os.1);
    text.append(" ");
    text.append(os.2);
    proof {
        assert(text@ =~= os.0@ + " "@ + os.1@ + " "@ + os.2@);
    }
    let info = SInfo::create(task.handle.task_id, pid, arch_bits(), text);
    let _ = send_message(sender, info);
    task.handle.finished = true;
}

/// What the server reports when a copy has ended: the identifier of the stored file, or
/// the text of the failure.
pub open spec fn copy_reply(
    task_id: TaskId,
    result: Result<Seq<u8>, Seq<char>>,
) -> ServerMessageView {
    match result {
        Ok(id) => ServerMessageView::CopyFrom(
            SCopyFromView { task_id: task_id, state: SCopyFromStateView::Complete(id) },
        ),
        Err(text) => ServerMessageView::Error(SErrorView { task_id: task_id, message: text }),
    }
}

/// The outcome of a copy as contracts see it.
pub open spec fn copy_result_view(result: Result<ContentId, String>) -> Result<
    Seq<u8>,
    Seq<char>,
> {
    match result {
        Ok(id) => Ok(id@),
        Err(text) => Err(text@),
    }
}

/// The worker of a copy, once the file is stored or the attempt has failed: sends the
/// report and marks the task finished. A failure is reported for the task alone.
pub fn copy_from(
    task: &mut TaskContainer,
    sender: &mut StreamSender,
    result: Result<ContentId, String>,
)
    ensures
        final(task).handle.task_id == old(task).handle.task_id,
        final(task).handle.finished,
        final(task).action == old(task).action,
        final(sender)@ == queue_after(
            old(sender)@,
            copy_reply(old(task).handle.task_id, copy_result_view(result)).raw(),
        ),
{
    match result {
        Ok(id) => {
            let state = SCopyFromState::Complete(id);
            let _ = send_message(sender, SCopyFrom::create(task.handle.task_id, state));
        },
        Err(text) => {
            let _ = send_message(sender, SError::create(task.handle.task_id, text));
        },
    }
    task.handle.finished = true;
}

} // verus!
