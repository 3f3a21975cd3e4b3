//! The messages of the content operations.

use vstd::prelude::*;
use vstd::string::*;
use vstd::utf8::*;

use crate::proto::auth::message::text_encodable;
use crate::protocol::message::{RawMessage, RawMessageBody, RawMessageBodyView, RawMessageView};
use crate::protocol::serde::{
    be_bytes, int_at, lemma_be_bytes_len, lemma_be_bytes_of_value, lemma_be_limits, lemma_int_at,
    lemma_str_at, str_at, str_wire, Encode, Encoder, Parse, Parser, ParserError,
};
use crate::protocol::text::{decimal, decimal_text, hex_text, join3, quoted, quoted_text};
use crate::types::{content_id_at, ContentId, TaskId};

verus! {

/// Why a raw message is no message of the content operations.
#[derive(Debug, PartialEq)]
pub enum ParseError {
    /// Message with unknown code.
    UnknownCode,
    ParseError(String),
    BadProtocol,
}

/// `ParseError` as contracts see it.
pub enum ParseErrorView {
    UnknownCode,
    ParseError(Seq<char>),
    BadProtocol,
}

impl View for ParseError {
    type V = ParseErrorView;

    open spec fn view(&self) -> ParseErrorView {
        match *self {
            ParseError::UnknownCode => ParseErrorView::UnknownCode,
            ParseError::ParseError(s) => ParseErrorView::ParseError(s@),
            ParseError::BadProtocol => ParseErrorView::BadProtocol,
        }
    }
}

impl ParseErrorView {
    /// The error that stands for a failed read of a field.
    pub open spec fn of(err: ParserError) -> ParseErrorView {
        ParseErrorView::ParseError(err.debug_text())
    }

    /// The error as debugging output names it.
    pub open spec fn debug_text(self) -> Seq<char> {
        match self {
            ParseErrorView::UnknownCode => "UnknownCode"@,
            ParseErrorView::ParseError(s) => "ParseError("@ + quoted_text(s) + ")"@,
            ParseErrorView::BadProtocol => "BadProtocol"@,
        }
    }
}

impl ParseError {
    /// The error that stands for a failed read of a field: it carries the failure's name.
    pub fn of(err: ParserError) -> (e: ParseError)
        ensures
            e@ == ParseErrorView::of(err),
    {
        ParseError::ParseError(err.debug_string())
    }

    /// The value as debugging output shows it.
    pub fn debug_string(&self) -> (text: String)
        ensures
            text@ == self@.debug_text(),
    {
        match self {
            ParseError::UnknownCode => "UnknownCode".to_owned(),
            ParseError::ParseError(s) => {
                let inner = quoted(s.as_str());
                join3("ParseError(", inner.as_str(), ")")
            },
            ParseError::BadProtocol => "BadProtocol".to_owned(),
        }
    }
}

/// What the client sends.
#[derive(Debug, PartialEq)]
pub enum ClientMessage {
    GetInfo(CGetInfo),
    CopyFrom(CCopyFrom),
}

/// What the server sends.
#[derive(Debug, PartialEq)]
pub enum ServerMessage {
    Info(SInfo),
    CopyFrom(SCopyFrom),
    Reject(SReject),
    Error(SError),
}

/// The code of a question after the server.
pub const MC_GET_INFO: u8 = 1;

/// The code of a request to copy.
pub const MC_COPY_FROM: u8 = 2;

/// Asks what the server is.
#[derive(Debug, PartialEq)]
pub struct CGetInfo {
    pub task_id: TaskId,
}

/// Asks the server to take the file at a local path into the store.
#[derive(Debug, PartialEq)]
pub struct CCopyFrom {
    pub task_id: TaskId,
    pub uri: String,
}

/// The code of a description of the server.
pub const MS_INFO: u8 = 1;

/// The code of a report on a copy.
pub const MS_COPY_FROM: u8 = 2;

/// The code of a refusal.
pub const MS_REJECT: u8 = 254;

/// The code of an error.
pub const MS_ERROR: u8 = 255;

/// What the server is: its process, its word size, its operating system.
#[derive(Debug, PartialEq)]
pub struct SInfo {
    pub task_id: TaskId,
    pub pid: u32,
    pub arch_bits: u16,
    pub os: String,
}

/// How far a copy has come.
#[derive(Debug, PartialEq)]
pub enum SCopyFromState {
    Progress(u8),
    Complete(ContentId),
}

/// The state of a copy.
#[derive(Debug, PartialEq)]
pub struct SCopyFrom {
    pub task_id: TaskId,
    pub state: SCopyFromState,
}

/// The server refuses a task.
#[derive(Debug, PartialEq)]
pub struct SReject {
    pub task_id: TaskId,
    pub reason: String,
}

/// A task failed.
#[derive(Debug, PartialEq)]
pub struct SError {
    pub task_id: TaskId,
    pub message: String,
}

/// `CGetInfo` as contracts see it.
pub struct CGetInfoView {
    pub task_id: TaskId,
}

/// `CCopyFrom` as contracts see it.
pub struct CCopyFromView {
    pub task_id: TaskId,
    pub uri: Seq<char>,
}

/// `SInfo` as contracts see it.
pub struct SInfoView {
    pub task_id: TaskId,
    pub pid: u32,
    pub arch_bits: u16,
    pub os: Seq<char>,
}

/// `SCopyFromState` as contracts see it.
pub enum SCopyFromStateView {
    Progress(u8),
    Complete(Seq<u8>),
}

/// `SCopyFrom` as contracts see it.
pub struct SCopyFromView {
    pub task_id: TaskId,
    pub state: SCopyFromStateView,
}

/// `SReject` as contracts see it.
pub struct SRejectView {
    pub task_id: TaskId,
    pub reason: Seq<char>,
}

/// `SError` as contracts see it.
pub struct SErrorView {
    pub task_id: TaskId,
    pub message: Seq<char>,
}

/// `ClientMessage` as contracts see it.
pub enum ClientMessageView {
    GetInfo(CGetInfoView),
    CopyFrom(CCopyFromView),
}

/// `ServerMessage` as contracts see it.
pub enum ServerMessageView {
    Info(SInfoView),
    CopyFrom(SCopyFromView),
    Reject(SRejectView),
    Error(SErrorView),
}

impl View for CGetInfo {
    type V = CGetInfoView;

    open spec fn view(&self) -> CGetInfoView {
        CGetInfoView { task_id: self.task_id }
    }
}

impl View for CCopyFrom {
    type V = CCopyFromView;

    open spec fn view(&self) -> CCopyFromView {
        CCopyFromView { task_id: self.task_id, uri: self.uri@ }
    }
}

impl View for SInfo {
    type V = SInfoView;

    open spec fn view(&self) -> SInfoView {
        SInfoView { task_id: self.task_id, pid: self.pid, arch_bits: self.arch_bits, os: self.os@ }
    }
}

impl View for SCopyFromState {
    type V = SCopyFromStateView;

    open spec fn view(&self) -> SCopyFromStateView {
        match *self {
            SCopyFromState::Progress(p) => SCopyFromStateView::Progress(p),
            SCopyFromState::Complete(id) => SCopyFromStateView::Complete(id@),
        }
    }
}

impl View for SCopyFrom {
    type V = SCopyFromView;

    open spec fn view(&self) -> SCopyFromView {
        SCopyFromView { task_id: self.task_id, state: self.state@ }
    }
}

impl View for SReject {
    type V = SRejectView;

    open spec fn view(&self) -> SRejectView {
        SRejectView { task_id: self.task_id, reason: self.reason@ }
    }
}

impl View for SError {
    type V = SErrorView;

    open spec fn view(&self) -> SErrorView {
        SErrorView { task_id: self.task_id, message: self.message@ }
    }
}

impl View for ClientMessage {
    type V = ClientMessageView;

    open spec fn view(&self) -> ClientMessageView {
        match *self {
            ClientMessage::GetInfo(m) => ClientMessageView::GetInfo(m@),
            ClientMessage::CopyFrom(m) => ClientMessageView::CopyFrom(m@),
        }
    }
}

impl View for ServerMessage {
    type V = ServerMessageView;

    open spec fn view(&self) -> ServerMessageView {
        match *self {
            ServerMessage::Info(m) => ServerMessageView::Info(m@),
            ServerMessage::CopyFrom(m) => ServerMessageView::CopyFrom(m@),
            ServerMessage::Reject(m) => ServerMessageView::Reject(m@),
            ServerMessage::Error(m) => ServerMessageView::Error(m@),
        }
    }
}

/// A body that is a task's number and nothing else.
pub open spec fn parsed_task_body(body: Seq<u8>) -> Result<TaskId, ParserError> {
    match u64::parsed(body, 0) {
        Err(e) => Err(e),
        Ok((task_id, end)) => if end == body.len() {
            Ok(task_id)
        } else {
            Err(ParserError::Incomplete)
        },
    }
}

/// A body that is a task's number, one string and nothing else.
pub open spec fn parsed_task_text_body(body: Seq<u8>) -> Result<(TaskId, Seq<char>), ParserError> {
    match u64::parsed(body, 0) {
        Err(e) => Err(e),
        Ok((task_id, at1)) => match str_at(body, at1) {
            Err(e) => Err(e),
            Ok((text, end)) => if end == body.len() {
                Ok((task_id, text))
            } else {
                Err(ParserError::Incomplete)
            },
        },
    }
}

/// The wire form of a task's number and one string.
pub open spec fn task_text_wire(task_id: TaskId, text: Seq<char>) -> Seq<u8> {
    be_bytes(task_id as nat, 8) + str_wire(text)
}

impl CGetInfoView {
    /// The body on the wire: the fields in their order.
    pub open spec fn wire(self) -> Seq<u8> {
        be_bytes(self.task_id as nat, 8)
    }

    /// What a body is read as: the fields in their order, and nothing behind them.
    pub open spec fn parsed(body: Seq<u8>) -> Result<CGetInfoView, ParserError> {
        match parsed_task_body(body) {
            Err(e) => Err(e),
            Ok(task_id) => Ok(CGetInfoView { task_id: task_id }),
        }
    }
}

impl CCopyFromView {
    /// The body on the wire: the fields in their order.
    pub open spec fn wire(self) -> Seq<u8> {
        task_text_wire(self.task_id, self.uri)
    }

    /// Whether the message comes back from the wire as it was: its texts must be short
    /// enough for a length prefix.
    pub open spec fn encodable(self) -> bool {
        text_encodable(self.uri)
    }

    /// What a body is read as: the fields in their order, and nothing behind them.
    pub open spec fn parsed(body: Seq<u8>) -> Result<CCopyFromView, ParserError> {
        match parsed_task_text_body(body) {
            Err(e) => Err(e),
            Ok((task_id, text)) => Ok(CCopyFromView { task_id: task_id, uri: text }),
        }
    }
}

impl SInfoView {
    /// The body on the wire: the fields in their order.
    pub open spec fn wire(self) -> Seq<u8> {
        be_bytes(self.task_id as nat, 8) + be_bytes(self.pid as nat, 4) + be_bytes(
            self.arch_bits as nat,
            2,
        ) + str_wire(self.os)
    }

    /// Whether the message comes back from the wire as it was: its texts must be short
    /// enough for a length prefix.
    pub open spec fn encodable(self) -> bool {
        text_encodable(self.os)
    }

    /// What a body is read as: the fields in their order, and nothing behind them.
    pub open spec fn parsed(body: Seq<u8>) -> Result<SInfoView, ParserError> {
        match u64::parsed(body, 0) {
            Err(e) => Err(e),
            Ok((task_id, at1)) => match u32::parsed(body, at1) {
                Err(e) => Err(e),
                Ok((pid, at2)) => match u16::parsed(body, at2) {
                    Err(e) => Err(e),
                    Ok((arch_bits, at3)) => match str_at(body, at3) {
                        Err(e) => Err(e),
                        Ok((os, end)) => if end == body.len() {
                            Ok(
                                SInfoView {
                                    task_id: task_id,
                                    pid: pid,
                                    arch_bits: arch_bits,
                                    os: os,
                                },
                            )
                        } else {
                            Err(ParserError::Incomplete)
                        },
                    },
                },
            },
        }
    }
}

/// What a read of a copy's state at `position` finds: a tag byte, then the identifier of
/// the stored file under tag 0 or the percentage under tag 1.
pub open spec fn state_at(data: Seq<u8>, position: nat) -> Result<
    (SCopyFromStateView, nat),
    ParserError,
> {
    match int_at(data, position, 1) {
        Err(e) => Err(e),
        Ok((tag, at1)) => if tag == 0 {
            match content_id_at(data, at1) {
                Err(e) => Err(e),
                Ok((id, end)) => Ok((SCopyFromStateView::Complete(id), end)),
            }
        } else if tag == 1 {
            match int_at(data, at1, 1) {
                Err(e) => Err(e),
                Ok((percent, end)) => Ok((SCopyFromStateView::Progress(percent as u8), end)),
            }
        } else {
            Err(ParserError::UnknownTag(tag as u8))
        },
    }
}

impl SCopyFromStateView {
    /// The body on the wire: the fields in their order.
    pub open spec fn wire(self) -> Seq<u8> {
        match self {
            SCopyFromStateView::Complete(id) => be_bytes(0, 1) + id,
            SCopyFromStateView::Progress(percent) => be_bytes(1, 1) + be_bytes(percent as nat, 1),
        }
    }

    /// An identifier has sixty-four bytes.
    pub open spec fn encodable(self) -> bool {
        match self {
            SCopyFromStateView::Complete(id) => id.len() == 64,
            SCopyFromStateView::Progress(_) => true,
        }
    }
}

impl SCopyFromView {
    /// The body on the wire: the fields in their order.
    pub open spec fn wire(self) -> Seq<u8> {
        be_bytes(self.task_id as nat, 8) + self.state.wire()
    }

    /// Whether the report comes back from the wire as it was: an identifier in it must
    /// have sixty-four bytes.
    pub open spec fn encodable(self) -> bool {
        self.state.encodable()
    }

    /// What a body is read as: the fields in their order, and nothing behind them.
    pub open spec fn parsed(body: Seq<u8>) -> Result<SCopyFromView, ParserError> {
        match u64::parsed(body, 0) {
            Err(e) => Err(e),
            Ok((task_id, at1)) => match state_at(body, at1) {
                Err(e) => Err(e),
                Ok((state, end)) => if end == body.len() {
                    Ok(SCopyFromView { task_id: task_id, state: state })
                } else {
                    Err(ParserError::Incomplete)
                },
            },
        }
    }
}

impl SRejectView {
    /// The body on the wire: the fields in their order.
    pub open spec fn wire(self) -> Seq<u8> {
        task_text_wire(self.task_id, self.reason)
    }

    /// Whether the message comes back from the wire as it was: its texts must be short
    /// enough for a length prefix.
    pub open spec fn encodable(self) -> bool {
        text_encodable(self.reason)
    }

    /// What a body is read as: the fields in their order, and nothing behind them.
    pub open spec fn parsed(body: Seq<u8>) -> Result<SRejectView, ParserError> {
        match parsed_task_text_body(body) {
            Err(e) => Err(e),
            Ok((task_id, text)) => Ok(SRejectView { task_id: task_id, reason: text }),
        }
    }
}

impl SErrorView {
    /// The body on the wire: the fields in their order.
    pub open spec fn wire(self) -> Seq<u8> {
        task_text_wire(self.task_id, self.message)
    }

    /// Whether the message comes back from the wire as it was: its texts must be short
    /// enough for a length prefix.
    pub open spec fn encodable(self) -> bool {
        text_encodable(self.message)
    }

    /// What a body is read as: the fields in their order, and nothing behind them.
    pub open spec fn parsed(body: Seq<u8>) -> Result<SErrorView, ParserError> {
        match parsed_task_text_body(body) {
            Err(e) => Err(e),
            Ok((task_id, text)) => Ok(SErrorView { task_id: task_id, message: text }),
        }
    }
}

/// What parsing a body yields: the message that `wrap` makes of the fields read, the error
/// of a failed read, or `BadProtocol` for a body that is not binary.
pub open spec fn parsed_body<F, M>(
    body: RawMessageBodyView,
    fields: spec_fn(Seq<u8>) -> Result<F, ParserError>,
    wrap: spec_fn(F) -> M,
) -> Result<M, ParseErrorView> {
    match body {
        RawMessageBodyView::Binary(bytes) => match fields(bytes) {
            Ok(found) => Ok(wrap(found)),
            Err(e) => Err(ParseErrorView::of(e)),
        },
        _ => Err(ParseErrorView::BadProtocol),
    }
}

impl ClientMessageView {
    /// Whether the message comes back from the wire as it was: its texts must be short
    /// enough for a length prefix.
    pub open spec fn encodable(self) -> bool {
        match self {
            ClientMessageView::GetInfo(m) => true,
            ClientMessageView::CopyFrom(m) => m.encodable(),
        }
    }

    /// The task that the message belongs to.
    pub open spec fn task_id(self) -> TaskId {
        match self {
            ClientMessageView::GetInfo(m) => m.task_id,
            ClientMessageView::CopyFrom(m) => m.task_id,
        }
    }

    /// The raw message that stands for this one.
    pub open spec fn raw(self) -> RawMessageView {
        match self {
            ClientMessageView::GetInfo(m) => RawMessageView {
                mtype: MC_GET_INFO,
                body: RawMessageBodyView::Binary(m.wire()),
            },
            ClientMessageView::CopyFrom(m) => RawMessageView {
                mtype: MC_COPY_FROM,
                body: RawMessageBodyView::Binary(m.wire()),
            },
        }
    }

    /// The message that a raw message stands for, or why it stands for none.
    pub open spec fn parsed(raw: RawMessageView) -> Result<ClientMessageView, ParseErrorView> {
        if raw.mtype == MC_GET_INFO {
            parsed_body(
                raw.body,
                |b: Seq<u8>| CGetInfoView::parsed(b),
                |m: CGetInfoView| ClientMessageView::GetInfo(m),
            )
        } else if raw.mtype == MC_COPY_FROM {
            parsed_body(
                raw.body,
                |b: Seq<u8>| CCopyFromView::parsed(b),
                |m: CCopyFromView| ClientMessageView::CopyFrom(m),
            )
        } else {
            Err(ParseErrorView::UnknownCode)
        }
    }
}

impl ServerMessageView {
    /// Whether the message comes back from the wire as it was: its text must be short
    /// enough for a length prefix, its identifier sixty-four bytes long.
    pub open spec fn encodable(self) -> bool {
        match self {
            ServerMessageView::Info(m) => m.encodable(),
            ServerMessageView::CopyFrom(m) => m.encodable(),
            ServerMessageView::Reject(m) => m.encodable(),
            ServerMessageView::Error(m) => m.encodable(),
        }
    }

    /// The task that the message belongs to.
    pub open spec fn task_id(self) -> TaskId {
        match self {
            ServerMessageView::Info(m) => m.task_id,
            ServerMessageView::CopyFrom(m) => m.task_id,
            ServerMessageView::Reject(m) => m.task_id,
            ServerMessageView::Error(m) => m.task_id,
        }
    }

    /// The raw message that stands for this one.
    pub open spec fn raw(self) -> RawMessageView {
        match self {
            ServerMessageView::Info(m) => RawMessageView {
                mtype: MS_INFO,
                body: RawMessageBodyView::Binary(m.wire()),
            },
            ServerMessageView::CopyFrom(m) => RawMessageView {
                mtype: MS_COPY_FROM,
                body: RawMessageBodyView::Binary(m.wire()),
            },
            ServerMessageView::Reject(m) => RawMessageView {
                mtype: MS_REJECT,
                body: RawMessageBodyView::Binary(m.wire()),
            },
            ServerMessageView::Error(m) => RawMessageView {
                mtype: MS_ERROR,
                body: RawMessageBodyView::Binary(m.wire()),
            },
        }
    }

    /// The message that a raw message stands for, or why it stands for none.
    pub open spec fn parsed(raw: RawMessageView) -> Result<ServerMessageView, ParseErrorView> {
        if raw.mtype == MS_INFO {
            parsed_body(
                raw.body,
                |b: Seq<u8>| SInfoView::parsed(b),
                |m: SInfoView| ServerMessageView::Info(m),
            )
        } else if raw.mtype == MS_COPY_FROM {
            parsed_body(
                raw.body,
                |b: Seq<u8>| SCopyFromView::parsed(b),
                |m: SCopyFromView| ServerMessageView::CopyFrom(m),
            )
        } else if raw.mtype == MS_REJECT {
            parsed_body(
                raw.body,
                |b: Seq<u8>| SRejectView::parsed(b),
                |m: SRejectView| ServerMessageView::Reject(m),
            )
        } else if raw.mtype == MS_ERROR {
            parsed_body(
                raw.body,
                |b: Seq<u8>| SErrorView::parsed(b),
                |m: SErrorView| ServerMessageView::Error(m),
            )
        } else {
            Err(ParseErrorView::UnknownCode)
        }
    }
}

impl ClientMessage {
    /// The raw message that stands for this one: its code and its body.
    pub fn encode(self) -> (raw: RawMessage)
        ensures
            raw@ == self@.raw(),
    {
        match self {
            ClientMessage::GetInfo(m) => RawMessage::new(MC_GET_INFO, m.encode()),
            ClientMessage::CopyFrom(m) => RawMessage::new(MC_COPY_FROM, m.encode()),
        }
    }

    /// The message that a raw message stands for, by its code.
    pub fn parse(raw_message: RawMessage) -> (r: Result<ClientMessage, ParseError>)
        ensures
            r matches Ok(m) ==> ClientMessageView::parsed(raw_message@) == Ok::<
                ClientMessageView,
                ParseErrorView,
            >(m@),
            r matches Err(e) ==> ClientMessageView::parsed(raw_message@) == Err::<
                ClientMessageView,
                ParseErrorView,
            >(e@),
    {
        if raw_message.mtype == MC_GET_INFO {
            CGetInfo::parse(raw_message.body)
        } else if raw_message.mtype == MC_COPY_FROM {
            CCopyFrom::parse(raw_message.body)
        } else {
            Err(ParseError::UnknownCode)
        }
    }

    /// The task that the message belongs to.
    pub fn get_task_id(&self) -> (task_id: TaskId)
        ensures
            task_id == self@.task_id(),
    {
        match self {
            ClientMessage::GetInfo(m) => m.task_id,
            ClientMessage::CopyFrom(m) => m.task_id,
        }
    }
}

impl ServerMessage {
    /// The raw message that stands for this one: its code and its body.
    pub fn encode(self) -> (raw: RawMessage)
        ensures
            raw@ == self@.raw(),
    {
        match self {
            ServerMessage::Info(m) => RawMessage::new(MS_INFO, m.encode()),
            ServerMessage::CopyFrom(m) => RawMessage::new(MS_COPY_FROM, m.encode()),
            ServerMessage::Reject(m) => RawMessage::new(MS_REJECT, m.encode()),
            ServerMessage::Error(m) => RawMessage::new(MS_ERROR, m.encode()),
        }
    }

    /// The message that a raw message stands for, by its code.
    pub fn parse(raw_message: RawMessage) -> (r: Result<ServerMessage, ParseError>)
        ensures
            r matches Ok(m) ==> ServerMessageView::parsed(raw_message@) == Ok::<
                ServerMessageView,
                ParseErrorView,
            >(m@),
            r matches Err(e) ==> ServerMessageView::parsed(raw_message@) == Err::<
                ServerMessageView,
                ParseErrorView,
            >(e@),
    {
        if raw_message.mtype == MS_INFO {
            SInfo::parse(raw_message.body)
        } else if raw_message.mtype == MS_COPY_FROM {
            SCopyFrom::parse(raw_message.body)
        } else if raw_message.mtype == MS_REJECT {
            SReject::parse(raw_message.body)
        } else if raw_message.mtype == MS_ERROR {
            SError::parse(raw_message.body)
        } else {
            Err(ParseError::UnknownCode)
        }
    }

    /// The task that the message belongs to.
    pub fn get_task_id(&self) -> (task_id: TaskId)
        ensures
            task_id == self@.task_id(),
    {
        match self {
            ServerMessage::Info(m) => m.task_id,
            ServerMessage::CopyFrom(m) => m.task_id,
            ServerMessage::Reject(m) => m.task_id,
            ServerMessage::Error(m) => m.task_id,
        }
    }
}

impl CGetInfo {
    /// The message with these fields.
    pub fn create(task_id: TaskId) -> (m: ClientMessage)
        ensures
            m@ == ClientMessageView::GetInfo(CGetInfoView { task_id: task_id }),
    {
        ClientMessage::GetInfo(CGetInfo { task_id: task_id })
    }

    /// The body of the message on the wire.
    pub fn encode(&self) -> (body: RawMessageBody)
        ensures
            body@ == RawMessageBodyView::Binary(self@.wire()),
    {
        let mut encode = Encoder::new();
        encode.extend_from_vec(self.task_id.encode());
        proof {
            assert(encode@ =~= self@.wire());
        }
        RawMessageBody::Binary(encode.complete())
    }

    /// Reads the message from a body, which must be binary and hold the fields and nothing
    /// else.
    pub fn parse(body: RawMessageBody) -> (r: Result<ClientMessage, ParseError>)
        ensures
            r matches Ok(m) ==> parsed_body(
                body@,
                |b: Seq<u8>| CGetInfoView::parsed(b),
                |m: CGetInfoView| ClientMessageView::GetInfo(m),
            ) == Ok::<ClientMessageView, ParseErrorView>(m@),
            r matches Err(e) ==> parsed_body(
                body@,
                |b: Seq<u8>| CGetInfoView::parsed(b),
                |m: CGetInfoView| ClientMessageView::GetInfo(m),
            ) == Err::<ClientMessageView, ParseErrorView>(e@),
    {
        match body {
            RawMessageBody::Binary(v) => {
                let mut input = Parser::new(v);
                let task_id: u64 = match u64::parse_from(&mut input) {
                    Ok(x) => x,
                    Err(e) => {
                        return Err(ParseError::of(e));
                    },
                };
                match input.complete() {
                    Ok(_) => {},
                    Err(e) => {
                        return Err(ParseError::of(e));
                    },
                }
                Ok(CGetInfo::create(task_id))
            },
            _ => Err(ParseError::BadProtocol),
        }
    }
}

impl CCopyFrom {
    /// The message with these fields.
    pub fn create(task_id: TaskId, uri: String) -> (m: ClientMessage)
        ensures
            m@ == ClientMessageView::CopyFrom(CCopyFromView { task_id: task_id, uri: uri@ }),
    {
        ClientMessage::CopyFrom(CCopyFrom { task_id: task_id, uri: uri })
    }

    /// The body of the message on the wire.
    pub fn encode(self) -> (body: RawMessageBody)
        ensures
            body@ == RawMessageBodyView::Binary(self@.wire()),
    {
        let mut encode = Encoder::new();
        encode.extend_from_vec(self.task_id.encode());
        encode.extend_from_vec(self.uri.encode());
        proof {
            assert(encode@ =~= self@.wire());
        }
        RawMessageBody::Binary(encode.complete())
    }

    /// Reads the message from a body, which must be binary and hold the fields and nothing
    /// else.
    pub fn parse(body: RawMessageBody) -> (r: Result<ClientMessage, ParseError>)
        ensures
            r matches Ok(m) ==> parsed_body(
                body@,
                |b: Seq<u8>| CCopyFromView::parsed(b),
                |m: CCopyFromView| ClientMessageView::CopyFrom(m),
            ) == Ok::<ClientMessageView, ParseErrorView>(m@),
            r matches Err(e) ==> parsed_body(
                body@,
                |b: Seq<u8>| CCopyFromView::parsed(b),
                |m: CCopyFromView| ClientMessageView::CopyFrom(m),
            ) == Err::<ClientMessageView, ParseErrorView>(e@),
    {
        match body {
            RawMessageBody::Binary(v) => {
                let mut input = Parser::new(v);
                let task_id: u64 = match u64::parse_from(&mut input) {
                    Ok(x) => x,
                    Err(e) => {
                        return Err(ParseError::of(e));
                    },
                };
                let uri: String = match String::parse_from(&mut input) {
                    Ok(x) => x,
                    Err(e) => {
                        return Err(ParseError::of(e));
                    },
                };
                match input.complete() {
                    Ok(_) => {},
                    Err(e) => {
                        return Err(ParseError::of(e));
                    },
                }
                Ok(CCopyFrom::create(task_id, uri))
            },
            _ => Err(ParseError::BadProtocol),
        }
    }
}

impl SInfo {
    /// The message with these fields.
    pub fn create(task_id: TaskId, pid: u32, arch_bits: u16, os: String) -> (m: ServerMessage)
        ensures
            m@ == ServerMessageView::Info(
                SInfoView { task_id: task_id, pid: pid, arch_bits: arch_bits, os: os@ },
            ),
    {
        ServerMessage::Info(SInfo { task_id: task_id, pid: pid, arch_bits: arch_bits, os: os })
    }

    /// The body of the message on the wire.
    pub fn encode(self) -> (body: RawMessageBody)
        ensures
            body@ == RawMessageBodyView::Binary(self@.wire()),
    {
        let mut encode = Encoder::new();
        encode.extend_from_vec(self.task_id.encode());
        encode.extend_from_vec(self.pid.encode());
        encode.extend_from_vec(self.arch_bits.encode());
        encode.extend_from_vec(self.os.encode());
        proof {
            assert(encode@ =~= self@.wire());
        }
        RawMessageBody::Binary(encode.complete())
    }

    /// Reads the message from a body, which must be binary and hold the fields and nothing
    /// else.
    pub fn parse(body: RawMessageBody) -> (r: Result<ServerMessage, ParseError>)
        ensures
            r matches Ok(m) ==> parsed_body(
                body@,
                |b: Seq<u8>| SInfoView::parsed(b),
                |m: SInfoView| ServerMessageView::Info(m),
            ) == Ok::<ServerMessageView, ParseErrorView>(m@),
            r matches Err(e) ==> parsed_body(
                body@,
                |b: Seq<u8>| SInfoView::parsed(b),
                |m: SInfoView| ServerMessageView::Info(m),
            ) == Err::<ServerMessageView, ParseErrorView>(e@),
    {
        match body {
            RawMessageBody::Binary(v) => {
                let mut input = Parser::new(v);
                let task_id: u64 = match u64::parse_from(&mut input) {
                    Ok(x) => x,
                    Err(e) => {
                        return Err(ParseError::of(e));
                    },
                };
                let pid: u32 = match u32::parse_from(&mut input) {
                    Ok(x) => x,
                    Err(e) => {
                        return Err(ParseError::of(e));
                    },
                };
                let arch_bits: u16 = match u16::parse_from(&mut input) {
                    Ok(x) => x,
                    Err(e) => {
                        return Err(ParseError::of(e));
                    },
                };
                let os: String = match String::parse_from(&mut input) {
                    Ok(x) => x,
                    Err(e) => {
                        return Err(ParseError::of(e));
                    },
                };
                match input.complete() {
                    Ok(_) => {},
                    Err(e) => {
                        return Err(ParseError::of(e));
                    },
                }
                Ok(SInfo::create(task_id, pid, arch_bits, os))
            },
            _ => Err(ParseError::BadProtocol),
        }
    }
}

impl Encode for SCopyFromState {
    open spec fn wire(value: SCopyFromStateView) -> Seq<u8> {
        value.wire()
    }

    fn encode(self) -> (bytes: Vec<u8>) {
        let mut encoder = Encoder::new();
        match self {
            SCopyFromState::Complete(content_id) => {
                encoder.extend_from_vec(0u8.encode());
                encoder.extend_from_vec(content_id.encode());
            },
            SCopyFromState::Progress(progress) => {
                encoder.extend_from_vec(1u8.encode());
                encoder.extend_from_vec(progress.encode());
            },
        }
        proof {
            assert(encoder@ =~= self@.wire());
        }
        encoder.complete()
    }
}

impl Parse for SCopyFromState {
    open spec fn parsed(data: Seq<u8>, position: nat) -> Result<
        (SCopyFromStateView, nat),
        ParserError,
    > {
        state_at(data, position)
    }

    fn parse_from(input: &mut Parser) -> (r: Result<SCopyFromState, ParserError>) {
        let tag: u8 = match u8::parse_from(input) {
            Ok(x) => x,
            Err(e) => {
                return Err(e);
            },
        };
        proof {
            let first = old(input).data().subrange(
                old(input).position() as int,
                (old(input).position() + 1) as int,
            );
            lemma_be_bytes_of_value(first);
            lemma_be_limits();
            assert(int_at(old(input).data(), old(input).position(), 1) == Ok::<
                (nat, nat),
                ParserError,
            >((tag as nat, old(input).position() + 1)));
        }
        if tag == 0 {
            match ContentId::parse_from(input) {
                Ok(id) => Ok(SCopyFromState::Complete(id)),
                Err(e) => {
                    input.rewind(1);
                    Err(e)
                },
            }
        } else if tag == 1 {
            match u8::parse_from(input) {
                Ok(percent) => Ok(SCopyFromState::Progress(percent)),
                Err(e) => {
                    input.rewind(1);
                    Err(e)
                },
            }
        } else {
            input.rewind(1);
            Err(ParserError::UnknownTag(tag))
        }
    }
}

impl SCopyFrom {
    /// The message with these fields.
    pub fn create(task_id: TaskId, state: SCopyFromState) -> (m: ServerMessage)
        ensures
            m@ == ServerMessageView::CopyFrom(SCopyFromView { task_id: task_id, state: state@ }),
    {
        ServerMessage::CopyFrom(SCopyFrom { task_id: task_id, state: state })
    }

    /// The body of the message on the wire.
    pub fn encode(self) -> (body: RawMessageBody)
        ensures
            body@ == RawMessageBodyView::Binary(self@.wire()),
    {
        let mut encode = Encoder::new();
        encode.extend_from_vec(self.task_id.encode());
        encode.extend_from_vec(self.state.encode());
        proof {
            assert(encode@ =~= self@.wire());
        }
        RawMessageBody::Binary(encode.complete())
    }

    /// Reads the message from a body, which must be binary and hold the fields and nothing
    /// else.
    pub fn parse(body: RawMessageBody) -> (r: Result<ServerMessage, ParseError>)
        ensures
            r matches Ok(m) ==> parsed_body(
                body@,
                |b: Seq<u8>| SCopyFromView::parsed(b),
                |m: SCopyFromView| ServerMessageView::CopyFrom(m),
            ) == Ok::<ServerMessageView, ParseErrorView>(m@),
            r matches Err(e) ==> parsed_body(
                body@,
                |b: Seq<u8>| SCopyFromView::parsed(b),
                |m: SCopyFromView| ServerMessageView::CopyFrom(m),
            ) == Err::<ServerMessageView, ParseErrorView>(e@),
    {
        match body {
            RawMessageBody::Binary(v) => {
                let mut input = Parser::new(v);
                let task_id: u64 = match u64::parse_from(&mut input) {
                    Ok(x) => x,
                    Err(e) => {
                        return Err(ParseError::of(e));
                    },
                };
                let state: SCopyFromState = match SCopyFromState::parse_from(&mut input) {
                    Ok(x) => x,
                    Err(e) => {
                        return Err(ParseError::of(e));
                    },
                };
                match input.complete() {
                    Ok(_) => {},
                    Err(e) => {
                        return Err(ParseError::of(e));
                    },
                }
                Ok(SCopyFrom::create(task_id, state))
            },
            _ => Err(ParseError::BadProtocol),
        }
    }
}

impl SReject {
    /// The message with these fields.
    pub fn create(task_id: TaskId, reason: String) -> (m: ServerMessage)
        ensures
            m@ == ServerMessageView::Reject(SRejectView { task_id: task_id, reason: reason@ }),
    {
        ServerMessage::Reject(SReject { task_id: task_id, reason: reason })
    }

    /// The body of the message on the wire.
    pub fn encode(self) -> (body: RawMessageBody)
        ensures
            body@ == RawMessageBodyView::Binary(self@.wire()),
    {
        let mut encode = Encoder::new();
        encode.extend_from_vec(self.task_id.encode());
        encode.extend_from_vec(self.reason.encode());
        proof {
            assert(encode@ =~= self@.wire());
        }
        RawMessageBody::Binary(encode.complete())
    }

    /// Reads the message from a body, which must be binary and hold the fields and nothing
    /// else.
    pub fn parse(body: RawMessageBody) -> (r: Result<ServerMessage, ParseError>)
        ensures
            r matches Ok(m) ==> parsed_body(
                body@,
                |b: Seq<u8>| SRejectView::parsed(b),
                |m: SRejectView| ServerMessageView::Reject(m),
            ) == Ok::<ServerMessageView, ParseErrorView>(m@),
            r matches Err(e) ==> parsed_body(
                body@,
                |b: Seq<u8>| SRejectView::parsed(b),
                |m: SRejectView| ServerMessageView::Reject(m),
            ) == Err::<ServerMessageView, ParseErrorView>(e@),
    {
        match body {
            RawMessageBody::Binary(v) => {
                let mut input = Parser::new(v);
                let task_id: u64 = match u64::parse_from(&mut input) {
                    Ok(x) => x,
                    Err(e) => {
                        return Err(ParseError::of(e));
                    },
                };
                let reason: String = match String::parse_from(&mut input) {
                    Ok(x) => x,
                    Err(e) => {
                        return Err(ParseError::of(e));
                    },
                };
                match input.complete() {
                    Ok(_) => {},
                    Err(e) => {
                        return Err(ParseError::of(e));
                    },
                }
                Ok(SReject::create(task_id, reason))
            },
            _ => Err(ParseError::BadProtocol),
        }
    }
}

impl SError {
    /// The message with these fields.
    pub fn create(task_id: TaskId, message: String) -> (m: ServerMessage)
        ensures
            m@ == ServerMessageView::Error(SErrorView { task_id: task_id, message: message@ }),
    {
        ServerMessage::Error(SError { task_id: task_id, message: message })
    }

    /// The body of the message on the wire.
    pub fn encode(self) -> (body: RawMessageBody)
        ensures
            body@ == RawMessageBodyView::Binary(self@.wire()),
    {
        let mut encode = Encoder::new();
        encode.extend_from_vec(self.task_id.encode());
        encode.extend_from_vec(self.message.encode());
        proof {
            assert(encode@ =~= self@.wire());
        }
        RawMessageBody::Binary(encode.complete())
    }

    /// Reads the message from a body, which must be binary and hold the fields and nothing
    /// else.
    pub fn parse(body: RawMessageBody) -> (r: Result<ServerMessage, ParseError>)
        ensures
            r matches Ok(m) ==> parsed_body(
                body@,
                |b: Seq<u8>| SErrorView::parsed(b),
                |m: SErrorView| ServerMessageView::Error(m),
            ) == Ok::<ServerMessageView, ParseErrorView>(m@),
            r matches Err(e) ==> parsed_body(
                body@,
                |b: Seq<u8>| SErrorView::parsed(b),
                |m: SErrorView| ServerMessageView::Error(m),
            ) == Err::<ServerMessageView, ParseErrorView>(e@),
    {
        match body {
            RawMessageBody::Binary(v) => {
                let mut input = Parser::new(v);
                let task_id: u64 = match u64::parse_from(&mut input) {
                    Ok(x) => x,
                    Err(e) => {
                        return Err(ParseError::of(e));
                    },
                };
                let message: String = match String::parse_from(&mut input) {
                    Ok(x) => x,
                    Err(e) => {
                        return Err(ParseError::of(e));
                    },
                };
                match input.complete() {
                    Ok(_) => {},
                    Err(e) => {
                        return Err(ParseError::of(e));
                    },
                }
                Ok(SError::create(task_id, message))
            },
            _ => Err(ParseError::BadProtocol),
        }
    }
}

/// A body that is the wire form of a task's number is read back as that number.
pub proof fn lemma_task_body_round_trip(task_id: TaskId)
    ensures
        parsed_task_body(be_bytes(task_id as nat, 8)) == Ok::<TaskId, ParserError>(task_id),
{
    lemma_be_limits();
    lemma_be_bytes_len(task_id as nat, 8);
    lemma_int_at(Seq::empty(), task_id as nat, 8, Seq::empty());
    assert(Seq::<u8>::empty() + be_bytes(task_id as nat, 8) + Seq::<u8>::empty() =~= be_bytes(
        task_id as nat,
        8,
    ));
}

/// A body that is the wire form of a task's number and a text is read back as the two.
pub proof fn lemma_task_text_body_round_trip(task_id: TaskId, text: Seq<char>)
    requires
        text_encodable(text),
    ensures
        parsed_task_text_body(task_text_wire(task_id, text)) == Ok::<
            (TaskId, Seq<char>),
            ParserError,
        >((task_id, text)),
{
    let head = be_bytes(task_id as nat, 8);
    let body = task_text_wire(task_id, text);
    lemma_be_limits();
    lemma_be_bytes_len(task_id as nat, 8);
    lemma_int_at(Seq::empty(), task_id as nat, 8, str_wire(text));
    assert(Seq::<u8>::empty() + head + str_wire(text) =~= body);
    lemma_str_at(head, text, Seq::empty());
    assert(head + str_wire(text) + Seq::<u8>::empty() =~= body);
}

/// The wire form of a server's description is read back as the description.
pub proof fn lemma_info_round_trip(m: SInfoView)
    requires
        m.encodable(),
    ensures
        SInfoView::parsed(m.wire()) == Ok::<SInfoView, ParserError>(m),
{
    let a = be_bytes(m.task_id as nat, 8);
    let b = be_bytes(m.pid as nat, 4);
    let c = be_bytes(m.arch_bits as nat, 2);
    let d = str_wire(m.os);
    let body = m.wire();
    lemma_be_limits();
    lemma_be_bytes_len(m.task_id as nat, 8);
    lemma_be_bytes_len(m.pid as nat, 4);
    lemma_be_bytes_len(m.arch_bits as nat, 2);
    lemma_int_at(Seq::empty(), m.task_id as nat, 8, b + c + d);
    assert(Seq::<u8>::empty() + a + (b + c + d) =~= body);
    lemma_int_at(a, m.pid as nat, 4, c + d);
    assert(a + b + (c + d) =~= body);
    lemma_int_at(a + b, m.arch_bits as nat, 2, d);
    lemma_str_at(a + b + c, m.os, Seq::empty());
    assert(a + b + c + d + Seq::<u8>::empty() =~= body);
}

/// The wire form of a copy's state, with bytes before and behind it, is read back at its
/// place as the state.
pub proof fn lemma_state_at(head: Seq<u8>, state: SCopyFromStateView, tail: Seq<u8>)
    requires
        state.encodable(),
    ensures
        state_at(head + state.wire() + tail, head.len()) == Ok::<
            (SCopyFromStateView, nat),
            ParserError,
        >((state, head.len() + state.wire().len())),
{
    let data = head + state.wire() + tail;
    lemma_be_limits();
    lemma_be_bytes_len(0, 1);
    lemma_be_bytes_len(1, 1);
    match state {
        SCopyFromStateView::Complete(id) => {
            lemma_int_at(head, 0, 1, id + tail);
            assert(head + be_bytes(0, 1) + (id + tail) =~= data);
            assert(data.subrange(head.len() as int + 1, head.len() as int + 1 + 64) =~= id);
        },
        SCopyFromStateView::Progress(percent) => {
            let p = be_bytes(percent as nat, 1);
            lemma_be_bytes_len(percent as nat, 1);
            lemma_int_at(head, 1, 1, p + tail);
            assert(head + be_bytes(1, 1) + (p + tail) =~= data);
            lemma_int_at(head + be_bytes(1, 1), percent as nat, 1, tail);
            assert(head + be_bytes(1, 1) + p + tail =~= data);
        },
    }
}

/// The wire form of a copy's report is read back as the report.
pub proof fn lemma_copy_from_round_trip(m: SCopyFromView)
    requires
        m.encodable(),
    ensures
        SCopyFromView::parsed(m.wire()) == Ok::<SCopyFromView, ParserError>(m),
{
    let a = be_bytes(m.task_id as nat, 8);
    let body = m.wire();
    lemma_be_limits();
    lemma_be_bytes_len(m.task_id as nat, 8);
    lemma_int_at(Seq::empty(), m.task_id as nat, 8, m.state.wire());
    assert(Seq::<u8>::empty() + a + m.state.wire() =~= body);
    lemma_state_at(a, m.state, Seq::empty());
    assert(a + m.state.wire() + Seq::<u8>::empty() =~= body);
}

/// Every client message of the content operations that can be encoded is parsed back from
/// its raw form as it was.
pub proof fn lemma_client_message_round_trip(m: ClientMessageView)
    requires
        m.encodable(),
    ensures
        ClientMessageView::parsed(m.raw()) == Ok::<ClientMessageView, ParseErrorView>(m),
{
    match m {
        ClientMessageView::GetInfo(get) => {
            lemma_task_body_round_trip(get.task_id);
        },
        ClientMessageView::CopyFrom(copy) => {
            lemma_task_text_body_round_trip(copy.task_id, copy.uri);
        },
    }
}

/// Every server message of the content operations that can be encoded is parsed back from
/// its raw form as it was.
pub proof fn lemma_server_message_round_trip(m: ServerMessageView)
    requires
        m.encodable(),
    ensures
        ServerMessageView::parsed(m.raw()) == Ok::<ServerMessageView, ParseErrorView>(m),
{
    match m {
        ServerMessageView::Info(info) => {
            lemma_info_round_trip(info);
        },
        ServerMessageView::CopyFrom(copy) => {
            lemma_copy_from_round_trip(copy);
        },
        ServerMessageView::Reject(reject) => {
            lemma_task_text_body_round_trip(reject.task_id, reject.reason);
        },
        ServerMessageView::Error(error) => {
            lemma_task_text_body_round_trip(error.task_id, error.message);
        },
    }
}

impl SInfoView {
    /// The message as debugging output shows it.
    pub open spec fn debug_text(self) -> Seq<char> {
        "SInfo { task_id: "@ + decimal_text(self.task_id as nat) + ", pid: "@ + decimal_text(
            self.pid as nat,
        ) + ", arch_bits: "@ + decimal_text(self.arch_bits as nat) + ", os: "@ + quoted_text(
            self.os,
        ) + " }"@
    }
}

impl SCopyFromStateView {
    /// The state as debugging output shows it.
    pub open spec fn debug_text(self) -> Seq<char> {
        match self {
            SCopyFromStateView::Progress(percent) => "Progress("@ + decimal_text(percent as nat)
                + ")"@,
            SCopyFromStateView::Complete(id) => "Complete(ContentId ("@ + hex_text(id) + "))"@,
        }
    }
}

impl SCopyFromView {
    /// The message as debugging output shows it.
    pub open spec fn debug_text(self) -> Seq<char> {
        "SCopyFrom { task_id: "@ + decimal_text(self.task_id as nat) + ", state: "@
            + self.state.debug_text() + " }"@
    }
}

impl SRejectView {
    /// The message as debugging output shows it.
    pub open spec fn debug_text(self) -> Seq<char> {
        "SReject { task_id: "@ + decimal_text(self.task_id as nat) + ", reason: "@ + quoted_text(
            self.reason,
        ) + " }"@
    }
}

impl SErrorView {
    /// The message as debugging output shows it.
    pub open spec fn debug_text(self) -> Seq<char> {
        "SError { task_id: "@ + decimal_text(self.task_id as nat) + ", message: "@ + quoted_text(
            self.message,
        ) + " }"@
    }
}

impl ServerMessageView {
    /// The message as debugging output shows it.
    pub open spec fn debug_text(self) -> Seq<char> {
        match self {
            ServerMessageView::Info(m) => "Info("@ + m.debug_text() + ")"@,
            ServerMessageView::CopyFrom(m) => "CopyFrom("@ + m.debug_text() + ")"@,
            ServerMessageView::Reject(m) => "Reject("@ + m.debug_text() + ")"@,
            ServerMessageView::Error(m) => "Error("@ + m.debug_text() + ")"@,
        }
    }
}

impl SInfo {
    /// The value as debugging output shows it.
    pub fn debug_string(&self) -> (text: String)
        ensures
            text@ == self@.debug_text(),
    {
        let task_id = decimal(self.task_id);
        let pid = decimal(self.pid as u64);
        let arch_bits = decimal(self.arch_bits as u64);
        let os = quoted(self.os.as_str());
        let mut text = "SInfo { task_id: ".to_owned();
        text.append(task_id.as_str());
        text.append(", pid: ");
        text.append(pid.as_str());
        text.append(", arch_bits: ");
        text.append(arch_bits.as_str());
        text.append(", os: ");
        text.append(os.as_str());
        text.append(" }");
        proof {
            assert(text@ =~= self@.debug_text());
        }
        text
    }
}

impl SCopyFromState {
    /// The value as debugging output shows it.
    pub fn debug_string(&self) -> (text: String)
        ensures
            text@ == self@.debug_text(),
    {
        match self {
            SCopyFromState::Progress(percent) => {
                let number = decimal(*percent as u64);
                join3("Progress(", number.as_str(), ")")
            },
            SCopyFromState::Complete(id) => {
                let digits = id.to_string();
                join3("Complete(ContentId (", digits.as_str(), "))")
            },
        }
    }
}

impl SCopyFrom {
    /// The value as debugging output shows it.
    pub fn debug_string(&self) -> (text: String)
        ensures
            text@ == self@.debug_text(),
    {
        let task_id = decimal(self.task_id);
        let state = self.state.debug_string();
        let mut text = "SCopyFrom { task_id: ".to_owned();
        text.append(task_id.as_str());
        text.append(", state: ");
        text.append(state.as_str());
        text.append(" }");
        proof {
            assert(text@ =~= self@.debug_text());
        }
        text
    }
}

impl SReject {
    /// The value as debugging output shows it.
    pub fn debug_string(&self) -> (text: String)
        ensures
            text@ == self@.debug_text(),
    {
        let task_id = decimal(self.task_id);
        let reason = quoted(self.reason.as_str());
        let mut text = "SReject { task_id: ".to_owned();
        text.append(task_id.as_str());
        text.append(", reason: ");
        text.append(reason.as_str());
        text.append(" }");
        proof {
            assert(text@ =~= self@.debug_text());
        }
        text
    }
}

impl SError {
    /// The value as debugging output shows it.
    pub fn debug_string(&self) -> (text: String)
        ensures
            text@ == self@.debug_text(),
    {
        let task_id = decimal(self.task_id);
        let message = quoted(self.message.as_str());
        let mut text = "SError { task_id: ".to_owned();
        text.append(task_id.as_str());
        text.append(", message: ");
        text.append(message.as_str());
        text.append(" }");
        proof {
            assert(text@ =~= self@.debug_text());
        }
        text
    }
}

impl ServerMessage {
    /// The value as debugging output shows it.
    pub fn debug_string(&self) -> (text: String)
        ensures
            text@ == self@.debug_text(),
    {
        match self {
            ServerMessage::Info(m) => {
                let inner = m.debug_string();
                join3("Info(", inner.as_str(), ")")
            },
            ServerMessage::CopyFrom(m) => {
                let inner = m.debug_string();
                join3("CopyFrom(", inner.as_str(), ")")
            },
            ServerMessage::Reject(m) => {
                let inner = m.debug_string();
                join3("Reject(", inner.as_str(), ")")
            },
            ServerMessage::Error(m) => {
                let inner = m.debug_string();
                join3("Error(", inner.as_str(), ")")
            },
        }
    }
}

} // verus!
