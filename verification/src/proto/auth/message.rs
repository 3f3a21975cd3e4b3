//! The messages of the handshake.

use vstd::prelude::*;
use vstd::string::*;
use vstd::utf8::*;

use crate::protocol::message::{RawMessage, RawMessageBody, RawMessageBodyView, RawMessageView};
use crate::protocol::serde::{
    be_bytes, int_at, lemma_be_bytes_len, lemma_be_limits, lemma_int_at, lemma_str_at, str_at,
    str_wire, Encode, Encoder, Parse, Parser, ParserError,
};
use crate::protocol::text::{join3, quoted, quoted_text};
use crate::protocol::workflow::ProtocolVersion;

verus! {

/// Why a raw message is no message of the handshake.
#[derive(Debug, PartialEq)]
pub enum ParseError {
    /// Message with unknown code.
    UnknownCode,
    ParseError(String),
    BadProtocol,
}

/// `ParseError` as contracts see it.
pub enum ParseErrorView {
    UnknownCode,
    ParseError(Seq<char>),
    BadProtocol,
}

impl View for ParseError {
    type V = ParseErrorView;

    open spec fn view(&self) -> ParseErrorView {
        match *self {
            ParseError::UnknownCode => ParseErrorView::UnknownCode,
            ParseError::ParseError(s) => ParseErrorView::ParseError(s@),
            ParseError::BadProtocol => ParseErrorView::BadProtocol,
        }
    }
}

impl ParseErrorView {
    /// The error that stands for a failed read of a field.
    pub open spec fn of(err: ParserError) -> ParseErrorView {
        ParseErrorView::ParseError(err.debug_text())
    }

    /// The error as debugging output names it.
    pub open spec fn debug_text(self) -> Seq<char> {
        match self {
            ParseErrorView::UnknownCode => "UnknownCode"@,
            ParseErrorView::ParseError(s) => "ParseError("@ + quoted_text(s) + ")"@,
            ParseErrorView::BadProtocol => "BadProtocol"@,
        }
    }
}

impl ParseError {
    /// The error that stands for a failed read of a field: it carries the failure's name.
    pub fn of(err: ParserError) -> (e: ParseError)
        ensures
            e@ == ParseErrorView::of(err),
    {
        ParseError::ParseError(err.debug_string())
    }

    /// The value as debugging output shows it.
    pub fn debug_string(&self) -> (text: String)
        ensures
            text@ == self@.debug_text(),
    {
        match self {
            ParseError::UnknownCode => "UnknownCode".to_owned(),
            ParseError::ParseError(s) => {
                let inner = quoted(s.as_str());
                join3("ParseError(", inner.as_str(), ")")
            },
            ParseError::BadProtocol => "BadProtocol".to_owned(),
        }
    }
}

/// What the client sends.
#[derive(Debug, PartialEq)]
pub enum ClientMessage {
    Start(CStart),
}

/// What the server sends.
#[derive(Debug, PartialEq)]
pub enum ServerMessage {
    AuthOk(SAuthOk),
    Reject(SReject),
    Error(SError),
}

/// The code of the handshake among the sub-protocols.
pub const SUBPROTOCOL_CODE: u8 = 0;

/// The code of a start.
pub const MC_START: u8 = 0;

/// The client's opening: its version and the sub-protocol it asks for.
#[derive(Debug, PartialEq)]
pub struct CStart {
    pub version: ProtocolVersion,
    pub subprotocol: u8,
    /// Reserved; not sent.
    pub args: Vec<u8>,
}

/// The code of an acceptance.
pub const MS_AUTH_OK: u8 = 1;

/// The code of a refusal.
pub const MS_REJECT: u8 = 254;

/// The code of an error.
pub const MS_ERROR: u8 = 255;

/// The server accepts, and names the client.
#[derive(Debug, PartialEq)]
pub struct SAuthOk {
    pub id: usize,
}

/// The server refuses the client.
#[derive(Debug, PartialEq)]
pub struct SReject {
    pub reason: String,
}

/// The server failed.
#[derive(Debug, PartialEq)]
pub struct SError {
    pub message: String,
}

/// `CStart` as contracts see it.
pub struct CStartView {
    pub version: ProtocolVersion,
    pub subprotocol: u8,
    pub args: Seq<u8>,
}

/// `SAuthOk` as contracts see it.
pub struct SAuthOkView {
    pub id: usize,
}

/// `SReject` as contracts see it.
pub struct SRejectView {
    pub reason: Seq<char>,
}

/// `SError` as contracts see it.
pub struct SErrorView {
    pub message: Seq<char>,
}

/// `ClientMessage` as contracts see it.
pub enum ClientMessageView {
    Start(CStartView),
}

/// `ServerMessage` as contracts see it.
pub enum ServerMessageView {
    AuthOk(SAuthOkView),
    Reject(SRejectView),
    Error(SErrorView),
}

impl View for CStart {
    type V = CStartView;

    open spec fn view(&self) -> CStartView {
        CStartView { version: self.version, subprotocol: self.subprotocol, args: self.args@ }
    }
}

impl View for SAuthOk {
    type V = SAuthOkView;

    open spec fn view(&self) -> SAuthOkView {
        SAuthOkView { id: self.id }
    }
}

impl View for SReject {
    type V = SRejectView;

    open spec fn view(&self) -> SRejectView {
        SRejectView { reason: self.reason@ }
    }
}

impl View for SError {
    type V = SErrorView;

    open spec fn view(&self) -> SErrorView {
        SErrorView { message: self.message@ }
    }
}

impl View for ClientMessage {
    type V = ClientMessageView;

    open spec fn view(&self) -> ClientMessageView {
        match *self {
            ClientMessage::Start(m) => ClientMessageView::Start(m@),
        }
    }
}

impl View for ServerMessage {
    type V = ServerMessageView;

    open spec fn view(&self) -> ServerMessageView {
        match *self {
            ServerMessage::AuthOk(m) => ServerMessageView::AuthOk(m@),
            ServerMessage::Reject(m) => ServerMessageView::Reject(m@),
            ServerMessage::Error(m) => ServerMessageView::Error(m@),
        }
    }
}

/// Whether a text is short enough for a length prefix: fewer than 2^31 bytes of UTF-8.
pub open spec fn text_encodable(text: Seq<char>) -> bool {
    encode_utf8(text).len() < 0x8000_0000
}

impl CStartView {
    /// Version, sub-protocol, then three bytes that are reserved and sent as zero.
    pub open spec fn wire(self) -> Seq<u8> {
        be_bytes(self.version.0 as nat, 1) + be_bytes(self.version.1 as nat, 1) + be_bytes(
            self.version.2 as nat,
            2,
        ) + be_bytes(self.subprotocol as nat, 1) + be_bytes(0, 1) + be_bytes(0, 1) + be_bytes(0, 1)
    }

    /// The arguments are not sent, so only a start without them comes back as it was.
    pub open spec fn encodable(self) -> bool {
        self.args.len() == 0
    }

    /// Eight bytes: version, sub-protocol, and three that are read and ignored.
    pub open spec fn parsed(body: Seq<u8>) -> Result<CStartView, ParserError> {
        if body.len() < 8 {
            Err(ParserError::Overflow)
        } else if body.len() > 8 {
            Err(ParserError::Incomplete)
        } else {
            Ok(
                CStartView {
                    version: ProtocolVersion(
                        body[0],
                        body[1],
                        (body[2] as nat * 256 + body[3] as nat) as u16,
                    ),
                    subprotocol: body[4],
                    args: Seq::empty(),
                },
            )
        }
    }
}

impl SAuthOkView {
    /// The body on the wire: the fields in their order.
    pub open spec fn wire(self) -> Seq<u8> {
        be_bytes(self.id as nat, 8)
    }

    /// What a body is read as: the fields in their order, and nothing behind them.
    pub open spec fn parsed(body: Seq<u8>) -> Result<SAuthOkView, ParserError> {
        match usize::parsed(body, 0) {
            Err(e) => Err(e),
            Ok((id, end)) => if end == body.len() {
                Ok(SAuthOkView { id: id })
            } else {
                Err(ParserError::Incomplete)
            },
        }
    }
}

/// A body that is one string and nothing else.
pub open spec fn parsed_text_body(body: Seq<u8>) -> Result<Seq<char>, ParserError> {
    match str_at(body, 0) {
        Err(e) => Err(e),
        Ok((text, end)) => if end == body.len() {
            Ok(text)
        } else {
            Err(ParserError::Incomplete)
        },
    }
}

impl SRejectView {
    /// The body on the wire: the fields in their order.
    pub open spec fn wire(self) -> Seq<u8> {
        str_wire(self.reason)
    }

    /// Whether the message comes back from the wire as it was: its texts must be short
    /// enough for a length prefix.
    pub open spec fn encodable(self) -> bool {
        text_encodable(self.reason)
    }

    /// What a body is read as: the fields in their order, and nothing behind them.
    pub open spec fn parsed(body: Seq<u8>) -> Result<SRejectView, ParserError> {
        match parsed_text_body(body) {
            Err(e) => Err(e),
            Ok(text) => Ok(SRejectView { reason: text }),
        }
    }
}

impl SErrorView {
    /// The body on the wire: the fields in their order.
    pub open spec fn wire(self) -> Seq<u8> {
        str_wire(self.message)
    }

    /// Whether the message comes back from the wire as it was: its texts must be short
    /// enough for a length prefix.
    pub open spec fn encodable(self) -> bool {
        text_encodable(self.message)
    }

    /// What a body is read as: the fields in their order, and nothing behind them.
    pub open spec fn parsed(body: Seq<u8>) -> Result<SErrorView, ParserError> {
        match parsed_text_body(body) {
            Err(e) => Err(e),
            Ok(text) => Ok(SErrorView { message: text }),
        }
    }
}

/// What parsing a body yields: the message that `wrap` makes of the fields read, the error
/// of a failed read, or `BadProtocol` for a body that is not binary.
pub open spec fn parsed_body<F, M>(
    body: RawMessageBodyView,
    fields: spec_fn(Seq<u8>) -> Result<F, ParserError>,
    wrap: spec_fn(F) -> M,
) -> Result<M, ParseErrorView> {
    match body {
        RawMessageBodyView::Binary(bytes) => match fields(bytes) {
            Ok(found) => Ok(wrap(found)),
            Err(e) => Err(ParseErrorView::of(e)),
        },
        _ => Err(ParseErrorView::BadProtocol),
    }
}

impl ClientMessageView {
    /// Whether the message comes back from the wire as it was: a start must be without
    /// arguments, which are not sent.
    pub open spec fn encodable(self) -> bool {
        match self {
            ClientMessageView::Start(m) => m.encodable(),
        }
    }

    /// The raw message that stands for this one.
    pub open spec fn raw(self) -> RawMessageView {
        match self {
            ClientMessageView::Start(m) => RawMessageView {
                mtype: MC_START,
                body: RawMessageBodyView::Binary(m.wire()),
            },
        }
    }

    /// The message that a raw message stands for, or why it stands for none.
    pub open spec fn parsed(raw: RawMessageView) -> Result<ClientMessageView, ParseErrorView> {
        if raw.mtype == MC_START {
            parsed_body(
                raw.body,
                |b: Seq<u8>| CStartView::parsed(b),
                |m: CStartView| ClientMessageView::Start(m),
            )
        } else {
            Err(ParseErrorView::UnknownCode)
        }
    }
}

impl ServerMessageView {
    /// Whether the message comes back from the wire as it was: its texts must be short
    /// enough for a length prefix.
    pub open spec fn encodable(self) -> bool {
        match self {
            ServerMessageView::AuthOk(m) => true,
            ServerMessageView::Reject(m) => m.encodable(),
            ServerMessageView::Error(m) => m.encodable(),
        }
    }

    /// The raw message that stands for this one.
    pub open spec fn raw(self) -> RawMessageView {
        match self {
            ServerMessageView::AuthOk(m) => RawMessageView {
                mtype: MS_AUTH_OK,
                body: RawMessageBodyView::Binary(m.wire()),
            },
            ServerMessageView::Reject(m) => RawMessageView {
                mtype: MS_REJECT,
                body: RawMessageBodyView::Binary(m.wire()),
            },
            ServerMessageView::Error(m) => RawMessageView {
                mtype: MS_ERROR,
                body: RawMessageBodyView::Binary(m.wire()),
            },
        }
    }

    /// The message that a raw message stands for, or why it stands for none.
    pub open spec fn parsed(raw: RawMessageView) -> Result<ServerMessageView, ParseErrorView> {
        if raw.mtype == MS_AUTH_OK {
            parsed_body(
                raw.body,
                |b: Seq<u8>| SAuthOkView::parsed(b),
                |m: SAuthOkView| ServerMessageView::AuthOk(m),
            )
        } else if raw.mtype == MS_REJECT {
            parsed_body(
                raw.body,
                |b: Seq<u8>| SRejectView::parsed(b),
                |m: SRejectView| ServerMessageView::Reject(m),
            )
        } else if raw.mtype == MS_ERROR {
            parsed_body(
                raw.body,
                |b: Seq<u8>| SErrorView::parsed(b),
                |m: SErrorView| ServerMessageView::Error(m),
            )
        } else {
            Err(ParseErrorView::UnknownCode)
        }
    }
}

impl ClientMessage {
    /// The raw message that stands for this one: its code and its body.
    pub fn encode(self) -> (raw: RawMessage)
        ensures
            raw@ == self@.raw(),
    {
        match self {
            ClientMessage::Start(m) => RawMessage::new(MC_START, m.encode()),
        }
    }

    /// The message that a raw message stands for, by its code.
    pub fn parse(raw_message: RawMessage) -> (r: Result<ClientMessage, ParseError>)
        ensures
            r matches Ok(m) ==> ClientMessageView::parsed(raw_message@) == Ok::<
                ClientMessageView,
                ParseErrorView,
            >(m@),
            r matches Err(e) ==> ClientMessageView::parsed(raw_message@) == Err::<
                ClientMessageView,
                ParseErrorView,
            >(e@),
    {
        if raw_message.mtype == MC_START {
            CStart::parse(raw_message.body)
        } else {
            Err(ParseError::UnknownCode)
        }
    }
}

impl ServerMessage {
    /// The raw message that stands for this one: its code and its body.
    pub fn encode(self) -> (raw: RawMessage)
        ensures
            raw@ == self@.raw(),
    {
        match self {
            ServerMessage::AuthOk(m) => RawMessage::new(MS_AUTH_OK, m.encode()),
            ServerMessage::Reject(m) => RawMessage::new(MS_REJECT, m.encode()),
            ServerMessage::Error(m) => RawMessage::new(MS_ERROR, m.encode()),
        }
    }

    /// The message that a raw message stands for, by its code.
    pub fn parse(raw_message: RawMessage) -> (r: Result<ServerMessage, ParseError>)
        ensures
            r matches Ok(m) ==> ServerMessageView::parsed(raw_message@) == Ok::<
                ServerMessageView,
                ParseErrorView,
            >(m@),
            r matches Err(e) ==> ServerMessageView::parsed(raw_message@) == Err::<
                ServerMessageView,
                ParseErrorView,
            >(e@),
    {
        if raw_message.mtype == MS_AUTH_OK {
            SAuthOk::parse(raw_message.body)
        } else if raw_message.mtype == MS_REJECT {
            SReject::parse(raw_message.body)
        } else if raw_message.mtype == MS_ERROR {
            SError::parse(raw_message.body)
        } else {
            Err(ParseError::UnknownCode)
        }
    }
}

/// One byte stands for itself.
pub proof fn lemma_byte_value(data: Seq<u8>, position: nat)
    requires
        position < data.len(),
    ensures
        int_at(data, position, 1) == Ok::<(nat, nat), ParserError>(
            (data[position as int] as nat, position + 1),
        ),
        be_bytes(data[position as int] as nat, 1) == seq![data[position as int]],
{
    reveal_with_fuel(crate::protocol::serde::be_value, 3);
    reveal_with_fuel(be_bytes, 3);
    let one = data.subrange(position as int, (position + 1) as int);
    assert(one.drop_last() =~= Seq::<u8>::empty());
    assert(one.last() == data[position as int]);
    assert(be_bytes(data[position as int] as nat, 1) =~= seq![data[position as int]]);
}

/// Two bytes stand for the first times 256 plus the second.
pub proof fn lemma_pair_value(data: Seq<u8>, position: nat)
    requires
        position + 2 <= data.len(),
    ensures
        int_at(data, position, 2) == Ok::<(nat, nat), ParserError>(
            (
                data[position as int] as nat * 256 + data[position as int + 1] as nat,
                position + 2,
            ),
        ),
{
    reveal_with_fuel(crate::protocol::serde::be_value, 4);
    let two = data.subrange(position as int, (position + 2) as int);
    assert(two.last() == data[position as int + 1]);
    assert(two.drop_last().last() == data[position as int]);
    assert(two.drop_last().drop_last() =~= Seq::<u8>::empty());
}

impl CStart {
    /// The message with these fields.
    pub fn create(version: ProtocolVersion, subprotocol: u8, sub_args: Vec<u8>) -> (m:
        ClientMessage)
        ensures
            m@ == ClientMessageView::Start(
                CStartView { version: version, subprotocol: subprotocol, args: sub_args@ },
            ),
    {
        ClientMessage::Start(CStart { version: version, subprotocol: subprotocol, args: sub_args })
    }

    /// The body of the message on the wire.
    pub fn encode(self) -> (body: RawMessageBody)
        ensures
            body@ == RawMessageBodyView::Binary(self@.wire()),
    {
        let mut encode = Encoder::new();
        encode.extend_from_vec(self.version.0.encode());
        encode.extend_from_vec(self.version.1.encode());
        encode.extend_from_vec(self.version.2.encode());
        encode.extend_from_vec(self.subprotocol.encode());
        encode.extend_from_vec(0u8.encode());
        encode.extend_from_vec(0u8.encode());
        encode.extend_from_vec(0u8.encode());
        proof {
            assert(encode@ =~= self@.wire());
        }
        RawMessageBody::Binary(encode.complete())
    }

    /// Reads the message from a body, which must be binary and hold the fields and nothing
    /// else.
    pub fn parse(body: RawMessageBody) -> (r: Result<ClientMessage, ParseError>)
        ensures
            r matches Ok(m) ==> parsed_body(
                body@,
                |b: Seq<u8>| CStartView::parsed(b),
                |m: CStartView| ClientMessageView::Start(m),
            ) == Ok::<ClientMessageView, ParseErrorView>(m@),
            r matches Err(e) ==> parsed_body(
                body@,
                |b: Seq<u8>| CStartView::parsed(b),
                |m: CStartView| ClientMessageView::Start(m),
            ) == Err::<ClientMessageView, ParseErrorView>(e@),
    {
        match body {
            RawMessageBody::Binary(v) => {
                let ghost data = v@;
                let mut input = Parser::new(v);
                proof {
                    if data.len() >= 8 {
                        lemma_byte_value(data, 0);
                        lemma_byte_value(data, 1);
                        lemma_pair_value(data, 2);
                        lemma_byte_value(data, 4);
                        lemma_byte_value(data, 5);
                        lemma_pair_value(data, 6);
                    }
                }
                let v0: u8 = match u8::parse_from(&mut input) {
                    Ok(x) => x,
                    Err(e) => {
                        return Err(ParseError::of(e));
                    },
                };
                let v1: u8 = match u8::parse_from(&mut input) {
                    Ok(x) => x,
                    Err(e) => {
                        return Err(ParseError::of(e));
                    },
                };
                let v2: u16 = match u16::parse_from(&mut input) {
                    Ok(x) => x,
                    Err(e) => {
                        return Err(ParseError::of(e));
                    },
                };
                let subprotocol: u8 = match u8::parse_from(&mut input) {
                    Ok(x) => x,
                    Err(e) => {
                        return Err(ParseError::of(e));
                    },
                };
                match u8::parse_from(&mut input) {
                    Ok(_) => {},
                    Err(e) => {
                        return Err(ParseError::of(e));
                    },
                }
                match u16::parse_from(&mut input) {
                    Ok(_) => {},
                    Err(e) => {
                        return Err(ParseError::of(e));
                    },
                }
                match input.complete() {
                    Ok(_) => {},
                    Err(e) => {
                        return Err(ParseError::of(e));
                    },
                }
                let sub_args: Vec<u8> = Vec::new();
                Ok(CStart::create(ProtocolVersion::new(v0, v1, v2), subprotocol, sub_args))
            },
            _ => Err(ParseError::BadProtocol),
        }
    }
}

impl SAuthOk {
    /// The message with these fields.
    pub fn create(id: usize) -> (m: ServerMessage)
        ensures
            m@ == ServerMessageView::AuthOk(SAuthOkView { id: id }),
    {
        ServerMessage::AuthOk(SAuthOk { id: id })
    }

    /// The body of the message on the wire.
    pub fn encode(self) -> (body: RawMessageBody)
        ensures
            body@ == RawMessageBodyView::Binary(self@.wire()),
    {
        let mut encode = Encoder::new();
        encode.extend_from_vec(self.id.encode());
        proof {
            assert(encode@ =~= self@.wire());
        }
        RawMessageBody::Binary(encode.complete())
    }

    /// Reads the message from a body, which must be binary and hold the fields and nothing
    /// else.
    pub fn parse(body: RawMessageBody) -> (r: Result<ServerMessage, ParseError>)
        ensures
            r matches Ok(m) ==> parsed_body(
                body@,
                |b: Seq<u8>| SAuthOkView::parsed(b),
                |m: SAuthOkView| ServerMessageView::AuthOk(m),
            ) == Ok::<ServerMessageView, ParseErrorView>(m@),
            r matches Err(e) ==> parsed_body(
                body@,
                |b: Seq<u8>| SAuthOkView::parsed(b),
                |m: SAuthOkView| ServerMessageView::AuthOk(m),
            ) == Err::<ServerMessageView, ParseErrorView>(e@),
    {
        match body {
            RawMessageBody::Binary(v) => {
                let mut input = Parser::new(v);
                let id: usize = match usize::parse_from(&mut input) {
                    Ok(x) => x,
                    Err(e) => {
                        return Err(ParseError::of(e));
                    },
                };
                match input.complete() {
                    Ok(_) => {},
                    Err(e) => {
                        return Err(ParseError::of(e));
                    },
                }
                Ok(SAuthOk::create(id))
            },
            _ => Err(ParseError::BadProtocol),
        }
    }
}

/// Reads a body that is one string and nothing else.
pub fn parse_text_body(v: Vec<u8>) -> (r: Result<String, ParserError>)
    ensures
        r matches Ok(text) ==> parsed_text_body(v@) == Ok::<Seq<char>, ParserError>(text@),
        r matches Err(e) ==> parsed_text_body(v@) == Err::<Seq<char>, ParserError>(e),
{
    let mut input = Parser::new(v);
    let text = match String::parse_from(&mut input) {
        Ok(x) => x,
        Err(e) => {
            return Err(e);
        },
    };
    match input.complete() {
        Ok(_) => Ok(text),
        Err(e) => Err(e),
    }
}

impl SReject {
    /// The message with these fields.
    pub fn create(reason: String) -> (m: ServerMessage)
        ensures
            m@ == ServerMessageView::Reject(SRejectView { reason: reason@ }),
    {
        ServerMessage::Reject(SReject { reason: reason })
    }

    /// The body of the message on the wire.
    pub fn encode(self) -> (body: RawMessageBody)
        ensures
            body@ == RawMessageBodyView::Binary(self@.wire()),
    {
        let mut encode = Encoder::new();
        encode.extend_from_vec(self.reason.encode());
        proof {
            assert(encode@ =~= self@.wire());
        }
        RawMessageBody::Binary(encode.complete())
    }

    /// Reads the message from a body, which must be binary and hold the fields and nothing
    /// else.
    pub fn parse(body: RawMessageBody) -> (r: Result<ServerMessage, ParseError>)
        ensures
            r matches Ok(m) ==> parsed_body(
                body@,
                |b: Seq<u8>| SRejectView::parsed(b),
                |m: SRejectView| ServerMessageView::Reject(m),
            ) == Ok::<ServerMessageView, ParseErrorView>(m@),
            r matches Err(e) ==> parsed_body(
                body@,
                |b: Seq<u8>| SRejectView::parsed(b),
                |m: SRejectView| ServerMessageView::Reject(m),
            ) == Err::<ServerMessageView, ParseErrorView>(e@),
    {
        match body {
            RawMessageBody::Binary(v) => match parse_text_body(v) {
                Ok(reason) => Ok(SReject::create(reason)),
                Err(e) => Err(ParseError::of(e)),
            },
            _ => Err(ParseError::BadProtocol),
        }
    }
}

impl SError {
    /// The message with these fields.
    pub fn create(message: String) -> (m: ServerMessage)
        ensures
            m@ == ServerMessageView::Error(SErrorView { message: message@ }),
    {
        ServerMessage::Error(SError { message: message })
    }

    /// The body of the message on the wire.
    pub fn encode(self) -> (body: RawMessageBody)
        ensures
            body@ == RawMessageBodyView::Binary(self@.wire()),
    {
        let mut encode = Encoder::new();
        encode.extend_from_vec(self.message.encode());
        proof {
            assert(encode@ =~= self@.wire());
        }
        RawMessageBody::Binary(encode.complete())
    }

    /// Reads the message from a body, which must be binary and hold the fields and nothing
    /// else.
    pub fn parse(body: RawMessageBody) -> (r: Result<ServerMessage, ParseError>)
        ensures
            r matches Ok(m) ==> parsed_body(
                body@,
                |b: Seq<u8>| SErrorView::parsed(b),
                |m: SErrorView| ServerMessageView::Error(m),
            ) == Ok::<ServerMessageView, ParseErrorView>(m@),
            r matches Err(e) ==> parsed_body(
                body@,
                |b: Seq<u8>| SErrorView::parsed(b),
                |m: SErrorView| ServerMessageView::Error(m),
            ) == Err::<ServerMessageView, ParseErrorView>(e@),
    {
        match body {
            RawMessageBody::Binary(v) => match parse_text_body(v) {
                Ok(message) => Ok(SError::create(message)),
                Err(e) => Err(ParseError::of(e)),
            },
            _ => Err(ParseError::BadProtocol),
        }
    }
}

/// A body that is the wire form of one text is read back as that text.
pub proof fn lemma_text_body_round_trip(text: Seq<char>)
    requires
        text_encodable(text),
    ensures
        parsed_text_body(str_wire(text)) == Ok::<Seq<char>, ParserError>(text),
{
    lemma_str_at(Seq::empty(), text, Seq::empty());
    assert(Seq::<u8>::empty() + str_wire(text) + Seq::<u8>::empty() =~= str_wire(text));
}

/// Every client message of the handshake that can be encoded is parsed back from its raw
/// form as it was.
pub proof fn lemma_client_message_round_trip(m: ClientMessageView)
    requires
        m.encodable(),
    ensures
        ClientMessageView::parsed(m.raw()) == Ok::<ClientMessageView, ParseErrorView>(m),
{
    match m {
        ClientMessageView::Start(start) => {
            let body = start.wire();
            reveal_with_fuel(be_bytes, 3);
            assert(body =~= seq![
                start.version.0,
                start.version.1,
                (start.version.2 / 256) as u8,
                (start.version.2 % 256) as u8,
                start.subprotocol,
                0u8,
                0u8,
                0u8,
            ]);
            assert(start.args =~= Seq::<u8>::empty());
        },
    }
}

/// Every server message of the handshake that can be encoded is parsed back from its raw
/// form as it was.
pub proof fn lemma_server_message_round_trip(m: ServerMessageView)
    requires
        m.encodable(),
    ensures
        ServerMessageView::parsed(m.raw()) == Ok::<ServerMessageView, ParseErrorView>(m),
{
    match m {
        ServerMessageView::AuthOk(ok) => {
            lemma_be_limits();
            lemma_be_bytes_len(ok.id as nat, 8);
            lemma_int_at(Seq::empty(), ok.id as nat, 8, Seq::empty());
            assert(Seq::<u8>::empty() + be_bytes(ok.id as nat, 8) + Seq::<u8>::empty()
                =~= ok.wire());
        },
        ServerMessageView::Reject(reject) => {
            lemma_text_body_round_trip(reject.reason);
        },
        ServerMessageView::Error(error) => {
            lemma_text_body_round_trip(error.message);
        },
    }
}

/// A start takes eight bytes on the wire.
pub proof fn lemma_start_wire_len(start: CStartView)
    ensures
        start.wire().len() == 8,
{
    lemma_be_bytes_len(start.version.0 as nat, 1);
    lemma_be_bytes_len(start.version.1 as nat, 1);
    lemma_be_bytes_len(start.version.2 as nat, 2);
    lemma_be_bytes_len(start.subprotocol as nat, 1);
    lemma_be_bytes_len(0, 1);
}

} // verus!
