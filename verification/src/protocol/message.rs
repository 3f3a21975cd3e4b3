//! Frames: a header of eight bytes and a bounded body.

use vstd::prelude::*;
use vstd::string::*;

use crate::protocol::serde::{
    be_bytes, be_value, decode_u32, encode_u32, lemma_be_bytes_len, lemma_be_bytes_of_value,
    lemma_be_limits, lemma_be_value_of_bytes, Utf8Error,
};
use crate::protocol::text::{decimal, decimal_text, join2, join3};

verus! {

/// The body holds bytes.
pub const BT_BINARY: u8 = 0;

/// The body holds text (reserved).
pub const BT_TEXT: u8 = 1;

/// The body holds JSON (reserved).
pub const BT_JSON: u8 = 2;

/// The largest body that a frame may carry, in bytes.
pub const BODY_SIZE_LIMIT: usize = 16_777_216;

/// The size of a frame's header, in bytes.
pub const HEADER_SIZE: usize = 8;

/// The body of a message, by its encoding.
#[derive(Debug, Clone, PartialEq)]
pub enum RawMessageBody {
    Binary(Vec<u8>),
    Text(String),
    JSON(String),
}

/// A message as the framing sees it: a type byte and a body.
#[derive(Debug, Clone, PartialEq)]
pub struct RawMessage {
    pub mtype: u8,
    pub body: RawMessageBody,
}

/// `RawMessageBody` as contracts see it.
pub enum RawMessageBodyView {
    Binary(Seq<u8>),
    Text(Seq<char>),
    JSON(Seq<char>),
}

/// `RawMessage` as contracts see it.
pub struct RawMessageView {
    pub mtype: u8,
    pub body: RawMessageBodyView,
}

impl View for RawMessageBody {
    type V = RawMessageBodyView;

    open spec fn view(&self) -> RawMessageBodyView {
        match *self {
            RawMessageBody::Binary(v) => RawMessageBodyView::Binary(v@),
            RawMessageBody::Text(s) => RawMessageBodyView::Text(s@),
            RawMessageBody::JSON(s) => RawMessageBodyView::JSON(s@),
        }
    }
}

impl View for RawMessage {
    type V = RawMessageView;

    open spec fn view(&self) -> RawMessageView {
        RawMessageView { mtype: self.mtype, body: self.body@ }
    }
}

/// What one read made of the frame so far.
#[derive(Debug, PartialEq)]
pub enum ReadFlow {
    Complete,
    /// The received buffer is valid but needs more data.
    Incomplete,
    Error(ReadError),
}

/// Why reading a frame stopped.
#[derive(Debug, PartialEq)]
pub enum ReadError {
    /// Fatal error, drop connection and all started tasks.
    Fatal(String),
    /// Lost connection, drop all started tasks.
    ConnectionError(String),
}

/// `ReadError` as contracts see it.
pub enum ReadErrorView {
    Fatal(Seq<char>),
    ConnectionError(Seq<char>),
}

/// `ReadFlow` as contracts see it.
pub enum ReadFlowView {
    Complete,
    Incomplete,
    Error(ReadErrorView),
}

impl View for ReadError {
    type V = ReadErrorView;

    open spec fn view(&self) -> ReadErrorView {
        match *self {
            ReadError::Fatal(s) => ReadErrorView::Fatal(s@),
            ReadError::ConnectionError(s) => ReadErrorView::ConnectionError(s@),
        }
    }
}

impl View for ReadFlow {
    type V = ReadFlowView;

    open spec fn view(&self) -> ReadFlowView {
        match *self {
            ReadFlow::Complete => ReadFlowView::Complete,
            ReadFlow::Incomplete => ReadFlowView::Incomplete,
            ReadFlow::Error(e) => ReadFlowView::Error(e@),
        }
    }
}

/// Why a complete frame is no message.
#[derive(Debug, Clone, Copy, PartialEq, Eq, Structural)]
pub enum ParseError {
    Utf8(Utf8Error),
    UnknownContentType,
}

/// Why a message cannot be framed.
#[derive(Debug, Clone, Copy, PartialEq, Eq, Structural)]
pub enum EncodeError {
    TooLong,
}

impl ReadError {
    /// The error as a line of text.
    pub open spec fn response_text(self) -> Seq<char> {
        match self {
            ReadError::Fatal(s) => "Fatal protocol error: "@ + s@,
            ReadError::ConnectionError(s) => "Connection error: "@ + s@,
        }
    }

    /// The error as a line of text.
    pub fn response_string(&self) -> (text: String)
        ensures
            text@ == self.response_text(),
    {
        match self {
            ReadError::Fatal(s) => join2("Fatal protocol error: ", s.as_str()),
            ReadError::ConnectionError(s) => join2("Connection error: ", s.as_str()),
        }
    }

    /// The text that the error displays as.
    pub fn to_string(&self) -> (text: String)
        ensures
            text@ == self.response_text(),
    {
        self.response_string()
    }

    /// The kind of the error, in words.
    pub fn description(&self) -> (text: &'static str)
        ensures
            self is Fatal ==> text@ == "Protocol error"@,
            self is ConnectionError ==> text@ == "Connection error"@,
    {
        match self {
            ReadError::Fatal(_) => "Protocol error",
            ReadError::ConnectionError(_) => "Connection error",
        }
    }
}

impl ParseError {
    /// The error as debugging output names it.
    pub open spec fn debug_text(self) -> Seq<char> {
        match self {
            ParseError::Utf8(e) => "Utf8("@ + e.debug_text() + ")"@,
            ParseError::UnknownContentType => "UnknownContentType"@,
        }
    }

    /// The value as debugging output shows it.
    pub fn debug_string(&self) -> (text: String)
        ensures
            text@ == self.debug_text(),
    {
        match self {
            ParseError::Utf8(e) => {
                let inner = e.debug_string();
                join3("Utf8(", inner.as_str(), ")")
            },
            ParseError::UnknownContentType => "UnknownContentType".to_owned(),
        }
    }
}

impl RawMessage {
    /// A message of a type with a body.
    pub fn new(mtype: u8, body: RawMessageBody) -> (m: RawMessage)
        ensures
            m.mtype == mtype,
            m.body == body,
    {
        RawMessage { mtype: mtype, body: body }
    }
}

/// The bytes of the frame that carries a binary body under a type byte.
pub open spec fn frame(mtype: u8, body: Seq<u8>) -> Seq<u8> {
    seq![0u8, 0u8, mtype, BT_BINARY] + be_bytes(body.len(), 4) + body
}

/// A frame, ready to be written.
#[derive(Debug, PartialEq)]
pub struct Message {
    data: Vec<u8>,
}

impl View for Message {
    type V = Seq<u8>;

    closed spec fn view(&self) -> Seq<u8> {
        self.data@
    }
}

impl Message {
    /// Frames a message with a binary body. The other encodings are reserved.
    pub fn from_raw(raw_message: RawMessage) -> (r: Result<Message, EncodeError>)
        requires
            raw_message.body is Binary,
        ensures
            raw_message.body->Binary_0@.len() > BODY_SIZE_LIMIT ==> r == Err::<
                Message,
                EncodeError,
            >(EncodeError::TooLong),
            raw_message.body->Binary_0@.len() <= BODY_SIZE_LIMIT ==> (r matches Ok(m) && m@
                == frame(raw_message.mtype, raw_message.body->Binary_0@)),
    {
        match raw_message.body {
            RawMessageBody::Binary(v) => {
                if v.len() > BODY_SIZE_LIMIT {
                    return Err(EncodeError::TooLong);
                }
                let size: [u8; 4] = encode_u32(v.len() as u32);
                let mut data: Vec<u8> = vec![0u8, 0u8, raw_message.mtype, BT_BINARY];
                data.extend_from_slice(size.as_slice());
                data.extend_from_slice(v.as_slice());
                proof {
                    assert(data@ =~= frame(raw_message.mtype, v@));
                }
                Ok(Message { data: data })
            },
            RawMessageBody::Text(_) => Err(EncodeError::TooLong),
            RawMessageBody::JSON(_) => Err(EncodeError::TooLong),
        }
    }

    /// The frame's bytes.
    pub fn as_bytes(&self) -> (bytes: &Vec<u8>)
        ensures
            bytes@ == self@,
    {
        &self.data
    }
}

/// The body length that a received header announces.
pub open spec fn announced(accepted: Seq<u8>) -> nat
    recommends
        accepted.len() >= 8,
{
    be_value(accepted.subrange(4, 8))
}

/// Whether the header has come and announces a body within the limit.
pub open spec fn body_expected(accepted: Seq<u8>) -> bool {
    accepted.len() >= 8 && announced(accepted) <= BODY_SIZE_LIMIT
}

/// How many bytes a reader that has accepted `accepted` takes from the next read.
pub open spec fn wanted_after(accepted: Seq<u8>) -> nat {
    if accepted.len() < 8 {
        (8 - accepted.len()) as nat
    } else if body_expected(accepted) && accepted.len() <= 8 + announced(accepted) {
        (8 + announced(accepted) - accepted.len()) as nat
    } else {
        0
    }
}

/// Whether `accepted` is a header and exactly the body it announces.
pub open spec fn frame_complete(accepted: Seq<u8>) -> bool {
    body_expected(accepted) && accepted.len() == 8 + announced(accepted)
}

/// The part of a received chunk that a reader takes: no more than it wants.
pub open spec fn taken_from(accepted: Seq<u8>, chunk: Seq<u8>) -> Seq<u8> {
    if chunk.len() <= wanted_after(accepted) {
        chunk
    } else {
        chunk.take(wanted_after(accepted) as int)
    }
}

/// What a read reports once `taken` has been added to `before`.
pub open spec fn read_outcome(before: Seq<u8>, taken: Seq<u8>) -> ReadFlowView {
    let now = before + taken;
    if taken.len() == 0 {
        if frame_complete(now) {
            ReadFlowView::Complete
        } else {
            ReadFlowView::Error(ReadErrorView::ConnectionError("Peer closed connection"@))
        }
    } else if now.len() == 8 && announced(now) > BODY_SIZE_LIMIT {
        ReadFlowView::Error(
            ReadErrorView::Fatal(
                "message size ("@ + decimal_text(announced(now)) + ") exceed limit 16 MB"@,
            ),
        )
    } else if frame_complete(now) {
        ReadFlowView::Complete
    } else {
        ReadFlowView::Incomplete
    }
}

/// The message in a complete frame, or why there is none.
pub open spec fn message_of(accepted: Seq<u8>) -> Result<RawMessageView, ParseError>
    recommends
        frame_complete(accepted),
{
    if accepted[3] == BT_BINARY {
        Ok(
            RawMessageView {
                mtype: accepted[2],
                body: RawMessageBodyView::Binary(accepted.skip(8)),
            },
        )
    } else {
        Err(ParseError::UnknownContentType)
    }
}

/// Collects one frame from the pieces in which a stream delivers it.
#[derive(Debug)]
pub struct Reader {
    header: Vec<u8>,
    body: Vec<u8>,
}

impl View for Reader {
    type V = Seq<u8>;

    /// The bytes accepted so far.
    closed spec fn view(&self) -> Seq<u8> {
        self.header@ + self.body@
    }
}

impl Reader {
    #[verifier::type_invariant]
    spec fn within_frame(self) -> bool {
        &&& self.header@.len() <= 8
        &&& self.header@.len() < 8 ==> self.body@.len() == 0
        &&& self.header@.len() == 8 ==> self.body@.len() <= wanted_after(self.header@)
    }

    /// A reader that has accepted nothing.
    pub fn new() -> (reader: Reader)
        ensures
            reader@ == Seq::<u8>::empty(),
    {
        let reader = Reader { header: Vec::new(), body: Vec::new() };
        proof {
            assert(reader@ =~= Seq::<u8>::empty());
        }
        reader
    }

    /// The body length in a header that has come whole.
    fn announced_size(&self) -> (size: usize)
        requires
            self.header@.len() == 8,
        ensures
            size == announced(self@),
            size == announced(self.header@),
    {
        proof {
            assert(self@.subrange(4, 8) =~= self.header@.subrange(4, 8));
            assert(self.header@.subrange(4, 8).take(4) =~= self.header@.subrange(4, 8));
            lemma_be_bytes_of_value(self.header@.subrange(4, 8));
            lemma_be_limits();
        }
        match decode_u32(&self.header.as_slice()[4..8]) {
            Ok(size) => size as usize,
            Err(_) => 0,
        }
    }

    /// How many bytes the next read may bring.
    pub fn wanted(&self) -> (n: usize)
        ensures
            n == wanted_after(self@),
    {
        proof {
            use_type_invariant(self);
        }
        if self.header.len() < HEADER_SIZE {
            proof {
                assert(self@ =~= self.header@);
            }
            HEADER_SIZE - self.header.len()
        } else {
            let size: usize = self.announced_size();
            if size > BODY_SIZE_LIMIT {
                0
            } else {
                size - self.body.len()
            }
        }
    }

    /// Whether the header and all of the body it announces have come.
    pub fn is_complete(&self) -> (b: bool)
        ensures
            b == frame_complete(self@),
    {
        proof {
            use_type_invariant(self);
        }
        if self.header.len() < HEADER_SIZE {
            proof {
                assert(self@ =~= self.header@);
            }
            false
        } else {
            let size: usize = self.announced_size();
            size <= BODY_SIZE_LIMIT && self.body.len() == size
        }
    }

    /// Takes up what one read of the stream brought: the bytes, or the text of the stream's
    /// error. Of more bytes than the frame still wants, only those are taken.
    pub fn read(&mut self, received: Result<&[u8], String>) -> (flow: ReadFlow)
        ensures
            received matches Err(detail) ==> final(self)@ == old(self)@ && flow@
                == ReadFlowView::Error(
                ReadErrorView::ConnectionError("Reading from client: "@ + detail@),
            ),
            received matches Ok(chunk) ==> final(self)@ == old(self)@ + taken_from(
                old(self)@,
                chunk@,
            ) && flow@ == read_outcome(old(self)@, taken_from(old(self)@, chunk@)),
    {
        let chunk: &[u8] = match received {
            Ok(chunk) => chunk,
            Err(detail) => {
                return ReadFlow::Error(
                    ReadError::ConnectionError(join2("Reading from client: ", detail.as_str())),
                );
            },
        };
        proof {
            use_type_invariant(&*self);
        }
        let want: usize = self.wanted();
        let len: usize = if chunk.len() <= want {
            chunk.len()
        } else {
            want
        };
        let taken: &[u8] = &chunk[0..len];
        proof {
            assert(taken@ =~= taken_from(old(self)@, chunk@));
        }
        if self.header.len() < HEADER_SIZE {
            proof {
                assert(old(self)@ =~= old(self).header@);
            }
            let mut header: Vec<u8> = Vec::new();
            core::mem::swap(&mut self.header, &mut header);
            header.extend_from_slice(taken);
            proof {
                assert(header@ =~= old(self).header@ + taken@);
            }
            self.header = header;
            proof {
                assert(self@ =~= old(self)@ + taken@);
            }
        } else {
            let mut body: Vec<u8> = Vec::new();
            core::mem::swap(&mut self.body, &mut body);
            body.extend_from_slice(taken);
            proof {
                assert(body@ =~= old(self).body@ + taken@);
                assert(old(self)@.subrange(4, 8) =~= self.header@.subrange(4, 8));
            }
            self.body = body;
            proof {
                assert(self@ =~= old(self)@ + taken@);
                assert(self@.subrange(4, 8) =~= old(self)@.subrange(4, 8));
            }
        }
        if len == 0 {
            return if self.is_complete() {
                ReadFlow::Complete
            } else {
                ReadFlow::Error(ReadError::ConnectionError("Peer closed connection".to_owned()))
            };
        }
        if self.header.len() == HEADER_SIZE && self.body.len() == 0 {
            let size: usize = self.announced_size();
            if size > BODY_SIZE_LIMIT {
                let number = decimal(size as u64);
                return ReadFlow::Error(
                    ReadError::Fatal(
                        join3("message size (", number.as_str(), ") exceed limit 16 MB"),
                    ),
                );
            }
        }
        if self.is_complete() {
            ReadFlow::Complete
        } else {
            ReadFlow::Incomplete
        }
    }

    /// The message of a complete frame. Only the binary encoding is known.
    pub fn to_message(&self) -> (r: Result<RawMessage, ParseError>)
        requires
            frame_complete(self@),
        ensures
            r matches Ok(m) ==> message_of(self@) == Ok::<RawMessageView, ParseError>(m@),
            r matches Err(e) ==> message_of(self@) == Err::<RawMessageView, ParseError>(e),
    {
        proof {
            use_type_invariant(self);
            assert(self@.skip(8) =~= self.body@);
        }
        let mtype: u8 = self.header[2];
        let body_type: u8 = self.header[3];
        if body_type == BT_BINARY {
            Ok(RawMessage::new(mtype, RawMessageBody::Binary(self.body.clone())))
        } else {
            Err(ParseError::UnknownContentType)
        }
    }
}

/// A frame is its header and its body; a prefix that holds the header announces the
/// body's length.
pub proof fn lemma_frame_prefix(mtype: u8, body: Seq<u8>, k: nat)
    requires
        body.len() <= BODY_SIZE_LIMIT,
        8 <= k <= 8 + body.len(),
    ensures
        frame(mtype, body).len() == 8 + body.len(),
        announced(frame(mtype, body).take(k as int)) == body.len(),
{
    let size = be_bytes(body.len(), 4);
    let whole = frame(mtype, body);
    lemma_be_limits();
    lemma_be_bytes_len(body.len(), 4);
    lemma_be_value_of_bytes(body.len(), 4);
    assert(whole.take(k as int).subrange(4, 8) =~= size);
}

/// A frame that is read whole is complete and gives back the message it was made of.
pub proof fn lemma_frame_round_trip(mtype: u8, body: Seq<u8>)
    requires
        body.len() <= BODY_SIZE_LIMIT,
    ensures
        frame_complete(frame(mtype, body)),
        message_of(frame(mtype, body)) == Ok::<RawMessageView, ParseError>(
            RawMessageView { mtype: mtype, body: RawMessageBodyView::Binary(body) },
        ),
{
    let whole = frame(mtype, body);
    lemma_frame_prefix(mtype, body, 8 + body.len());
    assert(whole.take(whole.len() as int) =~= whole);
    assert(whole.skip(8) =~= body);
}

/// A reader that is fed a frame one byte at a time takes each byte, reports `Incomplete`
/// after every byte but the last, and `Complete` after the last.
pub proof fn lemma_frame_byte_by_byte(mtype: u8, body: Seq<u8>, k: nat)
    requires
        body.len() <= BODY_SIZE_LIMIT,
        k < frame(mtype, body).len(),
    ensures
        ({
            let whole = frame(mtype, body);
            let before = whole.take(k as int);
            let byte = seq![whole[k as int]];
            &&& taken_from(before, byte) == byte
            &&& before + byte == whole.take((k + 1) as int)
            &&& read_outcome(before, byte) == if k + 1 == whole.len() {
                ReadFlowView::Complete
            } else {
                ReadFlowView::Incomplete
            }
        }),
{
    let whole = frame(mtype, body);
    let before = whole.take(k as int);
    let byte = seq![whole[k as int]];
    lemma_frame_prefix(mtype, body, 8);
    assert(before + byte =~= whole.take((k + 1) as int));
    if k >= 8 {
        lemma_frame_prefix(mtype, body, k);
    }
    if k + 1 >= 8 {
        lemma_frame_prefix(mtype, body, k + 1);
    }
}

/// A header that announces more than the limit is a fatal error, whatever the pieces in
/// which it came.
pub proof fn lemma_oversized_body_is_fatal(before: Seq<u8>, taken: Seq<u8>)
    requires
        taken.len() > 0,
        (before + taken).len() == 8,
        announced(before + taken) > BODY_SIZE_LIMIT,
    ensures
        read_outcome(before, taken) == ReadFlowView::Error(
            ReadErrorView::Fatal(
                "message size ("@ + decimal_text(announced(before + taken))
                    + ") exceed limit 16 MB"@,
            ),
        ),
        wanted_after(before + taken) == 0,
        !frame_complete(before + taken),
{
}

} // verus!
