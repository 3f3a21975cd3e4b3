use irbisfs::connection::read_step;
use irbisfs::protocol::message::{
    EncodeError, Message, ParseError, RawMessage, RawMessageBody, ReadError, ReadFlow, Reader,
    BODY_SIZE_LIMIT, HEADER_SIZE,
};
use irbisfs::protocol::serde::Utf8Error;

fn frame_of(mtype: u8, body: &[u8]) -> Vec<u8> {
    let raw = RawMessage::new(mtype, RawMessageBody::Binary(body.to_vec()));
    Message::from_raw(raw).unwrap().as_bytes().clone()
}

#[test]
fn frame_layout() {
    assert_eq!(frame_of(7, &[1, 2, 3]), vec![0, 0, 7, 0, 0, 0, 0, 3, 1, 2, 3]);
    assert_eq!(frame_of(255, &[]), vec![0, 0, 255, 0, 0, 0, 0, 0]);
    assert_eq!(frame_of(1, &[9; 300])[..8], [0, 0, 1, 0, 0, 0, 1, 44]);
}

#[test]
fn body_over_the_limit_cannot_be_framed() {
    let raw = RawMessage::new(1, RawMessageBody::Binary(vec![0; BODY_SIZE_LIMIT + 1]));
    assert_eq!(Message::from_raw(raw), Err(EncodeError::TooLong));
    let raw = RawMessage::new(1, RawMessageBody::Binary(vec![0; BODY_SIZE_LIMIT]));
    assert_eq!(Message::from_raw(raw).unwrap().as_bytes().len(), BODY_SIZE_LIMIT + 8);
}

#[test]
fn reader_is_complete_exactly_after_the_last_byte() {
    let frame = frame_of(2, b"hello");
    let mut reader = Reader::new();
    for (i, byte) in frame.iter().enumerate() {
        assert!(!reader.is_complete());
        assert!(reader.wanted() >= 1);
        let flow = reader.read(Ok(&[*byte]));
        if i + 1 == frame.len() {
            assert_eq!(flow, ReadFlow::Complete);
        } else {
            assert_eq!(flow, ReadFlow::Incomplete);
        }
    }
    assert!(reader.is_complete());
    assert_eq!(reader.wanted(), 0);
    assert_eq!(
        reader.to_message(),
        Ok(RawMessage::new(2, RawMessageBody::Binary(b"hello".to_vec())))
    );
}

#[test]
fn reader_wants_the_header_then_the_body() {
    let frame = frame_of(2, &[5; 10]);
    let mut reader = Reader::new();
    assert_eq!(reader.wanted(), HEADER_SIZE);
    assert_eq!(reader.read(Ok(&frame[..3])), ReadFlow::Incomplete);
    assert_eq!(reader.wanted(), 5);
    assert_eq!(reader.read(Ok(&frame[3..8])), ReadFlow::Incomplete);
    assert_eq!(reader.wanted(), 10);
    assert_eq!(reader.read(Ok(&frame[8..])), ReadFlow::Complete);
}

#[test]
fn empty_body_completes_with_the_header() {
    let frame = frame_of(9, &[]);
    let mut reader = Reader::new();
    assert_eq!(reader.read(Ok(&frame[..7])), ReadFlow::Incomplete);
    assert_eq!(reader.read(Ok(&frame[7..])), ReadFlow::Complete);
    assert_eq!(reader.to_message(), Ok(RawMessage::new(9, RawMessageBody::Binary(vec![]))));
}

#[test]
fn reader_takes_no_more_than_it_wants() {
    let mut bytes = frame_of(1, &[4, 5]);
    bytes.extend_from_slice(&[0, 0, 1]);
    let mut reader = Reader::new();
    assert_eq!(reader.read(Ok(&bytes)), ReadFlow::Incomplete);
    assert_eq!(reader.wanted(), 2);
    assert_eq!(reader.read(Ok(&bytes[8..])), ReadFlow::Complete);
    assert_eq!(reader.to_message(), Ok(RawMessage::new(1, RawMessageBody::Binary(vec![4, 5]))));
}

#[test]
fn oversized_body_is_fatal() {
    let mut reader = Reader::new();
    let flow = reader.read(Ok(&[0, 0, 1, 0, 0x01, 0x00, 0x00, 0x01]));
    assert_eq!(
        flow,
        ReadFlow::Error(ReadError::Fatal("message size (16777217) exceed limit 16 MB".to_owned()))
    );
    assert!(!reader.is_complete());
}

#[test]
fn body_of_exactly_the_limit_is_accepted() {
    let mut reader = Reader::new();
    assert_eq!(reader.read(Ok(&[0, 0, 1, 0, 0x01, 0x00, 0x00, 0x00])), ReadFlow::Incomplete);
    assert_eq!(reader.wanted(), BODY_SIZE_LIMIT);
}

#[test]
fn zero_byte_read_before_completion_is_a_connection_error() {
    let mut reader = Reader::new();
    assert_eq!(
        reader.read(Ok(&[])),
        ReadFlow::Error(ReadError::ConnectionError("Peer closed connection".to_owned()))
    );
    assert_eq!(reader.read(Ok(&[0, 0, 1])), ReadFlow::Incomplete);
    assert_eq!(
        reader.read(Ok(&[])),
        ReadFlow::Error(ReadError::ConnectionError("Peer closed connection".to_owned()))
    );
}

#[test]
fn failed_read_is_a_connection_error() {
    let mut reader = Reader::new();
    assert_eq!(
        reader.read(Err("Kind(TimedOut)".to_owned())),
        ReadFlow::Error(ReadError::ConnectionError(
            "Reading from client: Kind(TimedOut)".to_owned()
        ))
    );
    assert_eq!(reader.wanted(), HEADER_SIZE);
}

#[test]
fn only_the_binary_encoding_is_known() {
    for encoding in [1u8, 2, 3, 255] {
        let mut reader = Reader::new();
        assert_eq!(reader.read(Ok(&[0, 0, 5, encoding, 0, 0, 0, 1])), ReadFlow::Incomplete);
        assert_eq!(reader.read(Ok(&[b'x'])), ReadFlow::Complete);
        assert_eq!(reader.to_message(), Err(ParseError::UnknownContentType));
    }
}

#[test]
fn read_step_reports_message_or_error() {
    let frame = frame_of(3, &[1]);
    let mut reader = Reader::new();
    assert_eq!(read_step(&mut reader, Ok(&frame[..8])), None);
    assert_eq!(
        read_step(&mut reader, Ok(&frame[8..])),
        Some(Ok(RawMessage::new(3, RawMessageBody::Binary(vec![1]))))
    );
    let mut reader = Reader::new();
    assert_eq!(
        read_step(&mut reader, Ok(&[0, 0, 3, 1, 0, 0, 0, 0])),
        Some(Err(ReadError::Fatal("Parse error: UnknownContentType".to_owned())))
    );
    let mut reader = Reader::new();
    assert_eq!(
        read_step(&mut reader, Err("gone".to_owned())),
        Some(Err(ReadError::ConnectionError("Reading from client: gone".to_owned())))
    );
}

#[test]
fn read_errors_as_text() {
    let fatal = ReadError::Fatal("too big".to_owned());
    assert_eq!(fatal.response_string(), "Fatal protocol error: too big");
    assert_eq!(fatal.to_string(), "Fatal protocol error: too big");
    assert_eq!(fatal.description(), "Protocol error");
    let lost = ReadError::ConnectionError("reset".to_owned());
    assert_eq!(lost.response_string(), "Connection error: reset");
    assert_eq!(lost.description(), "Connection error");
}

#[test]
fn frame_parse_errors_have_names() {
    assert_eq!(ParseError::UnknownContentType.debug_string(), "UnknownContentType");
    let error = ParseError::Utf8(Utf8Error { valid_up_to: 3, error_len: Some(1) });
    assert_eq!(error.debug_string(), format!("{:?}", error));
}
