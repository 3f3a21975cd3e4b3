use irbisfs::proto::auth::message as auth;
use irbisfs::proto::content::message as content;
use irbisfs::protocol::message::{RawMessage, RawMessageBody};
use irbisfs::protocol::serde::{Encode, Parse, Parser, ParserError};
use irbisfs::protocol::workflow::ProtocolVersion;
use irbisfs::types::ContentId;

fn binary(mtype: u8, body: &[u8]) -> RawMessage {
    RawMessage::new(mtype, RawMessageBody::Binary(body.to_vec()))
}

fn sample_id() -> ContentId {
    let bytes: Vec<u8> = (0..64u8).collect();
    ContentId::from_slice(&bytes)
}

#[test]
fn start_on_the_wire() {
    let start = auth::CStart::create(ProtocolVersion::new(1, 2, 0x0304), 1, vec![]);
    assert_eq!(start.encode(), binary(0, &[1, 2, 3, 4, 1, 0, 0, 0]));
}

#[test]
fn handshake_client_messages_come_back() {
    let raw = auth::CStart::create(ProtocolVersion::new(1, 0, 0), 1, vec![]).encode();
    assert_eq!(
        auth::ClientMessage::parse(raw),
        Ok(auth::CStart::create(ProtocolVersion::new(1, 0, 0), 1, vec![]))
    );
    let raw = auth::CStart::create(ProtocolVersion::new(255, 254, 65535), 7, vec![]).encode();
    assert_eq!(
        auth::ClientMessage::parse(raw),
        Ok(auth::CStart::create(ProtocolVersion::new(255, 254, 65535), 7, vec![]))
    );
}

#[test]
fn start_arguments_are_not_sent() {
    let raw = auth::CStart::create(ProtocolVersion::new(1, 0, 0), 1, vec![9, 9]).encode();
    assert_eq!(raw, binary(0, &[1, 0, 0, 0, 1, 0, 0, 0]));
    assert_eq!(
        auth::ClientMessage::parse(raw),
        Ok(auth::CStart::create(ProtocolVersion::new(1, 0, 0), 1, vec![]))
    );
}

#[test]
fn handshake_server_messages_come_back() {
    for id in [0usize, 1, 0x0102_0304, usize::MAX] {
        let raw = auth::SAuthOk::create(id).encode();
        assert_eq!(raw.mtype, 1);
        assert_eq!(auth::ServerMessage::parse(raw), Ok(auth::SAuthOk::create(id)));
    }
    for text in ["", "no", "nicht erw\u{fc}nscht"] {
        let raw = auth::SReject::create(text.to_owned()).encode();
        assert_eq!(raw.mtype, 254);
        assert_eq!(auth::ServerMessage::parse(raw), Ok(auth::SReject::create(text.to_owned())));
        let raw = auth::SError::create(text.to_owned()).encode();
        assert_eq!(raw.mtype, 255);
        assert_eq!(auth::ServerMessage::parse(raw), Ok(auth::SError::create(text.to_owned())));
    }
}

#[test]
fn auth_ok_on_the_wire() {
    assert_eq!(auth::SAuthOk::create(5).encode(), binary(1, &[0, 0, 0, 0, 0, 0, 0, 5]));
    assert_eq!(
        auth::SReject::create("no".to_owned()).encode(),
        binary(254, &[2, b'n', b'o'])
    );
}

#[test]
fn handshake_parse_errors() {
    assert_eq!(auth::ClientMessage::parse(binary(1, &[])), Err(auth::ParseError::UnknownCode));
    assert_eq!(auth::ServerMessage::parse(binary(0, &[])), Err(auth::ParseError::UnknownCode));
    assert_eq!(auth::ServerMessage::parse(binary(2, &[])), Err(auth::ParseError::UnknownCode));
    assert_eq!(
        auth::ClientMessage::parse(RawMessage::new(0, RawMessageBody::Text("x".to_owned()))),
        Err(auth::ParseError::BadProtocol)
    );
    assert_eq!(
        auth::ServerMessage::parse(RawMessage::new(1, RawMessageBody::JSON("{}".to_owned()))),
        Err(auth::ParseError::BadProtocol)
    );
    assert_eq!(
        auth::ClientMessage::parse(binary(0, &[1, 0, 0, 0, 1, 0, 0])),
        Err(auth::ParseError::ParseError("Overflow".to_owned()))
    );
    assert_eq!(
        auth::ClientMessage::parse(binary(0, &[1, 0, 0, 0, 1, 0, 0, 0, 0])),
        Err(auth::ParseError::ParseError("Incomplete".to_owned()))
    );
    assert_eq!(
        auth::ServerMessage::parse(binary(1, &[0, 0, 0, 0, 0, 0, 0])),
        Err(auth::ParseError::ParseError("Overflow".to_owned()))
    );
    assert_eq!(
        auth::ServerMessage::parse(binary(254, &[1, 0xff])),
        Err(auth::ParseError::ParseError(
            "Utf8Error(Utf8Error { valid_up_to: 0, error_len: Some(1) })".to_owned()
        ))
    );
    assert_eq!(
        auth::ServerMessage::parse(binary(255, &[1, b'a', b'b'])),
        Err(auth::ParseError::ParseError("Incomplete".to_owned()))
    );
}

#[test]
fn handshake_parse_errors_have_names() {
    for error in [
        auth::ParseError::UnknownCode,
        auth::ParseError::BadProtocol,
        auth::ParseError::ParseError("Over\"flow".to_owned()),
    ] {
        assert_eq!(error.debug_string(), format!("{:?}", error));
    }
    assert_eq!(auth::ParseError::of(ParserError::Overflow), auth::ParseError::ParseError("Overflow".to_owned()));
}

#[test]
fn content_client_messages_come_back() {
    for task_id in [0u64, 1, u64::MAX] {
        let raw = content::CGetInfo::create(task_id).encode();
        assert_eq!(raw.mtype, 1);
        assert_eq!(content::ClientMessage::parse(raw), Ok(content::CGetInfo::create(task_id)));
        for uri in ["", "/tmp/file", "/srv/\u{444}\u{430}\u{439}\u{43b}"] {
            let raw = content::CCopyFrom::create(task_id, uri.to_owned()).encode();
            assert_eq!(raw.mtype, 2);
            assert_eq!(
                content::ClientMessage::parse(raw),
                Ok(content::CCopyFrom::create(task_id, uri.to_owned()))
            );
        }
    }
}

#[test]
fn copy_from_request_on_the_wire() {
    assert_eq!(
        content::CCopyFrom::create(3, "/a".to_owned()).encode(),
        binary(2, &[0, 0, 0, 0, 0, 0, 0, 3, 2, b'/', b'a'])
    );
    assert_eq!(content::CGetInfo::create(0x0100).encode(), binary(1, &[0, 0, 0, 0, 0, 0, 1, 0]));
}

#[test]
fn content_server_messages_come_back() {
    let raw = content::SInfo::create(4, 4321, 64, "Linux 6.1 x86_64".to_owned()).encode();
    assert_eq!(raw.mtype, 1);
    assert_eq!(
        content::ServerMessage::parse(raw),
        Ok(content::SInfo::create(4, 4321, 64, "Linux 6.1 x86_64".to_owned()))
    );
    let raw = content::SCopyFrom::create(5, content::SCopyFromState::Progress(42)).encode();
    assert_eq!(raw.mtype, 2);
    assert_eq!(
        content::ServerMessage::parse(raw),
        Ok(content::SCopyFrom::create(5, content::SCopyFromState::Progress(42)))
    );
    let raw = content::SCopyFrom::create(6, content::SCopyFromState::Complete(sample_id())).encode();
    assert_eq!(
        content::ServerMessage::parse(raw),
        Ok(content::SCopyFrom::create(6, content::SCopyFromState::Complete(sample_id())))
    );
    let raw = content::SReject::create(7, "busy".to_owned()).encode();
    assert_eq!(raw.mtype, 254);
    assert_eq!(
        content::ServerMessage::parse(raw),
        Ok(content::SReject::create(7, "busy".to_owned()))
    );
    let raw = content::SError::create(8, "No such file".to_owned()).encode();
    assert_eq!(raw.mtype, 255);
    assert_eq!(
        content::ServerMessage::parse(raw),
        Ok(content::SError::create(8, "No such file".to_owned()))
    );
}

#[test]
fn info_on_the_wire() {
    assert_eq!(
        content::SInfo::create(1, 0x0102, 64, "os".to_owned()).encode(),
        binary(1, &[0, 0, 0, 0, 0, 0, 0, 1, 0, 0, 1, 2, 0, 64, 2, b'o', b's'])
    );
}

#[test]
fn copy_state_on_the_wire() {
    assert_eq!(content::SCopyFromState::Progress(50).encode(), vec![1, 50]);
    let wire = content::SCopyFromState::Complete(sample_id()).encode();
    assert_eq!(wire.len(), 65);
    assert_eq!(wire[0], 0);
    assert_eq!(&wire[1..], sample_id().as_bytes());
    assert_eq!(sample_id().encode(), sample_id().as_bytes().to_vec());
}

#[test]
fn copy_state_with_an_unknown_tag() {
    let mut parser = Parser::new(vec![2, 0]);
    assert_eq!(content::SCopyFromState::parse_from(&mut parser), Err(ParserError::UnknownTag(2)));
    assert_eq!(parser.rest(), &[2, 0]);
    assert_eq!(
        content::ServerMessage::parse(binary(2, &[0, 0, 0, 0, 0, 0, 0, 1, 9, 0])),
        Err(content::ParseError::ParseError("UnknownTag(9)".to_owned()))
    );
}

#[test]
fn copy_state_cut_short() {
    let mut parser = Parser::new(vec![0, 1, 2, 3]);
    assert_eq!(content::SCopyFromState::parse_from(&mut parser), Err(ParserError::Overflow));
    assert_eq!(parser.rest().len(), 4);
    let mut parser = Parser::new(vec![1]);
    assert_eq!(content::SCopyFromState::parse_from(&mut parser), Err(ParserError::Overflow));
    assert_eq!(parser.rest().len(), 1);
    let mut parser = Parser::new(vec![]);
    assert_eq!(ContentId::parse_from(&mut parser), Err(ParserError::Overflow));
}

#[test]
fn content_parse_errors() {
    assert_eq!(content::ClientMessage::parse(binary(0, &[])), Err(content::ParseError::UnknownCode));
    assert_eq!(content::ClientMessage::parse(binary(3, &[])), Err(content::ParseError::UnknownCode));
    assert_eq!(content::ServerMessage::parse(binary(3, &[])), Err(content::ParseError::UnknownCode));
    assert_eq!(
        content::ClientMessage::parse(RawMessage::new(1, RawMessageBody::Text(String::new()))),
        Err(content::ParseError::BadProtocol)
    );
    assert_eq!(
        content::ServerMessage::parse(RawMessage::new(255, RawMessageBody::JSON(String::new()))),
        Err(content::ParseError::BadProtocol)
    );
    assert_eq!(
        content::ClientMessage::parse(binary(1, &[0, 0, 0])),
        Err(content::ParseError::ParseError("Overflow".to_owned()))
    );
    assert_eq!(
        content::ClientMessage::parse(binary(1, &[0, 0, 0, 0, 0, 0, 0, 0, 0])),
        Err(content::ParseError::ParseError("Incomplete".to_owned()))
    );
    assert_eq!(
        content::ClientMessage::parse(binary(2, &[0, 0, 0, 0, 0, 0, 0, 0, 2, 0xc3, 0x28])),
        Err(content::ParseError::ParseError(
            "Utf8Error(Utf8Error { valid_up_to: 0, error_len: Some(1) })".to_owned()
        ))
    );
    assert_eq!(
        content::ServerMessage::parse(binary(1, &[0, 0, 0, 0, 0, 0, 0, 1, 0, 0, 0, 1, 0])),
        Err(content::ParseError::ParseError("Overflow".to_owned()))
    );
}

#[test]
fn task_id_of_each_message() {
    assert_eq!(content::SInfo::create(1, 2, 3, String::new()).get_task_id(), 1);
    assert_eq!(
        content::SCopyFrom::create(2, content::SCopyFromState::Progress(0)).get_task_id(),
        2
    );
    assert_eq!(content::SReject::create(3, String::new()).get_task_id(), 3);
    assert_eq!(content::SError::create(4, String::new()).get_task_id(), 4);
    assert_eq!(content::CGetInfo::create(5).get_task_id(), 5);
    assert_eq!(content::CCopyFrom::create(6, String::new()).get_task_id(), 6);
}

#[test]
fn server_messages_as_debugging_output() {
    for message in [
        content::SInfo::create(1, 22, 64, "Linux \"x\"".to_owned()),
        content::SCopyFrom::create(2, content::SCopyFromState::Progress(17)),
        content::SReject::create(3, "no\n".to_owned()),
        content::SError::create(4, "failed".to_owned()),
    ] {
        assert_eq!(message.debug_string(), format!("{:?}", message));
    }
    let complete = content::SCopyFrom::create(9, content::SCopyFromState::Complete(sample_id()));
    assert_eq!(
        complete.debug_string(),
        format!(
            "CopyFrom(SCopyFrom {{ task_id: 9, state: Complete(ContentId ({})) }})",
            sample_id().to_string()
        )
    );
}

#[test]
fn content_parse_errors_have_names() {
    for error in [
        content::ParseError::UnknownCode,
        content::ParseError::BadProtocol,
        content::ParseError::ParseError("a\\b".to_owned()),
    ] {
        assert_eq!(error.debug_string(), format!("{:?}", error));
    }
}
