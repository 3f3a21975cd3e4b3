use irbisfs::client::connection::Connection;
use irbisfs::connection::{send_message, send_raw, StreamSender};
use irbisfs::proto::auth::client as client;
use irbisfs::proto::auth::message::{CStart, ClientMessage, SAuthOk, SError, SReject, ServerMessage};
use irbisfs::proto::auth::server as server;
use irbisfs::proto::protocol_version;
use irbisfs::protocol::message::{
    EncodeError, Message, RawMessage, RawMessageBody, ReadError, BODY_SIZE_LIMIT,
};
use irbisfs::protocol::workflow::{Protocol, ProtocolVersion, Workflow, WorkflowError};

fn frames(messages: Vec<Option<Message>>) -> Vec<Option<Vec<u8>>> {
    messages.into_iter().map(|m| m.map(|m| m.as_bytes().clone())).collect()
}

fn frame_of(raw: RawMessage) -> Vec<u8> {
    Message::from_raw(raw).unwrap().as_bytes().clone()
}

#[test]
fn queue_keeps_the_order_of_sends() {
    let mut tx = StreamSender::new();
    send_message(&mut tx, Some(Message::from_raw(SAuthOk::create(1).encode()).unwrap()));
    send_message(&mut tx, None);
    assert_eq!(send_raw(&mut tx, SAuthOk::create(2).encode()), Ok(()));
    let taken = frames(tx.take());
    assert_eq!(
        taken,
        vec![
            Some(frame_of(SAuthOk::create(1).encode())),
            None,
            Some(frame_of(SAuthOk::create(2).encode())),
        ]
    );
    assert!(tx.take().is_empty());
}

#[test]
fn message_too_long_for_a_frame_is_not_queued() {
    let mut tx = StreamSender::new();
    let long = "x".repeat(BODY_SIZE_LIMIT);
    assert_eq!(server::send_message(&mut tx, SError::create(long)), Err(()));
    assert!(tx.take().is_empty());
    assert_eq!(server::send_message(&mut tx, SError::create("short".to_owned())), Ok(()));
    assert_eq!(tx.take().len(), 1);
}

#[test]
fn server_accepts_a_start_for_the_content_operations() {
    let mut protocol = server::AuthProtocol::new(StreamSender::new(), 17);
    let start = CStart::create(ProtocolVersion::new(1, 0, 0), 1, vec![]).encode();
    assert_eq!(protocol.flow(start), Workflow::SwitchProtocol(0));
    assert_eq!(
        frames(protocol.take_outbound()),
        vec![Some(vec![0, 0, 1, 0, 0, 0, 0, 8, 0, 0, 0, 0, 0, 0, 0, 0])]
    );
    assert_eq!(protocol.id, 17);
}

#[test]
fn server_ends_the_connection_on_another_subprotocol() {
    let mut protocol = server::AuthProtocol::new(StreamSender::new(), 0);
    let start = CStart::create(ProtocolVersion::new(1, 0, 0), 7, vec![]).encode();
    assert_eq!(
        protocol.flow(start),
        Workflow::Terminate(WorkflowError::Exception("Wrong requested protocol: 7".to_owned()))
    );
    assert!(protocol.take_outbound().is_empty());
}

#[test]
fn server_takes_one_start_only() {
    let mut protocol = server::AuthProtocol::new(StreamSender::new(), 0);
    let start = CStart::create(ProtocolVersion::new(1, 0, 0), 1, vec![]);
    assert_eq!(protocol.flow(start.encode()), Workflow::SwitchProtocol(0));
    protocol.take_outbound();
    let again = CStart::create(ProtocolVersion::new(1, 0, 0), 1, vec![]);
    assert_eq!(
        protocol.flow(again.encode()),
        Workflow::Terminate(WorkflowError::Exception("Wrong message order".to_owned()))
    );
    assert!(protocol.take_outbound().is_empty());
}

#[test]
fn server_ends_the_connection_on_what_is_no_start() {
    let mut protocol = server::AuthProtocol::new(StreamSender::new(), 0);
    let raw = RawMessage::new(9, RawMessageBody::Binary(vec![]));
    assert_eq!(
        protocol.flow(raw),
        Workflow::Terminate(WorkflowError::Exception("UnknownCode".to_owned()))
    );
    let raw = RawMessage::new(0, RawMessageBody::Binary(vec![1, 2]));
    assert_eq!(
        protocol.flow(raw),
        Workflow::Terminate(WorkflowError::Exception("ParseError(\"Overflow\")".to_owned()))
    );
    assert!(protocol.take_outbound().is_empty());
    let start = CStart::create(ProtocolVersion::new(1, 0, 0), 1, vec![]).encode();
    assert_eq!(protocol.flow(start), Workflow::SwitchProtocol(0));
}

#[test]
fn client_opens_with_its_version() {
    assert_eq!(protocol_version(), ProtocolVersion::new(1, 0, 0));
    let mut protocol = client::AuthProtocol::new(Connection::new());
    assert!(protocol.start().is_ok());
    let mut connection = protocol.into_connection();
    assert_eq!(
        frames(connection.take_outbound()),
        vec![Some(vec![0, 0, 0, 0, 0, 0, 0, 8, 1, 0, 0, 0, 1, 0, 0, 0])]
    );
}

#[test]
fn client_takes_the_number_from_the_acceptance() {
    let mut protocol = client::AuthProtocol::new(Connection::new());
    assert_eq!(protocol.flow(SAuthOk::create(33).encode()), Workflow::SwitchProtocol(33));
    assert_eq!(protocol.auth(Ok(SAuthOk::create(0).encode())), Some(Ok(0)));
}

#[test]
fn client_gives_up_on_reject_and_error() {
    let mut protocol = client::AuthProtocol::new(Connection::new());
    assert_eq!(
        protocol.flow(SReject::create("full".to_owned()).encode()),
        Workflow::Terminate(WorkflowError::ProtocolError(
            "Server rejected connection with message: full".to_owned()
        ))
    );
    assert_eq!(
        protocol.flow(SError::create("oops".to_owned()).encode()),
        Workflow::Terminate(WorkflowError::ProtocolError(
            "Server error with message: oops".to_owned()
        ))
    );
    assert_eq!(
        protocol.auth(Ok(SError::create("oops".to_owned()).encode())),
        Some(Err(client::AuthError::WorkflowError(WorkflowError::ProtocolError(
            "Server error with message: oops".to_owned()
        ))))
    );
    assert_eq!(
        protocol.flow(RawMessage::new(77, RawMessageBody::Binary(vec![]))),
        Workflow::Terminate(WorkflowError::Exception("UnknownCode".to_owned()))
    );
}

#[test]
fn client_gives_up_on_a_failed_read() {
    let mut protocol = client::AuthProtocol::new(Connection::new());
    assert_eq!(
        protocol.auth(Err(ReadError::ConnectionError("Peer closed connection".to_owned()))),
        Some(Err(client::AuthError::ReadError(ReadError::ConnectionError(
            "Peer closed connection".to_owned()
        ))))
    );
}

#[test]
fn client_cannot_send_what_does_not_fit_a_frame() {
    let mut protocol = client::AuthProtocol::new(Connection::new());
    let start = CStart::create(ProtocolVersion::new(1, 0, 0), 1, vec![]);
    assert_eq!(protocol.send_message(start), Ok(()));
    let mut connection = Connection::new();
    let raw = RawMessage::new(1, RawMessageBody::Binary(vec![0; BODY_SIZE_LIMIT + 1]));
    assert_eq!(connection.send_raw(raw), Err(()));
    assert!(connection.take_outbound().is_empty());
    assert_eq!(EncodeError::TooLong, EncodeError::TooLong);
    let parsed = ClientMessage::parse(CStart::create(ProtocolVersion::new(1, 0, 0), 1, vec![]).encode());
    assert!(parsed.is_ok());
    assert!(ServerMessage::parse(SAuthOk::create(1).encode()).is_ok());
}

#[test]
fn only_binary_bodies_are_sent() {
    let mut tx = StreamSender::new();
    assert_eq!(send_raw(&mut tx, RawMessage::new(1, RawMessageBody::Text("x".to_owned()))), Err(()));
    assert_eq!(send_raw(&mut tx, RawMessage::new(1, RawMessageBody::JSON("1".to_owned()))), Err(()));
    assert!(tx.take().is_empty());
    assert_eq!(send_raw(&mut tx, RawMessage::new(1, RawMessageBody::Binary(vec![]))), Ok(()));
    assert_eq!(frames(tx.take()), vec![Some(vec![0, 0, 1, 0, 0, 0, 0, 0])]);
}

#[test]
fn accepted_client_opens_the_content_operations() {
    let mut protocol = client::AuthProtocol::new(Connection::new());
    let outcome = protocol.auth(Ok(SAuthOk::create(21).encode())).unwrap();
    let mut interface = Connection::connect(protocol, outcome).unwrap();
    assert_eq!(interface.protocol.client_id(), 21);
    assert_eq!(interface.info().unwrap().task_id, 0);
    let mut protocol = client::AuthProtocol::new(Connection::new());
    let outcome = protocol.auth(Ok(SReject::create("no".to_owned()).encode())).unwrap();
    assert!(outcome.is_err());
    assert!(Connection::connect(protocol, outcome).is_err());
}
