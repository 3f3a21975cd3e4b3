use blake2_rfc::blake2b::blake2b;
use irbisfs::client::config::{Config, Target};
use irbisfs::client::connection::Connection;
use irbisfs::connection::StreamSender;
use irbisfs::proto::auth::message::{CStart, SAuthOk};
use irbisfs::proto::content::actions::{
    arch_bits, copy_from, get_info, ContentAction, CopyFrom, TaskContainer,
};
use irbisfs::proto::content::client as client;
use irbisfs::proto::content::message::{
    CCopyFrom, CGetInfo, SCopyFrom, SCopyFromState, SError, SInfo, SReject, ServerMessage,
};
use irbisfs::proto::content::server as server;
use irbisfs::proto::content::state::{ContentState, CopyFrom as CopyState, GetInfo as InfoState};
use irbisfs::proto::content::task::{SimpleState, State, StateHandle, TaskHandle};
use irbisfs::protocol::message::{Message, RawMessage, RawMessageBody, ReadError, Reader};
use irbisfs::protocol::workflow::{Protocol, ProtocolVersion, Workflow, WorkflowError};
use irbisfs::server::connection::Connection as ServerConnection;
use irbisfs::server::database::Ingest;
use irbisfs::types::ContentId;

fn frames(messages: Vec<Option<Message>>) -> Vec<Vec<u8>> {
    messages.into_iter().map(|m| m.unwrap().as_bytes().clone()).collect()
}

fn frame_of(raw: RawMessage) -> Vec<u8> {
    Message::from_raw(raw).unwrap().as_bytes().clone()
}

fn read_frame(bytes: &[u8]) -> RawMessage {
    let mut reader = Reader::new();
    let mut at = 0;
    loop {
        let want = reader.wanted();
        match ServerConnection::read(&mut reader, Ok(&bytes[at..at + want])) {
            None => at += want,
            Some(result) => return result.unwrap(),
        }
    }
}

fn accepted_connection() -> ServerConnection {
    let mut connection = ServerConnection::new(0);
    let start = CStart::create(ProtocolVersion::new(1, 0, 0), 1, vec![]).encode();
    assert!(connection.run(Ok(start)));
    assert_eq!(frames(connection.take_outbound()), vec![frame_of(SAuthOk::create(0).encode())]);
    connection
}

fn digest_of(data: &[u8]) -> ContentId {
    ContentId::from_slice(blake2b(64, &[], data).as_bytes())
}

#[test]
fn simple_states() {
    assert!(SimpleState::Waiting.is_waiting());
    assert!(!SimpleState::Waiting.is_ready());
    assert!(!SimpleState::Waiting.is_error());
    assert!(SimpleState::Ready.is_ready());
    assert!(!SimpleState::Ready.is_waiting());
    assert!(SimpleState::Error.is_error());
    assert!(!SimpleState::Error.is_ready());
}

#[test]
fn new_handles() {
    let handle = TaskHandle::new(5);
    assert_eq!(handle.task_id, 5);
    assert!(!handle.finished);
    let state = StateHandle::new(6, InfoState::create());
    assert_eq!(state.task_id, 6);
    assert_eq!(state.state, SimpleState::Waiting);
    assert_eq!(state.task, InfoState::create());
    let task = TaskContainer::new(TaskHandle::new(7), ContentAction::GetInfo);
    assert_eq!(task.handle.task_id, 7);
    assert_eq!(task.action, ContentAction::GetInfo);
}

#[test]
fn get_info_happy_path() {
    let mut server = accepted_connection();
    let mut client = client::ContentInterface::new(client::ContentProtocol::new(Connection::new(), 0));

    let task = client.info().unwrap();
    assert_eq!(task.task_id, 0);
    let request = frames(client.protocol.take_outbound());
    assert_eq!(request, vec![frame_of(CGetInfo::create(0).encode())]);

    assert!(server.run(Ok(read_frame(&request[0]))));
    assert_eq!(server.take_started(), vec![0]);
    assert_eq!(server.task(0).unwrap().action, ContentAction::GetInfo);
    assert!(server.report_info(0, 4242, ("Linux", "6.1.0", "x86_64")));
    assert!(server.task(0).unwrap().handle.finished);
    let reply = frames(server.take_outbound());
    let bits = arch_bits();
    assert!(bits == 32 || bits == 64);
    assert_eq!(
        reply,
        vec![frame_of(SInfo::create(0, 4242, bits, "Linux 6.1.0 x86_64".to_owned()).encode())]
    );

    assert_eq!(client.protocol.awaited(0), Ok(()));
    assert_eq!(task.wait(&mut client.protocol, Ok(read_frame(&reply[0]))), Ok(true));
    match task.finish(&mut client.protocol) {
        Ok(ContentState::GetInfo(info)) => {
            let response = info.response.unwrap();
            assert_eq!(response.task_id, 0);
            assert_eq!(response.pid, 4242);
            assert_eq!(response.arch_bits, bits);
            assert_eq!(response.os.split(' ').count(), 3);
        },
        other => panic!("{:?}", other),
    }
    assert_eq!(client.protocol.state_of(0), None);
}

#[test]
fn copy_from_of_an_empty_file() {
    let mut server = accepted_connection();
    let request = CCopyFrom::create(0, "/tmp/empty".to_owned()).encode();
    assert!(server.run(Ok(request)));
    assert_eq!(server.take_started(), vec![0]);
    assert_eq!(
        server.task(0).unwrap().action,
        ContentAction::CopyFrom(CopyFrom { uri: "/tmp/empty".to_owned() })
    );
    let ingest = Ingest::new();
    let id = ingest.finish();
    assert_eq!(id, digest_of(b""));
    assert!(server.report_copy(0, Ok(id)));
    assert_eq!(
        frames(server.take_outbound()),
        vec![frame_of(SCopyFrom::create(0, SCopyFromState::Complete(digest_of(b""))).encode())]
    );
    assert!(!server.is_closed());
}

#[test]
fn copy_from_of_123() {
    let mut client = client::ContentInterface::new(client::ContentProtocol::new(Connection::new(), 0));
    let task = client.copy_from("/tmp/123").unwrap();
    assert_eq!(
        frames(client.protocol.take_outbound()),
        vec![frame_of(CCopyFrom::create(0, "/tmp/123".to_owned()).encode())]
    );
    let mut ingest = Ingest::new();
    ingest.feed(&[0x31, 0x32, 0x33]);
    let id = ingest.finish();
    assert_eq!(id, digest_of(b"123"));
    let reply = SCopyFrom::create(0, SCopyFromState::Complete(id)).encode();
    assert_eq!(client.protocol.wait(0, Ok(reply)), Ok(true));
    assert_eq!(client.protocol.state_of(0), Some(SimpleState::Ready));
    match task.finish(&mut client.protocol) {
        Ok(ContentState::CopyFrom(copy)) => {
            assert_eq!(copy.uri, "/tmp/123");
            assert_eq!(
                copy.result,
                Some(SCopyFrom { task_id: 0, state: SCopyFromState::Complete(digest_of(b"123")) })
            );
        },
        other => panic!("{:?}", other),
    }
}

#[test]
fn missing_source_is_an_error_for_the_task_alone() {
    let mut server = accepted_connection();
    assert!(server.run(Ok(CCopyFrom::create(0, "/nowhere".to_owned()).encode())));
    assert!(server.report_copy(0, Err("Os { code: 2, kind: NotFound }".to_owned())));
    assert_eq!(
        frames(server.take_outbound()),
        vec![frame_of(SError::create(0, "Os { code: 2, kind: NotFound }".to_owned()).encode())]
    );
    assert!(!server.is_closed());
    assert!(server.run(Ok(CGetInfo::create(1).encode())));
    assert_eq!(server.take_started(), vec![0, 1]);
}

#[test]
fn subprotocol_mismatch_ends_the_connection() {
    let mut connection = ServerConnection::new(0);
    let start = CStart::create(ProtocolVersion::new(1, 0, 0), 7, vec![]).encode();
    assert!(!connection.run(Ok(start)));
    assert!(connection.is_closed());
    assert!(connection.take_outbound().is_empty());
    let start = CStart::create(ProtocolVersion::new(1, 0, 0), 1, vec![]).encode();
    assert!(!connection.run(Ok(start)));
    assert!(connection.take_outbound().is_empty());
}

#[test]
fn duplicate_task_id_ends_the_connection() {
    let mut server = accepted_connection();
    assert!(server.run(Ok(CCopyFrom::create(5, "/a".to_owned()).encode())));
    assert!(!server.run(Ok(CCopyFrom::create(5, "/b".to_owned()).encode())));
    assert!(server.is_closed());
    assert!(server.take_outbound().is_empty());
}

#[test]
fn duplicate_task_id_is_a_protocol_error() {
    let mut protocol = server::ContentProtocol::new(StreamSender::new(), 3);
    assert_eq!(protocol.id(), 3);
    assert_eq!(protocol.flow(CGetInfo::create(9).encode()), Workflow::Continue);
    assert_eq!(
        protocol.flow(CCopyFrom::create(9, "/x".to_owned()).encode()),
        Workflow::Terminate(WorkflowError::ProtocolError("Duplicate task id 9".to_owned()))
    );
    assert_eq!(
        protocol.start_task(9, ContentAction::GetInfo),
        Err("Duplicate task id 9".to_owned())
    );
    assert_eq!(protocol.take_started(), vec![9]);
    assert_eq!(protocol.flow(CGetInfo::create(10).encode()), Workflow::Continue);
    assert_eq!(protocol.take_started(), vec![10]);
}

#[test]
fn server_content_protocol_rejects_what_does_not_parse() {
    let mut protocol = server::ContentProtocol::new(StreamSender::new(), 0);
    assert_eq!(
        protocol.flow(RawMessage::new(9, RawMessageBody::Binary(vec![]))),
        Workflow::Terminate(WorkflowError::Exception("UnknownCode".to_owned()))
    );
    assert_eq!(
        protocol.flow(RawMessage::new(1, RawMessageBody::Binary(vec![1]))),
        Workflow::Terminate(WorkflowError::Exception("ParseError(\"Overflow\")".to_owned()))
    );
    assert!(protocol.take_started().is_empty());
}

#[test]
fn server_forgets_finished_tasks_on_request() {
    let mut protocol = server::ContentProtocol::new(StreamSender::new(), 0);
    assert_eq!(protocol.start_task(1, ContentAction::GetInfo), Ok(()));
    assert_eq!(protocol.finish_task(1), Ok(()));
    assert_eq!(protocol.finish_task(1), Err("Absent task id 1".to_owned()));
    assert!(protocol.task(1).is_none());
    assert_eq!(protocol.report_info(1, 1, ("a", "b", "c")), Err("Absent task id 1".to_owned()));
    assert_eq!(
        protocol.report_copy(1, Err("x".to_owned())),
        Err("Absent task id 1".to_owned())
    );
    assert!(protocol.take_outbound().is_empty());
    assert_eq!(protocol.start_task(1, ContentAction::GetInfo), Ok(()));
}

#[test]
fn failed_read_ends_the_connection() {
    let mut connection = ServerConnection::new(4);
    assert_eq!(connection.id(), 4);
    assert!(!connection.run(Err(ReadError::ConnectionError("Peer closed connection".to_owned()))));
    assert!(connection.is_closed());
    let mut connection = accepted_connection();
    assert!(!connection.run(Err(ReadError::Fatal("Parse error: UnknownContentType".to_owned()))));
    assert!(connection.is_closed());
    assert!(!connection.report_info(0, 1, ("a", "b", "c")));
    assert!(connection.take_started().is_empty());
}

#[test]
fn workers_report_through_the_queue() {
    let mut tx = StreamSender::new();
    let mut task = TaskContainer::new(TaskHandle::new(2), ContentAction::GetInfo);
    get_info(&mut task, &mut tx, 77, ("FreeBSD", "14", "amd64"));
    assert!(task.handle.finished);
    let mut copy = TaskContainer::new(
        TaskHandle::new(3),
        ContentAction::CopyFrom(CopyFrom { uri: "/f".to_owned() }),
    );
    copy_from(&mut copy, &mut tx, Ok(digest_of(b"f")));
    assert!(copy.handle.finished);
    assert_eq!(
        frames(tx.take()),
        vec![
            frame_of(SInfo::create(2, 77, arch_bits(), "FreeBSD 14 amd64".to_owned()).encode()),
            frame_of(SCopyFrom::create(3, SCopyFromState::Complete(digest_of(b"f"))).encode()),
        ]
    );
}

#[test]
fn client_task_ids_count_up_from_zero() {
    let mut protocol = client::ContentProtocol::new(Connection::new(), 12);
    assert_eq!(protocol.client_id(), 12);
    assert_eq!(protocol.start_task(InfoState::create()), Ok(0));
    assert_eq!(protocol.start_task(CopyState::create("/a".to_owned())), Ok(1));
    assert!(protocol.finish_task(0).is_ok());
    assert_eq!(protocol.start_task(InfoState::create()), Ok(2));
    assert_eq!(
        frames(protocol.take_outbound()),
        vec![
            frame_of(CGetInfo::create(0).encode()),
            frame_of(CCopyFrom::create(1, "/a".to_owned()).encode()),
            frame_of(CGetInfo::create(2).encode()),
        ]
    );
    assert_eq!(protocol.send_message(CGetInfo::create(50)), Ok(()));
    let mut tx = StreamSender::new();
    assert_eq!(client::send_message(&mut tx, CGetInfo::create(51)), Ok(()));
    assert_eq!(frames(tx.take()), vec![frame_of(CGetInfo::create(51).encode())]);
}

#[test]
fn client_stays_waiting_on_progress() {
    let mut protocol = client::ContentProtocol::new(Connection::new(), 0);
    assert_eq!(protocol.start_task(CopyState::create("/a".to_owned())), Ok(0));
    let progress = SCopyFrom::create(0, SCopyFromState::Progress(40)).encode();
    assert_eq!(protocol.wait(0, Ok(progress)), Ok(false));
    assert_eq!(protocol.state_of(0), Some(SimpleState::Waiting));
    let done = SCopyFrom::create(0, SCopyFromState::Complete(digest_of(b"a"))).encode();
    assert_eq!(protocol.wait(0, Ok(done)), Ok(true));
    assert_eq!(protocol.state_of(0), Some(SimpleState::Ready));
}

#[test]
fn client_gives_up_on_server_error_and_reject() {
    let mut protocol = client::ContentProtocol::new(Connection::new(), 0);
    assert_eq!(protocol.start_task(InfoState::create()), Ok(0));
    assert_eq!(
        protocol.flow(SError::create(0, "disk".to_owned()).encode()),
        Workflow::Terminate(WorkflowError::ProtocolError(
            "Server error with message: disk".to_owned()
        ))
    );
    assert_eq!(
        protocol.read_one(Ok(SReject::create(0, "busy".to_owned()).encode())),
        Err(WorkflowError::ProtocolError(
            "Server rejected connection with message: busy".to_owned()
        ))
    );
    assert_eq!(protocol.state_of(0), Some(SimpleState::Waiting));
}

#[test]
fn client_gives_up_on_a_message_for_an_absent_task() {
    let mut protocol = client::ContentProtocol::new(Connection::new(), 0);
    let message = SInfo::create(3, 1, 64, "os".to_owned());
    let shown = format!("{:?}", message);
    assert_eq!(
        protocol.flow(message.encode()),
        Workflow::Terminate(WorkflowError::ProtocolError(format!(
            "Message for an absent task #3: {}",
            shown
        )))
    );
    assert_eq!(
        protocol.wait(3, Ok(SInfo::create(3, 1, 64, "os".to_owned()).encode())),
        Err(WorkflowError::Exception("Absent task id 3".to_owned()))
    );
    assert_eq!(protocol.awaited(3), Err(WorkflowError::Exception("Absent task id 3".to_owned())));
    assert_eq!(protocol.finish_task(3), Err("Absent task id 3".to_owned()));
}

#[test]
fn client_gives_up_on_a_message_of_the_wrong_kind() {
    let mut protocol = client::ContentProtocol::new(Connection::new(), 0);
    assert_eq!(protocol.start_task(InfoState::create()), Ok(0));
    assert_eq!(protocol.start_task(CopyState::create("/a".to_owned())), Ok(1));
    let progress = SCopyFrom::create(0, SCopyFromState::Progress(1));
    assert_eq!(
        protocol.flow(progress.encode()),
        Workflow::Terminate(WorkflowError::ProtocolError(
            "Client error while processing message: Unexpected message \
             CopyFrom(SCopyFrom { task_id: 0, state: Progress(1) }) \
             for task GetInfo { response: None }"
                .to_owned()
        ))
    );
    assert_eq!(protocol.state_of(0), Some(SimpleState::Error));
    let info = SInfo::create(1, 2, 32, "os".to_owned());
    assert_eq!(
        protocol.flow(info.encode()),
        Workflow::Terminate(WorkflowError::ProtocolError(
            "Client error while processing message: Unexpected message \
             Info(SInfo { task_id: 1, pid: 2, arch_bits: 32, os: \"os\" }) \
             for task CopyFrom { uri: \"/a\", result: None }"
                .to_owned()
        ))
    );
    assert_eq!(protocol.state_of(1), Some(SimpleState::Error));
}

#[test]
fn client_gives_up_on_a_lost_connection() {
    let mut protocol = client::ContentProtocol::new(Connection::new(), 0);
    assert_eq!(protocol.start_task(InfoState::create()), Ok(0));
    assert_eq!(
        protocol.read_one(Err(ReadError::ConnectionError("reset".to_owned()))),
        Err(WorkflowError::ConnectionError)
    );
    assert_eq!(
        protocol.wait(0, Err(ReadError::ConnectionError("reset".to_owned()))),
        Err(WorkflowError::ConnectionError)
    );
    assert_eq!(
        protocol.flow(RawMessage::new(0, RawMessageBody::Binary(vec![]))),
        Workflow::Terminate(WorkflowError::Exception("UnknownCode".to_owned()))
    );
}

#[test]
fn states_handle_messages() {
    let mut state = SimpleState::Waiting;
    let mut task = InfoState::create();
    let mut connection = Connection::new();
    State::start(&mut task, 8, &mut connection);
    assert_eq!(frames(connection.take_outbound()), vec![frame_of(CGetInfo::create(8).encode())]);
    let info = ServerMessage::Info(SInfo { task_id: 8, pid: 1, arch_bits: 64, os: "x".to_owned() });
    assert_eq!(State::handle_message(&mut task, &mut state, info), Ok(()));
    assert_eq!(state, SimpleState::Ready);
    match task {
        ContentState::GetInfo(info) => {
            assert_eq!(info.debug_string(), format!("{:?}", info));
        },
        _ => unreachable!(),
    }
    let copy = CopyState { uri: "a\"b".to_owned(), result: None };
    assert_eq!(copy.debug_string(), format!("{:?}", copy));
    let copy = CopyState {
        uri: "/a".to_owned(),
        result: Some(SCopyFrom { task_id: 1, state: SCopyFromState::Progress(3) }),
    };
    assert_eq!(copy.debug_string(), format!("{:?}", copy));
    let info = InfoState { response: None };
    assert_eq!(info.debug_string(), format!("{:?}", info));
}

#[test]
fn client_settings() {
    let config = Config::new(Target::Tcp("127.0.0.1".to_owned(), 1313));
    assert_eq!(config.tcp_keepalive, 0);
    assert_eq!(config.tcp_backlog, 511);
    assert_eq!(config.timeout, 0);
    assert_eq!(config.keepalive(), None);
    assert_eq!(config.stream_timeout(), None);
    let mut config = Config::default(Target::Unix("/run/ifsd.sock".to_owned()));
    config.tcp_keepalive = 9;
    config.timeout = 2;
    assert_eq!(config.keepalive(), Some(9));
    assert_eq!(config.stream_timeout(), Some(2));
    assert!(matches!(config.target, Target::Unix(_)));
}

#[test]
fn closed_connection_keeps_what_was_queued() {
    let mut server = accepted_connection();
    assert!(server.run(Ok(CGetInfo::create(0).encode())));
    assert!(server.report_info(0, 1, ("a", "b", "c")));
    assert!(!server.run(Ok(CGetInfo::create(0).encode())));
    assert!(server.is_closed());
    assert_eq!(
        frames(server.take_outbound()),
        vec![frame_of(SInfo::create(0, 1, arch_bits(), "a b c".to_owned()).encode())]
    );
    assert!(server.task(0).is_none());
}
