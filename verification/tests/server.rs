use moq_transport::setup::{self, Role, Version};
use moq_transport_quiche::control::Control;
use moq_transport_quiche::object::Objects;
use moq_transport_quiche::server::{
    bytes_equal, next_action, ConnectionTable, PollAction, ServerEvent, Setup,
};

#[test]
fn bytes_equal_compares_contents() {
    assert!(bytes_equal(&[1, 2, 3], &[1, 2, 3]));
    assert!(!bytes_equal(&[1, 2, 3], &[1, 2, 4]));
    assert!(!bytes_equal(&[1, 2], &[1, 2, 3]));
    assert!(bytes_equal(&[], &[]));
}

#[test]
fn new_connection_is_registered_once() {
    let mut table: ConnectionTable<u32> = ConnectionTable::new();
    assert_eq!(table.len(), 0);
    assert!(table.register(vec![1, 2, 3], 10));
    assert!(!table.register(vec![1, 2, 3], 11));
    assert_eq!(table.len(), 1);
    assert_eq!(table.get(&[1, 2, 3]), Some(&10));
}

#[test]
fn connections_are_kept_apart() {
    let mut table: ConnectionTable<&str> = ConnectionTable::new();
    assert!(table.register(vec![1], "a"));
    assert!(table.register(vec![1, 0], "b"));
    table.insert(vec![], "c");
    assert_eq!(table.len(), 3);
    assert_eq!(table.get(&[1]), Some(&"a"));
    assert_eq!(table.get(&[1, 0]), Some(&"b"));
    assert_eq!(table.get(&[]), Some(&"c"));
    assert_eq!(table.get(&[0]), None);
    assert!(table.contains(&[1, 0]));
    assert!(!table.contains(&[2]));
}

#[test]
fn events_decide_the_polling() {
    assert_eq!(next_action(ServerEvent::NewSession(4)), PollAction::AnnounceSession(4));
    assert_eq!(next_action(ServerEvent::StreamData(4, 8)), PollAction::Continue);
    assert_eq!(next_action(ServerEvent::Done), PollAction::Stop);
    assert_eq!(next_action(ServerEvent::GoAway), PollAction::Stop);
    assert_eq!(next_action(ServerEvent::Error), PollAction::Abort);
}

fn pending_setup() -> Setup<u8, u8, (), u8> {
    let client = setup::Client {
        versions: [Version::DRAFT_03].into(),
        role: Role::Subscriber,
        params: Default::default(),
    };
    Setup::new(client, Control::new(1, 2), Objects::new(()))
}

#[test]
fn setup_reports_client_setup() {
    let pending = pending_setup();
    assert_eq!(pending.setup().role, Role::Subscriber);
    pending.reject();
}

#[test]
fn accepted_session_keeps_its_streams_and_reply() {
    let reply = setup::Server { version: Version::DRAFT_03, role: Role::Publisher, params: Default::default() };
    let session = pending_setup().accept(&reply).unwrap();
    let (mut control, mut objects) = session.split();
    assert_eq!(
        control.sender_mut().pending(),
        &[0x40, 0x41, 0xC0, 0x00, 0x00, 0x00, 0xFF, 0x00, 0x00, 0x03, 0x01, 0x00, 0x01, 0x01]
    );
    assert_eq!(*control.sender_mut().stream_mut(), 1);
    assert_eq!(*control.recver_mut().stream_mut(), 2);
    assert!(objects.recv_mut().needs_stream());
}

#[test]
fn unencodable_reply_refuses_the_session() {
    let reply = setup::Server { version: Version(1u64 << 62), role: Role::Publisher, params: Default::default() };
    assert!(pending_setup().accept(&reply).is_err());
}
