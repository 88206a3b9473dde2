use bytes::BytesMut;
use moq_transport::coding::Encode;
use moq_transport::message::{GoAway, Message, Unsubscribe};
use moq_transport::setup::{self, Role, Version};
use moq_transport_quiche::codec::DecodeFailure;
use moq_transport_quiche::control::{Control, ControlRecv, ControlSend, SetupError, SetupStep};
use moq_transport_quiche::framing::RecvStep;

fn go_away(url: &str) -> Message {
    Message::GoAway(GoAway { url: url.to_string() })
}

fn encoded(msg: &Message) -> Vec<u8> {
    let mut out = BytesMut::new();
    msg.encode(&mut out).unwrap();
    out.to_vec()
}

fn client_setup() -> setup::Client {
    setup::Client {
        versions: [Version::DRAFT_03].into(),
        role: Role::Both,
        params: Default::default(),
    }
}

#[test]
fn go_away_wire_bytes() {
    assert_eq!(encoded(&go_away("abc")), vec![0x10, 0x03, b'a', b'b', b'c']);
}

#[test]
fn whole_message_is_taken_off_the_buffer() {
    let mut recv = ControlRecv::new(0u8);
    recv.receive(&encoded(&go_away("abc")));
    match recv.poll_message() {
        RecvStep::Ready(Message::GoAway(g)) => assert_eq!(g.url, "abc"),
        _ => panic!("expected a GOAWAY"),
    }
    assert!(recv.buffered().is_empty());
}

#[test]
fn partial_message_asks_for_more_and_keeps_bytes() {
    let bytes = encoded(&go_away("hello"));
    let mut recv = ControlRecv::new(0u8);
    recv.receive(&bytes[..3]);
    assert!(matches!(recv.poll_message(), RecvStep::NeedData));
    assert_eq!(recv.buffered(), &bytes[..3]);
    recv.receive(&bytes[3..]);
    match recv.poll_message() {
        RecvStep::Ready(Message::GoAway(g)) => assert_eq!(g.url, "hello"),
        _ => panic!("expected a GOAWAY"),
    }
    assert!(recv.buffered().is_empty());
}

#[test]
fn empty_buffer_asks_for_more() {
    let mut recv = ControlRecv::new(0u8);
    assert!(matches!(recv.poll_message(), RecvStep::NeedData));
}

#[test]
fn back_to_back_messages_come_out_in_order() {
    let first = encoded(&go_away("a"));
    let second = encoded(&go_away("bb"));
    let mut both = first.clone();
    both.extend_from_slice(&second);
    let mut recv = ControlRecv::new(0u8);
    recv.receive(&both);
    match recv.poll_message() {
        RecvStep::Ready(Message::GoAway(g)) => assert_eq!(g.url, "a"),
        _ => panic!("expected the first GOAWAY"),
    }
    assert_eq!(recv.buffered(), &second[..]);
    match recv.poll_message() {
        RecvStep::Ready(Message::GoAway(g)) => assert_eq!(g.url, "bb"),
        _ => panic!("expected the second GOAWAY"),
    }
    assert!(recv.buffered().is_empty());
}

#[test]
fn unknown_message_type_fails_and_keeps_bytes() {
    let mut recv = ControlRecv::new(0u8);
    recv.receive(&[0x3f, 0x00]);
    match recv.poll_message() {
        RecvStep::Failed(DecodeFailure::UnknownType(code)) => assert_eq!(code, 0x3f),
        _ => panic!("expected an unknown type"),
    }
    assert_eq!(recv.buffered(), &[0x3f, 0x00]);
}

#[test]
fn malformed_message_fails() {
    // GOAWAY with a URL that is not UTF-8.
    let mut recv = ControlRecv::new(0u8);
    recv.receive(&[0x10, 0x01, 0xff]);
    assert!(matches!(recv.poll_message(), RecvStep::Failed(DecodeFailure::Malformed(_))));
    assert_eq!(recv.buffered(), &[0x10, 0x01, 0xff]);
}

#[test]
fn client_setup_is_received() {
    let mut bytes = BytesMut::new();
    client_setup().encode(&mut bytes).unwrap();
    let mut recv = ControlRecv::new(0u8);
    assert!(recv.receive(&bytes));
    assert!(recv.receive(&[0x10]));
    match recv.poll_client_setup() {
        SetupStep::Received(client) => {
            assert_eq!(client.role, Role::Both);
            assert_eq!(client.versions.len(), 1);
        }
        _ => panic!("expected CLIENT SETUP"),
    }
    assert_eq!(recv.buffered(), &[0x10]);
}

#[test]
fn partial_client_setup_asks_for_more() {
    let mut bytes = BytesMut::new();
    client_setup().encode(&mut bytes).unwrap();
    let mut recv = ControlRecv::new(0u8);
    recv.receive(&bytes[..5]);
    assert!(matches!(recv.poll_client_setup(), SetupStep::NeedData));
    assert_eq!(recv.buffered(), &bytes[..5]);
}

#[test]
fn other_first_message_is_not_a_setup() {
    let mut recv = ControlRecv::new(0u8);
    recv.receive(&encoded(&go_away("x")));
    match recv.poll_client_setup() {
        SetupStep::Refused(SetupError::ExpectedClientSetup(code)) => assert_eq!(code, 0x10),
        _ => panic!("expected ExpectedClientSetup"),
    }
    assert_eq!(recv.buffered(), &encoded(&go_away("x"))[..]);
}

#[test]
fn truncated_other_first_message_asks_for_more() {
    let bytes = encoded(&go_away("longer"));
    let mut recv = ControlRecv::new(0u8);
    recv.receive(&bytes[..4]);
    assert!(matches!(recv.poll_client_setup(), SetupStep::NeedData));
    recv.receive(&bytes[4..]);
    assert!(matches!(recv.poll_client_setup(), SetupStep::Refused(SetupError::ExpectedClientSetup(0x10))));
}

fn server_setup_bytes() -> Vec<u8> {
    let reply = setup::Server { version: Version::DRAFT_03, role: Role::Both, params: Default::default() };
    let mut out = BytesMut::new();
    reply.encode(&mut out).unwrap();
    out.to_vec()
}

#[test]
fn server_setup_first_is_not_a_client_setup() {
    let bytes = server_setup_bytes();
    let mut recv = ControlRecv::new(0u8);
    recv.receive(&bytes);
    match recv.poll_client_setup() {
        SetupStep::Refused(SetupError::ExpectedClientSetup(code)) => assert_eq!(code, 0x41),
        _ => panic!("expected ExpectedClientSetup"),
    }
}

#[test]
fn truncated_server_setup_first_asks_for_more() {
    let bytes = server_setup_bytes();
    let mut recv = ControlRecv::new(0u8);
    recv.receive(&bytes[..6]);
    assert!(matches!(recv.poll_client_setup(), SetupStep::NeedData));
    recv.receive(&bytes[6..]);
    assert!(matches!(recv.poll_client_setup(), SetupStep::Refused(SetupError::ExpectedClientSetup(0x41))));
}

#[test]
fn message_split_at_every_position_is_received() {
    let first = encoded(&go_away("split"));
    let second = encoded(&go_away("next"));
    let mut all = first.clone();
    all.extend_from_slice(&second);
    for cut in 0..all.len() {
        let mut recv = ControlRecv::new(0u8);
        recv.receive(&all[..cut]);
        if cut < first.len() {
            assert!(matches!(recv.poll_message(), RecvStep::NeedData));
            recv.receive(&all[cut..]);
        } else {
            recv.receive(&all[cut..]);
        }
        match recv.poll_message() {
            RecvStep::Ready(Message::GoAway(g)) => assert_eq!(g.url, "split"),
            _ => panic!("expected the first message"),
        }
        match recv.poll_message() {
            RecvStep::Ready(Message::GoAway(g)) => assert_eq!(g.url, "next"),
            _ => panic!("expected the second message"),
        }
        assert!(recv.buffered().is_empty());
    }
}

#[test]
fn unknown_first_message_is_a_read_failure() {
    let mut recv = ControlRecv::new(0u8);
    recv.receive(&[0x3f, 0x00]);
    match recv.poll_client_setup() {
        SetupStep::Refused(SetupError::ReadFailed(DecodeFailure::UnknownType(code))) => assert_eq!(code, 0x3f),
        _ => panic!("expected a read failure"),
    }
}

#[test]
fn malformed_other_first_message_is_a_read_failure() {
    let mut recv = ControlRecv::new(0u8);
    recv.receive(&[0x10, 0x01, 0xff]);
    assert!(matches!(
        recv.poll_client_setup(),
        SetupStep::Refused(SetupError::ReadFailed(DecodeFailure::Malformed(_)))
    ));
}

#[test]
fn unreadable_setup_is_a_read_failure() {
    // CLIENT SETUP with no versions and no parameters: the role is missing.
    let mut recv = ControlRecv::new(0u8);
    recv.receive(&[0x40, 0x40, 0x00, 0x00]);
    assert!(matches!(
        recv.poll_client_setup(),
        SetupStep::Refused(SetupError::ReadFailed(DecodeFailure::Malformed(_)))
    ));
    assert_eq!(recv.buffered(), &[0x40, 0x40, 0x00, 0x00]);
}

#[test]
fn empty_read_reports_end_of_stream() {
    let mut recv = ControlRecv::new(0u8);
    assert!(recv.receive(&[0x10]));
    assert!(!recv.receive(&[]));
    assert_eq!(recv.buffered(), &[0x10]);
}

#[test]
fn message_out_of_varint_range_is_refused() {
    let mut send = ControlSend::new(());
    let too_big = Message::Unsubscribe(Unsubscribe { id: 1u64 << 62 });
    assert!(send.encode(&too_big).is_err());
    let fits = Message::Unsubscribe(Unsubscribe { id: (1u64 << 62) - 1 });
    assert!(send.encode(&fits).is_ok());
    assert_eq!(send.pending(), &encoded(&fits)[..]);
}

#[test]
fn setup_reply_out_of_varint_range_is_refused() {
    let reply = setup::Server { version: Version(u64::MAX), role: Role::Both, params: Default::default() };
    let mut send = ControlSend::new(());
    assert!(send.encode_setup_reply(&reply).is_err());
}

#[test]
fn send_buffer_holds_only_the_last_message() {
    let mut send = ControlSend::new(7u32);
    send.encode(&go_away("first-url")).unwrap();
    assert_eq!(send.pending(), &encoded(&go_away("first-url"))[..]);
    send.encode(&go_away("b")).unwrap();
    assert_eq!(send.pending(), &encoded(&go_away("b"))[..]);
    assert_eq!(*send.stream_mut(), 7);
    assert_eq!(send.into_stream(), 7);
}

#[test]
fn setup_reply_is_encoded() {
    let reply = setup::Server { version: Version::DRAFT_03, role: Role::Both, params: Default::default() };
    let mut send = ControlSend::new(());
    send.encode(&go_away("stale")).unwrap();
    send.encode_setup_reply(&reply).unwrap();
    assert_eq!(
        send.pending(),
        &[0x40, 0x41, 0xC0, 0x00, 0x00, 0x00, 0xFF, 0x00, 0x00, 0x03, 0x01, 0x00, 0x01, 0x03]
    );
}

#[test]
fn control_split_keeps_halves() {
    let mut control = Control::new(1u8, 2u16);
    assert_eq!(*control.sender_mut().stream_mut(), 1);
    assert_eq!(*control.recver_mut().stream_mut(), 2);
    let (mut send, mut recv) = control.split();
    assert_eq!(*send.stream_mut(), 1);
    assert_eq!(*recv.stream_mut(), 2);
    assert!(send.pending().is_empty());
    assert!(recv.buffered().is_empty());
}
