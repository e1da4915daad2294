use std::sync::Arc;

use almetica::frame::{body_len, decode_header, encode_header, frame_packet, FrameError};
use almetica::handshake::{Handshake, HandshakeAction, HandshakeStep, KEY_LEN};
use almetica::opcode::{Opcode, OpcodeTable, OpcodeTableError};
use almetica::session::{
    handle_message, handle_packet, parse_connection, GameSession, Inbound, Outbound,
    SessionError, Step, Wake, WorldEvent,
};

fn tables() -> OpcodeTable {
    let entries = vec![
        (Opcode::C_CHECK_VERSION, 1u16),
        (Opcode::S_CHECK_VERSION, 2u16),
        (Opcode::C_CHECK_USER_NAME, 10u16),
        (Opcode::S_CHECK_USER_NAME, 11u16),
    ];
    OpcodeTable::from_mapping(&entries).unwrap()
}

fn session() -> GameSession {
    GameSession::new(
        Arc::new(tables()),
        Some(WorldEvent::ResponseRegisterConnection {
            connection: Some(99),
        }),
    )
    .unwrap()
}

#[test]
fn test_gamesession_creation() {
    let mut hs = Handshake::new();
    // hello stage
    let hello = match hs.next_action().unwrap() {
        HandshakeAction::Write(b) => b,
        _ => panic!("expected the magic word"),
    };
    assert_eq!(4, hello.len());
    let hello = u32::from_le_bytes([hello[0], hello[1], hello[2], hello[3]]);
    assert_eq!(1, hello);

    // key exchange stage
    let client_key1 = vec![7u8; 128];
    let client_key2 = vec![9u8; 128];
    assert!(matches!(hs.next_action().unwrap(), HandshakeAction::Read(128)));
    hs.on_read(client_key1.clone());
    let server_key1 = match hs.next_action().unwrap() {
        HandshakeAction::Write(b) => b,
        _ => panic!("expected server key 1"),
    };
    assert_eq!(server_key1.len(), 128);
    assert!(matches!(hs.next_action().unwrap(), HandshakeAction::Read(128)));
    hs.on_read(client_key2.clone());
    let server_key2 = match hs.next_action().unwrap() {
        HandshakeAction::Write(b) => b,
        _ => panic!("expected server key 2"),
    };
    assert_eq!(server_key2.len(), KEY_LEN);
    assert!(matches!(hs.next_action().unwrap(), HandshakeAction::Finished));
    assert_eq!(hs.step, HandshakeStep::Done);
    assert_eq!(hs.client_key_1, client_key1);
    assert_eq!(hs.client_key_2, client_key2);
    assert_eq!(hs.server_key_1, server_key1);
    assert_eq!(hs.server_key_2, server_key2);

    // registration with the world
    let s = GameSession::new(
        Arc::new(tables()),
        Some(WorldEvent::ResponseRegisterConnection {
            connection: Some(5),
        }),
    )
    .unwrap();
    assert_eq!(s.connection, 5);
}

#[test]
fn registration_errors() {
    assert_eq!(
        parse_connection(None).err(),
        Some(SessionError::NoSenderWaitingConnectionEntity)
    );
    assert_eq!(
        parse_connection(Some(WorldEvent::ResponseRegisterConnection { connection: None })).err(),
        Some(SessionError::EntityNotSet)
    );
    assert_eq!(
        parse_connection(Some(WorldEvent::ResponseDropConnection)).err(),
        Some(SessionError::WrongEventReceived)
    );
    assert_eq!(
        parse_connection(Some(WorldEvent::ResponseRegisterConnection { connection: Some(3) })),
        Ok(3)
    );
}

#[test]
fn idle_timeout_closes_cleanly() {
    assert!(matches!(session().handle_connection(Wake::IdleTimeout), Step::Exit(None)));
}

#[test]
fn peer_close_and_read_error_end_the_session() {
    let s = session();
    assert!(matches!(
        s.handle_connection(Wake::PeerClosed),
        Step::Exit(Some(SessionError::ConnectionClosed))
    ));
    assert!(matches!(
        s.handle_connection(Wake::ReadFailed),
        Step::Exit(Some(SessionError::Io))
    ));
    assert!(matches!(
        s.handle_connection(Wake::Message(None)),
        Step::Exit(Some(SessionError::NoSenderResponseChannel))
    ));
}

#[test]
fn unknown_inbound_opcode_is_ignored() {
    let s = session();
    let header = encode_header(8, 65534);
    let step = s.handle_connection(Wake::Frame {
        header,
        body: vec![1, 2, 3, 4],
    });
    assert!(matches!(step, Step::Inbound(Inbound::Unmapped(65534))));
}

#[test]
fn drop_connection_ends_session() {
    let s = session();
    assert!(matches!(
        s.handle_connection(Wake::Message(Some(WorldEvent::ResponseDropConnection))),
        Step::Exit(Some(SessionError::ConnectionClosed))
    ));
}

#[test]
fn client_packet_goes_to_global_world() {
    let s = session();
    let header = encode_header(6, 10);
    match s.handle_connection(Wake::Frame {
        header,
        body: vec![0xaa, 0xbb],
    }) {
        Step::Inbound(Inbound::Global(q)) => {
            assert_eq!(q.connection_id, 99);
            assert_eq!(q.opcode, Opcode::C_CHECK_USER_NAME);
            assert_eq!(q.data, vec![0xaa, 0xbb]);
        }
        _ => panic!("expected a request for the world"),
    }
}

#[test]
fn server_packet_inbound_has_no_event() {
    let t = tables();
    assert!(matches!(
        handle_packet(&t, 1, 2, vec![]),
        Inbound::NoEventMapping(Opcode::S_CHECK_VERSION)
    ));
}

#[test]
fn outbound_response_is_framed() {
    let s = session();
    let step = s.handle_connection(Wake::Message(Some(WorldEvent::Response {
        opcode: Opcode::S_CHECK_USER_NAME,
        data: vec![1],
    })));
    match step {
        Step::Outbound(Outbound::Send(f)) => assert_eq!(f, vec![5, 0, 11, 0, 1]),
        _ => panic!("expected a frame"),
    }
}

#[test]
fn outbound_errors_drop_packet_only() {
    let t = tables();
    assert!(matches!(
        handle_message(
            &t,
            Some(WorldEvent::Response {
                opcode: Opcode::S_GET_USER_LIST,
                data: vec![]
            })
        ),
        Outbound::Dropped(FrameError::UnknownReverseOpcode)
    ));
    assert!(matches!(
        handle_message(
            &t,
            Some(WorldEvent::Response {
                opcode: Opcode::S_CHECK_VERSION,
                data: vec![0; 65532]
            })
        ),
        Outbound::Dropped(FrameError::OversizePacket)
    ));
    assert!(matches!(
        handle_message(
            &t,
            Some(WorldEvent::ResponseRegisterConnection { connection: Some(1) })
        ),
        Outbound::Ignored
    ));
}

#[test]
fn largest_frame_fits() {
    let t = tables();
    let f = frame_packet(&t, Opcode::S_CHECK_VERSION, vec![0; 65531]).unwrap();
    assert_eq!(f.len(), 65535);
    assert_eq!(&f[..4], &[0xff, 0xff, 2, 0]);
}

#[test]
fn header_round_trip_and_layout() {
    assert_eq!(encode_header(0x1234, 0xabcd), [0x34, 0x12, 0xcd, 0xab]);
    for (len, op) in [(4u16, 0u16), (65535, 65535), (300, 1), (17, 40000)] {
        assert_eq!(decode_header(&encode_header(len, op)), (len, op));
    }
}

#[test]
fn short_header_is_malformed() {
    assert_eq!(body_len(&[3, 0, 1, 0]), Err(FrameError::MalformedPacket));
    assert_eq!(body_len(&[4, 0, 1, 0]), Ok(0));
    assert_eq!(body_len(&[0x10, 0x01, 1, 0]), Ok(268));
}

#[test]
fn opcode_table_maps_both_ways() {
    let t = tables();
    assert_eq!(t.get(1), Opcode::C_CHECK_VERSION);
    assert_eq!(t.get(11), Opcode::S_CHECK_USER_NAME);
    assert_eq!(t.get(5), Opcode::UNKNOWN);
    assert_eq!(t.get(12), Opcode::UNKNOWN);
    assert_eq!(t.get(65535), Opcode::UNKNOWN);
    for w in [1u16, 2, 10, 11] {
        assert_eq!(t.get_reverse(t.get(w)), Some(w));
    }
    assert_eq!(t.get_reverse(Opcode::S_GET_USER_LIST), None);
    assert_eq!(t.get_reverse(Opcode::UNKNOWN), None);
}

#[test]
fn opcode_table_rejects_bad_entries() {
    let dup_number = vec![(Opcode::C_CHECK_VERSION, 1u16), (Opcode::S_CHECK_VERSION, 1u16)];
    assert_eq!(
        OpcodeTable::from_mapping(&dup_number).err(),
        Some(OpcodeTableError::DuplicateNumber)
    );
    let dup_name = vec![(Opcode::C_CHECK_VERSION, 1u16), (Opcode::C_CHECK_VERSION, 2u16)];
    assert_eq!(
        OpcodeTable::from_mapping(&dup_name).err(),
        Some(OpcodeTableError::DuplicateName)
    );
    let unknown = vec![(Opcode::UNKNOWN, 1u16)];
    assert_eq!(
        OpcodeTable::from_mapping(&unknown).err(),
        Some(OpcodeTableError::UnknownName)
    );
    let empty = OpcodeTable::from_mapping(&Vec::new()).unwrap();
    assert_eq!(empty.get(0), Opcode::UNKNOWN);
}

#[test]
fn short_or_mismatched_frame_ends_session() {
    let s = session();
    assert!(matches!(
        s.handle_connection(Wake::Frame {
            header: encode_header(3, 1),
            body: vec![],
        }),
        Step::Exit(Some(SessionError::MalformedPacket))
    ));
    assert!(matches!(
        s.handle_connection(Wake::Frame {
            header: encode_header(0, 1),
            body: vec![],
        }),
        Step::Exit(Some(SessionError::MalformedPacket))
    ));
    assert!(matches!(
        s.handle_connection(Wake::Frame {
            header: encode_header(7, 1),
            body: vec![1, 2],
        }),
        Step::Exit(Some(SessionError::MalformedPacket))
    ));
    assert!(matches!(
        s.handle_connection(Wake::Frame {
            header: encode_header(4, 1),
            body: vec![],
        }),
        Step::Inbound(Inbound::Global(_))
    ));
}

#[test]
fn wire_value_past_table_is_unmapped() {
    let t = tables();
    assert!(matches!(
        handle_packet(&t, 1, 65534, vec![]),
        Inbound::Unmapped(65534)
    ));
    assert_eq!(almetica::session::IDLE_TIMEOUT_SECS, 180);
}
