use rust_network::chatmsg::ChatMessage;
use rust_network::ping_request::PingRequest;
use rust_network::pong_response::PongResponse;
use rust_network::wire::ParseOutcome;
use rust_network::{FromBytes, Packet, ToBytes};

#[test]
fn it_works() {
    assert_eq!(2 + 2, 4);
}

#[test]
fn ping_request_bytes_are_tag_and_big_endian_id() {
    let bytes = PingRequest { ping_id: 0x0102030405060708 }.to_bytes().unwrap();
    assert_eq!(bytes, vec![0x04, 1, 2, 3, 4, 5, 6, 7, 8]);
}

#[test]
fn pong_response_bytes_carry_its_own_id() {
    let bytes = PongResponse { ping_id: 77 }.to_bytes().unwrap();
    assert_eq!(bytes, vec![0xbf, 0, 0, 0, 0, 0, 0, 0, 77]);
}

#[test]
fn chat_message_bytes() {
    let msg = ChatMessage {
        msg_id: 1,
        to_user: "ab".to_string(),
        from_user: "c".to_string(),
        content: vec![9, 8],
    };
    let bytes = msg.to_bytes().unwrap();
    let mut expected = vec![0x04, 0, 0, 0, 0, 0, 0, 0, 1];
    expected.extend_from_slice(&[0, 0, 0, 0, 0, 0, 0, 2, b'a', b'b']);
    expected.extend_from_slice(&[0, 0, 0, 0, 0, 0, 0, 1, b'c']);
    expected.extend_from_slice(&[9, 8]);
    assert_eq!(bytes, expected);
    assert_eq!(
        Packet::from_bytes(&bytes),
        ParseOutcome::Done { value: Packet::ChatMessage(msg), consumed: bytes.len() }
    );
}

#[test]
fn round_trip_of_every_kind() {
    let packets = vec![
        Packet::PingRequest(PingRequest { ping_id: 77 }),
        Packet::PingRequest(PingRequest { ping_id: u64::MAX }),
        Packet::PongResponse(PongResponse { ping_id: 42 }),
        Packet::PongResponse(PongResponse { ping_id: 0 }),
        Packet::ChatMessage(ChatMessage {
            msg_id: 5,
            to_user: String::new(),
            from_user: String::new(),
            content: Vec::new(),
        }),
        Packet::ChatMessage(ChatMessage {
            msg_id: 0x1122334455667788,
            to_user: "alice".to_string(),
            from_user: "\u{6765}\u{81ea}".to_string(),
            content: vec![0, 255, 4, 0xbf],
        }),
    ];
    for p in packets {
        let bytes = p.to_bytes().unwrap();
        assert_eq!(
            Packet::from_bytes(&bytes),
            ParseOutcome::Done { value: p, consumed: bytes.len() }
        );
    }
}

#[test]
fn minimal_ping_is_not_a_truncated_chat_message() {
    let bytes = vec![0x04, 0, 0, 0, 0, 0, 0, 0, 77];
    assert_eq!(ChatMessage::from_bytes(&bytes), ParseOutcome::Incomplete);
    assert_eq!(
        Packet::from_bytes(&bytes),
        ParseOutcome::Done { value: Packet::PingRequest(PingRequest { ping_id: 77 }), consumed: 9 }
    );
}

#[test]
fn chat_message_with_empty_names_is_not_a_ping() {
    let mut bytes = vec![0x04, 0, 0, 0, 0, 0, 0, 0, 77];
    bytes.extend_from_slice(&[0; 16]);
    assert_eq!(bytes.len(), 25);
    let expected = ChatMessage {
        msg_id: 77,
        to_user: String::new(),
        from_user: String::new(),
        content: Vec::new(),
    };
    assert_eq!(
        Packet::from_bytes(&bytes),
        ParseOutcome::Done { value: Packet::ChatMessage(expected), consumed: 25 }
    );
}

#[test]
fn short_buffers_are_incomplete() {
    for tag in [0x04u8, 0xbf] {
        for len in 1..9 {
            let mut bytes = vec![tag];
            bytes.resize(len, 1);
            assert_eq!(Packet::from_bytes(&bytes), ParseOutcome::Incomplete);
        }
    }
    assert_eq!(Packet::from_bytes(&[]), ParseOutcome::Incomplete);
    assert_eq!(PingRequest::from_bytes(&[0x04, 1, 2]), ParseOutcome::Incomplete);
    assert_eq!(PongResponse::from_bytes(&[0xbf]), ParseOutcome::Incomplete);
}

#[test]
fn unknown_tag_is_an_error() {
    assert_eq!(Packet::from_bytes(&[0x05, 0, 0, 0, 0, 0, 0, 0, 0, 0]), ParseOutcome::Error);
    assert_eq!(PingRequest::from_bytes(&[0xbf, 0, 0, 0, 0, 0, 0, 0, 0]), ParseOutcome::Error);
    assert_eq!(PongResponse::from_bytes(&[0x04, 0, 0, 0, 0, 0, 0, 0, 0]), ParseOutcome::Error);
    assert_eq!(ChatMessage::from_bytes(&[0xbf, 0, 0, 0, 0, 0, 0, 0, 0]), ParseOutcome::Error);
}

#[test]
fn chat_message_with_a_name_that_is_not_utf8_falls_back_to_ping() {
    let mut bytes = vec![0x04, 0, 0, 0, 0, 0, 0, 0, 9];
    bytes.extend_from_slice(&[0, 0, 0, 0, 0, 0, 0, 1, 0xff]);
    bytes.extend_from_slice(&[0; 8]);
    assert_eq!(ChatMessage::from_bytes(&bytes), ParseOutcome::Error);
    assert_eq!(
        Packet::from_bytes(&bytes),
        ParseOutcome::Done { value: Packet::PingRequest(PingRequest { ping_id: 9 }), consumed: 9 }
    );
}

#[test]
fn chat_message_takes_the_rest_as_content() {
    let mut bytes = vec![0x04, 0, 0, 0, 0, 0, 0, 0, 1];
    bytes.extend_from_slice(&[0, 0, 0, 0, 0, 0, 0, 1, b'x']);
    bytes.extend_from_slice(&[0, 0, 0, 0, 0, 0, 0, 0]);
    bytes.extend_from_slice(&[1, 2, 3, 0x04, 0xbf]);
    let expected = ChatMessage {
        msg_id: 1,
        to_user: "x".to_string(),
        from_user: String::new(),
        content: vec![1, 2, 3, 0x04, 0xbf],
    };
    assert_eq!(
        ChatMessage::from_bytes(&bytes),
        ParseOutcome::Done { value: expected, consumed: bytes.len() }
    );
}

#[test]
fn chat_message_with_a_length_beyond_the_buffer_is_incomplete() {
    let mut bytes = vec![0x04, 0, 0, 0, 0, 0, 0, 0, 1];
    bytes.extend_from_slice(&[0xff; 8]);
    bytes.extend_from_slice(&[1, 2, 3]);
    assert_eq!(ChatMessage::from_bytes(&bytes), ParseOutcome::Incomplete);
}

#[test]
fn correlation_id_of_each_kind() {
    assert_eq!(Packet::PingRequest(PingRequest { ping_id: 3 }).correlation_id(), 3);
    assert_eq!(Packet::PongResponse(PongResponse { ping_id: 4 }).correlation_id(), 4);
    let msg = ChatMessage {
        msg_id: 5,
        to_user: String::new(),
        from_user: String::new(),
        content: Vec::new(),
    };
    assert_eq!(Packet::ChatMessage(msg).correlation_id(), 5);
}
