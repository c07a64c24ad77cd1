use rust_network::chatmsg::ChatMessage;
use rust_network::ping_request::PingRequest;
use rust_network::plugins::{chain_step, hook_code, runs_hooks, ChainStep};
use rust_network::pong_response::PongResponse;
use rust_network::server::{
    broadcast_message, reply_to, Admission, HandleError, Server, BROADCAST_MSG_ID,
    SERVER_CHANNEL_SIZE, TCP_PING_INTERVAL_SECS,
};
use rust_network::Packet;

const PREFIX: &str = "\u{6765}\u{81ea}\u{670d}\u{52a1}\u{7aef}\u{6d88}\u{606f}";

fn chat(content: &[u8]) -> ChatMessage {
    ChatMessage {
        msg_id: 12,
        to_user: "to".to_string(),
        from_user: "from".to_string(),
        content: content.to_vec(),
    }
}

#[test]
fn ping_and_pong_with_id_zero_are_refused() {
    let server = Server::<u8>::new();
    assert_eq!(
        server.handle_packet(Packet::PingRequest(PingRequest { ping_id: 0 })),
        Err(HandleError::ZeroPingId)
    );
    assert_eq!(
        server.handle_packet(Packet::PongResponse(PongResponse { ping_id: 0 })),
        Err(HandleError::ZeroPongId)
    );
    assert_eq!(server.handle_ping_request(&PingRequest { ping_id: 0 }), Err(HandleError::ZeroPingId));
    assert_eq!(
        server.handle_pong_response(&PongResponse { ping_id: 0 }),
        Err(HandleError::ZeroPongId)
    );
    assert_eq!(HandleError::ZeroPingId.message(), "PingRequest.ping_id == 0");
    assert_eq!(HandleError::ZeroPongId.message(), "PongResponse.ping_id == 0");
}

#[test]
fn ping_and_pong_get_no_answer() {
    let server = Server::<u8>::new();
    assert_eq!(server.handle_packet(Packet::PingRequest(PingRequest { ping_id: 77 })), Ok(None));
    assert_eq!(server.handle_packet(Packet::PongResponse(PongResponse { ping_id: 77 })), Ok(None));
    assert_eq!(server.handle_ping_request(&PingRequest { ping_id: 1 }), Ok(()));
    assert_eq!(server.handle_pong_response(&PongResponse { ping_id: 1 }), Ok(()));
}

#[test]
fn chat_message_is_answered_with_fresh_content() {
    let server = Server::<u8>::new();
    match server.handle_packet(Packet::ChatMessage(chat(b"hello"))) {
        Ok(Some(Packet::ChatMessage(reply))) => {
            assert_eq!(reply.msg_id, 12);
            assert_eq!(reply.to_user, "to");
            assert_eq!(reply.from_user, "from");
            let text = String::from_utf8(reply.content).unwrap();
            assert!(text.starts_with(PREFIX));
            let token = &text[PREFIX.len()..];
            assert_eq!(token.len(), 16);
            assert!(token.chars().all(|c| c.is_ascii_lowercase() || c.is_ascii_digit()));
        }
        other => panic!("unexpected {:?}", other),
    }
}

#[test]
fn reply_with_a_given_token() {
    let reply = reply_to(chat(b"hello"), &"abc123".to_string());
    let mut expected = chat(b"");
    expected.content = format!("{}{}", PREFIX, "abc123").into_bytes();
    assert_eq!(reply, expected);
}

#[test]
fn broadcast_message_with_a_given_token() {
    assert_eq!(TCP_PING_INTERVAL_SECS, 5);
    assert_eq!(SERVER_CHANNEL_SIZE, 2);
    let msg = broadcast_message(&"tokentokentoken1".to_string());
    assert_eq!(
        msg,
        ChatMessage {
            msg_id: 66778899,
            to_user: "123".to_string(),
            from_user: "789".to_string(),
            content: b"tokentokentoken1".to_vec(),
        }
    );
    let server = Server::<u8>::new();
    let msg = server.periodic_message();
    assert_eq!(msg.msg_id, BROADCAST_MSG_ID);
    assert_eq!(msg.to_user, "123");
    assert_eq!(msg.from_user, "789");
    assert_eq!(msg.content.len(), 16);
}

#[test]
fn sessions_are_registered_once_per_address() {
    let mut server = Server::<u8>::new();
    assert!(server.register("10.0.0.1:5000".to_string(), 1));
    assert!(server.register("10.0.0.2:5000".to_string(), 2));
    assert!(!server.register("10.0.0.1:5000".to_string(), 3));
    assert_eq!(server.len(), 2);
    assert_eq!(server.senders(), vec![&1, &2]);
    assert!(server.contains(&"10.0.0.2:5000".to_string()));
    server.unregister(&"10.0.0.1:5000".to_string());
    assert_eq!(server.senders(), vec![&2]);
    assert!(!server.contains(&"10.0.0.1:5000".to_string()));
    server.unregister(&"10.0.0.9:5000".to_string());
    assert_eq!(server.len(), 1);
    assert!(server.register("10.0.0.1:5000".to_string(), 3));
    assert_eq!(server.senders(), vec![&2, &3]);
}

#[test]
fn admission_lets_in_up_to_the_limit() {
    for limit in [0usize, 1, 3, 100] {
        let mut admission = Admission::new(limit);
        for n in 0..limit {
            assert_eq!(admission.open(), n);
            assert!(admission.try_admit());
        }
        assert_eq!(admission.open(), limit);
        assert_eq!(admission.limit(), limit);
        assert!(!admission.try_admit());
        assert!(!admission.try_admit());
        assert_eq!(admission.open(), limit);
    }
}

#[test]
fn admission_after_a_session_ended() {
    let mut admission = Admission::new(2);
    assert!(admission.try_admit());
    assert!(admission.try_admit());
    assert!(!admission.try_admit());
    admission.release();
    assert_eq!(admission.open(), 1);
    assert!(admission.try_admit());
    assert!(!admission.try_admit());
    admission.release();
    admission.release();
    admission.release();
    assert_eq!(admission.open(), 0);
}

#[test]
fn plugin_chain_rules() {
    assert_eq!(hook_code(Some(0)), 0);
    assert_eq!(hook_code(Some(2)), 2);
    assert_eq!(hook_code(None), 0);
    assert_eq!(chain_step(0), ChainStep::Next);
    assert_eq!(chain_step(1), ChainStep::Next);
    assert_eq!(chain_step(2), ChainStep::Halt);
    assert_eq!(chain_step(3), ChainStep::Next);
    assert!(runs_hooks(&Packet::ChatMessage(chat(b"x"))));
    assert!(!runs_hooks(&Packet::PingRequest(PingRequest { ping_id: 1 })));
    assert!(!runs_hooks(&Packet::PongResponse(PongResponse { ping_id: 1 })));
}
