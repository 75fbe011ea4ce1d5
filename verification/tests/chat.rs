use ring_ring::p2p::chat::{
    decode_message, outgoing_payload, received_message, sent_message, ChatError, ChatSession,
    HandshakeStep, Incoming, Role, TAG_LEN,
};

fn handshake_pair() -> (ChatSession, ChatSession) {
    let initiator = ChatSession::new(Role::Initiator, &[1u8; 32]).unwrap();
    let responder = ChatSession::new(Role::Responder, &[2u8; 32]).unwrap();
    (initiator, responder)
}

#[test]
fn handshake_scripts_of_both_roles() {
    let (mut initiator, mut responder) = handshake_pair();
    assert_eq!(initiator.get_role(), Role::Initiator);
    assert_eq!(responder.get_role(), Role::Responder);

    assert_eq!(initiator.handshake_step(), Some(HandshakeStep::Write));
    assert_eq!(responder.handshake_step(), Some(HandshakeStep::Read));
    let m1 = initiator.write_handshake().unwrap();
    assert_eq!(m1.len(), 32);
    responder.read_handshake(&m1).unwrap();

    assert_eq!(initiator.handshake_step(), Some(HandshakeStep::Read));
    assert_eq!(responder.handshake_step(), Some(HandshakeStep::Write));
    let m2 = responder.write_handshake().unwrap();
    assert_eq!(m2.len(), 96);
    initiator.read_handshake(&m2).unwrap();

    assert_eq!(initiator.handshake_step(), Some(HandshakeStep::Write));
    assert_eq!(responder.handshake_step(), Some(HandshakeStep::Read));
    let m3 = initiator.write_handshake().unwrap();
    assert_eq!(m3.len(), 64);
    responder.read_handshake(&m3).unwrap();

    // Both scripts have three steps and end together.
    assert_eq!(responder.handshake_step(), None);
    assert_eq!(initiator.handshake_step(), None);
    assert!(responder.is_handshake_done());
    assert!(initiator.is_handshake_done());
}

#[test]
fn failed_handshake_read_does_not_advance() {
    let (_initiator, mut responder) = handshake_pair();
    let r = responder.read_handshake(&[0u8; 3]);
    assert!(matches!(r, Err(ChatError::Handshake(_))));
    assert_eq!(responder.handshake_step(), Some(HandshakeStep::Read));
    assert!(!responder.is_handshake_done());
}

fn finished_pair() -> (ChatSession, ChatSession) {
    let (mut initiator, mut responder) = handshake_pair();
    let m1 = initiator.write_handshake().unwrap();
    responder.read_handshake(&m1).unwrap();
    let m2 = responder.write_handshake().unwrap();
    initiator.read_handshake(&m2).unwrap();
    let m3 = initiator.write_handshake().unwrap();
    responder.read_handshake(&m3).unwrap();
    (initiator, responder)
}

#[test]
fn empty_read_closes_the_chat() {
    let (_initiator, mut responder) = finished_pair();
    assert!(matches!(responder.receive(&[]), Ok(Incoming::Closed)));
}

#[test]
fn received_text_is_the_trimmed_sent_line() {
    let (mut initiator, mut responder) = finished_pair();
    let lines = ["  hello \n", "   ", "привет, мир", "\tlast\t"];
    let mut received = Vec::new();
    for line in lines {
        if let Some(message) = initiator.send_line(line).unwrap() {
            assert_eq!(message.len(), line.trim().len() + TAG_LEN);
            match responder.receive(&message).unwrap() {
                Incoming::Message(text) => received.push(text),
                Incoming::Closed => panic!("closed"),
            }
        }
    }
    assert_eq!(received, vec!["hello", "привет, мир", "last"]);
    assert!(matches!(responder.receive(&[]), Ok(Incoming::Closed)));
}

#[test]
fn messages_flow_both_ways() {
    let (mut initiator, mut responder) = finished_pair();
    let reply = responder.send_line("pong").unwrap().unwrap();
    match initiator.receive(&reply).unwrap() {
        Incoming::Message(text) => assert_eq!(text, "pong"),
        Incoming::Closed => panic!("closed"),
    }
}

#[test]
fn plaintext_and_short_data_are_refused() {
    let (_initiator, mut responder) = finished_pair();
    assert!(matches!(responder.receive(b"hello"), Err(ChatError::Transport(_))));
    assert!(matches!(responder.receive(&[0u8; 40]), Err(ChatError::Transport(_))));
}

#[test]
fn tampered_message_is_refused() {
    let (mut initiator, mut responder) = finished_pair();
    let mut message = initiator.send_line("secret").unwrap().unwrap();
    message[0] ^= 1;
    assert!(matches!(responder.receive(&message), Err(ChatError::Transport(_))));
}

#[test]
fn blank_lines_are_skipped() {
    assert_eq!(outgoing_payload(""), None);
    assert_eq!(outgoing_payload("   \t\n"), None);
    assert_eq!(outgoing_payload("\u{3000}\u{a0}"), None);
}

#[test]
fn lines_are_sent_trimmed() {
    assert_eq!(outgoing_payload("  hello \n"), Some(b"hello".to_vec()));
    assert_eq!(outgoing_payload("a b"), Some(b"a b".to_vec()));
    assert_eq!(outgoing_payload("\u{2003}привет\u{2003}"), Some("привет".as_bytes().to_vec()));
}

#[test]
fn decode_message_accepts_utf8_only() {
    assert_eq!(decode_message(b"hi".to_vec()).unwrap(), "hi");
    assert_eq!(decode_message("ё".as_bytes().to_vec()).unwrap(), "ё");
    assert!(matches!(decode_message(vec![0xff, 0xfe]), Err(ChatError::InvalidUtf8)));
}

#[test]
fn blank_line_after_handshake_is_skipped() {
    let (mut initiator, _responder) = finished_pair();
    assert!(matches!(initiator.send_line("   "), Ok(None)));
}

#[test]
fn oversized_messages_are_refused() {
    let (mut initiator, mut responder) = finished_pair();
    let long_line = "x".repeat(65535);
    assert!(matches!(initiator.send_line(&long_line), Err(ChatError::Transport(_))));
    let long_data = vec![0u8; 65536];
    assert!(matches!(responder.receive(&long_data), Err(ChatError::Transport(_))));
    // Refusals leave the sessions usable.
    let sent = initiator.send_line("still here").unwrap().unwrap();
    match responder.receive(&sent).unwrap() {
        Incoming::Message(text) => assert_eq!(text, "still here"),
        Incoming::Closed => panic!("expected a message"),
    }
}

#[test]
fn oversized_handshake_message_is_refused() {
    let (_initiator, mut responder) = handshake_pair();
    let r = responder.read_handshake(&vec![0u8; 65536]);
    assert!(matches!(r, Err(ChatError::Handshake(_))));
    assert_eq!(responder.handshake_step(), Some(HandshakeStep::Read));
}

#[test]
fn sent_message_keeps_the_written_bytes() {
    let r = sent_message(Ok(3), vec![7, 8, 9, 10, 11]);
    assert_eq!(r.unwrap(), Some(vec![7, 8, 9]));
    let r = sent_message(Err(snow::Error::Input), vec![7, 8, 9]);
    assert!(matches!(r, Err(ChatError::Transport(snow::Error::Input))));
}

#[test]
fn received_message_decodes_the_plaintext() {
    let mut buffer = "héllo".as_bytes().to_vec();
    buffer.extend_from_slice(&[0xff; 4]);
    match received_message(Ok(6), buffer).unwrap() {
        Incoming::Message(text) => assert_eq!(text, "héllo"),
        Incoming::Closed => panic!("expected a message"),
    }
    let r = received_message(Ok(2), vec![0xff, 0xfe, 0x41]);
    assert!(matches!(r, Err(ChatError::InvalidUtf8)));
    let r = received_message(Err(snow::Error::Decrypt), vec![0x41]);
    assert!(matches!(r, Err(ChatError::Transport(snow::Error::Decrypt))));
}
