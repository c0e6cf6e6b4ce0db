use claim_token::message::BridgeMessage;
use claim_token::message::MessageError;
use claim_token::message::BRIDGE_MESSAGE_MAX_LENGTH;
use claim_token::message::PAYLOAD_ID_ALIVE;
use claim_token::message::PAYLOAD_ID_USER_INFO;
use std::mem::size_of;

fn sample_program_id() -> [u8; 32] {
    let mut id = [0u8; 32];
    let mut i = 0usize;
    while i < 32 {
        id[i] = (i as u8) + 1;
        i += 1;
    }
    id
}

#[test]
fn test_message_alive() {
    let my_program_id = sample_program_id();
    let msg = BridgeMessage::Alive {
        program_id: my_program_id,
    };

    // Serialize program ID above.
    let encoded = msg.encode().unwrap();

    assert_eq!(encoded.len(), size_of::<u8>() + size_of::<[u8; 32]>());

    // Verify Payload ID.
    assert_eq!(encoded[0], PAYLOAD_ID_ALIVE);

    // Verify Program ID.
    let mut program_id_bytes = [0u8; 32];
    program_id_bytes.copy_from_slice(&encoded[1..33]);
    assert_eq!(program_id_bytes, my_program_id);

    // Now deserialize the encoded message.
    match BridgeMessage::decode(&encoded).unwrap() {
        BridgeMessage::Alive { program_id } => {
            assert_eq!(program_id, my_program_id)
        }
        _ => assert!(false, "incorrect deserialization"),
    }
}

#[test]
fn test_message_user_info() {
    let raw_message = String::from("All your base are belong to us");
    let msg = BridgeMessage::UserInfo {
        message: raw_message.as_bytes().to_vec(),
    };

    // Serialize message above.
    let encoded = msg.encode().unwrap();

    assert_eq!(
        encoded.len(),
        size_of::<u8>() + size_of::<u16>() + raw_message.len()
    );

    // Verify Payload ID.
    assert_eq!(encoded[0], PAYLOAD_ID_USER_INFO);

    // Verify message length.
    let mut message_len_bytes = [0u8; 2];
    message_len_bytes.copy_from_slice(&encoded[1..3]);
    assert_eq!(
        u16::from_be_bytes(message_len_bytes) as usize,
        raw_message.len()
    );

    // Verify message.
    let from_utf8_result = std::str::from_utf8(&encoded[3..]);
    assert!(from_utf8_result.is_ok(), "from_utf8 resulted in an error");
    assert_eq!(from_utf8_result.unwrap(), raw_message);

    // Now deserialize the encoded message.
    match BridgeMessage::decode(&encoded).unwrap() {
        BridgeMessage::UserInfo { message } => {
            assert_eq!(message, raw_message.as_bytes())
        }
        _ => assert!(false, "incorrect deserialization"),
    }
}

#[test]
fn test_message_user_info_too_large() {
    let n: usize = 513;
    let raw_message = {
        let mut out = Vec::with_capacity(n);
        for _ in 0..n {
            out.push(33u8)
        }
        String::from_utf8(out).unwrap()
    };
    let msg = BridgeMessage::UserInfo {
        message: raw_message.as_bytes().to_vec(),
    };

    // Attempt to serialize message above.
    let mut encoded: Vec<u8> = Vec::new();
    match msg.encode() {
        Err(e) => assert_eq!(e, MessageError::PayloadTooLarge),
        _ => assert!(false, "not supposed to serialize"),
    };

    // Serialize manually and then attempt to deserialize.
    encoded.push(PAYLOAD_ID_USER_INFO);
    encoded.extend_from_slice(&(raw_message.len() as u16).to_be_bytes());
    encoded.extend_from_slice(raw_message.as_bytes());

    assert_eq!(
        encoded.len(),
        size_of::<u8>() + size_of::<u16>() + raw_message.len()
    );

    // Verify Payload ID.
    assert_eq!(encoded[0], PAYLOAD_ID_USER_INFO);

    // Verify message length.
    let mut message_len_bytes = [0u8; 2];
    message_len_bytes.copy_from_slice(&encoded[1..3]);
    assert_eq!(
        u16::from_be_bytes(message_len_bytes) as usize,
        raw_message.len()
    );

    match BridgeMessage::decode(&encoded) {
        Err(e) => assert_eq!(e, MessageError::PayloadTooLarge),
        _ => assert!(false, "not supposed to deserialize"),
    };
}

#[test]
fn user_info_round_trips_at_wire_limit() {
    let payload = vec![7u8; BRIDGE_MESSAGE_MAX_LENGTH];
    let msg = BridgeMessage::UserInfo {
        message: payload.clone(),
    };
    let encoded = msg.encode().unwrap();
    assert_eq!(encoded.len(), 3 + BRIDGE_MESSAGE_MAX_LENGTH);
    match BridgeMessage::decode(&encoded).unwrap() {
        BridgeMessage::UserInfo { message } => assert_eq!(message, payload),
        _ => assert!(false, "incorrect deserialization"),
    }
}

#[test]
fn encode_one_over_wire_limit_fails() {
    let msg = BridgeMessage::UserInfo {
        message: vec![7u8; BRIDGE_MESSAGE_MAX_LENGTH + 1],
    };
    assert_eq!(msg.encode(), Err(MessageError::PayloadTooLarge));
}

#[test]
fn decode_unknown_tag_fails() {
    for tag in [2u8, 3, 128, 255] {
        let mut buf = vec![tag];
        buf.extend_from_slice(&[0u8; 40]);
        assert_eq!(BridgeMessage::decode(&buf), Err(MessageError::InvalidTag));
    }
}

#[test]
fn decode_truncated_buffers_fail() {
    // Nothing at all.
    assert_eq!(
        BridgeMessage::decode(&Vec::new()),
        Err(MessageError::Truncated)
    );
    // An Alive envelope one byte short of its identifier.
    let mut alive = vec![PAYLOAD_ID_ALIVE];
    alive.extend_from_slice(&[9u8; 31]);
    assert_eq!(BridgeMessage::decode(&alive), Err(MessageError::Truncated));
    // A UserInfo envelope whose declared length exceeds what follows.
    let user_info = vec![PAYLOAD_ID_USER_INFO, 0, 5, 1, 2, 3];
    assert_eq!(
        BridgeMessage::decode(&user_info),
        Err(MessageError::Truncated)
    );
    // A UserInfo envelope cut inside the length field.
    let short = vec![PAYLOAD_ID_USER_INFO, 0];
    assert_eq!(BridgeMessage::decode(&short), Err(MessageError::Truncated));
}

#[test]
fn decode_ignores_trailing_bytes() {
    let msg = BridgeMessage::UserInfo {
        message: vec![1, 2, 3],
    };
    let mut encoded = msg.encode().unwrap();
    encoded.extend_from_slice(&[0xDE, 0xAD, 0xBE, 0xEF]);
    match BridgeMessage::decode(&encoded).unwrap() {
        BridgeMessage::UserInfo { message } => assert_eq!(message, vec![1, 2, 3]),
        _ => assert!(false, "incorrect deserialization"),
    }
}

#[test]
fn alive_round_trips_with_trailing_bytes() {
    let id = sample_program_id();
    let msg = BridgeMessage::Alive { program_id: id };
    let mut encoded = msg.encode().unwrap();
    encoded.push(0xFF);
    match BridgeMessage::decode(&encoded).unwrap() {
        BridgeMessage::Alive { program_id } => assert_eq!(program_id, id),
        _ => assert!(false, "incorrect deserialization"),
    }
}
