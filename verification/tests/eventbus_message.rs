use simprint_runtime::infrastructure::eventbus::message::{decode_frame, encode_frame, try_decode_frame};
use simprint_runtime::infrastructure::eventbus::{
    next_msg_id, ErrorCode, EventBusError, FrameBuffer, HandshakeData, Message, MessageIds, MessageType,
    Topic,
};

fn decode_error_text(result: Result<Message, EventBusError>) -> String {
    match result {
        Err(EventBusError::Decode(text)) => text,
        other => panic!("expected a decode error, got {:?}", other),
    }
}

#[test]
fn test_message_encode_decode() {
    let mut ids = MessageIds::new();
    let message = Message::event(&mut ids, Topic::Handshake, b"hello".to_vec());
    let encoded = message.encode().unwrap();
    let decoded = Message::decode(&encoded).unwrap();

    assert_eq!(decoded.msg_id, message.msg_id);
    assert_eq!(decoded.topic, Topic::Handshake);
    assert_eq!(decoded.data, b"hello".to_vec());
}

#[test]
fn encoding_has_exact_wire_layout() {
    let message = Message::response(0x0102_0304, Topic::SyncRole, ErrorCode::DecodeFailed, vec![7, 8]);
    let bytes = message.encode().unwrap();
    assert_eq!(
        bytes,
        vec![
            0x53, 0x49, 0x4D, 0x00, // magic
            0x01, // version
            17, 0, 0, 0, // payload length: 15 + 2
            0x04, 0x03, 0x02, 0x01, // message id
            2, // response
            0x01, 0x08, // topic 0x0801
            0xD3, 0x07, 0x00, 0x00, // status 2003
            2, 0, 0, 0, // data length
            7, 8,
        ]
    );
}

#[test]
fn negative_status_survives_roundtrip() {
    let message = Message {
        msg_id: 9,
        msg_type: MessageType::Request,
        topic: Topic::LaunchConfig,
        error_code: -5,
        data: vec![],
    };
    let bytes = message.encode().unwrap();
    assert_eq!(&bytes[16..20], &[0xFB, 0xFF, 0xFF, 0xFF]);
    let decoded = Message::decode(&bytes).unwrap();
    assert_eq!(decoded.error_code, -5);
    assert_eq!(decoded.msg_type, MessageType::Request);
    assert_eq!(decoded.topic, Topic::LaunchConfig);
    assert!(decoded.data.is_empty());
}

#[test]
fn every_topic_roundtrips_through_a_frame() {
    let topics = [
        Topic::Handshake, Topic::Heartbeat, Topic::Disconnect, Topic::ConfigInit,
        Topic::ConfigUpdate, Topic::FingerprintApply, Topic::FingerprintQuery, Topic::ProxySet,
        Topic::ProxyBypass, Topic::RpaCommand, Topic::RpaResult, Topic::RpaEvent, Topic::PageLoad,
        Topic::PageClose, Topic::NavigationStart, Topic::AuthRequest, Topic::AuthResponse,
        Topic::WindowSetBounds, Topic::SyncInputEvent, Topic::SyncRole, Topic::SyncInputDebug,
        Topic::SyncPaste, Topic::LaunchConfig,
    ];
    let mut ids = MessageIds::new();
    for topic in topics {
        assert_eq!(Topic::from(topic.code()), topic);
        let message = Message::request(&mut ids, topic, vec![1, 2, 3]);
        let decoded = Message::decode(&message.encode().unwrap()).unwrap();
        assert_eq!(decoded.topic, topic);
        assert_eq!(decoded.msg_id, message.msg_id);
    }
}

#[test]
fn unknown_codes_read_as_defaults() {
    assert_eq!(Topic::from(0x7777), Topic::Handshake);
    assert_eq!(Topic::from_code(0x0900), Topic::LaunchConfig);
    assert_eq!(MessageType::from_code(9), MessageType::Event);
    assert_eq!(MessageType::from_code(1), MessageType::Request);
    assert_eq!(MessageType::Response.code(), 2);
    assert_eq!(ErrorCode::from(42), ErrorCode::InvalidMessage);
    assert_eq!(ErrorCode::from(3002), ErrorCode::PermissionDenied);
    assert_eq!(ErrorCode::ConnectionLost.as_i32(), 1002);
}

#[test]
fn message_ids_count_up_and_wrap() {
    let mut ids = MessageIds::new();
    assert_eq!(next_msg_id(&mut ids), 1);
    assert_eq!(next_msg_id(&mut ids), 2);
    let first = Message::event(&mut ids, Topic::Heartbeat, vec![]);
    let second = Message::request(&mut ids, Topic::Heartbeat, vec![]);
    assert_eq!(first.msg_id, 3);
    assert_eq!(second.msg_id, 4);
    assert_ne!(first.msg_id, second.msg_id);
}

#[test]
fn responses_answer_the_request_id() {
    let ok = Message::success_response(77, Topic::AuthResponse, b"{}".to_vec());
    assert_eq!(ok.msg_id, 77);
    assert_eq!(ok.msg_type, MessageType::Response);
    assert_eq!(ok.error_code, 0);
    let failed = Message::error_response(78, Topic::ProxySet, ErrorCode::PermissionDenied);
    assert_eq!(failed.msg_id, 78);
    assert_eq!(failed.error_code, 3002);
    assert!(failed.data.is_empty());
}

#[test]
fn decode_reports_each_malformation() {
    let good = Message::success_response(1, Topic::Handshake, vec![5, 6, 7]).encode().unwrap().to_vec();

    assert_eq!(decode_error_text(Message::decode(&good[..8])), "data too short for header");

    let mut bad_magic = good.clone();
    bad_magic[1] = 0;
    assert_eq!(decode_error_text(Message::decode(&bad_magic)), "invalid magic number");

    let mut bad_version = good.clone();
    bad_version[4] = 42;
    assert_eq!(decode_error_text(Message::decode(&bad_version)), "unsupported version: 42");

    assert_eq!(decode_error_text(Message::decode(&good[..good.len() - 1])), "incomplete payload");

    let mut short_payload = good.clone();
    short_payload[5] = 14;
    assert_eq!(decode_error_text(Message::decode(&short_payload)), "payload too short");

    let mut long_data = good.clone();
    long_data[20] = 4;
    assert_eq!(decode_error_text(Message::decode(&long_data)), "data length mismatch");
}

#[test]
fn try_decode_waits_for_a_whole_frame_and_leaves_the_rest() {
    let mut ids = MessageIds::new();
    let first = Message::event(&mut ids, Topic::PageLoad, vec![1, 2]);
    let second = Message::event(&mut ids, Topic::PageClose, vec![3]);
    let mut stream = first.encode().unwrap().to_vec();
    let first_len = stream.len();
    stream.extend(second.encode().unwrap());

    assert!(Message::try_decode(&stream[..5]).unwrap().is_none());
    assert!(Message::try_decode(&stream[..first_len - 1]).unwrap().is_none());

    let (m1, used) = Message::try_decode(&stream).unwrap().unwrap();
    assert_eq!(used, first_len);
    assert_eq!(m1.topic, Topic::PageLoad);
    assert_eq!(m1.data, vec![1, 2]);

    let (m2, used2) = Message::try_decode(&stream[used..]).unwrap().unwrap();
    assert_eq!(used2, stream.len() - first_len);
    assert_eq!(m2.topic, Topic::PageClose);
    assert_eq!(m2.msg_id, second.msg_id);

    let mut bad = stream.clone();
    bad[0] = b'X';
    match Message::try_decode(&bad) {
        Err(EventBusError::Decode(text)) => assert_eq!(text, "invalid magic number"),
        other => panic!("unexpected {:?}", other),
    }
}

#[test]
fn raw_frames_keep_the_topic_code() {
    let bytes = encode_frame(5, MessageType::Event, 0x4242, 0, &vec![9]);
    let raw = decode_frame(&bytes, bytes.len()).unwrap();
    assert_eq!(raw.topic_code, 0x4242);
    let (raw2, used) = try_decode_frame(&bytes).unwrap().unwrap();
    assert_eq!(used, bytes.len());
    assert_eq!(raw2.data, vec![9]);
}

#[test]
fn handshake_data_of_each_side() {
    let browser = HandshakeData::browser("env_123".to_string());
    assert_eq!(browser.version, 1);
    assert_eq!(browser.env_id, "env_123");
    assert_eq!(browser.client_type, "browser");
    let tauri = HandshakeData::tauri_response();
    assert_eq!(tauri.env_id, "");
    assert_eq!(tauri.client_type, "tauri");
}

#[test]
fn event_bus_errors_read_as_text() {
    assert_eq!(EventBusError::NotConnected("x".into()).to_string(), "not connected: x");
    assert_eq!(EventBusError::UnknownTopic(513).to_string(), "unknown topic: 513");
    assert_eq!(EventBusError::Decode("bad".into()).to_string(), "decode error: bad");
    let io = EventBusError::Io(std::io::Error::new(std::io::ErrorKind::Other, "disk"));
    assert_eq!(io.to_string(), "io error: disk");
}

#[test]
fn frame_buffer_pops_whole_frames_and_keeps_the_rest() {
    let mut ids = MessageIds::new();
    let first = Message::event(&mut ids, Topic::PageLoad, vec![1, 2]).encode().unwrap();
    let second = Message::event(&mut ids, Topic::PageClose, vec![3]).encode().unwrap();

    let mut buffer = FrameBuffer::new();
    assert_eq!(buffer.len(), 0);
    assert!(buffer.try_pop().unwrap().is_none());

    buffer.extend(&first[..4]);
    assert_eq!(buffer.len(), 4);
    assert!(buffer.try_pop().unwrap().is_none());
    assert_eq!(buffer.len(), 4);

    buffer.extend(&first[4..]);
    buffer.extend(&second[..3]);
    assert_eq!(buffer.len(), first.len() + 3);

    let raw = buffer.try_pop().unwrap().unwrap();
    assert_eq!(Message::from_raw(raw).data, vec![1, 2]);
    assert_eq!(buffer.len(), 3);

    buffer.extend(&second[3..]);
    let raw = buffer.try_pop().unwrap().unwrap();
    let message = Message::from_raw(raw);
    assert_eq!(message.topic, Topic::PageClose);
    assert_eq!(message.data, vec![3]);
    assert_eq!(buffer.len(), 0);

    buffer.extend(&[0, 0, 0, 0, 1, 0, 0, 0, 0]);
    match buffer.try_pop() {
        Err(EventBusError::Decode(text)) => assert_eq!(text, "invalid magic number"),
        other => panic!("unexpected outcome: {:?}", other),
    }
    assert_eq!(buffer.len(), 9);
}

#[test]
fn message_kinds_read_from_bytes() {
    assert_eq!(MessageType::from(1u8), MessageType::Request);
    assert_eq!(MessageType::from(2u8), MessageType::Response);
    assert_eq!(MessageType::from(3u8), MessageType::Event);
    assert_eq!(MessageType::from(0u8), MessageType::Event);
    assert_eq!(MessageType::from(200u8), MessageType::Event);
}
