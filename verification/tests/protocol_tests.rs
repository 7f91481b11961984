use bytes::BytesMut;
use flowlink::{
    network::framing::{decode_frame, encode_frame},
    protocol::{
        frame::{Frame, FrameHeader},
        messages::MessageType,
        version::PROTOCOL_VERSION,
    },
};

#[test]
fn frame_round_trip_preserves_header_and_payload() {
    let frame = Frame {
        header: FrameHeader {
            version: PROTOCOL_VERSION,
            message_type: MessageType::HeartbeatPing.code(),
            flags: 0,
            seq: 7,
        },
        payload: vec![1, 2, 3, 4],
    };

    let encoded = encode_frame(&frame).expect("encode");
    let mut buffer = BytesMut::from(encoded.as_slice());
    let decoded = decode_frame(&mut buffer).expect("decode");

    assert_eq!(decoded, frame);
}

#[test]
fn message_type_codes_round_trip() {
    assert_eq!(MessageType::HeartbeatPing.code(), 50);
    assert_eq!(MessageType::Goodbye.code(), 99);
    assert_eq!(MessageType::from_code(41), Some(MessageType::MouseButton));
    assert_eq!(MessageType::from_code(3), None);
}
