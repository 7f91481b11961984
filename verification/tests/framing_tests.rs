use bytes::{BufMut, BytesMut};
use flowlink::{
    network::framing::{decode_frame, encode_frame, FrameError},
    protocol::{
        frame::{Frame, FrameHeader, HEADER_LEN, MAX_FRAME_LENGTH},
        messages::MessageType,
        version::PROTOCOL_VERSION,
    },
};

fn test_frame(payload: Vec<u8>) -> Frame {
    Frame {
        header: FrameHeader {
            version: PROTOCOL_VERSION,
            message_type: MessageType::HeartbeatPing.code(),
            flags: 0,
            seq: 42,
        },
        payload,
    }
}

#[test]
fn encode_decode_round_trip_preserves_frame() {
    let frame = test_frame(vec![1, 2, 3, 4, 5]);

    let encoded = encode_frame(&frame).expect("encode");
    let mut buffer = BytesMut::from(encoded.as_slice());
    let decoded = decode_frame(&mut buffer).expect("decode");

    assert_eq!(decoded, frame);
    assert!(buffer.is_empty());
}

#[test]
fn encode_rejects_payloads_above_max_frame_length() {
    let frame = test_frame(vec![0; MAX_FRAME_LENGTH - HEADER_LEN + 1]);

    let result = encode_frame(&frame);

    assert!(matches!(result, Err(FrameError::FrameTooLarge)));
}

#[test]
fn decode_returns_incomplete_for_truncated_frame() {
    let frame = test_frame(vec![1, 2, 3]);
    let encoded = encode_frame(&frame).expect("encode");
    let mut truncated = BytesMut::from(&encoded[..encoded.len() - 1]);

    let result = decode_frame(&mut truncated);

    assert!(matches!(result, Err(FrameError::Incomplete)));
}

#[test]
fn decode_rejects_length_smaller_than_header() {
    let mut buffer = BytesMut::new();
    buffer.put_u32((HEADER_LEN - 1) as u32);
    buffer.extend_from_slice(&[0; HEADER_LEN - 1]);

    let result = decode_frame(&mut buffer);

    assert!(matches!(result, Err(FrameError::InvalidFrameLength)));
}

#[test]
fn encoded_frame_has_length_prefix_header_and_payload() {
    let frame = Frame {
        header: FrameHeader { version: 1, message_type: 0x0203, flags: 0x0405, seq: 0x0607_0809 },
        payload: vec![0xAA, 0xBB],
    };

    let encoded = encode_frame(&frame).expect("encode");

    assert_eq!(
        encoded,
        vec![0, 0, 0, 12, 0, 1, 2, 3, 4, 5, 6, 7, 8, 9, 0xAA, 0xBB]
    );
}

#[test]
fn frame_of_exactly_max_length_is_accepted() {
    let frame = test_frame(vec![7; MAX_FRAME_LENGTH - HEADER_LEN]);

    let encoded = encode_frame(&frame).expect("encode");

    assert_eq!(encoded.len(), 4 + MAX_FRAME_LENGTH);
    let mut buffer = BytesMut::from(encoded.as_slice());
    assert_eq!(decode_frame(&mut buffer).expect("decode"), frame);
}

#[test]
fn decode_rejects_length_above_maximum_and_keeps_buffer() {
    let mut buffer = BytesMut::new();
    buffer.put_u32((MAX_FRAME_LENGTH + 1) as u32);

    let result = decode_frame(&mut buffer);

    assert!(matches!(result, Err(FrameError::FrameTooLarge)));
    assert_eq!(buffer.len(), 4);
}

#[test]
fn decode_needs_four_length_bytes() {
    let mut buffer = BytesMut::from(&[0u8, 0, 0][..]);

    assert!(matches!(decode_frame(&mut buffer), Err(FrameError::Incomplete)));
    assert_eq!(buffer.len(), 3);
}

#[test]
fn decode_leaves_following_frame_in_buffer() {
    let first = test_frame(vec![1]);
    let second = test_frame(vec![2, 3]);
    let mut bytes = encode_frame(&first).expect("encode");
    bytes.extend(encode_frame(&second).expect("encode"));
    let mut buffer = BytesMut::from(bytes.as_slice());

    assert_eq!(decode_frame(&mut buffer).expect("first"), first);
    assert_eq!(decode_frame(&mut buffer).expect("second"), second);
    assert!(buffer.is_empty());
}

#[test]
fn empty_payload_round_trips() {
    let frame = test_frame(Vec::new());
    let encoded = encode_frame(&frame).expect("encode");
    assert_eq!(encoded.len(), 4 + HEADER_LEN);
    let mut buffer = BytesMut::from(encoded.as_slice());
    assert_eq!(decode_frame(&mut buffer).expect("decode"), frame);
}

#[test]
fn short_declared_length_waits_for_missing_bytes() {
    let mut buffer = BytesMut::from(&[0u8, 0, 0, 9, 0, 0][..]);

    let result = decode_frame(&mut buffer);

    assert!(matches!(result, Err(FrameError::Incomplete)));
    assert_eq!(&buffer[..], &[0u8, 0, 0, 9, 0, 0][..]);
}
