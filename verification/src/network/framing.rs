//! Length-prefixed framing: a frame travels as a 32-bit big-endian length
//! (header plus payload), the ten header bytes, then the payload.
use vstd::prelude::*;
use bytes::BytesMut;
use crate::network::buffer::{
    buffer_advance, buffer_byte_at, buffer_bytes, buffer_extend_from_slice, buffer_get_u16,
    buffer_get_u32, buffer_len, buffer_put_u16, buffer_put_u32, buffer_split_to_vec,
    buffer_to_vec, buffer_with_capacity,
};
use crate::protocol::frame::{
    be32, header_bytes, lemma_be32_roundtrip, lemma_header_roundtrip, read_be32, read_header,
    Frame, FrameHeader, FrameView, HEADER_LEN, MAX_FRAME_LENGTH,
};

verus! {

#[derive(Debug, Clone, Copy, PartialEq, Eq, Structural)]
pub enum FrameError {
    /// The frame would exceed `MAX_FRAME_LENGTH`.
    FrameTooLarge,
    /// The buffer does not hold a whole frame yet.
    Incomplete,
    /// The length prefix is smaller than a header.
    InvalidFrameLength,
}

/// Whether a frame fits under the length limit.
pub open spec fn encodable(f: FrameView) -> bool {
    HEADER_LEN + f.payload.len() <= MAX_FRAME_LENGTH
}

/// The bytes that stand for a frame on the wire.
pub open spec fn frame_bytes(f: FrameView) -> Seq<u8> {
    be32((HEADER_LEN + f.payload.len()) as u32) + header_bytes(f.header) + f.payload
}

/// What decoding the front of `buf` gives, and what stays in the buffer.
/// On an error nothing is consumed.
pub open spec fn decode_result(buf: Seq<u8>) -> (Result<FrameView, FrameError>, Seq<u8>) {
    if buf.len() < 4 {
        (Err(FrameError::Incomplete), buf)
    } else {
        let n = read_be32(buf);
        if n > MAX_FRAME_LENGTH {
            (Err(FrameError::FrameTooLarge), buf)
        } else if buf.len() < 4 + n {
            (Err(FrameError::Incomplete), buf)
        } else if n < HEADER_LEN {
            (Err(FrameError::InvalidFrameLength), buf)
        } else {
            (
                Ok(FrameView { header: read_header(buf.skip(4)), payload: buf.subrange(14, 4 + n) }),
                buf.skip(4 + n),
            )
        }
    }
}

/// The mathematical value of a decode outcome.
pub open spec fn frame_result_view(r: Result<Frame, FrameError>) -> Result<FrameView, FrameError> {
    match r {
        Ok(f) => Ok(f@),
        Err(e) => Err(e),
    }
}

/// Encodes a frame, or refuses one whose header and payload exceed `MAX_FRAME_LENGTH`.
pub fn encode_frame(frame: &Frame) -> (res: Result<Vec<u8>, FrameError>)
    ensures
        match res {
            Ok(bytes) => encodable(frame@) && bytes@ == frame_bytes(frame@),
            Err(e) => !encodable(frame@) && e == FrameError::FrameTooLarge,
        },
{
    let payload_len = frame.payload.len();
    if payload_len > MAX_FRAME_LENGTH - HEADER_LEN {
        return Err(FrameError::FrameTooLarge);
    }
    let total_len = HEADER_LEN + payload_len;

    let mut buffer = buffer_with_capacity(4 + total_len);
    buffer_put_u32(&mut buffer, total_len as u32);
    buffer_put_u16(&mut buffer, frame.header.version);
    buffer_put_u16(&mut buffer, frame.header.message_type);
    buffer_put_u16(&mut buffer, frame.header.flags);
    buffer_put_u32(&mut buffer, frame.header.seq);
    buffer_extend_from_slice(&mut buffer, frame.payload.as_slice());
    let bytes = buffer_to_vec(&buffer);
    assert(bytes@ =~= frame_bytes(frame@));
    Ok(bytes)
}

/// Takes one frame off the front of `buffer`. On an error the buffer is left
/// as it was.
pub fn decode_frame(buffer: &mut BytesMut) -> (res: Result<Frame, FrameError>)
    ensures
        (frame_result_view(res), buffer_bytes(*final(buffer))) == decode_result(
            buffer_bytes(*old(buffer)),
        ),
{
    let ghost start = buffer_bytes(*buffer);
    if buffer_len(buffer) < 4 {
        return Err(FrameError::Incomplete);
    }

    let b0 = buffer_byte_at(buffer, 0) as u32;
    let b1 = buffer_byte_at(buffer, 1) as u32;
    let b2 = buffer_byte_at(buffer, 2) as u32;
    let b3 = buffer_byte_at(buffer, 3) as u32;
    let frame_len = (b0 * 0x100_0000 + b1 * 0x1_0000 + b2 * 256 + b3) as usize;
    assert(frame_len == read_be32(start));
    if frame_len > MAX_FRAME_LENGTH {
        return Err(FrameError::FrameTooLarge);
    }
    if buffer_len(buffer) < 4 + frame_len {
        return Err(FrameError::Incomplete);
    }
    if frame_len < HEADER_LEN {
        return Err(FrameError::InvalidFrameLength);
    }

    buffer_advance(buffer, 4);
    let version = buffer_get_u16(buffer);
    let message_type = buffer_get_u16(buffer);
    let flags = buffer_get_u16(buffer);
    let seq = buffer_get_u32(buffer);
    let payload_len = frame_len - HEADER_LEN;
    let payload = buffer_split_to_vec(buffer, payload_len);

    proof {
        assert(start.skip(4).skip(2) =~= start.skip(6));
        assert(start.skip(6).skip(2) =~= start.skip(8));
        assert(start.skip(8).skip(2) =~= start.skip(10));
        assert(start.skip(10).skip(4) =~= start.skip(14));
        assert(start.skip(14).take(payload_len as int) =~= start.subrange(14, 4 + frame_len));
        assert(start.skip(14).skip(payload_len as int) =~= start.skip(4 + frame_len));
    }

    Ok(Frame { header: FrameHeader { version, message_type, flags, seq }, payload })
}

/// Decoding what `encode_frame` wrote gives the frame back and consumes exactly
/// its bytes, whatever follows them in the buffer.
pub proof fn lemma_decode_of_encode(f: FrameView, rest: Seq<u8>)
    requires
        encodable(f),
    ensures
        decode_result(frame_bytes(f) + rest) == (Ok::<FrameView, FrameError>(f), rest),
{
    let n = (HEADER_LEN + f.payload.len()) as u32;
    let s = frame_bytes(f) + rest;
    lemma_be32_roundtrip(n, header_bytes(f.header) + f.payload + rest);
    assert(s =~= be32(n) + (header_bytes(f.header) + f.payload + rest));
    lemma_header_roundtrip(f.header, f.payload + rest);
    assert(s.skip(4) =~= header_bytes(f.header) + (f.payload + rest));
    assert(s.subrange(14, 4 + n) =~= f.payload);
    assert(s.skip(4 + n) =~= rest);
}

/// Any proper prefix of an encoded frame decodes as `Incomplete` and is kept whole.
pub proof fn lemma_decode_of_truncated(f: FrameView, k: int)
    requires
        encodable(f),
        0 <= k < frame_bytes(f).len(),
    ensures
        decode_result(frame_bytes(f).take(k)) == (
            Err::<FrameView, FrameError>(FrameError::Incomplete),
            frame_bytes(f).take(k),
        ),
{
    let n = (HEADER_LEN + f.payload.len()) as u32;
    let p = frame_bytes(f).take(k);
    if k >= 4 {
        lemma_be32_roundtrip(n, p.skip(4));
        assert(p =~= be32(n) + p.skip(4));
    }
}

} // verus!
