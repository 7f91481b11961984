use vstd::prelude::*;

verus! {

/// Bytes of a frame header on the wire (version, type, flags, sequence).
pub const HEADER_LEN: usize = 10;
/// Largest value the length prefix may carry: header plus payload.
pub const MAX_FRAME_LENGTH: usize = 65_536;

#[derive(Debug, Clone, Copy, PartialEq, Eq, Structural)]
pub struct FrameHeader {
    pub version: u16,
    pub message_type: u16,
    pub flags: u16,
    pub seq: u32,
}

#[derive(Debug, Clone, PartialEq, Eq)]
pub struct Frame {
    pub header: FrameHeader,
    pub payload: Vec<u8>,
}

/// A frame as a mathematical value: its header and its payload bytes.
pub struct FrameView {
    pub header: FrameHeader,
    pub payload: Seq<u8>,
}

impl View for Frame {
    type V = FrameView;

    open spec fn view(&self) -> FrameView {
        FrameView { header: self.header, payload: self.payload@ }
    }
}

/// Big-endian bytes of a 16-bit value.
pub open spec fn be16(n: u16) -> Seq<u8> {
    seq![(n / 256) as u8, (n % 256) as u8]
}

/// Big-endian bytes of a 32-bit value.
pub open spec fn be32(n: u32) -> Seq<u8> {
    seq![(n / 0x100_0000) as u8, ((n / 0x1_0000) % 256) as u8, ((n / 256) % 256) as u8, (n % 256) as u8]
}

/// The 16-bit value whose big-endian bytes start `s`.
pub open spec fn read_be16(s: Seq<u8>) -> u16 {
    (s[0] * 256 + s[1]) as u16
}

/// The 32-bit value whose big-endian bytes start `s`.
pub open spec fn read_be32(s: Seq<u8>) -> u32 {
    (s[0] * 0x100_0000 + s[1] * 0x1_0000 + s[2] * 256 + s[3]) as u32
}

/// The ten header bytes: version, message type, flags, sequence number.
pub open spec fn header_bytes(h: FrameHeader) -> Seq<u8> {
    be16(h.version) + be16(h.message_type) + be16(h.flags) + be32(h.seq)
}

/// The header encoded in the ten bytes that start `s`.
pub open spec fn read_header(s: Seq<u8>) -> FrameHeader {
    FrameHeader {
        version: read_be16(s),
        message_type: read_be16(s.skip(2)),
        flags: read_be16(s.skip(4)),
        seq: read_be32(s.skip(6)),
    }
}

/// Reading a 16-bit value back from its big-endian bytes gives the value.
pub proof fn lemma_be16_roundtrip(n: u16, rest: Seq<u8>)
    ensures
        read_be16(be16(n) + rest) == n,
{
    assert((be16(n) + rest)[0] == (n / 256) as u8);
    assert((be16(n) + rest)[1] == (n % 256) as u8);
    assert(((n / 256) as u8) * 256 + ((n % 256) as u8) == n) by (nonlinear_arith);
}

/// Reading a 32-bit value back from its big-endian bytes gives the value.
pub proof fn lemma_be32_roundtrip(n: u32, rest: Seq<u8>)
    ensures
        read_be32(be32(n) + rest) == n,
{
    let s = be32(n) + rest;
    assert(s[0] == (n / 0x100_0000) as u8);
    assert(s[1] == ((n / 0x1_0000) % 256) as u8);
    assert(s[2] == ((n / 256) % 256) as u8);
    assert(s[3] == (n % 256) as u8);
    assert(((n / 0x100_0000) as u8) * 0x100_0000 + (((n / 0x1_0000) % 256) as u8) * 0x1_0000
        + (((n / 256) % 256) as u8) * 256 + ((n % 256) as u8) == n) by (nonlinear_arith);
}

/// A header is ten bytes, reads back as itself, and is followed by what
/// came after it.
pub proof fn lemma_header_roundtrip(h: FrameHeader, rest: Seq<u8>)
    ensures
        header_bytes(h).len() == 10,
        read_header(header_bytes(h) + rest) == h,
        (header_bytes(h) + rest).skip(10) == rest,
{
    let s = header_bytes(h) + rest;
    lemma_be16_roundtrip(h.version, s.skip(2));
    assert(s == be16(h.version) + s.skip(2));
    lemma_be16_roundtrip(h.message_type, s.skip(4));
    assert(s.skip(2) == be16(h.message_type) + s.skip(4));
    lemma_be16_roundtrip(h.flags, s.skip(6));
    assert(s.skip(4) == be16(h.flags) + s.skip(6));
    lemma_be32_roundtrip(h.seq, rest);
    assert(s.skip(6) == be32(h.seq) + rest);
    assert(s.skip(10) == rest);
}

} // verus!
