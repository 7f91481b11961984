//! The byte buffer that frames are written to and read from, `bytes::BytesMut`,
//! and the operations of it that the framing code uses.
use vstd::prelude::*;
use bytes::{Buf, BufMut, BytesMut};
use crate::protocol::frame::{be16, be32, read_be16, read_be32};

verus! {

#[verifier::external_type_specification]
#[verifier::external_body]
pub struct ExBytesMut(BytesMut);

/// The bytes that a `BytesMut` holds, front first.
pub uninterp spec fn buffer_bytes(buf: BytesMut) -> Seq<u8>;

/// `BytesMut::with_capacity`: an empty buffer. It panics when the capacity
/// exceeds `isize::MAX`, which `requires` leaves out.
#[verifier::external_body]
pub(crate) fn buffer_with_capacity(capacity: usize) -> (buf: BytesMut)
    requires
        capacity <= isize::MAX,
    ensures
        buffer_bytes(buf) == Seq::<u8>::empty(),
{
    BytesMut::with_capacity(capacity)
}

/// `BufMut::put_u32` on `BytesMut`: appends the big-endian bytes of `n`.
/// Growing past `isize::MAX` bytes would panic, which `requires` leaves out.
#[verifier::external_body]
pub(crate) fn buffer_put_u32(buf: &mut BytesMut, n: u32)
    requires
        buffer_bytes(*old(buf)).len() + 4 <= isize::MAX,
    ensures
        buffer_bytes(*final(buf)) == buffer_bytes(*old(buf)) + be32(n),
{
    buf.put_u32(n)
}

/// `BufMut::put_u16` on `BytesMut`: appends the big-endian bytes of `n`.
#[verifier::external_body]
pub(crate) fn buffer_put_u16(buf: &mut BytesMut, n: u16)
    requires
        buffer_bytes(*old(buf)).len() + 2 <= isize::MAX,
    ensures
        buffer_bytes(*final(buf)) == buffer_bytes(*old(buf)) + be16(n),
{
    buf.put_u16(n)
}

/// `BytesMut::extend_from_slice`: appends `data`.
#[verifier::external_body]
pub(crate) fn buffer_extend_from_slice(buf: &mut BytesMut, data: &[u8])
    requires
        buffer_bytes(*old(buf)).len() + data@.len() <= isize::MAX,
    ensures
        buffer_bytes(*final(buf)) == buffer_bytes(*old(buf)) + data@,
{
    buf.extend_from_slice(data)
}

/// `<[u8]>::to_vec` through `BytesMut`'s `Deref`: a copy of the bytes.
#[verifier::external_body]
pub(crate) fn buffer_to_vec(buf: &BytesMut) -> (v: Vec<u8>)
    ensures
        v@ == buffer_bytes(*buf),
{
    buf.to_vec()
}

/// `BytesMut::len`: the number of bytes held.
#[verifier::external_body]
pub(crate) fn buffer_len(buf: &BytesMut) -> (n: usize)
    ensures
        n == buffer_bytes(*buf).len(),
{
    buf.len()
}

/// Indexing a `BytesMut` through `Deref`: the byte at `i`, which must be in bounds.
#[verifier::external_body]
pub(crate) fn buffer_byte_at(buf: &BytesMut, i: usize) -> (b: u8)
    requires
        i < buffer_bytes(*buf).len(),
    ensures
        b == buffer_bytes(*buf)[i as int],
{
    buf[i]
}

/// `Buf::advance` on `BytesMut`: drops the first `count` bytes.
#[verifier::external_body]
pub(crate) fn buffer_advance(buf: &mut BytesMut, count: usize)
    requires
        count <= buffer_bytes(*old(buf)).len(),
    ensures
        buffer_bytes(*final(buf)) == buffer_bytes(*old(buf)).skip(count as int),
{
    buf.advance(count)
}

/// `Buf::get_u16` on `BytesMut`: reads a big-endian value and drops its two bytes.
#[verifier::external_body]
pub(crate) fn buffer_get_u16(buf: &mut BytesMut) -> (n: u16)
    requires
        buffer_bytes(*old(buf)).len() >= 2,
    ensures
        n == read_be16(buffer_bytes(*old(buf))),
        buffer_bytes(*final(buf)) == buffer_bytes(*old(buf)).skip(2),
{
    buf.get_u16()
}

/// `Buf::get_u32` on `BytesMut`: reads a big-endian value and drops its four bytes.
#[verifier::external_body]
pub(crate) fn buffer_get_u32(buf: &mut BytesMut) -> (n: u32)
    requires
        buffer_bytes(*old(buf)).len() >= 4,
    ensures
        n == read_be32(buffer_bytes(*old(buf))),
        buffer_bytes(*final(buf)) == buffer_bytes(*old(buf)).skip(4),
{
    buf.get_u32()
}

/// `BytesMut::split_to` followed by a copy into a `Vec`: removes the first
/// `at` bytes from the buffer and returns them.
#[verifier::external_body]
pub(crate) fn buffer_split_to_vec(buf: &mut BytesMut, at: usize) -> (front: Vec<u8>)
    requires
        at <= buffer_bytes(*old(buf)).len(),
    ensures
        front@ == buffer_bytes(*old(buf)).take(at as int),
        buffer_bytes(*final(buf)) == buffer_bytes(*old(buf)).skip(at as int),
{
    buf.split_to(at).to_vec()
}

} // verus!
