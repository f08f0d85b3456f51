//! Trusted view of the byte buffers of the `bytes` crate.
//!
//! The rest of the crate reads and writes wire bytes only through the
//! functions here. `Bytes` is an owned, immutable buffer consumed by
//! splitting from the front; `BytesMut` is a growable buffer appended to at
//! the back. Each is modelled by the sequence of bytes it currently holds,
//! named by [`bytes_view`] and [`bytes_mut_view`].

use vstd::prelude::*;
use bytes::{Buf, BufMut, Bytes, BytesMut};

verus! {

#[verifier::external_type_specification]
#[verifier::external_body]
pub struct ExBytes(Bytes);

#[verifier::external_type_specification]
#[verifier::external_body]
pub struct ExBytesMut(BytesMut);

/// The bytes a `Bytes` buffer holds, front to back.
pub uninterp spec fn bytes_view(b: Bytes) -> Seq<u8>;

/// The bytes a `BytesMut` buffer holds, front to back.
pub uninterp spec fn bytes_mut_view(b: BytesMut) -> Seq<u8>;

/// Relies on `bytes::Bytes::len`: how many bytes the buffer holds.
#[verifier::external_body]
pub fn bytes_len(b: &Bytes) -> (n: usize)
    ensures
        n == bytes_view(*b).len(),
{
    b.len()
}

/// Relies on `From<Vec<u8>> for Bytes`: the buffer takes over the vector's
/// bytes unchanged.
#[verifier::external_body]
pub fn bytes_from_vec(v: Vec<u8>) -> (r: Bytes)
    ensures
        bytes_view(r) == v@,
{
    Bytes::from(v)
}

/// Relies on `bytes::Bytes::split_to`: afterwards the buffer holds the bytes
/// from `at` on, and the returned buffer the first `at` bytes.
#[verifier::external_body]
pub fn split_to(b: &mut Bytes, at: usize) -> (r: Bytes)
    requires
        at <= bytes_view(*old(b)).len(),
    ensures
        bytes_view(r) == bytes_view(*old(b)).take(at as int),
        bytes_view(*final(b)) == bytes_view(*old(b)).skip(at as int),
{
    b.split_to(at)
}

/// Relies on `bytes::Bytes::split_off`: afterwards the buffer holds the first
/// `at` bytes, and the returned buffer the bytes from `at` on.
#[verifier::external_body]
pub fn split_off(b: &mut Bytes, at: usize) -> (r: Bytes)
    requires
        at <= bytes_view(*old(b)).len(),
    ensures
        bytes_view(r) == bytes_view(*old(b)).skip(at as int),
        bytes_view(*final(b)) == bytes_view(*old(b)).take(at as int),
{
    b.split_off(at)
}

/// Relies on `bytes::Buf::get_u16_le` for `Bytes`: reads the first two bytes
/// as a little-endian unsigned integer and advances past them.
#[verifier::external_body]
pub fn get_u16_le(b: &mut Bytes) -> (r: u16)
    requires
        bytes_view(*old(b)).len() >= 2,
    ensures
        r == vstd::bytes::spec_u16_from_le_bytes(bytes_view(*old(b)).take(2)),
        bytes_view(*final(b)) == bytes_view(*old(b)).skip(2),
{
    b.get_u16_le()
}

/// Relies on `bytes::BytesMut::new`: an empty buffer.
#[verifier::external_body]
pub fn bytes_mut_new() -> (r: BytesMut)
    ensures
        bytes_mut_view(r) == Seq::<u8>::empty(),
{
    BytesMut::new()
}

/// Relies on `bytes::BufMut::put_u8` for `BytesMut`: appends one byte.
#[verifier::external_body]
pub fn put_u8(dst: &mut BytesMut, v: u8)
    ensures
        bytes_mut_view(*final(dst)) == bytes_mut_view(*old(dst)).push(v),
{
    dst.put_u8(v)
}

/// Relies on `bytes::BufMut::put_u16_le` for `BytesMut`: appends two bytes,
/// least significant first.
#[verifier::external_body]
pub fn put_u16_le(dst: &mut BytesMut, v: u16)
    ensures
        bytes_mut_view(*final(dst)) == bytes_mut_view(*old(dst))
            + vstd::bytes::spec_u16_to_le_bytes(v),
{
    dst.put_u16_le(v)
}

/// Relies on `bytes::BufMut::put_u32_le` for `BytesMut`: appends four bytes,
/// least significant first.
#[verifier::external_body]
pub fn put_u32_le(dst: &mut BytesMut, v: u32)
    ensures
        bytes_mut_view(*final(dst)) == bytes_mut_view(*old(dst))
            + vstd::bytes::spec_u32_to_le_bytes(v),
{
    dst.put_u32_le(v)
}

/// Relies on `bytes::BufMut::put_u64_le` for `BytesMut`: appends eight bytes,
/// least significant first.
#[verifier::external_body]
pub fn put_u64_le(dst: &mut BytesMut, v: u64)
    ensures
        bytes_mut_view(*final(dst)) == bytes_mut_view(*old(dst))
            + vstd::bytes::spec_u64_to_le_bytes(v),
{
    dst.put_u64_le(v)
}

/// Relies on `bytes::BufMut::put_u128_le` for `BytesMut`: appends sixteen
/// bytes, least significant first.
#[verifier::external_body]
pub fn put_u128_le(dst: &mut BytesMut, v: u128)
    ensures
        bytes_mut_view(*final(dst)) == bytes_mut_view(*old(dst))
            + vstd::bytes::spec_u128_to_le_bytes(v),
{
    dst.put_u128_le(v)
}

/// Relies on `bytes::BufMut::put_slice` for `BytesMut`: appends the slice's
/// bytes.
#[verifier::external_body]
pub fn put_slice(dst: &mut BytesMut, src: &[u8])
    ensures
        bytes_mut_view(*final(dst)) == bytes_mut_view(*old(dst)) + src@,
{
    dst.put_slice(src)
}

/// Relies on `bytes::BufMut::put_slice` for `BytesMut`, through the deref of
/// `Bytes` to a byte slice: appends the source buffer's bytes.
#[verifier::external_body]
pub fn put_bytes(dst: &mut BytesMut, src: &Bytes)
    ensures
        bytes_mut_view(*final(dst)) == bytes_mut_view(*old(dst)) + bytes_view(*src),
{
    dst.put_slice(src)
}

/// Relies on `bytes::BytesMut::freeze`: the frozen buffer holds the same
/// bytes.
#[verifier::external_body]
pub fn freeze(buf: BytesMut) -> (r: Bytes)
    ensures
        bytes_view(r) == bytes_mut_view(buf),
{
    buf.freeze()
}

} // verus!
