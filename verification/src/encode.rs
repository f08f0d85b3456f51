//! The policy-generic encode value model: a primitive encoder trait fixing
//! the byte order, and a per-type contract for writing wire bytes and for
//! precomputing their exact count, composed recursively over containers.
//!
//! One composed value graph serializes unchanged under different byte-order
//! policies; the byte count of a value is the same under every policy.

use vstd::prelude::*;
use bytes::{Bytes, BytesMut};
use crate::buffer::{
    bytes_len, bytes_mut_view, bytes_view, put_bytes, put_slice, put_u128_le, put_u16_le,
    put_u32_le, put_u64_le, put_u8,
};
use crate::codec::{
    concat_seqs, lemma_concat_seqs_take_all, lemma_concat_seqs_take_succ, Encodable,
};
use crate::error::Error;

verus! {

/// A byte-order policy: how each fixed-width scalar turns into bytes.
///
/// A signed scalar encodes as its unsigned reinterpretation, so the policy
/// is stated over the unsigned widths and `bool` alone. Encoding never
/// fails and never changes the policy value itself.
pub trait Encoder: Sized {
    /// The wire bytes of a boolean under this policy.
    spec fn bytes_bool(&self, v: bool) -> Seq<u8>;

    /// The wire bytes of an 8-bit scalar under this policy.
    spec fn bytes_u8(&self, v: u8) -> Seq<u8>;

    /// The wire bytes of a 16-bit scalar under this policy.
    spec fn bytes_u16(&self, v: u16) -> Seq<u8>;

    /// The wire bytes of a 32-bit scalar under this policy.
    spec fn bytes_u32(&self, v: u32) -> Seq<u8>;

    /// The wire bytes of a 64-bit scalar under this policy.
    spec fn bytes_u64(&self, v: u64) -> Seq<u8>;

    /// The wire bytes of a 128-bit scalar under this policy.
    spec fn bytes_u128(&self, v: u128) -> Seq<u8>;

    /// A boolean always encodes to one byte.
    proof fn lemma_width_bool(&self, v: bool)
        ensures
            self.bytes_bool(v).len() == 1,
    ;

    /// An 8-bit scalar always encodes to one byte.
    proof fn lemma_width_u8(&self, v: u8)
        ensures
            self.bytes_u8(v).len() == 1,
    ;

    /// A 16-bit scalar always encodes to two bytes.
    proof fn lemma_width_u16(&self, v: u16)
        ensures
            self.bytes_u16(v).len() == 2,
    ;

    /// A 32-bit scalar always encodes to four bytes.
    proof fn lemma_width_u32(&self, v: u32)
        ensures
            self.bytes_u32(v).len() == 4,
    ;

    /// A 64-bit scalar always encodes to eight bytes.
    proof fn lemma_width_u64(&self, v: u64)
        ensures
            self.bytes_u64(v).len() == 8,
    ;

    /// A 128-bit scalar always encodes to sixteen bytes.
    proof fn lemma_width_u128(&self, v: u128)
        ensures
            self.bytes_u128(v).len() == 16,
    ;

    fn encode_bool(&mut self, item: bool, buf: &mut BytesMut) -> (r: Result<(), Error>)
        ensures
            r is Ok,
            *final(self) == *old(self),
            bytes_mut_view(*final(buf)) == bytes_mut_view(*old(buf)) + old(self).bytes_bool(
                item,
            ),
    ;

    fn encode_u8(&mut self, item: u8, buf: &mut BytesMut) -> (r: Result<(), Error>)
        ensures
            r is Ok,
            *final(self) == *old(self),
            bytes_mut_view(*final(buf)) == bytes_mut_view(*old(buf)) + old(self).bytes_u8(item),
    ;

    fn encode_i8(&mut self, item: i8, buf: &mut BytesMut) -> (r: Result<(), Error>)
        ensures
            r is Ok,
            *final(self) == *old(self),
            bytes_mut_view(*final(buf)) == bytes_mut_view(*old(buf)) + old(self).bytes_u8(
                item as u8,
            ),
    ;

    fn encode_u16(&mut self, item: u16, buf: &mut BytesMut) -> (r: Result<(), Error>)
        ensures
            r is Ok,
            *final(self) == *old(self),
            bytes_mut_view(*final(buf)) == bytes_mut_view(*old(buf)) + old(self).bytes_u16(
                item,
            ),
    ;

    fn encode_i16(&mut self, item: i16, buf: &mut BytesMut) -> (r: Result<(), Error>)
        ensures
            r is Ok,
            *final(self) == *old(self),
            bytes_mut_view(*final(buf)) == bytes_mut_view(*old(buf)) + old(self).bytes_u16(
                item as u16,
            ),
    ;

    fn encode_u32(&mut self, item: u32, buf: &mut BytesMut) -> (r: Result<(), Error>)
        ensures
            r is Ok,
            *final(self) == *old(self),
            bytes_mut_view(*final(buf)) == bytes_mut_view(*old(buf)) + old(self).bytes_u32(
                item,
            ),
    ;

    fn encode_i32(&mut self, item: i32, buf: &mut BytesMut) -> (r: Result<(), Error>)
        ensures
            r is Ok,
            *final(self) == *old(self),
            bytes_mut_view(*final(buf)) == bytes_mut_view(*old(buf)) + old(self).bytes_u32(
                item as u32,
            ),
    ;

    fn encode_u64(&mut self, item: u64, buf: &mut BytesMut) -> (r: Result<(), Error>)
        ensures
            r is Ok,
            *final(self) == *old(self),
            bytes_mut_view(*final(buf)) == bytes_mut_view(*old(buf)) + old(self).bytes_u64(
                item,
            ),
    ;

    fn encode_i64(&mut self, item: i64, buf: &mut BytesMut) -> (r: Result<(), Error>)
        ensures
            r is Ok,
            *final(self) == *old(self),
            bytes_mut_view(*final(buf)) == bytes_mut_view(*old(buf)) + old(self).bytes_u64(
                item as u64,
            ),
    ;

    fn encode_u128(&mut self, item: u128, buf: &mut BytesMut) -> (r: Result<(), Error>)
        ensures
            r is Ok,
            *final(self) == *old(self),
            bytes_mut_view(*final(buf)) == bytes_mut_view(*old(buf)) + old(self).bytes_u128(
                item,
            ),
    ;

    fn encode_i128(&mut self, item: i128, buf: &mut BytesMut) -> (r: Result<(), Error>)
        ensures
            r is Ok,
            *final(self) == *old(self),
            bytes_mut_view(*final(buf)) == bytes_mut_view(*old(buf)) + old(self).bytes_u128(
                item as u128,
            ),
    ;
}

/// The little-endian byte-order policy: every multi-byte scalar is written
/// least significant byte first, as EtherNet/IP requires throughout.
#[derive(Debug, Clone, Copy, PartialEq, Eq, Structural)]
pub struct LittleEndianEncoder;

impl Encoder for LittleEndianEncoder {
    open spec fn bytes_bool(&self, v: bool) -> Seq<u8> {
        if v {
            seq![1u8]
        } else {
            seq![0u8]
        }
    }

    open spec fn bytes_u8(&self, v: u8) -> Seq<u8> {
        seq![v]
    }

    open spec fn bytes_u16(&self, v: u16) -> Seq<u8> {
        vstd::bytes::spec_u16_to_le_bytes(v)
    }

    open spec fn bytes_u32(&self, v: u32) -> Seq<u8> {
        vstd::bytes::spec_u32_to_le_bytes(v)
    }

    open spec fn bytes_u64(&self, v: u64) -> Seq<u8> {
        vstd::bytes::spec_u64_to_le_bytes(v)
    }

    open spec fn bytes_u128(&self, v: u128) -> Seq<u8> {
        vstd::bytes::spec_u128_to_le_bytes(v)
    }

    proof fn lemma_width_bool(&self, v: bool) {
    }

    proof fn lemma_width_u8(&self, v: u8) {
    }

    proof fn lemma_width_u16(&self, v: u16) {
        vstd::bytes::lemma_auto_spec_u16_to_from_le_bytes();
    }

    proof fn lemma_width_u32(&self, v: u32) {
        vstd::bytes::lemma_auto_spec_u32_to_from_le_bytes();
    }

    proof fn lemma_width_u64(&self, v: u64) {
        vstd::bytes::lemma_auto_spec_u64_to_from_le_bytes();
    }

    proof fn lemma_width_u128(&self, v: u128) {
        vstd::bytes::lemma_auto_spec_u128_to_from_le_bytes();
    }

    fn encode_bool(&mut self, item: bool, buf: &mut BytesMut) -> (r: Result<(), Error>) {
        let b: u8 = if item {
            1
        } else {
            0
        };
        put_u8(buf, b);
        proof {
            assert(bytes_mut_view(*buf) =~= bytes_mut_view(*old(buf)) + old(self).bytes_bool(
                item,
            ));
        }
        Ok(())
    }

    fn encode_u8(&mut self, item: u8, buf: &mut BytesMut) -> (r: Result<(), Error>) {
        put_u8(buf, item);
        proof {
            assert(bytes_mut_view(*buf) =~= bytes_mut_view(*old(buf)) + old(self).bytes_u8(
                item,
            ));
        }
        Ok(())
    }

    fn encode_i8(&mut self, item: i8, buf: &mut BytesMut) -> (r: Result<(), Error>) {
        put_u8(buf, item as u8);
        proof {
            assert(bytes_mut_view(*buf) =~= bytes_mut_view(*old(buf)) + old(self).bytes_u8(
                item as u8,
            ));
        }
        Ok(())
    }

    fn encode_u16(&mut self, item: u16, buf: &mut BytesMut) -> (r: Result<(), Error>) {
        put_u16_le(buf, item);
        Ok(())
    }

    fn encode_i16(&mut self, item: i16, buf: &mut BytesMut) -> (r: Result<(), Error>) {
        put_u16_le(buf, item as u16);
        Ok(())
    }

    fn encode_u32(&mut self, item: u32, buf: &mut BytesMut) -> (r: Result<(), Error>) {
        put_u32_le(buf, item);
        Ok(())
    }

    fn encode_i32(&mut self, item: i32, buf: &mut BytesMut) -> (r: Result<(), Error>) {
        put_u32_le(buf, item as u32);
        Ok(())
    }

    fn encode_u64(&mut self, item: u64, buf: &mut BytesMut) -> (r: Result<(), Error>) {
        put_u64_le(buf, item);
        Ok(())
    }

    fn encode_i64(&mut self, item: i64, buf: &mut BytesMut) -> (r: Result<(), Error>) {
        put_u64_le(buf, item as u64);
        Ok(())
    }

    fn encode_u128(&mut self, item: u128, buf: &mut BytesMut) -> (r: Result<(), Error>) {
        put_u128_le(buf, item);
        Ok(())
    }

    fn encode_i128(&mut self, item: i128, buf: &mut BytesMut) -> (r: Result<(), Error>) {
        put_u128_le(buf, item as u128);
        Ok(())
    }
}

/// A value encodable under any byte-order policy `A`.
///
/// `enc` is the value's exact wire bytes under a policy; `enc_len` its byte
/// count, which no policy changes. Encoding never fails for the value
/// model's own types; a failure of an inner step would propagate unchanged,
/// with no partial-write rollback.
pub trait Encode<A: Encoder>: Sized {
    /// The value's wire bytes under the given policy.
    spec fn enc(&self, policy: A) -> Seq<u8>;

    /// The value's encoded byte count, the same under every policy.
    spec fn enc_len(&self) -> nat;

    /// The length law tying `enc` to `enc_len` for every policy.
    proof fn lemma_enc_len(&self, policy: A)
        ensures
            self.enc(policy).len() == self.enc_len(),
    ;

    /// Appends the value's wire bytes, consuming the value.
    fn encode(self, buf: &mut BytesMut, encoder: &mut A) -> (r: Result<(), Error>)
        ensures
            r is Ok,
            *final(encoder) == *old(encoder),
            bytes_mut_view(*final(buf)) == bytes_mut_view(*old(buf)) + self.enc(*old(encoder)),
    {
        self.encode_by_ref(buf, encoder)
    }

    /// Appends the value's wire bytes.
    fn encode_by_ref(&self, buf: &mut BytesMut, encoder: &mut A) -> (r: Result<(), Error>)
        ensures
            r is Ok,
            *final(encoder) == *old(encoder),
            bytes_mut_view(*final(buf)) == bytes_mut_view(*old(buf)) + self.enc(*old(encoder)),
    ;

    /// The exact number of bytes `encode` would append.
    fn bytes_count(&self) -> (n: usize)
        requires
            self.enc_len() <= usize::MAX,
        ensures
            n == self.enc_len(),
    ;
}

impl<A: Encoder> Encode<A> for bool {
    open spec fn enc(&self, policy: A) -> Seq<u8> {
        policy.bytes_bool(*self)
    }

    open spec fn enc_len(&self) -> nat {
        1
    }

    proof fn lemma_enc_len(&self, policy: A) {
        policy.lemma_width_bool(*self);
    }

    fn encode_by_ref(&self, buf: &mut BytesMut, encoder: &mut A) -> (r: Result<(), Error>) {
        encoder.encode_bool(*self, buf)
    }

    fn bytes_count(&self) -> (n: usize) {
        1
    }
}

impl<A: Encoder> Encode<A> for u8 {
    open spec fn enc(&self, policy: A) -> Seq<u8> {
        policy.bytes_u8(*self)
    }

    open spec fn enc_len(&self) -> nat {
        1
    }

    proof fn lemma_enc_len(&self, policy: A) {
        policy.lemma_width_u8(*self);
    }

    fn encode_by_ref(&self, buf: &mut BytesMut, encoder: &mut A) -> (r: Result<(), Error>) {
        encoder.encode_u8(*self, buf)
    }

    fn bytes_count(&self) -> (n: usize) {
        1
    }
}

impl<A: Encoder> Encode<A> for i8 {
    open spec fn enc(&self, policy: A) -> Seq<u8> {
        policy.bytes_u8(*self as u8)
    }

    open spec fn enc_len(&self) -> nat {
        1
    }

    proof fn lemma_enc_len(&self, policy: A) {
        policy.lemma_width_u8(*self as u8);
    }

    fn encode_by_ref(&self, buf: &mut BytesMut, encoder: &mut A) -> (r: Result<(), Error>) {
        encoder.encode_i8(*self, buf)
    }

    fn bytes_count(&self) -> (n: usize) {
        1
    }
}

impl<A: Encoder> Encode<A> for u16 {
    open spec fn enc(&self, policy: A) -> Seq<u8> {
        policy.bytes_u16(*self)
    }

    open spec fn enc_len(&self) -> nat {
        2
    }

    proof fn lemma_enc_len(&self, policy: A) {
        policy.lemma_width_u16(*self);
    }

    fn encode_by_ref(&self, buf: &mut BytesMut, encoder: &mut A) -> (r: Result<(), Error>) {
        encoder.encode_u16(*self, buf)
    }

    fn bytes_count(&self) -> (n: usize) {
        2
    }
}

impl<A: Encoder> Encode<A> for i16 {
    open spec fn enc(&self, policy: A) -> Seq<u8> {
        policy.bytes_u16(*self as u16)
    }

    open spec fn enc_len(&self) -> nat {
        2
    }

    proof fn lemma_enc_len(&self, policy: A) {
        policy.lemma_width_u16(*self as u16);
    }

    fn encode_by_ref(&self, buf: &mut BytesMut, encoder: &mut A) -> (r: Result<(), Error>) {
        encoder.encode_i16(*self, buf)
    }

    fn bytes_count(&self) -> (n: usize) {
        2
    }
}

impl<A: Encoder> Encode<A> for u32 {
    open spec fn enc(&self, policy: A) -> Seq<u8> {
        policy.bytes_u32(*self)
    }

    open spec fn enc_len(&self) -> nat {
        4
    }

    proof fn lemma_enc_len(&self, policy: A) {
        policy.lemma_width_u32(*self);
    }

    fn encode_by_ref(&self, buf: &mut BytesMut, encoder: &mut A) -> (r: Result<(), Error>) {
        encoder.encode_u32(*self, buf)
    }

    fn bytes_count(&self) -> (n: usize) {
        4
    }
}

impl<A: Encoder> Encode<A> for i32 {
    open spec fn enc(&self, policy: A) -> Seq<u8> {
        policy.bytes_u32(*self as u32)
    }

    open spec fn enc_len(&self) -> nat {
        4
    }

    proof fn lemma_enc_len(&self, policy: A) {
        policy.lemma_width_u32(*self as u32);
    }

    fn encode_by_ref(&self, buf: &mut BytesMut, encoder: &mut A) -> (r: Result<(), Error>) {
        encoder.encode_i32(*self, buf)
    }

    fn bytes_count(&self) -> (n: usize) {
        4
    }
}

impl<A: Encoder> Encode<A> for u64 {
    open spec fn enc(&self, policy: A) -> Seq<u8> {
        policy.bytes_u64(*self)
    }

    open spec fn enc_len(&self) -> nat {
        8
    }

    proof fn lemma_enc_len(&self, policy: A) {
        policy.lemma_width_u64(*self);
    }

    fn encode_by_ref(&self, buf: &mut BytesMut, encoder: &mut A) -> (r: Result<(), Error>) {
        encoder.encode_u64(*self, buf)
    }

    fn bytes_count(&self) -> (n: usize) {
        8
    }
}

impl<A: Encoder> Encode<A> for i64 {
    open spec fn enc(&self, policy: A) -> Seq<u8> {
        policy.bytes_u64(*self as u64)
    }

    open spec fn enc_len(&self) -> nat {
        8
    }

    proof fn lemma_enc_len(&self, policy: A) {
        policy.lemma_width_u64(*self as u64);
    }

    fn encode_by_ref(&self, buf: &mut BytesMut, encoder: &mut A) -> (r: Result<(), Error>) {
        encoder.encode_i64(*self, buf)
    }

    fn bytes_count(&self) -> (n: usize) {
        8
    }
}

impl<A: Encoder> Encode<A> for u128 {
    open spec fn enc(&self, policy: A) -> Seq<u8> {
        policy.bytes_u128(*self)
    }

    open spec fn enc_len(&self) -> nat {
        16
    }

    proof fn lemma_enc_len(&self, policy: A) {
        policy.lemma_width_u128(*self);
    }

    fn encode_by_ref(&self, buf: &mut BytesMut, encoder: &mut A) -> (r: Result<(), Error>) {
        encoder.encode_u128(*self, buf)
    }

    fn bytes_count(&self) -> (n: usize) {
        16
    }
}

impl<A: Encoder> Encode<A> for i128 {
    open spec fn enc(&self, policy: A) -> Seq<u8> {
        policy.bytes_u128(*self as u128)
    }

    open spec fn enc_len(&self) -> nat {
        16
    }

    proof fn lemma_enc_len(&self, policy: A) {
        policy.lemma_width_u128(*self as u128);
    }

    fn encode_by_ref(&self, buf: &mut BytesMut, encoder: &mut A) -> (r: Result<(), Error>) {
        encoder.encode_i128(*self, buf)
    }

    fn bytes_count(&self) -> (n: usize) {
        16
    }
}

/// The unit value encodes to nothing.
impl<A: Encoder> Encode<A> for () {
    open spec fn enc(&self, policy: A) -> Seq<u8> {
        Seq::empty()
    }

    open spec fn enc_len(&self) -> nat {
        0
    }

    proof fn lemma_enc_len(&self, policy: A) {
    }

    fn encode_by_ref(&self, buf: &mut BytesMut, encoder: &mut A) -> (r: Result<(), Error>) {
        proof {
            assert(bytes_mut_view(*buf) =~= bytes_mut_view(*buf) + Seq::<u8>::empty());
        }
        Ok(())
    }

    fn bytes_count(&self) -> (n: usize) {
        0
    }
}

/// An absent optional value has length zero and emits nothing; a present
/// one encodes as its content.
impl<A: Encoder, T: Encode<A>> Encode<A> for Option<T> {
    open spec fn enc(&self, policy: A) -> Seq<u8> {
        match self {
            Some(item) => item.enc(policy),
            None => Seq::empty(),
        }
    }

    open spec fn enc_len(&self) -> nat {
        match self {
            Some(item) => item.enc_len(),
            None => 0,
        }
    }

    proof fn lemma_enc_len(&self, policy: A) {
        match self {
            Some(item) => item.lemma_enc_len(policy),
            None => (),
        }
    }

    fn encode_by_ref(&self, buf: &mut BytesMut, encoder: &mut A) -> (r: Result<(), Error>) {
        match self {
            Some(item) => item.encode_by_ref(buf, encoder),
            None => {
                proof {
                    assert(bytes_mut_view(*buf) =~= bytes_mut_view(*buf) + Seq::<u8>::empty());
                }
                Ok(())
            },
        }
    }

    fn bytes_count(&self) -> (n: usize) {
        match self {
            Some(item) => item.bytes_count(),
            None => 0,
        }
    }
}

/// Raw bytes encode as themselves under every policy: the fast path that
/// copies the buffer directly.
impl<A: Encoder> Encode<A> for Bytes {
    open spec fn enc(&self, policy: A) -> Seq<u8> {
        bytes_view(*self)
    }

    open spec fn enc_len(&self) -> nat {
        bytes_view(*self).len()
    }

    proof fn lemma_enc_len(&self, policy: A) {
    }

    fn encode_by_ref(&self, buf: &mut BytesMut, encoder: &mut A) -> (r: Result<(), Error>) {
        put_bytes(buf, self);
        Ok(())
    }

    fn bytes_count(&self) -> (n: usize) {
        bytes_len(self)
    }
}

/// A marker value encodes to nothing.
impl<A: Encoder, T: Encode<A>> Encode<A> for core::marker::PhantomData<T> {
    open spec fn enc(&self, policy: A) -> Seq<u8> {
        Seq::empty()
    }

    open spec fn enc_len(&self) -> nat {
        0
    }

    proof fn lemma_enc_len(&self, policy: A) {
    }

    fn encode_by_ref(&self, buf: &mut BytesMut, encoder: &mut A) -> (r: Result<(), Error>) {
        proof {
            assert(bytes_mut_view(*buf) =~= bytes_mut_view(*buf) + Seq::<u8>::empty());
        }
        Ok(())
    }

    fn bytes_count(&self) -> (n: usize) {
        0
    }
}

/// A borrowed byte slice encodes as its bytes under every policy: the fast
/// path that copies the slice directly.
impl<'a, A: Encoder> Encode<A> for &'a [u8] {
    open spec fn enc(&self, policy: A) -> Seq<u8> {
        (*self)@
    }

    open spec fn enc_len(&self) -> nat {
        (*self)@.len()
    }

    proof fn lemma_enc_len(&self, policy: A) {
    }

    fn encode_by_ref(&self, buf: &mut BytesMut, encoder: &mut A) -> (r: Result<(), Error>) {
        put_slice(buf, self);
        Ok(())
    }

    fn bytes_count(&self) -> (n: usize) {
        self.len()
    }
}

/// The wire bytes of each element of a list, under one policy.
pub open spec fn encs_of<A: Encoder, T: Encode<A>>(items: Seq<T>, policy: A) -> Seq<Seq<u8>> {
    items.map_values(|t: T| t.enc(policy))
}

/// The total encoded byte count of a list of elements.
pub open spec fn total_len<A: Encoder, T: Encode<A>>(items: Seq<T>) -> nat
    decreases items.len(),
{
    if items.len() == 0 {
        0
    } else {
        items[0].enc_len() + total_len::<A, T>(items.skip(1))
    }
}

/// A list's concatenated wire bytes count exactly its total length, under
/// every policy.
pub proof fn lemma_total_len<A: Encoder, T: Encode<A>>(items: Seq<T>, policy: A)
    ensures
        concat_seqs(encs_of(items, policy)).len() == total_len::<A, T>(items),
    decreases items.len(),
{
    if items.len() == 0 {
        assert(encs_of(items, policy) =~= Seq::<Seq<u8>>::empty());
    } else {
        items[0].lemma_enc_len(policy);
        assert(encs_of(items, policy)[0] == items[0].enc(policy));
        assert(encs_of(items, policy).skip(1) =~= encs_of(items.skip(1), policy));
        lemma_total_len::<A, T>(items.skip(1), policy);
    }
}

/// Extending a prefix of a list by one element adds that element's length.
pub proof fn lemma_total_len_take_succ<A: Encoder, T: Encode<A>>(items: Seq<T>, k: int)
    requires
        0 <= k < items.len(),
    ensures
        total_len::<A, T>(items.take(k + 1)) == total_len::<A, T>(items.take(k))
            + items[k].enc_len(),
    decreases k,
{
    if k == 0 {
        assert(items.take(1).len() == 1);
        assert(items.take(1)[0] == items[0]);
        assert(items.take(1).skip(1) =~= Seq::<T>::empty());
        assert(items.take(0) =~= Seq::<T>::empty());
    } else {
        let tail = items.skip(1);
        lemma_total_len_take_succ::<A, T>(tail, k - 1);
        assert(items.take(k + 1).skip(1) =~= tail.take(k));
        assert(items.take(k).skip(1) =~= tail.take(k - 1));
        assert(items.take(k + 1)[0] == items[0]);
        assert(items.take(k)[0] == items[0]);
    }
}

/// A prefix of a list never counts more bytes than the whole list.
pub proof fn lemma_total_len_take_le<A: Encoder, T: Encode<A>>(items: Seq<T>, k: int)
    requires
        0 <= k <= items.len(),
    ensures
        total_len::<A, T>(items.take(k)) <= total_len::<A, T>(items),
    decreases items.len() - k,
{
    if k == items.len() {
        assert(items.take(k) =~= items);
    } else {
        lemma_total_len_take_succ::<A, T>(items, k);
        lemma_total_len_take_le::<A, T>(items, k + 1);
    }
}

/// A homogeneous sequence encodes as its elements, in order.
impl<A: Encoder, T: Encode<A>> Encode<A> for Vec<T> {
    open spec fn enc(&self, policy: A) -> Seq<u8> {
        concat_seqs(encs_of(self@, policy))
    }

    open spec fn enc_len(&self) -> nat {
        total_len::<A, T>(self@)
    }

    proof fn lemma_enc_len(&self, policy: A) {
        lemma_total_len::<A, T>(self@, policy);
    }

    #[verifier::loop_isolation(false)]
    fn encode_by_ref(&self, buf: &mut BytesMut, encoder: &mut A) -> (r: Result<(), Error>) {
        let ghost encs = encs_of(self@, *encoder);
        let mut i: usize = 0;
        proof {
            assert(bytes_mut_view(*buf) + concat_seqs(encs.take(0)) =~= bytes_mut_view(*buf));
        }
        while i < self.len()
            invariant
                i <= self@.len(),
                *encoder == *old(encoder),
                bytes_mut_view(*buf) == bytes_mut_view(*old(buf)) + concat_seqs(
                    encs.take(i as int),
                ),
            decreases self@.len() - i,
        {
            let res = self[i].encode_by_ref(buf, encoder);
            proof {
                assert(res is Ok);
                lemma_concat_seqs_take_succ(encs, i as int);
                assert(encs[i as int] == self@[i as int].enc(*old(encoder)));
                assert((bytes_mut_view(*old(buf)) + concat_seqs(encs.take(i as int)))
                    + self@[i as int].enc(*old(encoder)) =~= bytes_mut_view(*old(buf))
                    + concat_seqs(encs.take(i as int + 1)));
            }
            i = i + 1;
        }
        proof {
            lemma_concat_seqs_take_all(encs);
        }
        Ok(())
    }

    #[verifier::loop_isolation(false)]
    fn bytes_count(&self) -> (n: usize) {
        let mut count: usize = 0;
        let mut i: usize = 0;
        proof {
            assert(self@.take(0) =~= Seq::<T>::empty());
        }
        while i < self.len()
            invariant
                i <= self@.len(),
                count == total_len::<A, T>(self@.take(i as int)),
            decreases self@.len() - i,
        {
            proof {
                lemma_total_len_take_succ::<A, T>(self@, i as int);
                lemma_total_len_take_le::<A, T>(self@, i as int + 1);
            }
            let c = self[i].bytes_count();
            count = count + c;
            i = i + 1;
        }
        proof {
            assert(self@.take(self@.len() as int) =~= self@);
        }
        count
    }
}

/// A tuple of one encodes as its members, in declared order.
impl<A: Encoder, T0: Encode<A>> Encode<A> for (T0,) {
    open spec fn enc(&self, policy: A) -> Seq<u8> {
        self.0.enc(policy)
    }

    open spec fn enc_len(&self) -> nat {
        self.0.enc_len()
    }

    proof fn lemma_enc_len(&self, policy: A) {
        self.0.lemma_enc_len(policy);
    }

    fn encode_by_ref(&self, buf: &mut BytesMut, encoder: &mut A) -> (r: Result<(), Error>) {
        match self.0.encode_by_ref(buf, encoder) {
            Ok(()) => (),
            Err(e) => {
                return Err(e);
            },
        }
        proof {
            assert(bytes_mut_view(*buf) =~= bytes_mut_view(*old(buf)) + self.enc(
                *old(encoder),
            ));
        }
        Ok(())
    }

    fn bytes_count(&self) -> (n: usize) {
        self.0.bytes_count()
    }
}

/// A tuple of two encodes as its members, in declared order.
impl<A: Encoder, T0: Encode<A>, T1: Encode<A>> Encode<A> for (T0, T1) {
    open spec fn enc(&self, policy: A) -> Seq<u8> {
        self.0.enc(policy) + self.1.enc(policy)
    }

    open spec fn enc_len(&self) -> nat {
        self.0.enc_len() + self.1.enc_len()
    }

    proof fn lemma_enc_len(&self, policy: A) {
        self.0.lemma_enc_len(policy);
        self.1.lemma_enc_len(policy);
    }

    fn encode_by_ref(&self, buf: &mut BytesMut, encoder: &mut A) -> (r: Result<(), Error>) {
        match self.0.encode_by_ref(buf, encoder) {
            Ok(()) => (),
            Err(e) => {
                return Err(e);
            },
        }
        match self.1.encode_by_ref(buf, encoder) {
            Ok(()) => (),
            Err(e) => {
                return Err(e);
            },
        }
        proof {
            assert(bytes_mut_view(*buf) =~= bytes_mut_view(*old(buf)) + self.enc(
                *old(encoder),
            ));
        }
        Ok(())
    }

    fn bytes_count(&self) -> (n: usize) {
        self.0.bytes_count() + self.1.bytes_count()
    }
}

/// A tuple of three encodes as its members, in declared order.
impl<A: Encoder, T0: Encode<A>, T1: Encode<A>, T2: Encode<A>> Encode<A> for (T0, T1, T2) {
    open spec fn enc(&self, policy: A) -> Seq<u8> {
        self.0.enc(policy) + self.1.enc(policy) + self.2.enc(policy)
    }

    open spec fn enc_len(&self) -> nat {
        self.0.enc_len() + self.1.enc_len() + self.2.enc_len()
    }

    proof fn lemma_enc_len(&self, policy: A) {
        self.0.lemma_enc_len(policy);
        self.1.lemma_enc_len(policy);
        self.2.lemma_enc_len(policy);
    }

    fn encode_by_ref(&self, buf: &mut BytesMut, encoder: &mut A) -> (r: Result<(), Error>) {
        match self.0.encode_by_ref(buf, encoder) {
            Ok(()) => (),
            Err(e) => {
                return Err(e);
            },
        }
        match self.1.encode_by_ref(buf, encoder) {
            Ok(()) => (),
            Err(e) => {
                return Err(e);
            },
        }
        match self.2.encode_by_ref(buf, encoder) {
            Ok(()) => (),
            Err(e) => {
                return Err(e);
            },
        }
        proof {
            assert(bytes_mut_view(*buf) =~= bytes_mut_view(*old(buf)) + self.enc(
                *old(encoder),
            ));
        }
        Ok(())
    }

    fn bytes_count(&self) -> (n: usize) {
        self.0.bytes_count() + self.1.bytes_count() + self.2.bytes_count()
    }
}

/// A tuple of four encodes as its members, in declared order.
impl<A: Encoder, T0: Encode<A>, T1: Encode<A>, T2: Encode<A>, T3: Encode<A>> Encode<A> for (T0, T1, T2, T3) {
    open spec fn enc(&self, policy: A) -> Seq<u8> {
        self.0.enc(policy) + self.1.enc(policy) + self.2.enc(policy) + self.3.enc(policy)
    }

    open spec fn enc_len(&self) -> nat {
        self.0.enc_len() + self.1.enc_len() + self.2.enc_len() + self.3.enc_len()
    }

    proof fn lemma_enc_len(&self, policy: A) {
        self.0.lemma_enc_len(policy);
        self.1.lemma_enc_len(policy);
        self.2.lemma_enc_len(policy);
        self.3.lemma_enc_len(policy);
    }

    fn encode_by_ref(&self, buf: &mut BytesMut, encoder: &mut A) -> (r: Result<(), Error>) {
        match self.0.encode_by_ref(buf, encoder) {
            Ok(()) => (),
            Err(e) => {
                return Err(e);
            },
        }
        match self.1.encode_by_ref(buf, encoder) {
            Ok(()) => (),
            Err(e) => {
                return Err(e);
            },
        }
        match self.2.encode_by_ref(buf, encoder) {
            Ok(()) => (),
            Err(e) => {
                return Err(e);
            },
        }
        match self.3.encode_by_ref(buf, encoder) {
            Ok(()) => (),
            Err(e) => {
                return Err(e);
            },
        }
        proof {
            assert(bytes_mut_view(*buf) =~= bytes_mut_view(*old(buf)) + self.enc(
                *old(encoder),
            ));
        }
        Ok(())
    }

    fn bytes_count(&self) -> (n: usize) {
        self.0.bytes_count() + self.1.bytes_count() + self.2.bytes_count() + self.3.bytes_count()
    }
}

/// A tuple of five encodes as its members, in declared order.
impl<A: Encoder, T0: Encode<A>, T1: Encode<A>, T2: Encode<A>, T3: Encode<A>, T4: Encode<A>> Encode<A> for (T0, T1, T2, T3, T4) {
    open spec fn enc(&self, policy: A) -> Seq<u8> {
        self.0.enc(policy) + self.1.enc(policy) + self.2.enc(policy) + self.3.enc(policy) + self.4.enc(policy)
    }

    open spec fn enc_len(&self) -> nat {
        self.0.enc_len() + self.1.enc_len() + self.2.enc_len() + self.3.enc_len() + self.4.enc_len()
    }

    proof fn lemma_enc_len(&self, policy: A) {
        self.0.lemma_enc_len(policy);
        self.1.lemma_enc_len(policy);
        self.2.lemma_enc_len(policy);
        self.3.lemma_enc_len(policy);
        self.4.lemma_enc_len(policy);
    }

    fn encode_by_ref(&self, buf: &mut BytesMut, encoder: &mut A) -> (r: Result<(), Error>) {
        match self.0.encode_by_ref(buf, encoder) {
            Ok(()) => (),
            Err(e) => {
                return Err(e);
            },
        }
        match self.1.encode_by_ref(buf, encoder) {
            Ok(()) => (),
            Err(e) => {
                return Err(e);
            },
        }
        match self.2.encode_by_ref(buf, encoder) {
            Ok(()) => (),
            Err(e) => {
                return Err(e);
            },
        }
        match self.3.encode_by_ref(buf, encoder) {
            Ok(()) => (),
            Err(e) => {
                return Err(e);
            },
        }
        match self.4.encode_by_ref(buf, encoder) {
            Ok(()) => (),
            Err(e) => {
                return Err(e);
            },
        }
        proof {
            assert(bytes_mut_view(*buf) =~= bytes_mut_view(*old(buf)) + self.enc(
                *old(encoder),
            ));
        }
        Ok(())
    }

    fn bytes_count(&self) -> (n: usize) {
        self.0.bytes_count() + self.1.bytes_count() + self.2.bytes_count() + self.3.bytes_count() + self.4.bytes_count()
    }
}

/// A tuple of six encodes as its members, in declared order.
impl<A: Encoder, T0: Encode<A>, T1: Encode<A>, T2: Encode<A>, T3: Encode<A>, T4: Encode<A>, T5: Encode<A>> Encode<A> for (T0, T1, T2, T3, T4, T5) {
    open spec fn enc(&self, policy: A) -> Seq<u8> {
        self.0.enc(policy) + self.1.enc(policy) + self.2.enc(policy) + self.3.enc(policy) + self.4.enc(policy) + self.5.enc(policy)
    }

    open spec fn enc_len(&self) -> nat {
        self.0.enc_len() + self.1.enc_len() + self.2.enc_len() + self.3.enc_len() + self.4.enc_len() + self.5.enc_len()
    }

    proof fn lemma_enc_len(&self, policy: A) {
        self.0.lemma_enc_len(policy);
        self.1.lemma_enc_len(policy);
        self.2.lemma_enc_len(policy);
        self.3.lemma_enc_len(policy);
        self.4.lemma_enc_len(policy);
        self.5.lemma_enc_len(policy);
    }

    fn encode_by_ref(&self, buf: &mut BytesMut, encoder: &mut A) -> (r: Result<(), Error>) {
        match self.0.encode_by_ref(buf, encoder) {
            Ok(()) => (),
            Err(e) => {
                return Err(e);
            },
        }
        match self.1.encode_by_ref(buf, encoder) {
            Ok(()) => (),
            Err(e) => {
                return Err(e);
            },
        }
        match self.2.encode_by_ref(buf, encoder) {
            Ok(()) => (),
            Err(e) => {
                return Err(e);
            },
        }
        match self.3.encode_by_ref(buf, encoder) {
            Ok(()) => (),
            Err(e) => {
                return Err(e);
            },
        }
        match self.4.encode_by_ref(buf, encoder) {
            Ok(()) => (),
            Err(e) => {
                return Err(e);
            },
        }
        match self.5.encode_by_ref(buf, encoder) {
            Ok(()) => (),
            Err(e) => {
                return Err(e);
            },
        }
        proof {
            assert(bytes_mut_view(*buf) =~= bytes_mut_view(*old(buf)) + self.enc(
                *old(encoder),
            ));
        }
        Ok(())
    }

    fn bytes_count(&self) -> (n: usize) {
        self.0.bytes_count() + self.1.bytes_count() + self.2.bytes_count() + self.3.bytes_count() + self.4.bytes_count() + self.5.bytes_count()
    }
}

/// A tuple of seven encodes as its members, in declared order.
impl<A: Encoder, T0: Encode<A>, T1: Encode<A>, T2: Encode<A>, T3: Encode<A>, T4: Encode<A>, T5: Encode<A>, T6: Encode<A>> Encode<A> for (T0, T1, T2, T3, T4, T5, T6) {
    open spec fn enc(&self, policy: A) -> Seq<u8> {
        self.0.enc(policy) + self.1.enc(policy) + self.2.enc(policy) + self.3.enc(policy) + self.4.enc(policy) + self.5.enc(policy) + self.6.enc(policy)
    }

    open spec fn enc_len(&self) -> nat {
        self.0.enc_len() + self.1.enc_len() + self.2.enc_len() + self.3.enc_len() + self.4.enc_len() + self.5.enc_len() + self.6.enc_len()
    }

    proof fn lemma_enc_len(&self, policy: A) {
        self.0.lemma_enc_len(policy);
        self.1.lemma_enc_len(policy);
        self.2.lemma_enc_len(policy);
        self.3.lemma_enc_len(policy);
        self.4.lemma_enc_len(policy);
        self.5.lemma_enc_len(policy);
        self.6.lemma_enc_len(policy);
    }

    fn encode_by_ref(&self, buf: &mut BytesMut, encoder: &mut A) -> (r: Result<(), Error>) {
        match self.0.encode_by_ref(buf, encoder) {
            Ok(()) => (),
            Err(e) => {
                return Err(e);
            },
        }
        match self.1.encode_by_ref(buf, encoder) {
            Ok(()) => (),
            Err(e) => {
                return Err(e);
            },
        }
        match self.2.encode_by_ref(buf, encoder) {
            Ok(()) => (),
            Err(e) => {
                return Err(e);
            },
        }
        match self.3.encode_by_ref(buf, encoder) {
            Ok(()) => (),
            Err(e) => {
                return Err(e);
            },
        }
        match self.4.encode_by_ref(buf, encoder) {
            Ok(()) => (),
            Err(e) => {
                return Err(e);
            },
        }
        match self.5.encode_by_ref(buf, encoder) {
            Ok(()) => (),
            Err(e) => {
                return Err(e);
            },
        }
        match self.6.encode_by_ref(buf, encoder) {
            Ok(()) => (),
            Err(e) => {
                return Err(e);
            },
        }
        proof {
            assert(bytes_mut_view(*buf) =~= bytes_mut_view(*old(buf)) + self.enc(
                *old(encoder),
            ));
        }
        Ok(())
    }

    fn bytes_count(&self) -> (n: usize) {
        self.0.bytes_count() + self.1.bytes_count() + self.2.bytes_count() + self.3.bytes_count() + self.4.bytes_count() + self.5.bytes_count() + self.6.bytes_count()
    }
}

/// A tuple of eight encodes as its members, in declared order.
impl<A: Encoder, T0: Encode<A>, T1: Encode<A>, T2: Encode<A>, T3: Encode<A>, T4: Encode<A>, T5: Encode<A>, T6: Encode<A>, T7: Encode<A>> Encode<A> for (T0, T1, T2, T3, T4, T5, T6, T7) {
    open spec fn enc(&self, policy: A) -> Seq<u8> {
        self.0.enc(policy) + self.1.enc(policy) + self.2.enc(policy) + self.3.enc(policy) + self.4.enc(policy) + self.5.enc(policy) + self.6.enc(policy) + self.7.enc(policy)
    }

    open spec fn enc_len(&self) -> nat {
        self.0.enc_len() + self.1.enc_len() + self.2.enc_len() + self.3.enc_len() + self.4.enc_len() + self.5.enc_len() + self.6.enc_len() + self.7.enc_len()
    }

    proof fn lemma_enc_len(&self, policy: A) {
        self.0.lemma_enc_len(policy);
        self.1.lemma_enc_len(policy);
        self.2.lemma_enc_len(policy);
        self.3.lemma_enc_len(policy);
        self.4.lemma_enc_len(policy);
        self.5.lemma_enc_len(policy);
        self.6.lemma_enc_len(policy);
        self.7.lemma_enc_len(policy);
    }

    fn encode_by_ref(&self, buf: &mut BytesMut, encoder: &mut A) -> (r: Result<(), Error>) {
        match self.0.encode_by_ref(buf, encoder) {
            Ok(()) => (),
            Err(e) => {
                return Err(e);
            },
        }
        match self.1.encode_by_ref(buf, encoder) {
            Ok(()) => (),
            Err(e) => {
                return Err(e);
            },
        }
        match self.2.encode_by_ref(buf, encoder) {
            Ok(()) => (),
            Err(e) => {
                return Err(e);
            },
        }
        match self.3.encode_by_ref(buf, encoder) {
            Ok(()) => (),
            Err(e) => {
                return Err(e);
            },
        }
        match self.4.encode_by_ref(buf, encoder) {
            Ok(()) => (),
            Err(e) => {
                return Err(e);
            },
        }
        match self.5.encode_by_ref(buf, encoder) {
            Ok(()) => (),
            Err(e) => {
                return Err(e);
            },
        }
        match self.6.encode_by_ref(buf, encoder) {
            Ok(()) => (),
            Err(e) => {
                return Err(e);
            },
        }
        match self.7.encode_by_ref(buf, encoder) {
            Ok(()) => (),
            Err(e) => {
                return Err(e);
            },
        }
        proof {
            assert(bytes_mut_view(*buf) =~= bytes_mut_view(*old(buf)) + self.enc(
                *old(encoder),
            ));
        }
        Ok(())
    }

    fn bytes_count(&self) -> (n: usize) {
        self.0.bytes_count() + self.1.bytes_count() + self.2.bytes_count() + self.3.bytes_count() + self.4.bytes_count() + self.5.bytes_count() + self.6.bytes_count() + self.7.bytes_count()
    }
}

/// A tuple of nine encodes as its members, in declared order.
impl<A: Encoder, T0: Encode<A>, T1: Encode<A>, T2: Encode<A>, T3: Encode<A>, T4: Encode<A>, T5: Encode<A>, T6: Encode<A>, T7: Encode<A>, T8: Encode<A>> Encode<A> for (T0, T1, T2, T3, T4, T5, T6, T7, T8) {
    open spec fn enc(&self, policy: A) -> Seq<u8> {
        self.0.enc(policy) + self.1.enc(policy) + self.2.enc(policy) + self.3.enc(policy) + self.4.enc(policy) + self.5.enc(policy) + self.6.enc(policy) + self.7.enc(policy) + self.8.enc(policy)
    }

    open spec fn enc_len(&self) -> nat {
        self.0.enc_len() + self.1.enc_len() + self.2.enc_len() + self.3.enc_len() + self.4.enc_len() + self.5.enc_len() + self.6.enc_len() + self.7.enc_len() + self.8.enc_len()
    }

    proof fn lemma_enc_len(&self, policy: A) {
        self.0.lemma_enc_len(policy);
        self.1.lemma_enc_len(policy);
        self.2.lemma_enc_len(policy);
        self.3.lemma_enc_len(policy);
        self.4.lemma_enc_len(policy);
        self.5.lemma_enc_len(policy);
        self.6.lemma_enc_len(policy);
        self.7.lemma_enc_len(policy);
        self.8.lemma_enc_len(policy);
    }

    fn encode_by_ref(&self, buf: &mut BytesMut, encoder: &mut A) -> (r: Result<(), Error>) {
        match self.0.encode_by_ref(buf, encoder) {
            Ok(()) => (),
            Err(e) => {
                return Err(e);
            },
        }
        match self.1.encode_by_ref(buf, encoder) {
            Ok(()) => (),
            Err(e) => {
                return Err(e);
            },
        }
        match self.2.encode_by_ref(buf, encoder) {
            Ok(()) => (),
            Err(e) => {
                return Err(e);
            },
        }
        match self.3.encode_by_ref(buf, encoder) {
            Ok(()) => (),
            Err(e) => {
                return Err(e);
            },
        }
        match self.4.encode_by_ref(buf, encoder) {
            Ok(()) => (),
            Err(e) => {
                return Err(e);
            },
        }
        match self.5.encode_by_ref(buf, encoder) {
            Ok(()) => (),
            Err(e) => {
                return Err(e);
            },
        }
        match self.6.encode_by_ref(buf, encoder) {
            Ok(()) => (),
            Err(e) => {
                return Err(e);
            },
        }
        match self.7.encode_by_ref(buf, encoder) {
            Ok(()) => (),
            Err(e) => {
                return Err(e);
            },
        }
        match self.8.encode_by_ref(buf, encoder) {
            Ok(()) => (),
            Err(e) => {
                return Err(e);
            },
        }
        proof {
            assert(bytes_mut_view(*buf) =~= bytes_mut_view(*old(buf)) + self.enc(
                *old(encoder),
            ));
        }
        Ok(())
    }

    fn bytes_count(&self) -> (n: usize) {
        self.0.bytes_count() + self.1.bytes_count() + self.2.bytes_count() + self.3.bytes_count() + self.4.bytes_count() + self.5.bytes_count() + self.6.bytes_count() + self.7.bytes_count() + self.8.bytes_count()
    }
}

/// A tuple of ten encodes as its members, in declared order.
impl<A: Encoder, T0: Encode<A>, T1: Encode<A>, T2: Encode<A>, T3: Encode<A>, T4: Encode<A>, T5: Encode<A>, T6: Encode<A>, T7: Encode<A>, T8: Encode<A>, T9: Encode<A>> Encode<A> for (T0, T1, T2, T3, T4, T5, T6, T7, T8, T9) {
    open spec fn enc(&self, policy: A) -> Seq<u8> {
        self.0.enc(policy) + self.1.enc(policy) + self.2.enc(policy) + self.3.enc(policy) + self.4.enc(policy) + self.5.enc(policy) + self.6.enc(policy) + self.7.enc(policy) + self.8.enc(policy) + self.9.enc(policy)
    }

    open spec fn enc_len(&self) -> nat {
        self.0.enc_len() + self.1.enc_len() + self.2.enc_len() + self.3.enc_len() + self.4.enc_len() + self.5.enc_len() + self.6.enc_len() + self.7.enc_len() + self.8.enc_len() + self.9.enc_len()
    }

    proof fn lemma_enc_len(&self, policy: A) {
        self.0.lemma_enc_len(policy);
        self.1.lemma_enc_len(policy);
        self.2.lemma_enc_len(policy);
        self.3.lemma_enc_len(policy);
        self.4.lemma_enc_len(policy);
        self.5.lemma_enc_len(policy);
        self.6.lemma_enc_len(policy);
        self.7.lemma_enc_len(policy);
        self.8.lemma_enc_len(policy);
        self.9.lemma_enc_len(policy);
    }

    fn encode_by_ref(&self, buf: &mut BytesMut, encoder: &mut A) -> (r: Result<(), Error>) {
        match self.0.encode_by_ref(buf, encoder) {
            Ok(()) => (),
            Err(e) => {
                return Err(e);
            },
        }
        match self.1.encode_by_ref(buf, encoder) {
            Ok(()) => (),
            Err(e) => {
                return Err(e);
            },
        }
        match self.2.encode_by_ref(buf, encoder) {
            Ok(()) => (),
            Err(e) => {
                return Err(e);
            },
        }
        match self.3.encode_by_ref(buf, encoder) {
            Ok(()) => (),
            Err(e) => {
                return Err(e);
            },
        }
        match self.4.encode_by_ref(buf, encoder) {
            Ok(()) => (),
            Err(e) => {
                return Err(e);
            },
        }
        match self.5.encode_by_ref(buf, encoder) {
            Ok(()) => (),
            Err(e) => {
                return Err(e);
            },
        }
        match self.6.encode_by_ref(buf, encoder) {
            Ok(()) => (),
            Err(e) => {
                return Err(e);
            },
        }
        match self.7.encode_by_ref(buf, encoder) {
            Ok(()) => (),
            Err(e) => {
                return Err(e);
            },
        }
        match self.8.encode_by_ref(buf, encoder) {
            Ok(()) => (),
            Err(e) => {
                return Err(e);
            },
        }
        match self.9.encode_by_ref(buf, encoder) {
            Ok(()) => (),
            Err(e) => {
                return Err(e);
            },
        }
        proof {
            assert(bytes_mut_view(*buf) =~= bytes_mut_view(*old(buf)) + self.enc(
                *old(encoder),
            ));
        }
        Ok(())
    }

    fn bytes_count(&self) -> (n: usize) {
        self.0.bytes_count() + self.1.bytes_count() + self.2.bytes_count() + self.3.bytes_count() + self.4.bytes_count() + self.5.bytes_count() + self.6.bytes_count() + self.7.bytes_count() + self.8.bytes_count() + self.9.bytes_count()
    }
}

/// A tuple of eleven encodes as its members, in declared order.
impl<A: Encoder, T0: Encode<A>, T1: Encode<A>, T2: Encode<A>, T3: Encode<A>, T4: Encode<A>, T5: Encode<A>, T6: Encode<A>, T7: Encode<A>, T8: Encode<A>, T9: Encode<A>, T10: Encode<A>> Encode<A> for (T0, T1, T2, T3, T4, T5, T6, T7, T8, T9, T10) {
    open spec fn enc(&self, policy: A) -> Seq<u8> {
        self.0.enc(policy) + self.1.enc(policy) + self.2.enc(policy) + self.3.enc(policy) + self.4.enc(policy) + self.5.enc(policy) + self.6.enc(policy) + self.7.enc(policy) + self.8.enc(policy) + self.9.enc(policy) + self.10.enc(policy)
    }

    open spec fn enc_len(&self) -> nat {
        self.0.enc_len() + self.1.enc_len() + self.2.enc_len() + self.3.enc_len() + self.4.enc_len() + self.5.enc_len() + self.6.enc_len() + self.7.enc_len() + self.8.enc_len() + self.9.enc_len() + self.10.enc_len()
    }

    proof fn lemma_enc_len(&self, policy: A) {
        self.0.lemma_enc_len(policy);
        self.1.lemma_enc_len(policy);
        self.2.lemma_enc_len(policy);
        self.3.lemma_enc_len(policy);
        self.4.lemma_enc_len(policy);
        self.5.lemma_enc_len(policy);
        self.6.lemma_enc_len(policy);
        self.7.lemma_enc_len(policy);
        self.8.lemma_enc_len(policy);
        self.9.lemma_enc_len(policy);
        self.10.lemma_enc_len(policy);
    }

    fn encode_by_ref(&self, buf: &mut BytesMut, encoder: &mut A) -> (r: Result<(), Error>) {
        match self.0.encode_by_ref(buf, encoder) {
            Ok(()) => (),
            Err(e) => {
                return Err(e);
            },
        }
        match self.1.encode_by_ref(buf, encoder) {
            Ok(()) => (),
            Err(e) => {
                return Err(e);
            },
        }
        match self.2.encode_by_ref(buf, encoder) {
            Ok(()) => (),
            Err(e) => {
                return Err(e);
            },
        }
        match self.3.encode_by_ref(buf, encoder) {
            Ok(()) => (),
            Err(e) => {
                return Err(e);
            },
        }
        match self.4.encode_by_ref(buf, encoder) {
            Ok(()) => (),
            Err(e) => {
                return Err(e);
            },
        }
        match self.5.encode_by_ref(buf, encoder) {
            Ok(()) => (),
            Err(e) => {
                return Err(e);
            },
        }
        match self.6.encode_by_ref(buf, encoder) {
            Ok(()) => (),
            Err(e) => {
                return Err(e);
            },
        }
        match self.7.encode_by_ref(buf, encoder) {
            Ok(()) => (),
            Err(e) => {
                return Err(e);
            },
        }
        match self.8.encode_by_ref(buf, encoder) {
            Ok(()) => (),
            Err(e) => {
                return Err(e);
            },
        }
        match self.9.encode_by_ref(buf, encoder) {
            Ok(()) => (),
            Err(e) => {
                return Err(e);
            },
        }
        match self.10.encode_by_ref(buf, encoder) {
            Ok(()) => (),
            Err(e) => {
                return Err(e);
            },
        }
        proof {
            assert(bytes_mut_view(*buf) =~= bytes_mut_view(*old(buf)) + self.enc(
                *old(encoder),
            ));
        }
        Ok(())
    }

    fn bytes_count(&self) -> (n: usize) {
        self.0.bytes_count() + self.1.bytes_count() + self.2.bytes_count() + self.3.bytes_count() + self.4.bytes_count() + self.5.bytes_count() + self.6.bytes_count() + self.7.bytes_count() + self.8.bytes_count() + self.9.bytes_count() + self.10.bytes_count()
    }
}

/// A tuple of twelve encodes as its members, in declared order.
impl<A: Encoder, T0: Encode<A>, T1: Encode<A>, T2: Encode<A>, T3: Encode<A>, T4: Encode<A>, T5: Encode<A>, T6: Encode<A>, T7: Encode<A>, T8: Encode<A>, T9: Encode<A>, T10: Encode<A>, T11: Encode<A>> Encode<A> for (T0, T1, T2, T3, T4, T5, T6, T7, T8, T9, T10, T11) {
    open spec fn enc(&self, policy: A) -> Seq<u8> {
        self.0.enc(policy) + self.1.enc(policy) + self.2.enc(policy) + self.3.enc(policy) + self.4.enc(policy) + self.5.enc(policy) + self.6.enc(policy) + self.7.enc(policy) + self.8.enc(policy) + self.9.enc(policy) + self.10.enc(policy) + self.11.enc(policy)
    }

    open spec fn enc_len(&self) -> nat {
        self.0.enc_len() + self.1.enc_len() + self.2.enc_len() + self.3.enc_len() + self.4.enc_len() + self.5.enc_len() + self.6.enc_len() + self.7.enc_len() + self.8.enc_len() + self.9.enc_len() + self.10.enc_len() + self.11.enc_len()
    }

    proof fn lemma_enc_len(&self, policy: A) {
        self.0.lemma_enc_len(policy);
        self.1.lemma_enc_len(policy);
        self.2.lemma_enc_len(policy);
        self.3.lemma_enc_len(policy);
        self.4.lemma_enc_len(policy);
        self.5.lemma_enc_len(policy);
        self.6.lemma_enc_len(policy);
        self.7.lemma_enc_len(policy);
        self.8.lemma_enc_len(policy);
        self.9.lemma_enc_len(policy);
        self.10.lemma_enc_len(policy);
        self.11.lemma_enc_len(policy);
    }

    fn encode_by_ref(&self, buf: &mut BytesMut, encoder: &mut A) -> (r: Result<(), Error>) {
        match self.0.encode_by_ref(buf, encoder) {
            Ok(()) => (),
            Err(e) => {
                return Err(e);
            },
        }
        match self.1.encode_by_ref(buf, encoder) {
            Ok(()) => (),
            Err(e) => {
                return Err(e);
            },
        }
        match self.2.encode_by_ref(buf, encoder) {
            Ok(()) => (),
            Err(e) => {
                return Err(e);
            },
        }
        match self.3.encode_by_ref(buf, encoder) {
            Ok(()) => (),
            Err(e) => {
                return Err(e);
            },
        }
        match self.4.encode_by_ref(buf, encoder) {
            Ok(()) => (),
            Err(e) => {
                return Err(e);
            },
        }
        match self.5.encode_by_ref(buf, encoder) {
            Ok(()) => (),
            Err(e) => {
                return Err(e);
            },
        }
        match self.6.encode_by_ref(buf, encoder) {
            Ok(()) => (),
            Err(e) => {
                return Err(e);
            },
        }
        match self.7.encode_by_ref(buf, encoder) {
            Ok(()) => (),
            Err(e) => {
                return Err(e);
            },
        }
        match self.8.encode_by_ref(buf, encoder) {
            Ok(()) => (),
            Err(e) => {
                return Err(e);
            },
        }
        match self.9.encode_by_ref(buf, encoder) {
            Ok(()) => (),
            Err(e) => {
                return Err(e);
            },
        }
        match self.10.encode_by_ref(buf, encoder) {
            Ok(()) => (),
            Err(e) => {
                return Err(e);
            },
        }
        match self.11.encode_by_ref(buf, encoder) {
            Ok(()) => (),
            Err(e) => {
                return Err(e);
            },
        }
        proof {
            assert(bytes_mut_view(*buf) =~= bytes_mut_view(*old(buf)) + self.enc(
                *old(encoder),
            ));
        }
        Ok(())
    }

    fn bytes_count(&self) -> (n: usize) {
        self.0.bytes_count() + self.1.bytes_count() + self.2.bytes_count() + self.3.bytes_count() + self.4.bytes_count() + self.5.bytes_count() + self.6.bytes_count() + self.7.bytes_count() + self.8.bytes_count() + self.9.bytes_count() + self.10.bytes_count() + self.11.bytes_count()
    }
}

/// A tuple of thirteen encodes as its members, in declared order.
impl<A: Encoder, T0: Encode<A>, T1: Encode<A>, T2: Encode<A>, T3: Encode<A>, T4: Encode<A>, T5: Encode<A>, T6: Encode<A>, T7: Encode<A>, T8: Encode<A>, T9: Encode<A>, T10: Encode<A>, T11: Encode<A>, T12: Encode<A>> Encode<A> for (T0, T1, T2, T3, T4, T5, T6, T7, T8, T9, T10, T11, T12) {
    open spec fn enc(&self, policy: A) -> Seq<u8> {
        self.0.enc(policy) + self.1.enc(policy) + self.2.enc(policy) + self.3.enc(policy) + self.4.enc(policy) + self.5.enc(policy) + self.6.enc(policy) + self.7.enc(policy) + self.8.enc(policy) + self.9.enc(policy) + self.10.enc(policy) + self.11.enc(policy) + self.12.enc(policy)
    }

    open spec fn enc_len(&self) -> nat {
        self.0.enc_len() + self.1.enc_len() + self.2.enc_len() + self.3.enc_len() + self.4.enc_len() + self.5.enc_len() + self.6.enc_len() + self.7.enc_len() + self.8.enc_len() + self.9.enc_len() + self.10.enc_len() + self.11.enc_len() + self.12.enc_len()
    }

    proof fn lemma_enc_len(&self, policy: A) {
        self.0.lemma_enc_len(policy);
        self.1.lemma_enc_len(policy);
        self.2.lemma_enc_len(policy);
        self.3.lemma_enc_len(policy);
        self.4.lemma_enc_len(policy);
        self.5.lemma_enc_len(policy);
        self.6.lemma_enc_len(policy);
        self.7.lemma_enc_len(policy);
        self.8.lemma_enc_len(policy);
        self.9.lemma_enc_len(policy);
        self.10.lemma_enc_len(policy);
        self.11.lemma_enc_len(policy);
        self.12.lemma_enc_len(policy);
    }

    fn encode_by_ref(&self, buf: &mut BytesMut, encoder: &mut A) -> (r: Result<(), Error>) {
        match self.0.encode_by_ref(buf, encoder) {
            Ok(()) => (),
            Err(e) => {
                return Err(e);
            },
        }
        match self.1.encode_by_ref(buf, encoder) {
            Ok(()) => (),
            Err(e) => {
                return Err(e);
            },
        }
        match self.2.encode_by_ref(buf, encoder) {
            Ok(()) => (),
            Err(e) => {
                return Err(e);
            },
        }
        match self.3.encode_by_ref(buf, encoder) {
            Ok(()) => (),
            Err(e) => {
                return Err(e);
            },
        }
        match self.4.encode_by_ref(buf, encoder) {
            Ok(()) => (),
            Err(e) => {
                return Err(e);
            },
        }
        match self.5.encode_by_ref(buf, encoder) {
            Ok(()) => (),
            Err(e) => {
                return Err(e);
            },
        }
        match self.6.encode_by_ref(buf, encoder) {
            Ok(()) => (),
            Err(e) => {
                return Err(e);
            },
        }
        match self.7.encode_by_ref(buf, encoder) {
            Ok(()) => (),
            Err(e) => {
                return Err(e);
            },
        }
        match self.8.encode_by_ref(buf, encoder) {
            Ok(()) => (),
            Err(e) => {
                return Err(e);
            },
        }
        match self.9.encode_by_ref(buf, encoder) {
            Ok(()) => (),
            Err(e) => {
                return Err(e);
            },
        }
        match self.10.encode_by_ref(buf, encoder) {
            Ok(()) => (),
            Err(e) => {
                return Err(e);
            },
        }
        match self.11.encode_by_ref(buf, encoder) {
            Ok(()) => (),
            Err(e) => {
                return Err(e);
            },
        }
        match self.12.encode_by_ref(buf, encoder) {
            Ok(()) => (),
            Err(e) => {
                return Err(e);
            },
        }
        proof {
            assert(bytes_mut_view(*buf) =~= bytes_mut_view(*old(buf)) + self.enc(
                *old(encoder),
            ));
        }
        Ok(())
    }

    fn bytes_count(&self) -> (n: usize) {
        self.0.bytes_count() + self.1.bytes_count() + self.2.bytes_count() + self.3.bytes_count() + self.4.bytes_count() + self.5.bytes_count() + self.6.bytes_count() + self.7.bytes_count() + self.8.bytes_count() + self.9.bytes_count() + self.10.bytes_count() + self.11.bytes_count() + self.12.bytes_count()
    }
}

/// A tuple of fourteen encodes as its members, in declared order.
impl<A: Encoder, T0: Encode<A>, T1: Encode<A>, T2: Encode<A>, T3: Encode<A>, T4: Encode<A>, T5: Encode<A>, T6: Encode<A>, T7: Encode<A>, T8: Encode<A>, T9: Encode<A>, T10: Encode<A>, T11: Encode<A>, T12: Encode<A>, T13: Encode<A>> Encode<A> for (T0, T1, T2, T3, T4, T5, T6, T7, T8, T9, T10, T11, T12, T13) {
    open spec fn enc(&self, policy: A) -> Seq<u8> {
        self.0.enc(policy) + self.1.enc(policy) + self.2.enc(policy) + self.3.enc(policy) + self.4.enc(policy) + self.5.enc(policy) + self.6.enc(policy) + self.7.enc(policy) + self.8.enc(policy) + self.9.enc(policy) + self.10.enc(policy) + self.11.enc(policy) + self.12.enc(policy) + self.13.enc(policy)
    }

    open spec fn enc_len(&self) -> nat {
        self.0.enc_len() + self.1.enc_len() + self.2.enc_len() + self.3.enc_len() + self.4.enc_len() + self.5.enc_len() + self.6.enc_len() + self.7.enc_len() + self.8.enc_len() + self.9.enc_len() + self.10.enc_len() + self.11.enc_len() + self.12.enc_len() + self.13.enc_len()
    }

    proof fn lemma_enc_len(&self, policy: A) {
        self.0.lemma_enc_len(policy);
        self.1.lemma_enc_len(policy);
        self.2.lemma_enc_len(policy);
        self.3.lemma_enc_len(policy);
        self.4.lemma_enc_len(policy);
        self.5.lemma_enc_len(policy);
        self.6.lemma_enc_len(policy);
        self.7.lemma_enc_len(policy);
        self.8.lemma_enc_len(policy);
        self.9.lemma_enc_len(policy);
        self.10.lemma_enc_len(policy);
        self.11.lemma_enc_len(policy);
        self.12.lemma_enc_len(policy);
        self.13.lemma_enc_len(policy);
    }

    fn encode_by_ref(&self, buf: &mut BytesMut, encoder: &mut A) -> (r: Result<(), Error>) {
        match self.0.encode_by_ref(buf, encoder) {
            Ok(()) => (),
            Err(e) => {
                return Err(e);
            },
        }
        match self.1.encode_by_ref(buf, encoder) {
            Ok(()) => (),
            Err(e) => {
                return Err(e);
            },
        }
        match self.2.encode_by_ref(buf, encoder) {
            Ok(()) => (),
            Err(e) => {
                return Err(e);
            },
        }
        match self.3.encode_by_ref(buf, encoder) {
            Ok(()) => (),
            Err(e) => {
                return Err(e);
            },
        }
        match self.4.encode_by_ref(buf, encoder) {
            Ok(()) => (),
            Err(e) => {
                return Err(e);
            },
        }
        match self.5.encode_by_ref(buf, encoder) {
            Ok(()) => (),
            Err(e) => {
                return Err(e);
            },
        }
        match self.6.encode_by_ref(buf, encoder) {
            Ok(()) => (),
            Err(e) => {
                return Err(e);
            },
        }
        match self.7.encode_by_ref(buf, encoder) {
            Ok(()) => (),
            Err(e) => {
                return Err(e);
            },
        }
        match self.8.encode_by_ref(buf, encoder) {
            Ok(()) => (),
            Err(e) => {
                return Err(e);
            },
        }
        match self.9.encode_by_ref(buf, encoder) {
            Ok(()) => (),
            Err(e) => {
                return Err(e);
            },
        }
        match self.10.encode_by_ref(buf, encoder) {
            Ok(()) => (),
            Err(e) => {
                return Err(e);
            },
        }
        match self.11.encode_by_ref(buf, encoder) {
            Ok(()) => (),
            Err(e) => {
                return Err(e);
            },
        }
        match self.12.encode_by_ref(buf, encoder) {
            Ok(()) => (),
            Err(e) => {
                return Err(e);
            },
        }
        match self.13.encode_by_ref(buf, encoder) {
            Ok(()) => (),
            Err(e) => {
                return Err(e);
            },
        }
        proof {
            assert(bytes_mut_view(*buf) =~= bytes_mut_view(*old(buf)) + self.enc(
                *old(encoder),
            ));
        }
        Ok(())
    }

    fn bytes_count(&self) -> (n: usize) {
        self.0.bytes_count() + self.1.bytes_count() + self.2.bytes_count() + self.3.bytes_count() + self.4.bytes_count() + self.5.bytes_count() + self.6.bytes_count() + self.7.bytes_count() + self.8.bytes_count() + self.9.bytes_count() + self.10.bytes_count() + self.11.bytes_count() + self.12.bytes_count() + self.13.bytes_count()
    }
}

/// A tuple of fifteen encodes as its members, in declared order.
impl<A: Encoder, T0: Encode<A>, T1: Encode<A>, T2: Encode<A>, T3: Encode<A>, T4: Encode<A>, T5: Encode<A>, T6: Encode<A>, T7: Encode<A>, T8: Encode<A>, T9: Encode<A>, T10: Encode<A>, T11: Encode<A>, T12: Encode<A>, T13: Encode<A>, T14: Encode<A>> Encode<A> for (T0, T1, T2, T3, T4, T5, T6, T7, T8, T9, T10, T11, T12, T13, T14) {
    open spec fn enc(&self, policy: A) -> Seq<u8> {
        self.0.enc(policy) + self.1.enc(policy) + self.2.enc(policy) + self.3.enc(policy) + self.4.enc(policy) + self.5.enc(policy) + self.6.enc(policy) + self.7.enc(policy) + self.8.enc(policy) + self.9.enc(policy) + self.10.enc(policy) + self.11.enc(policy) + self.12.enc(policy) + self.13.enc(policy) + self.14.enc(policy)
    }

    open spec fn enc_len(&self) -> nat {
        self.0.enc_len() + self.1.enc_len() + self.2.enc_len() + self.3.enc_len() + self.4.enc_len() + self.5.enc_len() + self.6.enc_len() + self.7.enc_len() + self.8.enc_len() + self.9.enc_len() + self.10.enc_len() + self.11.enc_len() + self.12.enc_len() + self.13.enc_len() + self.14.enc_len()
    }

    proof fn lemma_enc_len(&self, policy: A) {
        self.0.lemma_enc_len(policy);
        self.1.lemma_enc_len(policy);
        self.2.lemma_enc_len(policy);
        self.3.lemma_enc_len(policy);
        self.4.lemma_enc_len(policy);
        self.5.lemma_enc_len(policy);
        self.6.lemma_enc_len(policy);
        self.7.lemma_enc_len(policy);
        self.8.lemma_enc_len(policy);
        self.9.lemma_enc_len(policy);
        self.10.lemma_enc_len(policy);
        self.11.lemma_enc_len(policy);
        self.12.lemma_enc_len(policy);
        self.13.lemma_enc_len(policy);
        self.14.lemma_enc_len(policy);
    }

    fn encode_by_ref(&self, buf: &mut BytesMut, encoder: &mut A) -> (r: Result<(), Error>) {
        match self.0.encode_by_ref(buf, encoder) {
            Ok(()) => (),
            Err(e) => {
                return Err(e);
            },
        }
        match self.1.encode_by_ref(buf, encoder) {
            Ok(()) => (),
            Err(e) => {
                return Err(e);
            },
        }
        match self.2.encode_by_ref(buf, encoder) {
            Ok(()) => (),
            Err(e) => {
                return Err(e);
            },
        }
        match self.3.encode_by_ref(buf, encoder) {
            Ok(()) => (),
            Err(e) => {
                return Err(e);
            },
        }
        match self.4.encode_by_ref(buf, encoder) {
            Ok(()) => (),
            Err(e) => {
                return Err(e);
            },
        }
        match self.5.encode_by_ref(buf, encoder) {
            Ok(()) => (),
            Err(e) => {
                return Err(e);
            },
        }
        match self.6.encode_by_ref(buf, encoder) {
            Ok(()) => (),
            Err(e) => {
                return Err(e);
            },
        }
        match self.7.encode_by_ref(buf, encoder) {
            Ok(()) => (),
            Err(e) => {
                return Err(e);
            },
        }
        match self.8.encode_by_ref(buf, encoder) {
            Ok(()) => (),
            Err(e) => {
                return Err(e);
            },
        }
        match self.9.encode_by_ref(buf, encoder) {
            Ok(()) => (),
            Err(e) => {
                return Err(e);
            },
        }
        match self.10.encode_by_ref(buf, encoder) {
            Ok(()) => (),
            Err(e) => {
                return Err(e);
            },
        }
        match self.11.encode_by_ref(buf, encoder) {
            Ok(()) => (),
            Err(e) => {
                return Err(e);
            },
        }
        match self.12.encode_by_ref(buf, encoder) {
            Ok(()) => (),
            Err(e) => {
                return Err(e);
            },
        }
        match self.13.encode_by_ref(buf, encoder) {
            Ok(()) => (),
            Err(e) => {
                return Err(e);
            },
        }
        match self.14.encode_by_ref(buf, encoder) {
            Ok(()) => (),
            Err(e) => {
                return Err(e);
            },
        }
        proof {
            assert(bytes_mut_view(*buf) =~= bytes_mut_view(*old(buf)) + self.enc(
                *old(encoder),
            ));
        }
        Ok(())
    }

    fn bytes_count(&self) -> (n: usize) {
        self.0.bytes_count() + self.1.bytes_count() + self.2.bytes_count() + self.3.bytes_count() + self.4.bytes_count() + self.5.bytes_count() + self.6.bytes_count() + self.7.bytes_count() + self.8.bytes_count() + self.9.bytes_count() + self.10.bytes_count() + self.11.bytes_count() + self.12.bytes_count() + self.13.bytes_count() + self.14.bytes_count()
    }
}

/// A tuple of sixteen encodes as its members, in declared order.
impl<A: Encoder, T0: Encode<A>, T1: Encode<A>, T2: Encode<A>, T3: Encode<A>, T4: Encode<A>, T5: Encode<A>, T6: Encode<A>, T7: Encode<A>, T8: Encode<A>, T9: Encode<A>, T10: Encode<A>, T11: Encode<A>, T12: Encode<A>, T13: Encode<A>, T14: Encode<A>, T15: Encode<A>> Encode<A> for (T0, T1, T2, T3, T4, T5, T6, T7, T8, T9, T10, T11, T12, T13, T14, T15) {
    open spec fn enc(&self, policy: A) -> Seq<u8> {
        self.0.enc(policy) + self.1.enc(policy) + self.2.enc(policy) + self.3.enc(policy) + self.4.enc(policy) + self.5.enc(policy) + self.6.enc(policy) + self.7.enc(policy) + self.8.enc(policy) + self.9.enc(policy) + self.10.enc(policy) + self.11.enc(policy) + self.12.enc(policy) + self.13.enc(policy) + self.14.enc(policy) + self.15.enc(policy)
    }

    open spec fn enc_len(&self) -> nat {
        self.0.enc_len() + self.1.enc_len() + self.2.enc_len() + self.3.enc_len() + self.4.enc_len() + self.5.enc_len() + self.6.enc_len() + self.7.enc_len() + self.8.enc_len() + self.9.enc_len() + self.10.enc_len() + self.11.enc_len() + self.12.enc_len() + self.13.enc_len() + self.14.enc_len() + self.15.enc_len()
    }

    proof fn lemma_enc_len(&self, policy: A) {
        self.0.lemma_enc_len(policy);
        self.1.lemma_enc_len(policy);
        self.2.lemma_enc_len(policy);
        self.3.lemma_enc_len(policy);
        self.4.lemma_enc_len(policy);
        self.5.lemma_enc_len(policy);
        self.6.lemma_enc_len(policy);
        self.7.lemma_enc_len(policy);
        self.8.lemma_enc_len(policy);
        self.9.lemma_enc_len(policy);
        self.10.lemma_enc_len(policy);
        self.11.lemma_enc_len(policy);
        self.12.lemma_enc_len(policy);
        self.13.lemma_enc_len(policy);
        self.14.lemma_enc_len(policy);
        self.15.lemma_enc_len(policy);
    }

    fn encode_by_ref(&self, buf: &mut BytesMut, encoder: &mut A) -> (r: Result<(), Error>) {
        match self.0.encode_by_ref(buf, encoder) {
            Ok(()) => (),
            Err(e) => {
                return Err(e);
            },
        }
        match self.1.encode_by_ref(buf, encoder) {
            Ok(()) => (),
            Err(e) => {
                return Err(e);
            },
        }
        match self.2.encode_by_ref(buf, encoder) {
            Ok(()) => (),
            Err(e) => {
                return Err(e);
            },
        }
        match self.3.encode_by_ref(buf, encoder) {
            Ok(()) => (),
            Err(e) => {
                return Err(e);
            },
        }
        match self.4.encode_by_ref(buf, encoder) {
            Ok(()) => (),
            Err(e) => {
                return Err(e);
            },
        }
        match self.5.encode_by_ref(buf, encoder) {
            Ok(()) => (),
            Err(e) => {
                return Err(e);
            },
        }
        match self.6.encode_by_ref(buf, encoder) {
            Ok(()) => (),
            Err(e) => {
                return Err(e);
            },
        }
        match self.7.encode_by_ref(buf, encoder) {
            Ok(()) => (),
            Err(e) => {
                return Err(e);
            },
        }
        match self.8.encode_by_ref(buf, encoder) {
            Ok(()) => (),
            Err(e) => {
                return Err(e);
            },
        }
        match self.9.encode_by_ref(buf, encoder) {
            Ok(()) => (),
            Err(e) => {
                return Err(e);
            },
        }
        match self.10.encode_by_ref(buf, encoder) {
            Ok(()) => (),
            Err(e) => {
                return Err(e);
            },
        }
        match self.11.encode_by_ref(buf, encoder) {
            Ok(()) => (),
            Err(e) => {
                return Err(e);
            },
        }
        match self.12.encode_by_ref(buf, encoder) {
            Ok(()) => (),
            Err(e) => {
                return Err(e);
            },
        }
        match self.13.encode_by_ref(buf, encoder) {
            Ok(()) => (),
            Err(e) => {
                return Err(e);
            },
        }
        match self.14.encode_by_ref(buf, encoder) {
            Ok(()) => (),
            Err(e) => {
                return Err(e);
            },
        }
        match self.15.encode_by_ref(buf, encoder) {
            Ok(()) => (),
            Err(e) => {
                return Err(e);
            },
        }
        proof {
            assert(bytes_mut_view(*buf) =~= bytes_mut_view(*old(buf)) + self.enc(
                *old(encoder),
            ));
        }
        Ok(())
    }

    fn bytes_count(&self) -> (n: usize) {
        self.0.bytes_count() + self.1.bytes_count() + self.2.bytes_count() + self.3.bytes_count() + self.4.bytes_count() + self.5.bytes_count() + self.6.bytes_count() + self.7.bytes_count() + self.8.bytes_count() + self.9.bytes_count() + self.10.bytes_count() + self.11.bytes_count() + self.12.bytes_count() + self.13.bytes_count() + self.14.bytes_count() + self.15.bytes_count()
    }
}

/// A fixed array encodes as its elements, in order.
impl<A: Encoder, T: Encode<A>, const N: usize> Encode<A> for [T; N] {
    open spec fn enc(&self, policy: A) -> Seq<u8> {
        concat_seqs(encs_of(self@, policy))
    }

    open spec fn enc_len(&self) -> nat {
        total_len::<A, T>(self@)
    }

    proof fn lemma_enc_len(&self, policy: A) {
        lemma_total_len::<A, T>(self@, policy);
    }

    #[verifier::loop_isolation(false)]
    fn encode_by_ref(&self, buf: &mut BytesMut, encoder: &mut A) -> (r: Result<(), Error>) {
        let ghost encs = encs_of(self@, *encoder);
        let mut i: usize = 0;
        proof {
            assert(bytes_mut_view(*buf) + concat_seqs(encs.take(0)) =~= bytes_mut_view(*buf));
        }
        while i < N
            invariant
                i <= N,
                *encoder == *old(encoder),
                bytes_mut_view(*buf) == bytes_mut_view(*old(buf)) + concat_seqs(
                    encs.take(i as int),
                ),
            decreases N - i,
        {
            let res = self[i].encode_by_ref(buf, encoder);
            proof {
                assert(res is Ok);
                lemma_concat_seqs_take_succ(encs, i as int);
                assert(encs[i as int] == self@[i as int].enc(*old(encoder)));
                assert((bytes_mut_view(*old(buf)) + concat_seqs(encs.take(i as int)))
                    + self@[i as int].enc(*old(encoder)) =~= bytes_mut_view(*old(buf))
                    + concat_seqs(encs.take(i as int + 1)));
            }
            i = i + 1;
        }
        proof {
            lemma_concat_seqs_take_all(encs);
        }
        Ok(())
    }

    #[verifier::loop_isolation(false)]
    fn bytes_count(&self) -> (n: usize) {
        let mut count: usize = 0;
        let mut i: usize = 0;
        proof {
            assert(self@.take(0) =~= Seq::<T>::empty());
        }
        while i < N
            invariant
                i <= N,
                count == total_len::<A, T>(self@.take(i as int)),
            decreases N - i,
        {
            proof {
                lemma_total_len_take_succ::<A, T>(self@, i as int);
                lemma_total_len_take_le::<A, T>(self@, i as int + 1);
            }
            let c = self[i].bytes_count();
            count = count + c;
            i = i + 1;
        }
        proof {
            assert(self@.take(self@.len() as int) =~= self@);
        }
        count
    }
}

/// A borrowed slice of encodable values, with an optional caller-supplied
/// byte count as a fast path around summing each element's count. A
/// supplied count must equal the slice's true total encoded length; that
/// is this type's invariant.
pub struct SliceContainer<'a, T, A: Encoder> where T: Encode<A> {
    inner: &'a [T],
    bytes_count: Option<usize>,
    policy: core::marker::PhantomData<A>,
}

impl<'a, T, A: Encoder> SliceContainer<'a, T, A> where T: Encode<A> {
    /// The slice's elements.
    pub closed spec fn items(&self) -> Seq<T> {
        self.inner@
    }

    #[verifier::type_invariant]
    spec fn wf(&self) -> bool {
        match self.bytes_count {
            Some(v) => v as nat == total_len::<A, T>(self.inner@),
            None => true,
        }
    }

    /// Wraps a slice, with the byte count to be summed on demand.
    pub fn new(inner: &'a [T]) -> (r: Self)
        ensures
            r.items() == inner@,
    {
        SliceContainer { inner, bytes_count: None, policy: core::marker::PhantomData }
    }

    /// Fast path to supply the precomputed number of bytes, which must be
    /// the slice's true total encoded length.
    pub fn with_bytes_count(self, size: usize) -> (r: Self)
        requires
            size as nat == total_len::<A, T>(self.items()),
        ensures
            r.items() == self.items(),
    {
        SliceContainer {
            inner: self.inner,
            bytes_count: Some(size),
            policy: core::marker::PhantomData,
        }
    }
}

impl<'a, T, A: Encoder> Encode<A> for SliceContainer<'a, T, A> where T: Encode<A> {
    open spec fn enc(&self, policy: A) -> Seq<u8> {
        concat_seqs(encs_of(self.items(), policy))
    }

    open spec fn enc_len(&self) -> nat {
        total_len::<A, T>(self.items())
    }

    proof fn lemma_enc_len(&self, policy: A) {
        lemma_total_len::<A, T>(self.items(), policy);
    }

    #[verifier::loop_isolation(false)]
    fn encode_by_ref(&self, buf: &mut BytesMut, encoder: &mut A) -> (r: Result<(), Error>) {
        let ghost encs = encs_of(self.items(), *encoder);
        let mut i: usize = 0;
        proof {
            assert(bytes_mut_view(*buf) + concat_seqs(encs.take(0)) =~= bytes_mut_view(*buf));
        }
        while i < self.inner.len()
            invariant
                i <= self.items().len(),
                *encoder == *old(encoder),
                bytes_mut_view(*buf) == bytes_mut_view(*old(buf)) + concat_seqs(
                    encs.take(i as int),
                ),
            decreases self.items().len() - i,
        {
            let res = self.inner[i].encode_by_ref(buf, encoder);
            proof {
                assert(res is Ok);
                lemma_concat_seqs_take_succ(encs, i as int);
                assert(encs[i as int] == self.items()[i as int].enc(*old(encoder)));
                assert((bytes_mut_view(*old(buf)) + concat_seqs(encs.take(i as int)))
                    + self.items()[i as int].enc(*old(encoder)) =~= bytes_mut_view(*old(buf))
                    + concat_seqs(encs.take(i as int + 1)));
            }
            i = i + 1;
        }
        proof {
            lemma_concat_seqs_take_all(encs);
        }
        Ok(())
    }

    #[verifier::loop_isolation(false)]
    fn bytes_count(&self) -> (n: usize) {
        match self.bytes_count {
            Some(v) => {
                proof {
                    use_type_invariant(self);
                }
                v
            },
            None => {
                let mut count: usize = 0;
                let mut i: usize = 0;
                proof {
                    assert(self.items().take(0) =~= Seq::<T>::empty());
                }
                while i < self.inner.len()
                    invariant
                        i <= self.items().len(),
                        count == total_len::<A, T>(self.items().take(i as int)),
                    decreases self.items().len() - i,
                {
                    proof {
                        lemma_total_len_take_succ::<A, T>(self.items(), i as int);
                        lemma_total_len_take_le::<A, T>(self.items(), i as int + 1);
                    }
                    let c = self.inner[i].bytes_count();
                    count = count + c;
                    i = i + 1;
                }
                proof {
                    assert(self.items().take(self.items().len() as int) =~= self.items());
                }
                count
            },
        }
    }
}

} // verus!
