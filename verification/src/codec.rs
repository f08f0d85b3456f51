//! The encode value model: a trait tying a value's exact wire bytes to the
//! code that appends them and to the precomputed byte count.

use vstd::prelude::*;
use bytes::{Bytes, BytesMut};
use crate::buffer::{bytes_len, bytes_mut_new, bytes_mut_view, bytes_view, freeze, put_bytes};
use crate::error::Error;

verus! {

/// A value with a defined little-endian wire form.
///
/// `enc` is the value's exact wire bytes; `enc_ok` says whether the value may
/// legally be put on the wire at all. `encode` appends exactly `enc` on
/// success and fails exactly when `enc_ok` is false; after a failed encode
/// the destination buffer holds a partial write and must be discarded.
/// `bytes_count` returns the encoded length without producing any bytes, so
/// a caller can size an offset table before the payload exists.
pub trait Encodable: Sized {
    /// The value's wire bytes.
    spec fn enc(&self) -> Seq<u8>;

    /// Whether the value fits the wire bounds of its form.
    spec fn enc_ok(&self) -> bool;

    /// Appends the value's wire bytes to `dst`.
    fn encode(self, dst: &mut BytesMut) -> (r: Result<(), Error>)
        ensures
            r is Ok <==> self.enc_ok(),
            r is Ok ==> bytes_mut_view(*final(dst)) == bytes_mut_view(*old(dst)) + self.enc(),
    ;

    /// The exact number of bytes `encode` would append.
    fn bytes_count(&self) -> (n: usize)
        requires
            self.enc().len() <= usize::MAX,
        ensures
            n == self.enc().len(),
    ;

    /// Encodes the value into a fresh buffer.
    fn try_into_bytes(self) -> (r: Result<Bytes, Error>)
        ensures
            r is Ok <==> self.enc_ok(),
            r matches Ok(b) ==> bytes_view(b) == self.enc(),
    {
        let ghost e = self.enc();
        let mut buf = bytes_mut_new();
        match self.encode(&mut buf) {
            Ok(()) => {
                proof {
                    assert(bytes_mut_view(buf) =~= e);
                }
                Ok(freeze(buf))
            },
            Err(e) => Err(e),
        }
    }
}

/// Raw bytes encode as themselves: the fast path that copies the buffer
/// directly, bypassing per-element dispatch.
impl Encodable for Bytes {
    open spec fn enc(&self) -> Seq<u8> {
        bytes_view(*self)
    }

    open spec fn enc_ok(&self) -> bool {
        true
    }

    fn encode(self, dst: &mut BytesMut) -> (r: Result<(), Error>) {
        put_bytes(dst, &self);
        Ok(())
    }

    fn bytes_count(&self) -> (n: usize) {
        bytes_len(self)
    }
}

/// The concatenation of a list of byte strings, in order.
pub open spec fn concat_seqs(items: Seq<Seq<u8>>) -> Seq<u8>
    decreases items.len(),
{
    if items.len() == 0 {
        Seq::empty()
    } else {
        items[0] + concat_seqs(items.skip(1))
    }
}

/// Extending the prefix by one item appends that item's bytes.
pub proof fn lemma_concat_seqs_take_succ(items: Seq<Seq<u8>>, k: int)
    requires
        0 <= k < items.len(),
    ensures
        concat_seqs(items.take(k + 1)) == concat_seqs(items.take(k)) + items[k],
    decreases k,
{
    if k == 0 {
        assert(items.take(1).len() == 1);
        assert(items.take(1)[0] == items[0]);
        assert(items.take(1).skip(1) =~= Seq::<Seq<u8>>::empty());
        assert(concat_seqs(items.take(1)) == items[0] + concat_seqs(Seq::<Seq<u8>>::empty()));
        assert(items[0] + Seq::<u8>::empty() =~= items[0]);
        assert(items.take(0) =~= Seq::<Seq<u8>>::empty());
        assert(concat_seqs(items.take(0)) + items[0] =~= items[0]);
    } else {
        let tail = items.skip(1);
        lemma_concat_seqs_take_succ(tail, k - 1);
        assert(items.take(k + 1).skip(1) =~= tail.take(k));
        assert(items.take(k).skip(1) =~= tail.take(k - 1));
        assert(items.take(k + 1)[0] =~= items[0]);
        assert(items.take(k)[0] =~= items[0]);
        assert(concat_seqs(items.take(k + 1)) == items[0] + concat_seqs(tail.take(k)));
        assert(concat_seqs(items.take(k)) == items[0] + concat_seqs(tail.take(k - 1)));
        assert(items[0] + (concat_seqs(tail.take(k - 1)) + tail[k - 1]) =~= (items[0]
            + concat_seqs(tail.take(k - 1))) + items[k]);
    }
}

/// The whole list's bytes are the full prefix's bytes.
pub proof fn lemma_concat_seqs_take_all(items: Seq<Seq<u8>>)
    ensures
        concat_seqs(items.take(items.len() as int)) == concat_seqs(items),
{
    assert(items.take(items.len() as int) =~= items);
}

/// A prefix never concatenates to more bytes than the whole list.
pub proof fn lemma_concat_seqs_take_len_le(items: Seq<Seq<u8>>, k: int)
    requires
        0 <= k <= items.len(),
    ensures
        concat_seqs(items.take(k)).len() <= concat_seqs(items).len(),
    decreases items.len() - k,
{
    if k == items.len() {
        lemma_concat_seqs_take_all(items);
    } else {
        lemma_concat_seqs_take_succ(items, k);
        lemma_concat_seqs_take_len_le(items, k + 1);
    }
}

} // verus!
