//! Multiple Service Packet: batches several independent CIP service
//! requests into one exchange, and splits the single reply buffer back into
//! per-request replies via its offset table.
//!
//! Request payload layout: `service_count: u16`, then `service_count`
//! little-endian `u16` offsets, each relative to the start of the payload,
//! then the concatenated sub-request bytes. The reply payload has the same
//! shape; the device sends only start offsets, so the last sub-reply's
//! length is implied by the total buffer length.

use vstd::prelude::*;
use bytes::{Bytes, BytesMut};
use crate::buffer::{
    bytes_len, bytes_mut_new, bytes_mut_view, bytes_view, freeze, get_u16_le, put_bytes, put_u8,
    put_u16_le, split_off, split_to,
};
use crate::codec::{
    concat_seqs, lemma_concat_seqs_take_all, lemma_concat_seqs_take_succ, Encodable,
};
use crate::consts::SERVICE_MULTIPLE_SERVICE_PACKET;
use crate::error::{Error, Status};

verus! {

/// One CIP service call: a service code, the routing path to the target
/// object, and the request data.
#[derive(Debug)]
pub struct MessageRequest<P, D> {
    pub service_code: u8,
    pub path: P,
    pub data: D,
}

/// One CIP service reply: the completion status and the reply data, which
/// is only to be trusted when the status is OK.
#[derive(Debug)]
pub struct MessageReply<D> {
    pub status: Status,
    pub data: D,
}

/// A message request encodes as its service code, the path length in
/// 16-bit words, the path bytes, then the request data.
impl<P: Encodable, D: Encodable> Encodable for MessageRequest<P, D> {
    open spec fn enc(&self) -> Seq<u8> {
        seq![self.service_code, (self.path.enc().len() / 2) as u8] + self.path.enc()
            + self.data.enc()
    }

    open spec fn enc_ok(&self) -> bool {
        &&& self.path.enc_ok()
        &&& self.data.enc_ok()
        &&& self.path.enc().len() % 2 == 0
        &&& self.path.enc().len() <= 510
    }

    fn encode(self, dst: &mut BytesMut) -> (r: Result<(), Error>) {
        let mut path_buf = bytes_mut_new();
        match self.path.encode(&mut path_buf) {
            Ok(()) => (),
            Err(e) => {
                return Err(e);
            },
        }
        let path_bytes = freeze(path_buf);
        proof {
            assert(bytes_view(path_bytes) =~= self.path.enc());
        }
        let path_len = bytes_len(&path_bytes);
        if path_len % 2 != 0 || path_len > 510 {
            return Err(Error::InvalidData);
        }
        put_u8(dst, self.service_code);
        put_u8(dst, (path_len / 2) as u8);
        put_bytes(dst, &path_bytes);
        match self.data.encode(dst) {
            Ok(()) => (),
            Err(e) => {
                return Err(e);
            },
        }
        proof {
            assert(bytes_mut_view(*dst) =~= bytes_mut_view(*old(dst)) + self.enc());
        }
        Ok(())
    }

    fn bytes_count(&self) -> (n: usize) {
        let p = self.path.bytes_count();
        let d = self.data.bytes_count();
        2 + p + d
    }
}

/// The contents of a list of buffers.
pub open spec fn bytes_views(items: Seq<Bytes>) -> Seq<Seq<u8>> {
    items.map_values(|b: Bytes| bytes_view(b))
}

/// The byte position, relative to the start of the payload, at which
/// sub-request `i` begins: past the count, the offset table, and every
/// earlier sub-request.
pub open spec fn msp_offset(reqs: Seq<Seq<u8>>, i: int) -> int {
    2 + 2 * (reqs.len() as int) + (concat_seqs(reqs.take(i)).len() as int)
}

/// Whether every offset of the table fits a 16-bit word.
pub open spec fn msp_fits(reqs: Seq<Seq<u8>>) -> bool {
    forall|i: int| 0 <= i < reqs.len() ==> msp_offset(reqs, i) <= 65535
}

/// The first `k` entries of the offset table, as wire bytes.
pub open spec fn msp_offset_table(reqs: Seq<Seq<u8>>, k: int) -> Seq<u8>
    decreases k,
{
    if k <= 0 {
        Seq::empty()
    } else {
        msp_offset_table(reqs, k - 1) + vstd::bytes::spec_u16_to_le_bytes(
            msp_offset(reqs, k - 1) as u16,
        )
    }
}

/// The full request payload: the count, the offset table, then the
/// concatenated sub-request bytes in their original order.
pub open spec fn msp_payload(reqs: Seq<Seq<u8>>) -> Seq<u8> {
    vstd::bytes::spec_u16_to_le_bytes(reqs.len() as u16) + msp_offset_table(
        reqs,
        reqs.len() as int,
    ) + concat_seqs(reqs)
}

/// Builds a batch of service requests and turns it into one outbound
/// Multiple Service Packet exchange. Each pushed request is sized and
/// serialized up front, so the offset table can be computed before the
/// payload is assembled.
#[derive(Debug)]
pub struct MultipleServicePacket {
    items: Vec<Bytes>,
}

impl View for MultipleServicePacket {
    type V = Seq<Seq<u8>>;

    closed spec fn view(&self) -> Seq<Seq<u8>> {
        bytes_views(self.items@)
    }
}

impl MultipleServicePacket {
    /// An empty batch.
    pub fn new() -> (r: Self)
        ensures
            r@ == Seq::<Seq<u8>>::empty(),
    {
        let r = MultipleServicePacket { items: Vec::new() };
        proof {
            assert(r@ =~= Seq::<Seq<u8>>::empty());
        }
        r
    }

    /// How many requests the batch holds.
    pub fn len(&self) -> (n: usize)
        ensures
            n == self@.len(),
    {
        self.items.len()
    }

    /// Appends one service request to the batch.
    pub fn push<P: Encodable, D: Encodable>(self, mr: MessageRequest<P, D>) -> (r: Result<
        Self,
        Error,
    >)
        ensures
            r is Ok <==> mr.enc_ok(),
            r matches Ok(p) ==> p@ == self@.push(mr.enc()),
    {
        let ghost e = mr.enc();
        let mut s = self;
        match mr.try_into_bytes() {
            Ok(b) => {
                s.items.push(b);
                proof {
                    assert(s@ =~= self@.push(e));
                }
                Ok(s)
            },
            Err(err) => Err(err),
        }
    }

    /// Appends every request of a list to the batch, in order.
    #[verifier::loop_isolation(false)]
    pub fn push_all<P: Encodable, D: Encodable>(self, reqs: Vec<MessageRequest<P, D>>) -> (r:
        Result<Self, Error>)
        ensures
            r is Ok <==> (forall|i: int|
                0 <= i < reqs@.len() ==> (#[trigger] reqs@[i]).enc_ok()),
            r matches Ok(p) ==> p@ == self@ + reqs@.map_values(
                |mr: MessageRequest<P, D>| mr.enc(),
            ),
    {
        let ghost orig = reqs@;
        let ghost encs = orig.map_values(|mr: MessageRequest<P, D>| mr.enc());
        let mut s = self;
        let mut reqs = reqs;
        proof {
            assert(self@ + encs.take(0) =~= self@);
        }
        while reqs.len() > 0
            invariant
                reqs@ == orig.skip(orig.len() - reqs.len()),
                reqs.len() <= orig.len(),
                encs == orig.map_values(|mr: MessageRequest<P, D>| mr.enc()),
                forall|i: int|
                    0 <= i < orig.len() - reqs.len() ==> (#[trigger] orig[i]).enc_ok(),
                s@ == self@ + encs.take(orig.len() - reqs.len()),
            decreases reqs.len(),
        {
            let ghost k = orig.len() - reqs.len();
            proof {
                assert(reqs@[0] == orig[k]);
            }
            let mr = reqs.remove(0);
            match mr.try_into_bytes() {
                Ok(b) => {
                    let ghost prev_items = s.items@;
                    proof {
                        assert(bytes_view(b) == orig[k].enc());
                        assert(bytes_views(prev_items) == self@ + encs.take(k));
                    }
                    s.items.push(b);
                    proof {
                        assert(reqs@ =~= orig.skip(k + 1));
                        assert(encs.take(k + 1) =~= encs.take(k).push(orig[k].enc()));
                        assert(s.items@ == prev_items.push(b));
                        assert(bytes_views(prev_items.push(b)) =~= bytes_views(
                            prev_items,
                        ).push(bytes_view(b)));
                        assert(s@ =~= self@ + encs.take(k + 1));
                    }
                },
                Err(e) => {
                    proof {
                        assert(!(orig[k].enc_ok()));
                    }
                    return Err(e);
                },
            }
        }
        proof {
            assert(encs.take(orig.len() as int) =~= encs);
        }
        Ok(s)
    }

    /// Serializes the batch into the single outbound request payload. An
    /// empty batch yields no payload at all: it needs no exchange, and its
    /// reply is the empty sequence. Fails with invalid data when an offset
    /// of the table would not fit a 16-bit word.
    #[verifier::loop_isolation(false)]
    pub fn encode_payload(&self) -> (r: Result<Option<Bytes>, Error>)
        ensures
            self@.len() == 0 <==> r == Ok::<Option<Bytes>, Error>(None),
            r matches Ok(Some(b)) ==> bytes_view(b) == msp_payload(self@),
            r is Err <==> self@.len() >= 1 && !msp_fits(self@),
            r is Err ==> r == Err::<Option<Bytes>, Error>(Error::InvalidData),
    {
        let n = self.items.len();
        if n == 0 {
            return Ok(None);
        }
        proof {
            vstd::bytes::lemma_auto_spec_u16_to_from_le_bytes();
            assert(self@.take(0) =~= Seq::<Seq<u8>>::empty());
        }
        if n > 32766 {
            proof {
                assert(msp_offset(self@, 0) > 65535);
                assert(!msp_fits(self@));
            }
            return Err(Error::InvalidData);
        }
        let mut buf = bytes_mut_new();
        put_u16_le(&mut buf, n as u16);
        let mut offset: u128 = 2 + 2 * (n as u128);
        let mut i: usize = 0;
        proof {
            assert(bytes_mut_view(buf) =~= vstd::bytes::spec_u16_to_le_bytes(n as u16)
                + msp_offset_table(self@, 0));
        }
        while i < n
            invariant
                i <= n,
                offset == msp_offset(self@, i as int),
                forall|j: int| 0 <= j < i ==> msp_offset(self@, j) <= 65535,
                bytes_mut_view(buf) == vstd::bytes::spec_u16_to_le_bytes(n as u16)
                    + msp_offset_table(self@, i as int),
            decreases n - i,
        {
            if offset > 65535 {
                proof {
                    assert(!msp_fits(self@));
                }
                return Err(Error::InvalidData);
            }
            put_u16_le(&mut buf, offset as u16);
            let len_i = bytes_len(&self.items[i]);
            proof {
                lemma_concat_seqs_take_succ(self@, i as int);
                assert(self@[i as int] == bytes_view(self.items@[i as int]));
                assert((vstd::bytes::spec_u16_to_le_bytes(n as u16) + msp_offset_table(
                    self@,
                    i as int,
                )) + vstd::bytes::spec_u16_to_le_bytes(msp_offset(self@, i as int) as u16)
                    =~= vstd::bytes::spec_u16_to_le_bytes(n as u16) + msp_offset_table(
                    self@,
                    i as int + 1,
                ));
            }
            offset = offset + (len_i as u128);
            i = i + 1;
        }
        let mut j: usize = 0;
        proof {
            assert(bytes_mut_view(buf) + concat_seqs(self@.take(0)) =~= bytes_mut_view(buf));
        }
        while j < n
            invariant
                j <= n,
                bytes_mut_view(buf) == (vstd::bytes::spec_u16_to_le_bytes(n as u16)
                    + msp_offset_table(self@, n as int)) + concat_seqs(self@.take(j as int)),
            decreases n - j,
        {
            put_bytes(&mut buf, &self.items[j]);
            proof {
                lemma_concat_seqs_take_succ(self@, j as int);
                assert(self@[j as int] == bytes_view(self.items@[j as int]));
                assert(((vstd::bytes::spec_u16_to_le_bytes(n as u16) + msp_offset_table(
                    self@,
                    n as int,
                )) + concat_seqs(self@.take(j as int))) + self@[j as int] =~= (
                vstd::bytes::spec_u16_to_le_bytes(n as u16) + msp_offset_table(self@, n as int))
                    + concat_seqs(self@.take(j as int + 1)));
            }
            j = j + 1;
        }
        proof {
            lemma_concat_seqs_take_all(self@);
            assert(bytes_mut_view(buf) =~= msp_payload(self@));
        }
        Ok(Some(freeze(buf)))
    }

    /// Wraps the serialized batch as the single outbound request: service
    /// code 0x0A, the caller's routing path to the Message Router object,
    /// and the payload as data. An empty batch yields no request.
    pub fn request<P: Encodable>(self, path: P) -> (r: Result<
        Option<MessageRequest<P, Bytes>>,
        Error,
    >)
        ensures
            self@.len() == 0 <==> r == Ok::<Option<MessageRequest<P, Bytes>>, Error>(None),
            r matches Ok(Some(mr)) ==> {
                &&& mr.service_code == SERVICE_MULTIPLE_SERVICE_PACKET
                &&& mr.path == path
                &&& bytes_view(mr.data) == msp_payload(self@)
            },
            r is Err <==> self@.len() >= 1 && !msp_fits(self@),
            r is Err ==> r == Err::<Option<MessageRequest<P, Bytes>>, Error>(Error::InvalidData),
    {
        match self.encode_payload() {
            Ok(None) => Ok(None),
            Ok(Some(payload)) => Ok(
                Some(
                    MessageRequest {
                        service_code: SERVICE_MULTIPLE_SERVICE_PACKET,
                        path,
                        data: payload,
                    },
                ),
            ),
            Err(e) => Err(e),
        }
    }
}

/// What splitting a reply buffer yields from sub-reply `i` on, given the
/// offset table, the payload bytes not yet consumed, and the previous
/// offset: one chunk per remaining table entry, then whatever non-empty
/// remainder follows, whose length the device implies by the buffer's end.
pub open spec fn msp_decode_rest(
    table: Seq<u8>,
    payload: Seq<u8>,
    i: int,
    count: int,
    prev: u16,
) -> Option<Seq<Seq<u8>>>
    decreases count - i,
{
    if i >= count {
        if payload.len() > 0 {
            Some(seq![payload])
        } else {
            Some(Seq::empty())
        }
    } else {
        let o = vstd::bytes::spec_u16_from_le_bytes(table.subrange(2 * i, 2 * i + 2));
        if o <= prev {
            None
        } else {
            let size = o - prev;
            if payload.len() < size {
                None
            } else {
                match msp_decode_rest(table, payload.skip(size as int), i + 1, count, o) {
                    Some(rest) => Some(seq![payload.take(size as int)] + rest),
                    None => None,
                }
            }
        }
    }
}

/// What demultiplexing a reply buffer yields: nothing when the buffer is
/// shorter than its own count and table declare, or when an offset fails to
/// increase strictly, or when the payload runs out before a declared chunk.
pub open spec fn msp_decode(b: Seq<u8>) -> Option<Seq<Seq<u8>>> {
    if b.len() < 2 {
        None
    } else {
        let count = vstd::bytes::spec_u16_from_le_bytes(b.take(2)) as int;
        if count == 0 {
            Some(Seq::empty())
        } else if b.len() - 2 < 2 * count {
            None
        } else {
            let table = b.skip(2).take(2 * count);
            let payload = b.skip(2 + 2 * count);
            let first = vstd::bytes::spec_u16_from_le_bytes(table.take(2));
            msp_decode_rest(table, payload, 1, count, first)
        }
    }
}

/// Splits one reply buffer into per-request reply chunks via its offset
/// table. Every malformed condition fails the whole decode with invalid
/// data: a buffer shorter than two bytes, a buffer shorter than the table
/// its count declares, an offset that does not strictly increase, or a
/// payload shorter than the chunk two offsets delimit.
#[verifier::loop_isolation(false)]
pub fn decode_replies(buf: Bytes) -> (r: Result<Vec<Bytes>, Error>)
    ensures
        r is Ok <==> msp_decode(bytes_view(buf)) is Some,
        r matches Ok(v) ==> msp_decode(bytes_view(buf)) == Some(bytes_views(v@)),
        r is Err ==> r == Err::<Vec<Bytes>, Error>(Error::InvalidData),
{
    let ghost b0 = bytes_view(buf);
    let mut table = buf;
    if bytes_len(&table) < 2 {
        return Err(Error::InvalidData);
    }
    let count = get_u16_le(&mut table);
    let mut results: Vec<Bytes> = Vec::new();
    if count == 0 {
        proof {
            assert(bytes_views(results@) =~= Seq::<Seq<u8>>::empty());
        }
        return Ok(results);
    }
    let count = count as usize;
    if bytes_len(&table) < 2 * count {
        return Err(Error::InvalidData);
    }
    let mut payload = split_off(&mut table, 2 * count);
    let ghost table0 = bytes_view(table);
    proof {
        assert(table0 == b0.skip(2).take(2 * count as int));
        assert(bytes_view(payload) =~= b0.skip(2 + 2 * count as int));
        assert(table0.take(2) =~= table0.subrange(0, 2));
    }
    let mut prev = get_u16_le(&mut table);
    let mut i: usize = 1;
    proof {
        assert(bytes_views(results@) =~= Seq::<Seq<u8>>::empty());
    }
    while i < count
        invariant
            1 <= i <= count,
            bytes_view(table) == table0.skip(2 * i as int),
            msp_decode(b0) == (match msp_decode_rest(
                table0,
                bytes_view(payload),
                i as int,
                count as int,
                prev,
            ) {
                Some(rest) => Some(bytes_views(results@) + rest),
                None => None::<Seq<Seq<u8>>>,
            }),
        decreases count - i,
    {
        proof {
            assert(table0.skip(2 * i as int).take(2) =~= table0.subrange(
                2 * i as int,
                2 * i as int + 2,
            ));
        }
        let o = get_u16_le(&mut table);
        if o <= prev {
            return Err(Error::InvalidData);
        }
        let size = (o - prev) as usize;
        if bytes_len(&payload) < size {
            return Err(Error::InvalidData);
        }
        let ghost pay = bytes_view(payload);
        let chunk = split_to(&mut payload, size);
        let ghost prev_results = results@;
        results.push(chunk);
        proof {
            assert(bytes_view(table) =~= table0.skip(2 * (i as int + 1)));
            assert(bytes_views(results@) =~= bytes_views(prev_results).push(
                pay.take(size as int),
            ));
            assert forall|rest: Seq<Seq<u8>>|
                bytes_views(prev_results) + (seq![pay.take(size as int)] + rest)
                    =~= bytes_views(results@) + rest by {}
        }
        prev = o;
        i = i + 1;
    }
    if bytes_len(&payload) > 0 {
        let ghost prev_results = results@;
        let ghost pay = bytes_view(payload);
        results.push(payload);
        proof {
            assert(bytes_views(results@) =~= bytes_views(prev_results).push(pay));
            assert(bytes_views(prev_results) + seq![pay] =~= bytes_views(results@));
        }
        return Ok(results);
    }
    proof {
        assert(bytes_views(results@) + Seq::<Seq<u8>>::empty() =~= bytes_views(results@));
    }
    Ok(results)
}

/// Checks the envelope status of the Multiple Service Packet reply and
/// demultiplexes its data. A non-OK envelope status fails the whole batch
/// uniformly, carrying that status; no partial per-item result is produced.
pub fn handle_reply(reply: MessageReply<Bytes>) -> (r: Result<Vec<Bytes>, Error>)
    ensures
        !reply.status.spec_is_ok() ==> r == Err::<Vec<Bytes>, Error>(
            Error::ResponseStatus(reply.status),
        ),
        reply.status.spec_is_ok() ==> {
            &&& r is Ok <==> msp_decode(bytes_view(reply.data)) is Some
            &&& (r matches Ok(v) ==> msp_decode(bytes_view(reply.data)) == Some(
                bytes_views(v@),
            ))
            &&& (r is Err ==> r == Err::<Vec<Bytes>, Error>(Error::InvalidData))
        },
{
    if !reply.status.is_ok() {
        return Err(Error::ResponseStatus(reply.status));
    }
    decode_replies(reply.data)
}

} // verus!
