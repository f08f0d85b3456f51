//! Common Packet Format (CPF): the ordered list of typed data items that
//! forms the payload of every encapsulated packet.
//!
//! Wire layout: `item_count: u16`, then per item `type_code: u16`,
//! `data_length: u16`, `data[data_length]`, all little-endian.

use vstd::prelude::*;
use bytes::{Bytes, BytesMut};
use crate::buffer::{
    bytes_from_vec, bytes_len, bytes_mut_view, bytes_view, get_u16_le, put_bytes, put_u16_le,
    split_to,
};
use crate::codec::{
    concat_seqs, lemma_concat_seqs_take_all, lemma_concat_seqs_take_len_le,
    lemma_concat_seqs_take_succ, Encodable,
};
use crate::error::Error;

verus! {

/// One typed data item: a type code selecting its role and its raw data,
/// which may be at most 65535 bytes long on the wire.
#[derive(Debug)]
pub struct CommonPacketItem {
    pub type_code: u16,
    pub data: Bytes,
}

/// The wire bytes of one item with the given type code and data.
pub open spec fn item_enc(type_code: u16, data: Seq<u8>) -> Seq<u8> {
    vstd::bytes::spec_u16_to_le_bytes(type_code) + vstd::bytes::spec_u16_to_le_bytes(
        data.len() as u16,
    ) + data
}

/// An item reduced to what the wire carries: its type code and its data.
pub open spec fn item_view(item: CommonPacketItem) -> (u16, Seq<u8>) {
    (item.type_code, bytes_view(item.data))
}

/// Each item of a list reduced to its wire content.
pub open spec fn items_views(items: Seq<CommonPacketItem>) -> Seq<(u16, Seq<u8>)> {
    items.map_values(|item: CommonPacketItem| item_view(item))
}

/// The wire bytes of each of a list of (type code, data) pairs.
pub open spec fn pair_encs(items: Seq<(u16, Seq<u8>)>) -> Seq<Seq<u8>> {
    items.map_values(|p: (u16, Seq<u8>)| item_enc(p.0, p.1))
}

/// The wire bytes of a whole packet: the item count, then every item.
pub open spec fn cpf_enc(items: Seq<(u16, Seq<u8>)>) -> Seq<u8> {
    vstd::bytes::spec_u16_to_le_bytes(items.len() as u16) + concat_seqs(pair_encs(items))
}

impl Encodable for CommonPacketItem {
    open spec fn enc(&self) -> Seq<u8> {
        item_enc(self.type_code, bytes_view(self.data))
    }

    open spec fn enc_ok(&self) -> bool {
        bytes_view(self.data).len() <= 65535
    }

    fn encode(self, dst: &mut BytesMut) -> (r: Result<(), Error>) {
        let len = bytes_len(&self.data);
        if len > 65535 {
            return Err(Error::InvalidData);
        }
        proof {
            vstd::bytes::lemma_auto_spec_u16_to_from_le_bytes();
        }
        put_u16_le(dst, self.type_code);
        put_u16_le(dst, len as u16);
        put_bytes(dst, &self.data);
        proof {
            assert(bytes_mut_view(*dst) =~= bytes_mut_view(*old(dst)) + self.enc());
        }
        Ok(())
    }

    fn bytes_count(&self) -> (n: usize) {
        proof {
            vstd::bytes::lemma_auto_spec_u16_to_from_le_bytes();
        }
        4 + bytes_len(&self.data)
    }
}

impl CommonPacketItem {
    /// A null (zero-length) address item, as carried in an unconnected
    /// exchange: type code 0 with the two-byte zero body.
    pub fn with_null_addr() -> (r: Self)
        ensures
            r.type_code == 0,
            bytes_view(r.data) == seq![0u8, 0u8],
    {
        let v: Vec<u8> = vec![0u8, 0u8];
        let ghost vv = v@;
        let data = bytes_from_vec(v);
        proof {
            assert(vv =~= seq![0u8, 0u8]);
        }
        CommonPacketItem { type_code: 0, data }
    }

    /// An unconnected data item carrying the given bytes.
    pub fn with_unconnected_data(data: Bytes) -> (r: Self)
        ensures
            r.type_code == 0xB2,
            bytes_view(r.data) == bytes_view(data),
    {
        CommonPacketItem { type_code: 0xB2, data }
    }

    /// A connected data item carrying the given bytes.
    pub fn with_connected_data(data: Bytes) -> (r: Self)
        ensures
            r.type_code == 0xB1,
            bytes_view(r.data) == bytes_view(data),
    {
        CommonPacketItem { type_code: 0xB1, data }
    }

    /// Whether this is a null address item: type code 0 and no data.
    pub fn is_null_addr(&self) -> (r: bool)
        ensures
            r == (self.type_code == 0 && bytes_view(self.data).len() == 0),
    {
        if self.type_code != 0 {
            return false;
        }
        bytes_len(&self.data) == 0
    }

    /// Checks the item against an expected type code; the mismatch is the
    /// caller's semantic error, reported as invalid data.
    pub fn ensure_type_code(&self, type_code: u16) -> (r: Result<(), Error>)
        ensures
            r is Ok <==> self.type_code == type_code,
            r is Err ==> r == Err::<(), Error>(Error::InvalidData),
    {
        if self.type_code != type_code {
            return Err(Error::InvalidData);
        }
        Ok(())
    }
}

/// An ordered list of items. Order is wire-significant; an outbound packet
/// must hold 1 to 4 items, while an inbound packet may legally hold any
/// count its header declares.
#[derive(Debug)]
pub struct CommonPacket(Vec<CommonPacketItem>);

impl View for CommonPacket {
    type V = Seq<CommonPacketItem>;

    closed spec fn view(&self) -> Seq<CommonPacketItem> {
        self.0@
    }
}

impl CommonPacket {
    /// An empty packet.
    pub fn new() -> (r: Self)
        ensures
            r@ == Seq::<CommonPacketItem>::empty(),
    {
        CommonPacket(Vec::new())
    }

    /// The items, in order.
    pub fn into_inner(self) -> (r: Vec<CommonPacketItem>)
        ensures
            r@ == self@,
    {
        self.0
    }

    /// The items, in order, as a value to iterate over.
    pub fn into_iter(self) -> (r: Vec<CommonPacketItem>)
        ensures
            r@ == self@,
    {
        self.0
    }

    /// Appends one item at the back.
    pub fn push(&mut self, item: CommonPacketItem)
        ensures
            final(self)@ == old(self)@.push(item),
    {
        self.0.push(item);
    }

    /// How many items the packet holds.
    pub fn len(&self) -> (n: usize)
        ensures
            n == self@.len(),
    {
        self.0.len()
    }
}

impl From<Vec<CommonPacketItem>> for CommonPacket {
    fn from(src: Vec<CommonPacketItem>) -> (r: CommonPacket) {
        CommonPacket(src)
    }
}

impl vstd::std_specs::convert::FromSpecImpl<Vec<CommonPacketItem>> for CommonPacket {
    open spec fn obeys_from_spec() -> bool {
        true
    }

    closed spec fn from_spec(src: Vec<CommonPacketItem>) -> CommonPacket {
        CommonPacket(src)
    }
}

/// The wire bytes of each item of a list.
pub open spec fn items_encs(items: Seq<CommonPacketItem>) -> Seq<Seq<u8>> {
    items.map_values(|item: CommonPacketItem| item.enc())
}

/// Reducing items to views and encoding the views encodes the items.
proof fn lemma_items_encs_as_pair_encs(items: Seq<CommonPacketItem>)
    ensures
        items_encs(items) == pair_encs(items_views(items)),
{
    assert(items_encs(items) =~= pair_encs(items_views(items)));
}

impl Encodable for CommonPacket {
    open spec fn enc(&self) -> Seq<u8> {
        cpf_enc(items_views(self@))
    }

    open spec fn enc_ok(&self) -> bool {
        &&& 1 <= self@.len() <= 4
        &&& forall|i: int| 0 <= i < self@.len() ==> (#[trigger] self@[i]).enc_ok()
    }

    fn encode(self, dst: &mut BytesMut) -> (r: Result<(), Error>) {
        let mut items = self.0;
        let ghost orig = items@;
        let n = items.len();
        if n < 1 || n > 4 {
            return Err(Error::InvalidData);
        }
        proof {
            vstd::bytes::lemma_auto_spec_u16_to_from_le_bytes();
            lemma_items_encs_as_pair_encs(orig);
        }
        put_u16_le(dst, n as u16);
        let ghost base = bytes_mut_view(*dst);
        while items.len() > 0
            invariant
                self@ == orig,
                items@ == orig.skip(orig.len() - items.len()),
                items.len() <= orig.len(),
                forall|i: int|
                    0 <= i < orig.len() - items.len() ==> (#[trigger] orig[i]).enc_ok(),
                bytes_mut_view(*dst) == base + concat_seqs(
                    items_encs(orig).take(orig.len() - items.len()),
                ),
            decreases items.len(),
        {
            let ghost k = orig.len() - items.len();
            proof {
                assert(items@[0] == orig[k]);
            }
            let item = items.remove(0);
            match item.encode(dst) {
                Ok(()) => {
                    proof {
                        lemma_concat_seqs_take_succ(items_encs(orig), k);
                        assert(items@ =~= orig.skip(k + 1));
                        assert((base + concat_seqs(items_encs(orig).take(k))) + orig[k].enc()
                            =~= base + concat_seqs(items_encs(orig).take(k + 1)));
                    }
                },
                Err(e) => {
                    proof {
                        assert(self@[k] == orig[k]);
                        assert(!(self@[k].enc_ok()));
                    }
                    return Err(e);
                },
            }
        }
        proof {
            lemma_concat_seqs_take_all(items_encs(orig));
            assert(orig.len() - items.len() == orig.len());
            assert(bytes_mut_view(*dst) =~= bytes_mut_view(*old(dst)) + cpf_enc(
                items_views(orig),
            ));
        }
        Ok(())
    }

    fn bytes_count(&self) -> (n: usize) {
        proof {
            vstd::bytes::lemma_auto_spec_u16_to_from_le_bytes();
            lemma_items_encs_as_pair_encs(self@);
        }
        let items = &self.0;
        let mut count: usize = 2;
        let mut i: usize = 0;
        while i < items.len()
            invariant
                i <= items.len(),
                items@ == self@,
                self.enc().len() <= usize::MAX,
                count == 2 + concat_seqs(items_encs(self@).take(i as int)).len(),
            decreases items.len() - i,
        {
            proof {
                vstd::bytes::lemma_auto_spec_u16_to_from_le_bytes();
                lemma_items_encs_as_pair_encs(self@);
                lemma_concat_seqs_take_succ(items_encs(self@), i as int);
                lemma_concat_seqs_take_len_le(items_encs(self@), i + 1);
                assert(items_encs(self@)[i as int] == self@[i as int].enc());
                assert(self.enc().len() == 2 + concat_seqs(items_encs(self@)).len());
            }
            let c = items[i].bytes_count();
            count = count + c;
            i = i + 1;
        }
        proof {
            lemma_concat_seqs_take_all(items_encs(self@));
        }
        count
    }
}

/// What decoding `count` consecutive items from `b` yields: the items'
/// (type code, data) pairs, or nothing if an item is truncated or bytes
/// trail the last item.
pub open spec fn cpf_decode_items(b: Seq<u8>, count: nat) -> Option<Seq<(u16, Seq<u8>)>>
    decreases count,
{
    if count == 0 {
        if b.len() == 0 {
            Some(Seq::empty())
        } else {
            None
        }
    } else if b.len() < 4 {
        None
    } else {
        let type_code = vstd::bytes::spec_u16_from_le_bytes(b.take(2));
        let len = vstd::bytes::spec_u16_from_le_bytes(b.skip(2).take(2)) as int;
        if b.len() < 4 + len {
            None
        } else {
            match cpf_decode_items(b.skip(4 + len), (count - 1) as nat) {
                Some(rest) => Some(seq![(type_code, b.skip(4).take(len))] + rest),
                None => None,
            }
        }
    }
}

/// What decoding a whole packet from `b` yields: the declared count of
/// items, or nothing if the buffer is shorter than its items declare or
/// longer than they consume.
pub open spec fn cpf_decode(b: Seq<u8>) -> Option<Seq<(u16, Seq<u8>)>> {
    if b.len() < 2 {
        None
    } else {
        cpf_decode_items(b.skip(2), vstd::bytes::spec_u16_from_le_bytes(b.take(2)) as nat)
    }
}

impl CommonPacket {
    /// Decodes a packet: reads the item count, then exactly that many
    /// items, each consuming its four-byte prefix plus its declared data
    /// length. Fails with invalid data when fewer bytes remain than an item
    /// declares, or when bytes trail the last item.
    #[verifier::loop_isolation(false)]
    pub fn decode(buf: Bytes) -> (r: Result<CommonPacket, Error>)
        ensures
            r is Ok <==> cpf_decode(bytes_view(buf)) is Some,
            r matches Ok(cp) ==> cpf_decode(bytes_view(buf)) == Some(items_views(cp@)),
            r is Err ==> r == Err::<CommonPacket, Error>(Error::InvalidData),
    {
        let ghost b0 = bytes_view(buf);
        let mut buf = buf;
        if bytes_len(&buf) < 2 {
            return Err(Error::InvalidData);
        }
        let count = get_u16_le(&mut buf);
        let mut items: Vec<CommonPacketItem> = Vec::new();
        let mut remaining: usize = count as usize;
        proof {
            assert(items_views(items@) =~= Seq::<(u16, Seq<u8>)>::empty());
            assert(cpf_decode(b0) == cpf_decode_items(bytes_view(buf), remaining as nat));
        }
        while remaining > 0
            invariant
                cpf_decode(b0) == (match cpf_decode_items(bytes_view(buf), remaining as nat) {
                    Some(rest) => Some(items_views(items@) + rest),
                    None => None::<Seq<(u16, Seq<u8>)>>,
                }),
            decreases remaining,
        {
            let ghost b = bytes_view(buf);
            if bytes_len(&buf) < 4 {
                return Err(Error::InvalidData);
            }
            let type_code = get_u16_le(&mut buf);
            let len = get_u16_le(&mut buf) as usize;
            proof {
                assert(bytes_view(buf) == b.skip(2).skip(2));
                assert(b.skip(2).skip(2) =~= b.skip(4));
                assert(b.skip(2).take(2) =~= b.skip(2).skip(0).take(2));
            }
            if bytes_len(&buf) < len {
                return Err(Error::InvalidData);
            }
            let data = split_to(&mut buf, len);
            items.push(CommonPacketItem { type_code, data });
            remaining = remaining - 1;
            proof {
                assert(b.skip(4).take(len as int) == bytes_view(data));
                assert(b.skip(4).skip(len as int) =~= b.skip(4 + len));
                assert(items_views(items@) =~= items_views(items@.drop_last()) + seq![
                    (type_code, bytes_view(data)),
                ]);
                assert forall|rest: Seq<(u16, Seq<u8>)>|
                    (items_views(items@.drop_last()) + (seq![(type_code, bytes_view(data))]
                        + rest)) =~= items_views(items@) + rest by {}
            }
        }
        if bytes_len(&buf) > 0 {
            return Err(Error::InvalidData);
        }
        proof {
            assert(items_views(items@) + Seq::<(u16, Seq<u8>)>::empty() =~= items_views(
                items@,
            ));
        }
        Ok(CommonPacket(items))
    }
}

/// Decoding the concatenation of a list of encoded items, with the list's
/// length as the declared count, yields exactly the list back.
proof fn lemma_cpf_decode_items_of_enc(items: Seq<(u16, Seq<u8>)>)
    requires
        items.len() <= 65535,
        forall|i: int| 0 <= i < items.len() ==> (#[trigger] items[i]).1.len() <= 65535,
    ensures
        cpf_decode_items(concat_seqs(pair_encs(items)), items.len() as nat) == Some(items),
    decreases items.len(),
{
    vstd::bytes::lemma_auto_spec_u16_to_from_le_bytes();
    if items.len() == 0 {
        assert(pair_encs(items) =~= Seq::<Seq<u8>>::empty());
        assert(items =~= Seq::<(u16, Seq<u8>)>::empty());
    } else {
        let type_code = items[0].0;
        let data = items[0].1;
        let head = item_enc(type_code, data);
        let tail = items.skip(1);
        let b = concat_seqs(pair_encs(items));
        assert(pair_encs(items)[0] == head);
        assert(pair_encs(items).skip(1) =~= pair_encs(tail));
        assert(b == head + concat_seqs(pair_encs(tail)));
        let rest = concat_seqs(pair_encs(tail));
        assert(vstd::bytes::spec_u16_to_le_bytes(type_code).len() == 2);
        assert(vstd::bytes::spec_u16_to_le_bytes(data.len() as u16).len() == 2);
        assert(head.len() == 4 + data.len());
        assert(b.take(2) =~= vstd::bytes::spec_u16_to_le_bytes(type_code));
        assert(vstd::bytes::spec_u16_from_le_bytes(b.take(2)) == type_code);
        assert(b.skip(2).take(2) =~= vstd::bytes::spec_u16_to_le_bytes(data.len() as u16));
        let len = vstd::bytes::spec_u16_from_le_bytes(b.skip(2).take(2)) as int;
        assert(len == data.len() as u16);
        assert(data.len() as u16 == data.len());
        assert(b.len() >= 4 + len);
        assert(b.skip(4).take(len) =~= data);
        assert(b.skip(4 + len) =~= rest);
        lemma_cpf_decode_items_of_enc(tail);
        assert(seq![(type_code, data)] + tail =~= items);
    }
}

/// Round trip: decoding an encoded packet of one to four items, each with
/// data at most 65535 bytes long, yields the packet's items unchanged.
pub proof fn lemma_cpf_round_trip(items: Seq<(u16, Seq<u8>)>)
    requires
        1 <= items.len() <= 4,
        forall|i: int| 0 <= i < items.len() ==> (#[trigger] items[i]).1.len() <= 65535,
    ensures
        cpf_decode(cpf_enc(items)) == Some(items),
{
    vstd::bytes::lemma_auto_spec_u16_to_from_le_bytes();
    let b = cpf_enc(items);
    assert(vstd::bytes::spec_u16_to_le_bytes(items.len() as u16).len() == 2);
    assert(b.take(2) =~= vstd::bytes::spec_u16_to_le_bytes(items.len() as u16));
    assert(vstd::bytes::spec_u16_from_le_bytes(b.take(2)) == items.len() as u16);
    assert(b.skip(2) =~= concat_seqs(pair_encs(items)));
    lemma_cpf_decode_items_of_enc(items);
}

} // verus!
