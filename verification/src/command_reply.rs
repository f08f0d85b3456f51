//! Decoding of inbound encapsulation command replies: total functions that
//! turn an already-framed encapsulation packet into a typed reply, by
//! command code. A reply whose command code does not match the request that
//! was sent is never silently accepted.

use vstd::prelude::*;
use bytes::Bytes;
use crate::buffer::{bytes_len, bytes_view, get_u16_le};
use crate::common_packet::{cpf_decode, CommonPacket};
use crate::consts::{EIP_COMMAND_LIST_IDENTITY, EIP_COMMAND_REGISTER_SESSION};
use crate::error::Error;
use crate::multiple_packet::bytes_views;

verus! {

/// The fixed 24-byte encapsulation header, followed on the wire by
/// `length` bytes of command-specific data.
#[derive(Debug, Clone, Copy)]
pub struct EncapsulationHeader {
    pub command: u16,
    pub length: u16,
    pub session_handle: u32,
    pub status: u32,
    pub sender_context: [u8; 8],
    pub options: u32,
}

/// An encapsulation packet: the header plus its command data.
#[derive(Debug)]
pub struct EncapsulationPacket<D> {
    pub hdr: EncapsulationHeader,
    pub data: D,
}

/// Reply to a RegisterSession request: the session handle granted by the
/// device and the protocol version it confirmed.
#[derive(Debug, Clone, Copy, PartialEq, Eq, Structural)]
pub struct RegisterSessionReply {
    pub session_handle: u32,
    pub protocol_version: u16,
}

impl RegisterSessionReply {
    /// Decodes a RegisterSession reply. The command must be 0x65, else the
    /// reply answers some other request; the body carries the protocol
    /// version and the session options, two little-endian words, so fewer
    /// than four body bytes are invalid data.
    pub fn decode(src: EncapsulationPacket<Bytes>) -> (r: Result<RegisterSessionReply, Error>)
        ensures
            r is Ok <==> (src.hdr.command == EIP_COMMAND_REGISTER_SESSION && bytes_view(
                src.data,
            ).len() >= 4),
            r matches Ok(rep) ==> {
                &&& rep.session_handle == src.hdr.session_handle
                &&& rep.protocol_version == vstd::bytes::spec_u16_from_le_bytes(
                    bytes_view(src.data).take(2),
                )
            },
            src.hdr.command != EIP_COMMAND_REGISTER_SESSION ==> r == Err::<
                RegisterSessionReply,
                Error,
            >(Error::UnexpectedReply),
            src.hdr.command == EIP_COMMAND_REGISTER_SESSION && bytes_view(src.data).len() < 4
                ==> r == Err::<RegisterSessionReply, Error>(Error::InvalidData),
    {
        if src.hdr.command != EIP_COMMAND_REGISTER_SESSION {
            return Err(Error::UnexpectedReply);
        }
        let mut data = src.data;
        if bytes_len(&data) < 4 {
            return Err(Error::InvalidData);
        }
        let protocol_version = get_u16_le(&mut data);
        Ok(
            RegisterSessionReply {
                session_handle: src.hdr.session_handle,
                protocol_version,
            },
        )
    }
}

/// What a ListIdentity reply body must hold: a Common Packet Format list
/// of exactly one item with type code 0x0C, whose data is the announced
/// device's identity bytes. Any other item count or type code is invalid.
pub open spec fn identity_items(b: Seq<u8>) -> Option<Seq<Seq<u8>>> {
    match cpf_decode(b) {
        Some(items) => if items.len() == 1 && items[0].0 == 0x0C {
            Some(seq![items[0].1])
        } else {
            None
        },
        None => None,
    }
}

/// Reply to a ListIdentity discovery request: the raw identity bytes of
/// the announcing device, one entry per identity item, for a collaborating
/// identity parser to interpret.
#[derive(Debug)]
pub struct ListIdentityReply(pub Vec<Bytes>);

impl ListIdentityReply {
    /// Decodes a ListIdentity reply. The command must be 0x63, else the
    /// reply answers some other request; the body must be a Common Packet
    /// Format list holding exactly one item with type code 0x0C.
    pub fn decode(src: EncapsulationPacket<Bytes>) -> (r: Result<ListIdentityReply, Error>)
        ensures
            src.hdr.command != EIP_COMMAND_LIST_IDENTITY ==> r == Err::<
                ListIdentityReply,
                Error,
            >(Error::UnexpectedReply),
            src.hdr.command == EIP_COMMAND_LIST_IDENTITY ==> {
                &&& (r is Ok <==> identity_items(bytes_view(src.data)) is Some)
                &&& (r matches Ok(rep) ==> Some(bytes_views(rep.0@)) == identity_items(
                    bytes_view(src.data),
                ))
                &&& (r is Err ==> r == Err::<ListIdentityReply, Error>(Error::InvalidData))
            },
    {
        if src.hdr.command != EIP_COMMAND_LIST_IDENTITY {
            return Err(Error::UnexpectedReply);
        }
        let ghost b = bytes_view(src.data);
        let cpf = match CommonPacket::decode(src.data) {
            Ok(c) => c,
            Err(e) => {
                return Err(e);
            },
        };
        if cpf.len() != 1 {
            return Err(Error::InvalidData);
        }
        let mut items = cpf.into_inner();
        let item = items.remove(0);
        if item.type_code != 0x0C {
            return Err(Error::InvalidData);
        }
        let result = vec![item.data];
        proof {
            assert(bytes_views(result@) =~= seq![bytes_view(item.data)]);
        }
        Ok(ListIdentityReply(result))
    }
}

} // verus!
