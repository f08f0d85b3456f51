//! Protocol constants: encapsulation command codes, ports and wire bounds.

use vstd::prelude::*;

verus! {

/// Default port for EtherNet/IP over TCP/IP.
pub const EIP_DEFAULT_PORT: u16 = 0xAF12;
/// Default port for EtherNet/IP over UDP (class 0 and class 1 transport).
pub const EIP_DEFAULT_UDP_PORT: u16 = 0x08AE;

/// Fixed size of the encapsulation header.
pub const ENCAPSULATION_HEADER_LEN: usize = 24;
/// Largest command-specific data length an encapsulation packet can carry:
/// the 16-bit total length less the header.
pub const ENCAPSULATION_DATA_MAX_LEN: usize = 65511;
/// Largest outbound item count of a Common Packet Format list.
pub const COMMON_PACKET_MAX_ITEM_COUNT: u16 = 4;
/// Largest data length one Common Packet Format item can carry.
pub const COMMON_PACKET_MAX_ITEM_LEN: usize = 65535;

pub const EIP_COMMAND_NOP: u16 = 0x0000;
pub const EIP_COMMAND_LIST_IDENTITY: u16 = 0x0063;
pub const EIP_COMMAND_LIST_INTERFACES: u16 = 0x0064;
pub const EIP_COMMAND_LIST_SERVICE: u16 = 0x0004;
pub const EIP_COMMAND_REGISTER_SESSION: u16 = 0x0065;
pub const EIP_COMMAND_UNREGISTER_SESSION: u16 = 0x0066;
pub const EIP_COMMAND_SEND_RRDATA: u16 = 0x006F;
pub const EIP_COMMAND_SEND_UNIT_DATA: u16 = 0x0070;

pub const SERVICE_UNCONNECTED_SEND: u8 = 0x52;
pub const SERVICE_FORWARD_OPEN: u8 = 0x54;
pub const SERVICE_LARGE_FORWARD_OPEN: u8 = 0x5B;
pub const SERVICE_FORWARD_CLOSE: u8 = 0x4E;
/// Service code of a Multiple Service Packet request.
pub const SERVICE_MULTIPLE_SERVICE_PACKET: u8 = 0x0A;

/// CIP type code of a null (zero-length) address item.
pub const ITEM_TYPE_NULL_ADDR: u16 = 0x0000;
/// CIP type code of a ListIdentity response item.
pub const ITEM_TYPE_LIST_IDENTITY: u16 = 0x000C;
/// CIP type code of a connected data item.
pub const ITEM_TYPE_CONNECTED_DATA: u16 = 0x00B1;
/// CIP type code of an unconnected data item.
pub const ITEM_TYPE_UNCONNECTED_DATA: u16 = 0x00B2;

} // verus!
