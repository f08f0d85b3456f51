//! Client-side wire codec for EtherNet/IP encapsulation carrying CIP explicit
//! messaging.
//!
//! The crate covers the generic encode/decode value model, the Common Packet
//! Format (CPF) item envelope, the Multiple Service Packet multiplexer that
//! batches several CIP requests into one exchange and splits the single reply
//! buffer back into per-request replies, and the decoding of the
//! session-registration and device-discovery encapsulation replies.
//!
//! All multi-byte integers on the wire are little-endian. Buffers are owned
//! `bytes::Bytes` / `bytes::BytesMut` values, consumed by splitting from the
//! front; their contents are modelled as `Seq<u8>` throughout the contracts.

pub mod buffer;
pub mod codec;
pub mod command_reply;
pub mod common_packet;
pub mod consts;
pub mod encode;
pub mod error;
pub mod multiple_packet;
