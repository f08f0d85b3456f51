use bytes::Bytes;
use rseip::codec::Encodable;
use rseip::common_packet::{CommonPacket, CommonPacketItem};
use rseip::error::Error;

#[test]
fn test_common_packet_item() {
    let item = CommonPacketItem {
        type_code: 0x00,
        data: Bytes::from_static(&[0, 0]),
    };
    assert_eq!(item.bytes_count(), 6);
    let buf = item.try_into_bytes().unwrap();
    assert_eq!(&buf[..], &[0x00, 0x00, 0x02, 0x00, 0x00, 0x00,]);
}

#[test]
fn test_common_packet() {
    let null_addr = CommonPacketItem {
        type_code: 0x00,
        data: Bytes::from_static(&[0, 0]),
    };
    let data_item = CommonPacketItem {
        type_code: 0xB2,
        data: Bytes::from_static(&[0x01, 0x02, 0x03, 0x04, 0x05, 0x06, 0x07, 0x08, 0x09]),
    };
    let cpf = CommonPacket::from(vec![null_addr, data_item]);
    assert_eq!(cpf.bytes_count(), 2 + 4 + 2 + 4 + 9);
    let buf = cpf.try_into_bytes().unwrap();
    assert_eq!(
        &buf[..],
        &[
            0x02, 0x00, // item count
            0x00, 0x00, 0x02, 0x00, 0x00, 0x00, // addr item
            0xB2, 0x00, 0x09, 0x00, 1, 2, 3, 4, 5, 6, 7, 8, 9, //data item
        ]
    );
}

#[test]
fn round_trip_two_items() {
    let mut cpf = CommonPacket::new();
    cpf.push(CommonPacketItem::with_null_addr());
    cpf.push(CommonPacketItem::with_unconnected_data(Bytes::from_static(
        &[0xAA, 0xBB, 0xCC],
    )));
    let buf = cpf.try_into_bytes().unwrap();
    let decoded = CommonPacket::decode(buf).unwrap();
    assert_eq!(decoded.len(), 2);
    let items = decoded.into_inner();
    assert_eq!(items[0].type_code, 0x00);
    assert_eq!(&items[0].data[..], &[0x00, 0x00]);
    assert_eq!(items[1].type_code, 0xB2);
    assert_eq!(&items[1].data[..], &[0xAA, 0xBB, 0xCC]);
}

#[test]
fn round_trip_four_items() {
    let mut cpf = CommonPacket::new();
    for tc in 0..4u16 {
        cpf.push(CommonPacketItem {
            type_code: tc,
            data: Bytes::from_static(&[0x10, 0x20]),
        });
    }
    let buf = cpf.try_into_bytes().unwrap();
    let decoded = CommonPacket::decode(buf).unwrap();
    let items = decoded.into_iter();
    assert_eq!(items.len(), 4);
    for (i, item) in items.into_iter().enumerate() {
        assert_eq!(item.type_code, i as u16);
        assert_eq!(&item.data[..], &[0x10, 0x20]);
    }
}

#[test]
fn encode_rejects_empty_packet() {
    let cpf = CommonPacket::new();
    assert_eq!(cpf.try_into_bytes().unwrap_err(), Error::InvalidData);
}

#[test]
fn encode_rejects_five_items() {
    let mut cpf = CommonPacket::new();
    for _ in 0..5 {
        cpf.push(CommonPacketItem::with_null_addr());
    }
    assert_eq!(cpf.try_into_bytes().unwrap_err(), Error::InvalidData);
}

#[test]
fn encode_rejects_oversized_item_data() {
    let big = vec![0u8; 70000];
    let item = CommonPacketItem {
        type_code: 0xB2,
        data: Bytes::from(big),
    };
    assert_eq!(item.try_into_bytes().unwrap_err(), Error::InvalidData);
}

#[test]
fn item_with_max_data_len_encodes() {
    let data = vec![0x55u8; 65535];
    let item = CommonPacketItem {
        type_code: 0xB1,
        data: Bytes::from(data),
    };
    assert_eq!(item.bytes_count(), 4 + 65535);
    let buf = item.try_into_bytes().unwrap();
    assert_eq!(buf.len(), 4 + 65535);
    assert_eq!(&buf[..4], &[0xB1, 0x00, 0xFF, 0xFF]);
}

#[test]
fn decode_rejects_short_buffer() {
    let r = CommonPacket::decode(Bytes::from_static(&[0x01]));
    assert_eq!(r.unwrap_err(), Error::InvalidData);
}

#[test]
fn decode_rejects_truncated_item() {
    // one declared item, but only three header bytes follow
    let r = CommonPacket::decode(Bytes::from_static(&[0x01, 0x00, 0xB2, 0x00, 0x05]));
    assert_eq!(r.unwrap_err(), Error::InvalidData);
}

#[test]
fn decode_rejects_short_item_data() {
    // item declares five data bytes but only two remain
    let r = CommonPacket::decode(Bytes::from_static(&[
        0x01, 0x00, 0xB2, 0x00, 0x05, 0x00, 0xAA, 0xBB,
    ]));
    assert_eq!(r.unwrap_err(), Error::InvalidData);
}

#[test]
fn decode_rejects_trailing_bytes() {
    let r = CommonPacket::decode(Bytes::from_static(&[
        0x01, 0x00, 0xB2, 0x00, 0x01, 0x00, 0xAA, 0xFF,
    ]));
    assert_eq!(r.unwrap_err(), Error::InvalidData);
}

#[test]
fn decode_accepts_zero_items() {
    let cpf = CommonPacket::decode(Bytes::from_static(&[0x00, 0x00])).unwrap();
    assert_eq!(cpf.len(), 0);
}

#[test]
fn item_constructors() {
    let null_addr = CommonPacketItem::with_null_addr();
    assert_eq!(null_addr.type_code, 0x00);
    assert_eq!(&null_addr.data[..], &[0x00, 0x00]);
    assert!(!null_addr.is_null_addr());

    let empty = CommonPacketItem {
        type_code: 0x00,
        data: Bytes::new(),
    };
    assert!(empty.is_null_addr());

    let unconnected = CommonPacketItem::with_unconnected_data(Bytes::from_static(&[1]));
    assert_eq!(unconnected.type_code, 0xB2);
    let connected = CommonPacketItem::with_connected_data(Bytes::from_static(&[2]));
    assert_eq!(connected.type_code, 0xB1);
}

#[test]
fn ensure_type_code_checks() {
    let item = CommonPacketItem::with_unconnected_data(Bytes::from_static(&[1]));
    assert!(item.ensure_type_code(0xB2).is_ok());
    assert_eq!(item.ensure_type_code(0xB1).unwrap_err(), Error::InvalidData);
}
