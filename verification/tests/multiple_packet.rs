use bytes::Bytes;
use rseip::codec::Encodable;
use rseip::error::{Error, Status};
use rseip::multiple_packet::{
    decode_replies, handle_reply, MessageReply, MessageRequest, MultipleServicePacket,
};

#[test]
fn message_request_encodes_service_path_words_and_data() {
    let mr = MessageRequest {
        service_code: 0x4C,
        path: Bytes::from_static(&[0x20, 0x02, 0x24, 0x01]),
        data: Bytes::from_static(&[0xAA, 0xBB]),
    };
    assert_eq!(mr.bytes_count(), 2 + 4 + 2);
    let buf = mr.try_into_bytes().unwrap();
    assert_eq!(&buf[..], &[0x4C, 0x02, 0x20, 0x02, 0x24, 0x01, 0xAA, 0xBB]);
}

#[test]
fn message_request_rejects_odd_path() {
    let mr = MessageRequest {
        service_code: 0x4C,
        path: Bytes::from_static(&[0x20]),
        data: Bytes::new(),
    };
    assert_eq!(mr.try_into_bytes().unwrap_err(), Error::InvalidData);
}

#[test]
fn empty_batch_yields_no_payload() {
    let batch = MultipleServicePacket::new();
    assert_eq!(batch.len(), 0);
    let payload = batch.encode_payload().unwrap();
    assert!(payload.is_none());
}

#[test]
fn empty_batch_yields_no_request() {
    let batch = MultipleServicePacket::new();
    let r = batch.request(Bytes::from_static(&[0x20, 0x02, 0x24, 0x01])).unwrap();
    assert!(r.is_none());
}

#[test]
fn batch_of_two_builds_offset_table() {
    // first sub-request encodes to 4 bytes, second to 3:
    // start offset 2 + 2 * 2 = 6, so the table reads [6, 10]
    let first = MessageRequest {
        service_code: 0x01,
        path: Bytes::from_static(&[0x20, 0x02]),
        data: Bytes::new(),
    };
    let second = MessageRequest {
        service_code: 0x02,
        path: Bytes::new(),
        data: Bytes::from_static(&[0x99]),
    };
    let batch = MultipleServicePacket::new()
        .push(first)
        .unwrap()
        .push(second)
        .unwrap();
    assert_eq!(batch.len(), 2);
    let payload = batch.encode_payload().unwrap().unwrap();
    assert_eq!(
        &payload[..],
        &[
            0x02, 0x00, // service count
            0x06, 0x00, 0x0A, 0x00, // offsets 6 and 10
            0x01, 0x01, 0x20, 0x02, // first sub-request
            0x02, 0x00, 0x99, // second sub-request
        ]
    );
}

#[test]
fn request_wraps_payload_with_multiple_service_packet_code() {
    let sub = MessageRequest {
        service_code: 0x0E,
        path: Bytes::from_static(&[0x20, 0x01]),
        data: Bytes::new(),
    };
    let batch = MultipleServicePacket::new().push(sub).unwrap();
    let mr = batch
        .request(Bytes::from_static(&[0x20, 0x02, 0x24, 0x01]))
        .unwrap()
        .unwrap();
    assert_eq!(mr.service_code, 0x0A);
    assert_eq!(&mr.path[..], &[0x20, 0x02, 0x24, 0x01]);
    assert_eq!(&mr.data[..], &[0x01, 0x00, 0x04, 0x00, 0x0E, 0x01, 0x20, 0x01]);
}

#[test]
fn push_all_appends_in_order() {
    let reqs = vec![
        MessageRequest {
            service_code: 0x01,
            path: Bytes::new(),
            data: Bytes::from_static(&[0x11]),
        },
        MessageRequest {
            service_code: 0x02,
            path: Bytes::new(),
            data: Bytes::from_static(&[0x22]),
        },
    ];
    let batch = MultipleServicePacket::new().push_all(reqs).unwrap();
    assert_eq!(batch.len(), 2);
    let payload = batch.encode_payload().unwrap().unwrap();
    assert_eq!(
        &payload[..],
        &[
            0x02, 0x00, //
            0x06, 0x00, 0x09, 0x00, //
            0x01, 0x00, 0x11, //
            0x02, 0x00, 0x22,
        ]
    );
}

#[test]
fn push_all_rejects_bad_request() {
    let reqs = vec![MessageRequest {
        service_code: 0x01,
        path: Bytes::from_static(&[0x20]),
        data: Bytes::new(),
    }];
    let r = MultipleServicePacket::new().push_all(reqs);
    assert_eq!(r.unwrap_err(), Error::InvalidData);
}

#[test]
fn decode_two_replies_by_offsets() {
    // offsets [6, 10]: first chunk is payload[0..4], second the remainder
    let buf = Bytes::from_static(&[
        0x02, 0x00, // count
        0x06, 0x00, 0x0A, 0x00, // offsets
        0xA0, 0xA1, 0xA2, 0xA3, // first chunk
        0xB0, 0xB1, 0xB2, // second chunk
    ]);
    let replies = decode_replies(buf).unwrap();
    assert_eq!(replies.len(), 2);
    assert_eq!(&replies[0][..], &[0xA0, 0xA1, 0xA2, 0xA3]);
    assert_eq!(&replies[1][..], &[0xB0, 0xB1, 0xB2]);
}

#[test]
fn decode_zero_count_yields_empty() {
    let replies = decode_replies(Bytes::from_static(&[0x00, 0x00])).unwrap();
    assert!(replies.is_empty());
}

#[test]
fn decode_rejects_non_increasing_offsets() {
    let buf = Bytes::from_static(&[
        0x02, 0x00, //
        0x06, 0x00, 0x06, 0x00, // duplicate offset
        0xA0, 0xA1, 0xA2,
    ]);
    assert_eq!(decode_replies(buf).unwrap_err(), Error::InvalidData);
}

#[test]
fn decode_rejects_short_chunk() {
    // offsets [6, 10] need four payload bytes before the second chunk,
    // but only three are present
    let buf = Bytes::from_static(&[
        0x02, 0x00, //
        0x06, 0x00, 0x0A, 0x00, //
        0xA0, 0xA1, 0xA2,
    ]);
    assert_eq!(decode_replies(buf).unwrap_err(), Error::InvalidData);
}

#[test]
fn decode_rejects_buffer_shorter_than_table() {
    let buf = Bytes::from_static(&[0x02, 0x00, 0x06, 0x00]);
    assert_eq!(decode_replies(buf).unwrap_err(), Error::InvalidData);
}

#[test]
fn decode_rejects_tiny_buffer() {
    let buf = Bytes::from_static(&[0x01]);
    assert_eq!(decode_replies(buf).unwrap_err(), Error::InvalidData);
}

#[test]
fn decode_single_reply_is_remainder() {
    let buf = Bytes::from_static(&[
        0x01, 0x00, //
        0x04, 0x00, // single offset
        0xC0, 0xC1,
    ]);
    let replies = decode_replies(buf).unwrap();
    assert_eq!(replies.len(), 1);
    assert_eq!(&replies[0][..], &[0xC0, 0xC1]);
}

#[test]
fn handle_reply_checks_envelope_status() {
    let status = Status {
        general: 0x05,
        extended: Some(0x0001),
    };
    let reply = MessageReply {
        status,
        data: Bytes::from_static(&[0x00, 0x00]),
    };
    assert_eq!(
        handle_reply(reply).unwrap_err(),
        Error::ResponseStatus(status)
    );
}

#[test]
fn handle_reply_decodes_on_ok_status() {
    let reply = MessageReply {
        status: Status {
            general: 0,
            extended: None,
        },
        data: Bytes::from_static(&[0x01, 0x00, 0x04, 0x00, 0xC0, 0xC1]),
    };
    let replies = handle_reply(reply).unwrap();
    assert_eq!(replies.len(), 1);
    assert_eq!(&replies[0][..], &[0xC0, 0xC1]);
}
