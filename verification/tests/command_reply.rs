use bytes::Bytes;
use rseip::command_reply::{
    EncapsulationHeader, EncapsulationPacket, ListIdentityReply, RegisterSessionReply,
};
use rseip::error::Error;

fn header(command: u16, session_handle: u32) -> EncapsulationHeader {
    EncapsulationHeader {
        command,
        length: 0,
        session_handle,
        status: 0,
        sender_context: [0; 8],
        options: 0,
    }
}

#[test]
fn register_session_reply_decodes() {
    let packet = EncapsulationPacket {
        hdr: header(0x65, 0xDEAD_BEEF),
        data: Bytes::from_static(&[0x01, 0x00, 0x00, 0x00]),
    };
    let reply = RegisterSessionReply::decode(packet).unwrap();
    assert_eq!(reply.protocol_version, 1);
    assert_eq!(reply.session_handle, 0xDEAD_BEEF);
}

#[test]
fn register_session_rejects_wrong_command() {
    let packet = EncapsulationPacket {
        hdr: header(0x64, 1),
        data: Bytes::from_static(&[0x01, 0x00, 0x00, 0x00]),
    };
    assert_eq!(
        RegisterSessionReply::decode(packet).unwrap_err(),
        Error::UnexpectedReply
    );
}

#[test]
fn register_session_rejects_short_body() {
    let packet = EncapsulationPacket {
        hdr: header(0x65, 1),
        data: Bytes::from_static(&[0x01, 0x00]),
    };
    assert_eq!(
        RegisterSessionReply::decode(packet).unwrap_err(),
        Error::InvalidData
    );
}

#[test]
fn list_identity_reply_decodes_one_item() {
    let packet = EncapsulationPacket {
        hdr: header(0x63, 0),
        data: Bytes::from_static(&[
            0x01, 0x00, // one item
            0x0C, 0x00, 0x03, 0x00, // identity item, three bytes
            0x10, 0x20, 0x30,
        ]),
    };
    let reply = ListIdentityReply::decode(packet).unwrap();
    assert_eq!(reply.0.len(), 1);
    assert_eq!(&reply.0[0][..], &[0x10, 0x20, 0x30]);
}

#[test]
fn list_identity_rejects_two_items() {
    let packet = EncapsulationPacket {
        hdr: header(0x63, 0),
        data: Bytes::from_static(&[
            0x02, 0x00, //
            0x0C, 0x00, 0x01, 0x00, 0x10, //
            0x0C, 0x00, 0x01, 0x00, 0x20,
        ]),
    };
    assert_eq!(
        ListIdentityReply::decode(packet).unwrap_err(),
        Error::InvalidData
    );
}

#[test]
fn list_identity_rejects_wrong_type_code() {
    let packet = EncapsulationPacket {
        hdr: header(0x63, 0),
        data: Bytes::from_static(&[0x01, 0x00, 0xB2, 0x00, 0x01, 0x00, 0x10]),
    };
    assert_eq!(
        ListIdentityReply::decode(packet).unwrap_err(),
        Error::InvalidData
    );
}

#[test]
fn list_identity_rejects_wrong_command() {
    let packet = EncapsulationPacket {
        hdr: header(0x65, 0),
        data: Bytes::from_static(&[0x01, 0x00, 0x0C, 0x00, 0x00, 0x00]),
    };
    assert_eq!(
        ListIdentityReply::decode(packet).unwrap_err(),
        Error::UnexpectedReply
    );
}

#[test]
fn list_identity_rejects_malformed_body() {
    let packet = EncapsulationPacket {
        hdr: header(0x63, 0),
        data: Bytes::from_static(&[0x01, 0x00, 0x0C, 0x00, 0x09, 0x00, 0x10]),
    };
    assert_eq!(
        ListIdentityReply::decode(packet).unwrap_err(),
        Error::InvalidData
    );
}
