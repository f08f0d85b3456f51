use bytes::{Bytes, BytesMut};
use rseip::encode::{Encode, LittleEndianEncoder, SliceContainer};

fn count<T: Encode<LittleEndianEncoder>>(v: &T) -> usize {
    v.bytes_count()
}

fn encode_to_vec<T: Encode<LittleEndianEncoder>>(v: T) -> Vec<u8> {
    let mut buf = BytesMut::new();
    let mut encoder = LittleEndianEncoder;
    v.encode(&mut buf, &mut encoder).unwrap();
    buf.freeze().to_vec()
}

#[test]
fn primitives_encode_little_endian() {
    assert_eq!(encode_to_vec(true), vec![0x01]);
    assert_eq!(encode_to_vec(false), vec![0x00]);
    assert_eq!(encode_to_vec(0xABu8), vec![0xAB]);
    assert_eq!(encode_to_vec(-1i8), vec![0xFF]);
    assert_eq!(encode_to_vec(0x0809u16), vec![0x09, 0x08]);
    assert_eq!(encode_to_vec(-2i16), vec![0xFE, 0xFF]);
    assert_eq!(encode_to_vec(0x0102_0304u32), vec![0x04, 0x03, 0x02, 0x01]);
    assert_eq!(encode_to_vec(-1i32), vec![0xFF, 0xFF, 0xFF, 0xFF]);
    assert_eq!(
        encode_to_vec(0x0102_0304_0506_0708u64),
        vec![0x08, 0x07, 0x06, 0x05, 0x04, 0x03, 0x02, 0x01]
    );
    assert_eq!(
        encode_to_vec(-2i64),
        vec![0xFE, 0xFF, 0xFF, 0xFF, 0xFF, 0xFF, 0xFF, 0xFF]
    );
    assert_eq!(
        encode_to_vec(0x0102_0304_0506_0708_090A_0B0C_0D0E_0F10u128),
        vec![
            0x10, 0x0F, 0x0E, 0x0D, 0x0C, 0x0B, 0x0A, 0x09, 0x08, 0x07, 0x06, 0x05, 0x04,
            0x03, 0x02, 0x01
        ]
    );
    assert_eq!(encode_to_vec(-1i128), vec![0xFF; 16]);
}

#[test]
fn primitive_bytes_counts_are_type_constant() {
    assert_eq!(Encode::<LittleEndianEncoder>::bytes_count(&true), 1);
    assert_eq!(Encode::<LittleEndianEncoder>::bytes_count(&1u8), 1);
    assert_eq!(Encode::<LittleEndianEncoder>::bytes_count(&1i8), 1);
    assert_eq!(Encode::<LittleEndianEncoder>::bytes_count(&1u16), 2);
    assert_eq!(Encode::<LittleEndianEncoder>::bytes_count(&1i16), 2);
    assert_eq!(Encode::<LittleEndianEncoder>::bytes_count(&1u32), 4);
    assert_eq!(Encode::<LittleEndianEncoder>::bytes_count(&1i32), 4);
    assert_eq!(Encode::<LittleEndianEncoder>::bytes_count(&1u64), 8);
    assert_eq!(Encode::<LittleEndianEncoder>::bytes_count(&1i64), 8);
    assert_eq!(Encode::<LittleEndianEncoder>::bytes_count(&1u128), 16);
    assert_eq!(Encode::<LittleEndianEncoder>::bytes_count(&1i128), 16);
    assert_eq!(Encode::<LittleEndianEncoder>::bytes_count(&()), 0);
}

#[test]
fn length_matches_encoding_for_nested_values() {
    let value = (
        0x01u8,
        Some(0x0203u16),
        vec![0x04050607u32, 0x08090A0Bu32],
        Bytes::from_static(&[0xAA, 0xBB]),
    );
    let count = count(&value);
    let bytes = encode_to_vec(value);
    assert_eq!(bytes.len(), count);
    assert_eq!(
        bytes,
        vec![
            0x01, // u8
            0x03, 0x02, // u16
            0x07, 0x06, 0x05, 0x04, 0x0B, 0x0A, 0x09, 0x08, // two u32
            0xAA, 0xBB, // raw bytes
        ]
    );
}

#[test]
fn option_absent_emits_nothing() {
    let absent: Option<u32> = None;
    assert_eq!(count(&absent), 0);
    assert_eq!(encode_to_vec(absent), Vec::<u8>::new());
    let present: Option<u32> = Some(1);
    assert_eq!(count(&present), 4);
    assert_eq!(encode_to_vec(present), vec![0x01, 0x00, 0x00, 0x00]);
}

#[test]
fn arrays_encode_in_order() {
    let arr: [u16; 3] = [0x0102, 0x0304, 0x0506];
    assert_eq!(count(&arr), 6);
    assert_eq!(
        encode_to_vec(arr),
        vec![0x02, 0x01, 0x04, 0x03, 0x06, 0x05]
    );
}

#[test]
fn tuple_arities_compose() {
    assert_eq!(encode_to_vec((0x01u8,)), vec![0x01]);
    assert_eq!(encode_to_vec((0x01u8, 0x02u8, 0x03u8)), vec![1, 2, 3]);
    let wide = (
        1u8, 2u8, 3u8, 4u8, 5u8, 6u8, 7u8, 8u8, 9u8, 10u8, 11u8, 12u8, 13u8, 14u8, 15u8,
        16u8,
    );
    assert_eq!(count(&wide), 16);
    assert_eq!(
        encode_to_vec(wide),
        vec![1, 2, 3, 4, 5, 6, 7, 8, 9, 10, 11, 12, 13, 14, 15, 16]
    );
}

#[test]
fn empty_vec_encodes_to_nothing() {
    let v: Vec<u16> = Vec::new();
    assert_eq!(count(&v), 0);
    assert_eq!(encode_to_vec(v), Vec::<u8>::new());
}

#[test]
fn slice_container_sums_elements() {
    let items: [u16; 3] = [0x0102, 0x0304, 0x0506];
    let container = SliceContainer::new(&items[..]);
    assert_eq!(count(&container), 6);
    assert_eq!(
        encode_to_vec(container),
        vec![0x02, 0x01, 0x04, 0x03, 0x06, 0x05]
    );
}

#[test]
fn slice_container_uses_supplied_count() {
    let items: [u32; 2] = [1, 2];
    let container = SliceContainer::new(&items[..]).with_bytes_count(8);
    assert_eq!(count(&container), 8);
    assert_eq!(
        encode_to_vec(container),
        vec![0x01, 0x00, 0x00, 0x00, 0x02, 0x00, 0x00, 0x00]
    );
}
