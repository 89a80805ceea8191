use hw_rs::payload::HWPayload;
use hw_rs::types::{HWMagic, HWValue};

#[test]
fn compose_uint_encodes_tag_and_little_endian_bytes() {
    let p = HWPayload::compose_uint(0x0403_0201);
    assert_eq!(p.magic, HWMagic::Uint);
    assert!(matches!(p.value, HWValue::Uint(0x0403_0201)));
    assert_eq!(p.encode(), vec![0x10, 0x01, 0x02, 0x03, 0x04]);
}

#[test]
fn compose_int_uses_twos_complement() {
    assert_eq!(HWPayload::compose_int(-1).encode(), vec![0x11, 0xff, 0xff, 0xff, 0xff]);
    assert_eq!(HWPayload::compose_int(-2).encode(), vec![0x11, 0xfe, 0xff, 0xff, 0xff]);
    assert_eq!(HWPayload::compose_int(i32::MIN).encode(), vec![0x11, 0x00, 0x00, 0x00, 0x80]);
    assert_eq!(HWPayload::compose_int(258).encode(), vec![0x11, 0x02, 0x01, 0x00, 0x00]);
}

#[test]
fn compose_f32_writes_the_bit_pattern() {
    let p = HWPayload::compose_f32(1.5f32.to_bits());
    assert_eq!(p.magic, HWMagic::F32);
    assert_eq!(p.encode(), vec![0x12, 0x00, 0x00, 0xc0, 0x3f]);
}

#[test]
fn compose_seq_and_object_id() {
    assert_eq!(HWPayload::compose_seq(1).encode(), vec![0x13, 1, 0, 0, 0]);
    assert_eq!(HWPayload::compose_object_id(9).encode(), vec![0x14, 9, 0, 0, 0]);
}

#[test]
fn compose_varchar_writes_length_then_utf8() {
    assert_eq!(
        HWPayload::compose_varchar("VAX".to_string()).encode(),
        vec![0x20, 3, b'V', b'A', b'X']
    );
    assert_eq!(HWPayload::compose_varchar(String::new()).encode(), vec![0x20, 0]);
    assert_eq!(
        HWPayload::compose_varchar("é".to_string()).encode(),
        vec![0x20, 2, 0xc3, 0xa9]
    );
}

#[test]
fn long_varchar_length_takes_two_bytes() {
    let text = "a".repeat(200);
    let bytes = HWPayload::compose_varchar(text).encode();
    assert_eq!(&bytes[..3], &[0x20, 0xc8, 0x01]);
    assert_eq!(bytes.len(), 3 + 200);
}

#[test]
fn compose_object_writes_only_the_id() {
    let p = HWPayload::compose_object(7, "name".to_string());
    assert_eq!(p.magic, HWMagic::Object);
    assert_eq!(p.encode(), vec![0x22, 7, 0, 0, 0]);
}

#[test]
fn compose_fd_writes_only_the_tag() {
    let p = HWPayload::compose_fd();
    assert_eq!(p.magic, HWMagic::Fd);
    assert_eq!(p.encode(), vec![0x40]);
}

#[test]
fn arrays_write_item_tag_count_and_items() {
    let p = HWPayload::from_magic_value(HWMagic::Array, HWValue::ArrayUint(vec![1, 2]));
    assert_eq!(p.encode(), vec![0x21, 0x10, 2, 1, 0, 0, 0, 2, 0, 0, 0]);
    let p = HWPayload::from_magic_value(
        HWMagic::Array,
        HWValue::ArrayVarchar(vec!["a".to_string(), "bc".to_string()]),
    );
    assert_eq!(p.encode(), vec![0x21, 0x20, 2, 1, b'a', 2, b'b', b'c']);
    let p = HWPayload::from_magic_value(HWMagic::Array, HWValue::ArrayUint(vec![]));
    assert_eq!(p.encode(), vec![0x21, 0x10, 0]);
}

#[test]
fn from_magic_value_keeps_what_it_is_given() {
    let p = HWPayload::from_magic_value(HWMagic::End, HWValue::Uint(3));
    assert_eq!(p.magic, HWMagic::End);
    assert_eq!(p.encode(), vec![0x00, 3, 0, 0, 0]);
}
