use hw_rs::vlq::VLQ;

#[test]
fn encode_small_values_take_one_byte() {
    assert_eq!(VLQ::encode(0), vec![0x00]);
    assert_eq!(VLQ::encode(1), vec![0x01]);
    assert_eq!(VLQ::encode(127), vec![0x7f]);
}

#[test]
fn encode_sets_high_bit_on_all_but_last_byte() {
    assert_eq!(VLQ::encode(128), vec![0x80, 0x01]);
    assert_eq!(VLQ::encode(300), vec![0xac, 0x02]);
    assert_eq!(VLQ::encode(16384), vec![0x80, 0x80, 0x01]);
}

#[test]
fn encode_max_value_takes_ten_bytes() {
    let mut expected = vec![0xff; 9];
    expected.push(0x01);
    assert_eq!(VLQ::encode(u64::MAX), expected);
}

#[test]
fn decode_reads_only_the_front() {
    assert_eq!(VLQ::decode(&[0xac, 0x02, 0xff, 0x00]), Some((300, 2)));
    assert_eq!(VLQ::decode(&[0x05, 0x80]), Some((5, 1)));
}

#[test]
fn decode_empty_or_truncated_input_fails() {
    assert_eq!(VLQ::decode(&[]), None);
    assert_eq!(VLQ::decode(&[0x80]), None);
    assert_eq!(VLQ::decode(&[0xff, 0xff]), None);
}

#[test]
fn decode_gives_up_after_ten_bytes() {
    assert_eq!(VLQ::decode(&[0x80; 11]), None);
    let mut bytes = vec![0x80; 10];
    bytes.push(0x00);
    assert_eq!(VLQ::decode(&bytes), None);
}

#[test]
fn decode_tenth_byte_keeps_only_its_lowest_bit() {
    let mut bytes = vec![0xff; 9];
    bytes.push(0x7f);
    assert_eq!(VLQ::decode(&bytes), Some((u64::MAX, 10)));
    let mut bytes = vec![0x80; 9];
    bytes.push(0x02);
    assert_eq!(VLQ::decode(&bytes), Some((0, 10)));
}

#[test]
fn decode_of_encode_gives_the_value_back() {
    for v in [0u64, 1, 127, 128, 255, 300, 65535, 1 << 35, u64::MAX - 1, u64::MAX] {
        let mut bytes = VLQ::encode(v);
        let n = bytes.len();
        assert!(n >= 1 && n <= 10);
        bytes.extend_from_slice(&[0x99, 0x01]);
        assert_eq!(VLQ::decode(&bytes), Some((v, n)));
    }
}
