use hw_rs::error::HyprwireError;
use hw_rs::types::{HWMagic, HWMessageKind, HWValue};

#[test]
fn message_kind_bytes() {
    assert_eq!(HWMessageKind::Invalid.to_u8(), 0);
    assert_eq!(HWMessageKind::Sup.to_u8(), 1);
    assert_eq!(HWMessageKind::BindProtocol.to_u8(), 10);
    assert_eq!(HWMessageKind::RoundtripDone.to_u8(), 14);
    assert_eq!(HWMessageKind::Generic.to_u8(), 100);
}

#[test]
fn message_kind_from_bytes() {
    assert!(matches!(HWMessageKind::try_from(&11u8), Ok(HWMessageKind::NewObject)));
    assert!(matches!(HWMessageKind::try_from(&5u8), Err(HyprwireError::MessageKindUnknownKey)));
    let some: Option<&u8> = Some(&100);
    assert!(matches!(HWMessageKind::try_from(&some), Ok(HWMessageKind::Generic)));
    let none: Option<&u8> = None;
    assert!(matches!(HWMessageKind::try_from(&none), Err(HyprwireError::MessageKindTryFrom)));
    let bytes: &[u8] = &[4, 9];
    assert!(matches!(HWMessageKind::try_from(bytes), Ok(HWMessageKind::HandshakeProtocols)));
    let empty: &[u8] = &[];
    assert!(matches!(HWMessageKind::try_from(empty), Err(HyprwireError::MessageKindTryFrom)));
}

#[test]
fn every_kind_reads_back_from_its_byte() {
    for k in [
        HWMessageKind::Invalid,
        HWMessageKind::Sup,
        HWMessageKind::HandshakeBegin,
        HWMessageKind::HandshakeAck,
        HWMessageKind::HandshakeProtocols,
        HWMessageKind::BindProtocol,
        HWMessageKind::NewObject,
        HWMessageKind::ProtocolError,
        HWMessageKind::RoundtripReq,
        HWMessageKind::RoundtripDone,
        HWMessageKind::Generic,
    ] {
        assert!(matches!(HWMessageKind::try_from(&k.to_u8()), Ok(j) if j == k));
    }
}

#[test]
fn magic_bytes_and_lengths() {
    assert_eq!(HWMagic::End.to_u8(), 0x00);
    assert_eq!(HWMagic::Sequence.to_u8(), 0x13);
    assert_eq!(HWMagic::Fd.to_u8(), 0x40);
    assert_eq!(HWMagic::get_length(HWMagic::Uint), Some(1));
    assert_eq!(HWMagic::get_length(HWMagic::ObjectId), Some(1));
    assert_eq!(HWMagic::get_length(HWMagic::Varchar), None);
    assert_eq!(HWMagic::get_length(HWMagic::Fd), None);
}

#[test]
fn magic_from_bytes() {
    assert!(matches!(HWMagic::try_from(&Some(&0x21u8)), Ok(HWMagic::Array)));
    assert!(matches!(HWMagic::try_from(&Some(&0x99u8)), Err(HyprwireError::MagicUnknownKey)));
    let none: Option<&u8> = None;
    assert!(matches!(HWMagic::try_from(&none), Err(HyprwireError::MagicTryFrom)));
    let bytes: &[u8] = &[0x40];
    assert!(matches!(HWMagic::try_from(bytes), Ok(HWMagic::Fd)));
    let empty: &[u8] = &[];
    assert!(matches!(HWMagic::try_from(empty), Err(HyprwireError::MagicTryFrom)));
}

#[test]
fn names_of_kinds_and_tags() {
    assert_eq!(HWMessageKind::HandshakeBegin.to_string(), "HandshakeBegin");
    assert_eq!(HWMessageKind::Generic.to_string(), "Generic");
    assert_eq!(HWMagic::Sequence.to_string(), "seq");
    assert_eq!(HWMagic::ObjectId.to_string(), "object_id");
}

#[test]
fn from_slice_fixed_width_values() {
    assert!(matches!(HWValue::from_slice(HWMagic::Uint, &[1, 0, 0, 0]), Ok(HWValue::Uint(1))));
    assert!(matches!(HWValue::from_slice(HWMagic::End, &[2, 0, 0, 0]), Ok(HWValue::Uint(2))));
    assert!(matches!(
        HWValue::from_slice(HWMagic::Int, &[0xfe, 0xff, 0xff, 0xff]),
        Ok(HWValue::Int(-2))
    ));
    assert!(matches!(
        HWValue::from_slice(HWMagic::F32, &[0, 0, 0xc0, 0x3f]),
        Ok(HWValue::F32(bits)) if f32::from_bits(bits) == 1.5
    ));
    assert!(matches!(HWValue::from_slice(HWMagic::Sequence, &[3, 0, 0, 0]), Ok(HWValue::Sequence(3))));
    assert!(matches!(
        HWValue::from_slice(HWMagic::ObjectId, &[0, 1, 0, 0]),
        Ok(HWValue::ObjectId(256))
    ));
}

#[test]
fn from_slice_wrong_width_fails() {
    assert!(matches!(HWValue::from_slice(HWMagic::Uint, &[1, 0, 0]), Err(HyprwireError::DecodeBinU32(_))));
    assert!(matches!(HWValue::from_slice(HWMagic::Int, &[1, 0, 0, 0, 0]), Err(HyprwireError::DecodeBinI32(_))));
    assert!(matches!(HWValue::from_slice(HWMagic::F32, &[]), Err(HyprwireError::DecodeBinF32(_))));
    assert!(matches!(HWValue::from_slice(HWMagic::Sequence, &[1]), Err(HyprwireError::DecodeBinU32(_))));
}

#[test]
fn from_slice_strings() {
    assert!(matches!(HWValue::from_slice(HWMagic::Varchar, b"abc"), Ok(HWValue::Varchar(s)) if s == "abc"));
    assert!(matches!(HWValue::from_slice(HWMagic::Varchar, &[0xff]), Err(HyprwireError::DecodeBinUtf8(_))));
}

#[test]
fn from_slice_arrays() {
    assert!(matches!(
        HWValue::from_slice(HWMagic::Array, &[0x10, 2, 1, 0, 0, 0, 2, 0, 0, 0, 0]),
        Ok(HWValue::ArrayUint(v)) if v == vec![1, 2]
    ));
    assert!(matches!(
        HWValue::from_slice(HWMagic::Array, &[0x13, 1, 5, 0, 0, 0]),
        Ok(HWValue::ArrayUint(v)) if v == vec![5]
    ));
    assert!(matches!(
        HWValue::from_slice(HWMagic::Array, &[0x20, 2, 1, b'a', 2, b'b', b'c']),
        Ok(HWValue::ArrayVarchar(v)) if v == vec!["a".to_string(), "bc".to_string()]
    ));
}

#[test]
fn from_slice_array_errors() {
    assert!(matches!(HWValue::from_slice(HWMagic::Array, &[0x99]), Err(HyprwireError::MagicUnknownKey)));
    assert!(matches!(HWValue::from_slice(HWMagic::Array, &[0x11, 0]), Err(HyprwireError::DecodeBinArrayNoMatch)));
    assert!(matches!(HWValue::from_slice(HWMagic::Array, &[0x10]), Err(HyprwireError::ArrayWalkVLQ)));
    assert!(matches!(HWValue::from_slice(HWMagic::Array, &[0x20, 1]), Err(HyprwireError::ArrayWalkVarCharVLQ)));
    assert!(matches!(
        HWValue::from_slice(HWMagic::Array, &[0x20, 1, 1, 0xff]),
        Err(HyprwireError::ArrayWalkVarCharValue)
    ));
}

#[test]
fn from_slice_object_and_fd() {
    assert!(matches!(HWValue::from_slice(HWMagic::Object, &[1, 0, 0, 0]), Err(HyprwireError::WIP)));
    assert!(matches!(HWValue::from_slice(HWMagic::Fd, &[1, 2, 3]), Ok(HWValue::Fd)));
}
