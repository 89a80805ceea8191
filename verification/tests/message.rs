use hw_rs::error::HyprwireError;
use hw_rs::message::HWMessage;
use hw_rs::payload::HWPayload;
use hw_rs::types::{HWMagic, HWMessageKind, HWValue};

#[test]
fn template_sup_finalizes_to_greeting() {
    let m = HWMessage::template_sup();
    assert_eq!(m.kind, HWMessageKind::Sup);
    assert_eq!(m.finalize(), vec![1, 0x20, 3, b'V', b'A', b'X', 0]);
}

#[test]
fn template_hs_ack_finalizes() {
    assert_eq!(HWMessage::template_hs_ack(1).finalize(), vec![3, 0x10, 1, 0, 0, 0, 0]);
}

#[test]
fn template_bind_protocol_finalizes() {
    let mut expected = vec![10, 0x10, 1, 0, 0, 0, 0x20, 14];
    expected.extend_from_slice(b"hyprpaper_core");
    expected.extend_from_slice(&[0x10, 2, 0, 0, 0, 0]);
    assert_eq!(HWMessage::template_bind_protocol(1, "hyprpaper_core", 2).finalize(), expected);
}

#[test]
fn template_generic_finalizes() {
    let m = HWMessage::template_generic(5, 0, vec![HWPayload::compose_seq(1)]);
    assert_eq!(m.kind, HWMessageKind::Generic);
    assert_eq!(m.payload.len(), 3);
    assert_eq!(
        m.finalize(),
        vec![100, 0x22, 5, 0, 0, 0, 0x10, 0, 0, 0, 0, 0x13, 1, 0, 0, 0, 0]
    );
    let m = HWMessage::template_generic(9, 3, vec![]);
    assert_eq!(m.finalize(), vec![100, 0x22, 9, 0, 0, 0, 0x10, 3, 0, 0, 0, 0]);
}

#[test]
fn finalize_of_empty_message() {
    let m = HWMessage { kind: HWMessageKind::RoundtripReq, payload: vec![] };
    assert_eq!(m.finalize(), vec![13, 0]);
}

#[test]
fn decode_object_reads_until_end_tag() {
    let bin = [0x10, 7, 0, 0, 0, 0x20, 2, b'h', b'i', 0x00, 0x10, 9, 9, 9, 9];
    let payload = HWMessage::decode_object(&bin).ok().unwrap();
    assert_eq!(payload.len(), 2);
    assert!(matches!(payload[0].value, HWValue::Uint(7)));
    assert_eq!(payload[1].magic, HWMagic::Varchar);
    assert!(matches!(&payload[1].value, HWValue::Varchar(s) if s == "hi"));
}

#[test]
fn decode_object_reads_to_end_of_input_without_end_tag() {
    let payload = HWMessage::decode_object(&[0x11, 0xff, 0xff, 0xff, 0xff]).ok().unwrap();
    assert_eq!(payload.len(), 1);
    assert!(matches!(payload[0].value, HWValue::Int(-1)));
    assert_eq!(HWMessage::decode_object(&[]).ok().unwrap().len(), 0);
}

#[test]
fn decode_object_errors() {
    assert!(matches!(HWMessage::decode_object(&[0x99]), Err(HyprwireError::MagicUnknownKey)));
    assert!(matches!(HWMessage::decode_object(&[0x20]), Err(HyprwireError::DecodeObjectVlq)));
    assert!(matches!(
        HWMessage::decode_object(&[0x20, 1, 0xff]),
        Err(HyprwireError::DecodeObjectVarChar)
    ));
    assert!(matches!(HWMessage::decode_object(&[0x22, 1, 0, 0, 0]), Err(HyprwireError::WIP)));
}

#[test]
fn decode_new_object_message() {
    let m = HWMessage::decode(&[11, 0x10, 42, 0, 0, 0, 0]).ok().unwrap();
    assert_eq!(m.kind, HWMessageKind::NewObject);
    assert_eq!(m.payload.len(), 1);
    assert!(matches!(m.payload[0].value, HWValue::Uint(42)));
}

#[test]
fn decode_handshake_begin_with_versions() {
    let m = HWMessage::decode(&[2, 0x21, 0x10, 2, 1, 0, 0, 0, 2, 0, 0, 0, 0]).ok().unwrap();
    assert_eq!(m.kind, HWMessageKind::HandshakeBegin);
    assert_eq!(m.payload[0].magic, HWMagic::Array);
    assert!(matches!(&m.payload[0].value, HWValue::ArrayUint(v) if *v == vec![1, 2]));
}

#[test]
fn decode_generic_message_reads_object_id_first() {
    let data = [100, 0x22, 5, 0, 0, 0, 0x10, 3, 0, 0, 0, 0x20, 1, b'x', 0];
    let m = HWMessage::decode(&data).ok().unwrap();
    assert_eq!(m.kind, HWMessageKind::Generic);
    assert_eq!(m.payload.len(), 3);
    assert_eq!(m.payload[0].magic, HWMagic::ObjectId);
    assert!(matches!(m.payload[0].value, HWValue::ObjectId(5)));
    assert!(matches!(m.payload[1].value, HWValue::Uint(3)));
    assert!(matches!(&m.payload[2].value, HWValue::Varchar(s) if s == "x"));
}

#[test]
fn decode_message_errors() {
    assert!(matches!(HWMessage::decode(&[5, 0x10]), Err(HyprwireError::MessageKindUnknownKey)));
    assert!(matches!(HWMessage::decode(&[100, 0x22, 1, 0, 0, 0]), Err(HyprwireError::WIP)));
    assert!(matches!(HWMessage::decode(&[3, 0x99, 0]), Err(HyprwireError::MagicUnknownKey)));
    assert!(matches!(
        HWMessage::decode(&[3, 0x10, 1, 0, 0, 0, 0]),
        Err(HyprwireError::DecodeBinU32(_))
    ));
}

#[test]
fn decode_other_kinds_take_all_bytes_after_the_tag() {
    let m = HWMessage::decode(&[3, 0x10, 1, 0, 0, 0]).ok().unwrap();
    assert_eq!(m.kind, HWMessageKind::HandshakeAck);
    assert!(matches!(m.payload[0].value, HWValue::Uint(1)));
    let m = HWMessage::decode(&[12, 0x20, b'o', b'k']).ok().unwrap();
    assert!(matches!(&m.payload[0].value, HWValue::Varchar(s) if s == "ok"));
}

#[test]
fn new_object_message_roundtrip() {
    let m = HWMessage {
        kind: HWMessageKind::NewObject,
        payload: vec![
            HWPayload::compose_uint(7),
            HWPayload::compose_int(-3),
            HWPayload::compose_varchar("wallpaper".to_string()),
            HWPayload::compose_f32(2.0f32.to_bits()),
            HWPayload::compose_seq(4),
            HWPayload::compose_object_id(11),
        ],
    };
    let back = HWMessage::decode(&m.finalize()).ok().unwrap();
    assert_eq!(back.kind, HWMessageKind::NewObject);
    assert_eq!(back.payload.len(), 6);
    assert!(matches!(back.payload[0].value, HWValue::Uint(7)));
    assert!(matches!(back.payload[1].value, HWValue::Int(-3)));
    assert!(matches!(&back.payload[2].value, HWValue::Varchar(s) if s == "wallpaper"));
    assert!(matches!(back.payload[3].value, HWValue::F32(b) if f32::from_bits(b) == 2.0));
    assert!(matches!(back.payload[4].value, HWValue::Sequence(4)));
    assert!(matches!(back.payload[5].value, HWValue::ObjectId(11)));
    for (a, b) in m.payload.iter().zip(back.payload.iter()) {
        assert_eq!(a.magic, b.magic);
    }
}

#[test]
fn generic_call_roundtrip() {
    let m = HWMessage::template_generic(6, 2, vec![HWPayload::compose_varchar("DP-2".to_string())]);
    let back = HWMessage::decode(&m.finalize()).ok().unwrap();
    assert_eq!(back.kind, HWMessageKind::Generic);
    assert_eq!(back.payload.len(), 3);
    assert!(matches!(back.payload[0].value, HWValue::ObjectId(6)));
    assert!(matches!(back.payload[1].value, HWValue::Uint(2)));
    assert!(matches!(&back.payload[2].value, HWValue::Varchar(s) if s == "DP-2"));
}

#[test]
fn array_message_roundtrip() {
    let m = HWMessage {
        kind: HWMessageKind::HandshakeProtocols,
        payload: vec![HWPayload::from_magic_value(
            HWMagic::Array,
            HWValue::ArrayVarchar(vec!["hyprpaper_core@1".to_string(), "hyprpaper_core@2".to_string()]),
        )],
    };
    let back = HWMessage::decode(&m.finalize()).ok().unwrap();
    assert_eq!(back.kind, HWMessageKind::HandshakeProtocols);
    assert_eq!(back.payload.len(), 1);
    assert_eq!(back.payload[0].magic, HWMagic::Array);
    assert!(matches!(
        &back.payload[0].value,
        HWValue::ArrayVarchar(v) if *v == vec!["hyprpaper_core@1".to_string(), "hyprpaper_core@2".to_string()]
    ));
}

#[test]
fn value_roundtrip_through_from_slice() {
    let p = HWPayload::from_magic_value(HWMagic::Array, HWValue::ArrayUint(vec![3, 1, 4]));
    let bytes = p.encode();
    assert!(matches!(
        HWValue::from_slice(HWMagic::Array, &bytes[1..]),
        Ok(HWValue::ArrayUint(v)) if v == vec![3, 1, 4]
    ));
    let bytes = HWPayload::compose_int(i32::MIN).encode();
    assert!(matches!(HWValue::from_slice(HWMagic::Int, &bytes[1..]), Ok(HWValue::Int(i32::MIN))));
}
