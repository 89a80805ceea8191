use hw_rs::error::HyprwireError;
use hw_rs::types::{HWMagic, HWValue};

#[test]
fn plain_errors_show_their_text() {
    assert_eq!(HyprwireError::MagicUnknownKey.to_string(), "Magic: Unknown key");
    assert_eq!(HyprwireError::SocketProtocolError.to_string(), "Socket:Protocol error");
    assert_eq!(HyprwireError::WIP.to_string(), "Error:WIP");
    assert_eq!(
        HyprwireError::MessageStreamLength.to_string(),
        "Message: Stream error: Object too short."
    );
    assert_eq!(
        HyprwireError::HyprpaperGetManagerObjId.to_string(),
        "Hyprpaper:GetManagerObject: Failed to get object manager id"
    );
}

#[test]
fn errors_with_text_show_it() {
    assert_eq!(
        HyprwireError::HyprlandInstanceSignature("unset".to_string()).to_string(),
        "Socket:HyprlandInstanceSignature: unset"
    );
    assert_eq!(
        HyprwireError::XDGRuntimePath("gone".to_string()).to_string(),
        "Socket:XDGRuntimePath: gone"
    );
}

#[test]
fn errors_with_sources_show_them_after_their_text() {
    let e = HWValue::from_slice(HWMagic::Uint, &[1]).err().unwrap();
    assert_eq!(e.to_string(), "DecodeBin:U32: could not convert slice to array");
    let e = HWValue::from_slice(HWMagic::Varchar, &[0xff]).err().unwrap();
    assert!(e.to_string().starts_with("DecodeBin:Utf8: "));
    let io = std::io::Error::new(std::io::ErrorKind::Other, "boom");
    assert_eq!(HyprwireError::SocketWrite(io).to_string(), "Socket:Write: boom");
}
