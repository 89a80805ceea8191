//! The errors of the library and of the Hyprpaper client.

use vstd::prelude::*;

verus! {

#[verifier::external_type_specification]
#[verifier::external_body]
pub struct ExTryFromSliceError(std::array::TryFromSliceError);

#[verifier::external_type_specification]
#[verifier::external_body]
pub struct ExFromUtf8Error(std::string::FromUtf8Error);

#[verifier::external_type_specification]
#[verifier::external_body]
pub struct ExIoError(std::io::Error);

/// Everything that can go wrong while encoding, decoding or talking to a
/// Hyprwire server.
pub enum HyprwireError {
    ArrayWalkDecoderValue,
    ArrayWalkVLQ,
    ArrayWalkVarCharVLQ,
    ArrayWalkVarCharValue,
    DecodeBinArrayNoMatch,
    DecodeBinF32(std::array::TryFromSliceError),
    DecodeBinI32(std::array::TryFromSliceError),
    DecodeBinU32(std::array::TryFromSliceError),
    DecodeBinUtf8(std::string::FromUtf8Error),
    DecodeObjectU8,
    DecodeObjectVarChar,
    DecodeObjectVlq,
    HyprlandInstanceSignature(String),
    HyprpaperGetManagerObjId,
    HyprpaperGetManagerObjNoPayload,
    HyprpaperGetProtocolInvalidVersionStr,
    HyprpaperGetProtocolUintParseFailure,
    HyprpaperGetWallpaperObjId,
    HyprpaperGetWallpaperObjNoPayload,
    MagicTryFrom,
    MagicUnknownKey,
    MessageKindTryFrom,
    MessageKindUnknownKey,
    MessageStreamRead(std::io::Error),
    MessageStreamLength,
    SocketConnect(std::io::Error),
    SocketProtocolError,
    SocketWrite(std::io::Error),
    WIP,
    XDGRuntimePath(String),
}

/// Which error it is, without what it carries.
#[derive(Clone, Copy, Debug, PartialEq, Eq, Structural)]
pub enum HyprwireErrorKind {
    ArrayWalkDecoderValue,
    ArrayWalkVLQ,
    ArrayWalkVarCharVLQ,
    ArrayWalkVarCharValue,
    DecodeBinArrayNoMatch,
    DecodeBinF32,
    DecodeBinI32,
    DecodeBinU32,
    DecodeBinUtf8,
    DecodeObjectU8,
    DecodeObjectVarChar,
    DecodeObjectVlq,
    HyprlandInstanceSignature,
    HyprpaperGetManagerObjId,
    HyprpaperGetManagerObjNoPayload,
    HyprpaperGetProtocolInvalidVersionStr,
    HyprpaperGetProtocolUintParseFailure,
    HyprpaperGetWallpaperObjId,
    HyprpaperGetWallpaperObjNoPayload,
    MagicTryFrom,
    MagicUnknownKey,
    MessageKindTryFrom,
    MessageKindUnknownKey,
    MessageStreamRead,
    MessageStreamLength,
    SocketConnect,
    SocketProtocolError,
    SocketWrite,
    WIP,
    XDGRuntimePath,
}

impl View for HyprwireError {
    type V = HyprwireErrorKind;

    open spec fn view(&self) -> HyprwireErrorKind {
        match self {
            HyprwireError::ArrayWalkDecoderValue => HyprwireErrorKind::ArrayWalkDecoderValue,
            HyprwireError::ArrayWalkVLQ => HyprwireErrorKind::ArrayWalkVLQ,
            HyprwireError::ArrayWalkVarCharVLQ => HyprwireErrorKind::ArrayWalkVarCharVLQ,
            HyprwireError::ArrayWalkVarCharValue => HyprwireErrorKind::ArrayWalkVarCharValue,
            HyprwireError::DecodeBinArrayNoMatch => HyprwireErrorKind::DecodeBinArrayNoMatch,
            HyprwireError::DecodeBinF32(_) => HyprwireErrorKind::DecodeBinF32,
            HyprwireError::DecodeBinI32(_) => HyprwireErrorKind::DecodeBinI32,
            HyprwireError::DecodeBinU32(_) => HyprwireErrorKind::DecodeBinU32,
            HyprwireError::DecodeBinUtf8(_) => HyprwireErrorKind::DecodeBinUtf8,
            HyprwireError::DecodeObjectU8 => HyprwireErrorKind::DecodeObjectU8,
            HyprwireError::DecodeObjectVarChar => HyprwireErrorKind::DecodeObjectVarChar,
            HyprwireError::DecodeObjectVlq => HyprwireErrorKind::DecodeObjectVlq,
            HyprwireError::HyprlandInstanceSignature(_) => HyprwireErrorKind::HyprlandInstanceSignature,
            HyprwireError::HyprpaperGetManagerObjId => HyprwireErrorKind::HyprpaperGetManagerObjId,
            HyprwireError::HyprpaperGetManagerObjNoPayload => HyprwireErrorKind::HyprpaperGetManagerObjNoPayload,
            HyprwireError::HyprpaperGetProtocolInvalidVersionStr => HyprwireErrorKind::HyprpaperGetProtocolInvalidVersionStr,
            HyprwireError::HyprpaperGetProtocolUintParseFailure => HyprwireErrorKind::HyprpaperGetProtocolUintParseFailure,
            HyprwireError::HyprpaperGetWallpaperObjId => HyprwireErrorKind::HyprpaperGetWallpaperObjId,
            HyprwireError::HyprpaperGetWallpaperObjNoPayload => HyprwireErrorKind::HyprpaperGetWallpaperObjNoPayload,
            HyprwireError::MagicTryFrom => HyprwireErrorKind::MagicTryFrom,
            HyprwireError::MagicUnknownKey => HyprwireErrorKind::MagicUnknownKey,
            HyprwireError::MessageKindTryFrom => HyprwireErrorKind::MessageKindTryFrom,
            HyprwireError::MessageKindUnknownKey => HyprwireErrorKind::MessageKindUnknownKey,
            HyprwireError::MessageStreamRead(_) => HyprwireErrorKind::MessageStreamRead,
            HyprwireError::MessageStreamLength => HyprwireErrorKind::MessageStreamLength,
            HyprwireError::SocketConnect(_) => HyprwireErrorKind::SocketConnect,
            HyprwireError::SocketProtocolError => HyprwireErrorKind::SocketProtocolError,
            HyprwireError::SocketWrite(_) => HyprwireErrorKind::SocketWrite,
            HyprwireError::WIP => HyprwireErrorKind::WIP,
            HyprwireError::XDGRuntimePath(_) => HyprwireErrorKind::XDGRuntimePath,
        }
    }
}

/// The fixed text that shows an error: all of it, or the part in front of
/// what the error carries.
pub open spec fn error_text(k: HyprwireErrorKind) -> Seq<char> {
    match k {
        HyprwireErrorKind::ArrayWalkDecoderValue => "ArrayWalk:DecodeValue"@,
        HyprwireErrorKind::ArrayWalkVLQ => "ArrayWalk:VLQ"@,
        HyprwireErrorKind::ArrayWalkVarCharVLQ => "ArrayWalk:VarCharVLQ"@,
        HyprwireErrorKind::ArrayWalkVarCharValue => "ArrayWalk:VarCharValue"@,
        HyprwireErrorKind::DecodeBinArrayNoMatch => "DecodeBin:Array: No match"@,
        HyprwireErrorKind::DecodeBinF32 => "DecodeBin:F32: "@,
        HyprwireErrorKind::DecodeBinI32 => "DecodeBin:I32: "@,
        HyprwireErrorKind::DecodeBinU32 => "DecodeBin:U32: "@,
        HyprwireErrorKind::DecodeBinUtf8 => "DecodeBin:Utf8: "@,
        HyprwireErrorKind::DecodeObjectU8 => "DecodeObject:U8"@,
        HyprwireErrorKind::DecodeObjectVarChar => "DecodeObject:VarChar"@,
        HyprwireErrorKind::DecodeObjectVlq => "DecodeObject:VLQ"@,
        HyprwireErrorKind::HyprlandInstanceSignature => "Socket:HyprlandInstanceSignature: "@,
        HyprwireErrorKind::HyprpaperGetManagerObjId => "Hyprpaper:GetManagerObject: Failed to get object manager id"@,
        HyprwireErrorKind::HyprpaperGetManagerObjNoPayload => "Hyprpaper:GetManagerObject: No payload"@,
        HyprwireErrorKind::HyprpaperGetProtocolInvalidVersionStr => "Hyprpaper:GetProtocol: Invalid version string"@,
        HyprwireErrorKind::HyprpaperGetProtocolUintParseFailure => "Hyprpaper:GetProtocol: Failed to parse uint"@,
        HyprwireErrorKind::HyprpaperGetWallpaperObjId => "Hyprpaper:GetWallpaperObj: Failed to get wallpaper object id"@,
        HyprwireErrorKind::HyprpaperGetWallpaperObjNoPayload => "Hyprpaper:GetWallpaperObj: No payload"@,
        HyprwireErrorKind::MagicTryFrom => "Magic: TryFrom failure"@,
        HyprwireErrorKind::MagicUnknownKey => "Magic: Unknown key"@,
        HyprwireErrorKind::MessageKindTryFrom => "Message kind: TryFrom failure"@,
        HyprwireErrorKind::MessageKindUnknownKey => "Message kind: Unknown key"@,
        HyprwireErrorKind::MessageStreamRead => "Message: Stream read error: "@,
        HyprwireErrorKind::MessageStreamLength => "Message: Stream error: Object too short."@,
        HyprwireErrorKind::SocketConnect => "Socket:Connect: "@,
        HyprwireErrorKind::SocketProtocolError => "Socket:Protocol error"@,
        HyprwireErrorKind::SocketWrite => "Socket:Write: "@,
        HyprwireErrorKind::WIP => "Error:WIP"@,
        HyprwireErrorKind::XDGRuntimePath => "Socket:XDGRuntimePath: "@,
    }
}

/// The error shows the message of a standard library error it carries.
pub open spec fn shows_source(k: HyprwireErrorKind) -> bool {
    ||| k == HyprwireErrorKind::DecodeBinF32
    ||| k == HyprwireErrorKind::DecodeBinI32
    ||| k == HyprwireErrorKind::DecodeBinU32
    ||| k == HyprwireErrorKind::DecodeBinUtf8
    ||| k == HyprwireErrorKind::MessageStreamRead
    ||| k == HyprwireErrorKind::SocketConnect
    ||| k == HyprwireErrorKind::SocketWrite
}

/// `<std::array::TryFromSliceError as std::fmt::Display>::fmt`, through
/// `format!`: the error's message. Nothing is claimed of the text.
#[verifier::external_body]
fn slice_error_text(e: &std::array::TryFromSliceError) -> String {
    format!("{}", e)
}

/// `<std::string::FromUtf8Error as std::fmt::Display>::fmt`, through
/// `format!`: the error's message. Nothing is claimed of the text.
#[verifier::external_body]
fn utf8_error_text(e: &std::string::FromUtf8Error) -> String {
    format!("{}", e)
}

/// `<std::io::Error as std::fmt::Display>::fmt`, through `format!`: the
/// error's message. Nothing is claimed of the text.
#[verifier::external_body]
fn io_error_text(e: &std::io::Error) -> String {
    format!("{}", e)
}

fn joined(head: &str, detail: String) -> (r: String)
    ensures
        r@ == head@ + detail@,
{
    let mut r = String::from_str(head);
    r.append(detail.as_str());
    r
}

impl HyprwireError {
    /// The text that shows this error: its fixed text, followed by what it
    /// carries, if anything.
    pub fn to_string(&self) -> (r: String)
        ensures
            match self {
                HyprwireError::HyprlandInstanceSignature(s) => r@ == error_text(self@) + s@,
                HyprwireError::XDGRuntimePath(s) => r@ == error_text(self@) + s@,
                _ => if shows_source(self@) {
                    error_text(self@).is_prefix_of(r@)
                } else {
                    r@ == error_text(self@)
                },
            },
    {
        let r = match self {
            HyprwireError::ArrayWalkDecoderValue => String::from_str("ArrayWalk:DecodeValue"),
            HyprwireError::ArrayWalkVLQ => String::from_str("ArrayWalk:VLQ"),
            HyprwireError::ArrayWalkVarCharVLQ => String::from_str("ArrayWalk:VarCharVLQ"),
            HyprwireError::ArrayWalkVarCharValue => String::from_str("ArrayWalk:VarCharValue"),
            HyprwireError::DecodeBinArrayNoMatch => String::from_str("DecodeBin:Array: No match"),
            HyprwireError::DecodeBinF32(e) => joined("DecodeBin:F32: ", slice_error_text(e)),
            HyprwireError::DecodeBinI32(e) => joined("DecodeBin:I32: ", slice_error_text(e)),
            HyprwireError::DecodeBinU32(e) => joined("DecodeBin:U32: ", slice_error_text(e)),
            HyprwireError::DecodeBinUtf8(e) => joined("DecodeBin:Utf8: ", utf8_error_text(e)),
            HyprwireError::DecodeObjectU8 => String::from_str("DecodeObject:U8"),
            HyprwireError::DecodeObjectVarChar => String::from_str("DecodeObject:VarChar"),
            HyprwireError::DecodeObjectVlq => String::from_str("DecodeObject:VLQ"),
            HyprwireError::HyprlandInstanceSignature(e) => joined("Socket:HyprlandInstanceSignature: ", e.clone()),
            HyprwireError::HyprpaperGetManagerObjId => String::from_str("Hyprpaper:GetManagerObject: Failed to get object manager id"),
            HyprwireError::HyprpaperGetManagerObjNoPayload => String::from_str("Hyprpaper:GetManagerObject: No payload"),
            HyprwireError::HyprpaperGetProtocolInvalidVersionStr => String::from_str("Hyprpaper:GetProtocol: Invalid version string"),
            HyprwireError::HyprpaperGetProtocolUintParseFailure => String::from_str("Hyprpaper:GetProtocol: Failed to parse uint"),
            HyprwireError::HyprpaperGetWallpaperObjId => String::from_str("Hyprpaper:GetWallpaperObj: Failed to get wallpaper object id"),
            HyprwireError::HyprpaperGetWallpaperObjNoPayload => String::from_str("Hyprpaper:GetWallpaperObj: No payload"),
            HyprwireError::MagicTryFrom => String::from_str("Magic: TryFrom failure"),
            HyprwireError::MagicUnknownKey => String::from_str("Magic: Unknown key"),
            HyprwireError::MessageKindTryFrom => String::from_str("Message kind: TryFrom failure"),
            HyprwireError::MessageKindUnknownKey => String::from_str("Message kind: Unknown key"),
            HyprwireError::MessageStreamRead(e) => joined("Message: Stream read error: ", io_error_text(e)),
            HyprwireError::MessageStreamLength => String::from_str("Message: Stream error: Object too short."),
            HyprwireError::SocketConnect(e) => joined("Socket:Connect: ", io_error_text(e)),
            HyprwireError::SocketProtocolError => String::from_str("Socket:Protocol error"),
            HyprwireError::SocketWrite(e) => joined("Socket:Write: ", io_error_text(e)),
            HyprwireError::WIP => String::from_str("Error:WIP"),
            HyprwireError::XDGRuntimePath(e) => joined("Socket:XDGRuntimePath: ", e.clone()),
        };
        proof {
            let t = error_text(self@);
            if shows_source(self@) {
                assert(r@.subrange(0, t.len() as int) =~= t);
            }
        }
        r
    }
}

/// The outcome of decoding as the wire format defines it: a value, an error,
/// or an input on which decoding has no result because it would read past
/// the end of the bytes it was given.
pub enum Parsed<T> {
    Done(T),
    Fails(HyprwireErrorKind),
    Panics,
}

/// An executable outcome agrees with a specified one: `None` stands for an
/// input on which decoding has no result.
pub open spec fn agrees<T: DeepView>(r: Option<Result<T, HyprwireError>>, p: Parsed<T::V>) -> bool {
    match p {
        Parsed::Done(v) => r matches Some(Ok(x)) && x.deep_view() == v,
        Parsed::Fails(k) => r matches Some(Err(e)) && e@ == k,
        Parsed::Panics => r is None,
    }
}

/// A decoding result agrees with a specified outcome on which decoding has a
/// result.
pub open spec fn result_agrees<T: DeepView>(r: Result<T, HyprwireError>, p: Parsed<T::V>) -> bool {
    match p {
        Parsed::Done(v) => r matches Ok(x) && x.deep_view() == v,
        Parsed::Fails(k) => r matches Err(e) && e@ == k,
        Parsed::Panics => false,
    }
}

} // verus!
