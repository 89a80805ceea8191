//! Message kinds, type tags ("magic" bytes) and the values that payloads
//! carry, with the decoding of a value from its bytes.

use vstd::prelude::*;
use vstd::bytes::{spec_u32_from_le_bytes, u32_from_le_bytes};
use vstd::slice::{slice_subrange, slice_to_vec};
use vstd::utf8::{decode_utf8, valid_utf8};

use crate::error::{agrees, result_agrees, HyprwireError, HyprwireErrorKind, Parsed};
use crate::vlq::{vlq_decoded, VLQ};

verus! {

/// The kind of a message, its first byte on the wire.
#[derive(Clone, Copy, Debug, PartialEq, Eq, Structural)]
pub enum HWMessageKind {
    Invalid,
    Sup,
    HandshakeBegin,
    HandshakeAck,
    HandshakeProtocols,
    BindProtocol,
    NewObject,
    ProtocolError,
    RoundtripReq,
    RoundtripDone,
    Generic,
}

impl HWMessageKind {
    /// The byte that stands for this kind on the wire.
    pub open spec fn code(self) -> u8 {
        match self {
            Self::Invalid => 0,
            Self::Sup => 1,
            Self::HandshakeBegin => 2,
            Self::HandshakeAck => 3,
            Self::HandshakeProtocols => 4,
            Self::BindProtocol => 10,
            Self::NewObject => 11,
            Self::ProtocolError => 12,
            Self::RoundtripReq => 13,
            Self::RoundtripDone => 14,
            Self::Generic => 100,
        }
    }

    /// The kind that a byte stands for, if any.
    pub open spec fn from_code(b: u8) -> Option<HWMessageKind> {
        if b == 0 {
            Some(Self::Invalid)
        } else if b == 1 {
            Some(Self::Sup)
        } else if b == 2 {
            Some(Self::HandshakeBegin)
        } else if b == 3 {
            Some(Self::HandshakeAck)
        } else if b == 4 {
            Some(Self::HandshakeProtocols)
        } else if b == 10 {
            Some(Self::BindProtocol)
        } else if b == 11 {
            Some(Self::NewObject)
        } else if b == 12 {
            Some(Self::ProtocolError)
        } else if b == 13 {
            Some(Self::RoundtripReq)
        } else if b == 14 {
            Some(Self::RoundtripDone)
        } else if b == 100 {
            Some(Self::Generic)
        } else {
            None
        }
    }

    /// The byte that stands for this kind on the wire.
    pub fn to_u8(&self) -> (r: u8)
        ensures
            r == self.code(),
    {
        match self {
            Self::Invalid => 0,
            Self::Sup => 1,
            Self::HandshakeBegin => 2,
            Self::HandshakeAck => 3,
            Self::HandshakeProtocols => 4,
            Self::BindProtocol => 10,
            Self::NewObject => 11,
            Self::ProtocolError => 12,
            Self::RoundtripReq => 13,
            Self::RoundtripDone => 14,
            Self::Generic => 100,
        }
    }

    /// The name by which this kind is shown.
    pub open spec fn name(self) -> Seq<char> {
        match self {
            Self::Invalid => "Invalid"@,
            Self::Sup => "Sup"@,
            Self::HandshakeBegin => "HandshakeBegin"@,
            Self::HandshakeAck => "HandshakeAck"@,
            Self::HandshakeProtocols => "HandshakeProtocols"@,
            Self::BindProtocol => "BindProtocol"@,
            Self::NewObject => "NewObject"@,
            Self::ProtocolError => "ProtocolError"@,
            Self::RoundtripReq => "RoundtripReq"@,
            Self::RoundtripDone => "RoundtripDone"@,
            Self::Generic => "Generic"@,
        }
    }

    /// The name by which this kind is shown.
    pub fn to_string(&self) -> (r: String)
        ensures
            r@ == self.name(),
    {
        match self {
            Self::Invalid => String::from_str("Invalid"),
            Self::Sup => String::from_str("Sup"),
            Self::HandshakeBegin => String::from_str("HandshakeBegin"),
            Self::HandshakeAck => String::from_str("HandshakeAck"),
            Self::HandshakeProtocols => String::from_str("HandshakeProtocols"),
            Self::BindProtocol => String::from_str("BindProtocol"),
            Self::NewObject => String::from_str("NewObject"),
            Self::ProtocolError => String::from_str("ProtocolError"),
            Self::RoundtripReq => String::from_str("RoundtripReq"),
            Self::RoundtripDone => String::from_str("RoundtripDone"),
            Self::Generic => String::from_str("Generic"),
        }
    }

    /// The kind that `value` stands for; `MessageKindUnknownKey` for a byte
    /// that stands for none.
    pub fn match_u8(value: &u8) -> (r: Result<Self, HyprwireError>)
        ensures
            match Self::from_code(*value) {
                Some(k) => r matches Ok(x) && x == k,
                None => r matches Err(e) && e@ == HyprwireErrorKind::MessageKindUnknownKey,
            },
    {
        match *value {
            0 => Ok(Self::Invalid),
            1 => Ok(Self::Sup),
            2 => Ok(Self::HandshakeBegin),
            3 => Ok(Self::HandshakeAck),
            4 => Ok(Self::HandshakeProtocols),
            10 => Ok(Self::BindProtocol),
            11 => Ok(Self::NewObject),
            12 => Ok(Self::ProtocolError),
            13 => Ok(Self::RoundtripReq),
            14 => Ok(Self::RoundtripDone),
            100 => Ok(Self::Generic),
            _ => Err(HyprwireError::MessageKindUnknownKey),
        }
    }

    /// The kind that an optional byte stands for; `MessageKindTryFrom` when
    /// there is no byte.
    pub fn from_opt_u8(value: &Option<&u8>) -> (r: Result<Self, HyprwireError>)
        ensures
            match value {
                Some(b) => match Self::from_code(**b) {
                    Some(k) => r matches Ok(x) && x == k,
                    None => r matches Err(e) && e@ == HyprwireErrorKind::MessageKindUnknownKey,
                },
                None => r matches Err(e) && e@ == HyprwireErrorKind::MessageKindTryFrom,
            },
    {
        match value {
            Some(v) => Self::match_u8(v),
            None => Err(HyprwireError::MessageKindTryFrom),
        }
    }

    /// The kind that the first byte of `value` stands for;
    /// `MessageKindTryFrom` when `value` is empty.
    pub fn from_bytes(value: &[u8]) -> (r: Result<Self, HyprwireError>)
        ensures
            value@.len() == 0 ==> (r matches Err(e) && e@ == HyprwireErrorKind::MessageKindTryFrom),
            value@.len() > 0 ==> match Self::from_code(value@[0]) {
                Some(k) => r matches Ok(x) && x == k,
                None => r matches Err(e) && e@ == HyprwireErrorKind::MessageKindUnknownKey,
            },
    {
        if value.len() == 0 {
            Err(HyprwireError::MessageKindTryFrom)
        } else {
            Self::match_u8(&value[0])
        }
    }
}

impl<'a> TryFrom<&'a u8> for HWMessageKind {
    type Error = HyprwireError;

    fn try_from(value: &'a u8) -> (r: Result<Self, Self::Error>) {
        HWMessageKind::match_u8(value)
    }
}

impl<'a> vstd::std_specs::convert::TryFromSpecImpl<&'a u8> for HWMessageKind {
    open spec fn obeys_try_from_spec() -> bool {
        true
    }

    open spec fn try_from_spec(value: &'a u8) -> Result<Self, HyprwireError> {
        match HWMessageKind::from_code(*value) {
            Some(k) => Ok(k),
            None => Err(HyprwireError::MessageKindUnknownKey),
        }
    }
}

impl<'a, 'b> TryFrom<&'a Option<&'b u8>> for HWMessageKind {
    type Error = HyprwireError;

    fn try_from(value: &'a Option<&'b u8>) -> (r: Result<Self, Self::Error>) {
        HWMessageKind::from_opt_u8(value)
    }
}

impl<'a, 'b> vstd::std_specs::convert::TryFromSpecImpl<&'a Option<&'b u8>> for HWMessageKind {
    open spec fn obeys_try_from_spec() -> bool {
        true
    }

    open spec fn try_from_spec(value: &'a Option<&'b u8>) -> Result<Self, HyprwireError> {
        match *value {
            Some(b) => match HWMessageKind::from_code(*b) {
                Some(k) => Ok(k),
                None => Err(HyprwireError::MessageKindUnknownKey),
            },
            None => Err(HyprwireError::MessageKindTryFrom),
        }
    }
}

impl<'a> TryFrom<&'a [u8]> for HWMessageKind {
    type Error = HyprwireError;

    fn try_from(value: &'a [u8]) -> (r: Result<Self, Self::Error>) {
        HWMessageKind::from_bytes(value)
    }
}

impl<'a> vstd::std_specs::convert::TryFromSpecImpl<&'a [u8]> for HWMessageKind {
    open spec fn obeys_try_from_spec() -> bool {
        true
    }

    open spec fn try_from_spec(value: &'a [u8]) -> Result<Self, HyprwireError> {
        if value@.len() == 0 {
            Err(HyprwireError::MessageKindTryFrom)
        } else {
            match HWMessageKind::from_code(value@[0]) {
                Some(k) => Ok(k),
                None => Err(HyprwireError::MessageKindUnknownKey),
            }
        }
    }
}

/// The tag in front of a value on the wire, telling its type.
#[derive(Clone, Copy, Debug, PartialEq, Eq, Structural)]
pub enum HWMagic {
    End,
    Uint,
    Int,
    F32,
    Sequence,
    ObjectId,
    Varchar,
    Array,
    Object,
    Fd,
}

impl HWMagic {
    /// The byte that stands for this tag on the wire.
    pub open spec fn code(self) -> u8 {
        match self {
            Self::End => 0x00,
            Self::Uint => 0x10,
            Self::Int => 0x11,
            Self::F32 => 0x12,
            Self::Sequence => 0x13,
            Self::ObjectId => 0x14,
            Self::Varchar => 0x20,
            Self::Array => 0x21,
            Self::Object => 0x22,
            Self::Fd => 0x40,
        }
    }

    /// The tag that a byte stands for, if any.
    pub open spec fn from_code(b: u8) -> Option<HWMagic> {
        if b == 0x00 {
            Some(Self::End)
        } else if b == 0x10 {
            Some(Self::Uint)
        } else if b == 0x11 {
            Some(Self::Int)
        } else if b == 0x12 {
            Some(Self::F32)
        } else if b == 0x13 {
            Some(Self::Sequence)
        } else if b == 0x14 {
            Some(Self::ObjectId)
        } else if b == 0x20 {
            Some(Self::Varchar)
        } else if b == 0x21 {
            Some(Self::Array)
        } else if b == 0x22 {
            Some(Self::Object)
        } else if b == 0x40 {
            Some(Self::Fd)
        } else {
            None
        }
    }

    /// The length the format gives a tag: one for the tag bytes of fixed
    /// meaning, none for the variable ones.
    pub open spec fn length_of(key: HWMagic) -> Option<usize> {
        match key {
            Self::End | Self::Uint | Self::Int | Self::F32 | Self::Sequence | Self::ObjectId => Some(1),
            Self::Varchar | Self::Array | Self::Object | Self::Fd => None,
        }
    }

    /// The byte that stands for this tag on the wire.
    pub fn to_u8(&self) -> (r: u8)
        ensures
            r == self.code(),
    {
        match self {
            Self::End => 0x00,
            Self::Uint => 0x10,
            Self::Int => 0x11,
            Self::F32 => 0x12,
            Self::Sequence => 0x13,
            Self::ObjectId => 0x14,
            Self::Varchar => 0x20,
            Self::Array => 0x21,
            Self::Object => 0x22,
            Self::Fd => 0x40,
        }
    }

    /// The name by which this tag is shown.
    pub open spec fn name(self) -> Seq<char> {
        match self {
            Self::End => "end"@,
            Self::Uint => "uint"@,
            Self::Int => "int"@,
            Self::F32 => "f32"@,
            Self::Sequence => "seq"@,
            Self::ObjectId => "object_id"@,
            Self::Varchar => "varchar"@,
            Self::Array => "array"@,
            Self::Object => "object"@,
            Self::Fd => "fd"@,
        }
    }

    /// The name by which this tag is shown.
    pub fn to_string(&self) -> (r: String)
        ensures
            r@ == self.name(),
    {
        match self {
            Self::End => String::from_str("end"),
            Self::Uint => String::from_str("uint"),
            Self::Int => String::from_str("int"),
            Self::F32 => String::from_str("f32"),
            Self::Sequence => String::from_str("seq"),
            Self::ObjectId => String::from_str("object_id"),
            Self::Varchar => String::from_str("varchar"),
            Self::Array => String::from_str("array"),
            Self::Object => String::from_str("object"),
            Self::Fd => String::from_str("fd"),
        }
    }

    /// The tag that `value` stands for; `MagicUnknownKey` for a byte that
    /// stands for none.
    pub fn match_u8(value: &u8) -> (r: Result<Self, HyprwireError>)
        ensures
            match Self::from_code(*value) {
                Some(m) => r matches Ok(x) && x == m,
                None => r matches Err(e) && e@ == HyprwireErrorKind::MagicUnknownKey,
            },
    {
        match *value {
            0x00 => Ok(Self::End),
            0x10 => Ok(Self::Uint),
            0x11 => Ok(Self::Int),
            0x12 => Ok(Self::F32),
            0x13 => Ok(Self::Sequence),
            0x14 => Ok(Self::ObjectId),
            0x20 => Ok(Self::Varchar),
            0x21 => Ok(Self::Array),
            0x22 => Ok(Self::Object),
            0x40 => Ok(Self::Fd),
            _ => Err(HyprwireError::MagicUnknownKey),
        }
    }

    /// The length the format gives `key`.
    pub fn get_length(key: HWMagic) -> (r: Option<usize>)
        ensures
            r == Self::length_of(key),
    {
        match key {
            Self::End => Some(1),
            Self::Uint => Some(1),
            Self::Int => Some(1),
            Self::F32 => Some(1),
            Self::Sequence => Some(1),
            Self::ObjectId => Some(1),
            Self::Varchar => None,
            Self::Array => None,
            Self::Object => None,
            Self::Fd => None,
        }
    }

    /// The tag that an optional byte stands for; `MagicTryFrom` when there is
    /// no byte.
    pub fn from_opt_u8(value: &Option<&u8>) -> (r: Result<Self, HyprwireError>)
        ensures
            match value {
                Some(b) => match Self::from_code(**b) {
                    Some(m) => r matches Ok(x) && x == m,
                    None => r matches Err(e) && e@ == HyprwireErrorKind::MagicUnknownKey,
                },
                None => r matches Err(e) && e@ == HyprwireErrorKind::MagicTryFrom,
            },
    {
        match value {
            Some(v) => Self::match_u8(v),
            None => Err(HyprwireError::MagicTryFrom),
        }
    }

    /// The tag that the first byte of `value` stands for; `MagicTryFrom`
    /// when `value` is empty.
    pub fn from_bytes(value: &[u8]) -> (r: Result<Self, HyprwireError>)
        ensures
            value@.len() == 0 ==> (r matches Err(e) && e@ == HyprwireErrorKind::MagicTryFrom),
            value@.len() > 0 ==> match Self::from_code(value@[0]) {
                Some(m) => r matches Ok(x) && x == m,
                None => r matches Err(e) && e@ == HyprwireErrorKind::MagicUnknownKey,
            },
    {
        if value.len() == 0 {
            Err(HyprwireError::MagicTryFrom)
        } else {
            Self::match_u8(&value[0])
        }
    }
}

impl<'a, 'b> TryFrom<&'a Option<&'b u8>> for HWMagic {
    type Error = HyprwireError;

    fn try_from(value: &'a Option<&'b u8>) -> (r: Result<Self, Self::Error>) {
        HWMagic::from_opt_u8(value)
    }
}

impl<'a, 'b> vstd::std_specs::convert::TryFromSpecImpl<&'a Option<&'b u8>> for HWMagic {
    open spec fn obeys_try_from_spec() -> bool {
        true
    }

    open spec fn try_from_spec(value: &'a Option<&'b u8>) -> Result<Self, HyprwireError> {
        match *value {
            Some(b) => match HWMagic::from_code(*b) {
                Some(k) => Ok(k),
                None => Err(HyprwireError::MagicUnknownKey),
            },
            None => Err(HyprwireError::MagicTryFrom),
        }
    }
}

impl<'a> TryFrom<&'a [u8]> for HWMagic {
    type Error = HyprwireError;

    fn try_from(value: &'a [u8]) -> (r: Result<Self, Self::Error>) {
        HWMagic::from_bytes(value)
    }
}

impl<'a> vstd::std_specs::convert::TryFromSpecImpl<&'a [u8]> for HWMagic {
    open spec fn obeys_try_from_spec() -> bool {
        true
    }

    open spec fn try_from_spec(value: &'a [u8]) -> Result<Self, HyprwireError> {
        if value@.len() == 0 {
            Err(HyprwireError::MagicTryFrom)
        } else {
            match HWMagic::from_code(value@[0]) {
                Some(k) => Ok(k),
                None => Err(HyprwireError::MagicUnknownKey),
            }
        }
    }
}

/// Each kind's byte stands for that kind, and a byte that stands for a kind
/// is that kind's byte.
pub proof fn lemma_kind_code_roundtrip(k: HWMessageKind, b: u8)
    ensures
        HWMessageKind::from_code(k.code()) == Some(k),
        HWMessageKind::from_code(b) matches Some(j) ==> j.code() == b,
{
}

/// Each tag's byte stands for that tag, and a byte that stands for a tag is
/// that tag's byte.
pub proof fn lemma_magic_code_roundtrip(m: HWMagic, b: u8)
    ensures
        HWMagic::from_code(m.code()) == Some(m),
        HWMagic::from_code(b) matches Some(j) ==> j.code() == b,
{
}

/// A value carried by a payload. A 32-bit float is held by its IEEE 754 bit
/// pattern, which is what travels on the wire.
#[derive(Clone, Debug)]
pub enum HWValue {
    Uint(u32),
    Int(i32),
    F32(u32),
    Sequence(u32),
    ObjectId(u32),
    Varchar(String),
    ArrayUint(Vec<u32>),
    ArrayVarchar(Vec<String>),
    Object(u32, String),
    Fd,
}

/// A value as the contracts see it: strings by their characters.
pub enum ValueView {
    Uint(u32),
    Int(i32),
    F32(u32),
    Sequence(u32),
    ObjectId(u32),
    Varchar(Seq<char>),
    ArrayUint(Seq<u32>),
    ArrayVarchar(Seq<Seq<char>>),
    Object(u32, Seq<char>),
    Fd,
}

impl View for HWValue {
    type V = ValueView;

    open spec fn view(&self) -> ValueView {
        match self {
            HWValue::Uint(v) => ValueView::Uint(*v),
            HWValue::Int(v) => ValueView::Int(*v),
            HWValue::F32(v) => ValueView::F32(*v),
            HWValue::Sequence(v) => ValueView::Sequence(*v),
            HWValue::ObjectId(v) => ValueView::ObjectId(*v),
            HWValue::Varchar(s) => ValueView::Varchar(s@),
            HWValue::ArrayUint(v) => ValueView::ArrayUint(v@),
            HWValue::ArrayVarchar(v) => ValueView::ArrayVarchar(v.deep_view()),
            HWValue::Object(id, s) => ValueView::Object(*id, s@),
            HWValue::Fd => ValueView::Fd,
        }
    }
}

impl DeepView for HWValue {
    type V = ValueView;

    open spec fn deep_view(&self) -> ValueView {
        self@
    }
}

/// The unsigned integer that four little-endian bytes stand for.
pub open spec fn le_u32(b: Seq<u8>) -> u32 {
    spec_u32_from_le_bytes(b)
}

/// The signed integer with the two's complement bit pattern `u`.
pub open spec fn i32_of_bits(u: u32) -> i32 {
    if u < 0x8000_0000 {
        u as i32
    } else {
        (u - 0x1_0000_0000) as i32
    }
}

/// Puts `prefix` in front of the items of a successful outcome.
pub open spec fn prepend_all<T>(prefix: Seq<T>, p: Parsed<Seq<T>>) -> Parsed<Seq<T>> {
    match p {
        Parsed::Done(rest) => Parsed::Done(prefix + rest),
        Parsed::Fails(k) => Parsed::Fails(k),
        Parsed::Panics => Parsed::Panics,
    }
}

/// Reads `remaining` unsigned integers of four bytes each, from `cursor` on.
pub open spec fn walk_uints(bin: Seq<u8>, cursor: nat, remaining: nat) -> Parsed<Seq<u32>>
    decreases remaining,
{
    if remaining == 0 {
        Parsed::Done(seq![])
    } else if cursor + 4 > bin.len() {
        Parsed::Panics
    } else {
        prepend_all(
            seq![le_u32(bin.subrange(cursor as int, (cursor + 4) as int))],
            walk_uints(bin, cursor + 4, (remaining - 1) as nat),
        )
    }
}

/// Reads `remaining` strings, each a length quantity and that many bytes of
/// UTF-8, from `cursor` on.
pub open spec fn walk_varchars(bin: Seq<u8>, cursor: nat, remaining: nat) -> Parsed<Seq<Seq<char>>>
    decreases remaining,
{
    if remaining == 0 {
        Parsed::Done(seq![])
    } else if cursor > bin.len() {
        Parsed::Panics
    } else {
        match vlq_decoded(bin.subrange(cursor as int, bin.len() as int)) {
            None => Parsed::Fails(HyprwireErrorKind::ArrayWalkVarCharVLQ),
            Some((n, off)) => {
                let start = cursor + off;
                let end = start + n;
                if end > bin.len() {
                    Parsed::Panics
                } else if !valid_utf8(bin.subrange(start as int, end as int)) {
                    Parsed::Fails(HyprwireErrorKind::ArrayWalkVarCharValue)
                } else {
                    prepend_all(
                        seq![decode_utf8(bin.subrange(start as int, end as int))],
                        walk_varchars(bin, end as nat, (remaining - 1) as nat),
                    )
                }
            },
        }
    }
}

/// Reads an array body: a count, then that many items of the type `kind`.
pub open spec fn spec_array_walk(kind: HWMagic, bin: Seq<u8>) -> Parsed<ValueView> {
    match vlq_decoded(bin) {
        None => Parsed::Fails(HyprwireErrorKind::ArrayWalkVLQ),
        Some((n, off)) => if kind == HWMagic::Varchar {
            match walk_varchars(bin, off as nat, n as nat) {
                Parsed::Done(items) => Parsed::Done(ValueView::ArrayVarchar(items)),
                Parsed::Fails(k) => Parsed::Fails(k),
                Parsed::Panics => Parsed::Panics,
            }
        } else {
            match walk_uints(bin, off as nat, n as nat) {
                Parsed::Done(items) => Parsed::Done(ValueView::ArrayUint(items)),
                Parsed::Fails(k) => Parsed::Fails(k),
                Parsed::Panics => Parsed::Panics,
            }
        },
    }
}

/// Reads an array: the tag of its items, a count, and the items.
pub open spec fn spec_array_kind_branch(bin: Seq<u8>) -> Parsed<ValueView> {
    if bin.len() == 0 {
        Parsed::Panics
    } else {
        match HWMagic::from_code(bin[0]) {
            None => Parsed::Fails(HyprwireErrorKind::MagicUnknownKey),
            Some(m) => if m == HWMagic::Uint || m == HWMagic::Sequence || m == HWMagic::ObjectId || m
                == HWMagic::Varchar {
                spec_array_walk(m, bin.subrange(1, bin.len() as int))
            } else {
                Parsed::Fails(HyprwireErrorKind::DecodeBinArrayNoMatch)
            },
        }
    }
}

/// Reads a value of the type `magic` from all of `bin`.
pub open spec fn spec_from_slice(magic: HWMagic, bin: Seq<u8>) -> Parsed<ValueView> {
    match magic {
        HWMagic::End | HWMagic::Uint => if bin.len() == 4 {
            Parsed::Done(ValueView::Uint(le_u32(bin)))
        } else {
            Parsed::Fails(HyprwireErrorKind::DecodeBinU32)
        },
        HWMagic::Int => if bin.len() == 4 {
            Parsed::Done(ValueView::Int(i32_of_bits(le_u32(bin))))
        } else {
            Parsed::Fails(HyprwireErrorKind::DecodeBinI32)
        },
        HWMagic::F32 => if bin.len() == 4 {
            Parsed::Done(ValueView::F32(le_u32(bin)))
        } else {
            Parsed::Fails(HyprwireErrorKind::DecodeBinF32)
        },
        HWMagic::Sequence => if bin.len() == 4 {
            Parsed::Done(ValueView::Sequence(le_u32(bin)))
        } else {
            Parsed::Fails(HyprwireErrorKind::DecodeBinU32)
        },
        HWMagic::ObjectId => if bin.len() == 4 {
            Parsed::Done(ValueView::ObjectId(le_u32(bin)))
        } else {
            Parsed::Fails(HyprwireErrorKind::DecodeBinU32)
        },
        HWMagic::Varchar => if valid_utf8(bin) {
            Parsed::Done(ValueView::Varchar(decode_utf8(bin)))
        } else {
            Parsed::Fails(HyprwireErrorKind::DecodeBinUtf8)
        },
        HWMagic::Array => spec_array_kind_branch(bin),
        HWMagic::Object => Parsed::Fails(HyprwireErrorKind::WIP),
        HWMagic::Fd => Parsed::Done(ValueView::Fd),
    }
}

/// `std::string::String::from_utf8`: by its documentation, the bytes as a
/// string when they are valid UTF-8, an error otherwise.
#[verifier::external_body]
fn string_from_utf8(bytes: Vec<u8>) -> (r: Result<String, std::string::FromUtf8Error>)
    ensures
        r is Ok <==> valid_utf8(bytes@),
        r matches Ok(s) ==> s@ == decode_utf8(bytes@),
{
    String::from_utf8(bytes)
}

/// `<[u8; 4] as TryFrom<&[u8]>>::try_from`: by its documentation, the four
/// bytes when the slice has exactly four, an error otherwise.
#[verifier::external_body]
fn slice_to_array4(bin: &[u8]) -> (r: Result<[u8; 4], std::array::TryFromSliceError>)
    ensures
        r is Ok <==> bin@.len() == 4,
        r matches Ok(a) ==> a@ == bin@,
{
    <[u8; 4]>::try_from(bin)
}

pub(crate) proof fn lemma_prepend_all_push<T>(values: Seq<T>, x: T, p: Parsed<Seq<T>>)
    ensures
        prepend_all(values, prepend_all(seq![x], p)) == prepend_all(values.push(x), p),
{
    if let Parsed::Done(rest) = p {
        assert(values + (seq![x] + rest) =~= values.push(x) + rest);
    }
}

impl HWValue {
    fn decode_string(bin: &[u8]) -> (r: Result<String, HyprwireError>)
        ensures
            r is Ok <==> valid_utf8(bin@),
            r matches Ok(s) ==> s@ == decode_utf8(bin@),
            r matches Err(e) ==> e@ == HyprwireErrorKind::DecodeBinUtf8,
    {
        match string_from_utf8(slice_to_vec(bin)) {
            Ok(s) => Ok(s),
            Err(e) => Err(HyprwireError::DecodeBinUtf8(e)),
        }
    }

    fn decode_u32(bin: &[u8]) -> (r: Result<u32, HyprwireError>)
        ensures
            r is Ok <==> bin@.len() == 4,
            r matches Ok(v) ==> v == le_u32(bin@),
            r matches Err(e) ==> e@ == HyprwireErrorKind::DecodeBinU32,
    {
        match slice_to_array4(bin) {
            Ok(bytes) => Ok(u32_from_le_bytes(bytes.as_slice())),
            Err(e) => Err(HyprwireError::DecodeBinU32(e)),
        }
    }

    fn decode_i32(bin: &[u8]) -> (r: Result<i32, HyprwireError>)
        ensures
            r is Ok <==> bin@.len() == 4,
            r matches Ok(v) ==> v == i32_of_bits(le_u32(bin@)),
            r matches Err(e) ==> e@ == HyprwireErrorKind::DecodeBinI32,
    {
        match slice_to_array4(bin) {
            Ok(bytes) => {
                let u = u32_from_le_bytes(bytes.as_slice());
                if u < 0x8000_0000 {
                    Ok(u as i32)
                } else {
                    Ok((u as i64 - 0x1_0000_0000) as i32)
                }
            },
            Err(e) => Err(HyprwireError::DecodeBinI32(e)),
        }
    }

    /// The bit pattern of a 32-bit float.
    fn decode_f32(bin: &[u8]) -> (r: Result<u32, HyprwireError>)
        ensures
            r is Ok <==> bin@.len() == 4,
            r matches Ok(v) ==> v == le_u32(bin@),
            r matches Err(e) ==> e@ == HyprwireErrorKind::DecodeBinF32,
    {
        match slice_to_array4(bin) {
            Ok(bytes) => Ok(u32_from_le_bytes(bytes.as_slice())),
            Err(e) => Err(HyprwireError::DecodeBinF32(e)),
        }
    }

    fn walk_uint_items(bin: &[u8], start: usize, count: u64) -> (r: Option<
        Result<Vec<u32>, HyprwireError>,
    >)
        requires
            start <= bin@.len(),
        ensures
            agrees(r, walk_uints(bin@, start as nat, count as nat)),
    {
        let mut values: Vec<u32> = Vec::new();
        let mut cursor: usize = start;
        let mut elem: u64 = 0;
        while elem < count
            invariant
                start <= cursor <= bin@.len(),
                elem <= count,
                walk_uints(bin@, start as nat, count as nat) == prepend_all(
                    values@,
                    walk_uints(bin@, cursor as nat, (count - elem) as nat),
                ),
            decreases bin@.len() - cursor,
        {
            if bin.len() - cursor < 4 {
                return None;
            }
            let item = slice_subrange(bin, cursor, cursor + 4);
            let value = match Self::decode_u32(item) {
                Ok(v) => v,
                Err(e) => {
                    return Some(Err(e));
                },
            };
            proof {
                lemma_prepend_all_push(
                    values@,
                    value,
                    walk_uints(bin@, (cursor + 4) as nat, (count - elem - 1) as nat),
                );
            }
            values.push(value);
            cursor = cursor + 4;
            elem = elem + 1;
        }
        assert(values@ + seq![] =~= values@);
        assert(values.deep_view() =~= values@);
        Some(Ok(values))
    }

    fn walk_varchar_items(bin: &[u8], start: usize, count: u64) -> (r: Option<
        Result<Vec<String>, HyprwireError>,
    >)
        requires
            start <= bin@.len(),
        ensures
            agrees(r, walk_varchars(bin@, start as nat, count as nat)),
    {
        let mut values: Vec<String> = Vec::new();
        let mut cursor: usize = start;
        let mut elem: u64 = 0;
        while elem < count
            invariant
                start <= cursor <= bin@.len(),
                elem <= count,
                walk_varchars(bin@, start as nat, count as nat) == prepend_all(
                    values.deep_view(),
                    walk_varchars(bin@, cursor as nat, (count - elem) as nat),
                ),
            decreases bin@.len() - cursor,
        {
            let rest = slice_subrange(bin, cursor, bin.len());
            let (data_len, vlq_offset) = match VLQ::decode(rest) {
                Some(d) => d,
                None => {
                    return Some(Err(HyprwireError::ArrayWalkVarCharVLQ));
                },
            };
            let text_start = cursor + vlq_offset;
            if data_len > (bin.len() - text_start) as u64 {
                return None;
            }
            let text_end = text_start + data_len as usize;
            let value = match Self::decode_string(slice_subrange(bin, text_start, text_end)) {
                Ok(s) => s,
                Err(_) => {
                    return Some(Err(HyprwireError::ArrayWalkVarCharValue));
                },
            };
            proof {
                lemma_prepend_all_push(
                    values.deep_view(),
                    value@,
                    walk_varchars(bin@, text_end as nat, (count - elem - 1) as nat),
                );
            }
            let ghost old_values = values.deep_view();
            values.push(value);
            assert(values.deep_view() =~= old_values.push(value@));
            cursor = text_end;
            elem = elem + 1;
        }
        assert(values.deep_view() + seq![] =~= values.deep_view());
        Some(Ok(values))
    }

    fn array_walk(kind: HWMagic, bin: &[u8]) -> (r: Option<Result<HWValue, HyprwireError>>)
        ensures
            agrees(r, spec_array_walk(kind, bin@)),
    {
        let (array_len, array_len_offset) = match VLQ::decode(bin) {
            Some(d) => d,
            None => {
                return Some(Err(HyprwireError::ArrayWalkVLQ));
            },
        };
        match kind {
            HWMagic::Varchar => match Self::walk_varchar_items(bin, array_len_offset, array_len) {
                Some(Ok(items)) => Some(Ok(HWValue::ArrayVarchar(items))),
                Some(Err(e)) => Some(Err(e)),
                None => None,
            },
            _ => match Self::walk_uint_items(bin, array_len_offset, array_len) {
                Some(Ok(items)) => {
                    assert(items@ =~= items.deep_view());
                    Some(Ok(HWValue::ArrayUint(items)))
                },
                Some(Err(e)) => Some(Err(e)),
                None => None,
            },
        }
    }

    fn array_kind_branch(bin: &[u8]) -> (r: Option<Result<HWValue, HyprwireError>>)
        ensures
            agrees(r, spec_array_kind_branch(bin@)),
    {
        if bin.len() == 0 {
            return None;
        }
        let magic = match HWMagic::from_bytes(slice_subrange(bin, 0, 1)) {
            Ok(m) => m,
            Err(e) => {
                return Some(Err(e));
            },
        };
        let items = slice_subrange(bin, 1, bin.len());
        match magic {
            HWMagic::Uint => Self::array_walk(magic, items),
            HWMagic::Sequence => Self::array_walk(magic, items),
            HWMagic::ObjectId => Self::array_walk(magic, items),
            HWMagic::Varchar => Self::array_walk(magic, items),
            _ => Some(Err(HyprwireError::DecodeBinArrayNoMatch)),
        }
    }

    /// Decodes a value of the type `magic` from all of `bin`, or `None` on
    /// an input that the format gives no result for.
    pub(crate) fn decode_from_slice(magic: HWMagic, bin: &[u8]) -> (r: Option<
        Result<Self, HyprwireError>,
    >)
        ensures
            agrees(r, spec_from_slice(magic, bin@)),
    {
        match magic {
            HWMagic::End => match Self::decode_u32(bin) {
                Ok(v) => Some(Ok(HWValue::Uint(v))),
                Err(e) => Some(Err(e)),
            },
            HWMagic::Uint => match Self::decode_u32(bin) {
                Ok(v) => Some(Ok(HWValue::Uint(v))),
                Err(e) => Some(Err(e)),
            },
            HWMagic::Int => match Self::decode_i32(bin) {
                Ok(v) => Some(Ok(HWValue::Int(v))),
                Err(e) => Some(Err(e)),
            },
            HWMagic::F32 => match Self::decode_f32(bin) {
                Ok(v) => Some(Ok(HWValue::F32(v))),
                Err(e) => Some(Err(e)),
            },
            HWMagic::Sequence => match Self::decode_u32(bin) {
                Ok(v) => Some(Ok(HWValue::Sequence(v))),
                Err(e) => Some(Err(e)),
            },
            HWMagic::ObjectId => match Self::decode_u32(bin) {
                Ok(v) => Some(Ok(HWValue::ObjectId(v))),
                Err(e) => Some(Err(e)),
            },
            HWMagic::Varchar => match Self::decode_string(bin) {
                Ok(s) => Some(Ok(HWValue::Varchar(s))),
                Err(e) => Some(Err(e)),
            },
            HWMagic::Array => Self::array_kind_branch(bin),
            HWMagic::Object => Some(Err(HyprwireError::WIP)),
            HWMagic::Fd => Some(Ok(HWValue::Fd)),
        }
    }

    /// Decodes a value of the type `magic` from all of `bin`: a fixed-width
    /// number from exactly four little-endian bytes, a string from UTF-8, an
    /// array from its item tag, count and items, `Fd` from anything; an
    /// object is not decoded here (`WIP`).
    pub fn from_slice(magic: HWMagic, bin: &[u8]) -> (r: Result<Self, HyprwireError>)
        requires
            !(spec_from_slice(magic, bin@) is Panics),
        ensures
            result_agrees(r, spec_from_slice(magic, bin@)),
    {
        match Self::decode_from_slice(magic, bin) {
            Some(r) => r,
            None => vstd::pervasive::unreached(),
        }
    }
}

} // verus!
