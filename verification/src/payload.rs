//! Payloads: a type tag and a value, and how they are written on the wire.

use vstd::prelude::*;
use vstd::bytes::{spec_u32_to_le_bytes, u32_to_le_bytes};
use vstd::slice::slice_to_vec;
use vstd::utf8::encode_utf8;

use crate::types::{HWMagic, HWValue, ValueView};
use crate::vlq::{vlq_bytes, VLQ};

verus! {

/// A tagged value, as it travels inside a message.
#[derive(Clone, Debug)]
pub struct HWPayload {
    pub magic: HWMagic,
    pub value: HWValue,
}

/// A payload as the contracts see it.
pub struct PayloadView {
    pub magic: HWMagic,
    pub value: ValueView,
}

impl View for HWPayload {
    type V = PayloadView;

    open spec fn view(&self) -> PayloadView {
        PayloadView { magic: self.magic, value: self.value@ }
    }
}

impl DeepView for HWPayload {
    type V = PayloadView;

    open spec fn deep_view(&self) -> PayloadView {
        self@
    }
}

/// The tag that the format gives to each kind of value.
pub open spec fn magic_matches(magic: HWMagic, value: ValueView) -> bool {
    match value {
        ValueView::Uint(_) => magic == HWMagic::Uint,
        ValueView::Int(_) => magic == HWMagic::Int,
        ValueView::F32(_) => magic == HWMagic::F32,
        ValueView::Sequence(_) => magic == HWMagic::Sequence,
        ValueView::ObjectId(_) => magic == HWMagic::ObjectId,
        ValueView::Varchar(_) => magic == HWMagic::Varchar,
        ValueView::ArrayUint(_) => magic == HWMagic::Array,
        ValueView::ArrayVarchar(_) => magic == HWMagic::Array,
        ValueView::Object(_, _) => magic == HWMagic::Object,
        ValueView::Fd => magic == HWMagic::Fd,
    }
}

/// The two's complement bit pattern of `v`.
pub open spec fn bits_of_i32(v: i32) -> u32 {
    if v >= 0 {
        v as u32
    } else {
        (v + 0x1_0000_0000) as u32
    }
}

/// Four little-endian bytes.
pub open spec fn le_bytes(v: u32) -> Seq<u8> {
    spec_u32_to_le_bytes(v)
}

/// The integers of `vs`, four little-endian bytes each, one after another.
pub open spec fn uints_bytes(vs: Seq<u32>) -> Seq<u8>
    decreases vs.len(),
{
    if vs.len() == 0 {
        seq![]
    } else {
        uints_bytes(vs.drop_last()) + le_bytes(vs.last())
    }
}

/// A string on the wire: its UTF-8 length as a quantity, then its UTF-8.
pub open spec fn varchar_bytes(s: Seq<char>) -> Seq<u8> {
    vlq_bytes(encode_utf8(s).len()) + encode_utf8(s)
}

/// The strings of `ss`, each as `varchar_bytes`, one after another.
pub open spec fn varchars_bytes(ss: Seq<Seq<char>>) -> Seq<u8>
    decreases ss.len(),
{
    if ss.len() == 0 {
        seq![]
    } else {
        varchars_bytes(ss.drop_last()) + varchar_bytes(ss.last())
    }
}

/// The bytes that follow the tag of a payload holding `value`. An object is
/// written by its id alone and a file descriptor by nothing.
pub open spec fn value_bytes(value: ValueView) -> Seq<u8> {
    match value {
        ValueView::Uint(v) => le_bytes(v),
        ValueView::Int(v) => le_bytes(bits_of_i32(v)),
        ValueView::F32(v) => le_bytes(v),
        ValueView::Sequence(v) => le_bytes(v),
        ValueView::ObjectId(v) => le_bytes(v),
        ValueView::Varchar(s) => varchar_bytes(s),
        ValueView::ArrayUint(vs) => seq![HWMagic::Uint.code()] + vlq_bytes(vs.len()) + uints_bytes(vs),
        ValueView::ArrayVarchar(ss) => seq![HWMagic::Varchar.code()] + vlq_bytes(ss.len())
            + varchars_bytes(ss),
        ValueView::Object(id, _) => le_bytes(id),
        ValueView::Fd => seq![],
    }
}

/// A payload on the wire: its tag byte, then its value.
pub open spec fn payload_bytes(p: PayloadView) -> Seq<u8> {
    seq![p.magic.code()] + value_bytes(p.value)
}

/// Four little-endian bytes of a 32-bit integer.
fn u32_bytes(v: u32) -> (r: Vec<u8>)
    ensures
        r@ == le_bytes(v),
{
    u32_to_le_bytes(v)
}

/// A string as a length quantity and its UTF-8 bytes.
fn string_bytes(s: &String) -> (r: Vec<u8>)
    ensures
        r@ == varchar_bytes(s@),
{
    let text = s.as_str();
    let utf8 = text.as_bytes();
    let mut buf = VLQ::encode(utf8.len() as u64);
    let mut body = slice_to_vec(utf8);
    buf.append(&mut body);
    buf
}

impl HWPayload {
    /// A payload holding an unsigned integer.
    pub fn compose_uint(uint: u32) -> (r: Self)
        ensures
            r@ == (PayloadView { magic: HWMagic::Uint, value: ValueView::Uint(uint) }),
    {
        Self::compose(HWMagic::Uint, HWValue::Uint(uint))
    }

    /// A payload holding a signed integer.
    pub fn compose_int(int_value: i32) -> (r: Self)
        ensures
            r@ == (PayloadView { magic: HWMagic::Int, value: ValueView::Int(int_value) }),
    {
        Self::compose(HWMagic::Int, HWValue::Int(int_value))
    }

    /// A payload holding a 32-bit float, given by its IEEE 754 bit pattern.
    pub fn compose_f32(f32_bits: u32) -> (r: Self)
        ensures
            r@ == (PayloadView { magic: HWMagic::F32, value: ValueView::F32(f32_bits) }),
    {
        Self::compose(HWMagic::F32, HWValue::F32(f32_bits))
    }

    /// A payload holding a sequence number.
    pub fn compose_seq(seq: u32) -> (r: Self)
        ensures
            r@ == (PayloadView { magic: HWMagic::Sequence, value: ValueView::Sequence(seq) }),
    {
        Self::compose(HWMagic::Sequence, HWValue::Sequence(seq))
    }

    /// A payload holding an object id.
    pub fn compose_object_id(object_id: u32) -> (r: Self)
        ensures
            r@ == (PayloadView { magic: HWMagic::ObjectId, value: ValueView::ObjectId(object_id) }),
    {
        Self::compose(HWMagic::ObjectId, HWValue::ObjectId(object_id))
    }

    /// A payload holding a string.
    pub fn compose_varchar(varchar: String) -> (r: Self)
        ensures
            r@ == (PayloadView { magic: HWMagic::Varchar, value: ValueView::Varchar(varchar@) }),
    {
        Self::compose(HWMagic::Varchar, HWValue::Varchar(varchar))
    }

    /// A payload holding an object: its id and its name.
    pub fn compose_object(object_id: u32, object: String) -> (r: Self)
        ensures
            r@ == (PayloadView {
                magic: HWMagic::Object,
                value: ValueView::Object(object_id, object@),
            }),
    {
        Self::compose(HWMagic::Object, HWValue::Object(object_id, object))
    }

    /// A payload standing for a file descriptor.
    pub fn compose_fd() -> (r: Self)
        ensures
            r@ == (PayloadView { magic: HWMagic::Fd, value: ValueView::Fd }),
    {
        Self::compose(HWMagic::Fd, HWValue::Fd)
    }

    fn compose(magic: HWMagic, value: HWValue) -> (r: Self)
        requires
            magic_matches(magic, value@),
        ensures
            r@ == (PayloadView { magic, value: value@ }),
    {
        if !Self::validate_magic(magic, &value) {
            vstd::pervasive::unreached()
        } else {
            HWPayload { magic, value }
        }
    }

    fn validate_magic(magic: HWMagic, value: &HWValue) -> (r: bool)
        ensures
            r == magic_matches(magic, value@),
    {
        match value {
            HWValue::Uint(_) => magic == HWMagic::Uint,
            HWValue::Int(_) => magic == HWMagic::Int,
            HWValue::F32(_) => magic == HWMagic::F32,
            HWValue::Sequence(_) => magic == HWMagic::Sequence,
            HWValue::ObjectId(_) => magic == HWMagic::ObjectId,
            HWValue::Varchar(_) => magic == HWMagic::Varchar,
            HWValue::ArrayUint(_) => magic == HWMagic::Array,
            HWValue::ArrayVarchar(_) => magic == HWMagic::Array,
            HWValue::Object(_, _) => magic == HWMagic::Object,
            HWValue::Fd => magic == HWMagic::Fd,
        }
    }

    /// The payload on the wire: its tag byte, then its value.
    pub fn encode(&self) -> (bytes: Vec<u8>)
        ensures
            bytes@ == payload_bytes(self@),
    {
        let mut bytes: Vec<u8> = Vec::new();
        bytes.push(self.magic.to_u8());
        let mut value = self.encode_value();
        bytes.append(&mut value);
        bytes
    }

    fn encode_value(&self) -> (buf: Vec<u8>)
        ensures
            buf@ == value_bytes(self.value@),
    {
        match &self.value {
            HWValue::Uint(v) => u32_bytes(*v),
            HWValue::Int(v) => {
                let bits: u32 = if *v >= 0 {
                    *v as u32
                } else {
                    (*v as i64 + 0x1_0000_0000) as u32
                };
                u32_bytes(bits)
            },
            HWValue::F32(v) => u32_bytes(*v),
            HWValue::Sequence(v) => u32_bytes(*v),
            HWValue::ObjectId(v) => u32_bytes(*v),
            HWValue::Varchar(s) => string_bytes(s),
            HWValue::ArrayUint(vals) => {
                let mut buf: Vec<u8> = Vec::new();
                buf.push(HWMagic::Uint.to_u8());
                let mut count = VLQ::encode(vals.len() as u64);
                buf.append(&mut count);
                let ghost head = buf@;
                let mut i: usize = 0;
                while i < vals.len()
                    invariant
                        i <= vals@.len(),
                        buf@ == head + uints_bytes(vals@.take(i as int)),
                    decreases vals@.len() - i,
                {
                    let mut item = u32_bytes(vals[i]);
                    assert(vals@.take(i + 1).drop_last() =~= vals@.take(i as int));
                    buf.append(&mut item);
                    assert(buf@ =~= head + uints_bytes(vals@.take(i + 1)));
                    i = i + 1;
                }
                assert(vals@.take(vals@.len() as int) =~= vals@);
                buf
            },
            HWValue::ArrayVarchar(vals) => {
                let mut buf: Vec<u8> = Vec::new();
                buf.push(HWMagic::Varchar.to_u8());
                let mut count = VLQ::encode(vals.len() as u64);
                buf.append(&mut count);
                let ghost head = buf@;
                let ghost strs = vals.deep_view();
                let mut i: usize = 0;
                while i < vals.len()
                    invariant
                        i <= vals@.len(),
                        strs == vals.deep_view(),
                        buf@ == head + varchars_bytes(strs.take(i as int)),
                    decreases vals@.len() - i,
                {
                    let mut item = string_bytes(&vals[i]);
                    assert(strs.take(i + 1).drop_last() =~= strs.take(i as int));
                    assert(strs.take(i + 1).last() == vals@[i as int]@);
                    buf.append(&mut item);
                    assert(buf@ =~= head + varchars_bytes(strs.take(i + 1)));
                    i = i + 1;
                }
                assert(strs.take(vals@.len() as int) =~= strs);
                buf
            },
            HWValue::Object(id, _name) => u32_bytes(*id),
            HWValue::Fd => Vec::new(),
        }
    }

    /// A payload with the given tag and value, taken as they are.
    pub fn from_magic_value(magic: HWMagic, value: HWValue) -> (r: Self)
        ensures
            r@ == (PayloadView { magic, value: value@ }),
    {
        Self { magic, value }
    }
}

} // verus!
