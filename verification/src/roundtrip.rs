//! What reading back gives of what was written: values, objects and
//! messages.

use vstd::prelude::*;
use vstd::utf8::{decode_utf8, encode_utf8, valid_utf8};

use crate::error::Parsed;
use crate::message::{
    message_bytes, object_from, payloads_bytes, spec_decode_message, spec_decode_object,
    uint_payload, MessageView,
};
use crate::payload::{
    bits_of_i32, le_bytes, magic_matches, payload_bytes, uints_bytes, value_bytes, varchar_bytes,
    varchars_bytes, PayloadView,
};
use crate::types::{
    prepend_all,
    i32_of_bits, le_u32, spec_from_slice, walk_uints, walk_varchars, HWMagic, HWMessageKind,
    ValueView,
};
use crate::vlq::{lemma_vlq_roundtrip, vlq_bytes, vlq_decoded};

verus! {

/// Every count and length in `value` fits in the 64-bit quantities that
/// carry them on the wire (so it is for every value held in memory).
pub open spec fn fits_wire(value: ValueView) -> bool {
    match value {
        ValueView::Varchar(s) => encode_utf8(s).len() <= u64::MAX,
        ValueView::ArrayUint(vs) => vs.len() <= u64::MAX,
        ValueView::ArrayVarchar(ss) => ss.len() <= u64::MAX && forall|i: int|
            0 <= i < ss.len() ==> #[trigger] encode_utf8(ss[i]).len() <= u64::MAX,
        _ => true,
    }
}

/// A payload that an object can carry and give back: a number or a string,
/// under the tag of its type.
pub open spec fn object_payload(p: PayloadView) -> bool {
    &&& magic_matches(p.magic, p.value)
    &&& fits_wire(p.value)
    &&& (p.value is Uint || p.value is Int || p.value is F32 || p.value is Sequence
        || p.value is ObjectId || p.value is Varchar)
}

proof fn lemma_split(bin: Seq<u8>, cursor: nat, a: Seq<u8>, b: Seq<u8>)
    requires
        cursor <= bin.len(),
        bin.subrange(cursor as int, bin.len() as int) == a + b,
    ensures
        cursor + a.len() <= bin.len(),
        bin.subrange(cursor as int, (cursor + a.len()) as int) == a,
        bin.subrange((cursor + a.len()) as int, bin.len() as int) == b,
        forall|j: int| 0 <= j < a.len() ==> bin[cursor + j] == a[j],
        a.len() > 0 ==> bin[cursor as int] == a[0],
{
    let whole = bin.subrange(cursor as int, bin.len() as int);
    assert(whole.len() == a.len() + b.len());
    assert forall|j: int| 0 <= j < a.len() implies bin[cursor + j] == a[j] by {
        assert(whole[j] == (a + b)[j]);
    }
    if a.len() > 0 {
        assert(whole[0] == (a + b)[0]);
    }
    assert(bin.subrange(cursor as int, (cursor + a.len()) as int) =~= a) by {
        assert forall|j: int| 0 <= j < a.len() implies bin.subrange(
            cursor as int,
            (cursor + a.len()) as int,
        )[j] == a[j] by {
            assert(whole[j] == (a + b)[j]);
        }
    }
    assert(bin.subrange((cursor + a.len()) as int, bin.len() as int) =~= b) by {
        assert forall|j: int| 0 <= j < b.len() implies bin.subrange(
            (cursor + a.len()) as int,
            bin.len() as int,
        )[j] == b[j] by {
            assert(whole[a.len() + j] == (a + b)[a.len() + j]);
        }
    }
}

proof fn lemma_le_roundtrip(v: u32)
    ensures
        le_bytes(v).len() == 4,
        le_u32(le_bytes(v)) == v,
{
    vstd::bytes::lemma_auto_spec_u32_to_from_le_bytes();
    let s = vstd::bytes::spec_u32_to_le_bytes(v);
    assert(s.len() == 4);
    assert(vstd::bytes::spec_u32_from_le_bytes(s) == v);
}

proof fn lemma_i32_bits(v: i32)
    ensures
        i32_of_bits(bits_of_i32(v)) == v,
{
}

proof fn lemma_utf8_roundtrip(s: Seq<char>)
    ensures
        valid_utf8(encode_utf8(s)),
        decode_utf8(encode_utf8(s)) == s,
{
    vstd::utf8::encode_utf8_valid_utf8(s);
    vstd::utf8::encode_utf8_decode_utf8(s);
}

proof fn lemma_uints_bytes_front(vs: Seq<u32>)
    requires
        vs.len() > 0,
    ensures
        uints_bytes(vs) == le_bytes(vs[0]) + uints_bytes(vs.drop_first()),
    decreases vs.len(),
{
    if vs.len() == 1 {
        assert(vs.drop_last() =~= Seq::<u32>::empty());
        assert(vs.drop_first() =~= Seq::<u32>::empty());
        assert(uints_bytes(vs) =~= le_bytes(vs[0]) + uints_bytes(vs.drop_first()));
    } else {
        lemma_uints_bytes_front(vs.drop_last());
        assert(vs.drop_first().drop_last() =~= vs.drop_last().drop_first());
        assert(uints_bytes(vs) =~= le_bytes(vs[0]) + uints_bytes(vs.drop_first()));
    }
}

proof fn lemma_varchars_bytes_front(ss: Seq<Seq<char>>)
    requires
        ss.len() > 0,
    ensures
        varchars_bytes(ss) == varchar_bytes(ss[0]) + varchars_bytes(ss.drop_first()),
    decreases ss.len(),
{
    if ss.len() == 1 {
        assert(ss.drop_last() =~= Seq::<Seq<char>>::empty());
        assert(ss.drop_first() =~= Seq::<Seq<char>>::empty());
        assert(varchars_bytes(ss) =~= varchar_bytes(ss[0]) + varchars_bytes(ss.drop_first()));
    } else {
        lemma_varchars_bytes_front(ss.drop_last());
        assert(ss.drop_first().drop_last() =~= ss.drop_last().drop_first());
        assert(varchars_bytes(ss) =~= varchar_bytes(ss[0]) + varchars_bytes(ss.drop_first()));
    }
}

proof fn lemma_payloads_bytes_front(ps: Seq<PayloadView>)
    requires
        ps.len() > 0,
    ensures
        payloads_bytes(ps) == payload_bytes(ps[0]) + payloads_bytes(ps.drop_first()),
    decreases ps.len(),
{
    if ps.len() == 1 {
        assert(ps.drop_last() =~= Seq::<PayloadView>::empty());
        assert(ps.drop_first() =~= Seq::<PayloadView>::empty());
        assert(payloads_bytes(ps) =~= payload_bytes(ps[0]) + payloads_bytes(ps.drop_first()));
    } else {
        lemma_payloads_bytes_front(ps.drop_last());
        assert(ps.drop_first().drop_last() =~= ps.drop_last().drop_first());
        assert(payloads_bytes(ps) =~= payload_bytes(ps[0]) + payloads_bytes(ps.drop_first()));
    }
}

proof fn lemma_walk_uints(bin: Seq<u8>, cursor: nat, vs: Seq<u32>, rest: Seq<u8>)
    requires
        cursor <= bin.len(),
        bin.subrange(cursor as int, bin.len() as int) == uints_bytes(vs) + rest,
    ensures
        walk_uints(bin, cursor, vs.len()) == Parsed::Done(vs),
    decreases vs.len(),
{
    if vs.len() == 0 {
        assert(vs =~= Seq::<u32>::empty());
    } else {
        let tail = vs.drop_first();
        lemma_uints_bytes_front(vs);
        lemma_le_roundtrip(vs[0]);
        assert(uints_bytes(vs) + rest =~= le_bytes(vs[0]) + (uints_bytes(tail) + rest));
        lemma_split(bin, cursor, le_bytes(vs[0]), uints_bytes(tail) + rest);
        lemma_walk_uints(bin, cursor + 4, tail, rest);
        let e = le_u32(bin.subrange(cursor as int, (cursor + 4) as int));
        assert(e == vs[0]);
        assert(tail.len() == (vs.len() - 1) as nat);
        assert(walk_uints(bin, cursor, vs.len()) == prepend_all(
            seq![e],
            walk_uints(bin, cursor + 4, tail.len()),
        ));
        assert(seq![vs[0]] + tail =~= vs);
    }
}

/// A string placed at `cursor`: its length quantity reads back and its text
/// lies right after it.
proof fn lemma_read_varchar(bin: Seq<u8>, cursor: nat, s: Seq<char>, rest: Seq<u8>)
    requires
        cursor <= bin.len(),
        bin.subrange(cursor as int, bin.len() as int) == varchar_bytes(s) + rest,
        encode_utf8(s).len() <= u64::MAX,
    ensures
        ({
            let n = encode_utf8(s).len();
            let off = vlq_bytes(n).len();
            &&& vlq_decoded(bin.subrange(cursor as int, bin.len() as int)) == Some(
                (n as u64, off as usize),
            )
            &&& 1 <= off <= 10
            &&& cursor + off + n <= bin.len()
            &&& bin.subrange((cursor + off) as int, (cursor + off + n) as int) == encode_utf8(s)
            &&& bin.subrange((cursor + off + n) as int, bin.len() as int) == rest
            &&& valid_utf8(encode_utf8(s))
            &&& decode_utf8(encode_utf8(s)) == s
        }),
{
    let u = encode_utf8(s);
    let n = u.len();
    let q = vlq_bytes(n);
    lemma_vlq_roundtrip(n as u64, u + rest);
    assert(varchar_bytes(s) + rest =~= q + (u + rest));
    lemma_split(bin, cursor, q, u + rest);
    lemma_split(bin, cursor + q.len(), u, rest);
    lemma_utf8_roundtrip(s);
}

proof fn lemma_walk_varchars(bin: Seq<u8>, cursor: nat, ss: Seq<Seq<char>>, rest: Seq<u8>)
    requires
        cursor <= bin.len(),
        bin.subrange(cursor as int, bin.len() as int) == varchars_bytes(ss) + rest,
        forall|i: int| 0 <= i < ss.len() ==> #[trigger] encode_utf8(ss[i]).len() <= u64::MAX,
    ensures
        walk_varchars(bin, cursor, ss.len()) == Parsed::Done(ss),
    decreases ss.len(),
{
    if ss.len() == 0 {
        assert(ss =~= Seq::<Seq<char>>::empty());
    } else {
        let tail = ss.drop_first();
        lemma_varchars_bytes_front(ss);
        assert(varchars_bytes(ss) + rest =~= varchar_bytes(ss[0]) + (varchars_bytes(tail)
            + rest));
        lemma_read_varchar(bin, cursor, ss[0], varchars_bytes(tail) + rest);
        let n = encode_utf8(ss[0]).len();
        let off = vlq_bytes(n).len();
        assert forall|i: int| 0 <= i < tail.len() implies #[trigger] encode_utf8(tail[i]).len()
            <= u64::MAX by {
            assert(tail[i] == ss[i + 1]);
        }
        lemma_walk_varchars(bin, cursor + off + n, tail, rest);
        assert(seq![ss[0]] + tail =~= ss);
    }
}

/// An array written with anything after it reads back as it was written.
proof fn lemma_array_roundtrip(v: ValueView, rest: Seq<u8>)
    requires
        v is ArrayUint || v is ArrayVarchar,
        fits_wire(v),
    ensures
        spec_from_slice(HWMagic::Array, value_bytes(v) + rest) == Parsed::Done(v),
{
    let bin = value_bytes(v) + rest;
    let body = bin.subrange(1, bin.len() as int);
    match v {
        ValueView::ArrayUint(vs) => {
            let count = vlq_bytes(vs.len());
            assert(body =~= count + (uints_bytes(vs) + rest));
            assert(body.subrange(0, body.len() as int) =~= body);
            lemma_vlq_roundtrip(vs.len() as u64, uints_bytes(vs) + rest);
            lemma_split(body, 0, count, uints_bytes(vs) + rest);
            lemma_walk_uints(body, count.len(), vs, rest);
        },
        ValueView::ArrayVarchar(ss) => {
            let count = vlq_bytes(ss.len());
            assert(body =~= count + (varchars_bytes(ss) + rest));
            assert(body.subrange(0, body.len() as int) =~= body);
            lemma_vlq_roundtrip(ss.len() as u64, varchars_bytes(ss) + rest);
            lemma_split(body, 0, count, varchars_bytes(ss) + rest);
            lemma_walk_varchars(body, count.len(), ss, rest);
        },
        _ => {},
    }
}

/// A value read back from the bytes it is written as, under the tag of its
/// type, is the value itself: numbers from their four little-endian bytes,
/// arrays from their item tag, count and items, a file descriptor from no
/// bytes at all. (A string is written with its length in front, which reading
/// a lone value does not expect, and an object is not read back here.)
pub proof fn lemma_value_roundtrip(magic: HWMagic, v: ValueView)
    requires
        magic_matches(magic, v),
        fits_wire(v),
        !(v is Varchar),
        !(v is Object),
    ensures
        spec_from_slice(magic, value_bytes(v)) == Parsed::Done(v),
{
    match v {
        ValueView::Uint(x) => lemma_le_roundtrip(x),
        ValueView::Int(x) => {
            lemma_le_roundtrip(bits_of_i32(x));
            lemma_i32_bits(x);
        },
        ValueView::F32(x) => lemma_le_roundtrip(x),
        ValueView::Sequence(x) => lemma_le_roundtrip(x),
        ValueView::ObjectId(x) => lemma_le_roundtrip(x),
        ValueView::ArrayUint(_) | ValueView::ArrayVarchar(_) => {
            lemma_array_roundtrip(v, seq![]);
            assert(value_bytes(v) + seq![] =~= value_bytes(v));
        },
        _ => {},
    }
}

/// A string read back from its UTF-8 bytes is the string itself.
pub proof fn lemma_varchar_text_roundtrip(s: Seq<char>)
    ensures
        spec_from_slice(HWMagic::Varchar, encode_utf8(s)) == Parsed::Done(ValueView::Varchar(s)),
{
    lemma_utf8_roundtrip(s);
}

/// One payload of an object, read at `cursor`: it comes back, and reading
/// goes on where its bytes end.
proof fn lemma_object_step(bin: Seq<u8>, cursor: nat, p: PayloadView, after: Seq<u8>) -> (end:
    nat)
    requires
        cursor <= bin.len(),
        bin.subrange(cursor as int, bin.len() as int) == payload_bytes(p) + after,
        object_payload(p),
    ensures
        end <= bin.len(),
        bin.subrange(end as int, bin.len() as int) == after,
        object_from(bin, cursor) == prepend_all(seq![p], object_from(bin, end)),
{
    assert(payload_bytes(p) + after =~= seq![p.magic.code()] + (value_bytes(p.value) + after));
    lemma_split(bin, cursor, seq![p.magic.code()], value_bytes(p.value) + after);
    assert(bin[cursor as int] == p.magic.code());
    let c = cursor + 1;
    if let ValueView::Varchar(s) = p.value {
        lemma_read_varchar(bin, c, s, after);
        let n = encode_utf8(s).len();
        let off = vlq_bytes(n).len();
        (c + off + n) as nat
    } else {
        lemma_split(bin, c, value_bytes(p.value), after);
        lemma_value_roundtrip(p.magic, p.value);
        lemma_le_roundtrip(0);
        assert(value_bytes(p.value).len() == 4);
        c + 4
    }
}

proof fn lemma_object_from(bin: Seq<u8>, cursor: nat, ps: Seq<PayloadView>, rest: Seq<u8>)
    requires
        cursor <= bin.len(),
        bin.subrange(cursor as int, bin.len() as int) == payloads_bytes(ps) + seq![
            HWMagic::End.code(),
        ] + rest,
        forall|i: int| 0 <= i < ps.len() ==> #[trigger] object_payload(ps[i]),
    ensures
        object_from(bin, cursor) == Parsed::Done(ps),
    decreases ps.len(),
{
    if ps.len() == 0 {
        lemma_split(bin, cursor, seq![HWMagic::End.code()], rest);
        assert(bin[cursor as int] == 0);
        assert(ps =~= Seq::<PayloadView>::empty());
    } else {
        let p = ps[0];
        let tail = ps.drop_first();
        assert(object_payload(p));
        assert forall|i: int| 0 <= i < tail.len() implies #[trigger] object_payload(tail[i]) by {
            assert(tail[i] == ps[i + 1]);
        }
        lemma_payloads_bytes_front(ps);
        let after = payloads_bytes(tail) + seq![HWMagic::End.code()] + rest;
        assert(payloads_bytes(ps) + seq![HWMagic::End.code()] + rest =~= payload_bytes(p) + after);
        let end = lemma_object_step(bin, cursor, p, after);
        lemma_object_from(bin, end, tail, rest);
        assert(seq![p] + tail =~= ps);
    }
}

/// The payloads of an object, each a number or a string under the tag of its
/// type, written one after another and closed by the end tag, read back as
/// they were written, whatever follows the end tag.
pub proof fn lemma_object_roundtrip(ps: Seq<PayloadView>, rest: Seq<u8>)
    requires
        forall|i: int| 0 <= i < ps.len() ==> #[trigger] object_payload(ps[i]),
    ensures
        spec_decode_object(payloads_bytes(ps) + seq![HWMagic::End.code()] + rest) == Parsed::Done(
            ps,
        ),
{
    let bin = payloads_bytes(ps) + seq![HWMagic::End.code()] + rest;
    assert(bin.subrange(0, bin.len() as int) =~= bin);
    lemma_object_from(bin, 0, ps, rest);
}

/// A new-object message whose payloads are numbers and strings reads back
/// as it was written.
pub proof fn lemma_new_object_message_roundtrip(m: MessageView)
    requires
        m.kind == HWMessageKind::NewObject,
        forall|i: int| 0 <= i < m.payload.len() ==> #[trigger] object_payload(m.payload[i]),
    ensures
        spec_decode_message(message_bytes(m)) == Parsed::Done(m),
{
    let data = message_bytes(m);
    let tail = payloads_bytes(m.payload) + seq![HWMagic::End.code()];
    assert(data.subrange(1, data.len() as int) =~= tail + Seq::<u8>::empty());
    lemma_object_roundtrip(m.payload, Seq::<u8>::empty());
}

/// A call of method `method` on object `id` with numbers and strings as
/// arguments reads back as the object's id, the method and the arguments:
/// the object is read by its id alone.
pub proof fn lemma_generic_call_roundtrip(
    id: u32,
    name: Seq<char>,
    method: u32,
    args: Seq<PayloadView>,
)
    requires
        forall|i: int| 0 <= i < args.len() ==> #[trigger] object_payload(args[i]),
    ensures
        spec_decode_message(
            message_bytes(
                MessageView {
                    kind: HWMessageKind::Generic,
                    payload: seq![
                        PayloadView { magic: HWMagic::Object, value: ValueView::Object(id, name) },
                        uint_payload(method),
                    ] + args,
                },
            ),
        ) == Parsed::Done(
            MessageView {
                kind: HWMessageKind::Generic,
                payload: seq![
                    PayloadView { magic: HWMagic::ObjectId, value: ValueView::ObjectId(id) },
                    uint_payload(method),
                ] + args,
            },
        ),
{
    let obj = PayloadView { magic: HWMagic::Object, value: ValueView::Object(id, name) };
    let call = seq![uint_payload(method)] + args;
    let all = seq![obj, uint_payload(method)] + args;
    assert(all =~= seq![obj] + call);
    assert(all.drop_first() =~= call);
    lemma_payloads_bytes_front(all);
    lemma_le_roundtrip(id);
    let data = message_bytes(MessageView { kind: HWMessageKind::Generic, payload: all });
    let end = seq![HWMagic::End.code()];
    assert(data =~= seq![100u8, 0x22u8] + le_bytes(id) + (payloads_bytes(call) + end));
    assert(data.subrange(2, 6) =~= le_bytes(id));
    assert(data.subrange(6, data.len() as int) =~= payloads_bytes(call) + end + Seq::<u8>::empty());
    assert forall|i: int| 0 <= i < call.len() implies #[trigger] object_payload(call[i]) by {
        if i > 0 {
            assert(call[i] == args[i - 1]);
        }
    }
    lemma_object_roundtrip(call, Seq::<u8>::empty());
    let id_payload = PayloadView { magic: HWMagic::ObjectId, value: ValueView::ObjectId(id) };
    assert(seq![id_payload] + call =~= seq![id_payload, uint_payload(method)] + args);
}

/// A message of any kind but new-object and generic, whose one payload is an
/// array, reads back as it was written: the end tag after the array is not
/// taken for an item.
pub proof fn lemma_array_message_roundtrip(m: MessageView)
    requires
        m.kind != HWMessageKind::NewObject,
        m.kind != HWMessageKind::Generic,
        m.payload.len() == 1,
        m.payload[0].magic == HWMagic::Array,
        m.payload[0].value is ArrayUint || m.payload[0].value is ArrayVarchar,
        fits_wire(m.payload[0].value),
    ensures
        spec_decode_message(message_bytes(m)) == Parsed::Done(m),
{
    let p = m.payload[0];
    let end = seq![HWMagic::End.code()];
    assert(m.payload.drop_last() =~= Seq::<PayloadView>::empty());
    assert(payloads_bytes(m.payload.drop_last()) =~= Seq::<u8>::empty());
    let data = message_bytes(m);
    assert(payloads_bytes(m.payload) =~= payload_bytes(p));
    assert(data =~= seq![m.kind.code(), HWMagic::Array.code()] + (value_bytes(p.value) + end));
    assert(data.subrange(2, data.len() as int) =~= value_bytes(p.value) + end);
    lemma_array_roundtrip(p.value, end);
    assert(seq![p] =~= m.payload);
}

} // verus!
