//! Messages: a kind and a list of payloads, written as the kind byte, the
//! payloads and an end tag; and how messages and objects are read back.

use vstd::prelude::*;
use vstd::slice::slice_subrange;
use vstd::utf8::{decode_utf8, valid_utf8};

use crate::error::{agrees, result_agrees, HyprwireError, HyprwireErrorKind, Parsed};
use crate::payload::{payload_bytes, HWPayload, PayloadView};
use crate::types::{le_u32, prepend_all, spec_from_slice, HWMagic, HWMessageKind, HWValue, ValueView};
use crate::vlq::{vlq_decoded, VLQ};

verus! {

/// A message: its kind and its payloads.
pub struct HWMessage {
    pub kind: HWMessageKind,
    pub payload: Vec<HWPayload>,
}

/// A message as the contracts see it.
pub struct MessageView {
    pub kind: HWMessageKind,
    pub payload: Seq<PayloadView>,
}

impl View for HWMessage {
    type V = MessageView;

    open spec fn view(&self) -> MessageView {
        MessageView { kind: self.kind, payload: self.payload.deep_view() }
    }
}

impl DeepView for HWMessage {
    type V = MessageView;

    open spec fn deep_view(&self) -> MessageView {
        self@
    }
}

/// The payloads of `ps` on the wire, one after another.
pub open spec fn payloads_bytes(ps: Seq<PayloadView>) -> Seq<u8>
    decreases ps.len(),
{
    if ps.len() == 0 {
        seq![]
    } else {
        payloads_bytes(ps.drop_last()) + payload_bytes(ps.last())
    }
}

/// A message on the wire: its kind byte, its payloads and the end tag.
pub open spec fn message_bytes(m: MessageView) -> Seq<u8> {
    seq![m.kind.code()] + payloads_bytes(m.payload) + seq![HWMagic::End.code()]
}

/// A string payload.
pub open spec fn varchar_payload(s: Seq<char>) -> PayloadView {
    PayloadView { magic: HWMagic::Varchar, value: ValueView::Varchar(s) }
}

/// An unsigned integer payload.
pub open spec fn uint_payload(v: u32) -> PayloadView {
    PayloadView { magic: HWMagic::Uint, value: ValueView::Uint(v) }
}

/// The greeting a client opens with.
pub open spec fn sup_view() -> MessageView {
    MessageView { kind: HWMessageKind::Sup, payload: seq![varchar_payload("VAX"@)] }
}

/// The acknowledgement of protocol version `version`.
pub open spec fn hs_ack_view(version: u32) -> MessageView {
    MessageView { kind: HWMessageKind::HandshakeAck, payload: seq![uint_payload(version)] }
}

/// The binding of `protocol` at `version` under sequence number `seq`.
pub open spec fn bind_protocol_view(seq: u32, protocol: Seq<char>, version: u32) -> MessageView {
    MessageView {
        kind: HWMessageKind::BindProtocol,
        payload: seq![uint_payload(seq), varchar_payload(protocol), uint_payload(version)],
    }
}

/// The call of method `method_id` on object `object_id` with `args`.
pub open spec fn generic_view(object_id: u32, method_id: u32, args: Seq<PayloadView>) -> MessageView {
    MessageView {
        kind: HWMessageKind::Generic,
        payload: seq![
            PayloadView {
                magic: HWMagic::Object,
                value: ValueView::Object(object_id, Seq::<char>::empty()),
            },
            uint_payload(method_id),
        ] + args,
    }
}

/// A call message carries, in order, the object, the method number and every
/// argument, each at its place: nothing is dropped, added or reordered.
pub proof fn lemma_generic_call_carries_all_args(
    object_id: u32,
    method_id: u32,
    args: Seq<PayloadView>,
)
    ensures
        generic_view(object_id, method_id, args).kind == HWMessageKind::Generic,
        generic_view(object_id, method_id, args).payload.len() == 2 + args.len(),
        generic_view(object_id, method_id, args).payload[0] == (PayloadView {
            magic: HWMagic::Object,
            value: ValueView::Object(object_id, Seq::<char>::empty()),
        }),
        generic_view(object_id, method_id, args).payload[1] == uint_payload(method_id),
        forall|i: int|
            0 <= i < args.len() ==> #[trigger] generic_view(object_id, method_id, args).payload[2
                + i] == args[i],
{
}

/// Reads the payloads of an object from `cursor` on, up to the end tag or
/// the end of the bytes. A string is a length quantity and UTF-8 bytes;
/// every other tag is followed by four bytes read as its value.
pub open spec fn object_from(bin: Seq<u8>, cursor: nat) -> Parsed<Seq<PayloadView>>
    decreases bin.len() - cursor,
{
    if cursor >= bin.len() {
        Parsed::Done(seq![])
    } else {
        match HWMagic::from_code(bin[cursor as int]) {
            None => Parsed::Fails(HyprwireErrorKind::MagicUnknownKey),
            Some(HWMagic::End) => Parsed::Done(seq![]),
            Some(HWMagic::Varchar) => {
                let c = cursor + 1;
                match vlq_decoded(bin.subrange(c as int, bin.len() as int)) {
                    None => Parsed::Fails(HyprwireErrorKind::DecodeObjectVlq),
                    Some((n, off)) => {
                        let start = c + off;
                        let end = start + n;
                        if end > bin.len() {
                            Parsed::Panics
                        } else if !valid_utf8(bin.subrange(start as int, end as int)) {
                            Parsed::Fails(HyprwireErrorKind::DecodeObjectVarChar)
                        } else {
                            prepend_all(
                                seq![
                                    varchar_payload(
                                        decode_utf8(bin.subrange(start as int, end as int)),
                                    ),
                                ],
                                object_from(bin, end as nat),
                            )
                        }
                    },
                }
            },
            Some(m) => {
                let c = cursor + 1;
                if c + 4 > bin.len() {
                    Parsed::Panics
                } else {
                    match spec_from_slice(m, bin.subrange(c as int, (c + 4) as int)) {
                        Parsed::Done(v) => prepend_all(
                            seq![PayloadView { magic: m, value: v }],
                            object_from(bin, c + 4),
                        ),
                        Parsed::Fails(k) => Parsed::Fails(k),
                        Parsed::Panics => Parsed::Panics,
                    }
                }
            },
        }
    }
}

/// Reads the payloads of an object from all of `bin`.
pub open spec fn spec_decode_object(bin: Seq<u8>) -> Parsed<Seq<PayloadView>> {
    object_from(bin, 0)
}

/// The byte at index `i` of a read that filled `data` into a zeroed
/// buffer: zero past what was read.
pub open spec fn byte_at(data: Seq<u8>, i: int) -> u8 {
    if 0 <= i < data.len() {
        data[i]
    } else {
        0
    }
}

/// Reads a message from the bytes of one read. A new object is a list of
/// payloads; a generic message is an object id in bytes 2 to 6 followed by
/// payloads; a message of any other kind is one value of the type given by
/// its second byte, made of all the bytes after it.
pub open spec fn spec_decode_message(data: Seq<u8>) -> Parsed<MessageView> {
    match HWMessageKind::from_code(byte_at(data, 0)) {
        None => Parsed::Fails(HyprwireErrorKind::MessageKindUnknownKey),
        Some(HWMessageKind::NewObject) => match spec_decode_object(
            data.subrange(1, data.len() as int),
        ) {
            Parsed::Done(ps) => Parsed::Done(
                MessageView { kind: HWMessageKind::NewObject, payload: ps },
            ),
            Parsed::Fails(k) => Parsed::Fails(k),
            Parsed::Panics => Parsed::Panics,
        },
        Some(HWMessageKind::Generic) => if data.len() <= 6 {
            Parsed::Fails(HyprwireErrorKind::WIP)
        } else {
            let id = PayloadView {
                magic: HWMagic::ObjectId,
                value: ValueView::ObjectId(le_u32(data.subrange(2, 6))),
            };
            match spec_decode_object(data.subrange(6, data.len() as int)) {
                Parsed::Done(ps) => Parsed::Done(
                    MessageView { kind: HWMessageKind::Generic, payload: seq![id] + ps },
                ),
                Parsed::Fails(k) => Parsed::Fails(k),
                Parsed::Panics => Parsed::Panics,
            }
        },
        Some(k) => match HWMagic::from_code(byte_at(data, 1)) {
            None => Parsed::Fails(HyprwireErrorKind::MagicUnknownKey),
            Some(m) => if data.len() < 2 {
                Parsed::Panics
            } else {
                match spec_from_slice(m, data.subrange(2, data.len() as int)) {
                    Parsed::Done(v) => Parsed::Done(
                        MessageView { kind: k, payload: seq![PayloadView { magic: m, value: v }] },
                    ),
                    Parsed::Fails(e) => Parsed::Fails(e),
                    Parsed::Panics => Parsed::Panics,
                }
            },
        },
    }
}

impl HWMessage {
    /// The message on the wire: its kind byte, each payload, and the end tag.
    pub fn finalize(&self) -> (buf: Vec<u8>)
        ensures
            buf@ == message_bytes(self@),
    {
        let mut buf: Vec<u8> = Vec::new();
        buf.push(self.kind.to_u8());
        let ghost ps = self.payload.deep_view();
        let mut i: usize = 0;
        while i < self.payload.len()
            invariant
                i <= self.payload@.len(),
                ps == self.payload.deep_view(),
                buf@ == seq![self.kind.code()] + payloads_bytes(ps.take(i as int)),
            decreases self.payload@.len() - i,
        {
            let mut item = self.payload[i].encode();
            assert(ps.take(i + 1).drop_last() =~= ps.take(i as int));
            assert(ps.take(i + 1).last() == self.payload@[i as int]@);
            buf.append(&mut item);
            assert(buf@ =~= seq![self.kind.code()] + payloads_bytes(ps.take(i + 1)));
            i = i + 1;
        }
        assert(ps.take(self.payload@.len() as int) =~= ps);
        buf.push(HWMagic::End.to_u8());
        buf
    }

    /// The greeting a client opens with.
    pub fn template_sup() -> (r: Self)
        ensures
            r@ == sup_view(),
    {
        let payload = vec![HWPayload::compose_varchar(String::from_str("VAX"))];
        let r = HWMessage { kind: HWMessageKind::Sup, payload };
        assert(r@.payload =~= seq![varchar_payload("VAX"@)]);
        r
    }

    /// Acknowledges the protocol version `version`.
    pub fn template_hs_ack(version: u32) -> (r: Self)
        ensures
            r@ == hs_ack_view(version),
    {
        let payload = vec![HWPayload::compose_uint(version)];
        let r = HWMessage { kind: HWMessageKind::HandshakeAck, payload };
        assert(r@.payload =~= seq![uint_payload(version)]);
        r
    }

    /// Binds `protocol` at `version`, under the sequence number `seq`.
    pub fn template_bind_protocol(seq: u32, protocol: &str, version: u32) -> (r: Self)
        ensures
            r@ == bind_protocol_view(seq, protocol@, version),
    {
        let payload = vec![
            HWPayload::compose_uint(seq),
            HWPayload::compose_varchar(String::from_str(protocol)),
            HWPayload::compose_uint(version),
        ];
        let r = HWMessage { kind: HWMessageKind::BindProtocol, payload };
        assert(r@.payload =~= seq![
            uint_payload(seq),
            varchar_payload(protocol@),
            uint_payload(version),
        ]);
        r
    }

    /// Calls method `method_id` of object `object_id` with `args`.
    pub fn template_generic(object_id: u32, method_id: u32, args: Vec<HWPayload>) -> (r: Self)
        ensures
            r@ == generic_view(object_id, method_id, args.deep_view()),
            r@.payload.len() == 2 + args.deep_view().len(),
            forall|i: int|
                0 <= i < args.deep_view().len() ==> #[trigger] r@.payload[2 + i]
                    == args.deep_view()[i],
    {
        let mut payload = vec![
            HWPayload::compose_object(object_id, String::new()),
            HWPayload::compose_uint(method_id),
        ];
        let ghost head = payload.deep_view();
        assert(head =~= seq![
            PayloadView {
                magic: HWMagic::Object,
                value: ValueView::Object(object_id, Seq::<char>::empty()),
            },
            uint_payload(method_id),
        ]);
        let mut args = args;
        let ghost args_view = args.deep_view();
        payload.append(&mut args);
        assert(payload.deep_view() =~= head + args_view);
        HWMessage { kind: HWMessageKind::Generic, payload }
    }

    pub(crate) fn decode_object_outcome(bin: &[u8]) -> (r: Option<
        Result<Vec<HWPayload>, HyprwireError>,
    >)
        ensures
            agrees(r, spec_decode_object(bin@)),
    {
        let mut payload: Vec<HWPayload> = Vec::new();
        let mut cursor: usize = 0;
        while cursor < bin.len()
            invariant
                cursor <= bin@.len(),
                spec_decode_object(bin@) == prepend_all(
                    payload.deep_view(),
                    object_from(bin@, cursor as nat),
                ),
            decreases bin@.len() - cursor,
        {
            let magic = match HWMagic::match_u8(&bin[cursor]) {
                Ok(m) => m,
                Err(e) => {
                    return Some(Err(e));
                },
            };
            if magic == HWMagic::End {
                assert(payload.deep_view() + seq![] =~= payload.deep_view());
                return Some(Ok(payload));
            }
            let ghost before = payload.deep_view();
            cursor = cursor + 1;
            let offset: usize;
            match magic {
                HWMagic::Varchar => {
                    let (data_len, vlq_offset) = match VLQ::decode(
                        slice_subrange(bin, cursor, bin.len()),
                    ) {
                        Some(d) => d,
                        None => {
                            return Some(Err(HyprwireError::DecodeObjectVlq));
                        },
                    };
                    let start = cursor + vlq_offset;
                    if data_len > (bin.len() - start) as u64 {
                        return None;
                    }
                    let end = start + data_len as usize;
                    let value = match HWValue::decode_from_slice(
                        magic,
                        slice_subrange(bin, start, end),
                    ) {
                        Some(Ok(v)) => v,
                        _ => {
                            return Some(Err(HyprwireError::DecodeObjectVarChar));
                        },
                    };
                    payload.push(HWPayload { magic, value });
                    offset = vlq_offset + data_len as usize;
                },
                _ => {
                    if bin.len() - cursor < 4 {
                        return None;
                    }
                    let value = match HWValue::decode_from_slice(
                        magic,
                        slice_subrange(bin, cursor, cursor + 4),
                    ) {
                        Some(Ok(v)) => v,
                        Some(Err(e)) => {
                            return Some(Err(e));
                        },
                        None => {
                            return None;
                        },
                    };
                    payload.push(HWPayload { magic, value });
                    offset = 4;
                },
            }
            proof {
                let p = payload@.last()@;
                assert(payload.deep_view() =~= before.push(p));
                crate::types::lemma_prepend_all_push(
                    before,
                    p,
                    object_from(bin@, (cursor + offset) as nat),
                );
            }
            cursor = cursor + offset;
        }
        assert(payload.deep_view() + seq![] =~= payload.deep_view());
        Some(Ok(payload))
    }

    /// Reads the payloads of an object: tagged values one after another, up
    /// to an end tag or the end of `bin`.
    pub fn decode_object(bin: &[u8]) -> (r: Result<Vec<HWPayload>, HyprwireError>)
        requires
            !(spec_decode_object(bin@) is Panics),
        ensures
            result_agrees(r, spec_decode_object(bin@)),
    {
        match Self::decode_object_outcome(bin) {
            Some(r) => r,
            None => vstd::pervasive::unreached(),
        }
    }

    pub(crate) fn decode_outcome(data: &[u8]) -> (r: Option<Result<HWMessage, HyprwireError>>)
        ensures
            agrees(r, spec_decode_message(data@)),
    {
        let first: u8 = if data.len() > 0 {
            data[0]
        } else {
            0
        };
        let kind = match HWMessageKind::match_u8(&first) {
            Ok(k) => k,
            Err(e) => {
                return Some(Err(e));
            },
        };
        match kind {
            HWMessageKind::NewObject => {
                match Self::decode_object_outcome(slice_subrange(data, 1, data.len())) {
                    Some(Ok(payload)) => Some(Ok(HWMessage { kind, payload })),
                    Some(Err(e)) => Some(Err(e)),
                    None => None,
                }
            },
            HWMessageKind::Generic => {
                if data.len() <= 6 {
                    return Some(Err(HyprwireError::WIP));
                }
                let id_value = match HWValue::decode_from_slice(
                    HWMagic::ObjectId,
                    slice_subrange(data, 2, 6),
                ) {
                    Some(Ok(v)) => v,
                    Some(Err(e)) => {
                        return Some(Err(e));
                    },
                    None => {
                        return None;
                    },
                };
                let object_id = HWPayload { magic: HWMagic::ObjectId, value: id_value };
                match Self::decode_object_outcome(slice_subrange(data, 6, data.len())) {
                    Some(Ok(decoded)) => {
                        let mut result: Vec<HWPayload> = Vec::new();
                        result.push(object_id);
                        let ghost head = result.deep_view();
                        assert(head =~= seq![object_id@]);
                        let ghost tail = decoded.deep_view();
                        let mut decoded = decoded;
                        result.append(&mut decoded);
                        assert(result.deep_view() =~= head + tail);
                        Some(Ok(HWMessage { kind, payload: result }))
                    },
                    Some(Err(e)) => Some(Err(e)),
                    None => None,
                }
            },
            _ => {
                let second: u8 = if data.len() > 1 {
                    data[1]
                } else {
                    0
                };
                let magic = match HWMagic::match_u8(&second) {
                    Ok(m) => m,
                    Err(e) => {
                        return Some(Err(e));
                    },
                };
                if data.len() < 2 {
                    return None;
                }
                match HWValue::decode_from_slice(magic, slice_subrange(data, 2, data.len())) {
                    Some(Ok(val)) => {
                        let payload = vec![HWPayload::from_magic_value(magic, val)];
                        let r = HWMessage { kind, payload };
                        assert(r@.payload =~= seq![PayloadView { magic, value: val@ }]);
                        Some(Ok(r))
                    },
                    Some(Err(e)) => Some(Err(e)),
                    None => None,
                }
            },
        }
    }

    /// Reads a message from `data`, the bytes of one read from the socket
    /// (into a zeroed buffer: a byte past `data` reads as zero).
    pub fn decode(data: &[u8]) -> (r: Result<HWMessage, HyprwireError>)
        requires
            !(spec_decode_message(data@) is Panics),
        ensures
            result_agrees(r, spec_decode_message(data@)),
    {
        match Self::decode_outcome(data) {
            Some(r) => r,
            None => vstd::pervasive::unreached(),
        }
    }
}

} // verus!
