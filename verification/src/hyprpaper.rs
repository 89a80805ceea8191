//! A Hyprpaper client: the decisions of the handshake and of setting a
//! wallpaper, as a session that says what to send and reacts to each reply.
//! The socket itself stays with the caller.

use vstd::prelude::*;

use crate::error::{HyprwireError, HyprwireErrorKind, Parsed};
use crate::message::{
    bind_protocol_view, generic_view, hs_ack_view, message_bytes, spec_decode_message, sup_view,
    varchar_payload, HWMessage, MessageView,
};
use crate::payload::{HWPayload, PayloadView};
use crate::types::{HWMagic, HWMessageKind, HWValue, ValueView};

verus! {

/// What the handshake settles: the next sequence number, the manager object
/// and the wallpaper object.
#[derive(Clone, Copy, Debug, PartialEq, Eq, Structural)]
pub struct HyprpaperIPCHandshake {
    pub seq: u32,
    pub manager_id: u32,
    pub wallpaper_id: u32,
}

/// Methods of Hyprwire objects.
#[derive(Clone, Copy, Debug, PartialEq, Eq, Structural)]
pub enum HyprwireMethodId {
    GetWallpaperObject,
}

impl HyprwireMethodId {
    /// The method's number.
    pub open spec fn code(self) -> u32 {
        match self {
            Self::GetWallpaperObject => 0,
        }
    }

    /// The method's number.
    pub fn to_u32(&self) -> (r: u32)
        ensures
            r == self.code(),
    {
        match self {
            Self::GetWallpaperObject => 0,
        }
    }
}

/// Methods of the Hyprpaper wallpaper object.
#[derive(Clone, Copy, Debug, PartialEq, Eq, Structural)]
pub enum HyprpaperMethodId {
    SetWallpaperPath,
    SetTargetMonitor,
    Apply,
}

impl HyprpaperMethodId {
    /// The method's number.
    pub open spec fn code(self) -> u32 {
        match self {
            Self::SetWallpaperPath => 0,
            Self::SetTargetMonitor => 2,
            Self::Apply => 3,
        }
    }

    /// The method's number.
    pub fn to_u32(&self) -> (r: u32)
        ensures
            r == self.code(),
    {
        match self {
            Self::SetWallpaperPath => 0,
            Self::SetTargetMonitor => 2,
            Self::Apply => 3,
        }
    }
}

/// The index of the first `@` in `s` at or after `from`.
pub open spec fn first_at_sign(s: Seq<char>, from: nat) -> Option<nat>
    decreases s.len() - from,
{
    if from >= s.len() {
        None
    } else if s[from as int] == '@' {
        Some(from)
    } else {
        first_at_sign(s, from + 1)
    }
}

/// `s` cut at its first `@`: what comes before and what comes after.
pub open spec fn split_at_sign(s: Seq<char>) -> Option<(Seq<char>, Seq<char>)> {
    match first_at_sign(s, 0) {
        Some(i) => Some((s.take(i as int), s.skip((i + 1) as int))),
        None => None,
    }
}

/// Every character of `s` is an ASCII digit.
pub open spec fn all_digits(s: Seq<char>) -> bool {
    forall|i: int| 0 <= i < s.len() ==> '0' <= #[trigger] s[i] <= '9'
}

/// The number that the decimal digits `s` stand for.
pub open spec fn digits_value(s: Seq<char>) -> nat
    decreases s.len(),
{
    if s.len() == 0 {
        0
    } else {
        digits_value(s.drop_last()) * 10 + ((s.last() as u32) - ('0' as u32)) as nat
    }
}

/// The unsigned 32-bit number that `s` spells: an optional `+` and one or
/// more decimal digits, of a value that fits.
pub open spec fn parse_u32(s: Seq<char>) -> Option<u32> {
    let body = if s.len() > 0 && s[0] == '+' {
        s.skip(1)
    } else {
        s
    };
    if body.len() > 0 && all_digits(body) && digits_value(body) <= u32::MAX {
        Some(digits_value(body) as u32)
    } else {
        None
    }
}

/// The version that a client protocol string such as `name@2` asks for.
pub open spec fn spec_requested_version(client: Seq<char>) -> Result<u32, HyprwireErrorKind> {
    match split_at_sign(client) {
        None => Err(HyprwireErrorKind::HyprpaperGetProtocolInvalidVersionStr),
        Some((_, version)) => match parse_u32(version) {
            Some(v) => Ok(v),
            None => Err(HyprwireErrorKind::HyprpaperGetProtocolUintParseFailure),
        },
    }
}

/// The server's list of Hyprwire versions, checked for the client's.
pub open spec fn spec_hw_protocol(m: MessageView, client_version: u32) -> Result<
    u32,
    HyprwireErrorKind,
> {
    if m.kind != HWMessageKind::HandshakeBegin || m.payload.len() == 0 {
        Err(HyprwireErrorKind::SocketProtocolError)
    } else {
        match m.payload[0].value {
            ValueView::ArrayUint(items) => if items.contains(client_version) {
                Ok(client_version)
            } else {
                Err(HyprwireErrorKind::SocketProtocolError)
            },
            _ => Err(HyprwireErrorKind::SocketProtocolError),
        }
    }
}

/// A payload is a list of strings that holds `client`.
pub open spec fn offers_protocol(p: PayloadView, client: Seq<char>) -> bool {
    p.value matches ValueView::ArrayVarchar(items) && items.contains(client)
}

/// The server's list of protocols, checked for the client's.
pub open spec fn spec_paper_protocol(m: MessageView, client: Seq<char>, requested: u32) -> Result<
    u32,
    HyprwireErrorKind,
> {
    if m.kind != HWMessageKind::HandshakeProtocols {
        Err(HyprwireErrorKind::SocketProtocolError)
    } else if exists|i: int| 0 <= i < m.payload.len() && #[trigger] offers_protocol(m.payload[i], client) {
        Ok(requested)
    } else {
        Err(HyprwireErrorKind::SocketProtocolError)
    }
}

/// The id of the object that a new-object message announces, as its first
/// payload, an unsigned integer.
pub open spec fn spec_new_object_id(
    m: MessageView,
    no_payload: HyprwireErrorKind,
    not_an_id: HyprwireErrorKind,
) -> Result<u32, HyprwireErrorKind> {
    if m.kind != HWMessageKind::NewObject {
        Err(HyprwireErrorKind::SocketProtocolError)
    } else if m.payload.len() == 0 {
        Err(no_payload)
    } else {
        match m.payload[0].value {
            ValueView::Uint(id) => Ok(id),
            _ => Err(not_an_id),
        }
    }
}

/// The Hyprwire protocol version this client speaks.
pub open spec fn hyprwire_version() -> u32 {
    1
}

/// The Hyprpaper protocol this client asks for, with its version.
pub open spec fn paper_protocol() -> Seq<char> {
    "hyprpaper_core@2"@
}

/// The Hyprpaper protocol this client binds.
pub open spec fn paper_protocol_name() -> Seq<char> {
    "hyprpaper_core"@
}

/// A Hyprwire version offered anywhere in the server's list is agreed on,
/// whatever its place in the list; a version that is not offered, a first
/// payload that is no list of integers, or a reply of another kind is
/// refused as a protocol error.
pub proof fn lemma_hw_protocol_accepts_any_offered(m: MessageView, client_version: u32)
    ensures
        forall|j: int|
            m.kind == HWMessageKind::HandshakeBegin && m.payload.len() > 0
                && m.payload[0].value is ArrayUint && 0 <= j
                < m.payload[0].value->ArrayUint_0.len()
                && #[trigger] m.payload[0].value->ArrayUint_0[j] == client_version
                ==> spec_hw_protocol(m, client_version) == Ok::<u32, HyprwireErrorKind>(
                client_version,
            ),
        (m.kind == HWMessageKind::HandshakeBegin && m.payload.len() > 0
            && m.payload[0].value is ArrayUint && forall|j: int|
            0 <= j < m.payload[0].value->ArrayUint_0.len()
                ==> #[trigger] m.payload[0].value->ArrayUint_0[j] != client_version)
            ==> spec_hw_protocol(m, client_version) == Err::<u32, HyprwireErrorKind>(
            HyprwireErrorKind::SocketProtocolError,
        ),
        m.kind != HWMessageKind::HandshakeBegin || m.payload.len() == 0 || !(
        m.payload[0].value is ArrayUint) ==> spec_hw_protocol(m, client_version) == Err::<
            u32,
            HyprwireErrorKind,
        >(HyprwireErrorKind::SocketProtocolError),
        spec_hw_protocol(m, client_version) matches Ok(v) ==> v == client_version,
{
    assert forall|j: int|
        m.kind == HWMessageKind::HandshakeBegin && m.payload.len() > 0
            && m.payload[0].value is ArrayUint && 0 <= j < m.payload[0].value->ArrayUint_0.len()
            && #[trigger] m.payload[0].value->ArrayUint_0[j] == client_version implies spec_hw_protocol(
        m,
        client_version,
    ) == Ok::<u32, HyprwireErrorKind>(client_version) by {
        assert(m.payload[0].value->ArrayUint_0.contains(client_version));
    }
}

/// The client's protocol offered in any list of the server's reply, at any
/// place in that list, is agreed on at the requested version; when no list
/// offers it, or the reply is of another kind, it is refused as a protocol
/// error.
pub proof fn lemma_paper_protocol_accepts_any_offered(
    m: MessageView,
    client: Seq<char>,
    requested: u32,
)
    ensures
        forall|i: int, j: int|
            m.kind == HWMessageKind::HandshakeProtocols && 0 <= i < m.payload.len()
                && m.payload[i].value is ArrayVarchar && 0 <= j
                < m.payload[i].value->ArrayVarchar_0.len()
                && #[trigger] m.payload[i].value->ArrayVarchar_0[j] == client
                ==> spec_paper_protocol(m, client, requested) == Ok::<u32, HyprwireErrorKind>(
                requested,
            ),
        (m.kind != HWMessageKind::HandshakeProtocols || forall|i: int, j: int|
            0 <= i < m.payload.len() && m.payload[i].value is ArrayVarchar && 0 <= j
                < m.payload[i].value->ArrayVarchar_0.len()
                ==> #[trigger] m.payload[i].value->ArrayVarchar_0[j] != client)
            ==> spec_paper_protocol(m, client, requested) == Err::<u32, HyprwireErrorKind>(
            HyprwireErrorKind::SocketProtocolError,
        ),
        spec_paper_protocol(m, client, requested) matches Ok(v) ==> v == requested,
{
    assert forall|i: int, j: int|
        m.kind == HWMessageKind::HandshakeProtocols && 0 <= i < m.payload.len()
            && m.payload[i].value is ArrayVarchar && 0 <= j < m.payload[i].value->ArrayVarchar_0.len()
            && #[trigger] m.payload[i].value->ArrayVarchar_0[j] == client implies spec_paper_protocol(
        m,
        client,
        requested,
    ) == Ok::<u32, HyprwireErrorKind>(requested) by {
        assert(m.payload[i].value->ArrayVarchar_0.contains(client));
        assert(offers_protocol(m.payload[i], client));
    }
    if m.kind == HWMessageKind::HandshakeProtocols && (forall|i: int, j: int|
        0 <= i < m.payload.len() && m.payload[i].value is ArrayVarchar && 0 <= j
            < m.payload[i].value->ArrayVarchar_0.len()
            ==> #[trigger] m.payload[i].value->ArrayVarchar_0[j] != client) {
        assert forall|i: int| 0 <= i < m.payload.len() implies !#[trigger] offers_protocol(
            m.payload[i],
            client,
        ) by {
            if offers_protocol(m.payload[i], client) {
                let items = m.payload[i].value->ArrayVarchar_0;
                let j = choose|j: int| 0 <= j < items.len() && items[j] == client;
                assert(m.payload[i].value->ArrayVarchar_0[j] != client);
            }
        }
    }
}

/// The object a new-object reply announces is its first payload, whatever
/// payloads follow: an unsigned integer there is the id; a reply with no
/// payload, a first payload of another type, or a reply of another kind
/// gives the matching error.
pub proof fn lemma_new_object_id_is_first_payload(
    m: MessageView,
    no_payload: HyprwireErrorKind,
    not_an_id: HyprwireErrorKind,
)
    ensures
        m.kind == HWMessageKind::NewObject && m.payload.len() > 0 && m.payload[0].value is Uint
            ==> spec_new_object_id(m, no_payload, not_an_id) == Ok::<u32, HyprwireErrorKind>(
            m.payload[0].value->Uint_0,
        ),
        m.kind != HWMessageKind::NewObject ==> spec_new_object_id(m, no_payload, not_an_id) == Err::<
            u32,
            HyprwireErrorKind,
        >(HyprwireErrorKind::SocketProtocolError),
        m.kind == HWMessageKind::NewObject && m.payload.len() == 0 ==> spec_new_object_id(
            m,
            no_payload,
            not_an_id,
        ) == Err::<u32, HyprwireErrorKind>(no_payload),
        m.kind == HWMessageKind::NewObject && m.payload.len() > 0 && !(m.payload[0].value is Uint)
            ==> spec_new_object_id(m, no_payload, not_an_id) == Err::<u32, HyprwireErrorKind>(
            not_an_id,
        ),
        spec_new_object_id(m, no_payload, not_an_id) matches Ok(id) ==> m.payload.len() > 0
            && m.payload[0].value == ValueView::Uint(id),
{
}

impl HyprpaperIPC {
    /// The manager object that the server announces after the binding.
    pub fn get_manager_object(manager_obj: &HWMessage) -> (r: Result<u32, HyprwireError>)
        ensures
            match spec_new_object_id(
                manager_obj@,
                HyprwireErrorKind::HyprpaperGetManagerObjNoPayload,
                HyprwireErrorKind::HyprpaperGetManagerObjId,
            ) {
                Ok(id) => r matches Ok(x) && x == id,
                Err(k) => r matches Err(e) && e@ == k,
            },
    {
        if manager_obj.kind != HWMessageKind::NewObject {
            return Err(HyprwireError::SocketProtocolError);
        }
        if manager_obj.payload.len() == 0 {
            return Err(HyprwireError::HyprpaperGetManagerObjNoPayload);
        }
        match manager_obj.payload[0].value {
            HWValue::Uint(id) => Ok(id),
            _ => Err(HyprwireError::HyprpaperGetManagerObjId),
        }
    }

    /// The wallpaper object that the server announces on request.
    pub fn get_wallpaper_object(expect_obj: &HWMessage) -> (r: Result<u32, HyprwireError>)
        ensures
            match spec_new_object_id(
                expect_obj@,
                HyprwireErrorKind::HyprpaperGetWallpaperObjNoPayload,
                HyprwireErrorKind::HyprpaperGetWallpaperObjId,
            ) {
                Ok(id) => r matches Ok(x) && x == id,
                Err(k) => r matches Err(e) && e@ == k,
            },
    {
        if expect_obj.kind != HWMessageKind::NewObject {
            return Err(HyprwireError::SocketProtocolError);
        }
        if expect_obj.payload.len() == 0 {
            return Err(HyprwireError::HyprpaperGetWallpaperObjNoPayload);
        }
        match expect_obj.payload[0].value {
            HWValue::Uint(id) => Ok(id),
            _ => Err(HyprwireError::HyprpaperGetWallpaperObjId),
        }
    }

    /// Checks that the server's list of Hyprwire versions holds
    /// `client_version`, and agrees on it.
    pub fn get_hw_protocol(expect_supported_versions: &HWMessage, client_version: u32) -> (r:
        Result<u32, HyprwireError>)
        ensures
            match spec_hw_protocol(expect_supported_versions@, client_version) {
                Ok(v) => r matches Ok(x) && x == v,
                Err(k) => r matches Err(e) && e@ == k,
            },
    {
        if expect_supported_versions.kind != HWMessageKind::HandshakeBegin {
            return Err(HyprwireError::SocketProtocolError);
        }
        if expect_supported_versions.payload.len() == 0 {
            return Err(HyprwireError::SocketProtocolError);
        }
        match &expect_supported_versions.payload[0].value {
            HWValue::ArrayUint(items) => {
                let mut i: usize = 0;
                while i < items.len()
                    invariant
                        i <= items@.len(),
                        expect_supported_versions.kind == HWMessageKind::HandshakeBegin,
                        expect_supported_versions.payload@.len() > 0,
                        expect_supported_versions.payload@[0].value == HWValue::ArrayUint(*items),
                        forall|j: int| 0 <= j < i ==> items@[j] != client_version,
                    decreases items@.len() - i,
                {
                    if items[i] == client_version {
                        assert(expect_supported_versions@.payload[0].value == ValueView::ArrayUint(
                            items@,
                        ));
                        assert(items@[i as int] == client_version);
                        assert(items@.contains(client_version));
                        return Ok(client_version);
                    }
                    i = i + 1;
                }
            },
            _ => {},
        }
        assert(expect_supported_versions@.payload[0] == expect_supported_versions.payload@[0]@);
        Err(HyprwireError::SocketProtocolError)
    }

    /// The version that `client_paper_version`, such as `name@2`, asks for:
    /// the number after its first `@`.
    pub fn requested_paper_version(client_paper_version: &str) -> (r: Result<u32, HyprwireError>)
        ensures
            match spec_requested_version(client_paper_version@) {
                Ok(v) => r matches Ok(x) && x == v,
                Err(k) => r matches Err(e) && e@ == k,
            },
    {
        match split_once_at_sign(client_paper_version) {
            None => Err(HyprwireError::HyprpaperGetProtocolInvalidVersionStr),
            Some((_, version_str)) => match parse_decimal_u32(version_str) {
                Some(v) => Ok(v),
                None => Err(HyprwireError::HyprpaperGetProtocolUintParseFailure),
            },
        }
    }

    /// Checks that one of the server's protocol lists holds
    /// `client_paper_version`, and agrees on `requested_version`.
    pub fn get_paper_protocol(
        expect_supported_versions: &HWMessage,
        client_paper_version: &str,
        requested_version: u32,
    ) -> (r: Result<u32, HyprwireError>)
        ensures
            match spec_paper_protocol(
                expect_supported_versions@,
                client_paper_version@,
                requested_version,
            ) {
                Ok(v) => r matches Ok(x) && x == v,
                Err(k) => r matches Err(e) && e@ == k,
            },
    {
        if expect_supported_versions.kind != HWMessageKind::HandshakeProtocols {
            return Err(HyprwireError::SocketProtocolError);
        }
        let client = String::from_str(client_paper_version);
        let payload = &expect_supported_versions.payload;
        let ghost ps = payload.deep_view();
        let mut i: usize = 0;
        while i < payload.len()
            invariant
                i <= payload@.len(),
                ps == payload.deep_view(),
                ps == expect_supported_versions@.payload,
                expect_supported_versions.kind == HWMessageKind::HandshakeProtocols,
                client@ == client_paper_version@,
                forall|j: int| 0 <= j < i ==> !#[trigger] offers_protocol(ps[j], client@),
            decreases payload@.len() - i,
        {
            match &payload[i].value {
                HWValue::ArrayVarchar(items) => {
                    let ghost strs = items.deep_view();
                    let mut k: usize = 0;
                    while k < items.len()
                        invariant
                            i < payload@.len(),
                            ps == payload.deep_view(),
                            ps == expect_supported_versions@.payload,
                            expect_supported_versions.kind == HWMessageKind::HandshakeProtocols,
                            payload@[i as int].value == HWValue::ArrayVarchar(*items),
                            k <= items@.len(),
                            strs == items.deep_view(),
                            client@ == client_paper_version@,
                            forall|j: int| 0 <= j < k ==> strs[j] != client@,
                        decreases items@.len() - k,
                    {
                        if items[k] == client {
                            assert(ps[i as int] == payload@[i as int]@);
                            assert(strs[k as int] == client@);
                            assert(offers_protocol(ps[i as int], client@));
                            assert(expect_supported_versions@.payload[i as int] == ps[i as int]);
                            assert(offers_protocol(
                                expect_supported_versions@.payload[i as int],
                                client_paper_version@,
                            ));
                            return Ok(requested_version);
                        }
                        k = k + 1;
                    }
                    assert(!offers_protocol(ps[i as int], client@)) by {
                        assert(ps[i as int] == payload@[i as int]@);
                        if strs.contains(client@) {
                            let j = choose|j: int| 0 <= j < strs.len() && strs[j] == client@;
                            assert(strs[j] != client@);
                        }
                    }
                },
                _ => {
                    assert(ps[i as int] == payload@[i as int]@);
                },
            }
            i = i + 1;
        }
        Err(HyprwireError::SocketProtocolError)
    }
}

/// Cuts `s` at its first `@`.
fn split_once_at_sign(s: &str) -> (r: Option<(&str, &str)>)
    ensures
        match split_at_sign(s@) {
            Some((a, b)) => r matches Some((x, y)) && x@ == a && y@ == b,
            None => r is None,
        },
{
    let len = s.unicode_len();
    let mut i: usize = 0;
    while i < len
        invariant
            len == s@.len(),
            i <= len,
            first_at_sign(s@, 0) == first_at_sign(s@, i as nat),
        decreases len - i,
    {
        if s.get_char(i) == '@' {
            return Some((s.substring_char(0, i), s.substring_char(i + 1, len)));
        }
        i = i + 1;
    }
    None
}

/// Reads an unsigned 32-bit number written in decimal, with an optional `+`.
fn parse_decimal_u32(s: &str) -> (r: Option<u32>)
    ensures
        r == parse_u32(s@),
{
    let len = s.unicode_len();
    let mut start: usize = 0;
    if len > 0 && s.get_char(0) == '+' {
        start = 1;
    }
    let ghost body = s@.skip(start as int);
    assert(body == (if s@.len() > 0 && s@[0] == '+' {
        s@.skip(1)
    } else {
        s@
    }));
    if start == len {
        return None;
    }
    let mut value: u64 = 0;
    let mut i: usize = start;
    assert(body.take(0) =~= Seq::<char>::empty());
    while i < len
        invariant
            len == s@.len(),
            start <= i <= len,
            body == s@.skip(start as int),
            body == (if s@.len() > 0 && s@[0] == '+' {
                s@.skip(1)
            } else {
                s@
            }),
            all_digits(body.take(i - start)),
            value == digits_value(body.take(i - start)),
            value <= u32::MAX,
        decreases len - i,
    {
        let c = s.get_char(i);
        proof {
            lemma_digits_step(body, (i - start) as nat);
        }
        assert(body[i - start] == c);
        if c < '0' || c > '9' {
            return None;
        }
        let digit = (c as u32 - '0' as u32) as u64;
        value = value * 10 + digit;
        if value > 0xFFFF_FFFF {
            proof {
                lemma_digits_value_grows(body, (i - start + 1) as nat);
            }
            return None;
        }
        i = i + 1;
    }
    assert(body.take(len - start) =~= body);
    Some(value as u32)
}

/// One more digit: the value grows tenfold plus the digit.
proof fn lemma_digits_step(body: Seq<char>, k: nat)
    requires
        k < body.len(),
    ensures
        digits_value(body.take((k + 1) as int)) == digits_value(body.take(k as int)) * 10 + ((
        body[k as int] as u32) - ('0' as u32)) as nat,
        all_digits(body.take(k as int)) && '0' <= body[k as int] <= '9' ==> all_digits(
            body.take((k + 1) as int),
        ),
        !('0' <= body[k as int] <= '9') ==> !all_digits(body),
{
    assert(body.take((k + 1) as int).drop_last() =~= body.take(k as int));
    assert(body.take((k + 1) as int).last() == body[k as int]);
}

/// The value of a digit string is at least that of each of its prefixes.
proof fn lemma_digits_value_grows(s: Seq<char>, k: nat)
    requires
        k <= s.len(),
    ensures
        all_digits(s) ==> digits_value(s.take(k as int)) <= digits_value(s),
    decreases s.len() - k,
{
    if k < s.len() {
        lemma_digits_value_grows(s, k + 1);
        assert(s.take((k + 1) as int).drop_last() =~= s.take(k as int));
    } else {
        assert(s.take(k as int) =~= s);
    }
}

/// Adds the bytes of `m` to the messages to send.
fn push_frame(send: &mut Vec<Vec<u8>>, m: HWMessage)
    ensures
        final(send).deep_view() == old(send).deep_view().push(message_bytes(m@)),
{
    let frame = m.finalize();
    assert(frame.deep_view() =~= frame@);
    let ghost before = send.deep_view();
    send.push(frame);
    assert(send.deep_view() =~= before.push(message_bytes(m@)));
}

/// The client of the Hyprpaper daemon.
pub struct HyprpaperIPC {}

/// Where a session that sets a wallpaper stands.
#[derive(Clone, Copy, Debug, PartialEq, Eq, Structural)]
pub enum SessionState {
    /// Connected, nothing sent yet.
    Connected,
    /// The greeting is sent; the server's Hyprwire versions are awaited.
    AwaitingHyprwireVersions,
    /// The version is acknowledged; the server's protocols are awaited.
    AwaitingPaperProtocols { requested: u32 },
    /// The protocol is bound; the manager object is awaited.
    AwaitingManager { seq: u32 },
    /// The wallpaper object is requested and awaited.
    AwaitingWallpaper { seq: u32, manager_id: u32 },
    /// The wallpaper is set and applied; the server's answer is awaited.
    AwaitingFinalResponse { handshake: HyprpaperIPCHandshake },
    /// The session is over.
    Closed,
}

/// What comes after the messages of an action are sent.
pub enum SessionNext {
    /// Read the next message and hand it to the session.
    Receive,
    /// The session is over, with this result.
    Finish(Result<(), HyprwireError>),
    /// The reply cannot be read at all: reading it would run past its end.
    Panic,
}

/// A `SessionNext` as the contracts see it.
pub enum NextView {
    Receive,
    Finish(Result<(), HyprwireErrorKind>),
    Panic,
}

impl View for SessionNext {
    type V = NextView;

    open spec fn view(&self) -> NextView {
        match self {
            SessionNext::Receive => NextView::Receive,
            SessionNext::Finish(Ok(())) => NextView::Finish(Ok(())),
            SessionNext::Finish(Err(e)) => NextView::Finish(Err(e@)),
            SessionNext::Panic => NextView::Panic,
        }
    }
}

/// What the caller is to do: send these messages, in order, then go on as
/// `next` says.
pub struct SessionAction {
    pub send: Vec<Vec<u8>>,
    pub next: SessionNext,
}

/// A session that sets a wallpaper, from the greeting to the server's last
/// answer.
pub struct HyprpaperSession {
    pub state: SessionState,
    pub path: String,
    pub monitor: String,
}

/// The session waits for a reply in this state.
pub open spec fn awaiting(state: SessionState) -> bool {
    !(state is Connected) && !(state is Closed)
}

/// What a session in `state` does with the decoded reply `m`: the state it
/// moves to, the messages it sends, and what comes next.
pub open spec fn spec_react(
    state: SessionState,
    path: Seq<char>,
    monitor: Seq<char>,
    m: MessageView,
) -> (SessionState, Seq<Seq<u8>>, NextView) {
    match state {
        SessionState::AwaitingHyprwireVersions => match spec_hw_protocol(m, hyprwire_version()) {
            Err(k) => (SessionState::Closed, seq![], NextView::Finish(Err(k))),
            Ok(v) => {
                let ack = seq![message_bytes(hs_ack_view(v))];
                match spec_requested_version(paper_protocol()) {
                    Err(k) => (SessionState::Closed, ack, NextView::Finish(Err(k))),
                    Ok(r) => (SessionState::AwaitingPaperProtocols { requested: r }, ack, NextView::Receive),
                }
            },
        },
        SessionState::AwaitingPaperProtocols { requested } => match spec_paper_protocol(
            m,
            paper_protocol(),
            requested,
        ) {
            Err(k) => (SessionState::Closed, seq![], NextView::Finish(Err(k))),
            Ok(v) => (
                SessionState::AwaitingManager { seq: 2 },
                seq![message_bytes(bind_protocol_view(1, paper_protocol_name(), v))],
                NextView::Receive,
            ),
        },
        SessionState::AwaitingManager { seq } => match spec_new_object_id(
            m,
            HyprwireErrorKind::HyprpaperGetManagerObjNoPayload,
            HyprwireErrorKind::HyprpaperGetManagerObjId,
        ) {
            Err(k) => (SessionState::Closed, seq![], NextView::Finish(Err(k))),
            Ok(manager_id) => (
                SessionState::AwaitingWallpaper { seq, manager_id },
                seq![
                    message_bytes(
                        generic_view(
                            manager_id,
                            HyprwireMethodId::GetWallpaperObject.code(),
                            seq![
                                PayloadView {
                                    magic: HWMagic::Sequence,
                                    value: ValueView::Sequence(1),
                                },
                            ],
                        ),
                    ),
                ],
                NextView::Receive,
            ),
        },
        SessionState::AwaitingWallpaper { seq, manager_id } => match spec_new_object_id(
            m,
            HyprwireErrorKind::HyprpaperGetWallpaperObjNoPayload,
            HyprwireErrorKind::HyprpaperGetWallpaperObjId,
        ) {
            Err(k) => (SessionState::Closed, seq![], NextView::Finish(Err(k))),
            Ok(wallpaper_id) => (
                SessionState::AwaitingFinalResponse {
                    handshake: HyprpaperIPCHandshake { seq, manager_id, wallpaper_id },
                },
                seq![
                    message_bytes(
                        generic_view(
                            wallpaper_id,
                            HyprpaperMethodId::SetWallpaperPath.code(),
                            seq![varchar_payload(path)],
                        ),
                    ),
                    message_bytes(
                        generic_view(
                            wallpaper_id,
                            HyprpaperMethodId::SetTargetMonitor.code(),
                            seq![varchar_payload(monitor)],
                        ),
                    ),
                    message_bytes(
                        generic_view(wallpaper_id, HyprpaperMethodId::Apply.code(), seq![]),
                    ),
                ],
                NextView::Receive,
            ),
        },
        _ => (SessionState::Closed, seq![], NextView::Finish(Ok(()))),
    }
}

/// What a waiting session does with the bytes `data` of one read.
pub open spec fn spec_receive(
    state: SessionState,
    path: Seq<char>,
    monitor: Seq<char>,
    data: Seq<u8>,
) -> (SessionState, Seq<Seq<u8>>, NextView) {
    match spec_decode_message(data) {
        Parsed::Panics => (SessionState::Closed, seq![], NextView::Panic),
        Parsed::Fails(k) => (SessionState::Closed, seq![], NextView::Finish(Err(k))),
        Parsed::Done(m) => spec_react(state, path, monitor, m),
    }
}

/// A session stops, finishing or giving up on a reply it cannot read, exactly
/// when it closes; as long as it goes on, it waits for the next reply.
pub proof fn lemma_session_stops_when_closed(
    state: SessionState,
    path: Seq<char>,
    monitor: Seq<char>,
    data: Seq<u8>,
)
    requires
        awaiting(state),
    ensures
        ({
            let (next, _, then) = spec_receive(state, path, monitor, data);
            &&& (then is Receive) == awaiting(next)
            &&& !(then is Receive) <==> next is Closed
        }),
{
}

/// A session waiting for the server's protocols, given a reply that does not
/// offer the client's protocol in any list (or a reply of another kind),
/// sends nothing, closes, and finishes with a protocol error: it never binds
/// a protocol the server did not offer.
pub proof fn lemma_session_refuses_unoffered_protocol(
    requested: u32,
    path: Seq<char>,
    monitor: Seq<char>,
    data: Seq<u8>,
    m: MessageView,
)
    requires
        spec_decode_message(data) == Parsed::Done(m),
        m.kind != HWMessageKind::HandshakeProtocols || forall|i: int, j: int|
            0 <= i < m.payload.len() && m.payload[i].value is ArrayVarchar && 0 <= j
                < m.payload[i].value->ArrayVarchar_0.len()
                ==> #[trigger] m.payload[i].value->ArrayVarchar_0[j] != paper_protocol(),
    ensures
        spec_receive(SessionState::AwaitingPaperProtocols { requested }, path, monitor, data) == (
        SessionState::Closed,
        Seq::<Seq<u8>>::empty(),
        NextView::Finish(Err(HyprwireErrorKind::SocketProtocolError)),
        ),
{
    lemma_paper_protocol_accepts_any_offered(m, paper_protocol(), requested);
    assert(seq![] =~= Seq::<Seq<u8>>::empty());
}

/// A session waiting for the server's protocols, given a reply that offers
/// the client's protocol, binds it at the requested version, under sequence
/// number 1, and waits for the manager object.
pub proof fn lemma_session_binds_offered_protocol(
    requested: u32,
    path: Seq<char>,
    monitor: Seq<char>,
    data: Seq<u8>,
    m: MessageView,
    i: int,
    j: int,
)
    requires
        spec_decode_message(data) == Parsed::Done(m),
        m.kind == HWMessageKind::HandshakeProtocols,
        0 <= i < m.payload.len(),
        m.payload[i].value is ArrayVarchar,
        0 <= j < m.payload[i].value->ArrayVarchar_0.len(),
        m.payload[i].value->ArrayVarchar_0[j] == paper_protocol(),
    ensures
        spec_receive(SessionState::AwaitingPaperProtocols { requested }, path, monitor, data) == (
        SessionState::AwaitingManager { seq: 2 },
        seq![message_bytes(bind_protocol_view(1, paper_protocol_name(), requested))],
        NextView::Receive,
        ),
{
    lemma_paper_protocol_accepts_any_offered(m, paper_protocol(), requested);
}

impl HyprpaperSession {
    /// A session that will set the wallpaper at `path` on `monitor_id`.
    pub fn new(path: &str, monitor_id: &str) -> (r: Self)
        ensures
            r.state == SessionState::Connected,
            r.path@ == path@,
            r.monitor@ == monitor_id@,
    {
        HyprpaperSession {
            state: SessionState::Connected,
            path: String::from_str(path),
            monitor: String::from_str(monitor_id),
        }
    }

    /// Opens the handshake: send the greeting, then read.
    pub fn start(&mut self) -> (a: SessionAction)
        requires
            old(self).state == SessionState::Connected,
        ensures
            final(self).state == SessionState::AwaitingHyprwireVersions,
            final(self).path@ == old(self).path@,
            final(self).monitor@ == old(self).monitor@,
            a.send.deep_view() == seq![message_bytes(sup_view())],
            a.next@ == NextView::Receive,
    {
        self.state = SessionState::AwaitingHyprwireVersions;
        let mut send: Vec<Vec<u8>> = Vec::new();
        push_frame(&mut send, HWMessage::template_sup());
        assert(send.deep_view() =~= seq![message_bytes(sup_view())]);
        SessionAction { send, next: SessionNext::Receive }
    }

    fn react(&mut self, m: HWMessage) -> (a: SessionAction)
        requires
            awaiting(old(self).state),
        ensures
            final(self).path@ == old(self).path@,
            final(self).monitor@ == old(self).monitor@,
            (final(self).state, a.send.deep_view(), a.next@) == spec_react(
                old(self).state,
                old(self).path@,
                old(self).monitor@,
                m@,
            ),
    {
        let mut send: Vec<Vec<u8>> = Vec::new();
        match self.state {
            SessionState::AwaitingHyprwireVersions => {
                let version = match HyprpaperIPC::get_hw_protocol(&m, 1) {
                    Ok(v) => v,
                    Err(e) => {
                        self.state = SessionState::Closed;
                        return SessionAction { send, next: SessionNext::Finish(Err(e)) };
                    },
                };
                push_frame(&mut send, HWMessage::template_hs_ack(version));
                assert(send.deep_view() =~= seq![message_bytes(hs_ack_view(version))]);
                match HyprpaperIPC::requested_paper_version("hyprpaper_core@2") {
                    Ok(requested) => {
                        self.state = SessionState::AwaitingPaperProtocols { requested };
                        SessionAction { send, next: SessionNext::Receive }
                    },
                    Err(e) => {
                        self.state = SessionState::Closed;
                        SessionAction { send, next: SessionNext::Finish(Err(e)) }
                    },
                }
            },
            SessionState::AwaitingPaperProtocols { requested } => {
                let version = match HyprpaperIPC::get_paper_protocol(
                    &m,
                    "hyprpaper_core@2",
                    requested,
                ) {
                    Ok(v) => v,
                    Err(e) => {
                        self.state = SessionState::Closed;
                        return SessionAction { send, next: SessionNext::Finish(Err(e)) };
                    },
                };
                let message = HWMessage::template_bind_protocol(1, "hyprpaper_core", version);
                push_frame(&mut send, message);
                assert(send.deep_view() =~= seq![
                    message_bytes(bind_protocol_view(1, paper_protocol_name(), version)),
                ]);
                self.state = SessionState::AwaitingManager { seq: 2 };
                SessionAction { send, next: SessionNext::Receive }
            },
            SessionState::AwaitingManager { seq } => {
                let manager_id = match HyprpaperIPC::get_manager_object(&m) {
                    Ok(id) => id,
                    Err(e) => {
                        self.state = SessionState::Closed;
                        return SessionAction { send, next: SessionNext::Finish(Err(e)) };
                    },
                };
                let args = vec![HWPayload::compose_seq(1)];
                let ghost args_view = args.deep_view();
                assert(args_view =~= seq![
                    PayloadView { magic: HWMagic::Sequence, value: ValueView::Sequence(1) },
                ]);
                let message = HWMessage::template_generic(
                    manager_id,
                    HyprwireMethodId::GetWallpaperObject.to_u32(),
                    args,
                );
                push_frame(&mut send, message);
                assert(send.deep_view() =~= seq![
                    message_bytes(
                        generic_view(
                            manager_id,
                            HyprwireMethodId::GetWallpaperObject.code(),
                            args_view,
                        ),
                    ),
                ]);
                self.state = SessionState::AwaitingWallpaper { seq, manager_id };
                SessionAction { send, next: SessionNext::Receive }
            },
            SessionState::AwaitingWallpaper { seq, manager_id } => {
                let wallpaper_id = match HyprpaperIPC::get_wallpaper_object(&m) {
                    Ok(id) => id,
                    Err(e) => {
                        self.state = SessionState::Closed;
                        return SessionAction { send, next: SessionNext::Finish(Err(e)) };
                    },
                };
                let path_args = vec![HWPayload::compose_varchar(self.path.clone())];
                let ghost path_view = path_args.deep_view();
                assert(path_view =~= seq![varchar_payload(self.path@)]);
                let message = HWMessage::template_generic(
                    wallpaper_id,
                    HyprpaperMethodId::SetWallpaperPath.to_u32(),
                    path_args,
                );
                push_frame(&mut send, message);
                let monitor_args = vec![HWPayload::compose_varchar(self.monitor.clone())];
                let ghost monitor_view = monitor_args.deep_view();
                assert(monitor_view =~= seq![varchar_payload(self.monitor@)]);
                let message = HWMessage::template_generic(
                    wallpaper_id,
                    HyprpaperMethodId::SetTargetMonitor.to_u32(),
                    monitor_args,
                );
                push_frame(&mut send, message);
                let apply_args: Vec<HWPayload> = Vec::new();
                let ghost apply_view = apply_args.deep_view();
                assert(apply_view =~= Seq::<PayloadView>::empty());
                let message = HWMessage::template_generic(
                    wallpaper_id,
                    HyprpaperMethodId::Apply.to_u32(),
                    apply_args,
                );
                push_frame(&mut send, message);
                assert(send.deep_view() =~= seq![
                    message_bytes(
                        generic_view(
                            wallpaper_id,
                            HyprpaperMethodId::SetWallpaperPath.code(),
                            path_view,
                        ),
                    ),
                    message_bytes(
                        generic_view(
                            wallpaper_id,
                            HyprpaperMethodId::SetTargetMonitor.code(),
                            monitor_view,
                        ),
                    ),
                    message_bytes(
                        generic_view(wallpaper_id, HyprpaperMethodId::Apply.code(), apply_view),
                    ),
                ]);
                self.state = SessionState::AwaitingFinalResponse {
                    handshake: HyprpaperIPCHandshake { seq, manager_id, wallpaper_id },
                };
                SessionAction { send, next: SessionNext::Receive }
            },
            _ => {
                self.state = SessionState::Closed;
                SessionAction { send, next: SessionNext::Finish(Ok(())) }
            },
        }
    }

    /// Takes the bytes of one read from the server and says what to do next.
    pub fn receive(&mut self, data: &[u8]) -> (a: SessionAction)
        requires
            awaiting(old(self).state),
        ensures
            final(self).path@ == old(self).path@,
            final(self).monitor@ == old(self).monitor@,
            (final(self).state, a.send.deep_view(), a.next@) == spec_receive(
                old(self).state,
                old(self).path@,
                old(self).monitor@,
                data@,
            ),
    {
        match HWMessage::decode_outcome(data) {
            None => {
                self.state = SessionState::Closed;
                let send: Vec<Vec<u8>> = Vec::new();
                assert(send.deep_view() =~= Seq::<Seq<u8>>::empty());
                SessionAction { send, next: SessionNext::Panic }
            },
            Some(Err(e)) => {
                self.state = SessionState::Closed;
                let send: Vec<Vec<u8>> = Vec::new();
                assert(send.deep_view() =~= Seq::<Seq<u8>>::empty());
                SessionAction { send, next: SessionNext::Finish(Err(e)) }
            },
            Some(Ok(m)) => self.react(m),
        }
    }
}

} // verus!
