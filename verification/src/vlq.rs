//! Variable-length quantities: unsigned integers written seven bits per byte,
//! least significant group first, with the high bit of a byte set when more
//! bytes follow.

use vstd::prelude::*;

verus! {

/// `128` raised to the power `n`.
pub open spec fn pow128(n: nat) -> nat
    decreases n,
{
    if n == 0 {
        1
    } else {
        128 * pow128((n - 1) as nat)
    }
}

/// The bytes that encode `v`: the low seven bits first, each byte but the
/// last with its high bit set.
pub open spec fn vlq_bytes(v: nat) -> Seq<u8>
    decreases v,
{
    if v < 128 {
        seq![v as u8]
    } else {
        seq![((v % 128) + 128) as u8] + vlq_bytes(v / 128)
    }
}

/// Reads the quantity that starts at index `i` of `bytes`. The result holds
/// the value of the seven-bit groups from `i` on (the group at `i` weighing
/// one) and the index just past the last byte. A read fails when no byte with
/// a clear high bit is found before the end of `bytes` or before index 10,
/// where a 64-bit value has no room left.
pub open spec fn vlq_read(bytes: Seq<u8>, i: nat) -> Option<(nat, nat)>
    decreases 10 - i,
{
    if i >= 10 || i >= bytes.len() {
        None
    } else if bytes[i as int] < 128 {
        Some((bytes[i as int] as nat, i + 1))
    } else {
        match vlq_read(bytes, i + 1) {
            Some((v, end)) => Some((((bytes[i as int] % 128) + 128 * v) as nat, end)),
            None => None,
        }
    }
}

/// What decoding the front of `bytes` gives: the value, cut to 64 bits, and
/// the number of bytes read.
pub open spec fn vlq_decoded(bytes: Seq<u8>) -> Option<(u64, usize)> {
    match vlq_read(bytes, 0) {
        Some((v, end)) => Some(((v % 0x1_0000_0000_0000_0000) as u64, end as usize)),
        None => None,
    }
}

proof fn lemma_pow128_facts(n: nat)
    ensures
        pow128(n) >= 1,
        pow128(n + 1) == 128 * pow128(n),
    decreases n,
{
    if n > 0 {
        lemma_pow128_facts((n - 1) as nat);
    }
}

proof fn lemma_pow128_small()
    ensures
        pow128(9) == 0x8000_0000_0000_0000,
        pow128(10) == 0x40_0000_0000_0000_0000,
{
    reveal_with_fuel(pow128, 11);
}

/// The encoding of `v` has as many bytes as `v` has seven-bit groups.
proof fn lemma_vlq_bytes_len(v: nat, k: nat)
    requires
        1 <= k,
        v < pow128(k),
    ensures
        1 <= vlq_bytes(v).len() <= k,
    decreases v,
{
    if v >= 128 {
        lemma_pow128_facts((k - 1) as nat);
        if k == 1 {
            reveal_with_fuel(pow128, 2);
        }
        lemma_vlq_bytes_len(v / 128, (k - 1) as nat);
    }
}

/// Reading an encoding placed at index `i` gives back its value.
proof fn lemma_read_encoding(s: Seq<u8>, i: nat, v: nat)
    requires
        i + vlq_bytes(v).len() <= 10,
        i + vlq_bytes(v).len() <= s.len(),
        s.subrange(i as int, (i + vlq_bytes(v).len()) as int) == vlq_bytes(v),
    ensures
        vlq_read(s, i) == Some((v, i + vlq_bytes(v).len())),
    decreases v,
{
    let e = vlq_bytes(v);
    assert(s[i as int] == s.subrange(i as int, (i + e.len()) as int)[0]);
    if v < 128 {
    } else {
        let rest = vlq_bytes(v / 128);
        assert(e == seq![((v % 128) + 128) as u8] + rest);
        assert(s.subrange((i + 1) as int, (i + 1 + rest.len()) as int) =~= rest) by {
            assert forall|j: int| 0 <= j < rest.len() implies s.subrange(
                (i + 1) as int,
                (i + 1 + rest.len()) as int,
            )[j] == rest[j] by {
                assert(s.subrange(i as int, (i + e.len()) as int)[j + 1] == e[j + 1]);
            }
        }
        lemma_read_encoding(s, i + 1, v / 128);
    }
}

/// The last byte of an encoding has its high bit clear and every other byte
/// has it set.
proof fn lemma_vlq_bytes_shape(v: nat)
    ensures
        vlq_bytes(v).len() >= 1,
        vlq_bytes(v).last() < 128,
        forall|j: int| 0 <= j < vlq_bytes(v).len() - 1 ==> vlq_bytes(v)[j] >= 128,
    decreases v,
{
    if v >= 128 {
        lemma_vlq_bytes_shape(v / 128);
        let rest = vlq_bytes(v / 128);
        let e = vlq_bytes(v);
        assert forall|j: int| 0 <= j < e.len() - 1 implies e[j] >= 128 by {
            if j > 0 {
                assert(e[j] == rest[j - 1]);
            }
        }
    }
}

/// A read ends past its start, within the input and within ten bytes, and
/// the value it gives fits in the groups it read.
proof fn lemma_vlq_read_bounds(bytes: Seq<u8>, i: nat)
    ensures
        vlq_read(bytes, i) matches Some((v, end)) ==> i < end <= bytes.len() && end <= 10 && v
            < pow128((end - i) as nat),
    decreases 10 - i,
{
    if i < 10 && i < bytes.len() && bytes[i as int] >= 128 {
        lemma_vlq_read_bounds(bytes, i + 1);
        if let Some((v, end)) = vlq_read(bytes, i + 1) {
            let k = (end - (i + 1)) as nat;
            lemma_pow128_facts(k);
            assert((end - i) as nat == k + 1);
            let d = bytes[i as int] % 128;
            assert(d + 128 * v < 128 * pow128(k)) by (nonlinear_arith)
                requires
                    d < 128,
                    v < pow128(k),
            ;
        }
    } else if i < 10 && i < bytes.len() {
        reveal_with_fuel(pow128, 2);
    }
}

/// Decoding the encoding of any 64-bit value, whatever follows it, gives the
/// value back together with the length of the encoding.
pub proof fn lemma_vlq_roundtrip(v: u64, rest: Seq<u8>)
    ensures
        vlq_decoded(vlq_bytes(v as nat) + rest) == Some((v, vlq_bytes(v as nat).len() as usize)),
        1 <= vlq_bytes(v as nat).len() <= 10,
{
    lemma_pow128_small();
    lemma_vlq_bytes_len(v as nat, 10);
    let e = vlq_bytes(v as nat);
    let s = e + rest;
    assert(s.subrange(0, e.len() as int) =~= e);
    lemma_read_encoding(s, 0, v as nat);
}

/// The encoding of a value is one to ten bytes long; its last byte has the
/// high bit clear and every other byte has it set.
pub proof fn lemma_vlq_encoding_shape(v: u64)
    ensures
        1 <= vlq_bytes(v as nat).len() <= 10,
        vlq_bytes(v as nat).last() < 128,
        forall|j: int| 0 <= j < vlq_bytes(v as nat).len() - 1 ==> vlq_bytes(v as nat)[j] >= 128,
{
    lemma_pow128_small();
    lemma_vlq_bytes_len(v as nat, 10);
    lemma_vlq_bytes_shape(v as nat);
}

/// Decoding reads only the front of its input: bytes after the quantity do
/// not change the result.
pub proof fn lemma_vlq_decode_prefix(bytes: Seq<u8>, more: Seq<u8>)
    ensures
        vlq_decoded(bytes) is Some ==> vlq_decoded(bytes + more) == vlq_decoded(bytes),
{
    lemma_read_prefix(bytes, more, 0);
}

proof fn lemma_read_prefix(bytes: Seq<u8>, more: Seq<u8>, i: nat)
    ensures
        vlq_read(bytes, i) is Some ==> vlq_read(bytes + more, i) == vlq_read(bytes, i),
    decreases 10 - i,
{
    if i < 10 && i < bytes.len() {
        assert((bytes + more)[i as int] == bytes[i as int]);
        if bytes[i as int] >= 128 {
            lemma_read_prefix(bytes, more, i + 1);
        }
    }
}

/// Encoder and decoder for variable-length quantities.
pub struct VLQ {}

impl VLQ {
    /// Encodes `value` seven bits at a time, least significant group first.
    pub fn encode(value: u64) -> (bytes: Vec<u8>)
        ensures
            bytes@ == vlq_bytes(value as nat),
    {
        let mut bytes: Vec<u8> = Vec::new();
        let mut rest: u64 = value;
        loop
            invariant
                vlq_bytes(value as nat) == bytes@ + vlq_bytes(rest as nat),
            decreases rest,
        {
            let low: u8 = (rest % 128) as u8;
            let high: u64 = rest / 128;
            if high == 0 {
                assert(bytes@.push(low) =~= bytes@ + vlq_bytes(rest as nat));
                bytes.push(low);
                return bytes;
            }
            assert(vlq_bytes(rest as nat) == seq![(low + 128) as u8] + vlq_bytes(high as nat));
            assert(bytes@.push((low + 128) as u8) + vlq_bytes(high as nat) =~= bytes@
                + vlq_bytes(rest as nat));
            bytes.push(low + 128);
            rest = high;
        }
    }

    /// Decodes the quantity at the front of `bytes`, giving its value and the
    /// number of bytes it took, or `None` when the input ends first or the
    /// quantity runs past ten bytes.
    pub fn decode(bytes: &[u8]) -> (r: Option<(u64, usize)>)
        ensures
            r == vlq_decoded(bytes@),
            r matches Some((_, n)) ==> 1 <= n <= bytes@.len() && n <= 10,
    {
        proof {
            lemma_vlq_read_bounds(bytes@, 0);
        }
        let mut value: u64 = 0;
        let mut mult: u64 = 1;
        let mut i: usize = 0;
        while i < bytes.len()
            invariant
                i <= 10,
                i <= bytes@.len(),
                i <= 9 ==> mult == pow128(i as nat),
                i <= 9 ==> value < pow128(i as nat),
                i == 10 ==> vlq_read(bytes@, i as nat) is None,
                vlq_read(bytes@, 0) == match vlq_read(bytes@, i as nat) {
                    Some((v, e)) => Some(((value + pow128(i as nat) * v) as nat, e)),
                    None => None::<(nat, nat)>,
                },
            decreases bytes.len() - i,
        {
            if i >= 10 {
                return None;
            }
            proof {
                lemma_pow128_facts(i as nat);
                lemma_pow128_small();
            }
            let byte = bytes[i];
            let digit: u64 = (byte % 128) as u64;
            if byte < 128 {
                assert(vlq_read(bytes@, i as nat) == Some((byte as nat, (i + 1) as nat)));
                if i < 9 {
                    proof {
                        lemma_pow128_monotone((i + 1) as nat, 9);
                    }
                    assert(value + mult * digit < 0x8000_0000_0000_0000) by (nonlinear_arith)
                        requires
                            value < mult,
                            digit < 128,
                            mult * 128 <= 0x8000_0000_0000_0000,
                    ;
                    let v = value + mult * digit;
                    proof {
                        assert(i + 1 <= 9);
                        lemma_pow128_monotone((i + 1) as nat, 9);
                        assert(((value + pow128(i as nat) * byte) as nat) % 0x1_0000_0000_0000_0000
                            == v) by {
                            vstd::arithmetic::div_mod::lemma_small_mod(
                                v as nat,
                                0x1_0000_0000_0000_0000,
                            );
                        }
                    }
                    return Some((v, i + 1));
                } else {
                    let v = value + (digit % 2) * 0x8000_0000_0000_0000;
                    proof {
                        let total = value + 0x8000_0000_0000_0000 * (byte as int);
                        lemma_top_group_mod(value as int, byte as int);
                        assert((total as nat) % 0x1_0000_0000_0000_0000 == v);
                    }
                    return Some((v, i + 1));
                }
            }
            proof {
                let ghost next = vlq_read(bytes@, (i + 1) as nat);
                assert(vlq_read(bytes@, i as nat) == match next {
                    Some((v, e)) => Some((((byte % 128) + 128 * v) as nat, e)),
                    None => None::<(nat, nat)>,
                });
                if let Some((v, e)) = next {
                    assert(value + pow128(i as nat) * ((byte % 128) + 128 * v) == (value
                        + pow128(i as nat) * (byte % 128)) + pow128((i + 1) as nat) * v)
                        by (nonlinear_arith)
                        requires
                            pow128((i + 1) as nat) == 128 * pow128(i as nat),
                    ;
                }
            }
            if i < 9 {
                assert(value + mult * digit < mult * 128) by (nonlinear_arith)
                    requires
                        value < mult,
                        digit < 128,
                ;
                proof {
                    lemma_pow128_monotone((i + 1) as nat, 9);
                }
                value = value + mult * digit;
                mult = mult * 128;
            } else {
                proof {
                    assert(vlq_read(bytes@, 10) is None);
                }
            }
            i = i + 1;
        }
        None
    }
}

proof fn lemma_pow128_monotone(a: nat, b: nat)
    requires
        a <= b,
    ensures
        pow128(a) <= pow128(b),
    decreases b - a,
{
    if a < b {
        lemma_pow128_monotone(a, (b - 1) as nat);
        lemma_pow128_facts((b - 1) as nat);
    }
}

proof fn lemma_top_group_mod(x: int, b: int)
    requires
        0 <= x < 0x8000_0000_0000_0000,
        0 <= b < 256,
    ensures
        (x + 0x8000_0000_0000_0000 * b) % 0x1_0000_0000_0000_0000 == x + ((b % 128) % 2)
            * 0x8000_0000_0000_0000,
{
    let q = b / 2;
    let r = b % 2;
    assert(b == 2 * q + r);
    assert((b % 128) % 2 == r);
    assert(x + 0x8000_0000_0000_0000 * b == (x + r * 0x8000_0000_0000_0000) + q
        * 0x1_0000_0000_0000_0000);
    vstd::arithmetic::div_mod::lemma_mod_multiples_vanish(
        q,
        x + r * 0x8000_0000_0000_0000,
        0x1_0000_0000_0000_0000,
    );
    vstd::arithmetic::div_mod::lemma_small_mod(
        (x + r * 0x8000_0000_0000_0000) as nat,
        0x1_0000_0000_0000_0000,
    );
}

} // verus!
