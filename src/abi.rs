//! The byte-level model of the contract calls: function selectors and the
//! 32-byte words of a reply.
use vstd::prelude::*;
use vstd::arithmetic::power2::pow2;
use alloy::sol_types::{sol_data, SolType};

verus! {

/// Unsigned big-endian value of a byte sequence.
pub open spec fn be_value(s: Seq<u8>) -> nat
    decreases s.len(),
{
    if s.len() == 0 {
        0
    } else {
        be_value(s.drop_last()) * 256 + s.last() as nat
    }
}

/// The `i`-th 32-byte word of a reply.
pub open spec fn word(data: Seq<u8>, i: int) -> Seq<u8> {
    data.subrange(32 * i, 32 * i + 32)
}

/// `256` raised to the `n`-th power: one more than the largest value of `n` bytes.
pub open spec fn pow256(n: nat) -> nat
    decreases n,
{
    if n == 0 {
        1
    } else {
        256 * pow256((n - 1) as nat)
    }
}

/// A word read as a 256-bit two's complement integer.
pub open spec fn signed_word(w: Seq<u8>) -> int {
    if be_value(w) >= pow256(32) / 2 {
        be_value(w) - pow256(32)
    } else {
        be_value(w) as int
    }
}

/// A word is the canonical encoding of a `uint<bits>` value.
pub open spec fn uint_word_ok(w: Seq<u8>, bits: nat) -> bool {
    be_value(w) < pow2(bits)
}

/// A word is accepted as a `bool`: all bytes but the last are zero.
pub open spec fn bool_word_ok(w: Seq<u8>) -> bool {
    be_value(w) < 256
}

/// A reply that holds the one word of `tickSpacing()`'s output.
pub open spec fn tick_spacing_reply_ok(data: Seq<u8>) -> bool {
    data.len() == 32
}

/// A reply with the seven words of `slot0()`'s output
/// `(uint160, int24, uint16, uint16, uint16, uint8, bool)`, each of its type
/// but the tick, which is taken as a whole signed word and narrowed later.
pub open spec fn slot0_reply_ok(data: Seq<u8>) -> bool {
    &&& data.len() == 7 * 32
    &&& uint_word_ok(word(data, 0), 160)
    &&& uint_word_ok(word(data, 2), 16)
    &&& uint_word_ok(word(data, 3), 16)
    &&& uint_word_ok(word(data, 4), 16)
    &&& uint_word_ok(word(data, 5), 8)
    &&& bool_word_ok(word(data, 6))
}

/// The value of a byte sequence is below `pow256` of its length; it is zero
/// exactly when every byte is zero, and the largest exactly when every byte
/// is `0xff`.
pub proof fn lemma_be_value_extremes(s: Seq<u8>)
    ensures
        be_value(s) < pow256(s.len()),
        be_value(s) == 0 <==> (forall|i: int| 0 <= i < s.len() ==> s[i] == 0),
        be_value(s) + 1 == pow256(s.len()) <==> (forall|i: int| 0 <= i < s.len() ==> s[i] == 0xff),
    decreases s.len(),
{
    if s.len() > 0 {
        let t = s.drop_last();
        lemma_be_value_extremes(t);
        let b = be_value(t);
        let p = pow256(t.len());
        assert(b * 256 + s.last() < p * 256) by (nonlinear_arith)
            requires
                b < p,
                s.last() < 256,
        ;
        if be_value(s) == 0 {
            assert(b == 0 && s.last() == 0) by (nonlinear_arith)
                requires
                    b * 256 + s.last() == 0,
                    b >= 0,
            ;
            assert forall|i: int| 0 <= i < s.len() implies s[i] == 0 by {
                if i < t.len() {
                    assert(s[i] == t[i]);
                }
            }
        }
        if forall|i: int| 0 <= i < s.len() ==> s[i] == 0 {
            assert forall|i: int| 0 <= i < t.len() implies t[i] == 0 by {
                assert(s[i] == t[i]);
            }
        }
        if be_value(s) + 1 == pow256(s.len()) {
            assert(b + 1 == p && s.last() == 0xff) by (nonlinear_arith)
                requires
                    b * 256 + s.last() + 1 == p * 256,
                    b < p,
                    s.last() < 256,
            ;
            assert forall|i: int| 0 <= i < s.len() implies s[i] == 0xff by {
                if i < t.len() {
                    assert(s[i] == t[i]);
                }
            }
        }
        if forall|i: int| 0 <= i < s.len() ==> s[i] == 0xff {
            assert forall|i: int| 0 <= i < t.len() implies t[i] == 0xff by {
                assert(s[i] == t[i]);
            }
            assert(s.last() == 0xff);
        }
    }
}

/// A word's value splits into its first 29 bytes and its last three.
pub proof fn lemma_word_split(w: Seq<u8>)
    requires
        w.len() == 32,
    ensures
        be_value(w) == be_value(w.subrange(0, 29)) * 16777216 + w[29] * 65536 + w[30] * 256
            + w[31],
        pow256(32) == pow256(29) * 16777216,
{
    let w31 = w.drop_last();
    let w30 = w31.drop_last();
    let w29 = w30.drop_last();
    assert(w29 =~= w.subrange(0, 29));
    assert(be_value(w) == be_value(w31) * 256 + w[31]);
    assert(be_value(w31) == be_value(w30) * 256 + w[30]);
    assert(be_value(w30) == be_value(w29) * 256 + w[29]);
    reveal_with_fuel(pow256, 4);
}

/// The Keccak-256 digest of the UTF-8 bytes of a text.
pub uninterp spec fn keccak_of_text(s: Seq<char>) -> Seq<u8>;

/// Relies on alloy_primitives::keccak256: the 32-byte Keccak-256 digest of
/// the text's bytes, which depends on the text alone.
#[verifier::external_body]
pub(crate) fn keccak256_text(s: &str) -> (r: [u8; 32])
    ensures
        r@ == keccak_of_text(s@),
{
    alloy::primitives::keccak256(s.as_bytes()).0
}

/// Relies on alloy_sol_types' validating decoder for the tuple `(int256,)`:
/// it accepts exactly one word, any word, and yields its value, whose
/// big-endian bytes are the word itself.
#[verifier::external_body]
pub(crate) fn decode_tick_spacing_word(data: &[u8]) -> (r: Option<[u8; 32]>)
    ensures
        r is Some <==> tick_spacing_reply_ok(data@),
        r is Some ==> r->Some_0@ == word(data@, 0),
{
    <(sol_data::Int<256>,) as SolType>::abi_decode_sequence(data, true).ok().map(|t| t.0.to_be_bytes::<32>())
}

/// Relies on alloy_sol_types' validating decoder for the tuple
/// `(uint160, int256, uint16, uint16, uint16, uint8, bool)`: it accepts
/// exactly seven words, each of the unsigned and bool words the canonical
/// encoding of its type, and yields the second word's value, whose big-endian
/// bytes are that word.
#[verifier::external_body]
pub(crate) fn decode_slot0_tick_word(data: &[u8]) -> (r: Option<[u8; 32]>)
    ensures
        r is Some <==> slot0_reply_ok(data@),
        r is Some ==> r->Some_0@ == word(data@, 1),
{
    <(
        sol_data::Uint<160>,
        sol_data::Int<256>,
        sol_data::Uint<16>,
        sol_data::Uint<16>,
        sol_data::Uint<16>,
        sol_data::Uint<8>,
        sol_data::Bool,
    ) as SolType>::abi_decode_sequence(data, true).ok().map(|t| t.1.to_be_bytes::<32>())
}

/// A 20-byte on-chain account or contract identifier.
#[derive(Clone, Copy, Debug, PartialEq, Eq)]
pub struct Address {
    pub bytes: [u8; 20],
}

/// The value of a hexadecimal digit, either case.
pub open spec fn hex_value(c: char) -> int {
    if '0' <= c && c <= '9' {
        c as int - '0' as int
    } else if 'a' <= c && c <= 'f' {
        c as int - 'a' as int + 10
    } else if 'A' <= c && c <= 'F' {
        c as int - 'A' as int + 10
    } else {
        -1
    }
}

pub open spec fn is_hex_char(c: char) -> bool {
    hex_value(c) >= 0
}

/// The text with one leading `0x` or `0X` removed, if it has one.
pub open spec fn strip_hex_prefix(s: Seq<char>) -> Seq<char> {
    if s.len() >= 2 && s[0] == '0' && (s[1] == 'x' || s[1] == 'X') {
        s.subrange(2, s.len() as int)
    } else {
        s
    }
}

/// The text is an address: after an optional `0x`, exactly forty hex digits.
pub open spec fn address_text_ok(s: Seq<char>) -> bool {
    let h = strip_hex_prefix(s);
    &&& h.len() == 40
    &&& forall|i: int| 0 <= i < 40 ==> #[trigger] is_hex_char(h[i])
}

/// The twenty bytes that the hex digits of an address text spell.
pub open spec fn address_bytes_of(s: Seq<char>) -> Seq<u8> {
    let h = strip_hex_prefix(s);
    Seq::new(20, |i: int| (hex_value(h[2 * i]) * 16 + hex_value(h[2 * i + 1])) as u8)
}

/// Relies on alloy_primitives' `Address::from_str`, which hex-decodes the text
/// after an optional `0x`/`0X` prefix and requires exactly twenty bytes.
#[verifier::external_body]
pub(crate) fn parse_address(s: &str) -> (r: Option<Address>)
    ensures
        r is Some <==> address_text_ok(s@),
        r is Some ==> r->Some_0.bytes@ == address_bytes_of(s@),
{
    <alloy::primitives::Address as std::str::FromStr>::from_str(s).ok().map(|a| Address { bytes: a.0.0 })
}

} // verus!
