//! Little-endian encoding of unsigned integers, which is how every
//! multi-byte value lies in the machine's memory and on its stack.

use vstd::prelude::*;
use vstd::arithmetic::div_mod::lemma_breakdown;
use vstd::arithmetic::div_mod::lemma_small_mod;

verus! {

/// The number that a little-endian byte string denotes.
pub open spec fn le_value(bytes: Seq<u8>) -> nat
    decreases bytes.len(),
{
    if bytes.len() == 0 {
        0
    } else {
        bytes[0] as nat + 256 * le_value(bytes.drop_first())
    }
}

/// The `width` low-order bytes of `value`, least significant first.
pub open spec fn le_bytes(value: nat, width: nat) -> Seq<u8>
    decreases width,
{
    if width == 0 {
        Seq::empty()
    } else {
        seq![(value % 256) as u8] + le_bytes(value / 256, (width - 1) as nat)
    }
}

/// Number of values that `width` bytes can hold: 256 to the power `width`.
pub open spec fn radix(width: nat) -> nat
    decreases width,
{
    if width == 0 {
        1
    } else {
        256 * radix((width - 1) as nat)
    }
}

/// The radix of the four operand widths.
pub proof fn lemma_radix_values()
    ensures
        radix(1) == 0x100,
        radix(2) == 0x1_0000,
        radix(4) == 0x1_0000_0000,
        radix(8) == 0x1_0000_0000_0000_0000,
{
    reveal_with_fuel(radix, 9);
}

/// An encoding has exactly the requested number of bytes.
pub proof fn lemma_le_bytes_len(value: nat, width: nat)
    ensures
        le_bytes(value, width).len() == width,
    decreases width,
{
    if width > 0 {
        lemma_le_bytes_len(value / 256, (width - 1) as nat);
    }
}

/// A byte string denotes a number below the radix of its length.
pub proof fn lemma_le_value_bound(bytes: Seq<u8>)
    ensures
        le_value(bytes) < radix(bytes.len()),
    decreases bytes.len(),
{
    if bytes.len() > 0 {
        lemma_le_value_bound(bytes.drop_first());
    }
}

/// Decoding an encoding gives the value back, reduced to the encoded width.
pub proof fn lemma_le_round_trip(value: nat, width: nat)
    ensures
        le_value(le_bytes(value, width)) == value % radix(width),
    decreases width,
{
    if width == 0 {
    } else {
        let rest = le_bytes(value / 256, (width - 1) as nat);
        let whole = le_bytes(value, width);
        let inner: nat = radix((width - 1) as nat);
        lemma_le_round_trip(value / 256, (width - 1) as nat);
        assert(whole.drop_first() =~= rest);
        assert(whole[0] == (value % 256) as u8);
        assert(inner > 0) by {
            lemma_radix_positive((width - 1) as nat);
        }
        lemma_breakdown(value as int, 256, inner as int);
        assert(256 * inner == radix(width));
    }
}

/// The radix is never zero.
pub proof fn lemma_radix_positive(width: nat)
    ensures
        radix(width) > 0,
    decreases width,
{
    if width > 0 {
        lemma_radix_positive((width - 1) as nat);
    }
}

/// A value that fits in `width` bytes survives encoding and decoding.
pub proof fn lemma_le_round_trip_exact(value: nat, width: nat)
    requires
        value < radix(width),
    ensures
        le_bytes(value, width).len() == width,
        le_value(le_bytes(value, width)) == value,
{
    lemma_le_bytes_len(value, width);
    lemma_le_round_trip(value, width);
    lemma_small_mod(value, radix(width));
}

/// Decodes one byte.
pub fn decode_u8(bytes: &[u8]) -> (value: u8)
    requires
        bytes@.len() == 1,
    ensures
        value == le_value(bytes@),
{
    proof {
        reveal_with_fuel(le_value, 2);
    }
    bytes[0]
}

/// Decodes two little-endian bytes.
pub fn decode_u16(bytes: &[u8]) -> (value: u16)
    requires
        bytes@.len() == 2,
    ensures
        value == le_value(bytes@),
{
    proof {
        lemma_le_value_from(bytes@, 0);
        lemma_le_value_from(bytes@, 1);
        lemma_le_value_from(bytes@, 2);
        assert(bytes@.skip(0) =~= bytes@);
    }
    let b0: u16 = bytes[0] as u16;
    let b1: u16 = bytes[1] as u16;
    b0 + 256 * b1
}

/// Decodes four little-endian bytes.
pub fn decode_u32(bytes: &[u8]) -> (value: u32)
    requires
        bytes@.len() == 4,
    ensures
        value == le_value(bytes@),
{
    proof {
        lemma_le_value_from(bytes@, 0);
        lemma_le_value_from(bytes@, 1);
        lemma_le_value_from(bytes@, 2);
        lemma_le_value_from(bytes@, 3);
        lemma_le_value_from(bytes@, 4);
        assert(bytes@.skip(0) =~= bytes@);
    }
    let b0: u32 = bytes[0] as u32;
    let b1: u32 = bytes[1] as u32;
    let b2: u32 = bytes[2] as u32;
    let b3: u32 = bytes[3] as u32;
    b0 + 256 * (b1 + 256 * (b2 + 256 * b3))
}

/// Decodes eight little-endian bytes.
pub fn decode_u64(bytes: &[u8]) -> (value: u64)
    requires
        bytes@.len() == 8,
    ensures
        value == le_value(bytes@),
{
    proof {
        lemma_le_value_from(bytes@, 0);
        lemma_le_value_from(bytes@, 1);
        lemma_le_value_from(bytes@, 2);
        lemma_le_value_from(bytes@, 3);
        lemma_le_value_from(bytes@, 4);
        lemma_le_value_from(bytes@, 5);
        lemma_le_value_from(bytes@, 6);
        lemma_le_value_from(bytes@, 7);
        lemma_le_value_from(bytes@, 8);
        assert(bytes@.skip(0) =~= bytes@);
    }
    let b0: u64 = bytes[0] as u64;
    let b1: u64 = bytes[1] as u64;
    let b2: u64 = bytes[2] as u64;
    let b3: u64 = bytes[3] as u64;
    let b4: u64 = bytes[4] as u64;
    let b5: u64 = bytes[5] as u64;
    let b6: u64 = bytes[6] as u64;
    let b7: u64 = bytes[7] as u64;
    let high: u64 = b4 + 256 * (b5 + 256 * (b6 + 256 * b7));
    b0 + 256 * (b1 + 256 * (b2 + 256 * (b3 + 256 * high)))
}

/// The value of the bytes from index `from` on is the first of them plus 256
/// times the value of those after it.
proof fn lemma_le_value_from(bytes: Seq<u8>, from: int)
    requires
        0 <= from <= bytes.len(),
    ensures
        from == bytes.len() ==> le_value(bytes.skip(from)) == 0,
        from < bytes.len() ==> le_value(bytes.skip(from)) == bytes[from] as nat + 256 * le_value(
            bytes.skip(from + 1),
        ),
{
    if from < bytes.len() {
        assert(bytes.skip(from).drop_first() =~= bytes.skip(from + 1));
    }
}

/// Encodes one byte.
pub fn encode_u8(value: u8) -> (bytes: [u8; 1])
    ensures
        bytes@ == le_bytes(value as nat, 1),
{
    let bytes: [u8; 1] = [value];
    proof {
        reveal_with_fuel(le_bytes, 2);
        assert(bytes@ =~= le_bytes(value as nat, 1));
    }
    bytes
}

/// Encodes a 16-bit value as two little-endian bytes.
pub fn encode_u16(value: u16) -> (bytes: [u8; 2])
    ensures
        bytes@ == le_bytes(value as nat, 2),
{
    let bytes: [u8; 2] = [(value % 256) as u8, (value / 256) as u8];
    proof {
        reveal_with_fuel(le_bytes, 3);
        assert(bytes@ =~= le_bytes(value as nat, 2));
    }
    bytes
}

/// Encodes a 32-bit value as four little-endian bytes.
pub fn encode_u32(value: u32) -> (bytes: [u8; 4])
    ensures
        bytes@ == le_bytes(value as nat, 4),
{
    let v1: u32 = value / 256;
    let v2: u32 = v1 / 256;
    let v3: u32 = v2 / 256;
    let bytes: [u8; 4] = [(value % 256) as u8, (v1 % 256) as u8, (v2 % 256) as u8, v3 as u8];
    proof {
        reveal_with_fuel(le_bytes, 5);
        assert(bytes@ =~= le_bytes(value as nat, 4));
    }
    bytes
}

/// Encodes a 64-bit value as eight little-endian bytes.
pub fn encode_u64(value: u64) -> (bytes: [u8; 8])
    ensures
        bytes@ == le_bytes(value as nat, 8),
{
    let v1: u64 = value / 256;
    let v2: u64 = v1 / 256;
    let v3: u64 = v2 / 256;
    let v4: u64 = v3 / 256;
    let v5: u64 = v4 / 256;
    let v6: u64 = v5 / 256;
    let v7: u64 = v6 / 256;
    let bytes: [u8; 8] = [
        (value % 256) as u8,
        (v1 % 256) as u8,
        (v2 % 256) as u8,
        (v3 % 256) as u8,
        (v4 % 256) as u8,
        (v5 % 256) as u8,
        (v6 % 256) as u8,
        v7 as u8,
    ];
    proof {
        reveal_with_fuel(le_bytes, 9);
        assert(bytes@ =~= le_bytes(value as nat, 8));
    }
    bytes
}

} // verus!
