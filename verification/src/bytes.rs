//! Fixed-width integer encodings used by the block header.

use vstd::arithmetic::power2::{lemma2_to64, lemma2_to64_rest, pow2};
use vstd::prelude::*;

verus! {

/// The byte of `value` at position `index`, counting from the least
/// significant byte.
pub open spec fn le_byte(value: u64, index: nat) -> u8 {
    ((value as nat / pow2(8 * index)) % 256) as u8
}

/// The eight bytes of `value`, least significant first.
pub open spec fn u64_le_bytes(value: u64) -> Seq<u8> {
    Seq::new(8, |i: int| le_byte(value, i as nat))
}

/// The unsigned integer that has the same 64 bits as `value` in two's
/// complement.
pub open spec fn i64_bits(value: i64) -> u64 {
    if value >= 0 {
        value as u64
    } else {
        (value + 0x1_0000_0000_0000_0000) as u64
    }
}

/// The eight bytes of the two's complement form of `value`, least significant
/// first.
pub open spec fn i64_le_bytes(value: i64) -> Seq<u8> {
    u64_le_bytes(i64_bits(value))
}

/// The number that `bytes` spells out when read as little-endian base-256
/// digits.
pub open spec fn le_value(bytes: Seq<u8>) -> nat
    decreases bytes.len(),
{
    if bytes.len() == 0 {
        0
    } else {
        bytes.first() as nat + 256 * le_value(bytes.drop_first())
    }
}

/// The number that `bytes` spells out when read as big-endian base-256 digits.
pub open spec fn be_value(bytes: Seq<u8>) -> nat
    decreases bytes.len(),
{
    if bytes.len() == 0 {
        0
    } else {
        256 * be_value(bytes.drop_last()) + bytes.last() as nat
    }
}

/// Shifting right by whole bytes and masking picks the same byte as dividing
/// by the matching power of 256.
proof fn lemma_shift_is_le_byte(value: u64, index: usize)
    requires
        index < 8,
    ensures
        (value >> (index * 8) as u64) & 0xff == le_byte(value, index as nat),
{
    lemma2_to64();
    lemma2_to64_rest();
    if index == 0 {
        assert((value >> 0u64) & 0xff == (value / 0x1) % 256) by (bit_vector);
    } else if index == 1 {
        assert((value >> 8u64) & 0xff == (value / 0x100) % 256) by (bit_vector);
    } else if index == 2 {
        assert((value >> 16u64) & 0xff == (value / 0x1_0000) % 256) by (bit_vector);
    } else if index == 3 {
        assert((value >> 24u64) & 0xff == (value / 0x100_0000) % 256) by (bit_vector);
    } else if index == 4 {
        assert((value >> 32u64) & 0xff == (value / 0x1_0000_0000) % 256) by (bit_vector);
    } else if index == 5 {
        assert((value >> 40u64) & 0xff == (value / 0x100_0000_0000) % 256) by (bit_vector);
    } else if index == 6 {
        assert((value >> 48u64) & 0xff == (value / 0x1_0000_0000_0000) % 256) by (bit_vector);
    } else {
        assert((value >> 56u64) & 0xff == (value / 0x100_0000_0000_0000) % 256) by (bit_vector);
    }
}

/// The eight little-endian bytes of a number spell that number.
pub proof fn lemma_u64_le_bytes_value(value: u64)
    ensures
        u64_le_bytes(value).len() == 8,
        le_value(u64_le_bytes(value)) == value,
{
    let bytes = u64_le_bytes(value);
    let b0 = (value >> 0u64) & 0xff;
    let b1 = (value >> 8u64) & 0xff;
    let b2 = (value >> 16u64) & 0xff;
    let b3 = (value >> 24u64) & 0xff;
    let b4 = (value >> 32u64) & 0xff;
    let b5 = (value >> 40u64) & 0xff;
    let b6 = (value >> 48u64) & 0xff;
    let b7 = (value >> 56u64) & 0xff;
    lemma_shift_is_le_byte(value, 0);
    lemma_shift_is_le_byte(value, 1);
    lemma_shift_is_le_byte(value, 2);
    lemma_shift_is_le_byte(value, 3);
    lemma_shift_is_le_byte(value, 4);
    lemma_shift_is_le_byte(value, 5);
    lemma_shift_is_le_byte(value, 6);
    lemma_shift_is_le_byte(value, 7);
    assert(bytes =~= seq![
        b0 as u8, b1 as u8, b2 as u8, b3 as u8, b4 as u8, b5 as u8, b6 as u8, b7 as u8,
    ]);
    let s1 = bytes.drop_first();
    let s2 = s1.drop_first();
    let s3 = s2.drop_first();
    let s4 = s3.drop_first();
    let s5 = s4.drop_first();
    let s6 = s5.drop_first();
    let s7 = s6.drop_first();
    let s8 = s7.drop_first();
    assert(le_value(s8) == 0);
    assert(le_value(s7) == b7);
    assert(le_value(s6) == b6 + 256 * le_value(s7));
    assert(le_value(s5) == b5 + 256 * le_value(s6));
    assert(le_value(s4) == b4 + 256 * le_value(s5));
    assert(le_value(s3) == b3 + 256 * le_value(s4));
    assert(le_value(s2) == b2 + 256 * le_value(s3));
    assert(le_value(s1) == b1 + 256 * le_value(s2));
    assert(le_value(bytes) == b0 + 256 * le_value(s1));
    assert(value == b0 + 256 * (b1 + 256 * (b2 + 256 * (b3 + 256 * (b4 + 256 * (b5 + 256 * (b6
        + 256 * b7))))))) by (bit_vector)
        requires
            b0 == (value >> 0u64) & 0xff,
            b1 == (value >> 8u64) & 0xff,
            b2 == (value >> 16u64) & 0xff,
            b3 == (value >> 24u64) & 0xff,
            b4 == (value >> 32u64) & 0xff,
            b5 == (value >> 40u64) & 0xff,
            b6 == (value >> 48u64) & 0xff,
            b7 == (value >> 56u64) & 0xff,
    ;
}

/// Transforms a `u64` into its eight bytes, least significant first.
pub fn convert_u64_to_u8_array(val: u64) -> (output: [u8; 8])
    ensures
        output@ == u64_le_bytes(val),
{
    let mut output: [u8; 8] = [0; 8];
    let mut index: usize = 0;
    while index < 8
        invariant
            index <= 8,
            forall|j: int| 0 <= j < index ==> output@[j] == le_byte(val, j as nat),
        decreases 8 - index,
    {
        proof {
            lemma_shift_is_le_byte(val, index);
        }
        let shift: u64 = (index * 8) as u64;
        let byte: u64 = (val >> shift) & 0xff;
        output[index] = byte as u8;
        index += 1;
    }
    output
}

/// Reinterprets a signed 64-bit integer as the unsigned integer with the same
/// bits.
pub fn convert_i64_to_u64(val: i64) -> (bits: u64)
    ensures
        bits == i64_bits(val),
{
    assert(val as u64 == if val >= 0 {
        val as u64
    } else {
        (val + 0x1_0000_0000_0000_0000) as u64
    }) by (bit_vector);
    val as u64
}

} // verus!
