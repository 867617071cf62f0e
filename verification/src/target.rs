//! The difficulty target, and the comparison of a digest against it with
//! `num_bigint::BigUint`.

use crate::bytes::be_value;
use crate::digest::Sha256Hash;
use num_bigint::BigUint;
use num_traits::One;
use vstd::arithmetic::power2::{lemma2_to64, lemma_pow2_adds, pow2};
use vstd::prelude::*;

verus! {

/// Reference difficulty: the number of leading zero hex digits asked of a
/// block's digest.
pub const DIFFICULTY: usize = 6;

/// The difficulty at which only the all-zero digest is left below the target.
/// A larger difficulty asks for the same.
pub const MAX_DIFFICULTY: usize = 64;

/// The exponent of the target: `256 - 4 * difficulty`, and 0 once that would
/// be negative. Beyond difficulty 64 the power `2^(256 - 4 * difficulty)` is
/// a fraction between zero and one; the integers below it are those below
/// `2^0`, so nothing changes for a digest.
pub open spec fn target_bits(difficulty: nat) -> nat {
    if difficulty <= MAX_DIFFICULTY {
        (256 - 4 * difficulty) as nat
    } else {
        0
    }
}

/// The difficulty target `2^(256 - 4 * difficulty)`.
pub open spec fn target_value(difficulty: nat) -> nat {
    pow2(target_bits(difficulty))
}

/// Whether `hash`, read as a big-endian unsigned integer, lies strictly below
/// the target of `difficulty`.
pub open spec fn below_target(hash: Seq<u8>, difficulty: nat) -> bool {
    be_value(hash) < target_value(difficulty)
}

/// The hexadecimal digit of `bytes` at position `index`, counting from the
/// high digit of the first byte.
pub open spec fn hex_digit_at(bytes: Seq<u8>, index: int) -> int {
    if index % 2 == 0 {
        bytes[index / 2] as int / 16
    } else {
        bytes[index / 2] as int % 16
    }
}

/// Whether the first `count` hexadecimal digits of `bytes` are zero.
pub open spec fn leading_zero_digits(bytes: Seq<u8>, count: nat) -> bool {
    forall|j: int| 0 <= j < count ==> #[trigger] hex_digit_at(bytes, j) == 0
}

/// A byte string read as a big-endian integer is below the power of two that
/// lacks `digits` hexadecimal digits of its full width exactly when its first
/// `digits` hexadecimal digits are zero.
pub proof fn lemma_be_value_below_power(bytes: Seq<u8>, digits: nat)
    requires
        digits <= 2 * bytes.len(),
    ensures
        be_value(bytes) < pow2((8 * bytes.len() - 4 * digits) as nat) <==> leading_zero_digits(
            bytes,
            digits,
        ),
    decreases bytes.len(),
{
    lemma2_to64();
    if bytes.len() > 0 {
        let front = bytes.drop_last();
        let last = bytes.last();
        let m = front.len() as int;
        // `front` holds the leading digits of `bytes`; the two digits of
        // `last` follow them.
        assert forall|j: int| 0 <= j < 2 * m implies hex_digit_at(bytes, j) == hex_digit_at(
            front,
            j,
        ) by {}
        assert(hex_digit_at(bytes, 2 * m) == last as int / 16);
        assert(hex_digit_at(bytes, 2 * m + 1) == last as int % 16);
        if digits <= 2 * m {
            lemma_be_value_below_power(front, digits);
            lemma_pow2_adds(8, (8 * m - 4 * digits) as nat);
        } else {
            lemma_be_value_below_power(front, (2 * m) as nat);
        }
    }
}

/// A 32-byte hash lies below the target of `difficulty` exactly when its
/// first `difficulty` hexadecimal digits are zero; from difficulty 64 on,
/// when all 64 of them are.
pub proof fn lemma_target_counts_leading_zeros(hash: Seq<u8>, difficulty: nat)
    requires
        hash.len() == 32,
    ensures
        below_target(hash, difficulty) <==> leading_zero_digits(
            hash,
            if difficulty <= MAX_DIFFICULTY {
                difficulty
            } else {
                MAX_DIFFICULTY as nat
            },
        ),
{
    if difficulty <= MAX_DIFFICULTY {
        lemma_be_value_below_power(hash, difficulty);
    } else {
        lemma_be_value_below_power(hash, 64);
    }
}

/// `num_bigint::BigUint`, an unsigned integer of any size. Its digits stay
/// hidden; `big_value` names the number.
#[verifier::external_type_specification]
#[verifier::external_body]
pub struct ExBigUint(BigUint);

/// The natural number that a `BigUint` holds.
pub uninterp spec fn big_value(n: BigUint) -> nat;

/// `<BigUint as num_traits::One>::one`.
///
/// Trusted: the result holds the number 1.
#[verifier::external_body]
fn big_one() -> (one: BigUint)
    ensures
        big_value(one) == 1,
{
    BigUint::one()
}

/// `BigUint << usize`.
///
/// Trusted: the result holds `n` times `2^bits`. The claim is made for shifts
/// of at most 256 bits, all that a 256-bit target needs.
#[verifier::external_body]
fn big_shl(n: BigUint, bits: usize) -> (shifted: BigUint)
    requires
        bits <= 256,
    ensures
        big_value(shifted) == big_value(n) * pow2(bits as nat),
{
    n << bits
}

/// `BigUint::from_bytes_be`.
///
/// Trusted: the result holds the number whose big-endian base-256 digits are
/// `bytes`.
#[verifier::external_body]
fn big_from_bytes_be(bytes: &[u8]) -> (n: BigUint)
    ensures
        big_value(n) == be_value(bytes@),
{
    BigUint::from_bytes_be(bytes)
}

/// `<` on `BigUint`.
///
/// Trusted: it is the order of the numbers held.
#[verifier::external_body]
fn big_lt(a: &BigUint, b: &BigUint) -> (less: bool)
    ensures
        less == (big_value(*a) < big_value(*b)),
{
    a < b
}

/// Computes the target of `difficulty` as one shifted left by
/// `256 - 4 * difficulty` bits.
pub(crate) fn difficulty_target(difficulty: usize) -> (target: BigUint)
    ensures
        big_value(target) == target_value(difficulty as nat),
{
    let bits: usize = if difficulty <= MAX_DIFFICULTY {
        256 - 4 * difficulty
    } else {
        0
    };
    let target = big_shl(big_one(), bits);
    assert(1 * pow2(bits as nat) == pow2(bits as nat)) by (nonlinear_arith);
    target
}

/// Tells whether `hash`, read as a big-endian unsigned integer, is strictly
/// less than `target`.
pub(crate) fn hash_below(hash: &Sha256Hash, target: &BigUint) -> (below: bool)
    ensures
        below == (be_value(hash@) < big_value(*target)),
{
    let hash_int = big_from_bytes_be(hash.as_slice());
    big_lt(&hash_int, target)
}

/// Tells whether `hash` meets the target of `difficulty`.
pub fn meets_target(hash: &Sha256Hash, difficulty: usize) -> (met: bool)
    ensures
        met == below_target(hash@, difficulty as nat),
{
    let target = difficulty_target(difficulty);
    hash_below(hash, &target)
}

} // verus!
