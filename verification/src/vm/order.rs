//! Three-way comparison of unsigned integers and of floating point numbers
//! given by their IEEE-754 bit patterns.
//!
//! Floating point numbers compare by value, so the two zeroes are equal. A
//! NaN ranks above every number, infinity included, and equal to every other
//! NaN: the order is total, and agrees with the numeric one wherever that is
//! defined.

use vstd::prelude::*;

use crate::bytecode::FloatSize;

verus! {

/// -1, 0 or 1 as `a` is below, equal to or above `b`.
pub open spec fn three_way(a: int, b: int) -> i64 {
    if a < b {
        -1i64
    } else if a == b {
        0
    } else {
        1
    }
}

/// The weight of the sign bit of a bit pattern.
pub open spec fn sign_weight(size: FloatSize) -> u64 {
    match size {
        FloatSize::F32 => 0x8000_0000,
        FloatSize::F64 => 0x8000_0000_0000_0000,
    }
}

/// The bit pattern of positive infinity: all exponent bits set, no fraction.
pub open spec fn infinity(size: FloatSize) -> u64 {
    match size {
        FloatSize::F32 => 0x7f80_0000,
        FloatSize::F64 => 0x7ff0_0000_0000_0000,
    }
}

/// The pattern without its sign bit, which orders the absolute values.
pub open spec fn magnitude(size: FloatSize, pattern: u64) -> u64 {
    pattern % sign_weight(size)
}

/// Whether the pattern is a NaN: one whose magnitude lies above infinity's.
pub open spec fn is_nan(size: FloatSize, pattern: u64) -> bool {
    magnitude(size, pattern) > infinity(size)
}

/// An integer that orders the patterns of numbers as the numbers themselves:
/// the magnitude, negated where the sign bit is set.
pub open spec fn rank(size: FloatSize, pattern: u64) -> int {
    if pattern >= sign_weight(size) {
        -(magnitude(size, pattern) as int)
    } else {
        magnitude(size, pattern) as int
    }
}

/// -1, 0 or 1 as the number of pattern `a` is below, equal to or above that
/// of pattern `b`, a NaN ranking above every number and equal to a NaN.
pub open spec fn float_three_way(size: FloatSize, a: u64, b: u64) -> i64 {
    if is_nan(size, a) && is_nan(size, b) {
        0
    } else if is_nan(size, a) {
        1
    } else if is_nan(size, b) {
        -1i64
    } else {
        three_way(rank(size, a), rank(size, b))
    }
}

/// Compares two unsigned integers.
pub fn compare_unsigned(a: u64, b: u64) -> (order: i64)
    ensures
        order == three_way(a as int, b as int),
{
    if a < b {
        -1
    } else if a == b {
        0
    } else {
        1
    }
}

/// Compares two floating point numbers given by their bit patterns, which
/// are patterns of the width `size`.
pub fn compare_floats(size: FloatSize, a: u64, b: u64) -> (order: i64)
    requires
        size.carrier().fits(a),
        size.carrier().fits(b),
    ensures
        order == float_three_way(size, a, b),
{
    let (sign, infinity): (u64, u64) = match size {
        FloatSize::F32 => (0x8000_0000, 0x7f80_0000),
        FloatSize::F64 => (0x8000_0000_0000_0000, 0x7ff0_0000_0000_0000),
    };
    let a_magnitude: u64 = a % sign;
    let b_magnitude: u64 = b % sign;
    let a_nan: bool = a_magnitude > infinity;
    let b_nan: bool = b_magnitude > infinity;
    if a_nan && b_nan {
        0
    } else if a_nan {
        1
    } else if b_nan {
        -1
    } else {
        let a_negative: bool = a >= sign;
        let b_negative: bool = b >= sign;
        if a_negative && b_negative {
            compare_unsigned(b_magnitude, a_magnitude)
        } else if a_negative {
            if a_magnitude == 0 && b_magnitude == 0 {
                0
            } else {
                -1
            }
        } else if b_negative {
            if a_magnitude == 0 && b_magnitude == 0 {
                0
            } else {
                1
            }
        } else {
            compare_unsigned(a_magnitude, b_magnitude)
        }
    }
}

/// The order of floating point numbers is total: a number compares equal
/// to itself, two numbers compare one way as they compare the other way
/// round, and what is not above something that is not above a third is not
/// above the third.
pub proof fn lemma_float_order_is_total(size: FloatSize, a: u64, b: u64, c: u64)
    ensures
        float_three_way(size, a, a) == 0,
        float_three_way(size, a, b) == -float_three_way(size, b, a),
        float_three_way(size, a, b) <= 0 && float_three_way(size, b, c) <= 0 ==> float_three_way(
            size,
            a,
            c,
        ) <= 0,
        float_three_way(size, a, b) == 0 && float_three_way(size, b, c) == 0 ==> float_three_way(
            size,
            a,
            c,
        ) == 0,
{
}

} // verus!
