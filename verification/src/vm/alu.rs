//! Integer arithmetic and logic at the four operand widths. A value of a
//! width travels zero-extended in a `u64`.

use vstd::prelude::*;
use vstd::arithmetic::div_mod::lemma_fundamental_div_mod;
use vstd::arithmetic::div_mod::lemma_mod_multiples_vanish;
use vstd::arithmetic::div_mod::lemma_small_mod;

use crate::bytecode::IntSize;
use crate::vm::Fault;

verus! {

/// The operations that take two integers of one width and give a third.
#[derive(Debug, Clone, Copy, PartialEq, Eq, Structural)]
pub enum BinaryOp {
    And,
    Or,
    Xor,
    Shl,
    Shr,
    UShr,
    Add,
    Sub,
    Mul,
    Div,
    Mod,
}

/// The distance of a shift by `b`: shifts wrap around at the operand width.
pub open spec fn shift_distance(size: IntSize, b: u64) -> u64 {
    b % size.bits()
}

/// Whether `a`, read as a two's complement number of the width, is negative.
pub open spec fn sign_bit(size: IntSize, a: u64) -> bool {
    a > size.mask() / 2
}

/// `a <op> b` at the width `size`. Sums, differences and products wrap
/// around; quotients and remainders are unsigned and undefined for a zero
/// divisor; right shifts fill with zeroes (`UShr`) or with the sign bit
/// (`Shr`).
pub open spec fn apply(op: BinaryOp, size: IntSize, a: u64, b: u64) -> Result<u64, Fault> {
    let distance: u64 = shift_distance(size, b);
    match op {
        BinaryOp::And => Ok(a & b),
        BinaryOp::Or => Ok(a | b),
        BinaryOp::Xor => Ok(a ^ b),
        BinaryOp::Shl => Ok((a << distance) & size.mask()),
        BinaryOp::Shr => Ok(
            if sign_bit(size, a) {
                (a >> distance) | (size.mask() ^ (size.mask() >> distance))
            } else {
                a >> distance
            },
        ),
        BinaryOp::UShr => Ok(a >> distance),
        BinaryOp::Add => Ok(((a + b) % size.modulus()) as u64),
        BinaryOp::Sub => Ok(((a - b) % size.modulus()) as u64),
        BinaryOp::Mul => Ok(((a * b) % size.modulus()) as u64),
        BinaryOp::Div => if b == 0 {
            Err(Fault::DivisionByZero)
        } else {
            Ok(a / b)
        },
        BinaryOp::Mod => if b == 0 {
            Err(Fault::DivisionByZero)
        } else {
            Ok(a % b)
        },
    }
}

/// The bitwise complement of `a` at the width `size`.
pub open spec fn complement(size: IntSize, a: u64) -> u64 {
    !a & size.mask()
}

/// Masking with the largest value of a width reduces modulo the number of
/// values of the width.
proof fn lemma_mask_reduces(x: u64)
    by (bit_vector)
    ensures
        x & 0xff == x % 0x100,
        x & 0xffff == x % 0x1_0000,
        x & 0xffff_ffff == x % 0x1_0000_0000,
        x & 0xffff_ffff_ffff_ffff == x,
{
}

/// Bitwise operations on values below a power of two stay below it.
proof fn lemma_bitwise_fits(a: u64, b: u64, mask: u64)
    by (bit_vector)
    requires
        a <= mask,
        b <= mask,
        mask == 0xff || mask == 0xffff || mask == 0xffff_ffff || mask == 0xffff_ffff_ffff_ffff,
    ensures
        a & b <= mask,
        a | b <= mask,
        a ^ b <= mask,
        !a & mask <= mask,
{
}

/// Shifts at a width stay within the width.
proof fn lemma_shift_fits(a: u64, distance: u64, mask: u64)
    by (bit_vector)
    requires
        a <= mask,
        distance < 64,
        mask == 0xff || mask == 0xffff || mask == 0xffff_ffff || mask == 0xffff_ffff_ffff_ffff,
    ensures
        (a << distance) & mask <= mask,
        a >> distance <= mask,
        (a >> distance) | (mask ^ (mask >> distance)) <= mask,
{
}

/// A 64-bit value that differs from `exact` by a multiple of two to the
/// power 64 is, masked to a width, `exact` modulo the number of values of
/// the width.
proof fn lemma_masked_is_reduced(size: IntSize, exact: int, wrapped: u64, turns: int)
    requires
        wrapped == exact + turns * 0x1_0000_0000_0000_0000,
    ensures
        wrapped & size.mask() == exact % size.modulus(),
{
    lemma_mask_reduces(wrapped);
    match size {
        IntSize::I8 => {
            lemma_mod_multiples_vanish(turns * 0x100_0000_0000_0000, exact, 0x100);
        },
        IntSize::I16 => {
            lemma_mod_multiples_vanish(turns * 0x1_0000_0000_0000, exact, 0x1_0000);
        },
        IntSize::I32 => {
            lemma_mod_multiples_vanish(turns * 0x1_0000_0000, exact, 0x1_0000_0000);
        },
        IntSize::I64 => {
            lemma_mod_multiples_vanish(turns, exact, 0x1_0000_0000_0000_0000);
            lemma_small_mod(wrapped as nat, 0x1_0000_0000_0000_0000);
        },
    }
}

/// The 64-bit wrapping sum, masked to a width, is the sum modulo the number
/// of values of the width.
proof fn lemma_sum_wraps(size: IntSize, a: u64, b: u64)
    ensures
        a.wrapping_add(b) & size.mask() == (a + b) % size.modulus(),
{
    let turns: int = if a + b > u64::MAX {
        -1
    } else {
        0
    };
    lemma_masked_is_reduced(size, a + b, a.wrapping_add(b), turns);
}

/// The 64-bit wrapping difference, masked to a width, is the difference
/// modulo the number of values of the width.
proof fn lemma_difference_wraps(size: IntSize, a: u64, b: u64)
    ensures
        a.wrapping_sub(b) & size.mask() == (a - b) % size.modulus(),
{
    let turns: int = if a < b {
        1
    } else {
        0
    };
    lemma_masked_is_reduced(size, a - b, a.wrapping_sub(b), turns);
}

/// The 64-bit wrapping product, masked to a width, is the product modulo
/// the number of values of the width.
proof fn lemma_product_wraps(size: IntSize, a: u64, b: u64)
    ensures
        a.wrapping_mul(b) & size.mask() == (a * b) % size.modulus(),
{
    let exact: int = a * b;
    assert(a as nat * b as nat == exact) by (nonlinear_arith)
        requires
            exact == a * b,
    ;
    lemma_fundamental_div_mod(exact, 0x1_0000_0000_0000_0000);
    lemma_masked_is_reduced(
        size,
        exact,
        a.wrapping_mul(b),
        -(exact / 0x1_0000_0000_0000_0000),
    );
}

/// The right shift that fills with the sign bit is the shift of the signed
/// integer type of each width.
pub proof fn lemma_shr_is_signed_shift(size: IntSize, a: u64, b: u64)
    requires
        size.fits(a),
    ensures
        apply(BinaryOp::Shr, size, a, b) == Ok::<u64, Fault>(
            match size {
                IntSize::I8 => (((a as u8) as i8) >> (b % 8)) as u8 as u64,
                IntSize::I16 => (((a as u16) as i16) >> (b % 16)) as u16 as u64,
                IntSize::I32 => (((a as u32) as i32) >> (b % 32)) as u32 as u64,
                IntSize::I64 => ((a as i64) >> (b % 64)) as u64,
            },
        ),
{
    let d: u64 = shift_distance(size, b);
    match size {
        IntSize::I8 => {
            assert((if a > 0xffu64 / 2 {
                (a >> d) | (0xffu64 ^ (0xffu64 >> d))
            } else {
                a >> d
            }) == (((a as u8) as i8) >> d) as u8 as u64) by (bit_vector)
                requires
                    a <= 0xff,
                    d < 8,
            ;
        },
        IntSize::I16 => {
            assert((if a > 0xffffu64 / 2 {
                (a >> d) | (0xffffu64 ^ (0xffffu64 >> d))
            } else {
                a >> d
            }) == (((a as u16) as i16) >> d) as u16 as u64) by (bit_vector)
                requires
                    a <= 0xffff,
                    d < 16,
            ;
        },
        IntSize::I32 => {
            assert((if a > 0xffff_ffffu64 / 2 {
                (a >> d) | (0xffff_ffffu64 ^ (0xffff_ffffu64 >> d))
            } else {
                a >> d
            }) == (((a as u32) as i32) >> d) as u32 as u64) by (bit_vector)
                requires
                    a <= 0xffff_ffff,
                    d < 32,
            ;
        },
        IntSize::I64 => {
            assert((if a > 0xffff_ffff_ffff_ffffu64 / 2 {
                (a >> d) | (0xffff_ffff_ffff_ffffu64 ^ (0xffff_ffff_ffff_ffffu64 >> d))
            } else {
                a >> d
            }) == ((a as i64) >> d) as u64) by (bit_vector)
                requires
                    d < 64,
            ;
        },
    }
}

/// The result of an operation on two values of a width is a value of the
/// width.
pub proof fn lemma_apply_fits(op: BinaryOp, size: IntSize, a: u64, b: u64)
    requires
        size.fits(a),
        size.fits(b),
    ensures
        apply(op, size, a, b) matches Ok(value) ==> size.fits(value),
        apply(op, size, a, b) is Err <==> (op == BinaryOp::Div || op == BinaryOp::Mod) && b == 0,
{
    lemma_bitwise_fits(a, b, size.mask());
    lemma_shift_fits(a, shift_distance(size, b), size.mask());
}

/// Computes `a <op> b` at the width `size`.
pub fn compute(op: BinaryOp, size: IntSize, a: u64, b: u64) -> (result: Result<u64, Fault>)
    requires
        size.fits(a),
        size.fits(b),
    ensures
        result == apply(op, size, a, b),
        result matches Ok(value) ==> size.fits(value),
{
    let mask: u64 = size.max_value();
    let distance: u64 = b % size.bit_count();
    proof {
        lemma_bitwise_fits(a, b, mask);
        lemma_shift_fits(a, distance, mask);
    }
    match op {
        BinaryOp::And => Ok(a & b),
        BinaryOp::Or => Ok(a | b),
        BinaryOp::Xor => Ok(a ^ b),
        BinaryOp::Shl => Ok((a << distance) & mask),
        BinaryOp::Shr => if a > mask / 2 {
            Ok((a >> distance) | (mask ^ (mask >> distance)))
        } else {
            Ok(a >> distance)
        },
        BinaryOp::UShr => Ok(a >> distance),
        BinaryOp::Add => {
            let sum: u64 = a.wrapping_add(b);
            proof {
                lemma_sum_wraps(size, a, b);
            }
            Ok(sum & mask)
        },
        BinaryOp::Sub => {
            let difference: u64 = a.wrapping_sub(b);
            proof {
                lemma_difference_wraps(size, a, b);
            }
            Ok(difference & mask)
        },
        BinaryOp::Mul => {
            let product: u64 = a.wrapping_mul(b);
            proof {
                lemma_product_wraps(size, a, b);
            }
            Ok(product & mask)
        },
        BinaryOp::Div => if b == 0 {
            Err(Fault::DivisionByZero)
        } else {
            Ok(a / b)
        },
        BinaryOp::Mod => if b == 0 {
            Err(Fault::DivisionByZero)
        } else {
            Ok(a % b)
        },
    }
}

/// Computes the bitwise complement of `a` at the width `size`.
pub fn invert(size: IntSize, a: u64) -> (result: u64)
    requires
        size.fits(a),
    ensures
        result == complement(size, a),
        size.fits(result),
{
    let mask: u64 = size.max_value();
    proof {
        lemma_bitwise_fits(a, a, mask);
    }
    !a & mask
}

} // verus!
