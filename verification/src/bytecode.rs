//! The instruction set: the closed vocabulary of operations the machine
//! executes, and the size tags that select an operand width.

use vstd::prelude::*;

verus! {

/// Width of an integer operand.
#[derive(Debug, Clone, Copy, PartialEq, Eq, Structural)]
pub enum IntSize {
    I8,
    I16,
    I32,
    I64,
}

/// Width of a floating point operand, which travels as its IEEE-754 bit pattern.
#[derive(Debug, Clone, Copy, PartialEq, Eq, Structural)]
pub enum FloatSize {
    F32,
    F64,
}

impl IntSize {
    /// Number of bytes an operand of this width occupies.
    pub open spec fn width(self) -> nat {
        match self {
            IntSize::I8 => 1,
            IntSize::I16 => 2,
            IntSize::I32 => 4,
            IntSize::I64 => 8,
        }
    }

    /// Number of bits in an operand of this width.
    pub open spec fn bits(self) -> u64 {
        match self {
            IntSize::I8 => 8,
            IntSize::I16 => 16,
            IntSize::I32 => 32,
            IntSize::I64 => 64,
        }
    }

    /// The largest value of this width, which is also the mask of its bits.
    pub open spec fn mask(self) -> u64 {
        match self {
            IntSize::I8 => 0xff,
            IntSize::I16 => 0xffff,
            IntSize::I32 => 0xffff_ffff,
            IntSize::I64 => 0xffff_ffff_ffff_ffff,
        }
    }

    /// Number of distinct values of this width: two to the power `bits()`.
    pub open spec fn modulus(self) -> int {
        self.mask() + 1
    }

    /// Whether `value` is representable in this width.
    pub open spec fn fits(self, value: u64) -> bool {
        value <= self.mask()
    }

    /// Number of bits in an operand of this width.
    pub fn bit_count(self) -> (count: u64)
        ensures
            count == self.bits(),
    {
        match self {
            IntSize::I8 => 8,
            IntSize::I16 => 16,
            IntSize::I32 => 32,
            IntSize::I64 => 64,
        }
    }

    /// The largest value of this width.
    pub fn max_value(self) -> (max: u64)
        ensures
            max == self.mask(),
    {
        match self {
            IntSize::I8 => 0xff,
            IntSize::I16 => 0xffff,
            IntSize::I32 => 0xffff_ffff,
            IntSize::I64 => 0xffff_ffff_ffff_ffff,
        }
    }
}

impl FloatSize {
    /// The integer width that carries a bit pattern of this float width.
    pub open spec fn carrier(self) -> IntSize {
        match self {
            FloatSize::F32 => IntSize::I32,
            FloatSize::F64 => IntSize::I64,
        }
    }

    /// The integer width that carries a bit pattern of this float width.
    pub fn int_size(self) -> (size: IntSize)
        ensures
            size == self.carrier(),
    {
        match self {
            FloatSize::F32 => IntSize::I32,
            FloatSize::F64 => IntSize::I64,
        }
    }
}

/// One operation of the machine.
///
/// Binary operations pop `b`, then `a`, and push `a <op> b`; the operand that
/// was pushed first is therefore the left one.
#[derive(Debug, Clone, Copy, PartialEq, Eq)]
pub enum Instruction {
    /// Bitwise AND of two operands of the given width.
    And(IntSize),
    /// Bitwise OR of two operands of the given width.
    Or(IntSize),
    /// Bitwise XOR of two operands of the given width.
    Xor(IntSize),
    /// Bitwise complement of one operand of the given width.
    Not(IntSize),
    /// Shift `a` left by `b`, filling with zeroes.
    Shl(IntSize),
    /// Shift `a` right by `b`, filling with the sign bit of `a`.
    Shr(IntSize),
    /// Shift `a` right by `b`, filling with zeroes.
    UShr(IntSize),
    /// Wrapping integer addition.
    Add(IntSize),
    /// Floating point addition.
    Addf(FloatSize),
    /// Wrapping integer subtraction.
    Sub(IntSize),
    /// Floating point subtraction.
    Subf(FloatSize),
    /// Wrapping integer multiplication.
    Mul(IntSize),
    /// Floating point multiplication.
    Mulf(FloatSize),
    /// Unsigned integer division.
    Div(IntSize),
    /// Floating point division.
    Divf(FloatSize),
    /// Unsigned integer remainder.
    Mod(IntSize),
    /// Floating point remainder.
    Modf(FloatSize),
    /// Compare two unsigned integers; push -1, 0 or 1 as a 64-bit value.
    Cmp(IntSize),
    /// Compare two floating point numbers; push -1, 0 or 1 as a 64-bit value.
    Cmpf(FloatSize),
    /// Jump to the given absolute instruction index.
    Jmp(i64),
    /// Pop a value of the given width, then a 64-bit target; jump there if the
    /// value is zero.
    Jz(IntSize),
    /// Pop a 32-bit descriptor, a 64-bit destination and a 16-bit maximum
    /// length; read from the descriptor into memory and push the count.
    Read,
    /// Pop a 32-bit descriptor, a 64-bit source and a 16-bit length; write
    /// that memory to the descriptor and push the count.
    Write,
    /// Push one literal byte.
    Push(u8),
    /// Discard the given number of bytes from the top of the stack.
    Pop(usize),
    /// Pop a 64-bit address and push the value of width `size` stored there.
    Load { size: IntSize },
    /// Pop a 64-bit address, then a value of width `size`, and store the
    /// value at the address.
    Store { size: IntSize },
    /// Push the stack pointer.
    PushSP,
    /// Push the program counter, which already points past this instruction.
    PushIP,
    /// Push the size of the heap in bytes.
    PushMaxHeapSize,
}

} // verus!
