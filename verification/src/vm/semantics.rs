//! What one step of the machine does, as a function of its state and of the
//! event that its host reports.

use vstd::prelude::*;

use crate::bytecode::FloatSize;
use crate::bytecode::Instruction;
use crate::bytecode::IntSize;
use crate::vm::alu::apply;
use crate::vm::alu::complement;
use crate::vm::alu::BinaryOp;
use crate::vm::host::answers;
use crate::vm::host::Action;
use crate::vm::host::Event;
use crate::vm::host::FloatOp;
use crate::vm::host::IO_ERROR;
use crate::vm::machine::Machine;
use crate::vm::order::float_three_way;
use crate::vm::order::three_way;
use crate::vm::stack::unsigned;
use crate::vm::Fault;

verus! {

/// What an instruction comes to.
pub enum Effect {
    /// It ran to completion and left this machine.
    Done(Machine),
    /// It cannot go on before the host has done this.
    Ask(Action),
    /// It faulted.
    Fault(Fault),
}

/// The effect of an instruction that needs nothing of the host.
pub open spec fn settled(outcome: Result<Machine, Fault>) -> Effect {
    match outcome {
        Ok(next) => Effect::Done(next),
        Err(fault) => Effect::Fault(fault),
    }
}

impl Machine {
    /// The machine after two values of width `size` were popped, and the
    /// values: first the one that lay deeper, `a`, then the top one, `b`.
    pub open spec fn pop_pair(self, size: IntSize) -> Result<(Machine, u64, u64), Fault> {
        match self.pop_value(size) {
            Ok((upper, b)) => match upper.pop_value(size) {
                Ok((rest, a)) => Ok((rest, a, b)),
                Err(fault) => Err(fault),
            },
            Err(fault) => Err(fault),
        }
    }

    /// Pops `b`, then `a`, and pushes `a <op> b`.
    pub open spec fn binary(self, op: BinaryOp, size: IntSize) -> Result<Machine, Fault> {
        match self.pop_pair(size) {
            Ok((rest, a, b)) => match apply(op, size, a, b) {
                Ok(value) => rest.push_value(size, value),
                Err(fault) => Err(fault),
            },
            Err(fault) => Err(fault),
        }
    }

    /// Pops a value and pushes its bitwise complement.
    pub open spec fn negate(self, size: IntSize) -> Result<Machine, Fault> {
        match self.pop_value(size) {
            Ok((rest, a)) => rest.push_value(size, complement(size, a)),
            Err(fault) => Err(fault),
        }
    }

    /// Pops `b`, then `a`, and pushes -1, 0 or 1 in 64 bits as the unsigned
    /// `a` is below, equal to or above `b`.
    pub open spec fn compare(self, size: IntSize) -> Result<Machine, Fault> {
        match self.pop_pair(size) {
            Ok((rest, a, b)) => rest.push_value(
                IntSize::I64,
                unsigned(three_way(a as int, b as int)),
            ),
            Err(fault) => Err(fault),
        }
    }

    /// Pops `b`, then `a`, and pushes -1, 0 or 1 in 64 bits as the floating
    /// point number `a` is below, equal to or above `b`.
    pub open spec fn compare_floats(self, size: FloatSize) -> Result<Machine, Fault> {
        match self.pop_pair(size.carrier()) {
            Ok((rest, a, b)) => rest.push_value(
                IntSize::I64,
                unsigned(float_three_way(size, a, b)),
            ),
            Err(fault) => Err(fault),
        }
    }

    /// Pops a value of width `size`, then a 64-bit target, and jumps to the
    /// target if the value is zero.
    pub open spec fn jump_if_zero(self, size: IntSize) -> Result<Machine, Fault> {
        match self.pop_value(size) {
            Ok((upper, value)) => match upper.pop_value(IntSize::I64) {
                Ok((rest, target)) => Ok(
                    if value == 0 {
                        Machine { program_counter: target, ..rest }
                    } else {
                        rest
                    },
                ),
                Err(fault) => Err(fault),
            },
            Err(fault) => Err(fault),
        }
    }

    /// Pops a 64-bit address and pushes the value of width `size` at it.
    pub open spec fn load_to_stack(self, size: IntSize) -> Result<Machine, Fault> {
        match self.pop_value(IntSize::I64) {
            Ok((rest, addr)) => match rest.load(addr, size) {
                Ok(value) => rest.push_value(size, value),
                Err(fault) => Err(fault),
            },
            Err(fault) => Err(fault),
        }
    }

    /// Pops a 64-bit address, then a value of width `size`, and stores the
    /// value at the address.
    pub open spec fn store_from_stack(self, size: IntSize) -> Result<Machine, Fault> {
        match self.pop_value(IntSize::I64) {
            Ok((upper, addr)) => match upper.pop_value(size) {
                Ok((rest, value)) => rest.store(addr, size, value),
                Err(fault) => Err(fault),
            },
            Err(fault) => Err(fault),
        }
    }

    /// Pops `b`, then `a`, and pushes the host's result of `a <op> b`.
    pub open spec fn float_arithmetic(self, op: FloatOp, size: FloatSize, event: Event) -> Effect {
        match self.pop_pair(size.carrier()) {
            Ok((rest, a, b)) => {
                let action = Action::Float { op, size, a, b };
                match event {
                    Event::Float(pattern) if answers(event, action) => settled(
                        rest.push_value(size.carrier(), pattern),
                    ),
                    _ => Effect::Ask(action),
                }
            },
            Err(fault) => Effect::Fault(fault),
        }
    }

    /// The machine after the operands of input and output were popped, and
    /// the operands: a 32-bit descriptor, a 64-bit address and a 16-bit
    /// length, popped in this order.
    pub open spec fn pop_transfer(self) -> Result<(Machine, u64, u64, u64), Fault> {
        match self.pop_value(IntSize::I32) {
            Ok((second, descriptor)) => match second.pop_value(IntSize::I64) {
                Ok((third, addr)) => match third.pop_value(IntSize::I16) {
                    Ok((rest, len)) => Ok((rest, descriptor, addr, len)),
                    Err(fault) => Err(fault),
                },
                Err(fault) => Err(fault),
            },
            Err(fault) => Err(fault),
        }
    }

    /// Pops the operands, stores what the host read from standard input at
    /// the address, and pushes the number of bytes in 16 bits, or `IO_ERROR`
    /// where reading failed. Standard input is descriptor 0, and the only
    /// one that can be read.
    pub open spec fn input(self, event: Event) -> Effect {
        match self.pop_transfer() {
            Ok((rest, descriptor, dst, max_len)) => {
                let action = Action::Read { max_len: max_len as u16 };
                if descriptor != 0 {
                    Effect::Fault(Fault::UnsupportedDescriptor)
                } else if !answers(event, action) {
                    Effect::Ask(action)
                } else {
                    match event {
                        Event::Read(data) => match rest.write(dst, data@) {
                            Ok(stored) => settled(
                                stored.push_value(IntSize::I16, data@.len() as u64),
                            ),
                            Err(fault) => Effect::Fault(fault),
                        },
                        _ => settled(rest.push_value(IntSize::I16, IO_ERROR as u64)),
                    }
                }
            },
            Err(fault) => Effect::Fault(fault),
        }
    }

    /// Pops the operands, has the host write the memory at the address to
    /// standard output, and pushes the number of bytes written in 16 bits, or
    /// `IO_ERROR` where writing failed. Standard output is descriptor 1, and
    /// the only one that can be written.
    pub open spec fn output(self, event: Event) -> Effect {
        match self.pop_transfer() {
            Ok((rest, descriptor, src, len)) => {
                let action = Action::Write { src, len: len as u16 };
                if rest.read(src, len as nat) is Err {
                    Effect::Fault(Fault::SegmentationFault)
                } else if descriptor != 1 {
                    Effect::Fault(Fault::UnsupportedDescriptor)
                } else if !answers(event, action) {
                    Effect::Ask(action)
                } else {
                    match event {
                        Event::Written(count) => settled(
                            rest.push_value(IntSize::I16, count as u64),
                        ),
                        _ => settled(rest.push_value(IntSize::I16, IO_ERROR as u64)),
                    }
                }
            },
            Err(fault) => Effect::Fault(fault),
        }
    }

    /// The effect of `instruction` on a machine whose program counter
    /// already points past it.
    pub open spec fn perform(self, instruction: Instruction, event: Event) -> Effect {
        match instruction {
            Instruction::And(size) => settled(self.binary(BinaryOp::And, size)),
            Instruction::Or(size) => settled(self.binary(BinaryOp::Or, size)),
            Instruction::Xor(size) => settled(self.binary(BinaryOp::Xor, size)),
            Instruction::Not(size) => settled(self.negate(size)),
            Instruction::Shl(size) => settled(self.binary(BinaryOp::Shl, size)),
            Instruction::Shr(size) => settled(self.binary(BinaryOp::Shr, size)),
            Instruction::UShr(size) => settled(self.binary(BinaryOp::UShr, size)),
            Instruction::Add(size) => settled(self.binary(BinaryOp::Add, size)),
            Instruction::Addf(size) => self.float_arithmetic(FloatOp::Add, size, event),
            Instruction::Sub(size) => settled(self.binary(BinaryOp::Sub, size)),
            Instruction::Subf(size) => self.float_arithmetic(FloatOp::Sub, size, event),
            Instruction::Mul(size) => settled(self.binary(BinaryOp::Mul, size)),
            Instruction::Mulf(size) => self.float_arithmetic(FloatOp::Mul, size, event),
            Instruction::Div(size) => settled(self.binary(BinaryOp::Div, size)),
            Instruction::Divf(size) => self.float_arithmetic(FloatOp::Div, size, event),
            Instruction::Mod(size) => settled(self.binary(BinaryOp::Mod, size)),
            Instruction::Modf(size) => self.float_arithmetic(FloatOp::Rem, size, event),
            Instruction::Cmp(size) => settled(self.compare(size)),
            Instruction::Cmpf(size) => settled(self.compare_floats(size)),
            Instruction::Jmp(target) => Effect::Done(
                Machine { program_counter: unsigned(target), ..self },
            ),
            Instruction::Jz(size) => settled(self.jump_if_zero(size)),
            Instruction::Read => self.input(event),
            Instruction::Write => self.output(event),
            Instruction::Push(byte) => settled(self.push_value(IntSize::I8, byte as u64)),
            Instruction::Pop(count) => settled(
                match self.pop(count as nat) {
                    Ok((rest, _)) => Ok(rest),
                    Err(fault) => Err(fault),
                },
            ),
            Instruction::Load { size } => settled(self.load_to_stack(size)),
            Instruction::Store { size } => settled(self.store_from_stack(size)),
            Instruction::PushSP => settled(self.push_value(IntSize::I64, self.stack_pointer)),
            Instruction::PushIP => settled(self.push_value(IntSize::I64, self.program_counter)),
            Instruction::PushMaxHeapSize => settled(
                self.push_value(IntSize::I64, self.heap.len() as u64),
            ),
        }
    }

    /// The instruction that the program counter points at, if it points at
    /// one.
    pub open spec fn fetch(self) -> Option<Instruction> {
        if self.program_counter < self.program.len() {
            Some(self.program[self.program_counter as int])
        } else {
            None
        }
    }

    /// The machine with its program counter advanced past one instruction.
    pub open spec fn advanced(self) -> Machine {
        Machine { program_counter: (self.program_counter + 1) as u64, ..self }
    }

    /// One step: the machine it leaves and what it reports.
    ///
    /// Past the end of the program the step reports `ProgramEnded` and
    /// leaves the machine as it is. Else it fetches an instruction and
    /// advances the program counter. An instruction that completes leaves
    /// its effect; one that waits for its host leaves the machine as it was
    /// before the fetch, to be stepped again; one that faults leaves the
    /// program counter advanced and nothing else changed.
    pub open spec fn step(self, event: Event) -> (Machine, Result<Action, Fault>) {
        match self.fetch() {
            Some(instruction) => match self.advanced().perform(instruction, event) {
                Effect::Done(next) => (next, Ok(Action::Continue)),
                Effect::Ask(action) => (self, Ok(action)),
                Effect::Fault(fault) => (self.advanced(), Err(fault)),
            },
            None => (self, Err(Fault::ProgramEnded)),
        }
    }
}

} // verus!
