//! The execution engine: one step fetches an instruction, advances the
//! program counter and applies the instruction's effect, all of it or none.

use vstd::prelude::*;

use crate::bytecode::FloatSize;
use crate::bytecode::Instruction;
use crate::bytecode::IntSize;
use crate::vm::alu::compute;
use crate::vm::alu::invert;
use crate::vm::alu::BinaryOp;
use crate::vm::host::Action;
use crate::vm::host::Event;
use crate::vm::host::FloatOp;
use crate::vm::host::IO_ERROR;
use crate::vm::machine::Machine;
use crate::vm::order::compare_floats;
use crate::vm::order::compare_unsigned;
use crate::vm::semantics::Effect;
use crate::vm::stack::unsigned;
use crate::vm::Fault;
use crate::vm::VM;

verus! {

impl Machine {
    /// Whether this machine is `before` but for its stack pointer.
    pub open spec fn rewinds_to(self, before: Machine) -> bool {
        self == (Machine { stack_pointer: self.stack_pointer, ..before })
    }
}

/// Whether an operation that started on `before` and was to come to
/// `expected` did so: it left the expected machine, or it reported the
/// expected fault and touched nothing but the stack pointer.
pub open spec fn carried_out(
    before: Machine,
    after: Machine,
    result: Result<(), Fault>,
    expected: Result<Machine, Fault>,
) -> bool {
    match expected {
        Ok(next) => result is Ok && after == next,
        Err(fault) => result == Err::<(), Fault>(fault) && after.rewinds_to(before),
    }
}

/// Whether an instruction that started on `before` and was to come to
/// `expected` did so: it left the expected machine, or it reported what it
/// asks of the host or the expected fault, and touched nothing but the stack
/// pointer.
pub open spec fn effected(
    before: Machine,
    after: Machine,
    result: Result<Action, Fault>,
    expected: Effect,
) -> bool {
    match expected {
        Effect::Done(next) => result == Ok::<Action, Fault>(Action::Continue) && after == next,
        Effect::Ask(action) => result == Ok::<Action, Fault>(action) && action != Action::Continue
            && after.rewinds_to(before),
        Effect::Fault(fault) => result == Err::<Action, Fault>(fault) && after.rewinds_to(before),
    }
}

impl VM {
    /// Pops a value of the width `size`.
    fn pop_int(&mut self, size: IntSize) -> (result: Result<u64, Fault>)
        requires
            old(self).wf(),
        ensures
            final(self).wf(),
            match old(self)@.pop_value(size) {
                Ok((next, value)) => result == Ok::<u64, Fault>(value) && final(self)@ == next
                    && size.fits(value),
                Err(fault) => result == Err::<u64, Fault>(fault) && final(self)@ == old(self)@,
            },
    {
        match size {
            IntSize::I8 => Ok(self.pop_u8()? as u64),
            IntSize::I16 => Ok(self.pop_u16()? as u64),
            IntSize::I32 => Ok(self.pop_u32()? as u64),
            IntSize::I64 => self.pop_u64(),
        }
    }

    /// Pushes a value of the width `size`.
    fn push_int(&mut self, size: IntSize, value: u64) -> (result: Result<(), Fault>)
        requires
            old(self).wf(),
            size.fits(value),
        ensures
            final(self).wf(),
            match old(self)@.push_value(size, value) {
                Ok(next) => result is Ok && final(self)@ == next,
                Err(fault) => result == Err::<(), Fault>(fault) && final(self)@ == old(self)@,
            },
            result is Err <==> old(self)@.depth() + size.width() >= old(self)@.max_stack,
    {
        match size {
            IntSize::I8 => self.push_u8(value as u8),
            IntSize::I16 => self.push_u16(value as u16),
            IntSize::I32 => self.push_u32(value as u32),
            IntSize::I64 => self.push_u64(value),
        }
    }

    /// The value of the width `size` at `addr`.
    fn load_int(&self, addr: u64, size: IntSize) -> (result: Result<u64, Fault>)
        requires
            self.wf(),
        ensures
            result == self@.load(addr, size),
            result matches Ok(value) ==> size.fits(value),
    {
        match size {
            IntSize::I8 => Ok(self.get_u8(addr)? as u64),
            IntSize::I16 => Ok(self.get_u16(addr)? as u64),
            IntSize::I32 => Ok(self.get_u32(addr)? as u64),
            IntSize::I64 => self.get_u64(addr),
        }
    }

    /// Stores a value of the width `size` at `addr`.
    fn store_int(&mut self, addr: u64, size: IntSize, value: u64) -> (result: Result<(), Fault>)
        requires
            old(self).wf(),
            size.fits(value),
        ensures
            final(self).wf(),
            match old(self)@.store(addr, size, value) {
                Ok(next) => result is Ok && final(self)@ == next,
                Err(fault) => result == Err::<(), Fault>(fault) && final(self)@ == old(self)@,
            },
    {
        match size {
            IntSize::I8 => self.set_u8(addr, value as u8),
            IntSize::I16 => self.set_u16(addr, value as u16),
            IntSize::I32 => self.set_u32(addr, value as u32),
            IntSize::I64 => self.set_u64(addr, value),
        }
    }

    /// Pops `b`, then `a`, both of the width `size`, and returns `(a, b)`.
    fn pop_pair(&mut self, size: IntSize) -> (result: Result<(u64, u64), Fault>)
        requires
            old(self).wf(),
        ensures
            final(self).wf(),
            match old(self)@.pop_pair(size) {
                Ok((next, a, b)) => result == Ok::<(u64, u64), Fault>((a, b)) && final(self)@
                    == next && size.fits(a) && size.fits(b),
                Err(fault) => result == Err::<(u64, u64), Fault>(fault) && final(self)@.rewinds_to(
                    old(self)@,
                ),
            },
    {
        let b: u64 = self.pop_int(size)?;
        let a: u64 = self.pop_int(size)?;
        Ok((a, b))
    }

    /// Pops two operands and pushes the result of `op` on them.
    fn binary(&mut self, op: BinaryOp, size: IntSize) -> (result: Result<(), Fault>)
        requires
            old(self).wf(),
        ensures
            final(self).wf(),
            carried_out(old(self)@, final(self)@, result, old(self)@.binary(op, size)),
    {
        let (a, b): (u64, u64) = self.pop_pair(size)?;
        let value: u64 = compute(op, size, a, b)?;
        self.push_int(size, value)
    }

    /// Pops an operand and pushes its bitwise complement.
    fn negate(&mut self, size: IntSize) -> (result: Result<(), Fault>)
        requires
            old(self).wf(),
        ensures
            final(self).wf(),
            carried_out(old(self)@, final(self)@, result, old(self)@.negate(size)),
    {
        let a: u64 = self.pop_int(size)?;
        self.push_int(size, invert(size, a))
    }

    /// Pops two unsigned integers and pushes how they compare.
    fn compare(&mut self, size: IntSize) -> (result: Result<(), Fault>)
        requires
            old(self).wf(),
        ensures
            final(self).wf(),
            carried_out(old(self)@, final(self)@, result, old(self)@.compare(size)),
    {
        let (a, b): (u64, u64) = self.pop_pair(size)?;
        self.push_i64(compare_unsigned(a, b))
    }

    /// Pops two floating point numbers and pushes how they compare.
    fn compare_floats(&mut self, size: FloatSize) -> (result: Result<(), Fault>)
        requires
            old(self).wf(),
        ensures
            final(self).wf(),
            carried_out(old(self)@, final(self)@, result, old(self)@.compare_floats(size)),
    {
        let (a, b): (u64, u64) = self.pop_pair(size.int_size())?;
        self.push_i64(compare_floats(size, a, b))
    }

    /// Pops a value and a target, and jumps to the target if the value is
    /// zero.
    fn jump_if_zero(&mut self, size: IntSize) -> (result: Result<(), Fault>)
        requires
            old(self).wf(),
        ensures
            final(self).wf(),
            carried_out(old(self)@, final(self)@, result, old(self)@.jump_if_zero(size)),
    {
        let value: u64 = self.pop_int(size)?;
        let target: u64 = self.pop_u64()?;
        if value == 0 {
            self.program_counter = target;
        }
        Ok(())
    }

    /// Pops an address and pushes the value stored there.
    fn load_to_stack(&mut self, size: IntSize) -> (result: Result<(), Fault>)
        requires
            old(self).wf(),
        ensures
            final(self).wf(),
            carried_out(old(self)@, final(self)@, result, old(self)@.load_to_stack(size)),
    {
        let addr: u64 = self.pop_u64()?;
        let value: u64 = self.load_int(addr, size)?;
        self.push_int(size, value)
    }

    /// Pops an address and a value, and stores the value at the address.
    fn store_from_stack(&mut self, size: IntSize) -> (result: Result<(), Fault>)
        requires
            old(self).wf(),
        ensures
            final(self).wf(),
            carried_out(old(self)@, final(self)@, result, old(self)@.store_from_stack(size)),
    {
        let addr: u64 = self.pop_u64()?;
        let value: u64 = self.pop_int(size)?;
        self.store_int(addr, size, value)
    }

    /// Pops two floating point numbers and pushes the host's result, or
    /// asks the host for it.
    fn float_arithmetic(&mut self, op: FloatOp, size: FloatSize, event: &Event) -> (result: Result<
        Action,
        Fault,
    >)
        requires
            old(self).wf(),
        ensures
            final(self).wf(),
            effected(old(self)@, final(self)@, result, old(self)@.float_arithmetic(op, size, *event)),
    {
        let carrier = size.int_size();
        let (a, b): (u64, u64) = self.pop_pair(carrier)?;
        match event {
            Event::Float(pattern) => {
                if *pattern <= carrier.max_value() {
                    self.push_int(carrier, *pattern)?;
                    return Ok(Action::Continue);
                }
            },
            _ => {},
        }
        Ok(Action::Float { op, size, a, b })
    }

    /// Pops a descriptor, an address and a length.
    fn pop_transfer(&mut self) -> (result: Result<(u32, u64, u16), Fault>)
        requires
            old(self).wf(),
        ensures
            final(self).wf(),
            match old(self)@.pop_transfer() {
                Ok((next, descriptor, addr, len)) => result == Ok::<(u32, u64, u16), Fault>(
                    (descriptor as u32, addr, len as u16),
                ) && final(self)@ == next && descriptor == descriptor as u32 && len == len as u16
                    && final(self)@.depth() + 14 == old(self)@.depth(),
                Err(fault) => result == Err::<(u32, u64, u16), Fault>(fault)
                    && final(self)@.rewinds_to(old(self)@),
            },
    {
        let descriptor: u32 = self.pop_u32()?;
        let addr: u64 = self.pop_u64()?;
        let len: u16 = self.pop_u16()?;
        Ok((descriptor, addr, len))
    }

    /// Stores what the host read and pushes its length, or asks the host to
    /// read.
    fn input(&mut self, event: &Event) -> (result: Result<Action, Fault>)
        requires
            old(self).wf(),
        ensures
            final(self).wf(),
            effected(old(self)@, final(self)@, result, old(self)@.input(*event)),
    {
        let (descriptor, dst, max_len): (u32, u64, u16) = self.pop_transfer()?;
        if descriptor != 0 {
            return Err(Fault::UnsupportedDescriptor);
        }
        match event {
            Event::Read(data) => {
                if data.len() <= max_len as usize {
                    self.set_bytes(dst, data.as_slice())?;
                    self.push_u16(data.len() as u16)?;
                    return Ok(Action::Continue);
                }
            },
            Event::ReadFailed => {
                self.push_u16(IO_ERROR)?;
                return Ok(Action::Continue);
            },
            _ => {},
        }
        Ok(Action::Read { max_len })
    }

    /// Pushes the number of bytes that the host wrote, or asks the host to
    /// write.
    fn output(&mut self, event: &Event) -> (result: Result<Action, Fault>)
        requires
            old(self).wf(),
        ensures
            final(self).wf(),
            effected(old(self)@, final(self)@, result, old(self)@.output(*event)),
    {
        let (descriptor, src, len): (u32, u64, u16) = self.pop_transfer()?;
        self.get_bytes(src, len as u64)?;
        if descriptor != 1 {
            return Err(Fault::UnsupportedDescriptor);
        }
        match event {
            Event::Written(count) => {
                if *count <= len {
                    self.push_u16(*count)?;
                    return Ok(Action::Continue);
                }
            },
            Event::WriteFailed => {
                self.push_u16(IO_ERROR)?;
                return Ok(Action::Continue);
            },
            _ => {},
        }
        Ok(Action::Write { src, len })
    }

    /// Applies the effect of `instruction`, which was fetched already.
    fn perform(&mut self, instruction: Instruction, event: &Event) -> (result: Result<Action, Fault>)
        requires
            old(self).wf(),
        ensures
            final(self).wf(),
            effected(old(self)@, final(self)@, result, old(self)@.perform(instruction, *event)),
    {
        match instruction {
            Instruction::And(size) => self.binary(BinaryOp::And, size)?,
            Instruction::Or(size) => self.binary(BinaryOp::Or, size)?,
            Instruction::Xor(size) => self.binary(BinaryOp::Xor, size)?,
            Instruction::Not(size) => self.negate(size)?,
            Instruction::Shl(size) => self.binary(BinaryOp::Shl, size)?,
            Instruction::Shr(size) => self.binary(BinaryOp::Shr, size)?,
            Instruction::UShr(size) => self.binary(BinaryOp::UShr, size)?,
            Instruction::Add(size) => self.binary(BinaryOp::Add, size)?,
            Instruction::Addf(size) => return self.float_arithmetic(FloatOp::Add, size, event),
            Instruction::Sub(size) => self.binary(BinaryOp::Sub, size)?,
            Instruction::Subf(size) => return self.float_arithmetic(FloatOp::Sub, size, event),
            Instruction::Mul(size) => self.binary(BinaryOp::Mul, size)?,
            Instruction::Mulf(size) => return self.float_arithmetic(FloatOp::Mul, size, event),
            Instruction::Div(size) => self.binary(BinaryOp::Div, size)?,
            Instruction::Divf(size) => return self.float_arithmetic(FloatOp::Div, size, event),
            Instruction::Mod(size) => self.binary(BinaryOp::Mod, size)?,
            Instruction::Modf(size) => return self.float_arithmetic(FloatOp::Rem, size, event),
            Instruction::Cmp(size) => self.compare(size)?,
            Instruction::Cmpf(size) => self.compare_floats(size)?,
            Instruction::Jmp(target) => {
                let index: u64 = target as u64;
                assert(index == unsigned(target)) by (bit_vector)
                    requires
                        index == target as u64,
                ;
                self.program_counter = index;
            },
            Instruction::Jz(size) => self.jump_if_zero(size)?,
            Instruction::Read => return self.input(event),
            Instruction::Write => return self.output(event),
            Instruction::Push(byte) => self.push_u8(byte)?,
            Instruction::Pop(count) => {
                self.pop_bytes(count as u64)?;
            },
            Instruction::Load { size } => self.load_to_stack(size)?,
            Instruction::Store { size } => self.store_from_stack(size)?,
            Instruction::PushSP => self.push_u64(self.stack_pointer)?,
            Instruction::PushIP => self.push_u64(self.program_counter)?,
            Instruction::PushMaxHeapSize => self.push_u64(self.main_memory.len() as u64)?,
        }
        Ok(Action::Continue)
    }

    /// Executes one instruction.
    ///
    /// Past the end of the program the step faults with `ProgramEnded` and
    /// changes nothing. Else the program counter advances past the fetched
    /// instruction, and the instruction takes effect as a whole: where it
    /// faults, the stack pointer and all memory are as they were before the
    /// step. Where it needs its host, the step hands back what the host is to
    /// do and changes nothing at all; the step that brings the answering
    /// event completes the instruction.
    pub fn tick(&mut self, event: Event) -> (result: Result<Action, Fault>)
        requires
            old(self).wf(),
        ensures
            final(self).wf(),
            (final(self)@, result) == old(self)@.step(event),
            old(self)@.fetch() is None ==> result == Err::<Action, Fault>(Fault::ProgramEnded)
                && final(self)@ == old(self)@,
            result is Err ==> final(self)@.stack_pointer == old(self)@.stack_pointer
                && final(self)@.heap == old(self)@.heap
                && final(self)@.stack == old(self)@.stack,
    {
        let pc: u64 = self.program_counter;
        if pc >= self.program.len() as u64 {
            return Err(Fault::ProgramEnded);
        }
        let instruction = self.program[pc as usize];
        let saved: u64 = self.stack_pointer;
        self.program_counter = pc + 1;
        match self.perform(instruction, &event) {
            Ok(Action::Continue) => Ok(Action::Continue),
            Ok(action) => {
                self.stack_pointer = saved;
                self.program_counter = pc;
                Ok(action)
            },
            Err(fault) => {
                self.stack_pointer = saved;
                Err(fault)
            },
        }
    }
}

} // verus!
