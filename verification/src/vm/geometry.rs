//! The geometry of a machine is kept by everything that the machine does.

use vstd::prelude::*;

use crate::bytecode::FloatSize;
use crate::bytecode::Instruction;
use crate::bytecode::IntSize;
use crate::vm::alu::apply;
use crate::vm::alu::complement;
use crate::vm::alu::BinaryOp;
use crate::vm::codec::le_bytes;
use crate::vm::codec::lemma_le_bytes_len;
use crate::vm::codec::lemma_le_value_bound;
use crate::vm::codec::lemma_radix_values;
use crate::vm::host::Event;
use crate::vm::host::FloatOp;
use crate::vm::host::IO_ERROR;
use crate::vm::machine::Machine;
use crate::vm::order::float_three_way;
use crate::vm::order::three_way;
use crate::vm::semantics::Effect;
use crate::vm::stack::unsigned;

verus! {

/// A store keeps the geometry.
pub proof fn lemma_write_keeps_geometry(machine: Machine, addr: u64, bytes: Seq<u8>)
    requires
        machine.well_formed(),
    ensures
        machine.write(addr, bytes) matches Ok(next) ==> next.well_formed(),
{
}

/// A pop keeps the geometry, and lowers the stack pointer by what it took.
pub proof fn lemma_pop_keeps_geometry(machine: Machine, count: nat)
    requires
        machine.well_formed(),
    ensures
        machine.pop(count) matches Ok((rest, bytes)) ==> rest.well_formed() && bytes.len() == count
            && rest.depth() + count == machine.depth(),
{
}

/// A push keeps the geometry, and raises the stack pointer by what it put.
pub proof fn lemma_push_keeps_geometry(machine: Machine, bytes: Seq<u8>)
    requires
        machine.well_formed(),
    ensures
        machine.push(bytes) matches Ok(next) ==> next.well_formed() && next.depth()
            == machine.depth() + bytes.len(),
{
}

/// A pop of a value keeps the geometry.
pub proof fn lemma_pop_value_keeps_geometry(machine: Machine, size: IntSize)
    requires
        machine.well_formed(),
    ensures
        machine.pop_value(size) matches Ok((rest, value)) ==> rest.well_formed() && rest.depth()
            + size.width() == machine.depth(),
{
    lemma_pop_keeps_geometry(machine, size.width());
}

/// A push of a value keeps the geometry.
pub proof fn lemma_push_value_keeps_geometry(machine: Machine, size: IntSize, value: u64)
    requires
        machine.well_formed(),
    ensures
        machine.push_value(size, value) matches Ok(next) ==> next.well_formed() && next.depth()
            == machine.depth() + size.width(),
        machine.push_value(size, value) is Err <==> machine.depth() + size.width()
            >= machine.max_stack,
{
    lemma_le_bytes_len(value as nat, size.width());
    lemma_push_keeps_geometry(machine, le_bytes(value as nat, size.width()));
}

/// A pop of two values keeps the geometry.
pub proof fn lemma_pop_pair_keeps_geometry(machine: Machine, size: IntSize)
    requires
        machine.well_formed(),
    ensures
        machine.pop_pair(size) matches Ok((rest, a, b)) ==> rest.well_formed() && rest.depth() + 2
            * size.width() == machine.depth(),
{
    lemma_pop_value_keeps_geometry(machine, size);
    if let Ok((upper, b)) = machine.pop_value(size) {
        lemma_pop_value_keeps_geometry(upper, size);
    }
}

/// A pop of the operands of input and output keeps the geometry.
pub proof fn lemma_pop_transfer_keeps_geometry(machine: Machine)
    requires
        machine.well_formed(),
    ensures
        machine.pop_transfer() matches Ok((rest, descriptor, addr, len)) ==> rest.well_formed()
            && rest.depth() + 14 == machine.depth() && len <= u16::MAX,
{
    lemma_pop_value_keeps_geometry(machine, IntSize::I32);
    if let Ok((second, descriptor)) = machine.pop_value(IntSize::I32) {
        lemma_pop_value_keeps_geometry(second, IntSize::I64);
        if let Ok((third, addr)) = second.pop_value(IntSize::I64) {
            lemma_pop_value_keeps_geometry(third, IntSize::I16);
            if let Ok((rest, bytes)) = third.pop(2) {
                lemma_le_value_bound(bytes);
                lemma_radix_values();
            }
        }
    }
}

/// A binary operation keeps the geometry.
proof fn lemma_binary_keeps_geometry(machine: Machine, op: BinaryOp, size: IntSize)
    requires
        machine.well_formed(),
    ensures
        machine.binary(op, size) matches Ok(next) ==> next.well_formed(),
{
    lemma_pop_pair_keeps_geometry(machine, size);
    if let Ok((rest, a, b)) = machine.pop_pair(size) {
        if let Ok(value) = apply(op, size, a, b) {
            lemma_push_value_keeps_geometry(rest, size, value);
        }
    }
}

/// Floating point arithmetic keeps the geometry.
proof fn lemma_float_arithmetic_keeps_geometry(
    machine: Machine,
    op: FloatOp,
    size: FloatSize,
    event: Event,
)
    requires
        machine.well_formed(),
    ensures
        machine.float_arithmetic(op, size, event) matches Effect::Done(next) ==> next.well_formed(),
{
    lemma_pop_pair_keeps_geometry(machine, size.carrier());
    if let Ok((rest, a, b)) = machine.pop_pair(size.carrier()) {
        if let Event::Float(pattern) = event {
            lemma_push_value_keeps_geometry(rest, size.carrier(), pattern);
        }
    }
}

/// Input keeps the geometry.
proof fn lemma_input_keeps_geometry(machine: Machine, event: Event)
    requires
        machine.well_formed(),
    ensures
        machine.input(event) matches Effect::Done(next) ==> next.well_formed(),
{
    lemma_pop_transfer_keeps_geometry(machine);
    if let Ok((rest, descriptor, dst, max_len)) = machine.pop_transfer() {
        lemma_push_value_keeps_geometry(rest, IntSize::I16, IO_ERROR as u64);
        if let Event::Read(data) = event {
            lemma_write_keeps_geometry(rest, dst, data@);
            if let Ok(stored) = rest.write(dst, data@) {
                lemma_push_value_keeps_geometry(stored, IntSize::I16, data@.len() as u64);
            }
        }
    }
}

/// Output keeps the geometry.
proof fn lemma_output_keeps_geometry(machine: Machine, event: Event)
    requires
        machine.well_formed(),
    ensures
        machine.output(event) matches Effect::Done(next) ==> next.well_formed(),
{
    lemma_pop_transfer_keeps_geometry(machine);
    if let Ok((rest, descriptor, src, len)) = machine.pop_transfer() {
        lemma_push_value_keeps_geometry(rest, IntSize::I16, IO_ERROR as u64);
        if let Event::Written(count) = event {
            lemma_push_value_keeps_geometry(rest, IntSize::I16, count as u64);
        }
    }
}

/// A complement keeps the geometry.
proof fn lemma_negate_keeps_geometry(machine: Machine, size: IntSize)
    requires
        machine.well_formed(),
    ensures
        machine.negate(size) matches Ok(next) ==> next.well_formed(),
{
    lemma_pop_value_keeps_geometry(machine, size);
    if let Ok((rest, a)) = machine.pop_value(size) {
        lemma_push_value_keeps_geometry(rest, size, complement(size, a));
    }
}

/// A comparison of integers keeps the geometry.
proof fn lemma_compare_keeps_geometry(machine: Machine, size: IntSize)
    requires
        machine.well_formed(),
    ensures
        machine.compare(size) matches Ok(next) ==> next.well_formed(),
{
    lemma_pop_pair_keeps_geometry(machine, size);
    if let Ok((rest, a, b)) = machine.pop_pair(size) {
        lemma_push_value_keeps_geometry(
            rest,
            IntSize::I64,
            unsigned(three_way(a as int, b as int)),
        );
    }
}

/// A comparison of floating point numbers keeps the geometry.
proof fn lemma_compare_floats_keeps_geometry(machine: Machine, size: FloatSize)
    requires
        machine.well_formed(),
    ensures
        machine.compare_floats(size) matches Ok(next) ==> next.well_formed(),
{
    lemma_pop_pair_keeps_geometry(machine, size.carrier());
    if let Ok((rest, a, b)) = machine.pop_pair(size.carrier()) {
        lemma_push_value_keeps_geometry(rest, IntSize::I64, unsigned(float_three_way(size, a, b)));
    }
}

/// A conditional jump keeps the geometry.
proof fn lemma_jump_if_zero_keeps_geometry(machine: Machine, size: IntSize)
    requires
        machine.well_formed(),
    ensures
        machine.jump_if_zero(size) matches Ok(next) ==> next.well_formed(),
{
    lemma_pop_value_keeps_geometry(machine, size);
    if let Ok((upper, value)) = machine.pop_value(size) {
        lemma_pop_value_keeps_geometry(upper, IntSize::I64);
    }
}

/// A load to the stack keeps the geometry.
proof fn lemma_load_to_stack_keeps_geometry(machine: Machine, size: IntSize)
    requires
        machine.well_formed(),
    ensures
        machine.load_to_stack(size) matches Ok(next) ==> next.well_formed(),
{
    lemma_pop_value_keeps_geometry(machine, IntSize::I64);
    if let Ok((rest, addr)) = machine.pop_value(IntSize::I64) {
        if let Ok(value) = rest.load(addr, size) {
            lemma_push_value_keeps_geometry(rest, size, value);
        }
    }
}

/// A store from the stack keeps the geometry.
proof fn lemma_store_from_stack_keeps_geometry(machine: Machine, size: IntSize)
    requires
        machine.well_formed(),
    ensures
        machine.store_from_stack(size) matches Ok(next) ==> next.well_formed(),
{
    lemma_pop_value_keeps_geometry(machine, IntSize::I64);
    if let Ok((upper, addr)) = machine.pop_value(IntSize::I64) {
        lemma_pop_value_keeps_geometry(upper, size);
        if let Ok((rest, value)) = upper.pop_value(size) {
            lemma_write_keeps_geometry(rest, addr, le_bytes(value as nat, size.width()));
        }
    }
}

/// An instruction that completes keeps the geometry.
pub proof fn lemma_perform_keeps_geometry(machine: Machine, instruction: Instruction, event: Event)
    requires
        machine.well_formed(),
    ensures
        machine.perform(instruction, event) matches Effect::Done(next) ==> next.well_formed(),
{
    match instruction {
        Instruction::And(size) => lemma_binary_keeps_geometry(machine, BinaryOp::And, size),
        Instruction::Or(size) => lemma_binary_keeps_geometry(machine, BinaryOp::Or, size),
        Instruction::Xor(size) => lemma_binary_keeps_geometry(machine, BinaryOp::Xor, size),
        Instruction::Not(size) => lemma_negate_keeps_geometry(machine, size),
        Instruction::Shl(size) => lemma_binary_keeps_geometry(machine, BinaryOp::Shl, size),
        Instruction::Shr(size) => lemma_binary_keeps_geometry(machine, BinaryOp::Shr, size),
        Instruction::UShr(size) => lemma_binary_keeps_geometry(machine, BinaryOp::UShr, size),
        Instruction::Add(size) => lemma_binary_keeps_geometry(machine, BinaryOp::Add, size),
        Instruction::Addf(size) => lemma_float_arithmetic_keeps_geometry(
            machine,
            FloatOp::Add,
            size,
            event,
        ),
        Instruction::Sub(size) => lemma_binary_keeps_geometry(machine, BinaryOp::Sub, size),
        Instruction::Subf(size) => lemma_float_arithmetic_keeps_geometry(
            machine,
            FloatOp::Sub,
            size,
            event,
        ),
        Instruction::Mul(size) => lemma_binary_keeps_geometry(machine, BinaryOp::Mul, size),
        Instruction::Mulf(size) => lemma_float_arithmetic_keeps_geometry(
            machine,
            FloatOp::Mul,
            size,
            event,
        ),
        Instruction::Div(size) => lemma_binary_keeps_geometry(machine, BinaryOp::Div, size),
        Instruction::Divf(size) => lemma_float_arithmetic_keeps_geometry(
            machine,
            FloatOp::Div,
            size,
            event,
        ),
        Instruction::Mod(size) => lemma_binary_keeps_geometry(machine, BinaryOp::Mod, size),
        Instruction::Modf(size) => lemma_float_arithmetic_keeps_geometry(
            machine,
            FloatOp::Rem,
            size,
            event,
        ),
        Instruction::Cmp(size) => lemma_compare_keeps_geometry(machine, size),
        Instruction::Cmpf(size) => lemma_compare_floats_keeps_geometry(machine, size),
        Instruction::Jmp(target) => {},
        Instruction::Jz(size) => lemma_jump_if_zero_keeps_geometry(machine, size),
        Instruction::Read => lemma_input_keeps_geometry(machine, event),
        Instruction::Write => lemma_output_keeps_geometry(machine, event),
        Instruction::Push(byte) => lemma_push_value_keeps_geometry(
            machine,
            IntSize::I8,
            byte as u64,
        ),
        Instruction::Pop(count) => lemma_pop_keeps_geometry(machine, count as nat),
        Instruction::Load { size } => lemma_load_to_stack_keeps_geometry(machine, size),
        Instruction::Store { size } => lemma_store_from_stack_keeps_geometry(machine, size),
        Instruction::PushSP => lemma_push_value_keeps_geometry(
            machine,
            IntSize::I64,
            machine.stack_pointer,
        ),
        Instruction::PushIP => lemma_push_value_keeps_geometry(
            machine,
            IntSize::I64,
            machine.program_counter,
        ),
        Instruction::PushMaxHeapSize => lemma_push_value_keeps_geometry(
            machine,
            IntSize::I64,
            machine.heap.len() as u64,
        ),
    }
}

/// A step keeps the geometry: the stack pointer stays within the stack
/// buffer, whatever the program and whatever the host reports.
pub proof fn lemma_step_keeps_geometry(machine: Machine, event: Event)
    requires
        machine.well_formed(),
    ensures
        machine.step(event).0.well_formed(),
{
    if let Some(instruction) = machine.fetch() {
        lemma_perform_keeps_geometry(machine.advanced(), instruction, event);
    }
}

} // verus!
