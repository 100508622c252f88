//! Laws of the machine, stated over its model and proved once for all
//! states.

use vstd::prelude::*;

use crate::bytecode::FloatSize;
use crate::bytecode::Instruction;
use crate::bytecode::IntSize;
use crate::vm::alu::apply;
use crate::vm::alu::lemma_apply_fits;
use crate::vm::alu::BinaryOp;
use crate::vm::codec::le_bytes;
use crate::vm::codec::lemma_le_value_bound;
use crate::vm::codec::lemma_le_round_trip_exact;
use crate::vm::codec::lemma_radix_values;
use crate::vm::geometry::lemma_pop_pair_keeps_geometry;
use crate::vm::geometry::lemma_push_value_keeps_geometry;
use crate::vm::host::Action;
use crate::vm::host::Event;
use crate::vm::host::FloatOp;
use crate::vm::machine::Machine;
use crate::vm::semantics::settled;
use crate::vm::semantics::Effect;
use crate::vm::stack::unsigned;
use crate::vm::Fault;
use crate::vm::VM;

verus! {

/// Bytes that were stored are the bytes that are read back from the same
/// address.
pub proof fn lemma_write_then_read(machine: Machine, addr: u64, bytes: Seq<u8>)
    requires
        machine.well_formed(),
        machine.write(addr, bytes) is Ok,
    ensures
        ({
            &&& machine.write(addr, bytes) matches Ok(next)
            &&& next.well_formed()
            &&& next.read(addr, bytes.len()) == Ok::<Seq<u8>, Fault>(bytes)
        }),
{
    let next = machine.write(addr, bytes)->Ok_0;
    assert(next.zone(addr, bytes.len()) == machine.zone(addr, bytes.len()));
    assert(next.read(addr, bytes.len())->Ok_0 =~= bytes);
}

/// A value that was stored is the value that is loaded from the same
/// address, at each width and for each value of the width.
pub proof fn lemma_store_then_load(machine: Machine, addr: u64, size: IntSize, value: u64)
    requires
        machine.well_formed(),
        size.fits(value),
        machine.store(addr, size, value) is Ok,
    ensures
        ({
            &&& machine.store(addr, size, value) matches Ok(next)
            &&& next.well_formed()
            &&& next.load(addr, size) == Ok::<u64, Fault>(value)
        }),
{
    let bytes = le_bytes(value as nat, size.width());
    lemma_radix_values();
    lemma_le_round_trip_exact(value as nat, size.width());
    lemma_write_then_read(machine, addr, bytes);
}

/// Bytes that were pushed are the bytes that the next pop of as many
/// returns, and the pop restores the stack pointer.
pub proof fn lemma_push_then_pop(machine: Machine, bytes: Seq<u8>)
    requires
        machine.well_formed(),
        machine.push(bytes) is Ok,
    ensures
        ({
            &&& machine.push(bytes) matches Ok(next)
            &&& next.well_formed()
            &&& next.pop(bytes.len()) matches Ok((rest, popped))
            &&& popped == bytes
            &&& rest.stack_pointer == machine.stack_pointer
        }),
{
    let next = machine.push(bytes)->Ok_0;
    let (rest, popped) = next.pop(bytes.len())->Ok_0;
    assert(popped =~= bytes);
}

/// A value that was pushed is the value that the next pop of the same width
/// returns, and the pop restores the stack pointer.
pub proof fn lemma_push_then_pop_value(machine: Machine, size: IntSize, value: u64)
    requires
        machine.well_formed(),
        size.fits(value),
        machine.push_value(size, value) is Ok,
    ensures
        ({
            &&& machine.push_value(size, value) matches Ok(next)
            &&& next.well_formed()
            &&& next.pop_value(size) matches Ok((rest, popped))
            &&& popped == value
            &&& rest.stack_pointer == machine.stack_pointer
        }),
{
    let bytes = le_bytes(value as nat, size.width());
    lemma_radix_values();
    lemma_le_round_trip_exact(value as nat, size.width());
    lemma_push_then_pop(machine, bytes);
}

/// A range of addresses faults where its end does not fit in 64 bits, where
/// it starts or ends in the gap between the heap and the stack, and where it
/// reaches the end of the stack buffer.
pub proof fn lemma_read_faults_outside_zones(machine: Machine, addr: u64, count: nat)
    requires
        machine.well_formed(),
    ensures
        addr + count > u64::MAX ==> machine.read(addr, count) is Err,
        machine.heap.len() <= addr < VM::STACK_START ==> machine.read(addr, count) is Err,
        machine.heap.len() <= addr + count < VM::STACK_START ==> machine.read(addr, count) is Err,
        addr + count >= VM::STACK_START + machine.stack.len() ==> machine.read(addr, count) is Err,
        machine.read(addr, count) matches Err(fault) ==> fault == Fault::SegmentationFault,
{
}

/// A push overflows the stack exactly when the bytes in use and the bytes
/// pushed together reach the ceiling.
pub proof fn lemma_push_overflows_at_ceiling(machine: Machine, bytes: Seq<u8>)
    ensures
        machine.push(bytes) is Err <==> machine.depth() + bytes.len() >= machine.max_stack,
        machine.push(bytes) matches Err(fault) ==> fault == Fault::StackOverflow,
{
}

/// A binary operation that completes leaves `a <op> b` on top of the stack,
/// which is then one operand lower than before.
pub proof fn lemma_binary_leaves_result(machine: Machine, op: BinaryOp, size: IntSize)
    requires
        machine.well_formed(),
        machine.binary(op, size) is Ok,
    ensures
        ({
            let (rest, a, b) = machine.pop_pair(size)->Ok_0;
            let next = machine.binary(op, size)->Ok_0;
            &&& machine.pop_pair(size) is Ok
            &&& apply(op, size, a, b) matches Ok(value)
            &&& next.pop_value(size) matches Ok((below, top))
            &&& top == value
            &&& next.stack_pointer == machine.stack_pointer - size.width()
            &&& next.heap == machine.heap
        }),
{
    let (rest, a, b) = machine.pop_pair(size)->Ok_0;
    lemma_pop_pair_keeps_geometry(machine, size);
    let (upper, top) = machine.pop_value(size)->Ok_0;
    lemma_popped_value_fits(machine, size);
    lemma_popped_value_fits(upper, size);
    lemma_apply_fits(op, size, a, b);
    let value = apply(op, size, a, b)->Ok_0;
    lemma_push_then_pop_value(rest, size, value);
    lemma_push_value_keeps_geometry(rest, size, value);
    let next = rest.push_value(size, value)->Ok_0;
}

/// A value that is popped at a width is a value of the width.
pub proof fn lemma_popped_value_fits(machine: Machine, size: IntSize)
    requires
        machine.well_formed(),
    ensures
        machine.pop_value(size) matches Ok((rest, value)) ==> size.fits(value),
{
    if let Ok((rest, bytes)) = machine.pop(size.width()) {
        lemma_le_value_bound(bytes);
        lemma_radix_values();
    }
}

/// A jump sets the program counter to its target, whatever the counter was.
pub proof fn lemma_jump_sets_counter(machine: Machine, event: Event, target: i64)
    requires
        machine.fetch() == Some(Instruction::Jmp(target)),
    ensures
        machine.step(event) == (
            Machine { program_counter: unsigned(target), ..machine },
            Ok::<Action, Fault>(Action::Continue),
        ),
        target >= 0 ==> machine.step(event).0.program_counter == target,
{
}

/// A conditional jump that finds its operands goes to the popped target
/// where the popped value is zero, and on to the next instruction where it
/// is not.
pub proof fn lemma_conditional_jump(machine: Machine, event: Event, size: IntSize)
    requires
        machine.well_formed(),
        machine.fetch() == Some(Instruction::Jz(size)),
        machine.advanced().pop_value(size) is Ok,
        machine.advanced().pop_value(size)->Ok_0.0.pop_value(IntSize::I64) is Ok,
    ensures
        ({
            let (upper, value) = machine.advanced().pop_value(size)->Ok_0;
            let (rest, target) = upper.pop_value(IntSize::I64)->Ok_0;
            let (next, result) = machine.step(event);
            &&& result == Ok::<Action, Fault>(Action::Continue)
            &&& value == 0 ==> next.program_counter == target
            &&& value != 0 ==> next.program_counter == machine.program_counter + 1
            &&& next.stack_pointer == machine.stack_pointer - size.width() - 8
        }),
{
    let fetched = machine.advanced();
    let (upper, value) = fetched.pop_value(size)->Ok_0;
    let (rest, target) = upper.pop_value(IntSize::I64)->Ok_0;
    assert(fetched.pop(size.width()) is Ok);
    assert(upper.pop(8) is Ok);
    assert(upper.stack_pointer == machine.stack_pointer - size.width());
    assert(rest.stack_pointer == upper.stack_pointer - 8);
    let jumped = fetched.jump_if_zero(size);
    assert(jumped == Ok::<Machine, Fault>(
        if value == 0 {
            Machine { program_counter: target, ..rest }
        } else {
            rest
        },
    ));
    assert(fetched.perform(Instruction::Jz(size), event) == settled(jumped));
    assert(machine.step(event) == (jumped->Ok_0, Ok::<Action, Fault>(Action::Continue)));
}

/// A step past the end of the program reports that the program ended and
/// changes nothing.
pub proof fn lemma_program_end(machine: Machine, event: Event)
    requires
        machine.program_counter >= machine.program.len(),
    ensures
        machine.step(event) == (machine, Err::<Action, Fault>(Fault::ProgramEnded)),
{
}

/// A step that faults leaves the stack pointer and all memory as they were,
/// and a step that waits for the host leaves the whole machine as it was.
pub proof fn lemma_step_is_atomic(machine: Machine, event: Event)
    ensures
        ({
            let (next, result) = machine.step(event);
            &&& result is Err ==> next.stack_pointer == machine.stack_pointer && next.heap
                == machine.heap && next.stack == machine.stack && next.program
                == machine.program && next.max_stack == machine.max_stack
            &&& result is Ok && result != Ok::<Action, Fault>(Action::Continue) ==> next == machine
        }),
{
    if let Some(instruction) = machine.fetch() {
        lemma_ask_is_never_continue(machine.advanced(), instruction, event);
    }
}

/// What an instruction asks of the host is never to continue.
pub proof fn lemma_ask_is_never_continue(machine: Machine, instruction: Instruction, event: Event)
    ensures
        machine.perform(instruction, event) != Effect::Ask(Action::Continue),
{
    match instruction {
        Instruction::Addf(size) => lemma_float_ask(machine, FloatOp::Add, size, event),
        Instruction::Subf(size) => lemma_float_ask(machine, FloatOp::Sub, size, event),
        Instruction::Mulf(size) => lemma_float_ask(machine, FloatOp::Mul, size, event),
        Instruction::Divf(size) => lemma_float_ask(machine, FloatOp::Div, size, event),
        Instruction::Modf(size) => lemma_float_ask(machine, FloatOp::Rem, size, event),
        Instruction::Read => {
            assert(machine.input(event) != Effect::Ask(Action::Continue));
        },
        Instruction::Write => {
            assert(machine.output(event) != Effect::Ask(Action::Continue));
        },
        _ => {},
    }
}

/// Floating point arithmetic asks the host for nothing but arithmetic.
proof fn lemma_float_ask(machine: Machine, op: FloatOp, size: FloatSize, event: Event)
    ensures
        machine.float_arithmetic(op, size, event) != Effect::Ask(Action::Continue),
{
}

} // verus!
