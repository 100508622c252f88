//! The virtual machine: a program, a heap, a stack and the registers, with
//! bounds-checked access to its unified address space.

use vstd::prelude::*;

use crate::bytecode::Instruction;
use crate::vm::machine::Machine;

pub mod alu;
pub mod codec;
pub mod engine;
pub mod host;
pub mod geometry;
pub mod laws;
pub mod machine;
pub mod memory;
pub mod order;
pub mod semantics;
pub mod stack;

verus! {

/// A terminal outcome of an operation of the machine.
#[derive(Debug, Clone, Copy, PartialEq, Eq, Structural)]
pub enum Fault {
    /// A reference to memory that no zone backs.
    SegmentationFault,
    /// A push that would not stay below the stack's ceiling.
    StackOverflow,
    /// The program counter points past the last instruction.
    ProgramEnded,
    /// Input or output on a descriptor that the machine does not offer.
    UnsupportedDescriptor,
    /// An integer division or remainder by zero.
    DivisionByZero,
}

/// A machine with its program and memory.
pub struct VM {
    program: Vec<Instruction>,
    main_memory: Vec<u8>,
    stack: Vec<u8>,
    stack_pointer: u64,
    program_counter: u64,
    max_stack: u64,
}

impl View for VM {
    type V = Machine;

    closed spec fn view(&self) -> Machine {
        Machine {
            program: self.program@,
            heap: self.main_memory@,
            stack: self.stack@,
            stack_pointer: self.stack_pointer,
            program_counter: self.program_counter,
            max_stack: self.max_stack,
        }
    }
}

impl VM {
    /// The lowest address of the stack zone.
    pub const STACK_START: u64 = 0x1000000000000000;

    /// Whether the machine keeps the geometry of its address space.
    pub open spec fn wf(&self) -> bool {
        self@.well_formed()
    }

    /// A machine at the start of `program`, with the given heap and initial
    /// stack buffer, an empty stack and the ceiling `max_stack`, or `None`
    /// where the buffers and the ceiling do not fit the address space.
    pub fn new(program: Vec<Instruction>, main_memory: Vec<u8>, stack: Vec<u8>, max_stack: u64) -> (vm:
        Option<VM>)
        ensures
            match vm {
                Some(vm) => vm.wf() && vm@ == (Machine {
                    program: program@,
                    heap: main_memory@,
                    stack: stack@,
                    stack_pointer: VM::STACK_START,
                    program_counter: 0,
                    max_stack,
                }),
                None => !(Machine {
                    program: program@,
                    heap: main_memory@,
                    stack: stack@,
                    stack_pointer: VM::STACK_START,
                    program_counter: 0,
                    max_stack,
                }).well_formed(),
            },
    {
        let room: u64 = u64::MAX - Self::STACK_START;
        if main_memory.len() as u64 > Self::STACK_START || stack.len() as u64 > room || max_stack
            > room || max_stack > usize::MAX as u64 {
            return None;
        }
        assert(program@.len() == program.len());
        Some(
            VM {
                program,
                main_memory,
                stack,
                stack_pointer: Self::STACK_START,
                program_counter: 0,
                max_stack,
            },
        )
    }

    /// The address just above the top byte of the stack.
    pub fn stack_pointer(&self) -> (sp: u64)
        ensures
            sp == self@.stack_pointer,
    {
        self.stack_pointer
    }

    /// The index of the next instruction to fetch.
    pub fn program_counter(&self) -> (pc: u64)
        ensures
            pc == self@.program_counter,
    {
        self.program_counter
    }

    /// The ceiling on the number of stack bytes in use.
    pub fn max_stack(&self) -> (ceiling: u64)
        ensures
            ceiling == self@.max_stack,
    {
        self.max_stack
    }
}

} // verus!
