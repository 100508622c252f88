//! The mathematical model of the machine: its state as plain sequences and
//! registers, the address space laid over them, and the stack discipline.
//!
//! Every executable operation of [`VM`] is specified as agreeing with the
//! function of the same purpose defined here.

use vstd::prelude::*;

use crate::bytecode::Instruction;
use crate::bytecode::IntSize;
use crate::vm::codec::le_bytes;
use crate::vm::codec::le_value;
use crate::vm::Fault;
use crate::vm::VM;

verus! {

/// The state of a machine.
pub struct Machine {
    /// The instructions, indexed by the program counter.
    pub program: Seq<Instruction>,
    /// The heap buffer, which backs the addresses from 0 on.
    pub heap: Seq<u8>,
    /// The stack buffer, which backs the addresses from `STACK_START` on.
    pub stack: Seq<u8>,
    /// The address just above the top byte of the stack.
    pub stack_pointer: u64,
    /// The index of the next instruction to fetch.
    pub program_counter: u64,
    /// The ceiling on the number of stack bytes in use.
    pub max_stack: u64,
}

/// The two zones of the address space that are backed by memory.
pub enum Zone {
    Heap,
    Stack,
}

/// `buffer` with `bytes` laid over it from index `at` on.
pub open spec fn overwrite(buffer: Seq<u8>, at: int, bytes: Seq<u8>) -> Seq<u8> {
    Seq::new(
        buffer.len(),
        |i: int|
            if at <= i < at + bytes.len() {
                bytes[i - at]
            } else {
                buffer[i]
            },
    )
}

/// `buffer` extended with zero bytes to `len` bytes, if it is shorter.
pub open spec fn zero_extended(buffer: Seq<u8>, len: nat) -> Seq<u8> {
    Seq::new(
        if buffer.len() >= len {
            buffer.len()
        } else {
            len
        },
        |i: int|
            if i < buffer.len() {
                buffer[i]
            } else {
                0u8
            },
    )
}

impl Machine {
    /// The geometry that every machine keeps: the program counter can index
    /// the whole program, the heap ends at or below the stack's base, the
    /// stack zone at its largest lies within the 64-bit address range, and
    /// the stack pointer lies within the stack buffer. A stack that is in use
    /// is below its ceiling, since only a push that stays below it succeeds.
    pub open spec fn well_formed(self) -> bool {
        &&& self.program.len() <= u64::MAX
        &&& self.heap.len() <= VM::STACK_START
        &&& VM::STACK_START + self.stack.len() <= u64::MAX
        &&& VM::STACK_START + self.max_stack <= u64::MAX
        &&& self.max_stack <= usize::MAX
        &&& VM::STACK_START <= self.stack_pointer <= VM::STACK_START + self.stack.len()
        &&& (self.depth() == 0 || self.depth() < self.max_stack)
    }

    /// Number of stack bytes in use.
    pub open spec fn depth(self) -> nat {
        (self.stack_pointer - VM::STACK_START) as nat
    }

    /// The zone that backs the `count` bytes from `addr` on, if one does. The
    /// end of the range, `addr + count`, has to fit in 64 bits and to be an
    /// address of the zone itself.
    pub open spec fn zone(self, addr: u64, count: nat) -> Option<Zone> {
        if addr + count > u64::MAX {
            None
        } else if addr + count < self.heap.len() {
            Some(Zone::Heap)
        } else if addr >= VM::STACK_START && addr + count < VM::STACK_START + self.stack.len() {
            Some(Zone::Stack)
        } else {
            None
        }
    }

    /// The `count` bytes from `addr` on.
    pub open spec fn read(self, addr: u64, count: nat) -> Result<Seq<u8>, Fault> {
        match self.zone(addr, count) {
            Some(Zone::Heap) => Ok(self.heap.subrange(addr as int, addr + count)),
            Some(Zone::Stack) => Ok(
                self.stack.subrange(addr - VM::STACK_START, addr + count - VM::STACK_START),
            ),
            None => Err(Fault::SegmentationFault),
        }
    }

    /// The machine after `bytes` were stored from `addr` on.
    pub open spec fn write(self, addr: u64, bytes: Seq<u8>) -> Result<Machine, Fault> {
        match self.zone(addr, bytes.len()) {
            Some(Zone::Heap) => Ok(
                Machine { heap: overwrite(self.heap, addr as int, bytes), ..self },
            ),
            Some(Zone::Stack) => Ok(
                Machine { stack: overwrite(self.stack, addr - VM::STACK_START, bytes), ..self },
            ),
            None => Err(Fault::SegmentationFault),
        }
    }

    /// The machine after the top `count` bytes left the stack, and those
    /// bytes in the order of their addresses. Nothing lies below the stack's
    /// base, so at most `depth()` bytes can be had.
    pub open spec fn pop(self, count: nat) -> Result<(Machine, Seq<u8>), Fault> {
        if count <= self.depth() {
            Ok(
                (
                    Machine { stack_pointer: (self.stack_pointer - count) as u64, ..self },
                    self.stack.subrange(self.depth() - count, self.depth() as int),
                ),
            )
        } else {
            Err(Fault::SegmentationFault)
        }
    }

    /// The machine after room for `required` more stack bytes was made. The
    /// bytes in use and those required together have to stay below the
    /// ceiling; the buffer then covers them, new bytes being zero.
    pub open spec fn reserve(self, required: nat) -> Result<Machine, Fault> {
        if self.depth() + required >= self.max_stack {
            Err(Fault::StackOverflow)
        } else {
            Ok(Machine { stack: zero_extended(self.stack, self.depth() + required), ..self })
        }
    }

    /// The machine after `bytes` were pushed.
    pub open spec fn push(self, bytes: Seq<u8>) -> Result<Machine, Fault> {
        match self.reserve(bytes.len()) {
            Ok(roomy) => Ok(
                Machine {
                    stack: overwrite(roomy.stack, self.depth() as int, bytes),
                    stack_pointer: (self.stack_pointer + bytes.len()) as u64,
                    ..roomy
                },
            ),
            Err(fault) => Err(fault),
        }
    }

    /// The little-endian value of width `size` stored at `addr`.
    pub open spec fn load(self, addr: u64, size: IntSize) -> Result<u64, Fault> {
        match self.read(addr, size.width()) {
            Ok(bytes) => Ok(le_value(bytes) as u64),
            Err(fault) => Err(fault),
        }
    }

    /// The machine after `value` was stored at `addr` in `size` little-endian
    /// bytes.
    pub open spec fn store(self, addr: u64, size: IntSize, value: u64) -> Result<Machine, Fault> {
        self.write(addr, le_bytes(value as nat, size.width()))
    }

    /// The machine after a value of width `size` was popped, and the value.
    pub open spec fn pop_value(self, size: IntSize) -> Result<(Machine, u64), Fault> {
        match self.pop(size.width()) {
            Ok((rest, bytes)) => Ok((rest, le_value(bytes) as u64)),
            Err(fault) => Err(fault),
        }
    }

    /// The machine after `value` was pushed in `size` little-endian bytes.
    pub open spec fn push_value(self, size: IntSize, value: u64) -> Result<Machine, Fault> {
        self.push(le_bytes(value as nat, size.width()))
    }
}

} // verus!
