//! The operand stack: growth below the ceiling, and pushes and pops by
//! bytes and by little-endian values of the four widths.

use vstd::prelude::*;
use vstd::slice::slice_subrange;

use crate::bytecode::IntSize;
use crate::vm::codec::decode_u16;
use crate::vm::codec::decode_u32;
use crate::vm::codec::decode_u64;
use crate::vm::codec::decode_u8;
use crate::vm::codec::encode_u16;
use crate::vm::codec::encode_u32;
use crate::vm::codec::encode_u64;
use crate::vm::codec::encode_u8;
use crate::vm::codec::lemma_le_bytes_len;
use crate::vm::machine::zero_extended;
use crate::vm::memory::copy_into;
use crate::vm::Fault;
use crate::vm::VM;

verus! {

/// The two's complement bit pattern of a signed 64-bit value.
pub open spec fn unsigned(value: i64) -> u64 {
    if value >= 0 {
        value as u64
    } else {
        (value + 0x1_0000_0000_0000_0000) as u64
    }
}

/// Appends zero bytes to `buffer` until it holds `len` bytes.
fn extend_with_zeros(buffer: &mut Vec<u8>, len: usize)
    ensures
        final(buffer)@ == zero_extended(old(buffer)@, len as nat),
{
    while buffer.len() < len
        invariant
            buffer@.len() >= old(buffer)@.len(),
            buffer@.len() <= len || buffer@.len() == old(buffer)@.len(),
            forall|j: int|
                0 <= j < buffer@.len() ==> buffer@[j] == if j < old(buffer)@.len() {
                    old(buffer)@[j]
                } else {
                    0u8
                },
        decreases len - buffer@.len(),
    {
        buffer.push(0);
    }
    assert(buffer@ =~= zero_extended(old(buffer)@, len as nat));
}

impl VM {
    /// Makes room for `required_size` more bytes on the stack. Faults with
    /// `StackOverflow`, and changes nothing, exactly when the bytes in use
    /// and those required together reach the ceiling.
    pub fn ensure_stack(&mut self, required_size: u64) -> (result: Result<(), Fault>)
        requires
            old(self).wf(),
        ensures
            final(self).wf(),
            match old(self)@.reserve(required_size as nat) {
                Ok(next) => result is Ok && final(self)@ == next,
                Err(fault) => result == Err::<(), Fault>(fault) && final(self)@ == old(self)@,
            },
            result is Err <==> old(self)@.depth() + required_size >= old(self)@.max_stack,
            result matches Err(fault) ==> fault == Fault::StackOverflow,
    {
        let current_usage: u64 = self.stack_pointer - Self::STACK_START;
        let needed: u64 = match current_usage.checked_add(required_size) {
            Some(v) => v,
            None => return Err(Fault::StackOverflow),
        };
        if needed >= self.max_stack {
            return Err(Fault::StackOverflow);
        }
        extend_with_zeros(&mut self.stack, needed as usize);
        Ok(())
    }

    /// Pushes `bytes`, the first of them at the lowest address. Faults with
    /// `StackOverflow`, and changes nothing, exactly when the bytes in use
    /// and those pushed together reach the ceiling.
    pub fn push_bytes(&mut self, bytes: &[u8]) -> (result: Result<(), Fault>)
        requires
            old(self).wf(),
        ensures
            final(self).wf(),
            match old(self)@.push(bytes@) {
                Ok(next) => result is Ok && final(self)@ == next,
                Err(fault) => result == Err::<(), Fault>(fault) && final(self)@ == old(self)@,
            },
            result is Err <==> old(self)@.depth() + bytes@.len() >= old(self)@.max_stack,
            result matches Err(fault) ==> fault == Fault::StackOverflow,
    {
        self.ensure_stack(bytes.len() as u64)?;
        let start: usize = (self.stack_pointer - Self::STACK_START) as usize;
        copy_into(&mut self.stack, start, bytes);
        self.stack_pointer = self.stack_pointer + bytes.len() as u64;
        Ok(())
    }

    /// Pops the top `count` bytes and returns them in the order of their
    /// addresses. Faults with `SegmentationFault`, and changes nothing, where
    /// fewer than `count` bytes are on the stack.
    pub fn pop_bytes(&mut self, count: u64) -> (result: Result<&[u8], Fault>)
        requires
            old(self).wf(),
        ensures
            final(self).wf(),
            match old(self)@.pop(count as nat) {
                Ok((next, bytes)) => result matches Ok(slice) && slice@ == bytes && final(self)@
                    == next,
                Err(fault) => result == Err::<&[u8], Fault>(fault) && final(self)@ == old(self)@,
            },
            result is Err <==> count > old(self)@.depth(),
    {
        if count > self.stack_pointer - Self::STACK_START {
            return Err(Fault::SegmentationFault);
        }
        let from: u64 = self.stack_pointer - count;
        let to: u64 = self.stack_pointer;
        self.stack_pointer = from;
        Ok(
            slice_subrange(
                self.stack.as_slice(),
                (from - Self::STACK_START) as usize,
                (to - Self::STACK_START) as usize,
            ),
        )
    }

    /// Pops one byte.
    pub fn pop_u8(&mut self) -> (result: Result<u8, Fault>)
        requires
            old(self).wf(),
        ensures
            final(self).wf(),
            match old(self)@.pop_value(IntSize::I8) {
                Ok((next, value)) => result matches Ok(v) && v == value && final(self)@ == next,
                Err(fault) => result == Err::<u8, Fault>(fault) && final(self)@ == old(self)@,
            },
    {
        let bytes = self.pop_bytes(1)?;
        Ok(decode_u8(bytes))
    }

    /// Pops a 16-bit little-endian value.
    pub fn pop_u16(&mut self) -> (result: Result<u16, Fault>)
        requires
            old(self).wf(),
        ensures
            final(self).wf(),
            match old(self)@.pop_value(IntSize::I16) {
                Ok((next, value)) => result matches Ok(v) && v == value && final(self)@ == next,
                Err(fault) => result == Err::<u16, Fault>(fault) && final(self)@ == old(self)@,
            },
    {
        let bytes = self.pop_bytes(2)?;
        Ok(decode_u16(bytes))
    }

    /// Pops a 32-bit little-endian value.
    pub fn pop_u32(&mut self) -> (result: Result<u32, Fault>)
        requires
            old(self).wf(),
        ensures
            final(self).wf(),
            match old(self)@.pop_value(IntSize::I32) {
                Ok((next, value)) => result matches Ok(v) && v == value && final(self)@ == next,
                Err(fault) => result == Err::<u32, Fault>(fault) && final(self)@ == old(self)@,
            },
    {
        let bytes = self.pop_bytes(4)?;
        Ok(decode_u32(bytes))
    }

    /// Pops a 64-bit little-endian value.
    pub fn pop_u64(&mut self) -> (result: Result<u64, Fault>)
        requires
            old(self).wf(),
        ensures
            final(self).wf(),
            match old(self)@.pop_value(IntSize::I64) {
                Ok((next, value)) => result matches Ok(v) && v == value && final(self)@ == next,
                Err(fault) => result == Err::<u64, Fault>(fault) && final(self)@ == old(self)@,
            },
    {
        let bytes = self.pop_bytes(8)?;
        Ok(decode_u64(bytes))
    }

    /// Pushes one byte.
    pub fn push_u8(&mut self, value: u8) -> (result: Result<(), Fault>)
        requires
            old(self).wf(),
        ensures
            final(self).wf(),
            match old(self)@.push_value(IntSize::I8, value as u64) {
                Ok(next) => result is Ok && final(self)@ == next,
                Err(fault) => result == Err::<(), Fault>(fault) && final(self)@ == old(self)@,
            },
            result is Err <==> old(self)@.depth() + 1 >= old(self)@.max_stack,
    {
        proof {
            lemma_le_bytes_len(value as nat, 1);
        }
        let bytes = encode_u8(value);
        self.push_bytes(bytes.as_slice())
    }

    /// Pushes a 16-bit value, least significant byte first.
    pub fn push_u16(&mut self, value: u16) -> (result: Result<(), Fault>)
        requires
            old(self).wf(),
        ensures
            final(self).wf(),
            match old(self)@.push_value(IntSize::I16, value as u64) {
                Ok(next) => result is Ok && final(self)@ == next,
                Err(fault) => result == Err::<(), Fault>(fault) && final(self)@ == old(self)@,
            },
            result is Err <==> old(self)@.depth() + 2 >= old(self)@.max_stack,
    {
        proof {
            lemma_le_bytes_len(value as nat, 2);
        }
        let bytes = encode_u16(value);
        self.push_bytes(bytes.as_slice())
    }

    /// Pushes a 32-bit value, least significant byte first.
    pub fn push_u32(&mut self, value: u32) -> (result: Result<(), Fault>)
        requires
            old(self).wf(),
        ensures
            final(self).wf(),
            match old(self)@.push_value(IntSize::I32, value as u64) {
                Ok(next) => result is Ok && final(self)@ == next,
                Err(fault) => result == Err::<(), Fault>(fault) && final(self)@ == old(self)@,
            },
            result is Err <==> old(self)@.depth() + 4 >= old(self)@.max_stack,
    {
        proof {
            lemma_le_bytes_len(value as nat, 4);
        }
        let bytes = encode_u32(value);
        self.push_bytes(bytes.as_slice())
    }

    /// Pushes a 64-bit value, least significant byte first.
    pub fn push_u64(&mut self, value: u64) -> (result: Result<(), Fault>)
        requires
            old(self).wf(),
        ensures
            final(self).wf(),
            match old(self)@.push_value(IntSize::I64, value) {
                Ok(next) => result is Ok && final(self)@ == next,
                Err(fault) => result == Err::<(), Fault>(fault) && final(self)@ == old(self)@,
            },
            result is Err <==> old(self)@.depth() + 8 >= old(self)@.max_stack,
    {
        proof {
            lemma_le_bytes_len(value as nat, 8);
        }
        let bytes = encode_u64(value);
        self.push_bytes(bytes.as_slice())
    }

    /// Pushes a signed 64-bit value as its two's complement bit pattern.
    pub fn push_i64(&mut self, value: i64) -> (result: Result<(), Fault>)
        requires
            old(self).wf(),
        ensures
            final(self).wf(),
            match old(self)@.push_value(IntSize::I64, unsigned(value)) {
                Ok(next) => result is Ok && final(self)@ == next,
                Err(fault) => result == Err::<(), Fault>(fault) && final(self)@ == old(self)@,
            },
            result is Err <==> old(self)@.depth() + 8 >= old(self)@.max_stack,
    {
        let pattern: u64 = value as u64;
        assert(pattern == unsigned(value)) by (bit_vector)
            requires
                pattern == value as u64,
        ;
        self.push_u64(pattern)
    }
}

} // verus!
