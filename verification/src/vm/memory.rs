//! Bounds-checked access to the address space, by bytes and by
//! little-endian values of the four widths.

use vstd::prelude::*;
use vstd::slice::slice_subrange;

use crate::bytecode::IntSize;
use crate::vm::codec::decode_u16;
use crate::vm::codec::decode_u32;
use crate::vm::codec::decode_u64;
use crate::vm::codec::decode_u8;
use crate::vm::codec::encode_u16;
use crate::vm::codec::encode_u32;
use crate::vm::codec::encode_u64;
use crate::vm::codec::encode_u8;
use crate::vm::machine::overwrite;
use crate::vm::Fault;
use crate::vm::VM;

verus! {

/// Copies `bytes` over `buffer` from index `at` on.
pub(crate) fn copy_into(buffer: &mut Vec<u8>, at: usize, bytes: &[u8])
    requires
        at + bytes@.len() <= old(buffer)@.len(),
    ensures
        final(buffer)@ == overwrite(old(buffer)@, at as int, bytes@),
{
    let mut i: usize = 0;
    while i < bytes.len()
        invariant
            i <= bytes@.len(),
            at + bytes@.len() <= buffer.len(),
            buffer@.len() == old(buffer)@.len(),
            forall|j: int|
                0 <= j < buffer@.len() ==> buffer@[j] == if at <= j < at + i {
                    bytes@[j - at]
                } else {
                    old(buffer)@[j]
                },
        decreases bytes@.len() - i,
    {
        buffer.set(at + i, bytes[i]);
        i = i + 1;
    }
    assert(buffer@ =~= overwrite(old(buffer)@, at as int, bytes@));
}

impl VM {
    /// The `count` bytes from `addr` on, or `SegmentationFault` where no
    /// zone backs that range.
    pub fn get_bytes(&self, addr: u64, count: u64) -> (result: Result<&[u8], Fault>)
        requires
            self.wf(),
        ensures
            match self@.read(addr, count as nat) {
                Ok(bytes) => result matches Ok(slice) && slice@ == bytes,
                Err(fault) => result == Err::<&[u8], Fault>(fault),
            },
            result is Err <==> self@.zone(addr, count as nat) is None,
            result matches Err(fault) ==> fault == Fault::SegmentationFault,
    {
        let end: u64 = match addr.checked_add(count) {
            Some(v) => v,
            None => return Err(Fault::SegmentationFault),
        };
        if end < self.main_memory.len() as u64 {
            Ok(slice_subrange(self.main_memory.as_slice(), addr as usize, end as usize))
        } else if addr >= Self::STACK_START && end - Self::STACK_START < self.stack.len() as u64 {
            Ok(
                slice_subrange(
                    self.stack.as_slice(),
                    (addr - Self::STACK_START) as usize,
                    (end - Self::STACK_START) as usize,
                ),
            )
        } else {
            Err(Fault::SegmentationFault)
        }
    }

    /// Stores `bytes` from `addr` on, or faults with `SegmentationFault`
    /// and changes nothing where no zone backs that range.
    pub fn set_bytes(&mut self, addr: u64, bytes: &[u8]) -> (result: Result<(), Fault>)
        requires
            old(self).wf(),
        ensures
            final(self).wf(),
            match old(self)@.write(addr, bytes@) {
                Ok(next) => result is Ok && final(self)@ == next,
                Err(fault) => result == Err::<(), Fault>(fault) && final(self)@ == old(self)@,
            },
            result is Err <==> old(self)@.zone(addr, bytes@.len()) is None,
    {
        let end: u64 = match addr.checked_add(bytes.len() as u64) {
            Some(v) => v,
            None => return Err(Fault::SegmentationFault),
        };
        if end < self.main_memory.len() as u64 {
            copy_into(&mut self.main_memory, addr as usize, bytes);
            Ok(())
        } else if addr >= Self::STACK_START && end - Self::STACK_START < self.stack.len() as u64 {
            copy_into(&mut self.stack, (addr - Self::STACK_START) as usize, bytes);
            Ok(())
        } else {
            Err(Fault::SegmentationFault)
        }
    }

    /// The byte at `addr`.
    pub fn get_u8(&self, addr: u64) -> (result: Result<u8, Fault>)
        requires
            self.wf(),
        ensures
            match self@.load(addr, IntSize::I8) {
                Ok(value) => result matches Ok(v) && v == value,
                Err(fault) => result == Err::<u8, Fault>(fault),
            },
    {
        let bytes = self.get_bytes(addr, 1)?;
        Ok(decode_u8(bytes))
    }

    /// The 16-bit little-endian value at `addr`.
    pub fn get_u16(&self, addr: u64) -> (result: Result<u16, Fault>)
        requires
            self.wf(),
        ensures
            match self@.load(addr, IntSize::I16) {
                Ok(value) => result matches Ok(v) && v == value,
                Err(fault) => result == Err::<u16, Fault>(fault),
            },
    {
        let bytes = self.get_bytes(addr, 2)?;
        Ok(decode_u16(bytes))
    }

    /// The 32-bit little-endian value at `addr`.
    pub fn get_u32(&self, addr: u64) -> (result: Result<u32, Fault>)
        requires
            self.wf(),
        ensures
            match self@.load(addr, IntSize::I32) {
                Ok(value) => result matches Ok(v) && v == value,
                Err(fault) => result == Err::<u32, Fault>(fault),
            },
    {
        let bytes = self.get_bytes(addr, 4)?;
        Ok(decode_u32(bytes))
    }

    /// The 64-bit little-endian value at `addr`.
    pub fn get_u64(&self, addr: u64) -> (result: Result<u64, Fault>)
        requires
            self.wf(),
        ensures
            match self@.load(addr, IntSize::I64) {
                Ok(value) => result matches Ok(v) && v == value,
                Err(fault) => result == Err::<u64, Fault>(fault),
            },
    {
        let bytes = self.get_bytes(addr, 8)?;
        Ok(decode_u64(bytes))
    }

    /// Stores one byte at `addr`.
    pub fn set_u8(&mut self, addr: u64, value: u8) -> (result: Result<(), Fault>)
        requires
            old(self).wf(),
        ensures
            final(self).wf(),
            match old(self)@.store(addr, IntSize::I8, value as u64) {
                Ok(next) => result is Ok && final(self)@ == next,
                Err(fault) => result == Err::<(), Fault>(fault) && final(self)@ == old(self)@,
            },
    {
        let bytes = encode_u8(value);
        self.set_bytes(addr, bytes.as_slice())
    }

    /// Stores a 16-bit value at `addr`, least significant byte first.
    pub fn set_u16(&mut self, addr: u64, value: u16) -> (result: Result<(), Fault>)
        requires
            old(self).wf(),
        ensures
            final(self).wf(),
            match old(self)@.store(addr, IntSize::I16, value as u64) {
                Ok(next) => result is Ok && final(self)@ == next,
                Err(fault) => result == Err::<(), Fault>(fault) && final(self)@ == old(self)@,
            },
    {
        let bytes = encode_u16(value);
        self.set_bytes(addr, bytes.as_slice())
    }

    /// Stores a 32-bit value at `addr`, least significant byte first.
    pub fn set_u32(&mut self, addr: u64, value: u32) -> (result: Result<(), Fault>)
        requires
            old(self).wf(),
        ensures
            final(self).wf(),
            match old(self)@.store(addr, IntSize::I32, value as u64) {
                Ok(next) => result is Ok && final(self)@ == next,
                Err(fault) => result == Err::<(), Fault>(fault) && final(self)@ == old(self)@,
            },
    {
        let bytes = encode_u32(value);
        self.set_bytes(addr, bytes.as_slice())
    }

    /// Stores a 64-bit value at `addr`, least significant byte first.
    pub fn set_u64(&mut self, addr: u64, value: u64) -> (result: Result<(), Fault>)
        requires
            old(self).wf(),
        ensures
            final(self).wf(),
            match old(self)@.store(addr, IntSize::I64, value) {
                Ok(next) => result is Ok && final(self)@ == next,
                Err(fault) => result == Err::<(), Fault>(fault) && final(self)@ == old(self)@,
            },
    {
        let bytes = encode_u64(value);
        self.set_bytes(addr, bytes.as_slice())
    }
}

} // verus!
