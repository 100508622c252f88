//! What passes between the machine and its host. Floating point arithmetic
//! and input and output are the host's work: a step that needs some of it
//! hands back an [`Action`] and leaves the machine as it was, and the host
//! steps again with the [`Event`] that answers it.

use vstd::prelude::*;

use crate::bytecode::FloatSize;

verus! {

/// The floating point operations that the host computes.
#[derive(Debug, Clone, Copy, PartialEq, Eq, Structural)]
pub enum FloatOp {
    Add,
    Sub,
    Mul,
    Div,
    Rem,
}

/// What a step asks of the host.
#[derive(Debug, Clone, Copy, PartialEq, Eq, Structural)]
pub enum Action {
    /// Nothing: the instruction is complete.
    Continue,
    /// Compute `a <op> b` on the numbers whose bit patterns are `a` and `b`.
    Float { op: FloatOp, size: FloatSize, a: u64, b: u64 },
    /// Read at most `max_len` bytes from standard input.
    Read { max_len: u16 },
    /// Write the `len` bytes of memory from `src` on to standard output.
    Write { src: u64, len: u16 },
}

/// What the host reports to a step.
#[derive(Debug, Clone, PartialEq, Eq)]
pub enum Event {
    /// Nothing: an ordinary step.
    Tick,
    /// The bit pattern of a floating point result.
    Float(u64),
    /// The bytes that were read.
    Read(Vec<u8>),
    /// Reading failed.
    ReadFailed,
    /// The number of bytes that were written.
    Written(u16),
    /// Writing failed.
    WriteFailed,
}

/// The count that stands for failed input or output.
pub const IO_ERROR: u16 = 0xffff;

/// Whether `event` answers `action`, so that the instruction that asked can
/// go on. A floating point result has to be a pattern of the width asked
/// for, and no more bytes can have been read or written than were asked for.
pub open spec fn answers(event: Event, action: Action) -> bool {
    match action {
        Action::Continue => false,
        Action::Float { size, .. } => event matches Event::Float(pattern) && size.carrier().fits(
            pattern,
        ),
        Action::Read { max_len } => event is ReadFailed || (event matches Event::Read(data)
            && data@.len() <= max_len),
        Action::Write { len, .. } => event is WriteFailed || (event matches Event::Written(count)
            && count <= len),
    }
}

} // verus!
