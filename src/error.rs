use vstd::prelude::*;

verus! {

/// Every way a step of the machine can fail.
#[derive(Debug, PartialEq, Eq)]
pub enum EmuError {
    /// A malformed encoding: a bad opcode, register or flag binding.
    DecodeError,
    /// A byte range that does not fit in the 256-byte space.
    OutOfBounds,
    /// A push with the stack pointer already at the last slot.
    StackOverflow,
    /// A pop with the stack pointer at zero.
    StackUnderflow,
    /// The absent register where a real one is needed.
    InvalidOperand,
    /// A syscall code that the constants do not bind.
    UnsupportedSyscall(u8),
    /// A host descriptor that does not fit in one byte.
    FileDescriptorOverflow,
    /// A failed host operation, with the host's description of it.
    HostIoError(String),
    /// The instruction pointer is past the end of the program.
    ProgramCounterOutOfRange,
}

} // verus!
