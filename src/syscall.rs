use vstd::prelude::*;

use crate::constants::SyscallConstants;
use crate::register::Register;

verus! {

/// The syscalls the machine knows.
#[derive(Debug, Copy, Clone, PartialEq, Eq, Structural)]
pub enum Syscall {
    Open,
    ReadCode,
    ReadMemory,
    Write,
    Sleep,
    Exit,
}

/// The syscall bound to `code`; where several share a code, the first of OPEN, READ_CODE,
/// READ_MEMORY, WRITE, SLEEP, EXIT wins.
pub open spec fn syscall_of(s: SyscallConstants, code: u8) -> Option<Syscall> {
    if code == s.OPEN {
        Some(Syscall::Open)
    } else if code == s.READ_CODE {
        Some(Syscall::ReadCode)
    } else if code == s.READ_MEMORY {
        Some(Syscall::ReadMemory)
    } else if code == s.WRITE {
        Some(Syscall::Write)
    } else if code == s.SLEEP {
        Some(Syscall::Sleep)
    } else if code == s.EXIT {
        Some(Syscall::Exit)
    } else {
        None
    }
}

impl SyscallConstants {
    /// Decodes a syscall code.
    pub fn decode(&self, code: u8) -> (r: Option<Syscall>)
        ensures
            r == syscall_of(*self, code),
    {
        if code == self.OPEN {
            Some(Syscall::Open)
        } else if code == self.READ_CODE {
            Some(Syscall::ReadCode)
        } else if code == self.READ_MEMORY {
            Some(Syscall::ReadMemory)
        } else if code == self.WRITE {
            Some(Syscall::Write)
        } else if code == self.SLEEP {
            Some(Syscall::Sleep)
        } else if code == self.EXIT {
            Some(Syscall::Exit)
        } else {
            None
        }
    }
}

/// Host work that a `SYS` instruction asks for. The host performs it and hands the answer to
/// the matching `finish_` method of the emulator; `result` names the register for the answer.
#[derive(Debug, Clone, PartialEq, Eq)]
pub enum HostCall {
    /// Open the file whose path is `path` for reading.
    Open { path: Vec<u8>, result: Register },
    /// Read up to `count` bytes of code from `fd`, for the program from index `start`.
    ReadCode { fd: u8, start: u8, count: u8, result: Register },
    /// Read up to `count` bytes from `fd`, for memory from `start`.
    ReadMemory { fd: u8, start: u8, count: u8, result: Register },
    /// Write `data` to `fd`.
    Write { fd: u8, data: Vec<u8>, result: Register },
    /// Sleep for `seconds` seconds.
    Sleep { seconds: u8, result: Register },
}

/// What one step of the machine came to.
#[derive(Debug, Clone, PartialEq, Eq)]
pub enum Step {
    /// The instruction ran to completion.
    Executed(crate::instruction::Instruction),
    /// The program asked to exit with this code; nothing more is to run.
    Halt(u8),
    /// The program waits for the host.
    Syscall(HostCall),
}

} // verus!
