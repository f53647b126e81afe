use vstd::prelude::*;

use crate::constants::Constants;
use crate::error::EmuError;
use crate::instruction::Instruction;
use crate::register::Register;
use crate::semantics::{cmp_flags, exec_spec, executes, reg_of, sys_spec, with_reg};
use crate::storage::{overwrite, Memory, Registers, Stack};
use crate::syscall::{HostCall, Step, Syscall};

verus! {

/// A Yan85 machine: its encoding, its program, and its registers, stack and memory.
#[derive(Debug, Clone)]
pub struct Emulator {
    /// Encoding constants.
    pub constants: Constants,
    /// The program, indexed by register I.
    pub instructions: Vec<Instruction>,
    /// The registers.
    pub registers: Registers,
    /// The stack.
    pub stack: Stack,
    /// The memory.
    pub memory: Memory,
}

impl Emulator {
    /// Value of a real register.
    pub open spec fn reg(self, r: Register) -> u8 {
        reg_of(self.registers@, r)
    }

    /// An instruction other than `SYS` took this machine to `post` with result `r`, as
    /// [`exec_spec`] says.
    pub open spec fn applied(self, instr: Instruction, post: Emulator, r: Result<(), EmuError>) -> bool {
        &&& post.constants == self.constants
        &&& post.instructions == self.instructions
        &&& match exec_spec(self.constants, self.registers@, self.memory@, self.stack@, instr) {
            Ok((r2, m2, s2)) => r is Ok && post.registers@ == r2 && post.memory@ == m2
                && post.stack@ == s2,
            Err(e) => r == Err::<(), EmuError>(e) && post.registers@ == self.registers@
                && post.memory@ == self.memory@ && post.stack@ == self.stack@,
        }
    }

    /// Constructs a machine with zeroed registers and stack, or fails with `DecodeError`
    /// where the register bindings of `constants` are malformed.
    pub fn new(constants: Constants, instructions: Vec<Instruction>, memory: Memory) -> (r: Result<
        Emulator,
        EmuError,
    >)
        ensures
            constants.wf() ==> (r matches Ok(e) && e.constants == constants && e.instructions
                == instructions && e.memory == memory && e.registers@ == Seq::new(
                7,
                |i: int| 0u8,
            ) && e.stack@ == Seq::new(256, |i: int| 0u8)),
            !constants.wf() ==> r matches Err(EmuError::DecodeError),
    {
        if !constants.register.is_valid() {
            return Err(EmuError::DecodeError);
        }
        Ok(Emulator {
            constants,
            instructions,
            registers: Registers::new(),
            stack: Memory::new(),
            memory,
        })
    }

    /// Fetches the instruction at I, advances I by one (wrapping), and executes it.
    pub fn step(&mut self) -> (r: Result<Step, EmuError>)
        ensures
            old(self).reg(Register::I) >= old(self).instructions@.len() ==> (r == Err::<
                Step,
                EmuError,
            >(EmuError::ProgramCounterOutOfRange) && *final(self) == *old(self)),
            old(self).reg(Register::I) < old(self).instructions@.len() ==> {
                &&& executes(
                    old(self).constants,
                    with_reg(
                        old(self).registers@,
                        Register::I,
                        ((old(self).reg(Register::I) + 1) % 256) as u8,
                    ),
                    old(self).memory@,
                    old(self).stack@,
                    old(self).instructions@[old(self).reg(Register::I) as int],
                    r,
                    final(self).registers@,
                    final(self).memory@,
                    final(self).stack@,
                )
                &&& final(self).constants == old(self).constants
                &&& final(self).instructions == old(self).instructions
            },
    {
        let ip = self.registers.get(Register::I);
        if ip as usize >= self.instructions.len() {
            return Err(EmuError::ProgramCounterOutOfRange);
        }
        let instruction = self.instructions[ip as usize];
        let next: u8 = ((ip as u16 + 1) % 256) as u8;
        self.registers.set(Register::I, next);
        self.emulate_instruction(instruction)
    }

    /// Executes one instruction.
    pub fn emulate_instruction(&mut self, instruction: Instruction) -> (r: Result<Step, EmuError>)
        ensures
            executes(
                old(self).constants,
                old(self).registers@,
                old(self).memory@,
                old(self).stack@,
                instruction,
                r,
                final(self).registers@,
                final(self).memory@,
                final(self).stack@,
            ),
            final(self).constants == old(self).constants,
            final(self).instructions == old(self).instructions,
    {
        let done = match instruction {
            Instruction::IMM(register, value) => self.emulate_imm(register, value),
            Instruction::ADD(a, b) => self.emulate_add(a, b),
            Instruction::STK(pop, push) => self.emulate_stk(pop, push),
            Instruction::STM(a, b) => self.emulate_stm(a, b),
            Instruction::LDM(a, b) => self.emulate_ldm(a, b),
            Instruction::CMP(a, b) => self.emulate_cmp(a, b),
            Instruction::JMP(condition, register) => self.emulate_jmp(condition, register),
            Instruction::SYS(syscall, register) => {
                return self.emulate_sys(syscall, register);
            },
        };
        match done {
            Ok(()) => Ok(Step::Executed(instruction)),
            Err(e) => Err(e),
        }
    }

    /// `IMM`: assigns `value` to `register`.
    fn emulate_imm(&mut self, register: Register, value: u8) -> (r: Result<(), EmuError>)
        ensures
            old(self).applied(Instruction::IMM(register, value), *final(self), r),
    {
        if register == Register::Absent {
            return Err(EmuError::InvalidOperand);
        }
        self.registers.set(register, value);
        Ok(())
    }

    /// `ADD`: adds the value of `b` to that of `a`, wrapping, and stores it in `a`.
    fn emulate_add(&mut self, a: Register, b: Register) -> (r: Result<(), EmuError>)
        ensures
            old(self).applied(Instruction::ADD(a, b), *final(self), r),
    {
        if a == Register::Absent || b == Register::Absent {
            return Err(EmuError::InvalidOperand);
        }
        let x = self.registers.get(a);
        let y = self.registers.get(b);
        let sum: u8 = ((x as u16 + y as u16) % 256) as u8;
        self.registers.set(a, sum);
        Ok(())
    }

    /// `STK`: pushes `push`, then pops into `pop`, skipping whichever is absent.
    fn emulate_stk(&mut self, pop: Register, push: Register) -> (r: Result<(), EmuError>)
        ensures
            old(self).applied(Instruction::STK(pop, push), *final(self), r),
    {
        let sp = self.registers.get(Register::S);
        if push != Register::Absent && sp == 255 {
            return Err(EmuError::StackOverflow);
        }
        if pop != Register::Absent && push == Register::Absent && sp == 0 {
            return Err(EmuError::StackUnderflow);
        }
        if push != Register::Absent {
            let v = self.registers.get(push);
            self.stack.write(sp, v);
            self.registers.set(Register::S, sp + 1);
        }
        if pop != Register::Absent {
            let top = self.registers.get(Register::S) - 1;
            self.registers.set(Register::S, top);
            let v = self.stack.read(top);
            self.registers.set(pop, v);
        }
        Ok(())
    }

    /// `STM`: stores the value of `b` at the memory address held in `a`.
    fn emulate_stm(&mut self, a: Register, b: Register) -> (r: Result<(), EmuError>)
        ensures
            old(self).applied(Instruction::STM(a, b), *final(self), r),
    {
        if a == Register::Absent || b == Register::Absent {
            return Err(EmuError::InvalidOperand);
        }
        let addr = self.registers.get(a);
        let v = self.registers.get(b);
        self.memory.write(addr, v);
        Ok(())
    }

    /// `LDM`: loads into `a` the memory byte at the address held in `b`.
    fn emulate_ldm(&mut self, a: Register, b: Register) -> (r: Result<(), EmuError>)
        ensures
            old(self).applied(Instruction::LDM(a, b), *final(self), r),
    {
        if a == Register::Absent || b == Register::Absent {
            return Err(EmuError::InvalidOperand);
        }
        let addr = self.registers.get(b);
        let v = self.memory.read(addr);
        self.registers.set(a, v);
        Ok(())
    }

    /// `CMP`: compares `a` and `b` and writes the resulting flags to F, from scratch.
    fn emulate_cmp(&mut self, a: Register, b: Register) -> (r: Result<(), EmuError>)
        ensures
            old(self).applied(Instruction::CMP(a, b), *final(self), r),
    {
        if a == Register::Absent || b == Register::Absent {
            return Err(EmuError::InvalidOperand);
        }
        let f = self.constants.flag;
        let x = self.registers.get(a);
        let y = self.registers.get(b);
        let order: u8 = if x < y {
            f.L | f.N
        } else if x > y {
            f.G | f.N
        } else {
            f.E
        };
        let flags: u8 = if x == 0 && y == 0 {
            order | f.Z
        } else {
            order
        };
        assert(flags == cmp_flags(f, x, y));
        self.registers.set(Register::F, flags);
        Ok(())
    }

    /// `JMP`: sets I to the value of `register` when F shares a bit with `condition`.
    fn emulate_jmp(&mut self, condition: u8, register: Register) -> (r: Result<(), EmuError>)
        ensures
            old(self).applied(Instruction::JMP(condition, register), *final(self), r),
    {
        if register == Register::Absent {
            return Err(EmuError::InvalidOperand);
        }
        if self.registers.get(Register::F) & condition != 0 {
            let target = self.registers.get(register);
            self.registers.set(Register::I, target);
        }
        Ok(())
    }

    /// `SYS`: decodes the syscall, reads its arguments from A, B and C, and says what the host
    /// is to do, or halts on EXIT. Changes nothing itself.
    fn emulate_sys(&self, syscall: u8, register: Register) -> (r: Result<Step, EmuError>)
        ensures
            sys_spec(self.constants, self.registers@, self.memory@, syscall, register, r),
    {
        let kind = match self.constants.syscall.decode(syscall) {
            Some(k) => k,
            None => {
                return Err(EmuError::UnsupportedSyscall(syscall));
            },
        };
        let a = self.registers.get(Register::A);
        let b = self.registers.get(Register::B);
        let c = self.registers.get(Register::C);
        if let Syscall::Exit = kind {
            return Ok(Step::Halt(a));
        }
        if register == Register::Absent {
            return Err(EmuError::InvalidOperand);
        }
        let call = match kind {
            Syscall::Open => HostCall::Open { path: self.memory.read_c_string(a), result: register },
            Syscall::ReadCode => HostCall::ReadCode { fd: a, start: b, count: c, result: register },
            Syscall::ReadMemory => {
                if b as usize + c as usize > 256 {
                    return Err(EmuError::OutOfBounds);
                }
                HostCall::ReadMemory { fd: a, start: b, count: c, result: register }
            },
            Syscall::Write => {
                let data = match self.memory.read_range(b, c as usize) {
                    Ok(d) => d,
                    Err(e) => {
                        return Err(e);
                    },
                };
                HostCall::Write { fd: a, data, result: register }
            },
            Syscall::Sleep => HostCall::Sleep { seconds: a, result: register },
            Syscall::Exit => {
                return Ok(Step::Halt(a));
            },
        };
        Ok(Step::Syscall(call))
    }

    /// Only register `result` changed, to `v`.
    pub open spec fn answered(self, post: Emulator, result: Register, v: u8) -> bool {
        &&& post.registers@ == with_reg(self.registers@, result, v)
        &&& post.memory == self.memory
        &&& post.stack == self.stack
        &&& post.constants == self.constants
        &&& post.instructions == self.instructions
    }

    /// Completes OPEN with the host's answer: its descriptor, or its description of the
    /// failure. The descriptor goes to `result` where it fits in a byte.
    pub fn finish_open(&mut self, result: Register, fd: Result<i32, String>) -> (r: Result<
        (),
        EmuError,
    >)
        ensures
            match fd {
                Err(msg) => r == Err::<(), EmuError>(EmuError::HostIoError(msg)) && *final(self)
                    == *old(self),
                Ok(d) => if result == Register::Absent {
                    r == Err::<(), EmuError>(EmuError::InvalidOperand) && *final(self) == *old(self)
                } else if d < 0 || d > 255 {
                    r == Err::<(), EmuError>(EmuError::FileDescriptorOverflow) && *final(self)
                        == *old(self)
                } else {
                    r is Ok && old(self).answered(*final(self), result, d as u8)
                },
            },
    {
        let d = match fd {
            Err(msg) => {
                return Err(EmuError::HostIoError(msg));
            },
            Ok(d) => d,
        };
        if result == Register::Absent {
            return Err(EmuError::InvalidOperand);
        }
        if d < 0 || d > 255 {
            return Err(EmuError::FileDescriptorOverflow);
        }
        self.registers.set(result, d as u8);
        Ok(())
    }

    /// Completes READ_MEMORY with the bytes the host read (empty at end of file), or its
    /// description of the failure. The bytes go to memory from `start` and their number to
    /// `result`; more than `count` bytes, or a range past the end of memory, is `OutOfBounds`.
    pub fn finish_read_memory(
        &mut self,
        result: Register,
        start: u8,
        count: u8,
        bytes: Result<Vec<u8>, String>,
    ) -> (r: Result<(), EmuError>)
        ensures
            match bytes {
                Err(msg) => r == Err::<(), EmuError>(EmuError::HostIoError(msg)) && *final(self)
                    == *old(self),
                Ok(v) => if result == Register::Absent {
                    r == Err::<(), EmuError>(EmuError::InvalidOperand) && *final(self) == *old(self)
                } else if v@.len() > count || start + count > 256 {
                    r == Err::<(), EmuError>(EmuError::OutOfBounds) && *final(self) == *old(self)
                } else {
                    &&& r is Ok
                    &&& final(self).memory@ == overwrite(old(self).memory@, start as int, v@)
                    &&& final(self).registers@ == with_reg(
                        old(self).registers@,
                        result,
                        v@.len() as u8,
                    )
                    &&& final(self).stack == old(self).stack
                    &&& final(self).constants == old(self).constants
                    &&& final(self).instructions == old(self).instructions
                },
            },
    {
        let v = match bytes {
            Err(msg) => {
                return Err(EmuError::HostIoError(msg));
            },
            Ok(v) => v,
        };
        if result == Register::Absent {
            return Err(EmuError::InvalidOperand);
        }
        if v.len() > count as usize || start as usize + count as usize > 256 {
            return Err(EmuError::OutOfBounds);
        }
        let written = self.memory.write_range(start, v.as_slice());
        assert(written is Ok);
        self.registers.set(result, v.len() as u8);
        Ok(())
    }

    /// Completes WRITE with the number of bytes the host wrote, or its description of the
    /// failure. The number goes to `result`; one that does not fit in a byte is `OutOfBounds`.
    pub fn finish_write(&mut self, result: Register, written: Result<usize, String>) -> (r: Result<
        (),
        EmuError,
    >)
        ensures
            match written {
                Err(msg) => r == Err::<(), EmuError>(EmuError::HostIoError(msg)) && *final(self)
                    == *old(self),
                Ok(n) => if result == Register::Absent {
                    r == Err::<(), EmuError>(EmuError::InvalidOperand) && *final(self) == *old(self)
                } else if n > 255 {
                    r == Err::<(), EmuError>(EmuError::OutOfBounds) && *final(self) == *old(self)
                } else {
                    r is Ok && old(self).answered(*final(self), result, n as u8)
                },
            },
    {
        let n = match written {
            Err(msg) => {
                return Err(EmuError::HostIoError(msg));
            },
            Ok(n) => n,
        };
        if result == Register::Absent {
            return Err(EmuError::InvalidOperand);
        }
        if n > 255 {
            return Err(EmuError::OutOfBounds);
        }
        self.registers.set(result, n as u8);
        Ok(())
    }

    /// Completes SLEEP once the host has slept: `result` becomes zero.
    pub fn finish_sleep(&mut self, result: Register) -> (r: Result<(), EmuError>)
        ensures
            result == Register::Absent ==> (r == Err::<(), EmuError>(EmuError::InvalidOperand)
                && *final(self) == *old(self)),
            result != Register::Absent ==> (r is Ok && old(self).answered(*final(self), result, 0)),
    {
        if result == Register::Absent {
            return Err(EmuError::InvalidOperand);
        }
        self.registers.set(result, 0);
        Ok(())
    }

    /// Completes READ_CODE with the instructions decoded from what the host read, or the
    /// error that reading or decoding met. They replace the program from index `start`,
    /// extending it where they run past its end, and their number goes to `result`. A `start`
    /// past the end of the program, or more than 255 instructions, is `OutOfBounds`.
    pub fn finish_read_code(
        &mut self,
        result: Register,
        start: u8,
        code: Result<Vec<Instruction>, EmuError>,
    ) -> (r: Result<(), EmuError>)
        ensures
            match code {
                Err(e) => r == Err::<(), EmuError>(e) && *final(self) == *old(self),
                Ok(v) => if result == Register::Absent {
                    r == Err::<(), EmuError>(EmuError::InvalidOperand) && *final(self) == *old(self)
                } else if start > old(self).instructions@.len() || v@.len() > 255 {
                    r == Err::<(), EmuError>(EmuError::OutOfBounds) && *final(self) == *old(self)
                } else {
                    &&& r is Ok
                    &&& final(self).instructions@ == splice(
                        old(self).instructions@,
                        start as int,
                        v@,
                    )
                    &&& final(self).registers@ == with_reg(
                        old(self).registers@,
                        result,
                        v@.len() as u8,
                    )
                    &&& final(self).memory == old(self).memory
                    &&& final(self).stack == old(self).stack
                    &&& final(self).constants == old(self).constants
                },
            },
    {
        let v = match code {
            Err(e) => {
                return Err(e);
            },
            Ok(v) => v,
        };
        if result == Register::Absent {
            return Err(EmuError::InvalidOperand);
        }
        if start as usize > self.instructions.len() || v.len() > 255 {
            return Err(EmuError::OutOfBounds);
        }
        let ghost old_code = self.instructions@;
        let mut k: usize = 0;
        while k < v.len()
            invariant
                k <= v@.len() <= 255,
                start <= old_code.len(),
                self.instructions@ == splice(old_code, start as int, v@.subrange(0, k as int)),
                self.registers == old(self).registers,
                self.memory == old(self).memory,
                self.stack == old(self).stack,
                self.constants == old(self).constants,
            decreases v@.len() - k,
        {
            let idx: usize = start as usize + k;
            if idx < self.instructions.len() {
                self.instructions.set(idx, v[k]);
            } else {
                self.instructions.push(v[k]);
            }
            k = k + 1;
            assert(self.instructions@ =~= splice(old_code, start as int, v@.subrange(0, k as int)));
        }
        assert(v@.subrange(0, v@.len() as int) =~= v@);
        self.registers.set(result, v.len() as u8);
        Ok(())
    }
}

/// `p` with its entries from `start` replaced by `b`, longer where `b` runs past its end.
pub open spec fn splice(p: Seq<Instruction>, start: int, b: Seq<Instruction>) -> Seq<Instruction> {
    let len = if start + b.len() > p.len() {
        start + b.len()
    } else {
        p.len() as int
    };
    Seq::new(len as nat, |i: int| if start <= i < start + b.len() { b[i - start] } else { p[i] })
}

} // verus!
