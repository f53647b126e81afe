use vstd::prelude::*;

use crate::constants::{Constants, FlagConstants};
use crate::error::EmuError;
use crate::instruction::Instruction;
use crate::register::Register;
use crate::storage::c_string;
use crate::syscall::{syscall_of, HostCall, Step, Syscall};

verus! {

/// Value of a real register in a register file.
pub open spec fn reg_of(regs: Seq<u8>, r: Register) -> u8 {
    regs[r.index() as int]
}

/// A register file with `r` holding `v`.
pub open spec fn with_reg(regs: Seq<u8>, r: Register, v: u8) -> Seq<u8> {
    regs.update(r.index() as int, v)
}

/// The flags that `CMP` writes for operands `x` and `y`.
pub open spec fn cmp_flags(f: FlagConstants, x: u8, y: u8) -> u8 {
    let order: u8 = if x < y {
        f.L | f.N
    } else if x > y {
        f.G | f.N
    } else {
        f.E
    };
    if x == 0 && y == 0 {
        order | f.Z
    } else {
        order
    }
}

/// `STK(pop, push)` on registers and stack: push first, then pop. A push with the stack
/// pointer at 255, or a pop with it at 0, fails and changes nothing.
pub open spec fn stk_spec(regs: Seq<u8>, stack: Seq<u8>, pop: Register, push: Register) -> Result<
    (Seq<u8>, Seq<u8>),
    EmuError,
> {
    let s0 = reg_of(regs, Register::S);
    if push != Register::Absent && s0 == 255 {
        Err(EmuError::StackOverflow)
    } else {
        let regs1 = if push != Register::Absent {
            with_reg(regs, Register::S, (s0 + 1) as u8)
        } else {
            regs
        };
        let stack1 = if push != Register::Absent {
            stack.update(s0 as int, reg_of(regs, push))
        } else {
            stack
        };
        if pop != Register::Absent {
            let s1 = reg_of(regs1, Register::S);
            if s1 == 0 {
                Err(EmuError::StackUnderflow)
            } else {
                let s2 = (s1 - 1) as u8;
                Ok((with_reg(with_reg(regs1, Register::S, s2), pop, stack1[s2 as int]), stack1))
            }
        } else {
            Ok((regs1, stack1))
        }
    }
}

/// Registers, memory and stack after an instruction other than `SYS`, or the error it
/// fails with (`SYS` changes none of them).
pub open spec fn exec_spec(
    c: Constants,
    regs: Seq<u8>,
    mem: Seq<u8>,
    stack: Seq<u8>,
    instr: Instruction,
) -> Result<(Seq<u8>, Seq<u8>, Seq<u8>), EmuError> {
    match instr {
        Instruction::IMM(d, v) => if d == Register::Absent {
            Err(EmuError::InvalidOperand)
        } else {
            Ok((with_reg(regs, d, v), mem, stack))
        },
        Instruction::ADD(a, b) => if a == Register::Absent || b == Register::Absent {
            Err(EmuError::InvalidOperand)
        } else {
            Ok((with_reg(regs, a, ((reg_of(regs, a) + reg_of(regs, b)) % 256) as u8), mem, stack))
        },
        Instruction::STK(pop, push) => match stk_spec(regs, stack, pop, push) {
            Ok((r2, s2)) => Ok((r2, mem, s2)),
            Err(e) => Err(e),
        },
        Instruction::STM(a, v) => if a == Register::Absent || v == Register::Absent {
            Err(EmuError::InvalidOperand)
        } else {
            Ok((regs, mem.update(reg_of(regs, a) as int, reg_of(regs, v)), stack))
        },
        Instruction::LDM(d, a) => if d == Register::Absent || a == Register::Absent {
            Err(EmuError::InvalidOperand)
        } else {
            Ok((with_reg(regs, d, mem[reg_of(regs, a) as int]), mem, stack))
        },
        Instruction::CMP(a, b) => if a == Register::Absent || b == Register::Absent {
            Err(EmuError::InvalidOperand)
        } else {
            Ok((with_reg(regs, Register::F, cmp_flags(c.flag, reg_of(regs, a), reg_of(regs, b))), mem, stack))
        },
        Instruction::JMP(mask, t) => if t == Register::Absent {
            Err(EmuError::InvalidOperand)
        } else if reg_of(regs, Register::F) & mask != 0 {
            Ok((with_reg(regs, Register::I, reg_of(regs, t)), mem, stack))
        } else {
            Ok((regs, mem, stack))
        },
        Instruction::SYS(_, _) => Ok((regs, mem, stack)),
    }
}

/// What `SYS(code, result)` comes to, with arguments in A, B and C.
pub open spec fn sys_spec(
    c: Constants,
    regs: Seq<u8>,
    mem: Seq<u8>,
    code: u8,
    result: Register,
    r: Result<Step, EmuError>,
) -> bool {
    let a = reg_of(regs, Register::A);
    let b = reg_of(regs, Register::B);
    let n = reg_of(regs, Register::C);
    match syscall_of(c.syscall, code) {
        None => r == Err::<Step, EmuError>(EmuError::UnsupportedSyscall(code)),
        Some(Syscall::Exit) => r == Ok::<Step, EmuError>(Step::Halt(a)),
        Some(k) => if result == Register::Absent {
            r == Err::<Step, EmuError>(EmuError::InvalidOperand)
        } else {
            match k {
                Syscall::Open => (r matches Ok(Step::Syscall(HostCall::Open { path, result: res })) && res
                    == result && path@ == c_string(mem, a as int)),
                Syscall::ReadCode => r == Ok::<Step, EmuError>(
                    Step::Syscall(HostCall::ReadCode { fd: a, start: b, count: n, result }),
                ),
                Syscall::ReadMemory => if b + n > 256 {
                    r == Err::<Step, EmuError>(EmuError::OutOfBounds)
                } else {
                    r == Ok::<Step, EmuError>(
                        Step::Syscall(HostCall::ReadMemory { fd: a, start: b, count: n, result }),
                    )
                },
                Syscall::Write => if b + n > 256 {
                    r == Err::<Step, EmuError>(EmuError::OutOfBounds)
                } else {
                    (r matches Ok(Step::Syscall(HostCall::Write { fd, data, result: res })) && fd == a
                        && res == result && data@ == mem.subrange(b as int, b + n))
                },
                Syscall::Sleep => r == Ok::<Step, EmuError>(
                    Step::Syscall(HostCall::Sleep { seconds: a, result }),
                ),
                Syscall::Exit => r == Ok::<Step, EmuError>(Step::Halt(a)),
            }
        },
    }
}

/// Executing `instr` on registers `regs`, memory `mem` and stack `stack` gives `r` and leaves
/// registers `regs2`, memory `mem2` and stack `stack2`. A failed instruction changes nothing,
/// and so does `SYS`, whose work is left to the host.
pub open spec fn executes(
    c: Constants,
    regs: Seq<u8>,
    mem: Seq<u8>,
    stack: Seq<u8>,
    instr: Instruction,
    r: Result<Step, EmuError>,
    regs2: Seq<u8>,
    mem2: Seq<u8>,
    stack2: Seq<u8>,
) -> bool {
    match instr {
        Instruction::SYS(code, result) => sys_spec(c, regs, mem, code, result, r) && regs2 == regs
            && mem2 == mem && stack2 == stack,
        _ => match exec_spec(c, regs, mem, stack, instr) {
            Ok((r2, m2, s2)) => r == Ok::<Step, EmuError>(Step::Executed(instr)) && regs2 == r2
                && mem2 == m2 && stack2 == s2,
            Err(e) => r == Err::<Step, EmuError>(e) && regs2 == regs && mem2 == mem && stack2
                == stack,
        },
    }
}

} // verus!
