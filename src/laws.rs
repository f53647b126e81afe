use vstd::prelude::*;

use crate::constants::Constants;
use crate::error::EmuError;
use crate::instruction::Instruction;
use crate::register::{lemma_register_slots, Register};
use crate::semantics::{executes, reg_of, with_reg};
use crate::syscall::{syscall_of, Step, Syscall};

verus! {

/// `ADD(a, b)` leaves `(a + b) mod 256` in `a`, and every other register, memory and the stack
/// as they were.
pub proof fn lemma_add_wraps(
    c: Constants,
    regs: Seq<u8>,
    mem: Seq<u8>,
    stack: Seq<u8>,
    a: Register,
    b: Register,
    r: Result<Step, EmuError>,
    regs2: Seq<u8>,
    mem2: Seq<u8>,
    stack2: Seq<u8>,
)
    requires
        regs.len() == 7,
        a != Register::Absent,
        b != Register::Absent,
        executes(c, regs, mem, stack, Instruction::ADD(a, b), r, regs2, mem2, stack2),
    ensures
        r == Ok::<Step, EmuError>(Step::Executed(Instruction::ADD(a, b))),
        reg_of(regs2, a) == (reg_of(regs, a) + reg_of(regs, b)) % 256,
        forall|q: Register|
            q != Register::Absent && q != a ==> #[trigger] reg_of(regs2, q) == reg_of(regs, q),
        mem2 == mem,
        stack2 == stack,
{
    lemma_register_slots();
}

/// `IMM(d, v)` leaves `v` in `d`, and every other register, memory and the stack as they
/// were.
pub proof fn lemma_imm_sets_only_destination(
    c: Constants,
    regs: Seq<u8>,
    mem: Seq<u8>,
    stack: Seq<u8>,
    d: Register,
    v: u8,
    r: Result<Step, EmuError>,
    regs2: Seq<u8>,
    mem2: Seq<u8>,
    stack2: Seq<u8>,
)
    requires
        regs.len() == 7,
        d != Register::Absent,
        executes(c, regs, mem, stack, Instruction::IMM(d, v), r, regs2, mem2, stack2),
    ensures
        r is Ok,
        reg_of(regs2, d) == v,
        forall|q: Register|
            q != Register::Absent && q != d ==> #[trigger] reg_of(regs2, q) == reg_of(regs, q),
        mem2 == mem,
        stack2 == stack,
{
    lemma_register_slots();
}

/// Pushing `src` and popping into `dst` in one `STK` moves the value of `src` to `dst` and
/// leaves the stack pointer where it was.
pub proof fn lemma_stack_round_trip(
    c: Constants,
    regs: Seq<u8>,
    mem: Seq<u8>,
    stack: Seq<u8>,
    dst: Register,
    src: Register,
    r: Result<Step, EmuError>,
    regs2: Seq<u8>,
    mem2: Seq<u8>,
    stack2: Seq<u8>,
)
    requires
        regs.len() == 7,
        stack.len() == 256,
        dst != Register::Absent,
        dst != Register::S,
        src != Register::Absent,
        reg_of(regs, Register::S) < 255,
        executes(c, regs, mem, stack, Instruction::STK(dst, src), r, regs2, mem2, stack2),
    ensures
        r is Ok,
        reg_of(regs2, dst) == reg_of(regs, src),
        reg_of(regs2, Register::S) == reg_of(regs, Register::S),
        mem2 == mem,
{
    lemma_register_slots();
}

/// A push alone stores the value at the old stack pointer and raises the pointer by one,
/// unless the pointer is at its last slot.
pub proof fn lemma_push(
    c: Constants,
    regs: Seq<u8>,
    mem: Seq<u8>,
    stack: Seq<u8>,
    src: Register,
    r: Result<Step, EmuError>,
    regs2: Seq<u8>,
    mem2: Seq<u8>,
    stack2: Seq<u8>,
)
    requires
        regs.len() == 7,
        stack.len() == 256,
        src != Register::Absent,
        executes(
            c,
            regs,
            mem,
            stack,
            Instruction::STK(Register::Absent, src),
            r,
            regs2,
            mem2,
            stack2,
        ),
    ensures
        reg_of(regs, Register::S) == 255 ==> r == Err::<Step, EmuError>(EmuError::StackOverflow),
        reg_of(regs, Register::S) < 255 ==> {
            &&& r is Ok
            &&& reg_of(regs2, Register::S) == reg_of(regs, Register::S) + 1
            &&& stack2 == stack.update(reg_of(regs, Register::S) as int, reg_of(regs, src))
        },
{
    lemma_register_slots();
}

/// A pop alone lowers the stack pointer by one and loads the slot it then points at, unless
/// the pointer is at zero.
pub proof fn lemma_pop(
    c: Constants,
    regs: Seq<u8>,
    mem: Seq<u8>,
    stack: Seq<u8>,
    dst: Register,
    r: Result<Step, EmuError>,
    regs2: Seq<u8>,
    mem2: Seq<u8>,
    stack2: Seq<u8>,
)
    requires
        regs.len() == 7,
        stack.len() == 256,
        dst != Register::Absent,
        dst != Register::S,
        executes(
            c,
            regs,
            mem,
            stack,
            Instruction::STK(dst, Register::Absent),
            r,
            regs2,
            mem2,
            stack2,
        ),
    ensures
        reg_of(regs, Register::S) == 0 ==> r == Err::<Step, EmuError>(EmuError::StackUnderflow),
        reg_of(regs, Register::S) > 0 ==> {
            &&& r is Ok
            &&& reg_of(regs2, Register::S) == reg_of(regs, Register::S) - 1
            &&& reg_of(regs2, dst) == stack[reg_of(regs, Register::S) - 1]
            &&& stack2 == stack
        },
{
    lemma_register_slots();
}

/// A value stored by `STM(a, v)` is what a later `LDM(d, b)` loads, when `b` then holds the
/// address that `a` held.
pub proof fn lemma_store_load_round_trip(
    c: Constants,
    regs: Seq<u8>,
    mem: Seq<u8>,
    stack: Seq<u8>,
    a: Register,
    v: Register,
    d: Register,
    b: Register,
    r1: Result<Step, EmuError>,
    regs1: Seq<u8>,
    mem1: Seq<u8>,
    stack1: Seq<u8>,
    r2: Result<Step, EmuError>,
    regs2: Seq<u8>,
    mem2: Seq<u8>,
    stack2: Seq<u8>,
)
    requires
        regs.len() == 7,
        mem.len() == 256,
        a != Register::Absent,
        v != Register::Absent,
        d != Register::Absent,
        b != Register::Absent,
        executes(c, regs, mem, stack, Instruction::STM(a, v), r1, regs1, mem1, stack1),
        executes(c, regs1, mem1, stack1, Instruction::LDM(d, b), r2, regs2, mem2, stack2),
        reg_of(regs1, b) == reg_of(regs, a),
    ensures
        r1 is Ok,
        r2 is Ok,
        reg_of(regs2, d) == reg_of(regs, v),
        mem2 == mem.update(reg_of(regs, a) as int, reg_of(regs, v)),
{
    lemma_register_slots();
}

/// A `JMP(mask, t)` fetched at `ip` goes to the value of `t` when F shares a bit with `mask`,
/// and otherwise on to `ip + 1`.
pub proof fn lemma_jump(
    c: Constants,
    regs: Seq<u8>,
    mem: Seq<u8>,
    stack: Seq<u8>,
    mask: u8,
    t: Register,
    r: Result<Step, EmuError>,
    regs2: Seq<u8>,
    mem2: Seq<u8>,
    stack2: Seq<u8>,
)
    requires
        regs.len() == 7,
        t != Register::Absent,
        t != Register::I,
        executes(
            c,
            with_reg(regs, Register::I, ((reg_of(regs, Register::I) + 1) % 256) as u8),
            mem,
            stack,
            Instruction::JMP(mask, t),
            r,
            regs2,
            mem2,
            stack2,
        ),
    ensures
        r is Ok,
        reg_of(regs, Register::F) & mask != 0 ==> reg_of(regs2, Register::I) == reg_of(regs, t),
        reg_of(regs, Register::F) & mask == 0 ==> reg_of(regs2, Register::I) == (reg_of(
            regs,
            Register::I,
        ) + 1) % 256,
        mem2 == mem,
        stack2 == stack,
{
    lemma_register_slots();
}

/// EXIT halts with the code in A and changes nothing, so the machine runs no further.
pub proof fn lemma_exit_halts(
    c: Constants,
    regs: Seq<u8>,
    mem: Seq<u8>,
    stack: Seq<u8>,
    code: u8,
    result: Register,
    r: Result<Step, EmuError>,
    regs2: Seq<u8>,
    mem2: Seq<u8>,
    stack2: Seq<u8>,
)
    requires
        syscall_of(c.syscall, code) == Some(Syscall::Exit),
        executes(c, regs, mem, stack, Instruction::SYS(code, result), r, regs2, mem2, stack2),
    ensures
        r == Ok::<Step, EmuError>(Step::Halt(reg_of(regs, Register::A))),
        regs2 == regs,
        mem2 == mem,
        stack2 == stack,
{
}

} // verus!
