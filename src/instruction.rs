use vstd::prelude::*;

use crate::register::Register;

verus! {

/// A decoded Yan85 instruction.
#[allow(non_camel_case_types, clippy::upper_case_acronyms)]
#[derive(Debug, Copy, Clone, PartialEq, Eq, Structural)]
pub enum Instruction {
    /// `IMM(dst, value)`: `dst := value`.
    IMM(Register, u8),
    /// `ADD(a, b)`: `a := a + b`, wrapping.
    ADD(Register, Register),
    /// `STK(pop_dst, push_src)`: push `push_src`, then pop into `pop_dst`; either may be absent.
    STK(Register, Register),
    /// `STM(addr, value)`: `memory[addr] := value`.
    STM(Register, Register),
    /// `LDM(dst, addr)`: `dst := memory[addr]`.
    LDM(Register, Register),
    /// `CMP(a, b)`: sets the flags in F from comparing `a` and `b`.
    CMP(Register, Register),
    /// `JMP(mask, target)`: `I := target` when F shares a bit with `mask`.
    JMP(u8, Register),
    /// `SYS(code, result)`: runs a syscall, its value going to `result`.
    SYS(u8, Register),
}

} // verus!
