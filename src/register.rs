use vstd::prelude::*;

verus! {

/// Default byte that encodes register `a`.
pub const REG_A: u8 = 0x40;
/// Default byte that encodes register `b`.
pub const REG_B: u8 = 0x04;
/// Default byte that encodes register `c`.
pub const REG_C: u8 = 0x20;
/// Default byte that encodes register `d`.
pub const REG_D: u8 = 0x08;
/// Default byte that encodes the stack pointer `s`.
pub const REG_S: u8 = 0x01;
/// Default byte that encodes the instruction pointer `i`.
pub const REG_I: u8 = 0x10;
/// Default byte that encodes the flags register `f`.
pub const REG_F: u8 = 0x02;

/// A Yan85 register, or `Absent` where an optional operand is absent.
#[derive(Debug, Copy, Clone, PartialEq, Eq, Structural)]
pub enum Register {
    A,
    B,
    C,
    D,
    S,
    I,
    F,
    Absent,
}

/// The byte that encodes `r` under the default register bindings (`0` for `Absent`).
pub open spec fn default_code(r: Register) -> u8 {
    match r {
        Register::A => REG_A,
        Register::B => REG_B,
        Register::C => REG_C,
        Register::D => REG_D,
        Register::S => REG_S,
        Register::I => REG_I,
        Register::F => REG_F,
        Register::Absent => 0,
    }
}

/// Whether a byte encodes a register (or the absent operand) under the default bindings.
pub open spec fn is_register_code(b: u8) -> bool {
    b == REG_A || b == REG_B || b == REG_C || b == REG_D || b == REG_S || b == REG_I || b == REG_F
        || b == 0
}

/// Number of trailing zero bits of a byte: the position of its lowest set bit.
pub open spec fn bit_position(b: u8) -> nat
    decreases b,
{
    if b == 0 {
        8
    } else if b % 2 == 1 {
        0
    } else {
        1 + bit_position(b / 2)
    }
}

impl Register {
    /// Storage slot of a real register: the bit position of its default binding.
    pub open spec fn index(self) -> nat {
        bit_position(default_code(self))
    }

    /// Decodes a register byte under the default bindings; `0` is `Absent`.
    pub fn try_from(register: u8) -> (r: Option<Register>)
        ensures
            r matches Some(reg) ==> default_code(reg) == register,
            r is None <==> !is_register_code(register),
    {
        match register {
            REG_A => Some(Register::A),
            REG_B => Some(Register::B),
            REG_C => Some(Register::C),
            REG_D => Some(Register::D),
            REG_S => Some(Register::S),
            REG_I => Some(Register::I),
            REG_F => Some(Register::F),
            0x0 => Some(Register::Absent),
            _ => None,
        }
    }

    /// Storage slot of a real register, from `0` to `6`.
    pub fn to_index(self) -> (r: usize)
        requires
            self != Register::Absent,
        ensures
            r == self.index(),
            r < 7,
    {
        proof {
            reveal_with_fuel(bit_position, 8);
        }
        let mut b: u8 = match self {
            Register::A => REG_A,
            Register::B => REG_B,
            Register::C => REG_C,
            Register::D => REG_D,
            Register::S => REG_S,
            Register::I => REG_I,
            Register::F => REG_F,
            Register::Absent => 0,
        };
        let mut n: usize = 0;
        while b % 2 == 0
            invariant
                b != 0,
                n + bit_position(b) == self.index(),
                n <= 7,
                bit_position(b) + n < 7,
            decreases b,
        {
            b = b / 2;
            n = n + 1;
        }
        n
    }

    /// Lower-case name of the register, `NONE` for the absent operand.
    pub fn name(self) -> (r: &'static str)
        ensures
            r@ == register_name(self),
    {
        match self {
            Register::A => {
                proof {
                    reveal_strlit("a");
                }
                "a"
            },
            Register::B => {
                proof {
                    reveal_strlit("b");
                }
                "b"
            },
            Register::C => {
                proof {
                    reveal_strlit("c");
                }
                "c"
            },
            Register::D => {
                proof {
                    reveal_strlit("d");
                }
                "d"
            },
            Register::S => {
                proof {
                    reveal_strlit("s");
                }
                "s"
            },
            Register::I => {
                proof {
                    reveal_strlit("i");
                }
                "i"
            },
            Register::F => {
                proof {
                    reveal_strlit("f");
                }
                "f"
            },
            Register::Absent => {
                proof {
                    reveal_strlit("NONE");
                }
                "NONE"
            },
        }
    }
}

/// Printed name of a register.
pub open spec fn register_name(r: Register) -> Seq<char> {
    match r {
        Register::A => seq!['a'],
        Register::B => seq!['b'],
        Register::C => seq!['c'],
        Register::D => seq!['d'],
        Register::S => seq!['s'],
        Register::I => seq!['i'],
        Register::F => seq!['f'],
        Register::Absent => seq!['N', 'O', 'N', 'E'],
    }
}

/// The storage slot of each real register; distinct registers have distinct slots.
pub proof fn lemma_register_slots()
    ensures
        Register::A.index() == 6,
        Register::B.index() == 2,
        Register::C.index() == 5,
        Register::D.index() == 3,
        Register::S.index() == 0,
        Register::I.index() == 4,
        Register::F.index() == 1,
        forall|p: Register, q: Register|
            p != Register::Absent && q != Register::Absent && p != q ==> #[trigger] p.index()
                != #[trigger] q.index(),
        forall|p: Register| p != Register::Absent ==> #[trigger] p.index() < 7,
{
    reveal_with_fuel(bit_position, 8);
}

} // verus!
