use vstd::prelude::*;

use crate::register::{REG_A, REG_B, REG_C, REG_D, REG_F, REG_I, REG_S};

verus! {

/// The byte bound to each register.
#[allow(non_snake_case)]
#[derive(Debug, Clone, Copy, PartialEq, Eq, Structural)]
pub struct RegisterConstants {
    pub A: u8,
    pub B: u8,
    pub C: u8,
    pub D: u8,
    pub S: u8,
    pub I: u8,
    pub F: u8,
}

/// The bit bound to each flag of register F.
#[allow(non_snake_case)]
#[derive(Debug, Clone, Copy, PartialEq, Eq, Structural)]
pub struct FlagConstants {
    /// Less.
    pub L: u8,
    /// Greater.
    pub G: u8,
    /// Equal.
    pub E: u8,
    /// Not equal; set with L or G.
    pub N: u8,
    /// Both operands zero.
    pub Z: u8,
}

/// The code bound to each syscall.
#[allow(non_snake_case)]
#[derive(Debug, Clone, Copy, PartialEq, Eq, Structural)]
pub struct SyscallConstants {
    pub OPEN: u8,
    pub READ_CODE: u8,
    pub READ_MEMORY: u8,
    pub WRITE: u8,
    pub SLEEP: u8,
    pub EXIT: u8,
}

/// Whether exactly one bit of `b` is set.
pub open spec fn is_single_bit(b: u8) -> bool {
    b == 1 || b == 2 || b == 4 || b == 8 || b == 16 || b == 32 || b == 64 || b == 128
}

impl RegisterConstants {
    /// The seven bindings, in the order A, B, C, D, S, I, F.
    pub open spec fn codes(self) -> Seq<u8> {
        seq![self.A, self.B, self.C, self.D, self.S, self.I, self.F]
    }

    /// Each binding is a single bit, and no two registers share one.
    pub open spec fn wf(self) -> bool {
        &&& forall|k: int| 0 <= k < 7 ==> is_single_bit(#[trigger] self.codes()[k])
        &&& forall|k: int, l: int|
            0 <= k < l < 7 ==> #[trigger] self.codes()[k] != #[trigger] self.codes()[l]
    }

    /// Decides [`RegisterConstants::wf`].
    pub fn is_valid(&self) -> (r: bool)
        ensures
            r == self.wf(),
    {
        let codes: [u8; 7] = [self.A, self.B, self.C, self.D, self.S, self.I, self.F];
        assert(codes@ =~= self.codes());
        let mut i: usize = 0;
        while i < 7
            invariant
                i <= 7,
                codes@ == self.codes(),
                forall|k: int| 0 <= k < i ==> is_single_bit(#[trigger] codes@[k]),
                forall|k: int, l: int|
                    0 <= k < i && k < l < 7 ==> #[trigger] codes@[k] != #[trigger] codes@[l],
            decreases 7 - i,
        {
            if !single_bit(codes[i]) {
                return false;
            }
            let mut j: usize = i + 1;
            while j < 7
                invariant
                    i < 7,
                    i < j <= 7,
                    codes@ == self.codes(),
                    forall|l: int| i < l < j ==> codes@[i as int] != #[trigger] codes@[l],
                decreases 7 - j,
            {
                if codes[i] == codes[j] {
                    return false;
                }
                j = j + 1;
            }
            i = i + 1;
        }
        true
    }
}

/// Decides [`is_single_bit`].
fn single_bit(b: u8) -> (r: bool)
    ensures
        r == is_single_bit(b),
{
    if b == 0 {
        return false;
    }
    let m: u8 = b - 1;
    let r = b & m == 0;
    assert(b != 0 && m == b - 1 ==> (b & m == 0) == (b == 1 || b == 2 || b == 4 || b == 8 || b == 16
        || b == 32 || b == 64 || b == 128)) by (bit_vector);
    r
}

/// The architecture's encoding: register bindings, flag bits and syscall codes.
#[derive(Debug, Clone, Copy, PartialEq, Eq, Structural)]
pub struct Constants {
    pub register: RegisterConstants,
    pub flag: FlagConstants,
    pub syscall: SyscallConstants,
}

impl Constants {
    /// The register bindings are well formed.
    pub open spec fn wf(self) -> bool {
        self.register.wf()
    }
}

impl Default for Constants {
    fn default() -> (r: Constants)
        ensures
            r.wf(),
            r.register == (RegisterConstants {
                A: REG_A,
                B: REG_B,
                C: REG_C,
                D: REG_D,
                S: REG_S,
                I: REG_I,
                F: REG_F,
            }),
            r.flag == (FlagConstants { L: 0x01, G: 0x02, E: 0x04, N: 0x08, Z: 0x10 }),
            r.syscall == (SyscallConstants {
                OPEN: 0x01,
                READ_CODE: 0x02,
                READ_MEMORY: 0x04,
                WRITE: 0x08,
                SLEEP: 0x10,
                EXIT: 0x20,
            }),
    {
        let register = RegisterConstants {
            A: REG_A,
            B: REG_B,
            C: REG_C,
            D: REG_D,
            S: REG_S,
            I: REG_I,
            F: REG_F,
        };
        assert(register.wf()) by {
            assert(register.codes() =~= seq![0x40u8, 0x04, 0x20, 0x08, 0x01, 0x10, 0x02]);
        }
        Constants {
            register,
            flag: FlagConstants { L: 0x01, G: 0x02, E: 0x04, N: 0x08, Z: 0x10 },
            syscall: SyscallConstants {
                OPEN: 0x01,
                READ_CODE: 0x02,
                READ_MEMORY: 0x04,
                WRITE: 0x08,
                SLEEP: 0x10,
                EXIT: 0x20,
            },
        }
    }
}

} // verus!
