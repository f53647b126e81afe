use vstd::prelude::*;

use crate::error::EmuError;
use crate::register::Register;

verus! {

/// The seven one-byte registers, each in the slot given by [`Register::to_index`].
#[derive(Debug, Clone, Copy)]
pub struct Registers {
    pub cells: [u8; 7],
}

impl View for Registers {
    type V = Seq<u8>;

    open spec fn view(&self) -> Seq<u8> {
        self.cells@
    }
}

impl Registers {
    /// Value held by a real register.
    pub open spec fn value(&self, r: Register) -> u8 {
        self@[r.index() as int]
    }

    /// All registers zero.
    pub fn new() -> (r: Registers)
        ensures
            r@ == Seq::new(7, |i: int| 0u8),
    {
        let r = Registers { cells: [0u8; 7] };
        assert(r@ =~= Seq::new(7, |i: int| 0u8));
        r
    }

    /// Reads a real register.
    pub fn get(&self, r: Register) -> (v: u8)
        requires
            r != Register::Absent,
        ensures
            v == self.value(r),
    {
        self.cells[r.to_index()]
    }

    /// Writes a real register, leaving the others as they were.
    pub fn set(&mut self, r: Register, v: u8)
        requires
            r != Register::Absent,
        ensures
            final(self)@ == old(self)@.update(r.index() as int, v),
    {
        let i = r.to_index();
        self.cells[i] = v;
    }
}

impl Default for Registers {
    fn default() -> (r: Registers)
        ensures
            r@ == Seq::new(7, |i: int| 0u8),
    {
        Registers::new()
    }
}

/// Whether the range of `len` bytes from `start` lies inside the 256-byte space.
pub open spec fn range_fits(start: u8, len: int) -> bool {
    start + len <= 256
}

/// `s` with its bytes from `start` replaced by `b`.
pub open spec fn overwrite(s: Seq<u8>, start: int, b: Seq<u8>) -> Seq<u8> {
    Seq::new(s.len(), |i: int| if start <= i < start + b.len() { b[i - start] } else { s[i] })
}

/// The bytes of memory from `i` up to, not including, the first zero byte or the end.
pub open spec fn c_string(mem: Seq<u8>, i: int) -> Seq<u8>
    decreases mem.len() - i,
{
    if i < 0 || i >= mem.len() || mem[i] == 0 {
        Seq::empty()
    } else {
        seq![mem[i]] + c_string(mem, i + 1)
    }
}

/// A flat space of 256 bytes, addressed by one byte: the machine's memory and its stack.
#[derive(Debug, Clone, Copy)]
pub struct Memory {
    pub cells: [u8; 256],
}

/// The stack is a byte space of its own, of the same shape as memory.
pub type Stack = Memory;

impl View for Memory {
    type V = Seq<u8>;

    open spec fn view(&self) -> Seq<u8> {
        self.cells@
    }
}

impl Memory {
    /// All bytes zero.
    pub fn new() -> (r: Memory)
        ensures
            r@ == Seq::new(256, |i: int| 0u8),
    {
        let r = Memory { cells: [0u8; 256] };
        assert(r@ =~= Seq::new(256, |i: int| 0u8));
        r
    }

    /// Byte at `addr`.
    pub fn read(&self, addr: u8) -> (v: u8)
        ensures
            v == self@[addr as int],
    {
        self.cells[addr as usize]
    }

    /// Stores `v` at `addr`.
    pub fn write(&mut self, addr: u8, v: u8)
        ensures
            final(self)@ == old(self)@.update(addr as int, v),
    {
        self.cells[addr as usize] = v;
    }

    /// The `len` bytes from `start`, or `OutOfBounds` where they run past the end.
    pub fn read_range(&self, start: u8, len: usize) -> (r: Result<Vec<u8>, EmuError>)
        ensures
            range_fits(start, len as int) ==> (r matches Ok(v) && v@ == self@.subrange(
                start as int,
                start + len,
            )),
            !range_fits(start, len as int) ==> r matches Err(EmuError::OutOfBounds),
    {
        if len > 256 - start as usize {
            return Err(EmuError::OutOfBounds);
        }
        let mut out: Vec<u8> = Vec::new();
        let mut i: usize = 0;
        while i < len
            invariant
                start + len <= 256,
                i <= len,
                out@ == self@.subrange(start as int, start + i),
            decreases len - i,
        {
            out.push(self.cells[start as usize + i]);
            i = i + 1;
            assert(out@ =~= self@.subrange(start as int, start + i));
        }
        Ok(out)
    }

    /// Copies `bytes` to the space from `start`, or fails with `OutOfBounds`, changing
    /// nothing, where they run past the end.
    pub fn write_range(&mut self, start: u8, bytes: &[u8]) -> (r: Result<(), EmuError>)
        ensures
            range_fits(start, bytes@.len() as int) ==> r is Ok && final(self)@ == overwrite(
                old(self)@,
                start as int,
                bytes@,
            ),
            !range_fits(start, bytes@.len() as int) ==> (r matches Err(EmuError::OutOfBounds)
                && final(self)@ == old(self)@),
    {
        if bytes.len() > 256 - start as usize {
            return Err(EmuError::OutOfBounds);
        }
        let mut i: usize = 0;
        while i < bytes.len()
            invariant
                start + bytes@.len() <= 256,
                i <= bytes@.len(),
                self@.len() == 256,
                self@ == overwrite(old(self)@, start as int, bytes@.subrange(0, i as int)),
            decreases bytes@.len() - i,
        {
            self.cells[start as usize + i] = bytes[i];
            i = i + 1;
            assert(self@ =~= overwrite(old(self)@, start as int, bytes@.subrange(0, i as int)));
        }
        assert(bytes@.subrange(0, bytes@.len() as int) =~= bytes@);
        Ok(())
    }
}

impl Memory {
    /// The bytes from `start` up to, not including, the first zero byte or the end.
    pub fn read_c_string(&self, start: u8) -> (r: Vec<u8>)
        ensures
            r@ == c_string(self@, start as int),
    {
        let mut out: Vec<u8> = Vec::new();
        let mut i: usize = start as usize;
        while i < 256 && self.cells[i] != 0
            invariant
                start <= i <= 256,
                self@.len() == 256,
                out@ + c_string(self@, i as int) == c_string(self@, start as int),
            decreases 256 - i,
        {
            assert(c_string(self@, i as int) == seq![self@[i as int]] + c_string(
                self@,
                i + 1,
            ));
            assert(out@.push(self@[i as int]) + c_string(self@, i + 1) =~= out@ + c_string(
                self@,
                i as int,
            ));
            out.push(self.cells[i]);
            i = i + 1;
        }
        assert(c_string(self@, i as int) =~= Seq::empty());
        assert(out@ + c_string(self@, i as int) =~= out@);
        out
    }
}

impl Default for Memory {
    fn default() -> (r: Memory)
        ensures
            r@ == Seq::new(256, |i: int| 0u8),
    {
        Memory::new()
    }
}

} // verus!
