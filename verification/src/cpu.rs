//! The general-purpose registers.
use vstd::prelude::*;

use crate::config::REGFILE_CNT;

verus! {

/// The general-purpose registers.
pub struct RegFile {
    pub regs: [u64; REGFILE_CNT],
}

impl View for RegFile {
    type V = Seq<u64>;

    open spec fn view(&self) -> Seq<u64> {
        self.regs@
    }
}

impl RegFile {
    /// Registers that hold zero.
    pub fn new() -> (r: RegFile)
        ensures
            r@ == Seq::new(32, |i: int| 0u64),
    {
        let r = RegFile { regs: [0u64; REGFILE_CNT] };
        assert(r@ =~= Seq::new(32, |i: int| 0u64));
        r
    }

    /// Reads two registers.
    pub fn read(&self, rs1: u8, rs2: u8) -> (r: (u64, u64))
        requires
            rs1 < 32,
            rs2 < 32,
        ensures
            r.0 == self@[rs1 as int],
            r.1 == self@[rs2 as int],
    {
        (self.regs[rs1 as usize], self.regs[rs2 as usize])
    }

    /// Reads a register.
    pub fn get(&self, rs: u8) -> (r: u64)
        requires
            rs < 32,
        ensures
            r == self@[rs as int],
    {
        self.regs[rs as usize]
    }

    /// Writes a register.
    pub fn write(&mut self, rd: u8, value: u64)
        requires
            rd < 32,
        ensures
            final(self)@ == old(self)@.update(rd as int, value),
    {
        self.regs[rd as usize] = value;
    }
}

} // verus!
