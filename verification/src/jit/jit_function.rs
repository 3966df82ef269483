//! What generated code and the code around it share.
use vstd::prelude::*;

use crate::isa::riscv::trap::Exception;

verus! {

/// The instruction that is translated.
#[derive(Debug, Clone, Copy, PartialEq, Eq, Structural)]
pub struct JitInfo {
    pub instr_pc: u64,
    /// How many instructions of the block come before it.
    pub instr_cnt: u64,
    pub instr_len: u64,
    /// What the addresses of instructions are multiples of.
    pub ialign: u64,
}

/// What a block that runs leaves behind.
#[derive(Debug, Clone, Copy)]
pub struct JitContext {
    /// The instruction that raised an exception.
    pub guest_pc: u64,
    /// How many instructions of the block were retired before it.
    pub icount: u64,
    /// How many cycles are still to run.
    pub remaining_cycles: u64,
    /// The exception and its trap value.
    pub exception: Option<(Exception, u64)>,
}

impl JitContext {
    /// Nothing has run.
    pub fn new() -> (r: JitContext)
        ensures
            r == (JitContext { guest_pc: 0, icount: 0, remaining_cycles: 0, exception: None }),
    {
        JitContext { guest_pc: 0, icount: 0, remaining_cycles: 0, exception: None }
    }

    /// What is left behind after an exception.
    pub open spec fn raised(
        self,
        guest_pc: u64,
        icount: u64,
        exception: Exception,
        tval: u64,
    ) -> JitContext {
        JitContext {
            guest_pc,
            icount,
            remaining_cycles: self.remaining_cycles,
            exception: Some((exception, tval)),
        }
    }

    /// Records an exception. The block is left after this.
    pub fn raise(&mut self, guest_pc: u64, icount: u64, exception: Exception, tval: u64)
        ensures
            *final(self) == old(self).raised(guest_pc, icount, exception, tval),
    {
        self.guest_pc = guest_pc;
        self.icount = icount;
        self.exception = Some((exception, tval));
    }
}

} // verus!
