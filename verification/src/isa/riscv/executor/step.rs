//! Fetching, decoding and executing one instruction.
use vstd::prelude::*;

use crate::isa::cache::CachePolicy;
use crate::isa::riscv::decoder::{DecodeInstr, RawInstr};
use crate::isa::riscv::instruction::exec_core::Step;
use crate::isa::riscv::instruction::exec_mapping;
use crate::isa::riscv::instruction::instr_table::RiscvInstr;
use crate::isa::riscv::instruction::RVInstrInfo;
use crate::isa::riscv::trap::trap_controller::TrapController;
use crate::isa::riscv::trap::Exception;
use crate::utils;
use crate::utils::Width;

use super::{CpuState, InstrCache, RVCPU};

verus! {

/// A trap that has to be taken: its cause and the trap value.
#[derive(Clone, Copy, Debug, PartialEq, Eq, Structural)]
pub struct ExceptionInfo {
    pub cause: Exception,
    pub tval: u64,
}

impl CpuState {
    /// The state after an instruction is fetched, and its bytes. Each half is fetched on its own,
    /// since a four-byte instruction may begin at the end of a page.
    #[verifier::opaque]
    pub open spec fn instr_fetched(self, addr: u64) -> (CpuState, Result<RawInstr, ExceptionInfo>) {
        let (s1, r1) = self.instr_read(addr, Width::W16, true);
        match r1 {
            Err(e) => (
                s1,
                Err(ExceptionInfo { cause: Exception::of_instr_fetch_err(e), tval: addr }),
            ),
            Ok(low) => if low % 4 != 3 {
                (s1, Ok(RawInstr { val: low as u32 }))
            } else {
                let next = Width::W64.wrap(addr + 2);
                let (s2, r2) = s1.instr_read(next, Width::W16, true);
                match r2 {
                    Err(e) => (
                        s2,
                        Err(ExceptionInfo { cause: Exception::of_instr_fetch_err(e), tval: next }),
                    ),
                    Ok(high) => (s2, Ok(RawInstr { val: (low + high * 0x1_0000) as u32 })),
                }
            },
        }
    }

    /// The state after the instruction cache is asked for an address.
    pub open spec fn icache_asked(self, addr: u64) -> CpuState {
        CpuState {
            icache_accesses: self.icache_accesses.wrapping_add(1),
            icache_hits: if InstrCache::lookup(self.icache, addr) is Some {
                self.icache_hits.wrapping_add(1)
            } else {
                self.icache_hits
            },
            ..self
        }
    }

    /// The state after the instruction at an address is found in the instruction cache or fetched
    /// and decoded, and the instruction.
    pub open spec fn instr_decoded(self, addr: u64) -> (
        CpuState,
        Result<DecodeInstr, ExceptionInfo>,
    ) {
        let asked = self.icache_asked(addr);
        match InstrCache::lookup(self.icache, addr) {
            Some(d) => (asked, Ok(d)),
            None => {
                let (s, r) = asked.instr_fetched(addr);
                match r {
                    Err(e) => (s, Err(e)),
                    Ok(raw) => match s.decoder.decoded(raw) {
                        None => (
                            s,
                            Err(
                                ExceptionInfo {
                                    cause: Exception::IllegalInstruction,
                                    tval: raw.val as u64,
                                },
                            ),
                        ),
                        Some(d) => (
                            CpuState { icache: InstrCache::after_put(s.icache, addr, d), ..s },
                            Ok(d),
                        ),
                    },
                }
            },
        }
    }

    /// What an instruction does. Register 0 stays 0.
    pub open spec fn executed(self, instr: RiscvInstr, info: RVInstrInfo) -> Step {
        let (s, r) = exec_mapping::exec_func_of(instr).step(self, info);
        (s.with_reg(0, 0), r)
    }

    /// The state after the exception of an instruction is taken. The trap value of an illegal
    /// instruction is its bytes, or 0 if they cannot be fetched any more.
    pub open spec fn instr_trapped(self, cause: Exception) -> CpuState {
        if cause == Exception::IllegalInstruction {
            let (s, r) = self.instr_fetched(self.pc);
            s.exception_taken(
                cause,
                match r {
                    Ok(raw) => raw.val as u64,
                    Err(_) => 0,
                },
            )
        } else {
            CpuState { pending_tval: None, ..self }.exception_taken(
                cause,
                match self.pending_tval {
                    Some(tval) => tval,
                    None => 0,
                },
            )
        }
    }

    /// The state after one instruction is executed, or the trap that it raised is taken.
    #[verifier::opaque]
    pub open spec fn stepped(self) -> CpuState {
        let (s, r) = self.instr_decoded(self.pc);
        match r {
            Err(e) => s.exception_taken(e.cause, e.tval),
            Ok(d) => {
                let (after, done) = s.executed(d.instr, d.info);
                match done {
                    Ok(_) => after,
                    Err(cause) => after.instr_trapped(cause),
                }
            },
        }
    }
}

impl RVCPU {
    /// Fetches the instruction at an address.
    pub fn ifetch_at(&mut self, addr: u64) -> (r: Result<RawInstr, ExceptionInfo>)
        requires
            old(self).wf(),
        ensures
            final(self).wf(),
            final(self)@ == old(self)@.instr_fetched(addr).0,
            r == old(self)@.instr_fetched(addr).1,
    {
        proof {
            reveal(CpuState::instr_fetched);
        }
        match self.read_for_ifetch(addr, Width::W16) {
            Err(e) => Err(
                ExceptionInfo { cause: Exception::from_instr_fetch_err(e), tval: addr },
            ),
            Ok(low) => if low % 4 != 3 {
                Ok(RawInstr { val: low as u32 })
            } else {
                let next: u64 = utils::add64(addr, 2);
                match self.read_for_ifetch(next, Width::W16) {
                    Err(e) => Err(
                        ExceptionInfo { cause: Exception::from_instr_fetch_err(e), tval: next },
                    ),
                    Ok(high) => Ok(RawInstr { val: (low + high * 0x1_0000) as u32 }),
                }
            },
        }
    }

    /// Finds the instruction at an address in the instruction cache, or fetches and decodes it.
    fn find_instr(&mut self, addr: u64) -> (r: Result<DecodeInstr, ExceptionInfo>)
        requires
            old(self).wf(),
        ensures
            final(self).wf(),
            final(self)@ == old(self)@.instr_decoded(addr).0,
            r == old(self)@.instr_decoded(addr).1,
            r is Ok ==> r->Ok_0.wf(),
    {
        proof {
            InstrCache::lemma_slot(addr);
        }
        if let Some(d) = self.icache.get(addr) {
            return Ok(d);
        }
        match self.ifetch_at(addr) {
            Err(e) => Err(e),
            Ok(raw) => match self.decoder.decode(raw) {
                None => Err(
                    ExceptionInfo {
                        cause: Exception::IllegalInstruction,
                        tval: raw.val as u64,
                    },
                ),
                Some(d) => {
                    self.icache.put(addr, d);
                    Ok(d)
                },
            },
        }
    }

    /// The instruction at an address.
    pub fn decode_at(&mut self, addr: u64) -> (r: Option<DecodeInstr>)
        requires
            old(self).wf(),
        ensures
            final(self).wf(),
            final(self)@ == old(self)@.instr_decoded(addr).0,
            r == match old(self)@.instr_decoded(addr).1 {
                Ok(d) => Some(d),
                Err(_) => None,
            },
            r is Some ==> r->0.wf(),
    {
        match self.find_instr(addr) {
            Ok(d) => Some(d),
            Err(_) => None,
        }
    }

    /// Executes an instruction.
    pub fn execute(&mut self, instr: RiscvInstr, info: RVInstrInfo) -> (r: Result<(), Exception>)
        requires
            old(self).wf(),
            exec_mapping::exec_func_of(instr).takes(info),
        ensures
            final(self).wf(),
            final(self)@ == old(self)@.executed(instr, info).0,
            r == old(self)@.executed(instr, info).1,
    {
        let rst = exec_mapping::get_exec_func(instr).call(info, self);
        self.write_reg(0, 0);
        rst
    }

    /// Executes one instruction, or takes the trap that it raises.
    pub fn step_impl(&mut self)
        requires
            old(self).wf(),
        ensures
            final(self).wf(),
            final(self)@ == old(self)@.stepped(),
    {
        proof {
            reveal(CpuState::stepped);
        }
        let pc: u64 = self.context.pc;
        match self.find_instr(pc) {
            Err(e) => {
                TrapController::take_exception(self, e.cause, e.tval);
            },
            Ok(d) => match self.execute(d.instr, d.info) {
                Ok(_) => {},
                Err(Exception::IllegalInstruction) => {
                    let pc: u64 = self.context.pc;
                    let tval: u64 = match self.ifetch_at(pc) {
                        Ok(raw) => raw.val as u64,
                        Err(_) => 0,
                    };
                    TrapController::take_exception(self, Exception::IllegalInstruction, tval);
                },
                Err(cause) => {
                    let tval: u64 = match self.pending_tval {
                        Some(tval) => tval,
                        None => 0,
                    };
                    self.pending_tval = None;
                    TrapController::take_exception(self, cause, tval);
                },
            },
        }
    }
}

} // verus!
