//! The hart's access to its control and status registers.
use vstd::prelude::*;

use crate::isa::riscv::executor::{CpuState, RVCPU};
use crate::isa::riscv::trap::Exception;
use crate::utils::Width;

use super::csr_index;
use super::field;
use super::field::CsrField;
use super::file;
use super::file::CSR_SIZE;

verus! {

impl CpuState {
    /// What an instruction reads from a register. The time comes from the memory-mapped timer.
    pub open spec fn csr_read(self, addr: u64) -> Result<u64, Exception> {
        if addr == csr_index::time {
            match self.time_addr {
                Some(time_addr) => match self.vm.phys.read(time_addr, Width::W64) {
                    Ok(time) => Ok(time),
                    Err(_) => Err(Exception::IllegalInstruction),
                },
                None => Err(Exception::IllegalInstruction),
            }
        } else if self.csr.may_read(addr) && self.csr.read(addr) is Some {
            Ok(self.csr.read(addr)->0)
        } else {
            Err(Exception::IllegalInstruction)
        }
    }

    /// The state after `satp` takes effect.
    pub open spec fn satp_applied(self) -> CpuState {
        CpuState {
            vm: self.vm.with_mode(self.csr.field(CsrField::Satp_mode) as u8).with_root(
                self.csr.field(CsrField::Satp_ppn),
            ),
            ..self
        }.icache_flushed()
    }

    /// The state after an instruction writes a register.
    pub open spec fn csr_written(self, addr: u64, data: u64) -> (CpuState, Result<(), Exception>) {
        if self.csr.may_write(addr) {
            let next = CpuState { csr: self.csr.written(addr, data), ..self };
            (
                if addr == csr_index::satp {
                    next.satp_applied()
                } else {
                    next
                },
                Ok(()),
            )
        } else {
            (self, Err(Exception::IllegalInstruction))
        }
    }
}

/// A field is no greater than its mask.
proof fn lemma_ppn_bound(value: u64)
    ensures
        field::field_of(value, 0, 44) < 0x1000_0000_0000,
{
    let m = field::low_mask(44);
    assert(1u64 << 44u64 == 0x1000_0000_0000u64) by (bit_vector);
    assert((value >> 0u64) & m <= m) by (bit_vector);
}

/// The fields of `satp` are small numbers.
pub proof fn lemma_satp_fields(value: u64)
    ensures
        field::field_of(value, 0, 44) < 0x1000_0000_0000,
        field::field_of(value, 60, 4) < 16,
{
    lemma_ppn_bound(value);
    let m = field::low_mask(4);
    assert(1u64 << 4u64 == 16u64 && (value >> 60u64) & m <= m) by (bit_vector);
}

impl RVCPU {
    /// Reads a register as an instruction does. There are none beyond twelve bits of address.
    pub fn read_csr(&self, addr: u64) -> (r: Result<u64, Exception>)
        requires
            self.wf(),
        ensures
            r == self@.csr_read(addr),
    {
        if addr >= CSR_SIZE as u64 {
            return Err(Exception::IllegalInstruction);
        }
        proof {
            file::lemma_complete_access(self.csr@, addr);
        }
        if addr == csr_index::time {
            match self.time_addr {
                Some(time_addr) => match self.memory.read_by_paddr(time_addr, Width::W64) {
                    Ok(time) => {
                        return Ok(time);
                    },
                    Err(_) => {},
                },
                None => {},
            }
        } else {
            match self.csr.read_checked(addr) {
                Some(data) => {
                    return Ok(data);
                },
                None => {},
            }
        }
        Err(Exception::IllegalInstruction)
    }

    /// Writes a register as an instruction does. A change of `satp` takes effect at once.
    pub fn write_csr(&mut self, addr: u64, data: u64) -> (r: Result<(), Exception>)
        requires
            old(self).wf(),
        ensures
            final(self).wf(),
            final(self)@ == old(self)@.csr_written(addr, data).0,
            r == old(self)@.csr_written(addr, data).1,
    {
        if addr >= CSR_SIZE as u64 {
            return Err(Exception::IllegalInstruction);
        }
        proof {
            file::lemma_complete_access(self.csr@, addr);
        }
        if !self.csr.write_checked(addr, data) {
            return Err(Exception::IllegalInstruction);
        }
        if addr == csr_index::satp {
            let mode: u64 = self.csr.get_field(CsrField::Satp_mode);
            let ppn: u64 = self.csr.get_field(CsrField::Satp_ppn);
            proof {
                lemma_ppn_bound(self.csr@.value(csr_index::satp));
            }
            self.memory.set_mode(mode as u8);
            self.memory.set_root_ppn(ppn);
            self.memory.flush_tlb();
            self.flush_icache();
        }
        Ok(())
    }
}

} // verus!
