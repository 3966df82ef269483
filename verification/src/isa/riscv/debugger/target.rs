//! What the debugger can look at and change in a hart.
use vstd::prelude::*;

use crate::device::MemError;
use crate::fpu::bits::FloatFormat;
use crate::isa::riscv::decoder::{DecodeInstr, RawInstr};
use crate::isa::riscv::executor::{CpuState, RVCPU};
use crate::isa::riscv::csr_reg::file;
use crate::isa::riscv::mmu::manager::{AccessType, Address};
use crate::isa::riscv::mmu::page_table::PageTableError;
use crate::isa::riscv::mmu::policy;
use crate::utils;
use crate::utils::Width;

verus! {

impl Address {
    /// An address further on, of the same kind.
    pub open spec fn further(self, n: u64) -> Address {
        match self {
            Address::Phys(a) => Address::Phys(Width::W64.wrap(a + n)),
            Address::Virt(a) => Address::Virt(Width::W64.wrap(a + n)),
        }
    }

    /// An address further on, of the same kind.
    pub fn offset(self, n: u64) -> (r: Address)
        ensures
            r == self.further(n),
    {
        match self {
            Address::Phys(a) => Address::Phys(utils::add64(a, n)),
            Address::Virt(a) => Address::Virt(utils::add64(a, n)),
        }
    }
}

/// The bytes of an instruction from its halves. The second half is looked at only if the first one
/// begins a four-byte instruction.
pub open spec fn joined(low: Result<u64, MemError>, high: Result<u64, MemError>) -> Result<
    RawInstr,
    MemError,
> {
    match low {
        Err(e) => Err(e),
        Ok(lo) => if lo % 4 != 3 {
            Ok(RawInstr { val: lo as u32 })
        } else {
            match high {
                Err(e) => Err(e),
                Ok(hi) => Ok(RawInstr { val: (lo + hi * 0x1_0000) as u32 }),
            }
        },
    }
}

impl CpuState {
    /// The instruction at a virtual address, as a fetch would find it.
    pub open spec fn looked_instr(self, vaddr: u64) -> Result<RawInstr, MemError> {
        joined(
            self.instr_read(vaddr, Width::W16, false).1,
            self.instr_read(Width::W64.wrap(vaddr + 2), Width::W16, false).1,
        )
    }

    /// The instruction at an address, without the checks of a fetch.
    pub open spec fn looked_instr_directly(self, addr: Address) -> Result<RawInstr, MemError> {
        joined(
            self.vm.debug_read(addr, Width::W16),
            self.vm.debug_read(addr.further(2), Width::W16),
        )
    }
}

impl RVCPU {
    /// Looks at the instruction at a virtual address, with the checks of a fetch.
    pub fn read_instr(&mut self, vaddr: u64) -> (r: Result<RawInstr, MemError>)
        requires
            old(self).wf(),
        ensures
            final(self).wf(),
            final(self)@ == old(self)@,
            r == old(self)@.looked_instr(vaddr),
    {
        let lo: u64 = match self.read_for_debug_ifetch(vaddr, Width::W16) {
            Ok(lo) => lo,
            Err(e) => {
                return Err(e);
            },
        };
        if lo % 4 != 3 {
            return Ok(RawInstr { val: lo as u32 });
        }
        match self.read_for_debug_ifetch(utils::add64(vaddr, 2), Width::W16) {
            Ok(hi) => Ok(RawInstr { val: (lo + hi * 0x1_0000) as u32 }),
            Err(e) => Err(e),
        }
    }

    /// Looks at the instruction at an address, without the checks of a fetch.
    pub fn read_instr_directly(&mut self, addr: Address) -> (r: Result<RawInstr, MemError>)
        requires
            old(self).wf(),
        ensures
            final(self).wf(),
            final(self)@ == old(self)@,
            r == old(self)@.looked_instr_directly(addr),
    {
        let lo: u64 = match self.memory.debug_read(addr, Width::W16) {
            Ok(lo) => lo,
            Err(e) => {
                return Err(e);
            },
        };
        if lo % 4 != 3 {
            return Ok(RawInstr { val: lo as u32 });
        }
        match self.memory.debug_read(addr.offset(2), Width::W16) {
            Ok(hi) => Ok(RawInstr { val: (lo + hi * 0x1_0000) as u32 }),
            Err(e) => Err(e),
        }
    }

    /// Reads memory.
    pub fn read_memory(&mut self, addr: Address, w: Width) -> (r: Result<u64, MemError>)
        requires
            old(self).wf(),
        ensures
            final(self).wf(),
            final(self)@ == old(self)@,
            r == old(self)@.vm.debug_read(addr, w),
    {
        self.memory.debug_read(addr, w)
    }

    /// Writes memory.
    pub fn write_memory(&mut self, addr: Address, w: Width, data: u64) -> (r: Result<(), MemError>)
        requires
            old(self).wf(),
        ensures
            final(self).wf(),
            final(self)@ == (CpuState {
                vm: old(self)@.vm.debug_write(addr, w, data).0,
                ..old(self)@
            }),
            r == old(self)@.vm.debug_write(addr, w, data).1,
    {
        self.memory.debug_write(addr, w, data)
    }

    /// The encodings that a floating-point register holds, as a single- and as a double-precision
    /// number.
    pub fn read_float_reg(&self, idx: u8) -> (r: (u64, u64))
        requires
            idx < 32,
        ensures
            r == (
                self@.fpu.value(FloatFormat::Single, idx),
                self@.fpu.value(FloatFormat::Double, idx),
            ),
    {
        (self.fpu.load(FloatFormat::Single, idx), self.fpu.load(FloatFormat::Double, idx))
    }

    /// Writes the encoding of a double-precision number to a floating-point register.
    pub fn write_float_reg(&mut self, idx: u8, encoding: u64)
        requires
            old(self).wf(),
            idx < 32,
        ensures
            final(self).wf(),
            final(self)@ == (CpuState {
                fpu: old(self)@.fpu.with_value(FloatFormat::Double, idx, encoding),
                ..old(self)@
            }),
    {
        self.fpu.store_raw(FloatFormat::Double, idx, encoding);
    }

    /// Reads a control and status register and, if there is a new value, writes it. There are no
    /// registers beyond twelve bits of address.
    pub fn debug_csr(&mut self, addr: u64, new_value: Option<u64>) -> (r: Option<u64>)
        requires
            old(self).wf(),
        ensures
            final(self).wf(),
            r == if addr < file::CSR_SIZE {
                old(self)@.csr.read(addr)
            } else {
                None
            },
            final(self)@ == match new_value {
                Some(v) => if addr < file::CSR_SIZE {
                    CpuState { csr: old(self)@.csr.written(addr, v), ..old(self)@ }
                } else {
                    old(self)@
                },
                None => old(self)@,
            },
    {
        if addr >= file::CSR_SIZE as u64 {
            return None;
        }
        proof {
            file::lemma_complete_access(self.csr@, addr);
        }
        self.csr.debug(addr, new_value)
    }

    /// What a word decodes to.
    pub fn decoded_instr(&self, instr: RawInstr) -> (r: Option<DecodeInstr>)
        ensures
            r == self@.decoder.decoded(instr),
    {
        self.decoder.decode(instr)
    }

    /// Translates without checking any flag.
    pub fn debug_vaddr_to_paddr(&mut self, vaddr: u64) -> (r: Result<u64, PageTableError>)
        requires
            old(self).wf(),
        ensures
            final(self).wf(),
            final(self)@ == old(self)@,
            r == old(self)@.vm.debug_translated(vaddr),
    {
        self.memory.debug_vaddr_to_paddr(vaddr)
    }

    /// Translates as an access would.
    pub fn debug_translate(&mut self, vaddr: u64, access: AccessType) -> (r: Result<
        u64,
        PageTableError,
    >)
        requires
            old(self).wf(),
        ensures
            final(self).wf(),
            final(self)@ == old(self)@,
            r == old(self)@.vm.policy_translated(
                vaddr,
                policy::data_policy(old(self)@.csr, access, false),
            ).1,
    {
        self.translate_for_debug(vaddr, access)
    }
}

} // verus!
