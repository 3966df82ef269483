//! The hart: its state and how it is made.
use vstd::prelude::*;

use crate::config::DEFAULT_PC_VALUE;
use crate::cpu::RegFile;
use crate::fpu::soft_float::{FpuState, SoftFPU};
use crate::isa::cache::{Cache, CachePolicy, DirectCache, Slot};
use crate::utils;
use crate::utils::Width;

use super::csr_reg::csr_index;
use super::csr_reg::field::CsrField;
use super::csr_reg::file;
use super::csr_reg::file::CsrState;
use super::csr_reg::{CsrContext, CsrRegFile, PrivilegeLevel};
use super::decoder::decode;
use super::decoder::{DecodeInstr, Decoder};
use super::mmu::manager::{VirtAddrManager, VmState};
use super::vector::state::{Vector, VectorState};
use super::vector::types::{VectorConfig, Vlmul, Vsew};

pub mod batch;
pub mod laws;
pub mod step;
pub mod step_laws;

verus! {

/// The part of the state that generated code works on.
pub struct CpuContext {
    pub reg_file: RegFile,
    pub pc: u64,
}

/// Where decoded instructions are kept.
pub type InstrCache = DirectCache<DecodeInstr, 8192>;

/// A hart.
pub struct RVCPU {
    pub context: CpuContext,
    pub memory: VirtAddrManager,
    pub decoder: Decoder,
    pub csr: CsrRegFile,
    pub icache: Cache<InstrCache>,
    /// How often the instruction cache was emptied, modulo 2^64.
    pub icache_epoch: u64,
    pub fpu: SoftFPU,
    pub vector: Vector,
    /// The address of the memory-mapped `mtime` register.
    pub time_addr: Option<u64>,
    /// The trap value that waits to be written to `mtval` or `stval`.
    pub pending_tval: Option<u64>,
}

/// A hart as plain values.
pub struct CpuState {
    pub regs: Seq<u64>,
    pub pc: u64,
    pub vm: VmState,
    pub decoder: Decoder,
    pub csr: CsrState,
    pub icache: Seq<Slot<DecodeInstr>>,
    pub icache_hits: u64,
    pub icache_accesses: u64,
    pub icache_epoch: u64,
    pub fpu: FpuState,
    pub vector: VectorState,
    pub time_addr: Option<u64>,
    pub pending_tval: Option<u64>,
}

impl View for RVCPU {
    type V = CpuState;

    open spec fn view(&self) -> CpuState {
        CpuState {
            regs: self.context.reg_file@,
            pc: self.context.pc,
            vm: self.memory@,
            decoder: self.decoder,
            csr: self.csr@,
            icache: self.icache.policy.cache@,
            icache_hits: self.icache.hit_count,
            icache_accesses: self.icache.access_count,
            icache_epoch: self.icache_epoch,
            fpu: self.fpu@,
            vector: self.vector@,
            time_addr: self.time_addr,
            pending_tval: self.pending_tval,
        }
    }
}

/// Whether every decoded instruction in a cache has operands that it takes.
pub open spec fn cached_ok(slots: Seq<Slot<DecodeInstr>>) -> bool {
    forall|i: int|
        0 <= i < slots.len() && (#[trigger] slots[i]).1 is Some ==> slots[i].1->0.wf()
}

impl CpuState {
    /// The state with a value in a register.
    pub open spec fn with_reg(self, rd: u8, value: u64) -> CpuState {
        CpuState { regs: self.regs.update(rd as int, value), ..self }
    }

    /// The value of a register.
    pub open spec fn reg(self, rs: u8) -> u64 {
        self.regs[rs as int]
    }

    pub open spec fn with_pc(self, pc: u64) -> CpuState {
        CpuState { pc, ..self }
    }

    /// The state after `n` more instructions are counted.
    pub open spec fn counted(self, n: u64) -> CpuState {
        CpuState {
            csr: self.csr.with_value(
                csr_index::minstret,
                self.csr.value(csr_index::minstret).wrapping_add(n),
            ),
            ..self
        }
    }

    /// The state after `n` more cycles are counted.
    pub open spec fn cycled(self, n: u64) -> CpuState {
        CpuState {
            csr: self.csr.with_value(
                csr_index::mcycle,
                self.csr.value(csr_index::mcycle).wrapping_add(n),
            ),
            ..self
        }
    }

    /// The state after an instruction of `len` bytes that does not jump.
    pub open spec fn retired(self, len: u64) -> CpuState {
        self.with_pc(Width::W64.wrap(self.pc + len)).counted(1)
    }

    /// The state with an empty instruction cache.
    pub open spec fn icache_flushed(self) -> CpuState {
        CpuState {
            icache: InstrCache::empty(),
            icache_epoch: self.icache_epoch.wrapping_add(1),
            ..self
        }
    }
}

/// The file of a hart that knows some extensions, after reset.
pub open spec fn reset_csr(csr: CsrState, extension: u64) -> CsrState {
    let with_ext = CsrState {
        ctx: CsrContext { extension, ..csr.ctx },
        ..csr
    };
    CsrState {
        cpl: PrivilegeLevel::M,
        ..with_ext.with_field_directly(CsrField::Misa_extension, extension).with_field_directly(
            CsrField::Misa_mxl,
            2,
        ).with_field_directly(CsrField::Mstatus_sxl, 2).with_field_directly(
            CsrField::Mstatus_uxl,
            2,
        )
    }
}

impl RVCPU {
    /// The invariant of a hart.
    pub open spec fn wf(&self) -> bool {
        &&& self.memory.wf()
        &&& self.csr.wf()
        &&& self.csr@.complete()
        &&& self.csr@.governed()
        &&& self.vector.wf()
        &&& self.icache.wf()
        &&& cached_ok(self.icache.policy.cache@)
    }

    /// A hart with the decoder of RV64GC.
    pub fn from_vaddr_manager(v_memory: VirtAddrManager) -> (r: RVCPU)
        requires
            v_memory.wf(),
        ensures
            r.wf(),
            r@.decoder == (Decoder { extension: 0x112d }),
            r@.vm == v_memory@,
            r@.after_reset(),
    {
        RVCPU::from_decoder(Decoder::new(), v_memory)
    }

    /// A hart with a decoder and memory, after reset.
    pub fn from_decoder(decoder: Decoder, v_memory: VirtAddrManager) -> (r: RVCPU)
        requires
            v_memory.wf(),
        ensures
            r.wf(),
            r@.decoder == decoder,
            r@.vm == v_memory@,
            r@.after_reset(),
    {
        let mut csr = CsrRegFile::new();
        let ghost fresh = csr@;
        let ext: u64 = decoder.extension_bits();
        csr.ctx.extension = ext;
        // The register width is 64.
        let mxl: u64 = 2;
        csr.set_field_directly(CsrField::Misa_extension, ext);
        csr.set_field_directly(CsrField::Misa_mxl, mxl);
        csr.set_field_directly(CsrField::Mstatus_sxl, mxl);
        csr.set_field_directly(CsrField::Mstatus_uxl, mxl);
        csr.set_current_privileged(PrivilegeLevel::M);
        proof {
            assert(8192usize & 8191usize == 0) by (bit_vector);
            decode::lemma_instr_spacing();
        }
        let icache: Cache<InstrCache> = Cache::new();
        let r = RVCPU {
            context: CpuContext { reg_file: RegFile::new(), pc: DEFAULT_PC_VALUE },
            memory: v_memory,
            decoder,
            csr,
            icache,
            icache_epoch: 0,
            fpu: SoftFPU::from(true),
            vector: Vector::new(),
            time_addr: None,
            pending_tval: None,
        };
        assert(r@.csr == reset_csr(fresh, ext));
        r
    }
}

impl CpuState {
    /// Whether this is a hart that has not run since reset.
    pub open spec fn after_reset(self) -> bool {
        &&& self.regs == Seq::new(32, |i: int| 0u64)
        &&& self.pc == DEFAULT_PC_VALUE
        &&& exists|fresh: CsrState|
            {
                &&& #[trigger] fresh.complete()
                &&& fresh.ctx == (CsrContext { extension: 0, xlen: 0 })
                &&& forall|a: u64|
                    #![trigger fresh.table[a as int]]
                    a < file::CSR_SIZE ==> fresh.table[a as int] == file::table_lookup(
                        file::csr_reg_table(),
                        a,
                    )
                &&& self.csr == reset_csr(fresh, self.decoder.extension | 0x14_0000)
            }
        &&& self.icache == InstrCache::empty()
        &&& self.icache_hits == 0
        &&& self.icache_accesses == 0
        &&& self.icache_epoch == 0
        &&& self.fpu == (FpuState {
            regs: Seq::new(32, |i: int| 0u64),
            status: 0,
            canonical_nan: true,
        })
        &&& self.vector.bytes == Seq::new(512, |i: int| 0u8)
        &&& self.vector.config == (VectorConfig {
            vlmul: Vlmul::M1,
            vsew: Vsew::E8,
            vta: false,
            vma: false,
            vl: 0,
        })
        &&& self.time_addr is None
        &&& self.pending_tval is None
    }
}

impl RVCPU {
    /// Adds to the program counter and counts one instruction.
    pub fn retire(&mut self, len: u64)
        requires
            old(self).wf(),
        ensures
            final(self).wf(),
            final(self)@ == old(self)@.retired(len),
    {
        self.context.pc = utils::add64(self.context.pc, len);
        self.count_instructions(1);
    }

    /// Counts instructions.
    pub fn count_instructions(&mut self, n: u64)
        requires
            old(self).wf(),
        ensures
            final(self).wf(),
            final(self)@ == old(self)@.counted(n),
    {
        self.csr.wrapping_add(csr_index::minstret, n);
    }

    /// Counts cycles.
    pub fn increment_mcycle_by(&mut self, cycles: u64)
        requires
            old(self).wf(),
        ensures
            final(self).wf(),
            final(self)@ == old(self)@.cycled(cycles),
    {
        self.csr.wrapping_add(csr_index::mcycle, cycles);
    }

    /// Reads a register.
    pub fn read_reg(&self, rs: u8) -> (r: u64)
        requires
            rs < 32,
        ensures
            r == self@.reg(rs),
    {
        self.context.reg_file.get(rs)
    }

    /// Writes a register.
    pub fn write_reg(&mut self, rd: u8, value: u64)
        requires
            old(self).wf(),
            rd < 32,
        ensures
            final(self).wf(),
            final(self)@ == old(self)@.with_reg(rd, value),
    {
        self.context.reg_file.write(rd, value);
    }

    pub fn read_pc(&self) -> (r: u64)
        ensures
            r == self@.pc,
    {
        self.context.pc
    }

    pub fn write_pc(&mut self, pc: u64)
        requires
            old(self).wf(),
        ensures
            final(self).wf(),
            final(self)@ == old(self)@.with_pc(pc),
    {
        self.context.pc = pc;
    }

    pub fn get_current_privilege(&self) -> (r: PrivilegeLevel)
        ensures
            r == self@.csr.cpl,
    {
        self.csr.privelege_level()
    }

    /// How often the instruction cache was emptied.
    pub fn icache_epoch(&self) -> (r: u64)
        ensures
            r == self@.icache_epoch,
    {
        self.icache_epoch
    }

    /// Empties the instruction cache.
    pub fn flush_icache(&mut self)
        requires
            old(self).wf(),
        ensures
            final(self).wf(),
            final(self)@ == old(self)@.icache_flushed(),
    {
        self.icache.clear();
        self.icache_epoch = self.icache_epoch.wrapping_add(1);
    }

    /// Forgets cached translations; memory is as it was.
    pub fn flush_tlb(&mut self)
        requires
            old(self).wf(),
        ensures
            final(self).wf(),
            final(self)@ == old(self)@,
    {
        self.memory.flush_tlb();
    }

    /// Hands everything that was written over to the devices.
    pub fn power_off(&mut self)
        requires
            old(self).wf(),
        ensures
            final(self).wf(),
            final(self)@ == (CpuState { vm: old(self)@.vm.synced(), ..old(self)@ }),
    {
        self.memory.sync();
    }
}

} // verus!
