//! What the instructions on control and status registers and on the environment are for, as
//! relations between the hart before and after.
use vstd::prelude::*;

use crate::isa::riscv::csr_reg::csr_index;
use crate::isa::riscv::csr_reg::field;
use crate::isa::riscv::csr_reg::field::CsrField;
use crate::isa::riscv::csr_reg::file;
use crate::isa::riscv::csr_reg::PrivilegeLevel;
use crate::isa::riscv::executor::CpuState;
use crate::isa::riscv::mmu::page_table::VirtualMemoryMode;
use crate::isa::riscv::trap::Exception;

use super::dispatch;
use super::exec_core::Step;
use super::exec_mapping::ExecFn;
use super::info::RVInstrInfo;
use super::instr_table::RiscvInstr;

verus! {

/// The number of a privilege level.
pub open spec fn rank(level: PrivilegeLevel) -> int {
    match level {
        PrivilegeLevel::U => 0,
        PrivilegeLevel::S => 1,
        PrivilegeLevel::V => 2,
        PrivilegeLevel::M => 3,
    }
}

/// Whether the current level may read the register at an address: bits 8 and 9 of the address are
/// the lowest level that may, and TVM (20) takes `satp` from the supervisor.
pub open spec fn readable(s: CpuState, addr: u64) -> bool {
    rank(s.csr.cpl) >= (addr as int / 0x100) % 4 && !(addr == csr_index::satp && s.csr.cpl
        == PrivilegeLevel::S && field::field_of(s.csr.value(csr_index::mstatus), 20, 1) == 1)
}

/// Whether a step refused an instruction and changed nothing.
pub open spec fn refuses(s: CpuState, step: Step) -> bool {
    step == (s, Err::<(), Exception>(Exception::IllegalInstruction))
}

/// Whether a step without exception wrote `v` to the register at an address, counted itself unless
/// it wrote the counter, and went on to the next instruction.
pub open spec fn writes_csr(s: CpuState, step: Step, addr: u64, v: u64) -> bool {
    let t = step.0;
    &&& step.1 is Ok
    &&& t.pc == (s.pc + 4) % 0x1_0000_0000_0000_0000
    &&& t.csr.cpl == s.csr.cpl
    &&& forall|a: u64|
        a < file::CSR_SIZE && a != csr_index::minstret ==> #[trigger] t.csr.table[a as int]
            == s.csr.written(addr, v).table[a as int]
    &&& addr == csr_index::minstret ==> t.csr.table[csr_index::minstret as int] == s.csr.written(
        addr,
        v,
    ).table[csr_index::minstret as int]
    &&& t.fpu == s.fpu
    &&& t.vector == s.vector
    &&& t.vm.phys == s.vm.phys
}

/// CSRRW and CSRRWI swap: the register at the address gets the source, the destination what it held
/// before. A destination 0 reads nothing. A register that the level may not write, or that lies from
/// 0xC00 on, is refused.
#[verifier::rlimit(60)]
pub proof fn law_csr_swap(s: CpuState, rs1: u8, rd: u8, imm: u64, immediate: bool)
    requires
        s.csr.complete(),
        s.regs.len() == 32,
        rd < 32,
    ensures
        ({
            let instr = if immediate {
                RiscvInstr::CSRRWI
            } else {
                RiscvInstr::CSRRW
            };
            let addr = imm % 0x1000;
            let v = if immediate {
                rs1 as u64
            } else {
                s.reg(rs1)
            };
            let step = dispatch::executed(instr, s, RVInstrInfo::I { rs1, rd, imm });
            let t = step.0;
            &&& addr >= 0xC00 || !readable(s, addr) ==> refuses(s, step)
            &&& addr < 0xC00 && readable(s, addr) && (rd == 0 || s.csr_read(addr) is Ok) ==> {
                &&& writes_csr(s, step, addr, v)
                &&& rd != 0 ==> t.reg(rd) == s.csr_read(addr)->Ok_0
                &&& forall|k: u8| k < 32 && (k != rd || rd == 0) ==> #[trigger] t.reg(k) == s.reg(k)
            }
        }),
{
    reveal(ExecFn::base_step);
}

/// CSRRS and CSRRC, and their immediate forms, set or clear the bits of the register at the address
/// that are set in the source, and give the destination what it held before. A source without a bit
/// only reads.
#[verifier::rlimit(60)]
pub proof fn law_csr_bits(
    s: CpuState,
    rs1: u8,
    rd: u8,
    imm: u64,
    immediate: bool,
    set: bool,
)
    requires
        s.csr.complete(),
        s.regs.len() == 32,
        rd < 32,
    ensures
        ({
            let instr = match (set, immediate) {
                (true, true) => RiscvInstr::CSRRSI,
                (true, false) => RiscvInstr::CSRRS,
                (false, true) => RiscvInstr::CSRRCI,
                (false, false) => RiscvInstr::CSRRC,
            };
            let addr = imm % 0x1000;
            let mask = if immediate {
                rs1 as u64
            } else {
                s.reg(rs1)
            };
            let old_value = s.csr_read(addr);
            let step = dispatch::executed(instr, s, RVInstrInfo::I { rs1, rd, imm });
            let t = step.0;
            &&& mask != 0 && (addr >= 0xC00 || !readable(s, addr)) ==> refuses(s, step)
            &&& mask == 0 && old_value is Err ==> step == (s, Err::<(), Exception>(
                old_value->Err_0,
            ))
            &&& mask == 0 && old_value is Ok ==> {
                &&& step.1 is Ok
                &&& t.csr == s.csr
                &&& t.pc == (s.pc + 4) % 0x1_0000_0000_0000_0000
            }
            &&& mask != 0 && addr < 0xC00 && readable(s, addr) && old_value is Ok ==> writes_csr(
                s,
                step,
                addr,
                if set {
                    old_value->Ok_0 | mask
                } else {
                    old_value->Ok_0 & !mask
                },
            )
            &&& step.1 is Ok ==> t.reg(rd) == old_value->Ok_0 && forall|k: u8|
                k < 32 && k != rd ==> #[trigger] t.reg(k) == s.reg(k)
        }),
{
    reveal(ExecFn::base_step);
}

/// What is written to `satp` takes effect at once: the upper four bits select the scheme, unless they
/// name none, and the lower 44 the root table.
#[verifier::rlimit(60)]
pub proof fn law_satp_takes_effect(s: CpuState, rs1: u8, rd: u8)
    requires
        s.csr.complete(),
        s.regs.len() == 32,
        rd < 32,
        readable(s, csr_index::satp),
    ensures
        ({
            let info = RVInstrInfo::I { rs1, rd, imm: csr_index::satp };
            let (t, r) = dispatch::executed(RiscvInstr::CSRRW, s, info);
            let satp = s.csr.written(csr_index::satp, s.reg(rs1)).value(csr_index::satp);
            let mode = field::field_of(satp, 60, 4);
            &&& r is Ok
            &&& t.vm.walker.root_addr == 0x1000 * field::field_of(satp, 0, 44)
            &&& mode == 0 ==> t.vm.walker.mode == VirtualMemoryMode::Bare
            &&& mode == 8 ==> t.vm.walker.mode == VirtualMemoryMode::Sv39
            &&& mode == 9 ==> t.vm.walker.mode == VirtualMemoryMode::Sv48
            &&& mode == 10 ==> t.vm.walker.mode == VirtualMemoryMode::Sv57
        }),
{
    reveal(ExecFn::base_step);
    let satp = s.csr.written(csr_index::satp, s.reg(rs1)).value(csr_index::satp);
    crate::isa::riscv::csr_reg::cpu::lemma_satp_fields(satp);
}

/// A call of the environment raises the exception of the current level, a breakpoint raises its own,
/// and neither changes anything; a fence only goes on.
#[verifier::rlimit(60)]
pub proof fn law_environment(s: CpuState, info: RVInstrInfo)
    ensures
        dispatch::executed(RiscvInstr::ECALL, s, info) == (s, Err::<(), Exception>(
            match s.csr.cpl {
                PrivilegeLevel::S => Exception::SupervisorEnvCall,
                PrivilegeLevel::M => Exception::MachineEnvCall,
                _ => Exception::UserEnvCall,
            },
        )),
        dispatch::executed(RiscvInstr::EBREAK, s, info) == (s, Err::<(), Exception>(
            Exception::Breakpoint,
        )),
        dispatch::executed(RiscvInstr::C_EBREAK, s, info) == (s, Err::<(), Exception>(
            Exception::Breakpoint,
        )),
        dispatch::executed(RiscvInstr::ILLEGAL, s, info) == (s, Err::<(), Exception>(
            Exception::IllegalInstruction,
        )),
        ({
            let (t, r) = dispatch::executed(RiscvInstr::FENCE, s, info);
            r is Ok && t.pc == (s.pc + 4) % 0x1_0000_0000_0000_0000 && t.regs == s.regs && t.vm
                == s.vm
        }),
        ({
            let (t, r) = dispatch::executed(RiscvInstr::FENCE_I, s, info);
            r is Ok && t.pc == (s.pc + 4) % 0x1_0000_0000_0000_0000 && t.regs == s.regs && t.vm
                == s.vm && forall|i: int|
                0 <= i < t.icache.len() ==> (#[trigger] t.icache[i]).1 is None
        }),
        ({
            let step = dispatch::executed(RiscvInstr::SFENCE_VMA, s, info);
            if s.csr.cpl == PrivilegeLevel::U || (s.csr.cpl == PrivilegeLevel::S && s.csr.field(
                CsrField::Mstatus_tvm,
            ) == 1) {
                refuses(s, step)
            } else {
                step.1 is Ok && step.0.pc == (s.pc + 4) % 0x1_0000_0000_0000_0000 && step.0.regs
                    == s.regs && step.0.vm == s.vm
            }
        }),
{
    reveal(ExecFn::base_step);
}

} // verus!
