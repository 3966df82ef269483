//! The handlers of the base instructions.
use vstd::prelude::*;

use crate::isa::riscv::csr_reg::csr_index;
use crate::isa::riscv::csr_reg::field::CsrField;
use crate::isa::riscv::csr_reg::PrivilegeLevel;
use crate::isa::riscv::executor::{CpuState, RVCPU};
use crate::isa::riscv::trap::trap_controller::TrapController;
use crate::isa::riscv::trap::Exception;
use crate::utils;
use crate::utils::Width;

use super::alu;
use super::alu::{AluFn, CompareFn};
use super::exec_core;
use super::exec_core::Step;
use super::info::RVInstrInfo;

verus! {

/// The destination and the operands of an arithmetic instruction.
pub open spec fn arith_operands(s: CpuState, info: RVInstrInfo) -> (u8, u64, u64) {
    match info {
        RVInstrInfo::R { rs1, rs2, rd } => (rd, s.reg(rs1), s.reg(rs2)),
        RVInstrInfo::I { rs1, rd, imm } => (rd, s.reg(rs1), imm),
        _ => (0, 0, 0),
    }
}

fn read_operands(cpu: &RVCPU, info: RVInstrInfo) -> (r: (u8, u64, u64))
    requires
        info.regs_ok(),
    ensures
        r == arith_operands(cpu@, info),
        r.0 < 32,
{
    match info {
        RVInstrInfo::R { rs1, rs2, rd } => (rd, cpu.read_reg(rs1), cpu.read_reg(rs2)),
        RVInstrInfo::I { rs1, rd, imm } => (rd, cpu.read_reg(rs1), imm),
        _ => (0, 0, 0),
    }
}

/// What an arithmetic instruction does.
pub open spec fn arith_step(op: AluFn, s: CpuState, info: RVInstrInfo) -> Step {
    let (rd, a, b) = arith_operands(s, info);
    (s.with_reg(rd, alu::alu(op, Width::W64, a, b)).retired(4), Ok(()))
}

/// Executes an arithmetic instruction on a register and a register or an immediate.
pub fn exec_arith(op: AluFn, info: RVInstrInfo, cpu: &mut RVCPU) -> (r: Result<(), Exception>)
    requires
        old(cpu).wf(),
        info.regs_ok(),
        info is R || info is I,
    ensures
        final(cpu).wf(),
        final(cpu)@ == arith_step(op, old(cpu)@, info).0,
        r == arith_step(op, old(cpu)@, info).1,
{
    let (rd, a, b) = read_operands(cpu, info);
    cpu.write_reg(rd, op.exec(Width::W64, a, b));
    cpu.retire(4);
    Ok(())
}

/// What an arithmetic instruction on words does.
pub open spec fn arith_word_step(op: AluFn, s: CpuState, info: RVInstrInfo) -> Step {
    let (rd, a, b) = arith_operands(s, info);
    (s.with_reg(rd, alu::alu_word(op, a, b)).retired(4), Ok(()))
}

/// Executes an arithmetic instruction on words.
pub fn exec_arith_word(op: AluFn, info: RVInstrInfo, cpu: &mut RVCPU) -> (r: Result<(), Exception>)
    requires
        old(cpu).wf(),
        info.regs_ok(),
        info is R || info is I,
    ensures
        final(cpu).wf(),
        final(cpu)@ == arith_word_step(op, old(cpu)@, info).0,
        r == arith_word_step(op, old(cpu)@, info).1,
{
    let (rd, a, b) = read_operands(cpu, info);
    cpu.write_reg(rd, op.exec_word(a, b));
    cpu.retire(4);
    Ok(())
}

/// What a branch does.
pub open spec fn branch_step(op: CompareFn, s: CpuState, info: RVInstrInfo) -> Step {
    match info {
        RVInstrInfo::B { rs1, rs2, imm } => if alu::compared(
            op,
            Width::W64,
            s.reg(rs1),
            s.reg(rs2),
        ) {
            s.jumped(Width::W64.wrap(s.pc + imm))
        } else {
            (s.retired(4), Ok(()))
        },
        _ => (s, Ok(())),
    }
}

/// Executes a branch.
pub fn exec_branch(op: CompareFn, info: RVInstrInfo, cpu: &mut RVCPU) -> (r: Result<(), Exception>)
    requires
        old(cpu).wf(),
        info.regs_ok(),
        info is B,
    ensures
        final(cpu).wf(),
        final(cpu)@ == branch_step(op, old(cpu)@, info).0,
        r == branch_step(op, old(cpu)@, info).1,
{
    if let RVInstrInfo::B { rs1, rs2, imm } = info {
        if op.exec(Width::W64, cpu.read_reg(rs1), cpu.read_reg(rs2)) {
            let target: u64 = utils::add64(cpu.context.pc, imm);
            match exec_core::check_jump_alignment(cpu, target) {
                Ok(_) => {},
                Err(e) => {
                    return Err(e);
                },
            }
            cpu.write_pc(target);
            cpu.count_instructions(1);
        } else {
            cpu.retire(4);
        }
    }
    Ok(())
}

/// What a load does.
pub open spec fn load_step(w: Width, extend: bool, s: CpuState, info: RVInstrInfo) -> Step {
    match info {
        RVInstrInfo::I { rs1, rd, imm } => exec_core::retire_step(
            s.loaded(w, extend, rd, Width::W64.wrap(s.reg(rs1) + imm)),
            4,
        ),
        _ => (s, Ok(())),
    }
}

/// Executes a load.
pub fn exec_load(w: Width, extend: bool, info: RVInstrInfo, cpu: &mut RVCPU) -> (r: Result<
    (),
    Exception,
>)
    requires
        old(cpu).wf(),
        info.regs_ok(),
        info is I,
    ensures
        final(cpu).wf(),
        final(cpu)@ == load_step(w, extend, old(cpu)@, info).0,
        r == load_step(w, extend, old(cpu)@, info).1,
{
    if let RVInstrInfo::I { rs1, rd, imm } = info {
        let addr: u64 = utils::add64(cpu.read_reg(rs1), imm);
        let done = exec_core::handle_load(cpu, w, extend, rd, addr);
        exec_core::finish(cpu, done, 4)
    } else {
        Ok(())
    }
}

/// What a store does.
pub open spec fn store_step(w: Width, s: CpuState, info: RVInstrInfo) -> Step {
    match info {
        RVInstrInfo::S { rs1, rs2, imm } => exec_core::retire_step(
            s.data_written(
                Width::W64.wrap(s.reg(rs1) + imm),
                w,
                w.wrap(s.reg(rs2) as int),
            ),
            4,
        ),
        _ => (s, Ok(())),
    }
}

/// Executes a store.
pub fn exec_store(w: Width, info: RVInstrInfo, cpu: &mut RVCPU) -> (r: Result<(), Exception>)
    requires
        old(cpu).wf(),
        info.regs_ok(),
        info is S,
    ensures
        final(cpu).wf(),
        final(cpu)@ == store_step(w, old(cpu)@, info).0,
        r == store_step(w, old(cpu)@, info).1,
{
    if let RVInstrInfo::S { rs1, rs2, imm } = info {
        let addr: u64 = utils::add64(cpu.read_reg(rs1), imm);
        let data: u64 = cpu.read_reg(rs2);
        let done = exec_core::handle_store(cpu, w, addr, data);
        exec_core::finish(cpu, done, 4)
    } else {
        Ok(())
    }
}

/// What a jump to a relative address does.
pub open spec fn jal_step(s: CpuState, info: RVInstrInfo) -> Step {
    match info {
        RVInstrInfo::J { rd, imm } => {
            let target = Width::W64.wrap(s.pc + imm);
            if s.can_jump(target) {
                s.with_reg(rd, Width::W64.wrap(s.pc + 4)).jumped(target)
            } else {
                s.misaligned_jump(target)
            }
        },
        _ => (s, Ok(())),
    }
}

/// Executes a jump to a relative address.
pub fn exec_jal(info: RVInstrInfo, cpu: &mut RVCPU) -> (r: Result<(), Exception>)
    requires
        old(cpu).wf(),
        info.regs_ok(),
        info is J,
    ensures
        final(cpu).wf(),
        final(cpu)@ == jal_step(old(cpu)@, info).0,
        r == jal_step(old(cpu)@, info).1,
{
    if let RVInstrInfo::J { rd, imm } = info {
        let target: u64 = utils::add64(cpu.context.pc, imm);
        match exec_core::check_jump_alignment(cpu, target) {
            Ok(_) => {},
            Err(e) => {
                return Err(e);
            },
        }
        let link: u64 = utils::add64(cpu.context.pc, 4);
        cpu.write_reg(rd, link);
        cpu.write_pc(target);
        cpu.count_instructions(1);
    }
    Ok(())
}

/// What a jump to an address in a register does.
pub open spec fn jalr_step(s: CpuState, info: RVInstrInfo) -> Step {
    match info {
        RVInstrInfo::I { rs1, rd, imm } => {
            let sum = Width::W64.wrap(s.reg(rs1) + imm);
            let target = (sum - sum % 2) as u64;
            if s.can_jump(target) {
                s.with_reg(rd, Width::W64.wrap(s.pc + 4)).jumped(target)
            } else {
                s.misaligned_jump(target)
            }
        },
        _ => (s, Ok(())),
    }
}

/// Executes a jump to an address in a register.
pub fn exec_jalr(info: RVInstrInfo, cpu: &mut RVCPU) -> (r: Result<(), Exception>)
    requires
        old(cpu).wf(),
        info.regs_ok(),
        info is I,
    ensures
        final(cpu).wf(),
        final(cpu)@ == jalr_step(old(cpu)@, info).0,
        r == jalr_step(old(cpu)@, info).1,
{
    if let RVInstrInfo::I { rs1, rd, imm } = info {
        let link: u64 = utils::add64(cpu.context.pc, 4);
        let sum: u64 = utils::add64(cpu.read_reg(rs1), imm);
        let target: u64 = sum - sum % 2;
        match exec_core::check_jump_alignment(cpu, target) {
            Ok(_) => {},
            Err(e) => {
                return Err(e);
            },
        }
        cpu.write_pc(target);
        cpu.write_reg(rd, link);
        cpu.count_instructions(1);
    }
    Ok(())
}

/// What loading an upper immediate does, added to the program counter if `relative`.
pub open spec fn upper_step(relative: bool, s: CpuState, info: RVInstrInfo) -> Step {
    match info {
        RVInstrInfo::U { rd, imm } => (
            s.with_reg(
                rd,
                if relative {
                    Width::W64.wrap(s.pc + imm)
                } else {
                    imm
                },
            ).retired(4),
            Ok(()),
        ),
        _ => (s, Ok(())),
    }
}

/// Loads an upper immediate, added to the program counter if `relative`.
pub fn exec_upper(relative: bool, info: RVInstrInfo, cpu: &mut RVCPU) -> (r: Result<(), Exception>)
    requires
        old(cpu).wf(),
        info.regs_ok(),
        info is U,
    ensures
        final(cpu).wf(),
        final(cpu)@ == upper_step(relative, old(cpu)@, info).0,
        r == upper_step(relative, old(cpu)@, info).1,
{
    if let RVInstrInfo::U { rd, imm } = info {
        let value: u64 = if relative {
            utils::add64(cpu.context.pc, imm)
        } else {
            imm
        };
        cpu.write_reg(rd, value);
        cpu.retire(4);
    }
    Ok(())
}

/// The exception that a call of the environment raises. The reserved level calls as a user.
pub open spec fn ecall_exception(level: PrivilegeLevel) -> Exception {
    match level {
        PrivilegeLevel::U => Exception::UserEnvCall,
        PrivilegeLevel::S => Exception::SupervisorEnvCall,
        PrivilegeLevel::M => Exception::MachineEnvCall,
        PrivilegeLevel::V => Exception::UserEnvCall,
    }
}

/// Calls the environment.
pub fn exec_ecall(cpu: &mut RVCPU) -> (r: Result<(), Exception>)
    requires
        old(cpu).wf(),
    ensures
        final(cpu).wf(),
        final(cpu)@ == old(cpu)@,
        r == Err::<(), Exception>(ecall_exception(old(cpu)@.csr.cpl)),
{
    match cpu.get_current_privilege() {
        PrivilegeLevel::U => Err(Exception::UserEnvCall),
        PrivilegeLevel::S => Err(Exception::SupervisorEnvCall),
        PrivilegeLevel::M => Err(Exception::MachineEnvCall),
        PrivilegeLevel::V => Err(Exception::UserEnvCall),
    }
}

/// Does nothing but go on.
pub fn exec_nop(cpu: &mut RVCPU) -> (r: Result<(), Exception>)
    requires
        old(cpu).wf(),
    ensures
        final(cpu).wf(),
        final(cpu)@ == old(cpu)@.retired(4),
        r == Ok::<(), Exception>(()),
{
    cpu.retire(4);
    Ok(())
}

/// Makes written instructions visible.
pub fn exec_fence_i(cpu: &mut RVCPU) -> (r: Result<(), Exception>)
    requires
        old(cpu).wf(),
    ensures
        final(cpu).wf(),
        final(cpu)@ == old(cpu)@.icache_flushed().retired(4),
        r == Ok::<(), Exception>(()),
{
    cpu.flush_icache();
    cpu.flush_tlb();
    cpu.retire(4);
    Ok(())
}

/// The address that an instruction names a control and status register by.
pub open spec fn csr_addr(imm: u64) -> u64 {
    imm % 0x1000
}

/// The state after an instruction that wrote a register is counted. A write of the counter itself
/// is not.
pub open spec fn csr_counted(s: CpuState, addr: u64) -> CpuState {
    if addr != csr_index::minstret {
        s.counted(1)
    } else {
        s
    }
}

/// What writing a control and status register does.
pub open spec fn csrw_step(uimm: bool, s: CpuState, info: RVInstrInfo) -> Step {
    match info {
        RVInstrInfo::I { rs1, rd, imm } => {
            let addr = csr_addr(imm);
            let new_val = if uimm {
                rs1 as u64
            } else {
                s.reg(rs1)
            };
            if !s.csr.may_write(addr) {
                (s, Err(Exception::IllegalInstruction))
            } else if rd != 0 && s.csr_read(addr) is Err {
                (s, Err(s.csr_read(addr)->Err_0))
            } else {
                let read = if rd != 0 {
                    s.with_reg(rd, s.csr_read(addr)->Ok_0)
                } else {
                    s
                };
                let (written, r) = read.csr_written(addr, new_val);
                match r {
                    Ok(_) => (
                        csr_counted(written, addr).with_pc(Width::W64.wrap(s.pc + 4)),
                        Ok(()),
                    ),
                    Err(e) => (written, Err(e)),
                }
            }
        },
        _ => (s.with_pc(Width::W64.wrap(s.pc + 4)), Ok(())),
    }
}

/// Writes a control and status register.
pub fn exec_csrw(uimm: bool, info: RVInstrInfo, cpu: &mut RVCPU) -> (r: Result<(), Exception>)
    requires
        old(cpu).wf(),
        info.regs_ok(),
    ensures
        final(cpu).wf(),
        final(cpu)@ == csrw_step(uimm, old(cpu)@, info).0,
        r == csrw_step(uimm, old(cpu)@, info).1,
{
    if let RVInstrInfo::I { rs1, rd, imm } = info {
        let addr: u64 = imm % 0x1000;
        // The right to write is checked before the register is read.
        if !cpu.csr.is_write_priv_legal(addr) {
            return Err(Exception::IllegalInstruction);
        }
        let new_val: u64 = if uimm {
            rs1 as u64
        } else {
            cpu.read_reg(rs1)
        };
        if rd != 0 {
            match cpu.read_csr(addr) {
                Ok(value) => {
                    cpu.write_reg(rd, value);
                },
                Err(e) => {
                    return Err(e);
                },
            }
        }
        match cpu.write_csr(addr, new_val) {
            Ok(_) => {},
            Err(e) => {
                return Err(e);
            },
        }
        if addr != csr_index::minstret {
            cpu.count_instructions(1);
        }
    }
    let pc: u64 = utils::add64(cpu.context.pc, 4);
    cpu.write_pc(pc);
    Ok(())
}

/// What setting or clearing bits of a control and status register does. Without a bit to change
/// the register is only read.
pub open spec fn csr_bit_step(set: bool, uimm: bool, s: CpuState, info: RVInstrInfo) -> Step {
    match info {
        RVInstrInfo::I { rs1, rd, imm } => {
            let addr = csr_addr(imm);
            let rhs = if uimm {
                rs1 as u64
            } else {
                s.reg(rs1)
            };
            let next = Width::W64.wrap(s.pc + 4);
            if rhs != 0 && !s.csr.may_write(addr) {
                (s, Err(Exception::IllegalInstruction))
            } else {
                match s.csr_read(addr) {
                    Err(e) => (s, Err(e)),
                    Ok(value) => {
                        let read = s.with_reg(rd, value);
                        if rhs == 0 {
                            (read.with_pc(next), Ok(()))
                        } else {
                            let data = if set {
                                value | rhs
                            } else {
                                value & !rhs
                            };
                            let (written, r) = read.csr_written(addr, data);
                            match r {
                                Ok(_) => (csr_counted(written, addr).with_pc(next), Ok(())),
                                Err(e) => (written, Err(e)),
                            }
                        }
                    },
                }
            }
        },
        _ => (s, Ok(())),
    }
}

/// Sets or clears bits of a control and status register.
pub fn exec_csr_bit(set: bool, uimm: bool, info: RVInstrInfo, cpu: &mut RVCPU) -> (r: Result<
    (),
    Exception,
>)
    requires
        old(cpu).wf(),
        info.regs_ok(),
        info is I,
    ensures
        final(cpu).wf(),
        final(cpu)@ == csr_bit_step(set, uimm, old(cpu)@, info).0,
        r == csr_bit_step(set, uimm, old(cpu)@, info).1,
{
    if let RVInstrInfo::I { rs1, rd, imm } = info {
        let addr: u64 = imm % 0x1000;
        let rhs: u64 = if uimm {
            rs1 as u64
        } else {
            cpu.read_reg(rs1)
        };
        if rhs != 0 && !cpu.csr.is_write_priv_legal(addr) {
            return Err(Exception::IllegalInstruction);
        }
        let value: u64 = match cpu.read_csr(addr) {
            Ok(value) => value,
            Err(e) => {
                return Err(e);
            },
        };
        cpu.write_reg(rd, value);
        if rhs != 0 {
            let data: u64 = if set {
                value | rhs
            } else {
                value & !rhs
            };
            match cpu.write_csr(addr, data) {
                Ok(_) => {},
                Err(e) => {
                    return Err(e);
                },
            }
            if addr != csr_index::minstret {
                cpu.count_instructions(1);
            }
        }
        let pc: u64 = utils::add64(cpu.context.pc, 4);
        cpu.write_pc(pc);
    }
    Ok(())
}

/// What a return from machine mode does.
pub open spec fn mret_step(s: CpuState) -> Step {
    if s.csr.cpl == PrivilegeLevel::M {
        (s.returned_from_m().counted(1), Ok(()))
    } else {
        (s, Err(Exception::IllegalInstruction))
    }
}

/// Returns from machine mode.
pub fn exec_mret(cpu: &mut RVCPU) -> (r: Result<(), Exception>)
    requires
        old(cpu).wf(),
    ensures
        final(cpu).wf(),
        final(cpu)@ == mret_step(old(cpu)@).0,
        r == mret_step(old(cpu)@).1,
{
    if cpu.get_current_privilege() != PrivilegeLevel::M {
        return Err(Exception::IllegalInstruction);
    }
    TrapController::mret(cpu);
    cpu.count_instructions(1);
    Ok(())
}

/// Whether a supervisor instruction is legal, when the bit `trap` of `mstatus` takes it from the
/// supervisor.
pub open spec fn supervisor_may(s: CpuState, trap: CsrField) -> bool {
    s.csr.cpl.spec_rank() >= 1 && !(s.csr.cpl == PrivilegeLevel::S && s.csr.field(trap) == 1)
}

/// What a return from supervisor mode does.
pub open spec fn sret_step(s: CpuState) -> Step {
    if supervisor_may(s, CsrField::Mstatus_tsr) {
        (s.returned_from_s().counted(1), Ok(()))
    } else {
        (s, Err(Exception::IllegalInstruction))
    }
}

/// Returns from supervisor mode.
pub fn exec_sret(cpu: &mut RVCPU) -> (r: Result<(), Exception>)
    requires
        old(cpu).wf(),
    ensures
        final(cpu).wf(),
        final(cpu)@ == sret_step(old(cpu)@).0,
        r == sret_step(old(cpu)@).1,
{
    let level = cpu.get_current_privilege();
    if level.rank() < 1 {
        return Err(Exception::IllegalInstruction);
    }
    if level == PrivilegeLevel::S && cpu.csr.get_field(CsrField::Mstatus_tsr) == 1 {
        return Err(Exception::IllegalInstruction);
    }
    TrapController::sret(cpu);
    cpu.count_instructions(1);
    Ok(())
}

/// What a fence of virtual memory does.
pub open spec fn sfence_vma_step(s: CpuState) -> Step {
    if supervisor_may(s, CsrField::Mstatus_tvm) {
        (s.icache_flushed().retired(4), Ok(()))
    } else {
        (s, Err(Exception::IllegalInstruction))
    }
}

/// Makes written page tables visible.
pub fn exec_sfence_vma(cpu: &mut RVCPU) -> (r: Result<(), Exception>)
    requires
        old(cpu).wf(),
    ensures
        final(cpu).wf(),
        final(cpu)@ == sfence_vma_step(old(cpu)@).0,
        r == sfence_vma_step(old(cpu)@).1,
{
    let level = cpu.get_current_privilege();
    if level.rank() < 1 {
        return Err(Exception::IllegalInstruction);
    }
    if level == PrivilegeLevel::S && cpu.csr.get_field(CsrField::Mstatus_tvm) == 1 {
        return Err(Exception::IllegalInstruction);
    }
    cpu.flush_tlb();
    cpu.flush_icache();
    cpu.retire(4);
    Ok(())
}

} // verus!
