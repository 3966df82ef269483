//! The handlers of the two-byte instructions.
use vstd::prelude::*;

use crate::fpu::bits::FloatFormat;
use crate::isa::riscv::csr_reg::field::CsrField;
use crate::isa::riscv::executor::{CpuState, RVCPU};
use crate::isa::riscv::trap::Exception;
use crate::utils;
use crate::utils::Width;

use super::alu;
use super::alu::{AluFn, CompareFn};
use super::exec_core;
use super::exec_core::Step;
use super::exec_float_function;
use super::info::RVInstrInfo;

verus! {

/// The destination and the operands of an arithmetic instruction.
pub open spec fn compress_operands(s: CpuState, info: RVInstrInfo) -> (u8, u64, u64) {
    match info {
        RVInstrInfo::CR { rd_rs1, rs2 } => (rd_rs1, s.reg(rd_rs1), s.reg(rs2)),
        RVInstrInfo::CA { rd_rs1, rs2 } => (rd_rs1, s.reg(rd_rs1), s.reg(rs2)),
        RVInstrInfo::CI { rd_rs1, imm } => (rd_rs1, s.reg(rd_rs1), imm),
        RVInstrInfo::CB { rd_rs1, imm } => (rd_rs1, s.reg(rd_rs1), imm),
        _ => (0, 0, 0),
    }
}

fn read_operands(cpu: &RVCPU, info: RVInstrInfo) -> (r: (u8, u64, u64))
    requires
        info.regs_ok(),
    ensures
        r == compress_operands(cpu@, info),
        r.0 < 32,
{
    match info {
        RVInstrInfo::CR { rd_rs1, rs2 } => (rd_rs1, cpu.read_reg(rd_rs1), cpu.read_reg(rs2)),
        RVInstrInfo::CA { rd_rs1, rs2 } => (rd_rs1, cpu.read_reg(rd_rs1), cpu.read_reg(rs2)),
        RVInstrInfo::CI { rd_rs1, imm } => (rd_rs1, cpu.read_reg(rd_rs1), imm),
        RVInstrInfo::CB { rd_rs1, imm } => (rd_rs1, cpu.read_reg(rd_rs1), imm),
        _ => (0, 0, 0),
    }
}

/// What an arithmetic instruction does.
#[verifier::opaque]
pub open spec fn compress_arith_step(op: AluFn, s: CpuState, info: RVInstrInfo) -> Step {
    let (rd, a, b) = compress_operands(s, info);
    (s.with_reg(rd, alu::alu(op, Width::W64, a, b)).retired(2), Ok(()))
}

/// Executes an arithmetic instruction.
pub fn exec_compress_arith(op: AluFn, info: RVInstrInfo, cpu: &mut RVCPU) -> (r: Result<
    (),
    Exception,
>)
    requires
        old(cpu).wf(),
        info.regs_ok(),
        info is CR || info is CA || info is CI || info is CB,
    ensures
        final(cpu).wf(),
        final(cpu)@ == compress_arith_step(op, old(cpu)@, info).0,
        r == compress_arith_step(op, old(cpu)@, info).1,
{
    proof {
        reveal(compress_arith_step);
    }
    let (rd, a, b) = read_operands(cpu, info);
    cpu.write_reg(rd, op.exec(Width::W64, a, b));
    cpu.retire(2);
    Ok(())
}

/// What an arithmetic instruction on words does.
#[verifier::opaque]
pub open spec fn compress_arith_word_step(op: AluFn, s: CpuState, info: RVInstrInfo) -> Step {
    let (rd, a, b) = compress_operands(s, info);
    (s.with_reg(rd, alu::alu_word(op, a, b)).retired(2), Ok(()))
}

/// Executes an arithmetic instruction on words.
pub fn exec_compress_arith_word(op: AluFn, info: RVInstrInfo, cpu: &mut RVCPU) -> (r: Result<
    (),
    Exception,
>)
    requires
        old(cpu).wf(),
        info.regs_ok(),
        info is CR || info is CA || info is CI || info is CB,
    ensures
        final(cpu).wf(),
        final(cpu)@ == compress_arith_word_step(op, old(cpu)@, info).0,
        r == compress_arith_word_step(op, old(cpu)@, info).1,
{
    proof {
        reveal(compress_arith_word_step);
    }
    let (rd, a, b) = read_operands(cpu, info);
    cpu.write_reg(rd, op.exec_word(a, b));
    cpu.retire(2);
    Ok(())
}

/// What a branch on a comparison with zero does.
#[verifier::opaque]
pub open spec fn compress_branch_step(op: CompareFn, s: CpuState, info: RVInstrInfo) -> Step {
    match info {
        RVInstrInfo::CB { rd_rs1, imm } => if alu::compared(op, Width::W64, s.reg(rd_rs1), 0) {
            (s.with_pc(Width::W64.wrap(s.pc + imm)).counted(1), Ok(()))
        } else {
            (s.retired(2), Ok(()))
        },
        _ => (s, Ok(())),
    }
}

/// Executes a branch on a comparison with zero.
pub fn exec_compress_branch(op: CompareFn, info: RVInstrInfo, cpu: &mut RVCPU) -> (r: Result<
    (),
    Exception,
>)
    requires
        old(cpu).wf(),
        info.regs_ok(),
        info is CB,
    ensures
        final(cpu).wf(),
        final(cpu)@ == compress_branch_step(op, old(cpu)@, info).0,
        r == compress_branch_step(op, old(cpu)@, info).1,
{
    proof {
        reveal(compress_branch_step);
    }
    if let RVInstrInfo::CB { rd_rs1, imm } = info {
        if op.exec(Width::W64, cpu.read_reg(rd_rs1), 0) {
            let target: u64 = utils::add64(cpu.context.pc, imm);
            cpu.write_pc(target);
            cpu.count_instructions(1);
        } else {
            cpu.retire(2);
        }
    }
    Ok(())
}

/// What a jump to a relative address does. The return address goes to register 1.
#[verifier::opaque]
pub open spec fn compress_jump_step(link: bool, s: CpuState, info: RVInstrInfo) -> Step {
    match info {
        RVInstrInfo::CJ { target } => {
            let linked = if link {
                s.with_reg(1, Width::W64.wrap(s.pc + 2))
            } else {
                s
            };
            (linked.with_pc(Width::W64.wrap(s.pc + target)).counted(1), Ok(()))
        },
        _ => (s, Ok(())),
    }
}

/// Executes a jump to a relative address.
pub fn exec_compress_jump(link: bool, info: RVInstrInfo, cpu: &mut RVCPU) -> (r: Result<
    (),
    Exception,
>)
    requires
        old(cpu).wf(),
        info is CJ,
    ensures
        final(cpu).wf(),
        final(cpu)@ == compress_jump_step(link, old(cpu)@, info).0,
        r == compress_jump_step(link, old(cpu)@, info).1,
{
    proof {
        reveal(compress_jump_step);
    }
    if let RVInstrInfo::CJ { target } = info {
        let pc: u64 = cpu.context.pc;
        if link {
            cpu.write_reg(1, utils::add64(pc, 2));
        }
        cpu.write_pc(utils::add64(pc, target));
        cpu.count_instructions(1);
    }
    Ok(())
}

/// What a jump to an address in a register does.
#[verifier::opaque]
pub open spec fn compress_jump_reg_step(link: bool, s: CpuState, info: RVInstrInfo) -> Step {
    match info {
        RVInstrInfo::CR { rd_rs1, .. } => {
            let val = s.reg(rd_rs1);
            let jumped = s.with_pc((val - val % 2) as u64);
            let linked = if link {
                jumped.with_reg(1, Width::W64.wrap(s.pc + 2))
            } else {
                jumped
            };
            (linked.counted(1), Ok(()))
        },
        _ => (s, Ok(())),
    }
}

/// Executes a jump to an address in a register.
pub fn exec_compress_jump_reg(link: bool, info: RVInstrInfo, cpu: &mut RVCPU) -> (r: Result<
    (),
    Exception,
>)
    requires
        old(cpu).wf(),
        info.regs_ok(),
        info is CR,
    ensures
        final(cpu).wf(),
        final(cpu)@ == compress_jump_reg_step(link, old(cpu)@, info).0,
        r == compress_jump_reg_step(link, old(cpu)@, info).1,
{
    proof {
        reveal(compress_jump_reg_step);
    }
    if let RVInstrInfo::CR { rd_rs1, rs2: _ } = info {
        let next: u64 = utils::add64(cpu.context.pc, 2);
        let val: u64 = cpu.read_reg(rd_rs1);
        cpu.write_pc(val - val % 2);
        if link {
            cpu.write_reg(1, next);
        }
        cpu.count_instructions(1);
    }
    Ok(())
}

/// What a load does, from the stack pointer or a register.
#[verifier::opaque]
pub open spec fn compress_load_step(
    w: Width,
    extend: bool,
    s: CpuState,
    info: RVInstrInfo,
) -> Step {
    match info {
        RVInstrInfo::CI { rd_rs1, imm } => exec_core::retire_step(
            s.loaded(w, extend, rd_rs1, Width::W64.wrap(s.reg(2) + imm)),
            2,
        ),
        RVInstrInfo::CL { rd, rs1, imm } => exec_core::retire_step(
            s.loaded(w, extend, rd, Width::W64.wrap(s.reg(rs1) + imm)),
            2,
        ),
        _ => (s, Ok(())),
    }
}

/// Executes a load relative to the stack pointer.
pub fn exec_compress_load_sp(w: Width, extend: bool, info: RVInstrInfo, cpu: &mut RVCPU) -> (r:
    Result<(), Exception>)
    requires
        old(cpu).wf(),
        info.regs_ok(),
        info is CI,
    ensures
        final(cpu).wf(),
        final(cpu)@ == compress_load_step(w, extend, old(cpu)@, info).0,
        r == compress_load_step(w, extend, old(cpu)@, info).1,
{
    proof {
        reveal(compress_load_step);
    }
    if let RVInstrInfo::CI { rd_rs1, imm } = info {
        let addr: u64 = utils::add64(cpu.read_reg(2), imm);
        let done = exec_core::handle_load(cpu, w, extend, rd_rs1, addr);
        exec_core::finish(cpu, done, 2)
    } else {
        Ok(())
    }
}

/// Executes a load.
pub fn exec_compress_load(w: Width, extend: bool, info: RVInstrInfo, cpu: &mut RVCPU) -> (r: Result<
    (),
    Exception,
>)
    requires
        old(cpu).wf(),
        info.regs_ok(),
        info is CL,
    ensures
        final(cpu).wf(),
        final(cpu)@ == compress_load_step(w, extend, old(cpu)@, info).0,
        r == compress_load_step(w, extend, old(cpu)@, info).1,
{
    proof {
        reveal(compress_load_step);
    }
    if let RVInstrInfo::CL { rd, rs1, imm } = info {
        let addr: u64 = utils::add64(cpu.read_reg(rs1), imm);
        let done = exec_core::handle_load(cpu, w, extend, rd, addr);
        exec_core::finish(cpu, done, 2)
    } else {
        Ok(())
    }
}

/// What a store does, from the stack pointer or a register.
#[verifier::opaque]
pub open spec fn compress_store_step(w: Width, s: CpuState, info: RVInstrInfo) -> Step {
    match info {
        RVInstrInfo::CSS { rs2, imm } => exec_core::retire_step(
            s.data_written(Width::W64.wrap(s.reg(2) + imm), w, w.wrap(s.reg(rs2) as int)),
            2,
        ),
        RVInstrInfo::CS { rs1, rs2, imm } => exec_core::retire_step(
            s.data_written(Width::W64.wrap(s.reg(rs1) + imm), w, w.wrap(s.reg(rs2) as int)),
            2,
        ),
        _ => (s, Ok(())),
    }
}

/// Executes a store relative to the stack pointer.
pub fn exec_compress_store_sp(w: Width, info: RVInstrInfo, cpu: &mut RVCPU) -> (r: Result<
    (),
    Exception,
>)
    requires
        old(cpu).wf(),
        info.regs_ok(),
        info is CSS,
    ensures
        final(cpu).wf(),
        final(cpu)@ == compress_store_step(w, old(cpu)@, info).0,
        r == compress_store_step(w, old(cpu)@, info).1,
{
    proof {
        reveal(compress_store_step);
    }
    if let RVInstrInfo::CSS { rs2, imm } = info {
        let addr: u64 = utils::add64(cpu.read_reg(2), imm);
        let data: u64 = cpu.read_reg(rs2);
        let done = exec_core::handle_store(cpu, w, addr, data);
        exec_core::finish(cpu, done, 2)
    } else {
        Ok(())
    }
}

/// Executes a store.
pub fn exec_compress_store(w: Width, info: RVInstrInfo, cpu: &mut RVCPU) -> (r: Result<
    (),
    Exception,
>)
    requires
        old(cpu).wf(),
        info.regs_ok(),
        info is CS,
    ensures
        final(cpu).wf(),
        final(cpu)@ == compress_store_step(w, old(cpu)@, info).0,
        r == compress_store_step(w, old(cpu)@, info).1,
{
    proof {
        reveal(compress_store_step);
    }
    if let RVInstrInfo::CS { rs1, rs2, imm } = info {
        let addr: u64 = utils::add64(cpu.read_reg(rs1), imm);
        let data: u64 = cpu.read_reg(rs2);
        let done = exec_core::handle_store(cpu, w, addr, data);
        exec_core::finish(cpu, done, 2)
    } else {
        Ok(())
    }
}

/// What a store of a floating-point register does. It does not ask whether the unit is on.
#[verifier::opaque]
pub open spec fn compress_float_store_step(f: FloatFormat, s: CpuState, info: RVInstrInfo) -> Step {
    match info {
        RVInstrInfo::CSS { rs2, imm } => exec_core::retire_step(
            s.float_stored(f, rs2, Width::W64.wrap(s.reg(2) + imm)),
            2,
        ),
        RVInstrInfo::CS { rs1, rs2, imm } => exec_core::retire_step(
            s.float_stored(f, rs2, Width::W64.wrap(s.reg(rs1) + imm)),
            2,
        ),
        _ => (s, Ok(())),
    }
}

/// Executes a store of a floating-point register relative to the stack pointer.
pub fn exec_compress_float_store_sp(f: FloatFormat, info: RVInstrInfo, cpu: &mut RVCPU) -> (r:
    Result<(), Exception>)
    requires
        old(cpu).wf(),
        info.regs_ok(),
        info is CSS,
    ensures
        final(cpu).wf(),
        final(cpu)@ == compress_float_store_step(f, old(cpu)@, info).0,
        r == compress_float_store_step(f, old(cpu)@, info).1,
{
    proof {
        reveal(compress_float_store_step);
    }
    if let RVInstrInfo::CSS { rs2, imm } = info {
        let addr: u64 = utils::add64(cpu.read_reg(2), imm);
        let done = exec_core::handle_float_store(cpu, f, addr, rs2);
        exec_core::finish(cpu, done, 2)
    } else {
        Ok(())
    }
}

/// Executes a store of a floating-point register.
pub fn exec_compress_float_store(f: FloatFormat, info: RVInstrInfo, cpu: &mut RVCPU) -> (r: Result<
    (),
    Exception,
>)
    requires
        old(cpu).wf(),
        info.regs_ok(),
        info is CS,
    ensures
        final(cpu).wf(),
        final(cpu)@ == compress_float_store_step(f, old(cpu)@, info).0,
        r == compress_float_store_step(f, old(cpu)@, info).1,
{
    proof {
        reveal(compress_float_store_step);
    }
    if let RVInstrInfo::CS { rs1, rs2, imm } = info {
        let addr: u64 = utils::add64(cpu.read_reg(rs1), imm);
        let done = exec_core::handle_float_store(cpu, f, addr, rs2);
        exec_core::finish(cpu, done, 2)
    } else {
        Ok(())
    }
}

/// What a load of a floating-point register does.
#[verifier::opaque]
pub open spec fn compress_float_load_step(f: FloatFormat, s: CpuState, info: RVInstrInfo) -> Step {
    match info {
        RVInstrInfo::CI { rd_rs1, imm } => exec_float_function::float_step(
            s,
            s.float_loaded(f, rd_rs1, Width::W64.wrap(s.reg(2) + imm)),
            2,
        ),
        RVInstrInfo::CL { rd, rs1, imm } => exec_float_function::float_step(
            s,
            s.float_loaded(f, rd, Width::W64.wrap(s.reg(rs1) + imm)),
            2,
        ),
        _ => (s, Ok(())),
    }
}

/// Executes a load of a floating-point register relative to the stack pointer.
pub fn exec_compress_float_load_sp(f: FloatFormat, info: RVInstrInfo, cpu: &mut RVCPU) -> (r:
    Result<(), Exception>)
    requires
        old(cpu).wf(),
        info.regs_ok(),
        info is CI,
    ensures
        final(cpu).wf(),
        final(cpu)@ == compress_float_load_step(f, old(cpu)@, info).0,
        r == compress_float_load_step(f, old(cpu)@, info).1,
{
    proof {
        reveal(compress_float_load_step);
        reveal(exec_float_function::float_step);
    }
    if let RVInstrInfo::CI { rd_rs1, imm } = info {
        if cpu.csr.get_field(CsrField::Mstatus_fs) == 0 {
            return Err(Exception::IllegalInstruction);
        }
        let addr: u64 = utils::add64(cpu.read_reg(2), imm);
        let done = exec_core::handle_float_load(cpu, f, addr, rd_rs1);
        exec_float_function::finish_float(cpu, done, 2)
    } else {
        Ok(())
    }
}

/// Executes a load of a floating-point register.
pub fn exec_compress_float_load(f: FloatFormat, info: RVInstrInfo, cpu: &mut RVCPU) -> (r: Result<
    (),
    Exception,
>)
    requires
        old(cpu).wf(),
        info.regs_ok(),
        info is CL,
    ensures
        final(cpu).wf(),
        final(cpu)@ == compress_float_load_step(f, old(cpu)@, info).0,
        r == compress_float_load_step(f, old(cpu)@, info).1,
{
    proof {
        reveal(compress_float_load_step);
        reveal(exec_float_function::float_step);
    }
    if let RVInstrInfo::CL { rd, rs1, imm } = info {
        if cpu.csr.get_field(CsrField::Mstatus_fs) == 0 {
            return Err(Exception::IllegalInstruction);
        }
        let addr: u64 = utils::add64(cpu.read_reg(rs1), imm);
        let done = exec_core::handle_float_load(cpu, f, addr, rd);
        exec_float_function::finish_float(cpu, done, 2)
    } else {
        Ok(())
    }
}

/// Does nothing but go on.
pub fn exec_compress_nop(cpu: &mut RVCPU) -> (r: Result<(), Exception>)
    requires
        old(cpu).wf(),
    ensures
        final(cpu).wf(),
        final(cpu)@ == old(cpu)@.retired(2),
        r == Ok::<(), Exception>(()),
{
    cpu.retire(2);
    Ok(())
}

/// What an instruction does that sets a register without computing.
#[verifier::opaque]
pub open spec fn compress_set_step(s: CpuState, info: RVInstrInfo) -> Step {
    match info {
        RVInstrInfo::CR { rd_rs1, rs2 } => (s.with_reg(rd_rs1, s.reg(rs2)).retired(2), Ok(())),
        RVInstrInfo::CI { rd_rs1, imm } => (s.with_reg(rd_rs1, imm).retired(2), Ok(())),
        RVInstrInfo::CIW { rd, imm } => (
            s.with_reg(rd, Width::W64.wrap(s.reg(2) + imm)).retired(2),
            Ok(()),
        ),
        _ => (s, Ok(())),
    }
}

/// Copies a register.
pub fn exec_compress_mv(info: RVInstrInfo, cpu: &mut RVCPU) -> (r: Result<(), Exception>)
    requires
        old(cpu).wf(),
        info.regs_ok(),
        info is CR,
    ensures
        final(cpu).wf(),
        final(cpu)@ == compress_set_step(old(cpu)@, info).0,
        r == compress_set_step(old(cpu)@, info).1,
{
    proof {
        reveal(compress_set_step);
    }
    if let RVInstrInfo::CR { rd_rs1, rs2 } = info {
        let val: u64 = cpu.read_reg(rs2);
        cpu.write_reg(rd_rs1, val);
        cpu.retire(2);
    }
    Ok(())
}

/// Loads an immediate.
pub fn exec_compress_li(info: RVInstrInfo, cpu: &mut RVCPU) -> (r: Result<(), Exception>)
    requires
        old(cpu).wf(),
        info.regs_ok(),
        info is CI,
    ensures
        final(cpu).wf(),
        final(cpu)@ == compress_set_step(old(cpu)@, info).0,
        r == compress_set_step(old(cpu)@, info).1,
{
    proof {
        reveal(compress_set_step);
    }
    if let RVInstrInfo::CI { rd_rs1, imm } = info {
        cpu.write_reg(rd_rs1, imm);
        cpu.retire(2);
    }
    Ok(())
}

/// Adds an immediate to the stack pointer.
pub fn exec_addi4spn(info: RVInstrInfo, cpu: &mut RVCPU) -> (r: Result<(), Exception>)
    requires
        old(cpu).wf(),
        info.regs_ok(),
        info is CIW,
    ensures
        final(cpu).wf(),
        final(cpu)@ == compress_set_step(old(cpu)@, info).0,
        r == compress_set_step(old(cpu)@, info).1,
{
    proof {
        reveal(compress_set_step);
    }
    if let RVInstrInfo::CIW { rd, imm } = info {
        let sum: u64 = utils::add64(cpu.read_reg(2), imm);
        cpu.write_reg(rd, sum);
        cpu.retire(2);
    }
    Ok(())
}

} // verus!
