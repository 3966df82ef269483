//! The handlers of the atomic instructions.
use vstd::prelude::*;

use crate::isa::riscv::executor::{CpuState, RVCPU};
use crate::isa::riscv::mmu::AmoOp;
use crate::isa::riscv::trap::Exception;
use crate::utils;
use crate::utils::Width;

use super::exec_core::Step;
use super::info::RVInstrInfo;

verus! {

/// What an atomic operation does: the old value goes to a register, sign-extended, and the
/// combined value to memory.
pub open spec fn amo_step(op: AmoOp, w: Width, s: CpuState, info: RVInstrInfo) -> Step {
    match info {
        RVInstrInfo::A { rs1, rs2, rd, .. } => {
            let (after, r) = s.data_amo(op, s.reg(rs1), w, w.wrap(s.reg(rs2) as int));
            match r {
                Ok(v) => (after.with_reg(rd, utils::widened(w, v)).retired(4), Ok(())),
                Err(e) => (after, Err(e)),
            }
        },
        _ => (s, Ok(())),
    }
}

/// Executes an atomic operation. One hart steps at a time, so every order of memory accesses that
/// the instruction can ask for is kept.
pub fn exec_atomic_memory_operation(
    op: AmoOp,
    w: Width,
    info: RVInstrInfo,
    cpu: &mut RVCPU,
) -> (r: Result<(), Exception>)
    requires
        old(cpu).wf(),
        info.regs_ok(),
        info is A,
    ensures
        final(cpu).wf(),
        final(cpu)@ == amo_step(op, w, old(cpu)@, info).0,
        r == amo_step(op, w, old(cpu)@, info).1,
{
    if let RVInstrInfo::A { rs1, rs2, rd, rl: _, aq: _ } = info {
        let addr: u64 = cpu.read_reg(rs1);
        let rhs: u64 = w.truncate(cpu.read_reg(rs2));
        match cpu.fetch_and_op_amo(op, addr, w, rhs) {
            Ok(v) => {
                cpu.write_reg(rd, utils::widen(w, v));
                cpu.retire(4);
            },
            Err(e) => {
                return Err(e);
            },
        }
    }
    Ok(())
}

/// What a load-reserved does.
pub open spec fn lr_step(w: Width, extend: bool, s: CpuState, info: RVInstrInfo) -> Step {
    match info {
        RVInstrInfo::A { rs1, rd, .. } => {
            let (after, r) = s.data_reserved(s.reg(rs1), w);
            match r {
                Ok(v) => (
                    after.with_reg(
                        rd,
                        if extend {
                            utils::widened(w, v)
                        } else {
                            v
                        },
                    ).retired(4),
                    Ok(()),
                ),
                Err(e) => (after, Err(e)),
            }
        },
        _ => (s, Ok(())),
    }
}

/// Executes a load-reserved.
pub fn exec_lr(w: Width, extend: bool, info: RVInstrInfo, cpu: &mut RVCPU) -> (r: Result<
    (),
    Exception,
>)
    requires
        old(cpu).wf(),
        info.regs_ok(),
        info is A,
    ensures
        final(cpu).wf(),
        final(cpu)@ == lr_step(w, extend, old(cpu)@, info).0,
        r == lr_step(w, extend, old(cpu)@, info).1,
{
    if let RVInstrInfo::A { rs1, rs2: _, rd, rl: _, aq: _ } = info {
        let addr: u64 = cpu.read_reg(rs1);
        match cpu.load_reserved(addr, w) {
            Ok(v) => {
                let value: u64 = if extend {
                    utils::widen(w, v)
                } else {
                    v
                };
                cpu.write_reg(rd, value);
                cpu.retire(4);
            },
            Err(e) => {
                return Err(e);
            },
        }
    }
    Ok(())
}

/// What a store-conditional does: the register says 0 if it stored and 1 if not.
pub open spec fn sc_step(w: Width, s: CpuState, info: RVInstrInfo) -> Step {
    match info {
        RVInstrInfo::A { rs1, rs2, rd, .. } => {
            let (after, r) = s.data_conditional(s.reg(rs1), w, w.wrap(s.reg(rs2) as int));
            match r {
                Ok(done) => (
                    after.with_reg(
                        rd,
                        if done {
                            0
                        } else {
                            1
                        },
                    ).retired(4),
                    Ok(()),
                ),
                Err(e) => (after, Err(e)),
            }
        },
        _ => (s, Ok(())),
    }
}

/// Executes a store-conditional.
pub fn exec_sc(w: Width, info: RVInstrInfo, cpu: &mut RVCPU) -> (r: Result<(), Exception>)
    requires
        old(cpu).wf(),
        info.regs_ok(),
        info is A,
    ensures
        final(cpu).wf(),
        final(cpu)@ == sc_step(w, old(cpu)@, info).0,
        r == sc_step(w, old(cpu)@, info).1,
{
    if let RVInstrInfo::A { rs1, rs2, rd, rl: _, aq: _ } = info {
        let addr: u64 = cpu.read_reg(rs1);
        let value: u64 = w.truncate(cpu.read_reg(rs2));
        match cpu.store_conditional(addr, w, value) {
            Ok(done) => {
                cpu.write_reg(
                    rd,
                    if done {
                        0
                    } else {
                        1
                    },
                );
                cpu.retire(4);
            },
            Err(e) => {
                return Err(e);
            },
        }
    }
    Ok(())
}

} // verus!
