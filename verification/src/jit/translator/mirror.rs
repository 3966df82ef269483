//! That the code of every instruction that is translated does what the instruction does.
use vstd::prelude::*;

use crate::isa::riscv::executor::CpuState;
use crate::isa::riscv::instruction::alu;
use crate::isa::riscv::instruction::exec_mapping;
use crate::isa::riscv::instruction::exec_mapping::ExecFn;
use crate::isa::riscv::instruction::info::RVInstrInfo;
use crate::isa::riscv::instruction::instr_table::RiscvInstr;
use crate::jit::helpers::LoadKind;
use crate::jit::jit_function::JitInfo;
use crate::jit::machine;
use crate::jit::machine::{Host, Machine};
use crate::utils::Width;

use super::agreement;
use super::calls;
use super::conditions;
use super::control;
use super::effects;
use super::rvi;
use super::simulation;
use super::{GenState, TranslateResult};

verus! {

/// Whether an instruction is the next one of a hart that the host stands for.
pub open spec fn is_next(
    gen: GenState,
    host: Host,
    start: Machine,
    s: CpuState,
    info: RVInstrInfo,
    context: JitInfo,
) -> bool {
    &&& simulation::stands_for(gen, host, start, s, context.instr_cnt)
    &&& calls::helpers_differ(host.around.helpers)
    &&& context.instr_pc == s.pc
    &&& context.ialign == s.ialign()
    &&& context.ialign == 4 ==> s.pc % 4 == 0 && context.instr_len == 4
    &&& info.regs_ok()
    &&& info.imm_ok()
}

/// An instruction on two registers.
proof fn lemma_alu_r(
    gen: GenState,
    host: Host,
    start: Machine,
    s: CpuState,
    instr: RiscvInstr,
    info: RVInstrInfo,
    context: JitInfo,
)
    requires
        is_next(gen, host, start, s, info, context),
        context.instr_len == 4,
        rvi::alu_r_of(instr) is Some,
        info is R,
    ensures
        ({
            let (u, result) = gen.rvi(host.around, instr, info, context);
            simulation::mirrored(u, result, host, start, context, s, s.executed(instr, info))
        }),
{
    reveal(ExecFn::base_step);
    simulation::lemma_standing(gen, host, start, s, context.instr_cnt);
    if let RVInstrInfo::R { rs1, rs2, rd } = info {
        let (op, commutative, width) = rvi::alu_r_of(instr)->0;
        let value = agreement::computed(machine::alu_fn(op), width, s.reg(rs1), s.reg(rs2));
        if rd != 0 {
            effects::lemma_alu_r(
                gen,
                host,
                start,
                s.regs,
                rd,
                rs1,
                rs2,
                op,
                commutative,
                width,
            );
        }
        let u = gen.alu_r(rd, rs1, rs2, op, commutative, width);
        simulation::lemma_register(gen, u, host, start, s, context, rd, value);
    }
}

/// An instruction on a register and an immediate.
proof fn lemma_alu_i(
    gen: GenState,
    host: Host,
    start: Machine,
    s: CpuState,
    instr: RiscvInstr,
    info: RVInstrInfo,
    context: JitInfo,
)
    requires
        is_next(gen, host, start, s, info, context),
        context.instr_len == 4,
        rvi::alu_i_of(instr) is Some,
        info is I,
    ensures
        ({
            let (u, result) = gen.rvi(host.around, instr, info, context);
            simulation::mirrored(u, result, host, start, context, s, s.executed(instr, info))
        }),
{
    reveal(ExecFn::base_step);
    simulation::lemma_standing(gen, host, start, s, context.instr_cnt);
    if let RVInstrInfo::I { rs1, rd, imm } = info {
        let (op, width) = rvi::alu_i_of(instr)->0;
        let value = agreement::computed(machine::alu_fn(op), width, s.reg(rs1), imm);
        if rd != 0 {
            effects::lemma_alu_i(gen, host, start, s.regs, rd, rs1, imm, op, width);
        }
        let u = gen.alu_i(rd, rs1, imm, op, width);
        simulation::lemma_register(gen, u, host, start, s, context, rd, value);
    }
}

/// A shift by a register.
proof fn lemma_shift_r(
    gen: GenState,
    host: Host,
    start: Machine,
    s: CpuState,
    instr: RiscvInstr,
    info: RVInstrInfo,
    context: JitInfo,
)
    requires
        is_next(gen, host, start, s, info, context),
        context.instr_len == 4,
        rvi::shift_r_of(instr) is Some,
        info is R,
    ensures
        ({
            let (u, result) = gen.rvi(host.around, instr, info, context);
            simulation::mirrored(u, result, host, start, context, s, s.executed(instr, info))
        }),
{
    reveal(ExecFn::base_step);
    simulation::lemma_standing(gen, host, start, s, context.instr_cnt);
    if let RVInstrInfo::R { rs1, rs2, rd } = info {
        let (shift, width) = rvi::shift_r_of(instr)->0;
        let value = agreement::computed(machine::shift_fn(shift), width, s.reg(rs1), s.reg(rs2));
        if rd != 0 {
            effects::lemma_shift_r(gen, host, start, s.regs, rd, rs1, rs2, shift, width);
        }
        simulation::lemma_register(
            gen,
            gen.shift_r(rd, rs1, rs2, shift, width),
            host,
            start,
            s,
            context,
            rd,
            value,
        );
    }
}

/// A shift by an immediate.
proof fn lemma_shift_i(
    gen: GenState,
    host: Host,
    start: Machine,
    s: CpuState,
    instr: RiscvInstr,
    info: RVInstrInfo,
    context: JitInfo,
)
    requires
        is_next(gen, host, start, s, info, context),
        context.instr_len == 4,
        rvi::shift_i_of(instr) is Some,
        info is I,
    ensures
        ({
            let (u, result) = gen.rvi(host.around, instr, info, context);
            simulation::mirrored(u, result, host, start, context, s, s.executed(instr, info))
        }),
{
    reveal(ExecFn::base_step);
    simulation::lemma_standing(gen, host, start, s, context.instr_cnt);
    if let RVInstrInfo::I { rs1, rd, imm } = info {
        let (shift, width) = rvi::shift_i_of(instr)->0;
        let value = agreement::computed(machine::shift_fn(shift), width, s.reg(rs1), imm);
        if rd != 0 {
            effects::lemma_shift_i(gen, host, start, s.regs, rd, rs1, imm, shift, width);
        }
        simulation::lemma_register(
            gen,
            gen.shift_i(rd, rs1, imm, shift, width),
            host,
            start,
            s,
            context,
            rd,
            value,
        );
    }
}

/// A comparison of two registers.
proof fn lemma_compare_r(
    gen: GenState,
    host: Host,
    start: Machine,
    s: CpuState,
    instr: RiscvInstr,
    info: RVInstrInfo,
    context: JitInfo,
)
    requires
        is_next(gen, host, start, s, info, context),
        context.instr_len == 4,
        rvi::compare_r_of(instr) is Some,
        info is R,
    ensures
        ({
            let (u, result) = gen.rvi(host.around, instr, info, context);
            simulation::mirrored(u, result, host, start, context, s, s.executed(instr, info))
        }),
{
    reveal(ExecFn::base_step);
    simulation::lemma_standing(gen, host, start, s, context.instr_cnt);
    if let RVInstrInfo::R { rs1, rs2, rd } = info {
        let condition = rvi::compare_r_of(instr)->0;
        let value = conditions::truth(condition, s.reg(rs1), s.reg(rs2));
        if rd != 0 {
            conditions::lemma_compare_r(gen, host, start, s.regs, rd, rs1, rs2, condition);
        }
        simulation::lemma_register(
            gen,
            gen.compare_r(rd, rs1, rs2, condition),
            host,
            start,
            s,
            context,
            rd,
            value,
        );
    }
}

/// A comparison of a register and an immediate.
proof fn lemma_compare_i(
    gen: GenState,
    host: Host,
    start: Machine,
    s: CpuState,
    instr: RiscvInstr,
    info: RVInstrInfo,
    context: JitInfo,
)
    requires
        is_next(gen, host, start, s, info, context),
        context.instr_len == 4,
        rvi::compare_i_of(instr) is Some,
        info is I,
    ensures
        ({
            let (u, result) = gen.rvi(host.around, instr, info, context);
            simulation::mirrored(u, result, host, start, context, s, s.executed(instr, info))
        }),
{
    reveal(ExecFn::base_step);
    simulation::lemma_standing(gen, host, start, s, context.instr_cnt);
    if let RVInstrInfo::I { rs1, rd, imm } = info {
        let condition = rvi::compare_i_of(instr)->0;
        let value = conditions::truth(condition, s.reg(rs1), imm);
        if rd != 0 {
            conditions::lemma_compare_i(gen, host, start, s.regs, rd, rs1, imm, condition);
        }
        simulation::lemma_register(
            gen,
            gen.compare_i(rd, rs1, imm, condition),
            host,
            start,
            s,
            context,
            rd,
            value,
        );
    }
}

/// A branch.
proof fn lemma_branch(
    gen: GenState,
    host: Host,
    start: Machine,
    s: CpuState,
    instr: RiscvInstr,
    info: RVInstrInfo,
    context: JitInfo,
)
    requires
        is_next(gen, host, start, s, info, context),
        context.instr_len == 4,
        rvi::branch_of(instr) is Some,
        info is B,
    ensures
        ({
            let (u, result) = gen.rvi(host.around, instr, info, context);
            simulation::mirrored(u, result, host, start, context, s, s.executed(instr, info))
        }),
{
    reveal(ExecFn::base_step);
    simulation::lemma_standing(gen, host, start, s, context.instr_cnt);
    if let RVInstrInfo::B { rs1, rs2, imm } = info {
        let condition = rvi::branch_of(instr)->0;
        let target = Width::W64.wrap(s.pc + imm);
        let fallthrough = Width::W64.wrap(s.pc + 4);
        lemma_aligned(s.pc);
        control::lemma_branch(
            gen,
            host,
            start,
            s.regs,
            rs1,
            Some(rs2),
            imm,
            condition,
            context,
        );
        let u = gen.branch(host.around, rs1, Some(rs2), imm, condition, context);
        assert(s.regs.update(0, 0) =~= s.regs);
        if alu::compared(
            machine::compare_fn(condition),
            Width::W64,
            s.reg(rs1),
            s.reg(rs2),
        ) {
            if s.can_jump(target) {
                simulation::lemma_goes(gen, u, host, start, s, context, s.regs, target);
            } else {
                simulation::lemma_misaligned(
                    gen,
                    u,
                    TranslateResult::ControlFlow,
                    host,
                    start,
                    s,
                    context,
                    target,
                );
            }
        } else {
            simulation::lemma_goes(gen, u, host, start, s, context, s.regs, fallthrough);
        }
    }
}

/// The address behind an aligned instruction is aligned.
proof fn lemma_aligned(pc: u64)
    ensures
        pc % 4 == 0 ==> Width::W64.wrap(pc + 4) % 4 == 0,
{
}

/// A jump that keeps the address behind it.
pub(super) proof fn lemma_linked(s: CpuState, rd: Option<u8>, context: JitInfo, target: u64)
    requires
        s.regs.len() == 32,
        s.regs[0] == 0,
        rd is Some ==> rd->0 < 32,
    ensures
        ({
            let h = control::linked(s.regs, rd, context);
            let link = Width::W64.wrap(context.instr_pc + context.instr_len);
            &&& h.len() == 32
            &&& h[0] == 0
            &&& rd is Some ==> s.regs.update(rd->0 as int, link).update(0, 0) == h
            &&& rd is None ==> s.regs.update(0, 0) == h
        }),
{
    let h = control::linked(s.regs, rd, context);
    let link = Width::W64.wrap(context.instr_pc + context.instr_len);
    match rd {
        Some(rd) => {
            assert(s.regs.update(rd as int, link).update(0, 0) =~= h);
        },
        None => {
            assert(s.regs.update(0, 0) =~= h);
        },
    }
}

/// A jump to a known address.
proof fn lemma_jal(
    gen: GenState,
    host: Host,
    start: Machine,
    s: CpuState,
    instr: RiscvInstr,
    info: RVInstrInfo,
    context: JitInfo,
)
    requires
        is_next(gen, host, start, s, info, context),
        context.instr_len == 4,
        instr == RiscvInstr::JAL,
        info is J,
    ensures
        ({
            let (u, result) = gen.rvi(host.around, instr, info, context);
            simulation::mirrored(u, result, host, start, context, s, s.executed(instr, info))
        }),
{
    reveal(ExecFn::base_step);
    simulation::lemma_standing(gen, host, start, s, context.instr_cnt);
    if let RVInstrInfo::J { rd, imm } = info {
        lemma_linked(s, Some(rd), context, 0);
        let target = Width::W64.wrap(s.pc + imm);
        control::lemma_jump_imm(gen, host, start, s.regs, Some(rd), imm, context);
        let u = gen.jump_imm(host.around, Some(rd), imm, context);
        let h = control::linked(s.regs, Some(rd), context);
        if s.can_jump(target) {
            simulation::lemma_goes(gen, u, host, start, s, context, h, target);
            lemma_linked(s, Some(rd), context, target);
        } else {
            simulation::lemma_misaligned(
                gen,
                u,
                TranslateResult::ControlFlow,
                host,
                start,
                s,
                context,
                target,
            );
        }
    }
}

/// A jump to an address in a register.
proof fn lemma_jalr(
    gen: GenState,
    host: Host,
    start: Machine,
    s: CpuState,
    instr: RiscvInstr,
    info: RVInstrInfo,
    context: JitInfo,
)
    requires
        is_next(gen, host, start, s, info, context),
        context.instr_len == 4,
        instr == RiscvInstr::JALR,
        info is I,
    ensures
        ({
            let (u, result) = gen.rvi(host.around, instr, info, context);
            simulation::mirrored(u, result, host, start, context, s, s.executed(instr, info))
        }),
{
    reveal(ExecFn::base_step);
    simulation::lemma_standing(gen, host, start, s, context.instr_cnt);
    if let RVInstrInfo::I { rs1, rd, imm } = info {
        lemma_linked(s, Some(rd), context, 0);
        let target = control::jump_target(s.regs, rs1, imm);
        control::lemma_jump_reg(gen, host, start, s.regs, Some(rd), rs1, imm, context);
        let u = gen.jump_reg(host.around, Some(rd), rs1, imm, context);
        let h = control::linked(s.regs, Some(rd), context);
        if s.can_jump(target) {
            simulation::lemma_goes(gen, u, host, start, s, context, h, target);
            lemma_linked(s, Some(rd), context, target);
        } else {
            simulation::lemma_misaligned(
                gen,
                u,
                TranslateResult::ControlFlow,
                host,
                start,
                s,
                context,
                target,
            );
        }
    }
}

/// An instruction that loads an immediate.
proof fn lemma_upper(
    gen: GenState,
    host: Host,
    start: Machine,
    s: CpuState,
    instr: RiscvInstr,
    info: RVInstrInfo,
    context: JitInfo,
)
    requires
        is_next(gen, host, start, s, info, context),
        context.instr_len == 4,
        instr == RiscvInstr::LUI || instr == RiscvInstr::AUIPC,
        info is U,
    ensures
        ({
            let (u, result) = gen.rvi(host.around, instr, info, context);
            simulation::mirrored(u, result, host, start, context, s, s.executed(instr, info))
        }),
{
    reveal(ExecFn::base_step);
    simulation::lemma_standing(gen, host, start, s, context.instr_cnt);
    if let RVInstrInfo::U { rd, imm } = info {
        let value = if instr == RiscvInstr::LUI {
            imm
        } else {
            Width::W64.wrap(s.pc + imm)
        };
        if rd != 0 {
            effects::lemma_load_imm(gen, host, start, s.regs, rd, value);
        }
        simulation::lemma_register(
            gen,
            gen.load_imm(rd, value),
            host,
            start,
            s,
            context,
            rd,
            value,
        );
    }
}

/// A load.
proof fn lemma_load(
    gen: GenState,
    host: Host,
    start: Machine,
    s: CpuState,
    instr: RiscvInstr,
    info: RVInstrInfo,
    context: JitInfo,
)
    requires
        is_next(gen, host, start, s, info, context),
        context.instr_len == 4,
        rvi::load_of(instr) is Some,
        info is I,
    ensures
        ({
            let (u, result) = gen.rvi(host.around, instr, info, context);
            simulation::mirrored(u, result, host, start, context, s, s.executed(instr, info))
        }),
{
    reveal(ExecFn::base_step);
    simulation::lemma_standing(gen, host, start, s, context.instr_cnt);
    if let RVInstrInfo::I { rs1, rd, imm } = info {
        let kind = rvi::load_of(instr)->0;
        simulation::lemma_load(
            gen,
            host,
            start,
            s,
            context,
            rd,
            rs1,
            imm,
            kind,
            kind == LoadKind::SignedByte || kind == LoadKind::SignedHalf || kind
                == LoadKind::SignedWord,
        );
    }
}

/// A store.
proof fn lemma_store(
    gen: GenState,
    host: Host,
    start: Machine,
    s: CpuState,
    instr: RiscvInstr,
    info: RVInstrInfo,
    context: JitInfo,
)
    requires
        is_next(gen, host, start, s, info, context),
        context.instr_len == 4,
        rvi::store_of(instr) is Some,
        info is S,
    ensures
        ({
            let (u, result) = gen.rvi(host.around, instr, info, context);
            simulation::mirrored(u, result, host, start, context, s, s.executed(instr, info))
        }),
{
    reveal(ExecFn::base_step);
    simulation::lemma_standing(gen, host, start, s, context.instr_cnt);
    if let RVInstrInfo::S { rs1, rs2, imm } = info {
        let kind = rvi::store_of(instr)->0;
        simulation::lemma_store(gen, host, start, s, context, rs1, rs2, imm, kind);
    }
}

/// A base instruction.
pub(crate) proof fn lemma_base(
    gen: GenState,
    host: Host,
    start: Machine,
    s: CpuState,
    instr: RiscvInstr,
    info: RVInstrInfo,
    context: JitInfo,
)
    requires
        is_next(gen, host, start, s, info, context),
        context.instr_len == 4,
        gen.rvi(host.around, instr, info, context).1 != TranslateResult::Unsupported,
    ensures
        ({
            let (u, result) = gen.rvi(host.around, instr, info, context);
            simulation::mirrored(u, result, host, start, context, s, s.executed(instr, info))
        }),
{
    if rvi::alu_r_of(instr) is Some && info is R {
        lemma_alu_r(gen, host, start, s, instr, info, context);
    } else if rvi::alu_i_of(instr) is Some && info is I {
        lemma_alu_i(gen, host, start, s, instr, info, context);
    } else if rvi::shift_r_of(instr) is Some && info is R {
        lemma_shift_r(gen, host, start, s, instr, info, context);
    } else if rvi::shift_i_of(instr) is Some && info is I {
        lemma_shift_i(gen, host, start, s, instr, info, context);
    } else if rvi::compare_r_of(instr) is Some && info is R {
        lemma_compare_r(gen, host, start, s, instr, info, context);
    } else if rvi::compare_i_of(instr) is Some && info is I {
        lemma_compare_i(gen, host, start, s, instr, info, context);
    } else if rvi::branch_of(instr) is Some && info is B {
        lemma_branch(gen, host, start, s, instr, info, context);
    } else if instr == RiscvInstr::JAL && info is J {
        lemma_jal(gen, host, start, s, instr, info, context);
    } else if instr == RiscvInstr::JALR && info is I {
        lemma_jalr(gen, host, start, s, instr, info, context);
    } else if (instr == RiscvInstr::LUI || instr == RiscvInstr::AUIPC) && info is U {
        lemma_upper(gen, host, start, s, instr, info, context);
    } else if rvi::load_of(instr) is Some && info is I {
        lemma_load(gen, host, start, s, instr, info, context);
    } else if rvi::store_of(instr) is Some && info is S {
        lemma_store(gen, host, start, s, instr, info, context);
    }
}

} // verus!
