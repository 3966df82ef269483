//! That the code of the compressed instructions does what the instructions do.
use vstd::prelude::*;

use crate::isa::riscv::executor::CpuState;
use crate::isa::riscv::instruction::alu;
use crate::isa::riscv::instruction::exec_compress_function;
use crate::isa::riscv::instruction::exec_mapping;
use crate::isa::riscv::instruction::exec_mapping::ExecFn;
use crate::isa::riscv::instruction::info::RVInstrInfo;
use crate::isa::riscv::instruction::instr_table::RiscvInstr;
use crate::jit::backend::x86::AluOp;
use crate::jit::helpers::LoadKind;
use crate::jit::jit_function::JitInfo;
use crate::jit::machine;
use crate::jit::machine::{Host, Machine};
use crate::utils::Width;

use super::agreement;
use super::control;
use super::effects;
use super::mirror;
use super::rvc;
use super::simulation;
use super::{GenState, OperandWidth, TranslateResult};

verus! {

/// The handlers of the compressed instructions come behind those of the others.
proof fn lemma_compressed_step(f: ExecFn, s: CpuState, info: RVInstrInfo)
    requires
        f is CompressArith || f is CompressArithWord || f is Addi4spn || f is CompressMv || f
            is CompressNop || f is CompressLi || f is CompressBranch || f is CompressJump || f
            is CompressJumpReg || f is CompressLoad || f is CompressLoadSp || f is CompressStore
            || f is CompressStoreSp,
    ensures
        f.step(s, info) == f.compressed_step(s, info),
{
    reveal(ExecFn::base_step);
    reveal(ExecFn::float_arith_step);
    reveal(ExecFn::float_convert_step);
    reveal(ExecFn::float_move_step);
}

/// An instruction on two registers.
proof fn lemma_alu_r(
    gen: GenState,
    host: Host,
    start: Machine,
    s: CpuState,
    instr: RiscvInstr,
    info: RVInstrInfo,
    context: JitInfo,
)
    requires
        mirror::is_next(gen, host, start, s, info, context),
        context.instr_len == 2,
        rvc::alu_r_of(instr) is Some,
        rvc::r_args(info) is Some,
    ensures
        ({
            let (u, result) = gen.rvc(host.around, instr, info, context);
            simulation::mirrored(u, result, host, start, context, s, s.executed(instr, info))
        }),
{
    reveal(ExecFn::compressed_step);
    reveal(exec_compress_function::compress_arith_step);
    reveal(exec_compress_function::compress_arith_word_step);
    simulation::lemma_standing(gen, host, start, s, context.instr_cnt);
    lemma_compressed_step(exec_mapping::exec_func_of(instr), s, info);
    if let Some((rd, rs2)) = rvc::r_args(info) {
        let (op, commutative, width) = rvc::alu_r_of(instr)->0;
        let value = agreement::computed(machine::alu_fn(op), width, s.reg(rd), s.reg(rs2));
        if rd != 0 {
            effects::lemma_alu_r(gen, host, start, s.regs, rd, rd, rs2, op, commutative, width);
        }
        simulation::lemma_register(
            gen,
            gen.alu_r(rd, rd, rs2, op, commutative, width),
            host,
            start,
            s,
            context,
            rd,
            value,
        );
    }
}

/// An instruction on a register and an immediate.
proof fn lemma_alu_i(
    gen: GenState,
    host: Host,
    start: Machine,
    s: CpuState,
    instr: RiscvInstr,
    info: RVInstrInfo,
    context: JitInfo,
)
    requires
        mirror::is_next(gen, host, start, s, info, context),
        context.instr_len == 2,
        rvc::alu_i_of(instr) is Some,
        rvc::i_args(info) is Some,
    ensures
        ({
            let (u, result) = gen.rvc(host.around, instr, info, context);
            simulation::mirrored(u, result, host, start, context, s, s.executed(instr, info))
        }),
{
    reveal(ExecFn::compressed_step);
    reveal(exec_compress_function::compress_arith_step);
    reveal(exec_compress_function::compress_arith_word_step);
    simulation::lemma_standing(gen, host, start, s, context.instr_cnt);
    lemma_compressed_step(exec_mapping::exec_func_of(instr), s, info);
    if let Some((rd, imm)) = rvc::i_args(info) {
        let (op, width) = rvc::alu_i_of(instr)->0;
        let value = agreement::computed(machine::alu_fn(op), width, s.reg(rd), imm);
        if rd != 0 {
            effects::lemma_alu_i(gen, host, start, s.regs, rd, rd, imm, op, width);
        }
        simulation::lemma_register(
            gen,
            gen.alu_i(rd, rd, imm, op, width),
            host,
            start,
            s,
            context,
            rd,
            value,
        );
    }
}

/// The address of something on the stack.
proof fn lemma_addi4spn(
    gen: GenState,
    host: Host,
    start: Machine,
    s: CpuState,
    instr: RiscvInstr,
    info: RVInstrInfo,
    context: JitInfo,
)
    requires
        mirror::is_next(gen, host, start, s, info, context),
        context.instr_len == 2,
        instr == RiscvInstr::C_ADDI4SPN,
        info is CIW,
    ensures
        ({
            let (u, result) = gen.rvc(host.around, instr, info, context);
            simulation::mirrored(u, result, host, start, context, s, s.executed(instr, info))
        }),
{
    reveal(ExecFn::compressed_step);
    reveal(exec_compress_function::compress_set_step);
    simulation::lemma_standing(gen, host, start, s, context.instr_cnt);
    lemma_compressed_step(exec_mapping::exec_func_of(instr), s, info);
    if let RVInstrInfo::CIW { rd, imm } = info {
        let value = Width::W64.wrap(s.reg(2) + imm);
        if rd != 0 {
            effects::lemma_alu_i(
                gen,
                host,
                start,
                s.regs,
                rd,
                2,
                imm,
                AluOp::Add,
                OperandWidth::Xlen,
            );
        }
        simulation::lemma_register(
            gen,
            gen.alu_i(rd, 2, imm, AluOp::Add, OperandWidth::Xlen),
            host,
            start,
            s,
            context,
            rd,
            value,
        );
    }
}

/// A shift by an immediate.
proof fn lemma_shift_i(
    gen: GenState,
    host: Host,
    start: Machine,
    s: CpuState,
    instr: RiscvInstr,
    info: RVInstrInfo,
    context: JitInfo,
)
    requires
        mirror::is_next(gen, host, start, s, info, context),
        context.instr_len == 2,
        rvc::shift_i_of(instr) is Some,
        rvc::i_args(info) is Some,
    ensures
        ({
            let (u, result) = gen.rvc(host.around, instr, info, context);
            simulation::mirrored(u, result, host, start, context, s, s.executed(instr, info))
        }),
{
    reveal(ExecFn::compressed_step);
    reveal(exec_compress_function::compress_arith_step);
    simulation::lemma_standing(gen, host, start, s, context.instr_cnt);
    lemma_compressed_step(exec_mapping::exec_func_of(instr), s, info);
    if let Some((rd, imm)) = rvc::i_args(info) {
        let shift = rvc::shift_i_of(instr)->0;
        let value = agreement::computed(
            machine::shift_fn(shift),
            OperandWidth::Xlen,
            s.reg(rd),
            imm,
        );
        if rd != 0 {
            effects::lemma_shift_i(
                gen,
                host,
                start,
                s.regs,
                rd,
                rd,
                imm,
                shift,
                OperandWidth::Xlen,
            );
        }
        simulation::lemma_register(
            gen,
            gen.shift_i(rd, rd, imm, shift, OperandWidth::Xlen),
            host,
            start,
            s,
            context,
            rd,
            value,
        );
    }
}

/// A copy of a register.
proof fn lemma_mv(
    gen: GenState,
    host: Host,
    start: Machine,
    s: CpuState,
    instr: RiscvInstr,
    info: RVInstrInfo,
    context: JitInfo,
)
    requires
        mirror::is_next(gen, host, start, s, info, context),
        context.instr_len == 2,
        instr == RiscvInstr::C_MV,
        info is CR,
    ensures
        ({
            let (u, result) = gen.rvc(host.around, instr, info, context);
            simulation::mirrored(u, result, host, start, context, s, s.executed(instr, info))
        }),
{
    reveal(ExecFn::compressed_step);
    reveal(exec_compress_function::compress_set_step);
    simulation::lemma_standing(gen, host, start, s, context.instr_cnt);
    lemma_compressed_step(exec_mapping::exec_func_of(instr), s, info);
    if let RVInstrInfo::CR { rd_rs1, rs2 } = info {
        let value = s.reg(rs2);
        if rd_rs1 != 0 {
            effects::lemma_move_reg(gen, host, start, s.regs, rd_rs1, rs2);
        }
        simulation::lemma_register(
            gen,
            gen.move_reg(rd_rs1, rs2),
            host,
            start,
            s,
            context,
            rd_rs1,
            value,
        );
    }
}

/// An instruction that loads an immediate.
proof fn lemma_li(
    gen: GenState,
    host: Host,
    start: Machine,
    s: CpuState,
    instr: RiscvInstr,
    info: RVInstrInfo,
    context: JitInfo,
)
    requires
        mirror::is_next(gen, host, start, s, info, context),
        context.instr_len == 2,
        instr == RiscvInstr::C_LI || instr == RiscvInstr::C_LUI,
        info is CI,
    ensures
        ({
            let (u, result) = gen.rvc(host.around, instr, info, context);
            simulation::mirrored(u, result, host, start, context, s, s.executed(instr, info))
        }),
{
    reveal(ExecFn::compressed_step);
    reveal(exec_compress_function::compress_set_step);
    simulation::lemma_standing(gen, host, start, s, context.instr_cnt);
    lemma_compressed_step(exec_mapping::exec_func_of(instr), s, info);
    if let RVInstrInfo::CI { rd_rs1, imm } = info {
        let value = imm;
        if rd_rs1 != 0 {
            effects::lemma_load_imm(gen, host, start, s.regs, rd_rs1, imm);
        }
        simulation::lemma_register(
            gen,
            gen.load_imm(rd_rs1, imm),
            host,
            start,
            s,
            context,
            rd_rs1,
            value,
        );
    }
}

/// A branch.
proof fn lemma_branch(
    gen: GenState,
    host: Host,
    start: Machine,
    s: CpuState,
    instr: RiscvInstr,
    info: RVInstrInfo,
    context: JitInfo,
)
    requires
        mirror::is_next(gen, host, start, s, info, context),
        context.instr_len == 2,
        rvc::branch_of(instr) is Some,
        info is CB,
    ensures
        ({
            let (u, result) = gen.rvc(host.around, instr, info, context);
            simulation::mirrored(u, result, host, start, context, s, s.executed(instr, info))
        }),
{
    reveal(ExecFn::compressed_step);
    reveal(exec_compress_function::compress_branch_step);
    simulation::lemma_standing(gen, host, start, s, context.instr_cnt);
    lemma_compressed_step(exec_mapping::exec_func_of(instr), s, info);
    if let RVInstrInfo::CB { rd_rs1, imm } = info {
        let condition = rvc::branch_of(instr)->0;
        let target = Width::W64.wrap(s.pc + imm);
        let fallthrough = Width::W64.wrap(s.pc + 2);
        control::lemma_branch(
            gen,
            host,
            start,
            s.regs,
            rd_rs1,
            None,
            imm,
            condition,
            context,
        );
        let u = gen.branch(host.around, rd_rs1, None, imm, condition, context);
        assert(s.regs.update(0, 0) =~= s.regs);
        if alu::compared(machine::compare_fn(condition), Width::W64, s.reg(rd_rs1), 0) {
            simulation::lemma_goes(gen, u, host, start, s, context, s.regs, target);
        } else {
            simulation::lemma_goes(gen, u, host, start, s, context, s.regs, fallthrough);
        }
    }
}

/// A jump to a known address.
proof fn lemma_jump(
    gen: GenState,
    host: Host,
    start: Machine,
    s: CpuState,
    instr: RiscvInstr,
    info: RVInstrInfo,
    context: JitInfo,
)
    requires
        mirror::is_next(gen, host, start, s, info, context),
        context.instr_len == 2,
        instr == RiscvInstr::C_J || instr == RiscvInstr::C_JAL,
        info is CJ,
    ensures
        ({
            let (u, result) = gen.rvc(host.around, instr, info, context);
            simulation::mirrored(u, result, host, start, context, s, s.executed(instr, info))
        }),
{
    reveal(ExecFn::compressed_step);
    reveal(exec_compress_function::compress_jump_step);
    simulation::lemma_standing(gen, host, start, s, context.instr_cnt);
    lemma_compressed_step(exec_mapping::exec_func_of(instr), s, info);
    if let RVInstrInfo::CJ { target } = info {
        let rd = if instr == RiscvInstr::C_JAL {
            Some(1u8)
        } else {
            None
        };
        let to = Width::W64.wrap(s.pc + target);
        control::lemma_jump_imm(gen, host, start, s.regs, rd, target, context);
        mirror::lemma_linked(s, rd, context, to);
        simulation::lemma_goes(
            gen,
            gen.jump_imm(host.around, rd, target, context),
            host,
            start,
            s,
            context,
            control::linked(s.regs, rd, context),
            to,
        );
    }
}

/// A jump to an address in a register.
proof fn lemma_jump_reg(
    gen: GenState,
    host: Host,
    start: Machine,
    s: CpuState,
    instr: RiscvInstr,
    info: RVInstrInfo,
    context: JitInfo,
)
    requires
        mirror::is_next(gen, host, start, s, info, context),
        context.instr_len == 2,
        instr == RiscvInstr::C_JR || instr == RiscvInstr::C_JALR,
        info is CR,
    ensures
        ({
            let (u, result) = gen.rvc(host.around, instr, info, context);
            simulation::mirrored(u, result, host, start, context, s, s.executed(instr, info))
        }),
{
    reveal(ExecFn::compressed_step);
    reveal(exec_compress_function::compress_jump_reg_step);
    simulation::lemma_standing(gen, host, start, s, context.instr_cnt);
    lemma_compressed_step(exec_mapping::exec_func_of(instr), s, info);
    if let RVInstrInfo::CR { rd_rs1, rs2: _ } = info {
        let rd = if instr == RiscvInstr::C_JALR {
            Some(1u8)
        } else {
            None
        };
        agreement::lemma_wrap_same(s.reg(rd_rs1));
        let to = control::jump_target(s.regs, rd_rs1, 0);
        control::lemma_jump_reg(gen, host, start, s.regs, rd, rd_rs1, 0, context);
        mirror::lemma_linked(s, rd, context, to);
        simulation::lemma_goes(
            gen,
            gen.jump_reg(host.around, rd, rd_rs1, 0, context),
            host,
            start,
            s,
            context,
            control::linked(s.regs, rd, context),
            to,
        );
    }
}

/// A load.
proof fn lemma_load(
    gen: GenState,
    host: Host,
    start: Machine,
    s: CpuState,
    instr: RiscvInstr,
    info: RVInstrInfo,
    context: JitInfo,
)
    requires
        mirror::is_next(gen, host, start, s, info, context),
        context.instr_len == 2,
        rvc::load_of(instr) is Some,
        info is CL,
    ensures
        ({
            let (u, result) = gen.rvc(host.around, instr, info, context);
            simulation::mirrored(u, result, host, start, context, s, s.executed(instr, info))
        }),
{
    reveal(ExecFn::compressed_step);
    reveal(ExecFn::compressed_memory_step);
    reveal(exec_compress_function::compress_load_step);
    simulation::lemma_standing(gen, host, start, s, context.instr_cnt);
    lemma_compressed_step(exec_mapping::exec_func_of(instr), s, info);
    if let RVInstrInfo::CL { rd, rs1, imm } = info {
        let kind = rvc::load_of(instr)->0;
        simulation::lemma_load(
            gen,
            host,
            start,
            s,
            context,
            rd,
            rs1,
            imm,
            kind,
            kind == LoadKind::SignedByte || kind == LoadKind::SignedHalf || kind
                == LoadKind::SignedWord,
        );
    }
}

/// A load from the stack.
proof fn lemma_load_sp(
    gen: GenState,
    host: Host,
    start: Machine,
    s: CpuState,
    instr: RiscvInstr,
    info: RVInstrInfo,
    context: JitInfo,
)
    requires
        mirror::is_next(gen, host, start, s, info, context),
        context.instr_len == 2,
        rvc::load_sp_of(instr) is Some,
        info is CI,
    ensures
        ({
            let (u, result) = gen.rvc(host.around, instr, info, context);
            simulation::mirrored(u, result, host, start, context, s, s.executed(instr, info))
        }),
{
    reveal(ExecFn::compressed_step);
    reveal(ExecFn::compressed_memory_step);
    reveal(exec_compress_function::compress_load_step);
    simulation::lemma_standing(gen, host, start, s, context.instr_cnt);
    lemma_compressed_step(exec_mapping::exec_func_of(instr), s, info);
    if let RVInstrInfo::CI { rd_rs1, imm } = info {
        let kind = rvc::load_sp_of(instr)->0;
        simulation::lemma_load(
            gen,
            host,
            start,
            s,
            context,
            rd_rs1,
            2,
            imm,
            kind,
            kind == LoadKind::SignedByte || kind == LoadKind::SignedHalf || kind
                == LoadKind::SignedWord,
        );
    }
}

/// A store.
proof fn lemma_store(
    gen: GenState,
    host: Host,
    start: Machine,
    s: CpuState,
    instr: RiscvInstr,
    info: RVInstrInfo,
    context: JitInfo,
)
    requires
        mirror::is_next(gen, host, start, s, info, context),
        context.instr_len == 2,
        rvc::store_of(instr) is Some,
        info is CS,
    ensures
        ({
            let (u, result) = gen.rvc(host.around, instr, info, context);
            simulation::mirrored(u, result, host, start, context, s, s.executed(instr, info))
        }),
{
    reveal(ExecFn::compressed_step);
    reveal(ExecFn::compressed_memory_step);
    reveal(exec_compress_function::compress_store_step);
    simulation::lemma_standing(gen, host, start, s, context.instr_cnt);
    lemma_compressed_step(exec_mapping::exec_func_of(instr), s, info);
    if let RVInstrInfo::CS { rs1, rs2, imm } = info {
        let kind = rvc::store_of(instr)->0;
        simulation::lemma_store(gen, host, start, s, context, rs1, rs2, imm, kind);
    }
}

/// A store to the stack.
proof fn lemma_store_sp(
    gen: GenState,
    host: Host,
    start: Machine,
    s: CpuState,
    instr: RiscvInstr,
    info: RVInstrInfo,
    context: JitInfo,
)
    requires
        mirror::is_next(gen, host, start, s, info, context),
        context.instr_len == 2,
        rvc::store_sp_of(instr) is Some,
        info is CSS,
    ensures
        ({
            let (u, result) = gen.rvc(host.around, instr, info, context);
            simulation::mirrored(u, result, host, start, context, s, s.executed(instr, info))
        }),
{
    reveal(ExecFn::compressed_step);
    reveal(ExecFn::compressed_memory_step);
    reveal(exec_compress_function::compress_store_step);
    simulation::lemma_standing(gen, host, start, s, context.instr_cnt);
    lemma_compressed_step(exec_mapping::exec_func_of(instr), s, info);
    if let RVInstrInfo::CSS { rs2, imm } = info {
        let kind = rvc::store_sp_of(instr)->0;
        simulation::lemma_store(gen, host, start, s, context, 2, rs2, imm, kind);
    }
}

/// An instruction that does nothing.
proof fn lemma_nop(
    gen: GenState,
    host: Host,
    start: Machine,
    s: CpuState,
    instr: RiscvInstr,
    info: RVInstrInfo,
    context: JitInfo,
)
    requires
        mirror::is_next(gen, host, start, s, info, context),
        context.instr_len == 2,
        instr == RiscvInstr::C_NOP,
    ensures
        ({
            let (u, result) = gen.rvc(host.around, instr, info, context);
            simulation::mirrored(u, result, host, start, context, s, s.executed(instr, info))
        }),
{
    reveal(ExecFn::compressed_step);
    simulation::lemma_standing(gen, host, start, s, context.instr_cnt);
    lemma_compressed_step(exec_mapping::exec_func_of(instr), s, info);
    assert(s.regs.update(0, 0) =~= s.regs);
    simulation::lemma_register(gen, gen, host, start, s, context, 0, 0);
}

/// A compressed instruction.
pub(crate) proof fn lemma_compressed(
    gen: GenState,
    host: Host,
    start: Machine,
    s: CpuState,
    instr: RiscvInstr,
    info: RVInstrInfo,
    context: JitInfo,
)
    requires
        mirror::is_next(gen, host, start, s, info, context),
        context.instr_len == 2,
        !((instr == RiscvInstr::C_LI || instr == RiscvInstr::C_LUI) && info is CB),
        gen.rvc(host.around, instr, info, context).1 != TranslateResult::Unsupported,
    ensures
        ({
            let (u, result) = gen.rvc(host.around, instr, info, context);
            simulation::mirrored(u, result, host, start, context, s, s.executed(instr, info))
        }),
{
    if rvc::alu_r_of(instr) is Some && rvc::r_args(info) is Some {
        lemma_alu_r(gen, host, start, s, instr, info, context);
    } else if rvc::alu_i_of(instr) is Some && rvc::i_args(info) is Some {
        lemma_alu_i(gen, host, start, s, instr, info, context);
    } else if instr == RiscvInstr::C_ADDI4SPN && info is CIW {
        lemma_addi4spn(gen, host, start, s, instr, info, context);
    } else if rvc::shift_i_of(instr) is Some && rvc::i_args(info) is Some {
        lemma_shift_i(gen, host, start, s, instr, info, context);
    } else if instr == RiscvInstr::C_MV && info is CR {
        lemma_mv(gen, host, start, s, instr, info, context);
    } else if (instr == RiscvInstr::C_LI || instr == RiscvInstr::C_LUI) && info is CI {
        lemma_li(gen, host, start, s, instr, info, context);
    } else if rvc::branch_of(instr) is Some && info is CB {
        lemma_branch(gen, host, start, s, instr, info, context);
    } else if (instr == RiscvInstr::C_J || instr == RiscvInstr::C_JAL) && info is CJ {
        lemma_jump(gen, host, start, s, instr, info, context);
    } else if (instr == RiscvInstr::C_JR || instr == RiscvInstr::C_JALR) && info is CR {
        lemma_jump_reg(gen, host, start, s, instr, info, context);
    } else if rvc::load_of(instr) is Some && info is CL {
        lemma_load(gen, host, start, s, instr, info, context);
    } else if rvc::load_sp_of(instr) is Some && info is CI {
        lemma_load_sp(gen, host, start, s, instr, info, context);
    } else if rvc::store_of(instr) is Some && info is CS {
        lemma_store(gen, host, start, s, instr, info, context);
    } else if rvc::store_sp_of(instr) is Some && info is CSS {
        lemma_store_sp(gen, host, start, s, instr, info, context);
    } else if instr == RiscvInstr::C_NOP {
        lemma_nop(gen, host, start, s, instr, info, context);
    }
}

} // verus!
