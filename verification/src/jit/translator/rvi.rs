//! Translation of the base instructions.
use vstd::prelude::*;

use crate::isa::riscv::instruction::info::RVInstrInfo;
use crate::isa::riscv::instruction::instr_table::RiscvInstr;
use crate::jit::backend::x86::{AluOp, ConditionCode, ShiftOp};
use crate::jit::helpers::{LoadKind, StoreKind};
use crate::jit::jit_function::JitInfo;
use crate::utils;
use crate::utils::Width;

use super::{GenState, OperandWidth, Surroundings, TranslateResult, X86CodeGen};

verus! {

/// The operation of an instruction on two registers, whether its operands can change places, and
/// how much it works on.
pub open spec fn alu_r_of(instr: RiscvInstr) -> Option<(AluOp, bool, OperandWidth)> {
    match instr {
        RiscvInstr::ADD => Some((AluOp::Add, true, OperandWidth::Xlen)),
        RiscvInstr::SUB => Some((AluOp::Sub, false, OperandWidth::Xlen)),
        RiscvInstr::AND => Some((AluOp::And, true, OperandWidth::Xlen)),
        RiscvInstr::OR => Some((AluOp::Or, true, OperandWidth::Xlen)),
        RiscvInstr::XOR => Some((AluOp::Xor, true, OperandWidth::Xlen)),
        RiscvInstr::ADDW => Some((AluOp::Add, true, OperandWidth::Word)),
        RiscvInstr::SUBW => Some((AluOp::Sub, false, OperandWidth::Word)),
        _ => None,
    }
}

fn alu_r(instr: RiscvInstr) -> (r: Option<(AluOp, bool, OperandWidth)>)
    ensures
        r == alu_r_of(instr),
{
    match instr {
        RiscvInstr::ADD => Some((AluOp::Add, true, OperandWidth::Xlen)),
        RiscvInstr::SUB => Some((AluOp::Sub, false, OperandWidth::Xlen)),
        RiscvInstr::AND => Some((AluOp::And, true, OperandWidth::Xlen)),
        RiscvInstr::OR => Some((AluOp::Or, true, OperandWidth::Xlen)),
        RiscvInstr::XOR => Some((AluOp::Xor, true, OperandWidth::Xlen)),
        RiscvInstr::ADDW => Some((AluOp::Add, true, OperandWidth::Word)),
        RiscvInstr::SUBW => Some((AluOp::Sub, false, OperandWidth::Word)),
        _ => None,
    }
}

/// The operation of an instruction on a register and an immediate.
pub open spec fn alu_i_of(instr: RiscvInstr) -> Option<(AluOp, OperandWidth)> {
    match instr {
        RiscvInstr::ADDI => Some((AluOp::Add, OperandWidth::Xlen)),
        RiscvInstr::ANDI => Some((AluOp::And, OperandWidth::Xlen)),
        RiscvInstr::ORI => Some((AluOp::Or, OperandWidth::Xlen)),
        RiscvInstr::XORI => Some((AluOp::Xor, OperandWidth::Xlen)),
        RiscvInstr::ADDIW => Some((AluOp::Add, OperandWidth::Word)),
        _ => None,
    }
}

fn alu_i(instr: RiscvInstr) -> (r: Option<(AluOp, OperandWidth)>)
    ensures
        r == alu_i_of(instr),
{
    match instr {
        RiscvInstr::ADDI => Some((AluOp::Add, OperandWidth::Xlen)),
        RiscvInstr::ANDI => Some((AluOp::And, OperandWidth::Xlen)),
        RiscvInstr::ORI => Some((AluOp::Or, OperandWidth::Xlen)),
        RiscvInstr::XORI => Some((AluOp::Xor, OperandWidth::Xlen)),
        RiscvInstr::ADDIW => Some((AluOp::Add, OperandWidth::Word)),
        _ => None,
    }
}

/// The shift of an instruction by a register.
pub open spec fn shift_r_of(instr: RiscvInstr) -> Option<(ShiftOp, OperandWidth)> {
    match instr {
        RiscvInstr::SLL => Some((ShiftOp::SHL, OperandWidth::Xlen)),
        RiscvInstr::SRL => Some((ShiftOp::SHR, OperandWidth::Xlen)),
        RiscvInstr::SRA => Some((ShiftOp::SAR, OperandWidth::Xlen)),
        RiscvInstr::SLLW => Some((ShiftOp::SHL, OperandWidth::Word)),
        RiscvInstr::SRLW => Some((ShiftOp::SHR, OperandWidth::Word)),
        RiscvInstr::SRAW => Some((ShiftOp::SAR, OperandWidth::Word)),
        _ => None,
    }
}

fn shift_r(instr: RiscvInstr) -> (r: Option<(ShiftOp, OperandWidth)>)
    ensures
        r == shift_r_of(instr),
{
    match instr {
        RiscvInstr::SLL => Some((ShiftOp::SHL, OperandWidth::Xlen)),
        RiscvInstr::SRL => Some((ShiftOp::SHR, OperandWidth::Xlen)),
        RiscvInstr::SRA => Some((ShiftOp::SAR, OperandWidth::Xlen)),
        RiscvInstr::SLLW => Some((ShiftOp::SHL, OperandWidth::Word)),
        RiscvInstr::SRLW => Some((ShiftOp::SHR, OperandWidth::Word)),
        RiscvInstr::SRAW => Some((ShiftOp::SAR, OperandWidth::Word)),
        _ => None,
    }
}

/// The shift of an instruction by an immediate.
pub open spec fn shift_i_of(instr: RiscvInstr) -> Option<(ShiftOp, OperandWidth)> {
    match instr {
        RiscvInstr::SLLI => Some((ShiftOp::SHL, OperandWidth::Xlen)),
        RiscvInstr::SRLI => Some((ShiftOp::SHR, OperandWidth::Xlen)),
        RiscvInstr::SRAI => Some((ShiftOp::SAR, OperandWidth::Xlen)),
        RiscvInstr::SLLIW => Some((ShiftOp::SHL, OperandWidth::Word)),
        RiscvInstr::SRLIW => Some((ShiftOp::SHR, OperandWidth::Word)),
        RiscvInstr::SRAIW => Some((ShiftOp::SAR, OperandWidth::Word)),
        _ => None,
    }
}

fn shift_i(instr: RiscvInstr) -> (r: Option<(ShiftOp, OperandWidth)>)
    ensures
        r == shift_i_of(instr),
{
    match instr {
        RiscvInstr::SLLI => Some((ShiftOp::SHL, OperandWidth::Xlen)),
        RiscvInstr::SRLI => Some((ShiftOp::SHR, OperandWidth::Xlen)),
        RiscvInstr::SRAI => Some((ShiftOp::SAR, OperandWidth::Xlen)),
        RiscvInstr::SLLIW => Some((ShiftOp::SHL, OperandWidth::Word)),
        RiscvInstr::SRLIW => Some((ShiftOp::SHR, OperandWidth::Word)),
        RiscvInstr::SRAIW => Some((ShiftOp::SAR, OperandWidth::Word)),
        _ => None,
    }
}

/// The condition of a comparison of two registers.
pub open spec fn compare_r_of(instr: RiscvInstr) -> Option<ConditionCode> {
    match instr {
        RiscvInstr::SLT => Some(ConditionCode::Less),
        RiscvInstr::SLTU => Some(ConditionCode::Below),
        _ => None,
    }
}

fn compare_r(instr: RiscvInstr) -> (r: Option<ConditionCode>)
    ensures
        r == compare_r_of(instr),
{
    match instr {
        RiscvInstr::SLT => Some(ConditionCode::Less),
        RiscvInstr::SLTU => Some(ConditionCode::Below),
        _ => None,
    }
}

/// The condition of a comparison of a register and an immediate.
pub open spec fn compare_i_of(instr: RiscvInstr) -> Option<ConditionCode> {
    match instr {
        RiscvInstr::SLTI => Some(ConditionCode::Less),
        RiscvInstr::SLTIU => Some(ConditionCode::Below),
        _ => None,
    }
}

fn compare_i(instr: RiscvInstr) -> (r: Option<ConditionCode>)
    ensures
        r == compare_i_of(instr),
{
    match instr {
        RiscvInstr::SLTI => Some(ConditionCode::Less),
        RiscvInstr::SLTIU => Some(ConditionCode::Below),
        _ => None,
    }
}

/// The condition of a branch.
pub open spec fn branch_of(instr: RiscvInstr) -> Option<ConditionCode> {
    match instr {
        RiscvInstr::BEQ => Some(ConditionCode::Equal),
        RiscvInstr::BNE => Some(ConditionCode::NotEqual),
        RiscvInstr::BLT => Some(ConditionCode::Less),
        RiscvInstr::BGE => Some(ConditionCode::GreaterOrEqual),
        RiscvInstr::BLTU => Some(ConditionCode::Below),
        RiscvInstr::BGEU => Some(ConditionCode::AboveOrEqual),
        _ => None,
    }
}

fn branch(instr: RiscvInstr) -> (r: Option<ConditionCode>)
    ensures
        r == branch_of(instr),
{
    match instr {
        RiscvInstr::BEQ => Some(ConditionCode::Equal),
        RiscvInstr::BNE => Some(ConditionCode::NotEqual),
        RiscvInstr::BLT => Some(ConditionCode::Less),
        RiscvInstr::BGE => Some(ConditionCode::GreaterOrEqual),
        RiscvInstr::BLTU => Some(ConditionCode::Below),
        RiscvInstr::BGEU => Some(ConditionCode::AboveOrEqual),
        _ => None,
    }
}

/// The kind of a load.
pub open spec fn load_of(instr: RiscvInstr) -> Option<LoadKind> {
    match instr {
        RiscvInstr::LB => Some(LoadKind::SignedByte),
        RiscvInstr::LBU => Some(LoadKind::UnsignedByte),
        RiscvInstr::LH => Some(LoadKind::SignedHalf),
        RiscvInstr::LHU => Some(LoadKind::UnsignedHalf),
        RiscvInstr::LW => Some(LoadKind::SignedWord),
        RiscvInstr::LWU => Some(LoadKind::UnsignedWord),
        RiscvInstr::LD => Some(LoadKind::DoubleWord),
        _ => None,
    }
}

fn load(instr: RiscvInstr) -> (r: Option<LoadKind>)
    ensures
        r == load_of(instr),
{
    match instr {
        RiscvInstr::LB => Some(LoadKind::SignedByte),
        RiscvInstr::LBU => Some(LoadKind::UnsignedByte),
        RiscvInstr::LH => Some(LoadKind::SignedHalf),
        RiscvInstr::LHU => Some(LoadKind::UnsignedHalf),
        RiscvInstr::LW => Some(LoadKind::SignedWord),
        RiscvInstr::LWU => Some(LoadKind::UnsignedWord),
        RiscvInstr::LD => Some(LoadKind::DoubleWord),
        _ => None,
    }
}

/// The kind of a store.
pub open spec fn store_of(instr: RiscvInstr) -> Option<StoreKind> {
    match instr {
        RiscvInstr::SB => Some(StoreKind::Byte),
        RiscvInstr::SH => Some(StoreKind::Half),
        RiscvInstr::SW => Some(StoreKind::Word),
        RiscvInstr::SD => Some(StoreKind::DoubleWord),
        _ => None,
    }
}

fn store(instr: RiscvInstr) -> (r: Option<StoreKind>)
    ensures
        r == store_of(instr),
{
    match instr {
        RiscvInstr::SB => Some(StoreKind::Byte),
        RiscvInstr::SH => Some(StoreKind::Half),
        RiscvInstr::SW => Some(StoreKind::Word),
        RiscvInstr::SD => Some(StoreKind::DoubleWord),
        _ => None,
    }
}

impl GenState {
    /// The code of a base instruction, and how the block goes on.
    pub open spec fn rvi(
        self,
        around: Surroundings,
        instr: RiscvInstr,
        info: RVInstrInfo,
        context: JitInfo,
    ) -> (GenState, TranslateResult) {
        if let (Some((op, commutative, width)), RVInstrInfo::R { rs1, rs2, rd }) = (alu_r_of(instr), info) {
            (self.alu_r(rd, rs1, rs2, op, commutative, width), TranslateResult::Continue)
        } else if let (Some((op, width)), RVInstrInfo::I { rs1, rd, imm }) = (alu_i_of(instr), info) {
            (self.alu_i(rd, rs1, imm, op, width), TranslateResult::Continue)
        } else if let (Some((shift, width)), RVInstrInfo::R { rs1, rs2, rd }) = (shift_r_of(instr), info) {
            (self.shift_r(rd, rs1, rs2, shift, width), TranslateResult::Continue)
        } else if let (Some((shift, width)), RVInstrInfo::I { rs1, rd, imm }) = (shift_i_of(instr), info) {
            (self.shift_i(rd, rs1, imm, shift, width), TranslateResult::Continue)
        } else if let (Some(condition), RVInstrInfo::R { rs1, rs2, rd }) = (compare_r_of(instr), info) {
            (self.compare_r(rd, rs1, rs2, condition), TranslateResult::Continue)
        } else if let (Some(condition), RVInstrInfo::I { rs1, rd, imm }) = (compare_i_of(instr), info) {
            (self.compare_i(rd, rs1, imm, condition), TranslateResult::Continue)
        } else if let (Some(condition), RVInstrInfo::B { rs1, rs2, imm }) = (branch_of(instr), info) {
            (
                self.branch(around, rs1, Some(rs2), imm, condition, context),
                TranslateResult::ControlFlow,
            )
        } else if let (true, RVInstrInfo::J { rd, imm }) = (instr == RiscvInstr::JAL, info) {
            (self.jump_imm(around, Some(rd), imm, context), TranslateResult::ControlFlow)
        } else if let (true, RVInstrInfo::I { rs1, rd, imm }) = (instr == RiscvInstr::JALR, info) {
            (self.jump_reg(around, Some(rd), rs1, imm, context), TranslateResult::ControlFlow)
        } else if let (true, RVInstrInfo::U { rd, imm }) = (instr == RiscvInstr::LUI, info) {
            (self.load_imm(rd, imm), TranslateResult::Continue)
        } else if let (true, RVInstrInfo::U { rd, imm }) = (instr == RiscvInstr::AUIPC, info) {
            (self.load_imm(rd, Width::W64.wrap(context.instr_pc + imm)), TranslateResult::Continue)
        } else if let (Some(kind), RVInstrInfo::I { rs1, rd, imm }) = (load_of(instr), info) {
            (self.load(around, rd, rs1, imm, kind, context), TranslateResult::Continue)
        } else if let (Some(kind), RVInstrInfo::S { rs1, rs2, imm }) = (store_of(instr), info) {
            (self.store(around, rs1, rs2, imm, kind, context), TranslateResult::Continue)
        } else {
            (self, TranslateResult::Unsupported)
        }
    }
}

impl X86CodeGen {
    /// The code of a base instruction, and how the block goes on.
    pub fn translate_rvi(&mut self, instr: RiscvInstr, info: RVInstrInfo, context: JitInfo) -> (r:
        TranslateResult)
        requires
            old(self).wf(),
            old(self)@.idle(),
            info.regs_ok(),
        ensures
            final(self).wf(),
            final(self)@.code.len() <= old(self)@.code.len() + super::CODE_PER_INSTR,
            final(self)@.idle(),
            final(self).around == old(self).around,
            final(self)@ == old(self)@.rvi(old(self).around, instr, info, context).0,
            r == old(self)@.rvi(old(self).around, instr, info, context).1,
    {
        if let (Some((op, commutative, width)), RVInstrInfo::R { rs1, rs2, rd }) = (alu_r(instr), info) {
            self.translate_alu_r(rd, rs1, rs2, op, commutative, width);
            return TranslateResult::Continue;
        }
        if let (Some((op, width)), RVInstrInfo::I { rs1, rd, imm }) = (alu_i(instr), info) {
            self.translate_alu_i(rd, rs1, imm, op, width);
            return TranslateResult::Continue;
        }
        if let (Some((shift, width)), RVInstrInfo::R { rs1, rs2, rd }) = (shift_r(instr), info) {
            self.translate_shift_r(rd, rs1, rs2, shift, width);
            return TranslateResult::Continue;
        }
        if let (Some((shift, width)), RVInstrInfo::I { rs1, rd, imm }) = (shift_i(instr), info) {
            self.translate_shift_i(rd, rs1, imm, shift, width);
            return TranslateResult::Continue;
        }
        if let (Some(condition), RVInstrInfo::R { rs1, rs2, rd }) = (compare_r(instr), info) {
            self.translate_compare_r(rd, rs1, rs2, condition);
            return TranslateResult::Continue;
        }
        if let (Some(condition), RVInstrInfo::I { rs1, rd, imm }) = (compare_i(instr), info) {
            self.translate_compare_i(rd, rs1, imm, condition);
            return TranslateResult::Continue;
        }
        if let (Some(condition), RVInstrInfo::B { rs1, rs2, imm }) = (branch(instr), info) {
            self.translate_branch(rs1, Some(rs2), imm, condition, context);
            return TranslateResult::ControlFlow;
        }
        if let (true, RVInstrInfo::J { rd, imm }) = (instr == RiscvInstr::JAL, info) {
            self.translate_jump_imm(Some(rd), imm, context);
            return TranslateResult::ControlFlow;
        }
        if let (true, RVInstrInfo::I { rs1, rd, imm }) = (instr == RiscvInstr::JALR, info) {
            self.translate_jump_reg(Some(rd), rs1, imm, context);
            return TranslateResult::ControlFlow;
        }
        if let (true, RVInstrInfo::U { rd, imm }) = (instr == RiscvInstr::LUI, info) {
            self.translate_load_imm(rd, imm);
            return TranslateResult::Continue;
        }
        if let (true, RVInstrInfo::U { rd, imm }) = (instr == RiscvInstr::AUIPC, info) {
            self.translate_load_imm(rd, utils::add64(context.instr_pc, imm));
            return TranslateResult::Continue;
        }
        if let (Some(kind), RVInstrInfo::I { rs1, rd, imm }) = (load(instr), info) {
            self.translate_load(rd, rs1, imm, kind, context);
            return TranslateResult::Continue;
        }
        if let (Some(kind), RVInstrInfo::S { rs1, rs2, imm }) = (store(instr), info) {
            self.translate_store(rs1, rs2, imm, kind, context);
            return TranslateResult::Continue;
        }
        TranslateResult::Unsupported
    }
}

} // verus!
