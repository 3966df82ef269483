//! Translation of the compressed instructions.
use vstd::prelude::*;

use crate::isa::riscv::instruction::info::RVInstrInfo;
use crate::isa::riscv::instruction::instr_table::RiscvInstr;
use crate::jit::backend::x86::{AluOp, ConditionCode, ShiftOp};
use crate::jit::helpers::{LoadKind, StoreKind};
use crate::jit::jit_function::JitInfo;


use super::{GenState, OperandWidth, Surroundings, TranslateResult, X86CodeGen};

verus! {

/// The operation of an instruction on two registers, whether its operands can change places, and
/// how much it works on.
pub open spec fn alu_r_of(instr: RiscvInstr) -> Option<(AluOp, bool, OperandWidth)> {
    match instr {
        RiscvInstr::C_ADD => Some((AluOp::Add, true, OperandWidth::Xlen)),
        RiscvInstr::C_SUB => Some((AluOp::Sub, false, OperandWidth::Xlen)),
        RiscvInstr::C_AND => Some((AluOp::And, true, OperandWidth::Xlen)),
        RiscvInstr::C_OR => Some((AluOp::Or, true, OperandWidth::Xlen)),
        RiscvInstr::C_XOR => Some((AluOp::Xor, true, OperandWidth::Xlen)),
        RiscvInstr::C_ADDW => Some((AluOp::Add, true, OperandWidth::Word)),
        RiscvInstr::C_SUBW => Some((AluOp::Sub, false, OperandWidth::Word)),
        _ => None,
    }
}

fn alu_r(instr: RiscvInstr) -> (r: Option<(AluOp, bool, OperandWidth)>)
    ensures
        r == alu_r_of(instr),
{
    match instr {
        RiscvInstr::C_ADD => Some((AluOp::Add, true, OperandWidth::Xlen)),
        RiscvInstr::C_SUB => Some((AluOp::Sub, false, OperandWidth::Xlen)),
        RiscvInstr::C_AND => Some((AluOp::And, true, OperandWidth::Xlen)),
        RiscvInstr::C_OR => Some((AluOp::Or, true, OperandWidth::Xlen)),
        RiscvInstr::C_XOR => Some((AluOp::Xor, true, OperandWidth::Xlen)),
        RiscvInstr::C_ADDW => Some((AluOp::Add, true, OperandWidth::Word)),
        RiscvInstr::C_SUBW => Some((AluOp::Sub, false, OperandWidth::Word)),
        _ => None,
    }
}

/// The operation of an instruction on a register and an immediate.
pub open spec fn alu_i_of(instr: RiscvInstr) -> Option<(AluOp, OperandWidth)> {
    match instr {
        RiscvInstr::C_ADDI => Some((AluOp::Add, OperandWidth::Xlen)),
        RiscvInstr::C_ADDI16SP => Some((AluOp::Add, OperandWidth::Xlen)),
        RiscvInstr::C_ANDI => Some((AluOp::And, OperandWidth::Xlen)),
        RiscvInstr::C_ADDIW => Some((AluOp::Add, OperandWidth::Word)),
        _ => None,
    }
}

fn alu_i(instr: RiscvInstr) -> (r: Option<(AluOp, OperandWidth)>)
    ensures
        r == alu_i_of(instr),
{
    match instr {
        RiscvInstr::C_ADDI => Some((AluOp::Add, OperandWidth::Xlen)),
        RiscvInstr::C_ADDI16SP => Some((AluOp::Add, OperandWidth::Xlen)),
        RiscvInstr::C_ANDI => Some((AluOp::And, OperandWidth::Xlen)),
        RiscvInstr::C_ADDIW => Some((AluOp::Add, OperandWidth::Word)),
        _ => None,
    }
}

/// The shift of an instruction by an immediate.
pub open spec fn shift_i_of(instr: RiscvInstr) -> Option<ShiftOp> {
    match instr {
        RiscvInstr::C_SLLI => Some(ShiftOp::SHL),
        RiscvInstr::C_SRLI => Some(ShiftOp::SHR),
        RiscvInstr::C_SRAI => Some(ShiftOp::SAR),
        _ => None,
    }
}

fn shift_i(instr: RiscvInstr) -> (r: Option<ShiftOp>)
    ensures
        r == shift_i_of(instr),
{
    match instr {
        RiscvInstr::C_SLLI => Some(ShiftOp::SHL),
        RiscvInstr::C_SRLI => Some(ShiftOp::SHR),
        RiscvInstr::C_SRAI => Some(ShiftOp::SAR),
        _ => None,
    }
}

/// The condition of a branch.
pub open spec fn branch_of(instr: RiscvInstr) -> Option<ConditionCode> {
    match instr {
        RiscvInstr::C_BEQZ => Some(ConditionCode::Equal),
        RiscvInstr::C_BNEZ => Some(ConditionCode::NotEqual),
        _ => None,
    }
}

fn branch(instr: RiscvInstr) -> (r: Option<ConditionCode>)
    ensures
        r == branch_of(instr),
{
    match instr {
        RiscvInstr::C_BEQZ => Some(ConditionCode::Equal),
        RiscvInstr::C_BNEZ => Some(ConditionCode::NotEqual),
        _ => None,
    }
}

/// The kind of a load.
pub open spec fn load_of(instr: RiscvInstr) -> Option<LoadKind> {
    match instr {
        RiscvInstr::C_LW => Some(LoadKind::SignedWord),
        RiscvInstr::C_LD => Some(LoadKind::DoubleWord),
        _ => None,
    }
}

fn load(instr: RiscvInstr) -> (r: Option<LoadKind>)
    ensures
        r == load_of(instr),
{
    match instr {
        RiscvInstr::C_LW => Some(LoadKind::SignedWord),
        RiscvInstr::C_LD => Some(LoadKind::DoubleWord),
        _ => None,
    }
}

/// The kind of a load from the stack.
pub open spec fn load_sp_of(instr: RiscvInstr) -> Option<LoadKind> {
    match instr {
        RiscvInstr::C_LWSP => Some(LoadKind::SignedWord),
        RiscvInstr::C_LDSP => Some(LoadKind::DoubleWord),
        _ => None,
    }
}

fn load_sp(instr: RiscvInstr) -> (r: Option<LoadKind>)
    ensures
        r == load_sp_of(instr),
{
    match instr {
        RiscvInstr::C_LWSP => Some(LoadKind::SignedWord),
        RiscvInstr::C_LDSP => Some(LoadKind::DoubleWord),
        _ => None,
    }
}

/// The kind of a store.
pub open spec fn store_of(instr: RiscvInstr) -> Option<StoreKind> {
    match instr {
        RiscvInstr::C_SW => Some(StoreKind::Word),
        RiscvInstr::C_SD => Some(StoreKind::DoubleWord),
        _ => None,
    }
}

fn store(instr: RiscvInstr) -> (r: Option<StoreKind>)
    ensures
        r == store_of(instr),
{
    match instr {
        RiscvInstr::C_SW => Some(StoreKind::Word),
        RiscvInstr::C_SD => Some(StoreKind::DoubleWord),
        _ => None,
    }
}

/// The kind of a store to the stack.
pub open spec fn store_sp_of(instr: RiscvInstr) -> Option<StoreKind> {
    match instr {
        RiscvInstr::C_SWSP => Some(StoreKind::Word),
        RiscvInstr::C_SDSP => Some(StoreKind::DoubleWord),
        _ => None,
    }
}

fn store_sp(instr: RiscvInstr) -> (r: Option<StoreKind>)
    ensures
        r == store_sp_of(instr),
{
    match instr {
        RiscvInstr::C_SWSP => Some(StoreKind::Word),
        RiscvInstr::C_SDSP => Some(StoreKind::DoubleWord),
        _ => None,
    }
}

/// The registers of an instruction on two registers.
pub open spec fn r_args(info: RVInstrInfo) -> Option<(u8, u8)> {
    match info {
        RVInstrInfo::CR { rd_rs1, rs2 } => Some((rd_rs1, rs2)),
        RVInstrInfo::CA { rd_rs1, rs2 } => Some((rd_rs1, rs2)),
        _ => None,
    }
}

fn compressed_r_args(info: RVInstrInfo) -> (r: Option<(u8, u8)>)
    ensures
        r == r_args(info),
{
    match info {
        RVInstrInfo::CR { rd_rs1, rs2 } => Some((rd_rs1, rs2)),
        RVInstrInfo::CA { rd_rs1, rs2 } => Some((rd_rs1, rs2)),
        _ => None,
    }
}

/// The register and the immediate of an instruction on both.
pub open spec fn i_args(info: RVInstrInfo) -> Option<(u8, u64)> {
    match info {
        RVInstrInfo::CI { rd_rs1, imm } => Some((rd_rs1, imm)),
        RVInstrInfo::CB { rd_rs1, imm } => Some((rd_rs1, imm)),
        _ => None,
    }
}

fn compressed_i_args(info: RVInstrInfo) -> (r: Option<(u8, u64)>)
    ensures
        r == i_args(info),
{
    match info {
        RVInstrInfo::CI { rd_rs1, imm } => Some((rd_rs1, imm)),
        RVInstrInfo::CB { rd_rs1, imm } => Some((rd_rs1, imm)),
        _ => None,
    }
}

impl GenState {
    /// The code of a compressed instruction, and how the block goes on.
    pub open spec fn rvc(
        self,
        around: Surroundings,
        instr: RiscvInstr,
        info: RVInstrInfo,
        context: JitInfo,
    ) -> (GenState, TranslateResult) {
        if let (Some((op, commutative, width)), Some((rd, rs2))) = (alu_r_of(instr), r_args(info)) {
            (self.alu_r(rd, rd, rs2, op, commutative, width), TranslateResult::Continue)
        } else if let (Some((op, width)), Some((rd, imm))) = (alu_i_of(instr), i_args(info)) {
            (self.alu_i(rd, rd, imm, op, width), TranslateResult::Continue)
        } else if let (true, RVInstrInfo::CIW { rd, imm }) = (instr == RiscvInstr::C_ADDI4SPN, info) {
            (self.alu_i(rd, 2, imm, AluOp::Add, OperandWidth::Xlen), TranslateResult::Continue)
        } else if let (Some(shift), Some((rd, imm))) = (shift_i_of(instr), i_args(info)) {
            (self.shift_i(rd, rd, imm, shift, OperandWidth::Xlen), TranslateResult::Continue)
        } else if let (true, RVInstrInfo::CR { rd_rs1, rs2 }) = (instr == RiscvInstr::C_MV, info) {
            (self.move_reg(rd_rs1, rs2), TranslateResult::Continue)
        } else if let (true, Some((rd, imm))) = (instr == RiscvInstr::C_LI || instr == RiscvInstr::C_LUI, i_args(info)) {
            (self.load_imm(rd, imm), TranslateResult::Continue)
        } else if let (Some(condition), RVInstrInfo::CB { rd_rs1, imm }) = (branch_of(instr), info) {
            (
                self.branch(around, rd_rs1, None, imm, condition, context),
                TranslateResult::ControlFlow,
            )
        } else if let (true, RVInstrInfo::CJ { target }) = (instr == RiscvInstr::C_J, info) {
            (self.jump_imm(around, None, target, context), TranslateResult::ControlFlow)
        } else if let (true, RVInstrInfo::CJ { target }) = (instr == RiscvInstr::C_JAL, info) {
            (self.jump_imm(around, Some(1), target, context), TranslateResult::ControlFlow)
        } else if let (true, RVInstrInfo::CR { rd_rs1, .. }) = (instr == RiscvInstr::C_JR, info) {
            (self.jump_reg(around, None, rd_rs1, 0, context), TranslateResult::ControlFlow)
        } else if let (true, RVInstrInfo::CR { rd_rs1, .. }) = (instr == RiscvInstr::C_JALR, info) {
            (self.jump_reg(around, Some(1), rd_rs1, 0, context), TranslateResult::ControlFlow)
        } else if let (Some(kind), RVInstrInfo::CL { rd, rs1, imm }) = (load_of(instr), info) {
            (self.load(around, rd, rs1, imm, kind, context), TranslateResult::Continue)
        } else if let (Some(kind), RVInstrInfo::CI { rd_rs1, imm }) = (load_sp_of(instr), info) {
            (self.load(around, rd_rs1, 2, imm, kind, context), TranslateResult::Continue)
        } else if let (Some(kind), RVInstrInfo::CS { rs1, rs2, imm }) = (store_of(instr), info) {
            (self.store(around, rs1, rs2, imm, kind, context), TranslateResult::Continue)
        } else if let (Some(kind), RVInstrInfo::CSS { rs2, imm }) = (store_sp_of(instr), info) {
            (self.store(around, 2, rs2, imm, kind, context), TranslateResult::Continue)
        } else if instr == RiscvInstr::C_NOP {
            (self, TranslateResult::Continue)
        } else {
            (self, TranslateResult::Unsupported)
        }
    }
}

impl X86CodeGen {
    /// The code of a compressed instruction, and how the block goes on.
    pub fn translate_rvc(&mut self, instr: RiscvInstr, info: RVInstrInfo, context: JitInfo) -> (r:
        TranslateResult)
        requires
            old(self).wf(),
            old(self)@.idle(),
            info.regs_ok(),
        ensures
            final(self).wf(),
            final(self)@.code.len() <= old(self)@.code.len() + super::CODE_PER_INSTR,
            final(self)@.idle(),
            final(self).around == old(self).around,
            final(self)@ == old(self)@.rvc(old(self).around, instr, info, context).0,
            r == old(self)@.rvc(old(self).around, instr, info, context).1,
    {
        if let (Some((op, commutative, width)), Some((rd, rs2))) = (alu_r(instr), compressed_r_args(info)) {
            self.translate_alu_r(rd, rd, rs2, op, commutative, width);
            return TranslateResult::Continue;
        }
        if let (Some((op, width)), Some((rd, imm))) = (alu_i(instr), compressed_i_args(info)) {
            self.translate_alu_i(rd, rd, imm, op, width);
            return TranslateResult::Continue;
        }
        if let (true, RVInstrInfo::CIW { rd, imm }) = (instr == RiscvInstr::C_ADDI4SPN, info) {
            self.translate_alu_i(rd, 2, imm, AluOp::Add, OperandWidth::Xlen);
            return TranslateResult::Continue;
        }
        if let (Some(shift), Some((rd, imm))) = (shift_i(instr), compressed_i_args(info)) {
            self.translate_shift_i(rd, rd, imm, shift, OperandWidth::Xlen);
            return TranslateResult::Continue;
        }
        if let (true, RVInstrInfo::CR { rd_rs1, rs2 }) = (instr == RiscvInstr::C_MV, info) {
            self.translate_move(rd_rs1, rs2);
            return TranslateResult::Continue;
        }
        if let (true, Some((rd, imm))) = (instr == RiscvInstr::C_LI || instr == RiscvInstr::C_LUI, compressed_i_args(info)) {
            self.translate_load_imm(rd, imm);
            return TranslateResult::Continue;
        }
        if let (Some(condition), RVInstrInfo::CB { rd_rs1, imm }) = (branch(instr), info) {
            self.translate_branch(rd_rs1, None, imm, condition, context);
            return TranslateResult::ControlFlow;
        }
        if let (true, RVInstrInfo::CJ { target }) = (instr == RiscvInstr::C_J, info) {
            self.translate_jump_imm(None, target, context);
            return TranslateResult::ControlFlow;
        }
        if let (true, RVInstrInfo::CJ { target }) = (instr == RiscvInstr::C_JAL, info) {
            self.translate_jump_imm(Some(1), target, context);
            return TranslateResult::ControlFlow;
        }
        if let (true, RVInstrInfo::CR { rd_rs1, .. }) = (instr == RiscvInstr::C_JR, info) {
            self.translate_jump_reg(None, rd_rs1, 0, context);
            return TranslateResult::ControlFlow;
        }
        if let (true, RVInstrInfo::CR { rd_rs1, .. }) = (instr == RiscvInstr::C_JALR, info) {
            self.translate_jump_reg(Some(1), rd_rs1, 0, context);
            return TranslateResult::ControlFlow;
        }
        if let (Some(kind), RVInstrInfo::CL { rd, rs1, imm }) = (load(instr), info) {
            self.translate_load(rd, rs1, imm, kind, context);
            return TranslateResult::Continue;
        }
        if let (Some(kind), RVInstrInfo::CI { rd_rs1, imm }) = (load_sp(instr), info) {
            self.translate_load(rd_rs1, 2, imm, kind, context);
            return TranslateResult::Continue;
        }
        if let (Some(kind), RVInstrInfo::CS { rs1, rs2, imm }) = (store(instr), info) {
            self.translate_store(rs1, rs2, imm, kind, context);
            return TranslateResult::Continue;
        }
        if let (Some(kind), RVInstrInfo::CSS { rs2, imm }) = (store_sp(instr), info) {
            self.translate_store(2, rs2, imm, kind, context);
            return TranslateResult::Continue;
        }
        if instr == RiscvInstr::C_NOP {
            return TranslateResult::Continue;
        }
        TranslateResult::Unsupported
    }
}

} // verus!
