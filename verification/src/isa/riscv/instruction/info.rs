//! The operands of a decoded instruction.
use vstd::prelude::*;

use crate::utils;

verus! {

/// The operands of a decoded instruction. An immediate has been shifted and sign-extended.
#[allow(non_camel_case_types)]
#[allow(inconsistent_fields)]
#[derive(Debug, Clone, Copy, PartialEq, Eq, Structural)]
pub enum RVInstrInfo {
    NoOperands,
    R { rs1: u8, rs2: u8, rd: u8 },
    R_rm { rs1: u8, rs2: u8, rd: u8, rm: u8 },
    R4_rm { rs1: u8, rs2: u8, rs3: u8, rd: u8, rm: u8 },
    I { rs1: u8, rd: u8, imm: u64 },
    S { rs1: u8, rs2: u8, imm: u64 },
    B { rs1: u8, rs2: u8, imm: u64 },
    U { rd: u8, imm: u64 },
    J { rd: u8, imm: u64 },
    A { rs1: u8, rs2: u8, rd: u8, rl: bool, aq: bool },
    V { rs1: u8, rs2: u8, rd: u8, vm: bool, func6: u8 },
    CR { rd_rs1: u8, rs2: u8 },
    CI { rd_rs1: u8, imm: u64 },
    CSS { rs2: u8, imm: u64 },
    CIW { rd: u8, imm: u64 },
    CL { rd: u8, rs1: u8, imm: u64 },
    CS { rs1: u8, rs2: u8, imm: u64 },
    CA { rd_rs1: u8, rs2: u8 },
    CB { rd_rs1: u8, imm: u64 },
    CJ { target: u64 },
}

/// How the operands of an instruction are encoded.
#[allow(non_camel_case_types)]
#[derive(Debug, Clone, Copy, PartialEq, Eq, Structural)]
pub enum InstrFormat {
    NoOperands,
    R,
    R_rm,
    R4_rm,
    I,
    S,
    B,
    U,
    J,
    A,
    V,
    CI,
    CIW,
    CA,
    CB,
    CJ,
    CL,
    CR,
    CS,
    CSS,
}

impl RVInstrInfo {
    /// The format that the operands have.
    pub open spec fn spec_format(self) -> InstrFormat {
        match self {
            RVInstrInfo::NoOperands => InstrFormat::NoOperands,
            RVInstrInfo::R { .. } => InstrFormat::R,
            RVInstrInfo::R_rm { .. } => InstrFormat::R_rm,
            RVInstrInfo::R4_rm { .. } => InstrFormat::R4_rm,
            RVInstrInfo::I { .. } => InstrFormat::I,
            RVInstrInfo::S { .. } => InstrFormat::S,
            RVInstrInfo::B { .. } => InstrFormat::B,
            RVInstrInfo::U { .. } => InstrFormat::U,
            RVInstrInfo::J { .. } => InstrFormat::J,
            RVInstrInfo::A { .. } => InstrFormat::A,
            RVInstrInfo::V { .. } => InstrFormat::V,
            RVInstrInfo::CR { .. } => InstrFormat::CR,
            RVInstrInfo::CI { .. } => InstrFormat::CI,
            RVInstrInfo::CSS { .. } => InstrFormat::CSS,
            RVInstrInfo::CIW { .. } => InstrFormat::CIW,
            RVInstrInfo::CL { .. } => InstrFormat::CL,
            RVInstrInfo::CS { .. } => InstrFormat::CS,
            RVInstrInfo::CA { .. } => InstrFormat::CA,
            RVInstrInfo::CB { .. } => InstrFormat::CB,
            RVInstrInfo::CJ { .. } => InstrFormat::CJ,
        }
    }

    /// Whether every register that the operands name exists.
    pub open spec fn regs_ok(self) -> bool {
        match self {
            RVInstrInfo::NoOperands => true,
            RVInstrInfo::R { rs1, rs2, rd } => rs1 < 32 && rs2 < 32 && rd < 32,
            RVInstrInfo::R_rm { rs1, rs2, rd, .. } => rs1 < 32 && rs2 < 32 && rd < 32,
            RVInstrInfo::R4_rm { rs1, rs2, rs3, rd, .. } => rs1 < 32 && rs2 < 32 && rs3 < 32
                && rd < 32,
            RVInstrInfo::I { rs1, rd, .. } => rs1 < 32 && rd < 32,
            RVInstrInfo::S { rs1, rs2, .. } => rs1 < 32 && rs2 < 32,
            RVInstrInfo::B { rs1, rs2, .. } => rs1 < 32 && rs2 < 32,
            RVInstrInfo::U { rd, .. } => rd < 32,
            RVInstrInfo::J { rd, .. } => rd < 32,
            RVInstrInfo::A { rs1, rs2, rd, .. } => rs1 < 32 && rs2 < 32 && rd < 32,
            RVInstrInfo::V { rs1, rs2, rd, func6, .. } => rs1 < 32 && rs2 < 32 && rd < 32 && func6
                < 64,
            RVInstrInfo::CR { rd_rs1, rs2 } => rd_rs1 < 32 && rs2 < 32,
            RVInstrInfo::CI { rd_rs1, .. } => rd_rs1 < 32,
            RVInstrInfo::CSS { rs2, .. } => rs2 < 32,
            RVInstrInfo::CIW { rd, .. } => rd < 32,
            RVInstrInfo::CL { rd, rs1, .. } => rd < 32 && rs1 < 32,
            RVInstrInfo::CS { rs1, rs2, .. } => rs1 < 32 && rs2 < 32,
            RVInstrInfo::CA { rd_rs1, rs2 } => rd_rs1 < 32 && rs2 < 32,
            RVInstrInfo::CB { rd_rs1, .. } => rd_rs1 < 32,
            RVInstrInfo::CJ { .. } => true,
        }
    }

    /// Whether the immediate is the sign-extension of 32 bits.
    pub open spec fn imm_ok(self) -> bool {
        match self {
            RVInstrInfo::I { imm, .. } => utils::is_word(imm),
            RVInstrInfo::S { imm, .. } => utils::is_word(imm),
            RVInstrInfo::B { imm, .. } => utils::is_word(imm),
            RVInstrInfo::U { imm, .. } => utils::is_word(imm),
            RVInstrInfo::J { imm, .. } => utils::is_word(imm),
            RVInstrInfo::CI { imm, .. } => utils::is_word(imm),
            RVInstrInfo::CSS { imm, .. } => utils::is_word(imm),
            RVInstrInfo::CIW { imm, .. } => utils::is_word(imm),
            RVInstrInfo::CL { imm, .. } => utils::is_word(imm),
            RVInstrInfo::CS { imm, .. } => utils::is_word(imm),
            RVInstrInfo::CB { imm, .. } => utils::is_word(imm),
            RVInstrInfo::CJ { target } => utils::is_word(target),
            _ => true,
        }
    }

    /// The format that the operands have.
    pub fn format(&self) -> (r: InstrFormat)
        ensures
            r == self.spec_format(),
    {
        match *self {
            RVInstrInfo::NoOperands => InstrFormat::NoOperands,
            RVInstrInfo::R { .. } => InstrFormat::R,
            RVInstrInfo::R_rm { .. } => InstrFormat::R_rm,
            RVInstrInfo::R4_rm { .. } => InstrFormat::R4_rm,
            RVInstrInfo::I { .. } => InstrFormat::I,
            RVInstrInfo::S { .. } => InstrFormat::S,
            RVInstrInfo::B { .. } => InstrFormat::B,
            RVInstrInfo::U { .. } => InstrFormat::U,
            RVInstrInfo::J { .. } => InstrFormat::J,
            RVInstrInfo::A { .. } => InstrFormat::A,
            RVInstrInfo::V { .. } => InstrFormat::V,
            RVInstrInfo::CR { .. } => InstrFormat::CR,
            RVInstrInfo::CI { .. } => InstrFormat::CI,
            RVInstrInfo::CSS { .. } => InstrFormat::CSS,
            RVInstrInfo::CIW { .. } => InstrFormat::CIW,
            RVInstrInfo::CL { .. } => InstrFormat::CL,
            RVInstrInfo::CS { .. } => InstrFormat::CS,
            RVInstrInfo::CA { .. } => InstrFormat::CA,
            RVInstrInfo::CB { .. } => InstrFormat::CB,
            RVInstrInfo::CJ { .. } => InstrFormat::CJ,
        }
    }

    /// Whether every register that the operands name exists.
    pub fn check_regs(&self) -> (r: bool)
        ensures
            r == self.regs_ok(),
    {
        match *self {
            RVInstrInfo::NoOperands => true,
            RVInstrInfo::R { rs1, rs2, rd } => rs1 < 32 && rs2 < 32 && rd < 32,
            RVInstrInfo::R_rm { rs1, rs2, rd, rm: _ } => rs1 < 32 && rs2 < 32 && rd < 32,
            RVInstrInfo::R4_rm { rs1, rs2, rs3, rd, rm: _ } => rs1 < 32 && rs2 < 32 && rs3 < 32
                && rd < 32,
            RVInstrInfo::I { rs1, rd, imm: _ } => rs1 < 32 && rd < 32,
            RVInstrInfo::S { rs1, rs2, imm: _ } => rs1 < 32 && rs2 < 32,
            RVInstrInfo::B { rs1, rs2, imm: _ } => rs1 < 32 && rs2 < 32,
            RVInstrInfo::U { rd, imm: _ } => rd < 32,
            RVInstrInfo::J { rd, imm: _ } => rd < 32,
            RVInstrInfo::A { rs1, rs2, rd, rl: _, aq: _ } => rs1 < 32 && rs2 < 32 && rd < 32,
            RVInstrInfo::V { rs1, rs2, rd, vm: _, func6 } => rs1 < 32 && rs2 < 32 && rd < 32
                && func6 < 64,
            RVInstrInfo::CR { rd_rs1, rs2 } => rd_rs1 < 32 && rs2 < 32,
            RVInstrInfo::CI { rd_rs1, imm: _ } => rd_rs1 < 32,
            RVInstrInfo::CSS { rs2, imm: _ } => rs2 < 32,
            RVInstrInfo::CIW { rd, imm: _ } => rd < 32,
            RVInstrInfo::CL { rd, rs1, imm: _ } => rd < 32 && rs1 < 32,
            RVInstrInfo::CS { rs1, rs2, imm: _ } => rs1 < 32 && rs2 < 32,
            RVInstrInfo::CA { rd_rs1, rs2 } => rd_rs1 < 32 && rs2 < 32,
            RVInstrInfo::CB { rd_rs1, imm: _ } => rd_rs1 < 32,
            RVInstrInfo::CJ { target: _ } => true,
        }
    }
}

} // verus!
