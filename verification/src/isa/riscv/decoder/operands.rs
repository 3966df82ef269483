//! The operands that a word encodes.
use vstd::prelude::*;

use crate::isa::riscv::instruction::exec_mapping;
use crate::isa::riscv::instruction::instr_table::RiscvInstr;
use crate::isa::riscv::instruction::{InstrFormat, RVInstrInfo};
use crate::utils;

verus! {

/// The immediate of the I format.
pub open spec fn imm_i(v: u32) -> u64 {
    let w = v as u64;
    utils::sign_extended((w / 0x10_0000) as u64, 12)
}

fn get_imm_i(v: u32) -> (r: u64)
    ensures
        r == imm_i(v),
{
    let w: u64 = v as u64;
    utils::sign_extend(w / 0x10_0000, 12)
}

/// The immediate of the S format.
pub open spec fn imm_s(v: u32) -> u64 {
    let w = v as u64;
    utils::sign_extended((w / 0x200_0000 * 0x20 + w / 0x80 % 0x20) as u64, 12)
}

fn get_imm_s(v: u32) -> (r: u64)
    ensures
        r == imm_s(v),
{
    let w: u64 = v as u64;
    utils::sign_extend(w / 0x200_0000 * 0x20 + w / 0x80 % 0x20, 12)
}

/// The immediate of the B format.
pub open spec fn imm_b(v: u32) -> u64 {
    let w = v as u64;
    utils::sign_extended(
        (w / 0x8000_0000 * 0x1000 + w / 0x80 % 2 * 0x800 + w / 0x200_0000 % 0x40 * 0x20
            + w / 0x100 % 0x10 * 2) as u64,
        13,
    )
}

fn get_imm_b(v: u32) -> (r: u64)
    ensures
        r == imm_b(v),
{
    let w: u64 = v as u64;
    utils::sign_extend(
        w / 0x8000_0000 * 0x1000 + w / 0x80 % 2 * 0x800 + w / 0x200_0000 % 0x40 * 0x20
            + w / 0x100 % 0x10 * 2,
        13,
    )
}

/// The immediate of the U format.
pub open spec fn imm_u(v: u32) -> u64 {
    let w = v as u64;
    utils::sign_extended((w / 0x1000 * 0x1000) as u64, 32)
}

fn get_imm_u(v: u32) -> (r: u64)
    ensures
        r == imm_u(v),
{
    let w: u64 = v as u64;
    utils::sign_extend(w / 0x1000 * 0x1000, 32)
}

/// The immediate of the J format.
pub open spec fn imm_j(v: u32) -> u64 {
    let w = v as u64;
    utils::sign_extended(
        (w / 0x8000_0000 * 0x10_0000 + w / 0x1000 % 0x100 * 0x1000 + w / 0x10_0000 % 2 * 0x800
            + w / 0x20_0000 % 0x400 * 2) as u64,
        21,
    )
}

fn get_imm_j(v: u32) -> (r: u64)
    ensures
        r == imm_j(v),
{
    let w: u64 = v as u64;
    utils::sign_extend(
        w / 0x8000_0000 * 0x10_0000 + w / 0x1000 % 0x100 * 0x1000 + w / 0x10_0000 % 2 * 0x800
            + w / 0x20_0000 % 0x400 * 2,
        21,
    )
}

/// The immediate of six bits.
pub open spec fn imm_c6(v: u32) -> u64 {
    let w = v as u64;
    utils::sign_extended((w / 0x1000 % 2 * 0x20 + w / 4 % 0x20) as u64, 6)
}

fn get_imm_c6(v: u32) -> (r: u64)
    ensures
        r == imm_c6(v),
{
    let w: u64 = v as u64;
    utils::sign_extend(w / 0x1000 % 2 * 0x20 + w / 4 % 0x20, 6)
}

/// The immediate that is added to the stack pointer.
pub open spec fn imm_c16sp(v: u32) -> u64 {
    let w = v as u64;
    utils::sign_extended(
        (w / 0x1000 % 2 * 0x200 + w / 0x40 % 2 * 0x10 + w / 0x20 % 2 * 0x40 + w / 8 % 4 * 0x80
            + w / 4 % 2 * 0x20) as u64,
        10,
    )
}

fn get_imm_c16sp(v: u32) -> (r: u64)
    ensures
        r == imm_c16sp(v),
{
    let w: u64 = v as u64;
    utils::sign_extend(
        w / 0x1000 % 2 * 0x200 + w / 0x40 % 2 * 0x10 + w / 0x20 % 2 * 0x40 + w / 8 % 4 * 0x80
            + w / 4 % 2 * 0x20,
        10,
    )
}

/// The immediate of the upper bits.
pub open spec fn imm_clui(v: u32) -> u64 {
    let w = v as u64;
    utils::sign_extended((w / 0x1000 % 2 * 0x2_0000 + w / 4 % 0x20 * 0x1000) as u64, 18)
}

fn get_imm_clui(v: u32) -> (r: u64)
    ensures
        r == imm_clui(v),
{
    let w: u64 = v as u64;
    utils::sign_extend(w / 0x1000 % 2 * 0x2_0000 + w / 4 % 0x20 * 0x1000, 18)
}

/// The immediate of a jump.
pub open spec fn imm_cj(v: u32) -> u64 {
    let w = v as u64;
    utils::sign_extended(
        (w / 0x1000 % 2 * 0x800 + w / 0x800 % 2 * 0x10 + w / 0x200 % 4 * 0x100
            + w / 0x100 % 2 * 0x400 + w / 0x80 % 2 * 0x40 + w / 0x40 % 2 * 0x80 + w / 8 % 8 * 2
            + w / 4 % 2 * 0x20) as u64,
        12,
    )
}

fn get_imm_cj(v: u32) -> (r: u64)
    ensures
        r == imm_cj(v),
{
    let w: u64 = v as u64;
    utils::sign_extend(
        w / 0x1000 % 2 * 0x800 + w / 0x800 % 2 * 0x10 + w / 0x200 % 4 * 0x100
            + w / 0x100 % 2 * 0x400 + w / 0x80 % 2 * 0x40 + w / 0x40 % 2 * 0x80 + w / 8 % 8 * 2
            + w / 4 % 2 * 0x20,
        12,
    )
}

/// The immediate of a branch.
pub open spec fn imm_cb(v: u32) -> u64 {
    let w = v as u64;
    utils::sign_extended(
        (w / 0x1000 % 2 * 0x100 + w / 0x400 % 4 * 8 + w / 0x20 % 4 * 0x40 + w / 8 % 4 * 2
            + w / 4 % 2 * 0x20) as u64,
        9,
    )
}

fn get_imm_cb(v: u32) -> (r: u64)
    ensures
        r == imm_cb(v),
{
    let w: u64 = v as u64;
    utils::sign_extend(
        w / 0x1000 % 2 * 0x100 + w / 0x400 % 4 * 8 + w / 0x20 % 4 * 0x40 + w / 8 % 4 * 2
            + w / 4 % 2 * 0x20,
        9,
    )
}

/// The distance of a shift.
pub open spec fn shamt(v: u32) -> u64 {
    let w = v as u64;
    (w / 0x10_0000 % 0x40) as u64
}

fn get_shamt(v: u32) -> (r: u64)
    ensures
        r == shamt(v),
{
    let w: u64 = v as u64;
    w / 0x10_0000 % 0x40
}

/// The distance of a shift in two bytes.
pub open spec fn c_shamt(v: u32) -> u64 {
    let w = v as u64;
    (w / 0x1000 % 2 * 0x20 + w / 4 % 0x20) as u64
}

fn get_c_shamt(v: u32) -> (r: u64)
    ensures
        r == c_shamt(v),
{
    let w: u64 = v as u64;
    w / 0x1000 % 2 * 0x20 + w / 4 % 0x20
}

/// The offset from the stack pointer that an addition takes.
pub open spec fn c_4spn(v: u32) -> u64 {
    let w = v as u64;
    (w / 0x800 % 4 * 0x10 + w / 0x80 % 0x10 * 0x40 + w / 0x40 % 2 * 4 + w / 0x20 % 2 * 8) as u64
}

fn get_c_4spn(v: u32) -> (r: u64)
    ensures
        r == c_4spn(v),
{
    let w: u64 = v as u64;
    w / 0x800 % 4 * 0x10 + w / 0x80 % 0x10 * 0x40 + w / 0x40 % 2 * 4 + w / 0x20 % 2 * 8
}

/// The offset of a word.
pub open spec fn c_word(v: u32) -> u64 {
    let w = v as u64;
    (w / 0x400 % 8 * 8 + w / 0x40 % 2 * 4 + w / 0x20 % 2 * 0x40) as u64
}

fn get_c_word(v: u32) -> (r: u64)
    ensures
        r == c_word(v),
{
    let w: u64 = v as u64;
    w / 0x400 % 8 * 8 + w / 0x40 % 2 * 4 + w / 0x20 % 2 * 0x40
}

/// The offset of a doubleword.
pub open spec fn c_doubleword(v: u32) -> u64 {
    let w = v as u64;
    (w / 0x400 % 8 * 8 + w / 0x20 % 4 * 0x40) as u64
}

fn get_c_doubleword(v: u32) -> (r: u64)
    ensures
        r == c_doubleword(v),
{
    let w: u64 = v as u64;
    w / 0x400 % 8 * 8 + w / 0x20 % 4 * 0x40
}

/// The offset of a word from the stack pointer, in a load.
pub open spec fn c_word_sp(v: u32) -> u64 {
    let w = v as u64;
    (w / 0x1000 % 2 * 0x20 + w / 0x10 % 8 * 4 + w / 4 % 4 * 0x40) as u64
}

fn get_c_word_sp(v: u32) -> (r: u64)
    ensures
        r == c_word_sp(v),
{
    let w: u64 = v as u64;
    w / 0x1000 % 2 * 0x20 + w / 0x10 % 8 * 4 + w / 4 % 4 * 0x40
}

/// The offset of a doubleword from the stack pointer, in a load.
pub open spec fn c_doubleword_sp(v: u32) -> u64 {
    let w = v as u64;
    (w / 0x1000 % 2 * 0x20 + w / 0x20 % 4 * 8 + w / 4 % 8 * 0x40) as u64
}

fn get_c_doubleword_sp(v: u32) -> (r: u64)
    ensures
        r == c_doubleword_sp(v),
{
    let w: u64 = v as u64;
    w / 0x1000 % 2 * 0x20 + w / 0x20 % 4 * 8 + w / 4 % 8 * 0x40
}

/// The offset of a word from the stack pointer, in a store.
pub open spec fn c_store_word_sp(v: u32) -> u64 {
    let w = v as u64;
    (w / 0x200 % 0x10 * 4 + w / 0x80 % 4 * 0x40) as u64
}

fn get_c_store_word_sp(v: u32) -> (r: u64)
    ensures
        r == c_store_word_sp(v),
{
    let w: u64 = v as u64;
    w / 0x200 % 0x10 * 4 + w / 0x80 % 4 * 0x40
}

/// The offset of a doubleword from the stack pointer, in a store.
pub open spec fn c_store_double_sp(v: u32) -> u64 {
    let w = v as u64;
    (w / 0x400 % 8 * 8 + w / 0x80 % 8 * 0x40) as u64
}

fn get_c_store_double_sp(v: u32) -> (r: u64)
    ensures
        r == c_store_double_sp(v),
{
    let w: u64 = v as u64;
    w / 0x400 % 8 * 8 + w / 0x80 % 8 * 0x40
}

/// The field in bits 11 to 7.
pub open spec fn rd_of(v: u32) -> u8 {
    (v / 0x80 % 0x20) as u8
}

fn get_rd(v: u32) -> (r: u8)
    ensures
        r == rd_of(v),
{
    (v / 0x80 % 0x20) as u8
}

/// The field in bits 19 to 15.
pub open spec fn rs1_of(v: u32) -> u8 {
    (v / 0x8000 % 0x20) as u8
}

fn get_rs1(v: u32) -> (r: u8)
    ensures
        r == rs1_of(v),
{
    (v / 0x8000 % 0x20) as u8
}

/// The field in bits 24 to 20.
pub open spec fn rs2_of(v: u32) -> u8 {
    (v / 0x10_0000 % 0x20) as u8
}

fn get_rs2(v: u32) -> (r: u8)
    ensures
        r == rs2_of(v),
{
    (v / 0x10_0000 % 0x20) as u8
}

/// The field in bits 31 to 27.
pub open spec fn rs3_of(v: u32) -> u8 {
    (v / 0x800_0000) as u8
}

fn get_rs3(v: u32) -> (r: u8)
    ensures
        r == rs3_of(v),
{
    (v / 0x800_0000) as u8
}

/// The field in bits 14 to 12.
pub open spec fn rm_of(v: u32) -> u8 {
    (v / 0x1000 % 8) as u8
}

fn get_rm(v: u32) -> (r: u8)
    ensures
        r == rm_of(v),
{
    (v / 0x1000 % 8) as u8
}

/// The field in bits 31 to 26.
pub open spec fn func6_of(v: u32) -> u8 {
    (v / 0x400_0000) as u8
}

fn get_func6(v: u32) -> (r: u8)
    ensures
        r == func6_of(v),
{
    (v / 0x400_0000) as u8
}

/// The field in bits 6 to 2.
pub open spec fn c_rs2_of(v: u32) -> u8 {
    (v / 4 % 0x20) as u8
}

fn get_c_rs2(v: u32) -> (r: u8)
    ensures
        r == c_rs2_of(v),
{
    (v / 4 % 0x20) as u8
}

/// The register that the three bits 4 to 2 name.
pub open spec fn c_low_of(v: u32) -> u8 {
    (8 + v / 4 % 8) as u8
}

fn get_c_low(v: u32) -> (r: u8)
    ensures
        r == c_low_of(v),
{
    (8 + v / 4 % 8) as u8
}

/// The register that the three bits 9 to 7 name.
pub open spec fn c_high_of(v: u32) -> u8 {
    (8 + v / 0x80 % 8) as u8
}

fn get_c_high(v: u32) -> (r: u8)
    ensures
        r == c_high_of(v),
{
    (8 + v / 0x80 % 8) as u8
}

/// The operands of an instruction that a word encodes.
pub open spec fn info_of(instr: RiscvInstr, v: u32) -> RVInstrInfo {
    match instr.spec_format() {
        InstrFormat::NoOperands => RVInstrInfo::NoOperands,
        InstrFormat::R => RVInstrInfo::R { rs1: rs1_of(v), rs2: rs2_of(v), rd: rd_of(v) },
        InstrFormat::R_rm => RVInstrInfo::R_rm {
            rs1: rs1_of(v),
            rs2: rs2_of(v),
            rd: rd_of(v),
            rm: rm_of(v),
        },
        InstrFormat::R4_rm => RVInstrInfo::R4_rm {
            rs1: rs1_of(v),
            rs2: rs2_of(v),
            rs3: rs3_of(v),
            rd: rd_of(v),
            rm: rm_of(v),
        },
        InstrFormat::I => RVInstrInfo::I {
            rs1: rs1_of(v),
            rd: rd_of(v),
            imm: match instr {
                RiscvInstr::SLLI
                | RiscvInstr::SRLI
                | RiscvInstr::SRAI
                | RiscvInstr::SLLIW
                | RiscvInstr::SRLIW
                | RiscvInstr::SRAIW => shamt(v),
                _ => imm_i(v),
            },
        },
        InstrFormat::S => RVInstrInfo::S { rs1: rs1_of(v), rs2: rs2_of(v), imm: imm_s(v) },
        InstrFormat::B => RVInstrInfo::B { rs1: rs1_of(v), rs2: rs2_of(v), imm: imm_b(v) },
        InstrFormat::U => RVInstrInfo::U { rd: rd_of(v), imm: imm_u(v) },
        InstrFormat::J => RVInstrInfo::J { rd: rd_of(v), imm: imm_j(v) },
        InstrFormat::A => RVInstrInfo::A {
            rs1: rs1_of(v),
            rs2: rs2_of(v),
            rd: rd_of(v),
            rl: v / 0x200_0000 % 2 == 1,
            aq: v / 0x400_0000 % 2 == 1,
        },
        InstrFormat::V => RVInstrInfo::V {
            rs1: rs1_of(v),
            rs2: rs2_of(v),
            rd: rd_of(v),
            vm: v / 0x200_0000 % 2 == 1,
            func6: func6_of(v),
        },
        InstrFormat::CR => RVInstrInfo::CR { rd_rs1: rd_of(v), rs2: c_rs2_of(v) },
        InstrFormat::CI => RVInstrInfo::CI {
            rd_rs1: rd_of(v),
            imm: match instr {
                RiscvInstr::C_ADDI16SP => imm_c16sp(v),
                RiscvInstr::C_LUI => imm_clui(v),
                RiscvInstr::C_SLLI => c_shamt(v),
                RiscvInstr::C_LWSP | RiscvInstr::C_FLWSP => c_word_sp(v),
                RiscvInstr::C_LDSP | RiscvInstr::C_FLDSP => c_doubleword_sp(v),
                _ => imm_c6(v),
            },
        },
        InstrFormat::CSS => RVInstrInfo::CSS {
            rs2: c_rs2_of(v),
            imm: match instr {
                RiscvInstr::C_SWSP | RiscvInstr::C_FSWSP => c_store_word_sp(v),
                _ => c_store_double_sp(v),
            },
        },
        InstrFormat::CIW => RVInstrInfo::CIW { rd: c_low_of(v), imm: c_4spn(v) },
        InstrFormat::CL => RVInstrInfo::CL {
            rd: c_low_of(v),
            rs1: c_high_of(v),
            imm: match instr {
                RiscvInstr::C_LW | RiscvInstr::C_FLW => c_word(v),
                _ => c_doubleword(v),
            },
        },
        InstrFormat::CS => RVInstrInfo::CS {
            rs1: c_high_of(v),
            rs2: c_low_of(v),
            imm: match instr {
                RiscvInstr::C_SW | RiscvInstr::C_FSW => c_word(v),
                _ => c_doubleword(v),
            },
        },
        InstrFormat::CA => RVInstrInfo::CA { rd_rs1: c_high_of(v), rs2: c_low_of(v) },
        InstrFormat::CB => RVInstrInfo::CB {
            rd_rs1: c_high_of(v),
            imm: match instr {
                RiscvInstr::C_SRLI | RiscvInstr::C_SRAI => c_shamt(v),
                RiscvInstr::C_ANDI => imm_c6(v),
                _ => imm_cb(v),
            },
        },
        InstrFormat::CJ => RVInstrInfo::CJ { target: imm_cj(v) },
    }
}

/// Decodes the operands of an instruction.
pub fn decode_info(instr: RiscvInstr, v: u32) -> (r: RVInstrInfo)
    ensures
        r == info_of(instr, v),
{
    match instr.format() {
        InstrFormat::NoOperands => RVInstrInfo::NoOperands,
        InstrFormat::R => RVInstrInfo::R { rs1: get_rs1(v), rs2: get_rs2(v), rd: get_rd(v) },
        InstrFormat::R_rm => RVInstrInfo::R_rm {
            rs1: get_rs1(v),
            rs2: get_rs2(v),
            rd: get_rd(v),
            rm: get_rm(v),
        },
        InstrFormat::R4_rm => RVInstrInfo::R4_rm {
            rs1: get_rs1(v),
            rs2: get_rs2(v),
            rs3: get_rs3(v),
            rd: get_rd(v),
            rm: get_rm(v),
        },
        InstrFormat::I => RVInstrInfo::I {
            rs1: get_rs1(v),
            rd: get_rd(v),
            imm: match instr {
                RiscvInstr::SLLI
                | RiscvInstr::SRLI
                | RiscvInstr::SRAI
                | RiscvInstr::SLLIW
                | RiscvInstr::SRLIW
                | RiscvInstr::SRAIW => get_shamt(v),
                _ => get_imm_i(v),
            },
        },
        InstrFormat::S => RVInstrInfo::S { rs1: get_rs1(v), rs2: get_rs2(v), imm: get_imm_s(v) },
        InstrFormat::B => RVInstrInfo::B { rs1: get_rs1(v), rs2: get_rs2(v), imm: get_imm_b(v) },
        InstrFormat::U => RVInstrInfo::U { rd: get_rd(v), imm: get_imm_u(v) },
        InstrFormat::J => RVInstrInfo::J { rd: get_rd(v), imm: get_imm_j(v) },
        InstrFormat::A => RVInstrInfo::A {
            rs1: get_rs1(v),
            rs2: get_rs2(v),
            rd: get_rd(v),
            rl: v / 0x200_0000 % 2 == 1,
            aq: v / 0x400_0000 % 2 == 1,
        },
        InstrFormat::V => RVInstrInfo::V {
            rs1: get_rs1(v),
            rs2: get_rs2(v),
            rd: get_rd(v),
            vm: v / 0x200_0000 % 2 == 1,
            func6: get_func6(v),
        },
        InstrFormat::CR => RVInstrInfo::CR { rd_rs1: get_rd(v), rs2: get_c_rs2(v) },
        InstrFormat::CI => RVInstrInfo::CI {
            rd_rs1: get_rd(v),
            imm: match instr {
                RiscvInstr::C_ADDI16SP => get_imm_c16sp(v),
                RiscvInstr::C_LUI => get_imm_clui(v),
                RiscvInstr::C_SLLI => get_c_shamt(v),
                RiscvInstr::C_LWSP | RiscvInstr::C_FLWSP => get_c_word_sp(v),
                RiscvInstr::C_LDSP | RiscvInstr::C_FLDSP => get_c_doubleword_sp(v),
                _ => get_imm_c6(v),
            },
        },
        InstrFormat::CSS => RVInstrInfo::CSS {
            rs2: get_c_rs2(v),
            imm: match instr {
                RiscvInstr::C_SWSP | RiscvInstr::C_FSWSP => get_c_store_word_sp(v),
                _ => get_c_store_double_sp(v),
            },
        },
        InstrFormat::CIW => RVInstrInfo::CIW { rd: get_c_low(v), imm: get_c_4spn(v) },
        InstrFormat::CL => RVInstrInfo::CL {
            rd: get_c_low(v),
            rs1: get_c_high(v),
            imm: match instr {
                RiscvInstr::C_LW | RiscvInstr::C_FLW => get_c_word(v),
                _ => get_c_doubleword(v),
            },
        },
        InstrFormat::CS => RVInstrInfo::CS {
            rs1: get_c_high(v),
            rs2: get_c_low(v),
            imm: match instr {
                RiscvInstr::C_SW | RiscvInstr::C_FSW => get_c_word(v),
                _ => get_c_doubleword(v),
            },
        },
        InstrFormat::CA => RVInstrInfo::CA { rd_rs1: get_c_high(v), rs2: get_c_low(v) },
        InstrFormat::CB => RVInstrInfo::CB {
            rd_rs1: get_c_high(v),
            imm: match instr {
                RiscvInstr::C_SRLI | RiscvInstr::C_SRAI => get_c_shamt(v),
                RiscvInstr::C_ANDI => get_imm_c6(v),
                _ => get_imm_cb(v),
            },
        },
        InstrFormat::CJ => RVInstrInfo::CJ { target: get_imm_cj(v) },
    }
}

/// Decoded operands name registers that exist.
proof fn lemma_info_regs(instr: RiscvInstr, v: u32)
    ensures
        info_of(instr, v).regs_ok(),
        info_of(instr, v).spec_format() == instr.spec_format(),
{
}

proof fn lemma_base_words(v: u32)
    ensures
        utils::is_word(imm_i(v)),
        utils::is_word(imm_s(v)),
        utils::is_word(imm_b(v)),
        utils::is_word(imm_u(v)),
        utils::is_word(imm_j(v)),
        utils::is_word(shamt(v)),
{
    let w = v as u64;
    utils::lemma_sign_extended((w / 0x10_0000) as u64, 12);
    utils::lemma_sign_extended((w / 0x200_0000 * 0x20 + w / 0x80 % 0x20) as u64, 12);
    utils::lemma_sign_extended(
        (w / 0x8000_0000 * 0x1000 + w / 0x80 % 2 * 0x800 + w / 0x200_0000 % 0x40 * 0x20
            + w / 0x100 % 0x10 * 2) as u64,
        13,
    );
    utils::lemma_sign_extended((w / 0x1000 * 0x1000) as u64, 32);
    utils::lemma_sign_extended(
        (w / 0x8000_0000 * 0x10_0000 + w / 0x1000 % 0x100 * 0x1000 + w / 0x10_0000 % 2 * 0x800
            + w / 0x20_0000 % 0x400 * 2) as u64,
        21,
    );
}

proof fn lemma_compressed_words(v: u32)
    ensures
        utils::is_word(imm_c6(v)),
        utils::is_word(imm_c16sp(v)),
        utils::is_word(imm_clui(v)),
        utils::is_word(imm_cj(v)),
        utils::is_word(imm_cb(v)),
        utils::is_word(c_shamt(v)),
{
    let w = v as u64;
    utils::lemma_sign_extended((w / 0x1000 % 2 * 0x20 + w / 4 % 0x20) as u64, 6);
    utils::lemma_sign_extended(
        (w / 0x1000 % 2 * 0x200 + w / 0x40 % 2 * 0x10 + w / 0x20 % 2 * 0x40 + w / 8 % 4 * 0x80
            + w / 4 % 2 * 0x20) as u64,
        10,
    );
    utils::lemma_sign_extended((w / 0x1000 % 2 * 0x2_0000 + w / 4 % 0x20 * 0x1000) as u64, 18);
    utils::lemma_sign_extended(
        (w / 0x1000 % 2 * 0x800 + w / 0x800 % 2 * 0x10 + w / 0x200 % 4 * 0x100
            + w / 0x100 % 2 * 0x400 + w / 0x80 % 2 * 0x40 + w / 0x40 % 2 * 0x80 + w / 8 % 8 * 2
            + w / 4 % 2 * 0x20) as u64,
        12,
    );
    utils::lemma_sign_extended(
        (w / 0x1000 % 2 * 0x100 + w / 0x400 % 4 * 8 + w / 0x20 % 4 * 0x40 + w / 8 % 4 * 2
            + w / 4 % 2 * 0x20) as u64,
        9,
    );
}

proof fn lemma_offset_words(v: u32)
    ensures
        utils::is_word(c_4spn(v)),
        utils::is_word(c_word(v)),
        utils::is_word(c_doubleword(v)),
        utils::is_word(c_word_sp(v)),
        utils::is_word(c_doubleword_sp(v)),
        utils::is_word(c_store_word_sp(v)),
        utils::is_word(c_store_double_sp(v)),
{
}

/// Decoded immediates have at most 32 bits, and are sign-extended.
pub proof fn law_decoded_immediates_are_words(instr: RiscvInstr, v: u32)
    ensures
        info_of(instr, v).imm_ok(),
{
    lemma_base_words(v);
    lemma_compressed_words(v);
    lemma_offset_words(v);
}

/// The handler of an instruction takes the operands that are decoded for it.
pub proof fn law_decoded_operands_fit(instr: RiscvInstr, v: u32)
    ensures
        exec_mapping::exec_func_of(instr).takes(info_of(instr, v)),
{
    lemma_info_regs(instr, v);
}

} // verus!
