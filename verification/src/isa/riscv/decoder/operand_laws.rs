//! Operands come back from the words that encode them.
use vstd::arithmetic::power2::*;
use vstd::prelude::*;

use crate::isa::riscv::instruction::instr_table::RiscvInstr;
use crate::isa::riscv::instruction::{InstrFormat, RVInstrInfo};

use super::operands;

verus! {

/// The 64-bit immediate that stands for a number of `bits` bits in two's complement.
pub open spec fn immediate(u: int, bits: nat) -> u64 {
    if u >= pow2((bits - 1) as nat) {
        (u + 0x1_0000_0000_0000_0000 - pow2(bits)) as u64
    } else {
        u as u64
    }
}

/// The bits of `v` from `low` on, as many as make `count` values.
pub open spec fn part(v: int, low: int, count: int) -> int {
    v / low % count
}

/// The immediate of the I format: twelve bits at the top.
pub proof fn law_imm_i(v: u32, u: int)
    requires
        0 <= u < 0x1000,
        v as int / 0x10_0000 == u,
    ensures
        operands::imm_i(v) == immediate(u, 12),
{
    lemma2_to64();
}

/// The distance of a shift: six bits from bit 20 on.
pub proof fn law_shamt(v: u32, u: int)
    requires
        0 <= u < 0x40,
        part(v as int, 0x10_0000, 0x40) == u,
    ensures
        operands::shamt(v) == u,
{
}

/// The immediate of the S format: seven bits at the top, and the lower five from bit 7 on.
pub proof fn law_imm_s(v: u32, u: int)
    requires
        0 <= u < 0x1000,
        v as int / 0x200_0000 == u / 0x20,
        part(v as int, 0x80, 0x20) == u % 0x20,
    ensures
        operands::imm_s(v) == immediate(u, 12),
{
    lemma2_to64();
}

/// The immediate of the B format: an even number of thirteen bits, its sign at the top, then bits 10
/// to 5, and from bit 7 on bit 11 and bits 4 to 1.
pub proof fn law_imm_b(v: u32, u: int)
    requires
        0 <= u < 0x2000,
        u % 2 == 0,
        v as int / 0x8000_0000 == u / 0x1000,
        part(v as int, 0x200_0000, 0x40) == part(u, 0x20, 0x40),
        part(v as int, 0x100, 0x10) == part(u, 2, 0x10),
        part(v as int, 0x80, 2) == part(u, 0x800, 2),
    ensures
        operands::imm_b(v) == immediate(u, 13),
{
    lemma2_to64();
    assert(u / 2 == 0x10 * (u / 0x20) + part(u, 2, 0x10));
    assert(u / 0x20 == 0x40 * (u / 0x800) + part(u, 0x20, 0x40));
    assert(u / 0x800 == 2 * (u / 0x1000) + part(u, 0x800, 2));
}

/// The immediate of the U format: the upper twenty bits of a word.
pub proof fn law_imm_u(v: u32, u: int)
    requires
        0 <= u < 0x10_0000,
        v as int / 0x1000 == u,
    ensures
        operands::imm_u(v) == immediate(0x1000 * u, 32),
{
    lemma2_to64();
    lemma2_to64_rest();
}

/// The immediate of the J format: an even number of twenty-one bits, its sign at the top, then bits
/// 10 to 1, bit 11, and bits 19 to 12 from bit 12 on.
pub proof fn law_imm_j(v: u32, u: int)
    requires
        0 <= u < 0x20_0000,
        u % 2 == 0,
        v as int / 0x8000_0000 == u / 0x10_0000,
        part(v as int, 0x20_0000, 0x400) == part(u, 2, 0x400),
        part(v as int, 0x10_0000, 2) == part(u, 0x800, 2),
        part(v as int, 0x1000, 0x100) == part(u, 0x1000, 0x100),
    ensures
        operands::imm_j(v) == immediate(u, 21),
{
    lemma2_to64();
    lemma2_to64_rest();
    assert(u / 2 == 0x400 * (u / 0x800) + part(u, 2, 0x400));
    assert(u / 0x800 == 2 * (u / 0x1000) + part(u, 0x800, 2));
    assert(u / 0x1000 == 0x100 * (u / 0x10_0000) + part(u, 0x1000, 0x100));
}

/// The immediate of six bits of a two-byte instruction: its sign in bit 12, the rest from bit 2 on.
/// The distance of a shift has the same place, and the upper immediate counts in pages.
pub proof fn law_imm_c6(v: u32, u: int)
    requires
        0 <= u < 0x40,
        part(v as int, 0x1000, 2) == u / 0x20,
        part(v as int, 4, 0x20) == u % 0x20,
    ensures
        operands::imm_c6(v) == immediate(u, 6),
        operands::c_shamt(v) == u,
        operands::imm_clui(v) == immediate(0x1000 * u, 18),
{
    lemma2_to64();
}

/// The immediate that is added to the stack pointer: a number of sixteen bytes, its sign in bit 12,
/// then bits 4, 6, 8 to 7 and 5 from bit 6 down.
pub proof fn law_imm_c16sp(v: u32, u: int)
    requires
        0 <= u < 0x400,
        u % 0x10 == 0,
        part(v as int, 0x1000, 2) == u / 0x200,
        part(v as int, 0x40, 2) == part(u, 0x10, 2),
        part(v as int, 0x20, 2) == part(u, 0x40, 2),
        part(v as int, 8, 4) == part(u, 0x80, 4),
        part(v as int, 4, 2) == part(u, 0x20, 2),
    ensures
        operands::imm_c16sp(v) == immediate(u, 10),
{
    lemma2_to64();
    assert(u / 0x10 == 2 * (u / 0x20) + part(u, 0x10, 2));
    assert(u / 0x20 == 2 * (u / 0x40) + part(u, 0x20, 2));
    assert(u / 0x40 == 2 * (u / 0x80) + part(u, 0x40, 2));
    assert(u / 0x80 == 4 * (u / 0x200) + part(u, 0x80, 4));
}

/// The immediate of a two-byte jump: an even number of twelve bits, from bit 12 down the bits 11, 4,
/// 9 to 8, 10, 6, 7, 3 to 1 and 5.
pub proof fn law_imm_cj(v: u32, u: int)
    requires
        0 <= u < 0x1000,
        u % 2 == 0,
        part(v as int, 0x1000, 2) == part(u, 0x800, 2),
        part(v as int, 0x800, 2) == part(u, 0x10, 2),
        part(v as int, 0x200, 4) == part(u, 0x100, 4),
        part(v as int, 0x100, 2) == part(u, 0x400, 2),
        part(v as int, 0x80, 2) == part(u, 0x40, 2),
        part(v as int, 0x40, 2) == part(u, 0x80, 2),
        part(v as int, 8, 8) == part(u, 2, 8),
        part(v as int, 4, 2) == part(u, 0x20, 2),
    ensures
        operands::imm_cj(v) == immediate(u, 12),
{
    lemma2_to64();
    assert(u / 2 == 8 * (u / 0x10) + part(u, 2, 8));
    assert(u / 0x10 == 2 * (u / 0x20) + part(u, 0x10, 2));
    assert(u / 0x20 == 2 * (u / 0x40) + part(u, 0x20, 2));
    assert(u / 0x40 == 2 * (u / 0x80) + part(u, 0x40, 2));
    assert(u / 0x80 == 2 * (u / 0x100) + part(u, 0x80, 2));
    assert(u / 0x100 == 4 * (u / 0x400) + part(u, 0x100, 4));
    assert(u / 0x400 == 2 * (u / 0x800) + part(u, 0x400, 2));
    assert(u / 0x800 == part(u, 0x800, 2));
}

/// The immediate of a two-byte branch: an even number of nine bits, from bit 12 down the bits 8, 4 to
/// 3, then 7 to 6, 2 to 1 and 5 from bit 6 down.
pub proof fn law_imm_cb(v: u32, u: int)
    requires
        0 <= u < 0x200,
        u % 2 == 0,
        part(v as int, 0x1000, 2) == u / 0x100,
        part(v as int, 0x400, 4) == part(u, 8, 4),
        part(v as int, 0x20, 4) == part(u, 0x40, 4),
        part(v as int, 8, 4) == part(u, 2, 4),
        part(v as int, 4, 2) == part(u, 0x20, 2),
    ensures
        operands::imm_cb(v) == immediate(u, 9),
{
    lemma2_to64();
    assert(u / 2 == 4 * (u / 8) + part(u, 2, 4));
    assert(u / 8 == 4 * (u / 0x20) + part(u, 8, 4));
    assert(u / 0x20 == 2 * (u / 0x40) + part(u, 0x20, 2));
    assert(u / 0x40 == 4 * (u / 0x100) + part(u, 0x40, 4));
}

/// The offset of a word from a register: bits 5 to 3, 2 and 6.
pub proof fn law_c_word(v: u32, u: int)
    requires
        0 <= u < 0x80,
        u % 4 == 0,
        part(v as int, 0x400, 8) == part(u, 8, 8),
        part(v as int, 0x40, 2) == part(u, 4, 2),
        part(v as int, 0x20, 2) == part(u, 0x40, 2),
    ensures
        operands::c_word(v) == u,
{
    assert(u / 4 == 2 * (u / 8) + part(u, 4, 2));
    assert(u / 8 == 8 * (u / 0x40) + part(u, 8, 8));
}

/// The offset of a doubleword from a register: bits 5 to 3, and 7 to 6.
pub proof fn law_c_doubleword(v: u32, u: int)
    requires
        0 <= u < 0x100,
        u % 8 == 0,
        part(v as int, 0x400, 8) == part(u, 8, 8),
        part(v as int, 0x20, 4) == part(u, 0x40, 4),
    ensures
        operands::c_doubleword(v) == u,
{
    assert(u / 8 == 8 * (u / 0x40) + part(u, 8, 8));
}

/// The offset of a loaded word from the stack pointer: bits 5, 4 to 2, and 7 to 6.
pub proof fn law_c_word_sp(v: u32, u: int)
    requires
        0 <= u < 0x100,
        u % 4 == 0,
        part(v as int, 0x1000, 2) == part(u, 0x20, 2),
        part(v as int, 0x10, 8) == part(u, 4, 8),
        part(v as int, 4, 4) == part(u, 0x40, 4),
    ensures
        operands::c_word_sp(v) == u,
{
    assert(u / 4 == 8 * (u / 0x20) + part(u, 4, 8));
    assert(u / 0x20 == 2 * (u / 0x40) + part(u, 0x20, 2));
}

/// The offset of a loaded doubleword from the stack pointer: bits 5, 4 to 3, and 8 to 6.
pub proof fn law_c_doubleword_sp(v: u32, u: int)
    requires
        0 <= u < 0x200,
        u % 8 == 0,
        part(v as int, 0x1000, 2) == part(u, 0x20, 2),
        part(v as int, 0x20, 4) == part(u, 8, 4),
        part(v as int, 4, 8) == part(u, 0x40, 8),
    ensures
        operands::c_doubleword_sp(v) == u,
{
    assert(u / 8 == 4 * (u / 0x20) + part(u, 8, 4));
    assert(u / 0x20 == 2 * (u / 0x40) + part(u, 0x20, 2));
}

/// The offset of a stored word from the stack pointer: bits 5 to 2, and 7 to 6.
pub proof fn law_c_store_word_sp(v: u32, u: int)
    requires
        0 <= u < 0x100,
        u % 4 == 0,
        part(v as int, 0x200, 0x10) == part(u, 4, 0x10),
        part(v as int, 0x80, 4) == part(u, 0x40, 4),
    ensures
        operands::c_store_word_sp(v) == u,
{
    assert(u / 4 == 0x10 * (u / 0x40) + part(u, 4, 0x10));
}

/// The offset of a stored doubleword from the stack pointer: bits 5 to 3, and 8 to 6.
pub proof fn law_c_store_double_sp(v: u32, u: int)
    requires
        0 <= u < 0x200,
        u % 8 == 0,
        part(v as int, 0x400, 8) == part(u, 8, 8),
        part(v as int, 0x80, 8) == part(u, 0x40, 8),
    ensures
        operands::c_store_double_sp(v) == u,
{
    assert(u / 8 == 8 * (u / 0x40) + part(u, 8, 8));
}

/// The offset that is added to the stack pointer for a register: bits 5 to 4, 9 to 6, 2 and 3.
pub proof fn law_c_4spn(v: u32, u: int)
    requires
        0 <= u < 0x400,
        u % 4 == 0,
        part(v as int, 0x800, 4) == part(u, 0x10, 4),
        part(v as int, 0x80, 0x10) == part(u, 0x40, 0x10),
        part(v as int, 0x40, 2) == part(u, 4, 2),
        part(v as int, 0x20, 2) == part(u, 8, 2),
    ensures
        operands::c_4spn(v) == u,
{
    assert(u / 4 == 2 * (u / 8) + part(u, 4, 2));
    assert(u / 8 == 2 * (u / 0x10) + part(u, 8, 2));
    assert(u / 0x10 == 4 * (u / 0x40) + part(u, 0x10, 4));
}

/// Which fields and which immediate the operands of a format have.
pub proof fn law_operands(instr: RiscvInstr, v: u32)
    ensures
        ({
            let x = v as int;
            let rd = part(x, 0x80, 0x20) as u8;
            let rs1 = part(x, 0x8000, 0x20) as u8;
            let rs2 = part(x, 0x10_0000, 0x20) as u8;
            let rm = part(x, 0x1000, 8) as u8;
            let low = part(x, 4, 0x20) as u8;
            let near = (8 + part(x, 4, 8)) as u8;
            let far = (8 + part(x, 0x80, 8)) as u8;
            let info = operands::info_of(instr, v);
            match instr.spec_format() {
                InstrFormat::NoOperands => info == RVInstrInfo::NoOperands,
                InstrFormat::R => info == RVInstrInfo::R { rs1, rs2, rd },
                InstrFormat::R_rm => info == RVInstrInfo::R_rm { rs1, rs2, rd, rm },
                InstrFormat::R4_rm => info == RVInstrInfo::R4_rm {
                    rs1,
                    rs2,
                    rs3: (x / 0x800_0000) as u8,
                    rd,
                    rm,
                },
                InstrFormat::A => info == RVInstrInfo::A {
                    rs1,
                    rs2,
                    rd,
                    rl: part(x, 0x200_0000, 2) == 1,
                    aq: part(x, 0x400_0000, 2) == 1,
                },
                InstrFormat::V => info == RVInstrInfo::V {
                    rs1,
                    rs2,
                    rd,
                    vm: part(x, 0x200_0000, 2) == 1,
                    func6: (x / 0x400_0000) as u8,
                },
                InstrFormat::I => info == RVInstrInfo::I {
                    rs1,
                    rd,
                    imm: match instr {
                        RiscvInstr::SLLI
                        | RiscvInstr::SRLI
                        | RiscvInstr::SRAI
                        | RiscvInstr::SLLIW
                        | RiscvInstr::SRLIW
                        | RiscvInstr::SRAIW => operands::shamt(v),
                        _ => operands::imm_i(v),
                    },
                },
                InstrFormat::S => info == RVInstrInfo::S { rs1, rs2, imm: operands::imm_s(v) },
                InstrFormat::B => info == RVInstrInfo::B { rs1, rs2, imm: operands::imm_b(v) },
                InstrFormat::U => info == RVInstrInfo::U { rd, imm: operands::imm_u(v) },
                InstrFormat::J => info == RVInstrInfo::J { rd, imm: operands::imm_j(v) },
                InstrFormat::CR => info == RVInstrInfo::CR { rd_rs1: rd, rs2: low },
                InstrFormat::CA => info == RVInstrInfo::CA { rd_rs1: far, rs2: near },
                InstrFormat::CIW => info == RVInstrInfo::CIW {
                    rd: near,
                    imm: operands::c_4spn(v),
                },
                InstrFormat::CJ => info == RVInstrInfo::CJ { target: operands::imm_cj(v) },
                InstrFormat::CI => info == RVInstrInfo::CI {
                    rd_rs1: rd,
                    imm: match instr {
                        RiscvInstr::C_ADDI16SP => operands::imm_c16sp(v),
                        RiscvInstr::C_LUI => operands::imm_clui(v),
                        RiscvInstr::C_SLLI => operands::c_shamt(v),
                        RiscvInstr::C_LWSP | RiscvInstr::C_FLWSP => operands::c_word_sp(v),
                        RiscvInstr::C_LDSP | RiscvInstr::C_FLDSP => operands::c_doubleword_sp(v),
                        _ => operands::imm_c6(v),
                    },
                },
                InstrFormat::CSS => info == RVInstrInfo::CSS {
                    rs2: low,
                    imm: match instr {
                        RiscvInstr::C_SWSP | RiscvInstr::C_FSWSP => operands::c_store_word_sp(v),
                        _ => operands::c_store_double_sp(v),
                    },
                },
                InstrFormat::CL => info == RVInstrInfo::CL {
                    rd: near,
                    rs1: far,
                    imm: match instr {
                        RiscvInstr::C_LW | RiscvInstr::C_FLW => operands::c_word(v),
                        _ => operands::c_doubleword(v),
                    },
                },
                InstrFormat::CS => info == RVInstrInfo::CS {
                    rs1: far,
                    rs2: near,
                    imm: match instr {
                        RiscvInstr::C_SW | RiscvInstr::C_FSW => operands::c_word(v),
                        _ => operands::c_doubleword(v),
                    },
                },
                InstrFormat::CB => info == RVInstrInfo::CB {
                    rd_rs1: far,
                    imm: match instr {
                        RiscvInstr::C_SRLI | RiscvInstr::C_SRAI => operands::c_shamt(v),
                        RiscvInstr::C_ANDI => operands::imm_c6(v),
                        _ => operands::imm_cb(v),
                    },
                },
            }
        }),
{
}

} // verus!
