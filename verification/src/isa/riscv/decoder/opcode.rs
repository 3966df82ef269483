//! Which instruction a word encodes.
use vstd::prelude::*;

use crate::isa::riscv::instruction::instr_table::RiscvInstr;
use crate::isa::riscv::instruction::InstrFormat;
use crate::isa::riscv::vector::types::Vsew;

verus! {

/// An extension of the instruction set.
#[derive(Clone, Copy, Debug, PartialEq, Eq, Structural)]
pub enum Extension {
    I,
    M,
    A,
    F,
    D,
    C,
    V,
}

/// The loads.
pub open spec fn load_instr(v: u32) -> Option<RiscvInstr> {
    match v / 0x1000 % 8 {
        0 => Some(RiscvInstr::LB),
        1 => Some(RiscvInstr::LH),
        2 => Some(RiscvInstr::LW),
        3 => Some(RiscvInstr::LD),
        4 => Some(RiscvInstr::LBU),
        5 => Some(RiscvInstr::LHU),
        6 => Some(RiscvInstr::LWU),
        _ => None,
    }
}

/// The stores.
pub open spec fn store_instr(v: u32) -> Option<RiscvInstr> {
    match v / 0x1000 % 8 {
        0 => Some(RiscvInstr::SB),
        1 => Some(RiscvInstr::SH),
        2 => Some(RiscvInstr::SW),
        3 => Some(RiscvInstr::SD),
        _ => None,
    }
}

/// The branches.
pub open spec fn branch_instr(v: u32) -> Option<RiscvInstr> {
    match v / 0x1000 % 8 {
        0 => Some(RiscvInstr::BEQ),
        1 => Some(RiscvInstr::BNE),
        4 => Some(RiscvInstr::BLT),
        5 => Some(RiscvInstr::BGE),
        6 => Some(RiscvInstr::BLTU),
        7 => Some(RiscvInstr::BGEU),
        _ => None,
    }
}

/// The fences.
pub open spec fn fence_instr(v: u32) -> Option<RiscvInstr> {
    match v / 0x1000 % 8 {
        0 => Some(RiscvInstr::FENCE),
        1 => Some(RiscvInstr::FENCE_I),
        _ => None,
    }
}

/// The operations with an immediate.
pub open spec fn op_imm_instr(v: u32) -> Option<RiscvInstr> {
    match v / 0x1000 % 8 {
        0 => Some(RiscvInstr::ADDI),
        1 => if v / 0x400_0000 == 0 {
            Some(RiscvInstr::SLLI)
        } else {
            None
        },
        2 => Some(RiscvInstr::SLTI),
        3 => Some(RiscvInstr::SLTIU),
        4 => Some(RiscvInstr::XORI),
        5 => match v / 0x400_0000 {
            0 => Some(RiscvInstr::SRLI),
            0b010000 => Some(RiscvInstr::SRAI),
            _ => None,
        },
        6 => Some(RiscvInstr::ORI),
        7 => Some(RiscvInstr::ANDI),
        _ => None,
    }
}

/// The operations on words with an immediate.
pub open spec fn op_imm_32_instr(v: u32) -> Option<RiscvInstr> {
    match v / 0x1000 % 8 {
        0 => Some(RiscvInstr::ADDIW),
        1 => if v / 0x200_0000 == 0 {
            Some(RiscvInstr::SLLIW)
        } else {
            None
        },
        5 => match v / 0x200_0000 {
            0 => Some(RiscvInstr::SRLIW),
            0b0100000 => Some(RiscvInstr::SRAIW),
            _ => None,
        },
        _ => None,
    }
}

/// The operations on registers.
pub open spec fn op_instr(v: u32) -> Option<RiscvInstr> {
    match v / 0x200_0000 {
        0 => match v / 0x1000 % 8 {
            0 => Some(RiscvInstr::ADD),
            1 => Some(RiscvInstr::SLL),
            2 => Some(RiscvInstr::SLT),
            3 => Some(RiscvInstr::SLTU),
            4 => Some(RiscvInstr::XOR),
            5 => Some(RiscvInstr::SRL),
            6 => Some(RiscvInstr::OR),
            7 => Some(RiscvInstr::AND),
            _ => None,
        },
        0b0100000 => match v / 0x1000 % 8 {
            0 => Some(RiscvInstr::SUB),
            5 => Some(RiscvInstr::SRA),
            _ => None,
        },
        1 => match v / 0x1000 % 8 {
            0 => Some(RiscvInstr::MUL),
            1 => Some(RiscvInstr::MULH),
            2 => Some(RiscvInstr::MULHSU),
            3 => Some(RiscvInstr::MULHU),
            4 => Some(RiscvInstr::DIV),
            5 => Some(RiscvInstr::DIVU),
            6 => Some(RiscvInstr::REM),
            7 => Some(RiscvInstr::REMU),
            _ => None,
        },
        _ => None,
    }
}

/// The operations on words in registers.
pub open spec fn op_32_instr(v: u32) -> Option<RiscvInstr> {
    match v / 0x200_0000 {
        0 => match v / 0x1000 % 8 {
            0 => Some(RiscvInstr::ADDW),
            1 => Some(RiscvInstr::SLLW),
            5 => Some(RiscvInstr::SRLW),
            _ => None,
        },
        0b0100000 => match v / 0x1000 % 8 {
            0 => Some(RiscvInstr::SUBW),
            5 => Some(RiscvInstr::SRAW),
            _ => None,
        },
        1 => match v / 0x1000 % 8 {
            0 => Some(RiscvInstr::MULW),
            4 => Some(RiscvInstr::DIVW),
            5 => Some(RiscvInstr::DIVUW),
            6 => Some(RiscvInstr::REMW),
            7 => Some(RiscvInstr::REMUW),
            _ => None,
        },
        _ => None,
    }
}

/// The system instructions.
pub open spec fn system_instr(v: u32) -> Option<RiscvInstr> {
    match v / 0x1000 % 8 {
        0 => privileged_instr(v),
        1 => Some(RiscvInstr::CSRRW),
        2 => Some(RiscvInstr::CSRRS),
        3 => Some(RiscvInstr::CSRRC),
        5 => Some(RiscvInstr::CSRRWI),
        6 => Some(RiscvInstr::CSRRSI),
        7 => Some(RiscvInstr::CSRRCI),
        _ => None,
    }
}

/// The system instructions without a register of their own.
pub open spec fn privileged_instr(v: u32) -> Option<RiscvInstr> {
    if v / 0x200_0000 == 0b0001001 && v / 0x80 % 32 == 0 {
        Some(RiscvInstr::SFENCE_VMA)
    } else {
        match v {
            0x0000_0073 => Some(RiscvInstr::ECALL),
            0x0010_0073 => Some(RiscvInstr::EBREAK),
            0x1020_0073 => Some(RiscvInstr::SRET),
            0x1050_0073 => Some(RiscvInstr::WFI),
            0x3020_0073 => Some(RiscvInstr::MRET),
            _ => None,
        }
    }
}

/// The atomic operations.
pub open spec fn amo_instr(v: u32) -> Option<RiscvInstr> {
    match v / 0x1000 % 8 {
        2 => match v / 0x800_0000 {
            0b00010 => if v / 0x10_0000 % 32 == 0 {
                Some(RiscvInstr::LR_W)
            } else {
                None
            },
            0b00011 => Some(RiscvInstr::SC_W),
            0b00000 => Some(RiscvInstr::AMOADD_W),
            0b00001 => Some(RiscvInstr::AMOSWAP_W),
            0b00100 => Some(RiscvInstr::AMOXOR_W),
            0b01000 => Some(RiscvInstr::AMOOR_W),
            0b01100 => Some(RiscvInstr::AMOAND_W),
            0b10000 => Some(RiscvInstr::AMOMIN_W),
            0b10100 => Some(RiscvInstr::AMOMAX_W),
            0b11000 => Some(RiscvInstr::AMOMINU_W),
            0b11100 => Some(RiscvInstr::AMOMAXU_W),
            _ => None,
        },
        3 => match v / 0x800_0000 {
            0b00010 => if v / 0x10_0000 % 32 == 0 {
                Some(RiscvInstr::LR_D)
            } else {
                None
            },
            0b00011 => Some(RiscvInstr::SC_D),
            0b00000 => Some(RiscvInstr::AMOADD_D),
            0b00001 => Some(RiscvInstr::AMOSWAP_D),
            0b00100 => Some(RiscvInstr::AMOXOR_D),
            0b01000 => Some(RiscvInstr::AMOOR_D),
            0b01100 => Some(RiscvInstr::AMOAND_D),
            0b10000 => Some(RiscvInstr::AMOMIN_D),
            0b10100 => Some(RiscvInstr::AMOMAX_D),
            0b11000 => Some(RiscvInstr::AMOMINU_D),
            0b11100 => Some(RiscvInstr::AMOMAXU_D),
            _ => None,
        },
        _ => None,
    }
}

/// The single-precision operations.
pub open spec fn single_instr(v: u32) -> Option<RiscvInstr> {
    match v / 0x200_0000 {
        0x0 => Some(RiscvInstr::FADD_S),
        0x4 => Some(RiscvInstr::FSUB_S),
        0x8 => Some(RiscvInstr::FMUL_S),
        0xc => Some(RiscvInstr::FDIV_S),
        0x2c => if v / 0x10_0000 % 32 == 0 {
            Some(RiscvInstr::FSQRT_S)
        } else {
            None
        },
        0x10 => match v / 0x1000 % 8 {
            0 => Some(RiscvInstr::FSGNJ_S),
            1 => Some(RiscvInstr::FSGNJN_S),
            2 => Some(RiscvInstr::FSGNJX_S),
            _ => None,
        },
        0x14 => match v / 0x1000 % 8 {
            0 => Some(RiscvInstr::FMIN_S),
            1 => Some(RiscvInstr::FMAX_S),
            _ => None,
        },
        0x50 => match v / 0x1000 % 8 {
            0 => Some(RiscvInstr::FLE_S),
            1 => Some(RiscvInstr::FLT_S),
            2 => Some(RiscvInstr::FEQ_S),
            _ => None,
        },
        0x60 => match v / 0x10_0000 % 32 {
            0 => Some(RiscvInstr::FCVT_W_S),
            1 => Some(RiscvInstr::FCVT_WU_S),
            2 => Some(RiscvInstr::FCVT_L_S),
            3 => Some(RiscvInstr::FCVT_LU_S),
            _ => None,
        },
        0x68 => match v / 0x10_0000 % 32 {
            0 => Some(RiscvInstr::FCVT_S_W),
            1 => Some(RiscvInstr::FCVT_S_WU),
            2 => Some(RiscvInstr::FCVT_S_L),
            3 => Some(RiscvInstr::FCVT_S_LU),
            _ => None,
        },
        0x70 => if v / 0x10_0000 % 32 == 0 {
            match v / 0x1000 % 8 {
                0 => Some(RiscvInstr::FMV_X_W),
                1 => Some(RiscvInstr::FCLASS_S),
                _ => None,
            }
        } else {
            None
        },
        0x78 => if v / 0x10_0000 % 32 == 0 && v / 0x1000 % 8 == 0 {
            Some(RiscvInstr::FMV_W_X)
        } else {
            None
        },
        0x20 => if v / 0x10_0000 % 32 == 1 {
            Some(RiscvInstr::FCVT_S_D)
        } else {
            None
        },
        _ => None,
    }
}

/// The double-precision operations.
pub open spec fn double_instr(v: u32) -> Option<RiscvInstr> {
    match v / 0x200_0000 {
        0x1 => Some(RiscvInstr::FADD_D),
        0x5 => Some(RiscvInstr::FSUB_D),
        0x9 => Some(RiscvInstr::FMUL_D),
        0xd => Some(RiscvInstr::FDIV_D),
        0x2d => if v / 0x10_0000 % 32 == 0 {
            Some(RiscvInstr::FSQRT_D)
        } else {
            None
        },
        0x11 => match v / 0x1000 % 8 {
            0 => Some(RiscvInstr::FSGNJ_D),
            1 => Some(RiscvInstr::FSGNJN_D),
            2 => Some(RiscvInstr::FSGNJX_D),
            _ => None,
        },
        0x15 => match v / 0x1000 % 8 {
            0 => Some(RiscvInstr::FMIN_D),
            1 => Some(RiscvInstr::FMAX_D),
            _ => None,
        },
        0x51 => match v / 0x1000 % 8 {
            0 => Some(RiscvInstr::FLE_D),
            1 => Some(RiscvInstr::FLT_D),
            2 => Some(RiscvInstr::FEQ_D),
            _ => None,
        },
        0x61 => match v / 0x10_0000 % 32 {
            0 => Some(RiscvInstr::FCVT_W_D),
            1 => Some(RiscvInstr::FCVT_WU_D),
            2 => Some(RiscvInstr::FCVT_L_D),
            3 => Some(RiscvInstr::FCVT_LU_D),
            _ => None,
        },
        0x69 => match v / 0x10_0000 % 32 {
            0 => Some(RiscvInstr::FCVT_D_W),
            1 => Some(RiscvInstr::FCVT_D_WU),
            2 => Some(RiscvInstr::FCVT_D_L),
            3 => Some(RiscvInstr::FCVT_D_LU),
            _ => None,
        },
        0x71 => if v / 0x10_0000 % 32 == 0 {
            match v / 0x1000 % 8 {
                0 => Some(RiscvInstr::FMV_X_D),
                1 => Some(RiscvInstr::FCLASS_D),
                _ => None,
            }
        } else {
            None
        },
        0x79 => if v / 0x10_0000 % 32 == 0 && v / 0x1000 % 8 == 0 {
            Some(RiscvInstr::FMV_D_X)
        } else {
            None
        },
        0x21 => if v / 0x10_0000 % 32 == 0 {
            Some(RiscvInstr::FCVT_D_S)
        } else {
            None
        },
        _ => None,
    }
}

/// A fused operation.
pub open spec fn madd_instr(v: u32) -> Option<RiscvInstr> {
    match v / 0x200_0000 % 4 {
        0 => Some(RiscvInstr::FMADD_S),
        1 => Some(RiscvInstr::FMADD_D),
        _ => None,
    }
}

/// A fused operation.
pub open spec fn msub_instr(v: u32) -> Option<RiscvInstr> {
    match v / 0x200_0000 % 4 {
        0 => Some(RiscvInstr::FMSUB_S),
        1 => Some(RiscvInstr::FMSUB_D),
        _ => None,
    }
}

/// A fused operation.
pub open spec fn nmsub_instr(v: u32) -> Option<RiscvInstr> {
    match v / 0x200_0000 % 4 {
        0 => Some(RiscvInstr::FNMSUB_S),
        1 => Some(RiscvInstr::FNMSUB_D),
        _ => None,
    }
}

/// A fused operation.
pub open spec fn nmadd_instr(v: u32) -> Option<RiscvInstr> {
    match v / 0x200_0000 % 4 {
        0 => Some(RiscvInstr::FNMADD_S),
        1 => Some(RiscvInstr::FNMADD_D),
        _ => None,
    }
}

/// The vector loads of consecutive elements.
pub open spec fn vector_unit_load_instr(v: u32) -> Option<RiscvInstr> {
    match v / 0x10_0000 % 32 {
        0b00000 => match v / 0x1000 % 8 {
            0 => Some(RiscvInstr::VLE_V(Vsew::E8)),
            5 => Some(RiscvInstr::VLE_V(Vsew::E16)),
            6 => Some(RiscvInstr::VLE_V(Vsew::E32)),
            7 => Some(RiscvInstr::VLE_V(Vsew::E64)),
            _ => None,
        },
        0b01000 => if (v / 0x2000_0000 == 0 || v / 0x2000_0000 == 1 || v / 0x2000_0000 == 3 || v / 0x2000_0000 == 7) && v / 0x200_0000 % 2 == 1 {
            match v / 0x1000 % 8 {
                0 => Some(RiscvInstr::VLRE_V(Vsew::E8)),
                5 => Some(RiscvInstr::VLRE_V(Vsew::E16)),
                6 => Some(RiscvInstr::VLRE_V(Vsew::E32)),
                7 => Some(RiscvInstr::VLRE_V(Vsew::E64)),
                _ => None,
            }
        } else {
            None
        },
        0b01011 => if v / 0x2000_0000 == 0 && v / 0x200_0000 % 2 == 1 && v / 0x1000 % 8 == 0 {
            Some(RiscvInstr::VLM_V)
        } else {
            None
        },
        0b10000 => match v / 0x1000 % 8 {
            0 => Some(RiscvInstr::VLEFF_V(Vsew::E8)),
            5 => Some(RiscvInstr::VLEFF_V(Vsew::E16)),
            6 => Some(RiscvInstr::VLEFF_V(Vsew::E32)),
            7 => Some(RiscvInstr::VLEFF_V(Vsew::E64)),
            _ => None,
        },
        _ => None,
    }
}

/// The vector loads.
pub open spec fn vector_load_instr(v: u32) -> Option<RiscvInstr> {
    if v / 0x1000_0000 % 2 != 0 {
        None
    } else {
        match v / 0x400_0000 % 4 {
            0 => vector_unit_load_instr(v),
            1 => match v / 0x1000 % 8 {
                0 => Some(RiscvInstr::VLUXEI_V(Vsew::E8)),
                5 => Some(RiscvInstr::VLUXEI_V(Vsew::E16)),
                6 => Some(RiscvInstr::VLUXEI_V(Vsew::E32)),
                7 => Some(RiscvInstr::VLUXEI_V(Vsew::E64)),
                _ => None,
            },
            2 => match v / 0x1000 % 8 {
                0 => Some(RiscvInstr::VLSE_V(Vsew::E8)),
                5 => Some(RiscvInstr::VLSE_V(Vsew::E16)),
                6 => Some(RiscvInstr::VLSE_V(Vsew::E32)),
                7 => Some(RiscvInstr::VLSE_V(Vsew::E64)),
                _ => None,
            },
            _ => match v / 0x1000 % 8 {
                0 => Some(RiscvInstr::VLOXEI_V(Vsew::E8)),
                5 => Some(RiscvInstr::VLOXEI_V(Vsew::E16)),
                6 => Some(RiscvInstr::VLOXEI_V(Vsew::E32)),
                7 => Some(RiscvInstr::VLOXEI_V(Vsew::E64)),
                _ => None,
            },
        }
    }
}

/// The vector stores of consecutive elements.
pub open spec fn vector_unit_store_instr(v: u32) -> Option<RiscvInstr> {
    match v / 0x10_0000 % 32 {
        0b00000 => match v / 0x1000 % 8 {
            0 => Some(RiscvInstr::VSE_V(Vsew::E8)),
            5 => Some(RiscvInstr::VSE_V(Vsew::E16)),
            6 => Some(RiscvInstr::VSE_V(Vsew::E32)),
            7 => Some(RiscvInstr::VSE_V(Vsew::E64)),
            _ => None,
        },
        0b01000 => if (v / 0x2000_0000 == 0 || v / 0x2000_0000 == 1 || v / 0x2000_0000 == 3 || v / 0x2000_0000 == 7) && v / 0x200_0000 % 2 == 1 && v / 0x1000 % 8 == 0 {
            Some(RiscvInstr::VSR_V)
        } else {
            None
        },
        0b01011 => if v / 0x2000_0000 == 0 && v / 0x200_0000 % 2 == 1 && v / 0x1000 % 8 == 0 {
            Some(RiscvInstr::VSM_V)
        } else {
            None
        },
        _ => None,
    }
}

/// The vector stores.
pub open spec fn vector_store_instr(v: u32) -> Option<RiscvInstr> {
    if v / 0x1000_0000 % 2 != 0 {
        None
    } else {
        match v / 0x400_0000 % 4 {
            0 => vector_unit_store_instr(v),
            1 => match v / 0x1000 % 8 {
                0 => Some(RiscvInstr::VSUXEI_V(Vsew::E8)),
                5 => Some(RiscvInstr::VSUXEI_V(Vsew::E16)),
                6 => Some(RiscvInstr::VSUXEI_V(Vsew::E32)),
                7 => Some(RiscvInstr::VSUXEI_V(Vsew::E64)),
                _ => None,
            },
            2 => match v / 0x1000 % 8 {
                0 => Some(RiscvInstr::VSSE_V(Vsew::E8)),
                5 => Some(RiscvInstr::VSSE_V(Vsew::E16)),
                6 => Some(RiscvInstr::VSSE_V(Vsew::E32)),
                7 => Some(RiscvInstr::VSSE_V(Vsew::E64)),
                _ => None,
            },
            _ => match v / 0x1000 % 8 {
                0 => Some(RiscvInstr::VSOXEI_V(Vsew::E8)),
                5 => Some(RiscvInstr::VSOXEI_V(Vsew::E16)),
                6 => Some(RiscvInstr::VSOXEI_V(Vsew::E32)),
                7 => Some(RiscvInstr::VSOXEI_V(Vsew::E64)),
                _ => None,
            },
        }
    }
}

/// The floating-point and vector loads.
pub open spec fn load_fp_instr(v: u32) -> Option<RiscvInstr> {
    match v / 0x1000 % 8 {
        2 => Some(RiscvInstr::FLW),
        3 => Some(RiscvInstr::FLD),
        _ => vector_load_instr(v),
    }
}

/// The floating-point and vector stores.
pub open spec fn store_fp_instr(v: u32) -> Option<RiscvInstr> {
    match v / 0x1000 % 8 {
        2 => Some(RiscvInstr::FSW),
        3 => Some(RiscvInstr::FSD),
        _ => vector_store_instr(v),
    }
}

/// The integer vector operations on two vectors.
pub open spec fn opivv_instr(v: u32) -> Option<RiscvInstr> {
    match v / 0x400_0000 {
        0b000000 => Some(RiscvInstr::VADD_VV),
        0b000010 => Some(RiscvInstr::VSUB_VV),
        0b000100 => Some(RiscvInstr::VMINU_VV),
        0b000101 => Some(RiscvInstr::VMIN_VV),
        0b000110 => Some(RiscvInstr::VMAXU_VV),
        0b000111 => Some(RiscvInstr::VMAX_VV),
        0b001001 => Some(RiscvInstr::VAND_VV),
        0b001010 => Some(RiscvInstr::VOR_VV),
        0b001011 => Some(RiscvInstr::VXOR_VV),
        0b001100 => Some(RiscvInstr::VRGATHER_VV),
        0b001110 => Some(RiscvInstr::VRGATHEREI16_VV),
        0b010000 => if v / 0x200_0000 % 2 == 0 {
            Some(RiscvInstr::VADC_VVM)
        } else {
            None
        },
        0b010001 => if v / 0x200_0000 % 2 == 0 {
            Some(RiscvInstr::VMADC_VVM)
        } else {
            Some(RiscvInstr::VMADC_VV)
        },
        0b010010 => if v / 0x200_0000 % 2 == 0 {
            Some(RiscvInstr::VSBC_VVM)
        } else {
            None
        },
        0b010011 => if v / 0x200_0000 % 2 == 0 {
            Some(RiscvInstr::VMSBC_VVM)
        } else {
            Some(RiscvInstr::VMSBC_VV)
        },
        0b010111 => if v / 0x200_0000 % 2 == 0 {
            Some(RiscvInstr::VMERGE_VVM)
        } else {
            Some(RiscvInstr::VMV_V_V)
        },
        0b011000 => Some(RiscvInstr::VMSEQ_VV),
        0b011001 => Some(RiscvInstr::VMSNE_VV),
        0b011010 => Some(RiscvInstr::VMSLTU_VV),
        0b011011 => Some(RiscvInstr::VMSLT_VV),
        0b011100 => Some(RiscvInstr::VMSLEU_VV),
        0b011101 => Some(RiscvInstr::VMSLE_VV),
        0b100000 => Some(RiscvInstr::VSADDU_VV),
        0b100001 => Some(RiscvInstr::VSADD_VV),
        0b100010 => Some(RiscvInstr::VSSUBU_VV),
        0b100011 => Some(RiscvInstr::VSSUB_VV),
        0b100101 => Some(RiscvInstr::VSLL_VV),
        0b100111 => Some(RiscvInstr::VSMUL_VV),
        0b101000 => Some(RiscvInstr::VSRL_VV),
        0b101001 => Some(RiscvInstr::VSRA_VV),
        0b101010 => Some(RiscvInstr::VSSRL_VV),
        0b101011 => Some(RiscvInstr::VSSRA_VV),
        0b101100 => Some(RiscvInstr::VNSRL_WV),
        0b101101 => Some(RiscvInstr::VNSRA_WV),
        0b101110 => Some(RiscvInstr::VNCLIPU_WV),
        0b101111 => Some(RiscvInstr::VNCLIP_WV),
        _ => None,
    }
}

/// The integer vector operations with a register.
pub open spec fn opivx_instr(v: u32) -> Option<RiscvInstr> {
    match v / 0x400_0000 {
        0b000000 => Some(RiscvInstr::VADD_VX),
        0b000010 => Some(RiscvInstr::VSUB_VX),
        0b000011 => Some(RiscvInstr::VRSUB_VX),
        0b000100 => Some(RiscvInstr::VMINU_VX),
        0b000101 => Some(RiscvInstr::VMIN_VX),
        0b000110 => Some(RiscvInstr::VMAXU_VX),
        0b000111 => Some(RiscvInstr::VMAX_VX),
        0b001001 => Some(RiscvInstr::VAND_VX),
        0b001010 => Some(RiscvInstr::VOR_VX),
        0b001011 => Some(RiscvInstr::VXOR_VX),
        0b001100 => Some(RiscvInstr::VRGATHER_VX),
        0b001110 => Some(RiscvInstr::VSLIDEUP_VX),
        0b001111 => Some(RiscvInstr::VSLIDEDOWN_VX),
        0b010000 => if v / 0x200_0000 % 2 == 0 {
            Some(RiscvInstr::VADC_VXM)
        } else {
            None
        },
        0b010001 => if v / 0x200_0000 % 2 == 0 {
            Some(RiscvInstr::VMADC_VXM)
        } else {
            Some(RiscvInstr::VMADC_VX)
        },
        0b010010 => if v / 0x200_0000 % 2 == 0 {
            Some(RiscvInstr::VSBC_VXM)
        } else {
            None
        },
        0b010011 => if v / 0x200_0000 % 2 == 0 {
            Some(RiscvInstr::VMSBC_VXM)
        } else {
            Some(RiscvInstr::VMSBC_VX)
        },
        0b010111 => if v / 0x200_0000 % 2 == 0 {
            Some(RiscvInstr::VMERGE_VXM)
        } else {
            Some(RiscvInstr::VMV_V_X)
        },
        0b011000 => Some(RiscvInstr::VMSEQ_VX),
        0b011001 => Some(RiscvInstr::VMSNE_VX),
        0b011010 => Some(RiscvInstr::VMSLTU_VX),
        0b011011 => Some(RiscvInstr::VMSLT_VX),
        0b011100 => Some(RiscvInstr::VMSLEU_VX),
        0b011101 => Some(RiscvInstr::VMSLE_VX),
        0b011110 => Some(RiscvInstr::VMSGTU_VX),
        0b011111 => Some(RiscvInstr::VMSGT_VX),
        0b100000 => Some(RiscvInstr::VSADDU_VX),
        0b100001 => Some(RiscvInstr::VSADD_VX),
        0b100010 => Some(RiscvInstr::VSSUBU_VX),
        0b100011 => Some(RiscvInstr::VSSUB_VX),
        0b100101 => Some(RiscvInstr::VSLL_VX),
        0b100111 => Some(RiscvInstr::VSMUL_VX),
        0b101000 => Some(RiscvInstr::VSRL_VX),
        0b101001 => Some(RiscvInstr::VSRA_VX),
        0b101010 => Some(RiscvInstr::VSSRL_VX),
        0b101011 => Some(RiscvInstr::VSSRA_VX),
        0b101100 => Some(RiscvInstr::VNSRL_WX),
        0b101101 => Some(RiscvInstr::VNSRA_WX),
        0b101110 => Some(RiscvInstr::VNCLIPU_WX),
        0b101111 => Some(RiscvInstr::VNCLIP_WX),
        _ => None,
    }
}

/// The integer vector operations with an immediate.
pub open spec fn opivi_instr(v: u32) -> Option<RiscvInstr> {
    match v / 0x400_0000 {
        0b000000 => Some(RiscvInstr::VADD_VI),
        0b000011 => Some(RiscvInstr::VRSUB_VI),
        0b001001 => Some(RiscvInstr::VAND_VI),
        0b001010 => Some(RiscvInstr::VOR_VI),
        0b001011 => Some(RiscvInstr::VXOR_VI),
        0b001100 => Some(RiscvInstr::VRGATHER_VI),
        0b001110 => Some(RiscvInstr::VSLIDEUP_VI),
        0b001111 => Some(RiscvInstr::VSLIDEDOWN_VI),
        0b010000 => if v / 0x200_0000 % 2 == 0 {
            Some(RiscvInstr::VADC_VIM)
        } else {
            None
        },
        0b010001 => if v / 0x200_0000 % 2 == 0 {
            Some(RiscvInstr::VMADC_VIM)
        } else {
            Some(RiscvInstr::VMADC_VI)
        },
        0b010111 => if v / 0x200_0000 % 2 == 0 {
            Some(RiscvInstr::VMERGE_VIM)
        } else {
            Some(RiscvInstr::VMV_V_I)
        },
        0b011000 => Some(RiscvInstr::VMSEQ_VI),
        0b011001 => Some(RiscvInstr::VMSNE_VI),
        0b011100 => Some(RiscvInstr::VMSLEU_VI),
        0b011101 => Some(RiscvInstr::VMSLE_VI),
        0b011110 => Some(RiscvInstr::VMSGTU_VI),
        0b011111 => Some(RiscvInstr::VMSGT_VI),
        0b100000 => Some(RiscvInstr::VSADDU_VI),
        0b100001 => Some(RiscvInstr::VSADD_VI),
        0b100101 => Some(RiscvInstr::VSLL_VI),
        0b100111 => if v / 0x200_0000 % 2 == 1 {
            match v / 0x8000 % 32 {
                0 => Some(RiscvInstr::VMV1R_V),
                1 => Some(RiscvInstr::VMV2R_V),
                3 => Some(RiscvInstr::VMV4R_V),
                7 => Some(RiscvInstr::VMV8R_V),
                _ => None,
            }
        } else {
            None
        },
        0b101000 => Some(RiscvInstr::VSRL_VI),
        0b101001 => Some(RiscvInstr::VSRA_VI),
        0b101010 => Some(RiscvInstr::VSSRL_VI),
        0b101011 => Some(RiscvInstr::VSSRA_VI),
        0b101100 => Some(RiscvInstr::VNSRL_WI),
        0b101101 => Some(RiscvInstr::VNSRA_WI),
        0b101110 => Some(RiscvInstr::VNCLIPU_WI),
        0b101111 => Some(RiscvInstr::VNCLIP_WI),
        _ => None,
    }
}

/// The other integer vector operations on two vectors.
pub open spec fn opmvv_instr(v: u32) -> Option<RiscvInstr> {
    match v / 0x400_0000 {
        0b001000 => Some(RiscvInstr::VAADDU_VV),
        0b001001 => Some(RiscvInstr::VAADD_VV),
        0b001010 => Some(RiscvInstr::VASUBU_VV),
        0b001011 => Some(RiscvInstr::VASUB_VV),
        0b010000 => match v / 0x8000 % 32 {
            0b00000 => Some(RiscvInstr::VMV_X_S),
            0b10000 => Some(RiscvInstr::VCPOP_M),
            0b10001 => Some(RiscvInstr::VFIRST_M),
            _ => None,
        },
        0b010010 => match v / 0x8000 % 32 {
            0b00010 => Some(RiscvInstr::VZEXT_VF8),
            0b00011 => Some(RiscvInstr::VSEXT_VF8),
            0b00100 => Some(RiscvInstr::VZEXT_VF4),
            0b00101 => Some(RiscvInstr::VSEXT_VF4),
            0b00110 => Some(RiscvInstr::VZEXT_VF2),
            0b00111 => Some(RiscvInstr::VSEXT_VF2),
            _ => None,
        },
        0b010100 => match v / 0x8000 % 32 {
            0b00001 => Some(RiscvInstr::VMSBF_M),
            0b00010 => Some(RiscvInstr::VMSOF_M),
            0b00011 => Some(RiscvInstr::VMSIF_M),
            0b10000 => Some(RiscvInstr::VIOTA_M),
            0b10001 => Some(RiscvInstr::VID_V),
            _ => None,
        },
        0b010111 => Some(RiscvInstr::VCOMPRESS_VM),
        0b011000 => Some(RiscvInstr::VMANDN_MM),
        0b011001 => Some(RiscvInstr::VMAND_MM),
        0b011010 => Some(RiscvInstr::VMOR_MM),
        0b011011 => Some(RiscvInstr::VMXOR_MM),
        0b011100 => Some(RiscvInstr::VMORN_MM),
        0b011101 => Some(RiscvInstr::VMNAND_MM),
        0b011110 => Some(RiscvInstr::VMNOR_MM),
        0b011111 => Some(RiscvInstr::VMXNOR_MM),
        0b100000 => Some(RiscvInstr::VDIVU_VV),
        0b100001 => Some(RiscvInstr::VDIV_VV),
        0b100010 => Some(RiscvInstr::VREMU_VV),
        0b100011 => Some(RiscvInstr::VREM_VV),
        0b100100 => Some(RiscvInstr::VMULHU_VV),
        0b100101 => Some(RiscvInstr::VMUL_VV),
        0b100110 => Some(RiscvInstr::VMULHSU_VV),
        0b100111 => Some(RiscvInstr::VMULH_VV),
        0b101001 => Some(RiscvInstr::VMADD_VV),
        0b101011 => Some(RiscvInstr::VNMSUB_VV),
        0b101101 => Some(RiscvInstr::VMACC_VV),
        0b101111 => Some(RiscvInstr::VNMSAC_VV),
        0b110000 => Some(RiscvInstr::VWADDU_VV),
        0b110001 => Some(RiscvInstr::VWADD_VV),
        0b110010 => Some(RiscvInstr::VWSUBU_VV),
        0b110011 => Some(RiscvInstr::VWSUB_VV),
        0b110100 => Some(RiscvInstr::VWADDU_WV),
        0b110101 => Some(RiscvInstr::VWADD_WV),
        0b110110 => Some(RiscvInstr::VWSUBU_WV),
        0b110111 => Some(RiscvInstr::VWSUB_WV),
        0b111000 => Some(RiscvInstr::VWMULU_VV),
        0b111010 => Some(RiscvInstr::VWMULSU_VV),
        0b111011 => Some(RiscvInstr::VWMUL_VV),
        0b111100 => Some(RiscvInstr::VWMACCU_VV),
        0b111101 => Some(RiscvInstr::VWMACC_VV),
        0b111111 => Some(RiscvInstr::VWMACCSU_VV),
        _ => None,
    }
}

/// The other integer vector operations with a register.
pub open spec fn opmvx_instr(v: u32) -> Option<RiscvInstr> {
    match v / 0x400_0000 {
        0b001000 => Some(RiscvInstr::VAADDU_VX),
        0b001001 => Some(RiscvInstr::VAADD_VX),
        0b001010 => Some(RiscvInstr::VASUBU_VX),
        0b001011 => Some(RiscvInstr::VASUB_VX),
        0b001110 => Some(RiscvInstr::VSLIDE1UP_VX),
        0b001111 => Some(RiscvInstr::VSLIDE1DOWN_VX),
        0b010000 => if v / 0x10_0000 % 32 == 0 {
            Some(RiscvInstr::VMV_S_X)
        } else {
            None
        },
        0b100000 => Some(RiscvInstr::VDIVU_VX),
        0b100001 => Some(RiscvInstr::VDIV_VX),
        0b100010 => Some(RiscvInstr::VREMU_VX),
        0b100011 => Some(RiscvInstr::VREM_VX),
        0b100100 => Some(RiscvInstr::VMULHU_VX),
        0b100101 => Some(RiscvInstr::VMUL_VX),
        0b100110 => Some(RiscvInstr::VMULHSU_VX),
        0b100111 => Some(RiscvInstr::VMULH_VX),
        0b101001 => Some(RiscvInstr::VMADD_VX),
        0b101011 => Some(RiscvInstr::VNMSUB_VX),
        0b101101 => Some(RiscvInstr::VMACC_VX),
        0b101111 => Some(RiscvInstr::VNMSAC_VX),
        0b110000 => Some(RiscvInstr::VWADDU_VX),
        0b110001 => Some(RiscvInstr::VWADD_VX),
        0b110010 => Some(RiscvInstr::VWSUBU_VX),
        0b110011 => Some(RiscvInstr::VWSUB_VX),
        0b110100 => Some(RiscvInstr::VWADDU_WX),
        0b110101 => Some(RiscvInstr::VWADD_WX),
        0b110110 => Some(RiscvInstr::VWSUBU_WX),
        0b110111 => Some(RiscvInstr::VWSUB_WX),
        0b111000 => Some(RiscvInstr::VWMULU_VX),
        0b111010 => Some(RiscvInstr::VWMULSU_VX),
        0b111011 => Some(RiscvInstr::VWMUL_VX),
        0b111100 => Some(RiscvInstr::VWMACCU_VX),
        0b111101 => Some(RiscvInstr::VWMACC_VX),
        0b111110 => Some(RiscvInstr::VWMACCUS_VX),
        0b111111 => Some(RiscvInstr::VWMACCSU_VX),
        _ => None,
    }
}

/// The instructions that configure the vector unit.
pub open spec fn vector_config_instr(v: u32) -> Option<RiscvInstr> {
    if v < 0x8000_0000 {
        Some(RiscvInstr::VSETVLI)
    } else if v >= 0xc000_0000 {
        Some(RiscvInstr::VSETIVLI)
    } else if v / 0x200_0000 == 0b1000000 {
        Some(RiscvInstr::VSETVL)
    } else {
        None
    }
}

/// The vector operations.
pub open spec fn op_v_instr(v: u32) -> Option<RiscvInstr> {
    match v / 0x1000 % 8 {
        0 => opivv_instr(v),
        2 => opmvv_instr(v),
        3 => opivi_instr(v),
        4 => opivx_instr(v),
        6 => opmvx_instr(v),
        7 => vector_config_instr(v),
        _ => None,
    }
}

/// The floating-point operations.
pub open spec fn op_fp_instr(v: u32) -> Option<RiscvInstr> {
    if v / 0x200_0000 % 4 == 0 {
        single_instr(v)
    } else {
        double_instr(v)
    }
}

/// The instructions of four bytes.
pub open spec fn full_instr(v: u32) -> Option<RiscvInstr> {
    match v % 0x80 {
        0x03 => load_instr(v),
        0x07 => load_fp_instr(v),
        0x0f => fence_instr(v),
        0x13 => op_imm_instr(v),
        0x17 => Some(RiscvInstr::AUIPC),
        0x1b => op_imm_32_instr(v),
        0x23 => store_instr(v),
        0x27 => store_fp_instr(v),
        0x2f => amo_instr(v),
        0x33 => op_instr(v),
        0x37 => Some(RiscvInstr::LUI),
        0x3b => op_32_instr(v),
        0x43 => madd_instr(v),
        0x47 => msub_instr(v),
        0x4b => nmsub_instr(v),
        0x4f => nmadd_instr(v),
        0x53 => op_fp_instr(v),
        0x57 => op_v_instr(v),
        0x63 => branch_instr(v),
        0x67 => if v / 0x1000 % 8 == 0 {
            Some(RiscvInstr::JALR)
        } else {
            None
        },
        0x6f => Some(RiscvInstr::JAL),
        0x73 => system_instr(v),
        _ => None,
    }
}

/// The two-byte instructions of the first quadrant.
pub open spec fn quadrant0_instr(v: u32) -> Option<RiscvInstr> {
    match v / 0x2000 % 8 {
        0 => if v % 0x1_0000 == 0 {
            Some(RiscvInstr::ILLEGAL)
        } else if v / 0x20 % 0x100 == 0 {
            None
        } else {
            Some(RiscvInstr::C_ADDI4SPN)
        },
        1 => Some(RiscvInstr::C_FLD),
        2 => Some(RiscvInstr::C_LW),
        3 => Some(RiscvInstr::C_LD),
        5 => Some(RiscvInstr::C_FSD),
        6 => Some(RiscvInstr::C_SW),
        7 => Some(RiscvInstr::C_SD),
        _ => None,
    }
}

/// The two-byte instructions of the second quadrant.
pub open spec fn quadrant1_instr(v: u32) -> Option<RiscvInstr> {
    match v / 0x2000 % 8 {
        0 => if v / 0x80 % 32 == 0 {
            Some(RiscvInstr::C_NOP)
        } else {
            Some(RiscvInstr::C_ADDI)
        },
        1 => if v / 0x80 % 32 == 0 {
            None
        } else {
            Some(RiscvInstr::C_ADDIW)
        },
        2 => Some(RiscvInstr::C_LI),
        3 => if v / 0x1000 % 2 == 0 && v / 4 % 32 == 0 {
            None
        } else if v / 0x80 % 32 == 2 {
            Some(RiscvInstr::C_ADDI16SP)
        } else {
            Some(RiscvInstr::C_LUI)
        },
        4 => match v / 0x400 % 4 {
            0 => Some(RiscvInstr::C_SRLI),
            1 => Some(RiscvInstr::C_SRAI),
            2 => Some(RiscvInstr::C_ANDI),
            _ => match (v / 0x1000 % 2, v / 0x20 % 4) {
                (0, 0) => Some(RiscvInstr::C_SUB),
                (0, 1) => Some(RiscvInstr::C_XOR),
                (0, 2) => Some(RiscvInstr::C_OR),
                (0, 3) => Some(RiscvInstr::C_AND),
                (1, 0) => Some(RiscvInstr::C_SUBW),
                (1, 1) => Some(RiscvInstr::C_ADDW),
                _ => None,
            },
        },
        5 => Some(RiscvInstr::C_J),
        6 => Some(RiscvInstr::C_BEQZ),
        _ => Some(RiscvInstr::C_BNEZ),
    }
}

/// The two-byte instructions of the third quadrant.
pub open spec fn quadrant2_instr(v: u32) -> Option<RiscvInstr> {
    match v / 0x2000 % 8 {
        0 => Some(RiscvInstr::C_SLLI),
        1 => Some(RiscvInstr::C_FLDSP),
        2 => if v / 0x80 % 32 == 0 {
            None
        } else {
            Some(RiscvInstr::C_LWSP)
        },
        3 => if v / 0x80 % 32 == 0 {
            None
        } else {
            Some(RiscvInstr::C_LDSP)
        },
        4 => if v / 0x1000 % 2 == 0 {
            if v / 4 % 32 != 0 {
                Some(RiscvInstr::C_MV)
            } else if v / 0x80 % 32 != 0 {
                Some(RiscvInstr::C_JR)
            } else {
                None
            }
        } else if v / 4 % 32 != 0 {
            Some(RiscvInstr::C_ADD)
        } else if v / 0x80 % 32 != 0 {
            Some(RiscvInstr::C_JALR)
        } else {
            Some(RiscvInstr::C_EBREAK)
        },
        5 => Some(RiscvInstr::C_FSDSP),
        6 => Some(RiscvInstr::C_SWSP),
        _ => Some(RiscvInstr::C_SDSP),
    }
}

/// All instructions, by their length.
pub open spec fn any_instr(v: u32) -> Option<RiscvInstr> {
    match v % 4 {
        0 => quadrant0_instr(v),
        1 => quadrant1_instr(v),
        2 => quadrant2_instr(v),
        _ => full_instr(v),
    }
}

proof fn lemma_load_length(v: u32)
    ensures
        load_instr(v) is Some ==> !load_instr(v)->0.compressed(),
{
}

proof fn lemma_store_length(v: u32)
    ensures
        store_instr(v) is Some ==> !store_instr(v)->0.compressed(),
{
}

proof fn lemma_branch_length(v: u32)
    ensures
        branch_instr(v) is Some ==> !branch_instr(v)->0.compressed(),
{
}

proof fn lemma_fence_length(v: u32)
    ensures
        fence_instr(v) is Some ==> !fence_instr(v)->0.compressed(),
{
}

proof fn lemma_op_imm_length(v: u32)
    ensures
        op_imm_instr(v) is Some ==> !op_imm_instr(v)->0.compressed(),
{
}

proof fn lemma_op_imm_32_length(v: u32)
    ensures
        op_imm_32_instr(v) is Some ==> !op_imm_32_instr(v)->0.compressed(),
{
}

proof fn lemma_op_length(v: u32)
    ensures
        op_instr(v) is Some ==> !op_instr(v)->0.compressed(),
{
}

proof fn lemma_op_32_length(v: u32)
    ensures
        op_32_instr(v) is Some ==> !op_32_instr(v)->0.compressed(),
{
}

proof fn lemma_system_length(v: u32)
    ensures
        system_instr(v) is Some ==> !system_instr(v)->0.compressed(),
{
    lemma_privileged_length(v);
}

proof fn lemma_privileged_length(v: u32)
    ensures
        privileged_instr(v) is Some ==> !privileged_instr(v)->0.compressed(),
{
}

proof fn lemma_amo_length(v: u32)
    ensures
        amo_instr(v) is Some ==> !amo_instr(v)->0.compressed(),
{
}

proof fn lemma_single_length(v: u32)
    ensures
        single_instr(v) is Some ==> !single_instr(v)->0.compressed(),
{
}

proof fn lemma_double_length(v: u32)
    ensures
        double_instr(v) is Some ==> !double_instr(v)->0.compressed(),
{
}

proof fn lemma_madd_length(v: u32)
    ensures
        madd_instr(v) is Some ==> !madd_instr(v)->0.compressed(),
{
}

proof fn lemma_msub_length(v: u32)
    ensures
        msub_instr(v) is Some ==> !msub_instr(v)->0.compressed(),
{
}

proof fn lemma_nmsub_length(v: u32)
    ensures
        nmsub_instr(v) is Some ==> !nmsub_instr(v)->0.compressed(),
{
}

proof fn lemma_nmadd_length(v: u32)
    ensures
        nmadd_instr(v) is Some ==> !nmadd_instr(v)->0.compressed(),
{
}

proof fn lemma_vector_unit_load_length(v: u32)
    ensures
        vector_unit_load_instr(v) is Some ==> !vector_unit_load_instr(v)->0.compressed(),
{
}

proof fn lemma_vector_load_length(v: u32)
    ensures
        vector_load_instr(v) is Some ==> !vector_load_instr(v)->0.compressed(),
{
    lemma_vector_unit_load_length(v);
}

proof fn lemma_vector_unit_store_length(v: u32)
    ensures
        vector_unit_store_instr(v) is Some ==> !vector_unit_store_instr(v)->0.compressed(),
{
}

proof fn lemma_vector_store_length(v: u32)
    ensures
        vector_store_instr(v) is Some ==> !vector_store_instr(v)->0.compressed(),
{
    lemma_vector_unit_store_length(v);
}

proof fn lemma_load_fp_length(v: u32)
    ensures
        load_fp_instr(v) is Some ==> !load_fp_instr(v)->0.compressed(),
{
    lemma_vector_load_length(v);
}

proof fn lemma_store_fp_length(v: u32)
    ensures
        store_fp_instr(v) is Some ==> !store_fp_instr(v)->0.compressed(),
{
    lemma_vector_store_length(v);
}

proof fn lemma_opivv_length(v: u32)
    ensures
        opivv_instr(v) is Some ==> !opivv_instr(v)->0.compressed(),
{
}

proof fn lemma_opivx_length(v: u32)
    ensures
        opivx_instr(v) is Some ==> !opivx_instr(v)->0.compressed(),
{
}

proof fn lemma_opivi_length(v: u32)
    ensures
        opivi_instr(v) is Some ==> !opivi_instr(v)->0.compressed(),
{
}

proof fn lemma_opmvv_length(v: u32)
    ensures
        opmvv_instr(v) is Some ==> !opmvv_instr(v)->0.compressed(),
{
}

proof fn lemma_opmvx_length(v: u32)
    ensures
        opmvx_instr(v) is Some ==> !opmvx_instr(v)->0.compressed(),
{
}

proof fn lemma_vector_config_length(v: u32)
    ensures
        vector_config_instr(v) is Some ==> !vector_config_instr(v)->0.compressed(),
{
}

proof fn lemma_op_v_length(v: u32)
    ensures
        op_v_instr(v) is Some ==> !op_v_instr(v)->0.compressed(),
{
    lemma_opivv_length(v);
    lemma_opivx_length(v);
    lemma_opivi_length(v);
    lemma_opmvv_length(v);
    lemma_opmvx_length(v);
    lemma_vector_config_length(v);
}

proof fn lemma_op_fp_length(v: u32)
    ensures
        op_fp_instr(v) is Some ==> !op_fp_instr(v)->0.compressed(),
{
    lemma_single_length(v);
    lemma_double_length(v);
}

proof fn lemma_full_length(v: u32)
    ensures
        full_instr(v) is Some ==> !full_instr(v)->0.compressed(),
{
    lemma_load_length(v);
    lemma_store_length(v);
    lemma_branch_length(v);
    lemma_fence_length(v);
    lemma_op_imm_length(v);
    lemma_op_imm_32_length(v);
    lemma_op_length(v);
    lemma_op_32_length(v);
    lemma_system_length(v);
    lemma_amo_length(v);
    lemma_madd_length(v);
    lemma_msub_length(v);
    lemma_nmsub_length(v);
    lemma_nmadd_length(v);
    lemma_load_fp_length(v);
    lemma_store_fp_length(v);
    lemma_op_v_length(v);
    lemma_op_fp_length(v);
}

/// The low bits of a word tell how long the instruction is.
pub proof fn law_length(v: u32)
    ensures
        any_instr(v) is Some ==> any_instr(v)->0.compressed() == (v % 4 != 3),
{
    lemma_full_length(v);
}

fn decode_load(v: u32) -> (r: Option<RiscvInstr>)
    ensures
        r == load_instr(v),
{
    match v / 0x1000 % 8 {
        0 => Some(RiscvInstr::LB),
        1 => Some(RiscvInstr::LH),
        2 => Some(RiscvInstr::LW),
        3 => Some(RiscvInstr::LD),
        4 => Some(RiscvInstr::LBU),
        5 => Some(RiscvInstr::LHU),
        6 => Some(RiscvInstr::LWU),
        _ => None,
    }
}

fn decode_store(v: u32) -> (r: Option<RiscvInstr>)
    ensures
        r == store_instr(v),
{
    match v / 0x1000 % 8 {
        0 => Some(RiscvInstr::SB),
        1 => Some(RiscvInstr::SH),
        2 => Some(RiscvInstr::SW),
        3 => Some(RiscvInstr::SD),
        _ => None,
    }
}

fn decode_branch(v: u32) -> (r: Option<RiscvInstr>)
    ensures
        r == branch_instr(v),
{
    match v / 0x1000 % 8 {
        0 => Some(RiscvInstr::BEQ),
        1 => Some(RiscvInstr::BNE),
        4 => Some(RiscvInstr::BLT),
        5 => Some(RiscvInstr::BGE),
        6 => Some(RiscvInstr::BLTU),
        7 => Some(RiscvInstr::BGEU),
        _ => None,
    }
}

fn decode_fence(v: u32) -> (r: Option<RiscvInstr>)
    ensures
        r == fence_instr(v),
{
    match v / 0x1000 % 8 {
        0 => Some(RiscvInstr::FENCE),
        1 => Some(RiscvInstr::FENCE_I),
        _ => None,
    }
}

fn decode_op_imm(v: u32) -> (r: Option<RiscvInstr>)
    ensures
        r == op_imm_instr(v),
{
    match v / 0x1000 % 8 {
        0 => Some(RiscvInstr::ADDI),
        1 => if v / 0x400_0000 == 0 {
            Some(RiscvInstr::SLLI)
        } else {
            None
        },
        2 => Some(RiscvInstr::SLTI),
        3 => Some(RiscvInstr::SLTIU),
        4 => Some(RiscvInstr::XORI),
        5 => match v / 0x400_0000 {
            0 => Some(RiscvInstr::SRLI),
            0b010000 => Some(RiscvInstr::SRAI),
            _ => None,
        },
        6 => Some(RiscvInstr::ORI),
        7 => Some(RiscvInstr::ANDI),
        _ => None,
    }
}

fn decode_op_imm_32(v: u32) -> (r: Option<RiscvInstr>)
    ensures
        r == op_imm_32_instr(v),
{
    match v / 0x1000 % 8 {
        0 => Some(RiscvInstr::ADDIW),
        1 => if v / 0x200_0000 == 0 {
            Some(RiscvInstr::SLLIW)
        } else {
            None
        },
        5 => match v / 0x200_0000 {
            0 => Some(RiscvInstr::SRLIW),
            0b0100000 => Some(RiscvInstr::SRAIW),
            _ => None,
        },
        _ => None,
    }
}

fn decode_op(v: u32) -> (r: Option<RiscvInstr>)
    ensures
        r == op_instr(v),
{
    match v / 0x200_0000 {
        0 => match v / 0x1000 % 8 {
            0 => Some(RiscvInstr::ADD),
            1 => Some(RiscvInstr::SLL),
            2 => Some(RiscvInstr::SLT),
            3 => Some(RiscvInstr::SLTU),
            4 => Some(RiscvInstr::XOR),
            5 => Some(RiscvInstr::SRL),
            6 => Some(RiscvInstr::OR),
            7 => Some(RiscvInstr::AND),
            _ => None,
        },
        0b0100000 => match v / 0x1000 % 8 {
            0 => Some(RiscvInstr::SUB),
            5 => Some(RiscvInstr::SRA),
            _ => None,
        },
        1 => match v / 0x1000 % 8 {
            0 => Some(RiscvInstr::MUL),
            1 => Some(RiscvInstr::MULH),
            2 => Some(RiscvInstr::MULHSU),
            3 => Some(RiscvInstr::MULHU),
            4 => Some(RiscvInstr::DIV),
            5 => Some(RiscvInstr::DIVU),
            6 => Some(RiscvInstr::REM),
            7 => Some(RiscvInstr::REMU),
            _ => None,
        },
        _ => None,
    }
}

fn decode_op_32(v: u32) -> (r: Option<RiscvInstr>)
    ensures
        r == op_32_instr(v),
{
    match v / 0x200_0000 {
        0 => match v / 0x1000 % 8 {
            0 => Some(RiscvInstr::ADDW),
            1 => Some(RiscvInstr::SLLW),
            5 => Some(RiscvInstr::SRLW),
            _ => None,
        },
        0b0100000 => match v / 0x1000 % 8 {
            0 => Some(RiscvInstr::SUBW),
            5 => Some(RiscvInstr::SRAW),
            _ => None,
        },
        1 => match v / 0x1000 % 8 {
            0 => Some(RiscvInstr::MULW),
            4 => Some(RiscvInstr::DIVW),
            5 => Some(RiscvInstr::DIVUW),
            6 => Some(RiscvInstr::REMW),
            7 => Some(RiscvInstr::REMUW),
            _ => None,
        },
        _ => None,
    }
}

fn decode_system(v: u32) -> (r: Option<RiscvInstr>)
    ensures
        r == system_instr(v),
{
    match v / 0x1000 % 8 {
        0 => decode_privileged(v),
        1 => Some(RiscvInstr::CSRRW),
        2 => Some(RiscvInstr::CSRRS),
        3 => Some(RiscvInstr::CSRRC),
        5 => Some(RiscvInstr::CSRRWI),
        6 => Some(RiscvInstr::CSRRSI),
        7 => Some(RiscvInstr::CSRRCI),
        _ => None,
    }
}

fn decode_privileged(v: u32) -> (r: Option<RiscvInstr>)
    ensures
        r == privileged_instr(v),
{
    if v / 0x200_0000 == 0b0001001 && v / 0x80 % 32 == 0 {
        Some(RiscvInstr::SFENCE_VMA)
    } else {
        match v {
            0x0000_0073 => Some(RiscvInstr::ECALL),
            0x0010_0073 => Some(RiscvInstr::EBREAK),
            0x1020_0073 => Some(RiscvInstr::SRET),
            0x1050_0073 => Some(RiscvInstr::WFI),
            0x3020_0073 => Some(RiscvInstr::MRET),
            _ => None,
        }
    }
}

fn decode_amo(v: u32) -> (r: Option<RiscvInstr>)
    ensures
        r == amo_instr(v),
{
    match v / 0x1000 % 8 {
        2 => match v / 0x800_0000 {
            0b00010 => if v / 0x10_0000 % 32 == 0 {
                Some(RiscvInstr::LR_W)
            } else {
                None
            },
            0b00011 => Some(RiscvInstr::SC_W),
            0b00000 => Some(RiscvInstr::AMOADD_W),
            0b00001 => Some(RiscvInstr::AMOSWAP_W),
            0b00100 => Some(RiscvInstr::AMOXOR_W),
            0b01000 => Some(RiscvInstr::AMOOR_W),
            0b01100 => Some(RiscvInstr::AMOAND_W),
            0b10000 => Some(RiscvInstr::AMOMIN_W),
            0b10100 => Some(RiscvInstr::AMOMAX_W),
            0b11000 => Some(RiscvInstr::AMOMINU_W),
            0b11100 => Some(RiscvInstr::AMOMAXU_W),
            _ => None,
        },
        3 => match v / 0x800_0000 {
            0b00010 => if v / 0x10_0000 % 32 == 0 {
                Some(RiscvInstr::LR_D)
            } else {
                None
            },
            0b00011 => Some(RiscvInstr::SC_D),
            0b00000 => Some(RiscvInstr::AMOADD_D),
            0b00001 => Some(RiscvInstr::AMOSWAP_D),
            0b00100 => Some(RiscvInstr::AMOXOR_D),
            0b01000 => Some(RiscvInstr::AMOOR_D),
            0b01100 => Some(RiscvInstr::AMOAND_D),
            0b10000 => Some(RiscvInstr::AMOMIN_D),
            0b10100 => Some(RiscvInstr::AMOMAX_D),
            0b11000 => Some(RiscvInstr::AMOMINU_D),
            0b11100 => Some(RiscvInstr::AMOMAXU_D),
            _ => None,
        },
        _ => None,
    }
}

fn decode_single(v: u32) -> (r: Option<RiscvInstr>)
    ensures
        r == single_instr(v),
{
    match v / 0x200_0000 {
        0x0 => Some(RiscvInstr::FADD_S),
        0x4 => Some(RiscvInstr::FSUB_S),
        0x8 => Some(RiscvInstr::FMUL_S),
        0xc => Some(RiscvInstr::FDIV_S),
        0x2c => if v / 0x10_0000 % 32 == 0 {
            Some(RiscvInstr::FSQRT_S)
        } else {
            None
        },
        0x10 => match v / 0x1000 % 8 {
            0 => Some(RiscvInstr::FSGNJ_S),
            1 => Some(RiscvInstr::FSGNJN_S),
            2 => Some(RiscvInstr::FSGNJX_S),
            _ => None,
        },
        0x14 => match v / 0x1000 % 8 {
            0 => Some(RiscvInstr::FMIN_S),
            1 => Some(RiscvInstr::FMAX_S),
            _ => None,
        },
        0x50 => match v / 0x1000 % 8 {
            0 => Some(RiscvInstr::FLE_S),
            1 => Some(RiscvInstr::FLT_S),
            2 => Some(RiscvInstr::FEQ_S),
            _ => None,
        },
        0x60 => match v / 0x10_0000 % 32 {
            0 => Some(RiscvInstr::FCVT_W_S),
            1 => Some(RiscvInstr::FCVT_WU_S),
            2 => Some(RiscvInstr::FCVT_L_S),
            3 => Some(RiscvInstr::FCVT_LU_S),
            _ => None,
        },
        0x68 => match v / 0x10_0000 % 32 {
            0 => Some(RiscvInstr::FCVT_S_W),
            1 => Some(RiscvInstr::FCVT_S_WU),
            2 => Some(RiscvInstr::FCVT_S_L),
            3 => Some(RiscvInstr::FCVT_S_LU),
            _ => None,
        },
        0x70 => if v / 0x10_0000 % 32 == 0 {
            match v / 0x1000 % 8 {
                0 => Some(RiscvInstr::FMV_X_W),
                1 => Some(RiscvInstr::FCLASS_S),
                _ => None,
            }
        } else {
            None
        },
        0x78 => if v / 0x10_0000 % 32 == 0 && v / 0x1000 % 8 == 0 {
            Some(RiscvInstr::FMV_W_X)
        } else {
            None
        },
        0x20 => if v / 0x10_0000 % 32 == 1 {
            Some(RiscvInstr::FCVT_S_D)
        } else {
            None
        },
        _ => None,
    }
}

fn decode_double(v: u32) -> (r: Option<RiscvInstr>)
    ensures
        r == double_instr(v),
{
    match v / 0x200_0000 {
        0x1 => Some(RiscvInstr::FADD_D),
        0x5 => Some(RiscvInstr::FSUB_D),
        0x9 => Some(RiscvInstr::FMUL_D),
        0xd => Some(RiscvInstr::FDIV_D),
        0x2d => if v / 0x10_0000 % 32 == 0 {
            Some(RiscvInstr::FSQRT_D)
        } else {
            None
        },
        0x11 => match v / 0x1000 % 8 {
            0 => Some(RiscvInstr::FSGNJ_D),
            1 => Some(RiscvInstr::FSGNJN_D),
            2 => Some(RiscvInstr::FSGNJX_D),
            _ => None,
        },
        0x15 => match v / 0x1000 % 8 {
            0 => Some(RiscvInstr::FMIN_D),
            1 => Some(RiscvInstr::FMAX_D),
            _ => None,
        },
        0x51 => match v / 0x1000 % 8 {
            0 => Some(RiscvInstr::FLE_D),
            1 => Some(RiscvInstr::FLT_D),
            2 => Some(RiscvInstr::FEQ_D),
            _ => None,
        },
        0x61 => match v / 0x10_0000 % 32 {
            0 => Some(RiscvInstr::FCVT_W_D),
            1 => Some(RiscvInstr::FCVT_WU_D),
            2 => Some(RiscvInstr::FCVT_L_D),
            3 => Some(RiscvInstr::FCVT_LU_D),
            _ => None,
        },
        0x69 => match v / 0x10_0000 % 32 {
            0 => Some(RiscvInstr::FCVT_D_W),
            1 => Some(RiscvInstr::FCVT_D_WU),
            2 => Some(RiscvInstr::FCVT_D_L),
            3 => Some(RiscvInstr::FCVT_D_LU),
            _ => None,
        },
        0x71 => if v / 0x10_0000 % 32 == 0 {
            match v / 0x1000 % 8 {
                0 => Some(RiscvInstr::FMV_X_D),
                1 => Some(RiscvInstr::FCLASS_D),
                _ => None,
            }
        } else {
            None
        },
        0x79 => if v / 0x10_0000 % 32 == 0 && v / 0x1000 % 8 == 0 {
            Some(RiscvInstr::FMV_D_X)
        } else {
            None
        },
        0x21 => if v / 0x10_0000 % 32 == 0 {
            Some(RiscvInstr::FCVT_D_S)
        } else {
            None
        },
        _ => None,
    }
}

fn decode_madd(v: u32) -> (r: Option<RiscvInstr>)
    ensures
        r == madd_instr(v),
{
    match v / 0x200_0000 % 4 {
        0 => Some(RiscvInstr::FMADD_S),
        1 => Some(RiscvInstr::FMADD_D),
        _ => None,
    }
}

fn decode_msub(v: u32) -> (r: Option<RiscvInstr>)
    ensures
        r == msub_instr(v),
{
    match v / 0x200_0000 % 4 {
        0 => Some(RiscvInstr::FMSUB_S),
        1 => Some(RiscvInstr::FMSUB_D),
        _ => None,
    }
}

fn decode_nmsub(v: u32) -> (r: Option<RiscvInstr>)
    ensures
        r == nmsub_instr(v),
{
    match v / 0x200_0000 % 4 {
        0 => Some(RiscvInstr::FNMSUB_S),
        1 => Some(RiscvInstr::FNMSUB_D),
        _ => None,
    }
}

fn decode_nmadd(v: u32) -> (r: Option<RiscvInstr>)
    ensures
        r == nmadd_instr(v),
{
    match v / 0x200_0000 % 4 {
        0 => Some(RiscvInstr::FNMADD_S),
        1 => Some(RiscvInstr::FNMADD_D),
        _ => None,
    }
}

fn decode_vector_unit_load(v: u32) -> (r: Option<RiscvInstr>)
    ensures
        r == vector_unit_load_instr(v),
{
    match v / 0x10_0000 % 32 {
        0b00000 => match v / 0x1000 % 8 {
            0 => Some(RiscvInstr::VLE_V(Vsew::E8)),
            5 => Some(RiscvInstr::VLE_V(Vsew::E16)),
            6 => Some(RiscvInstr::VLE_V(Vsew::E32)),
            7 => Some(RiscvInstr::VLE_V(Vsew::E64)),
            _ => None,
        },
        0b01000 => if (v / 0x2000_0000 == 0 || v / 0x2000_0000 == 1 || v / 0x2000_0000 == 3 || v / 0x2000_0000 == 7) && v / 0x200_0000 % 2 == 1 {
            match v / 0x1000 % 8 {
                0 => Some(RiscvInstr::VLRE_V(Vsew::E8)),
                5 => Some(RiscvInstr::VLRE_V(Vsew::E16)),
                6 => Some(RiscvInstr::VLRE_V(Vsew::E32)),
                7 => Some(RiscvInstr::VLRE_V(Vsew::E64)),
                _ => None,
            }
        } else {
            None
        },
        0b01011 => if v / 0x2000_0000 == 0 && v / 0x200_0000 % 2 == 1 && v / 0x1000 % 8 == 0 {
            Some(RiscvInstr::VLM_V)
        } else {
            None
        },
        0b10000 => match v / 0x1000 % 8 {
            0 => Some(RiscvInstr::VLEFF_V(Vsew::E8)),
            5 => Some(RiscvInstr::VLEFF_V(Vsew::E16)),
            6 => Some(RiscvInstr::VLEFF_V(Vsew::E32)),
            7 => Some(RiscvInstr::VLEFF_V(Vsew::E64)),
            _ => None,
        },
        _ => None,
    }
}

fn decode_vector_load(v: u32) -> (r: Option<RiscvInstr>)
    ensures
        r == vector_load_instr(v),
{
    if v / 0x1000_0000 % 2 != 0 {
        None
    } else {
        match v / 0x400_0000 % 4 {
            0 => decode_vector_unit_load(v),
            1 => match v / 0x1000 % 8 {
                0 => Some(RiscvInstr::VLUXEI_V(Vsew::E8)),
                5 => Some(RiscvInstr::VLUXEI_V(Vsew::E16)),
                6 => Some(RiscvInstr::VLUXEI_V(Vsew::E32)),
                7 => Some(RiscvInstr::VLUXEI_V(Vsew::E64)),
                _ => None,
            },
            2 => match v / 0x1000 % 8 {
                0 => Some(RiscvInstr::VLSE_V(Vsew::E8)),
                5 => Some(RiscvInstr::VLSE_V(Vsew::E16)),
                6 => Some(RiscvInstr::VLSE_V(Vsew::E32)),
                7 => Some(RiscvInstr::VLSE_V(Vsew::E64)),
                _ => None,
            },
            _ => match v / 0x1000 % 8 {
                0 => Some(RiscvInstr::VLOXEI_V(Vsew::E8)),
                5 => Some(RiscvInstr::VLOXEI_V(Vsew::E16)),
                6 => Some(RiscvInstr::VLOXEI_V(Vsew::E32)),
                7 => Some(RiscvInstr::VLOXEI_V(Vsew::E64)),
                _ => None,
            },
        }
    }
}

fn decode_vector_unit_store(v: u32) -> (r: Option<RiscvInstr>)
    ensures
        r == vector_unit_store_instr(v),
{
    match v / 0x10_0000 % 32 {
        0b00000 => match v / 0x1000 % 8 {
            0 => Some(RiscvInstr::VSE_V(Vsew::E8)),
            5 => Some(RiscvInstr::VSE_V(Vsew::E16)),
            6 => Some(RiscvInstr::VSE_V(Vsew::E32)),
            7 => Some(RiscvInstr::VSE_V(Vsew::E64)),
            _ => None,
        },
        0b01000 => if (v / 0x2000_0000 == 0 || v / 0x2000_0000 == 1 || v / 0x2000_0000 == 3 || v / 0x2000_0000 == 7) && v / 0x200_0000 % 2 == 1 && v / 0x1000 % 8 == 0 {
            Some(RiscvInstr::VSR_V)
        } else {
            None
        },
        0b01011 => if v / 0x2000_0000 == 0 && v / 0x200_0000 % 2 == 1 && v / 0x1000 % 8 == 0 {
            Some(RiscvInstr::VSM_V)
        } else {
            None
        },
        _ => None,
    }
}

fn decode_vector_store(v: u32) -> (r: Option<RiscvInstr>)
    ensures
        r == vector_store_instr(v),
{
    if v / 0x1000_0000 % 2 != 0 {
        None
    } else {
        match v / 0x400_0000 % 4 {
            0 => decode_vector_unit_store(v),
            1 => match v / 0x1000 % 8 {
                0 => Some(RiscvInstr::VSUXEI_V(Vsew::E8)),
                5 => Some(RiscvInstr::VSUXEI_V(Vsew::E16)),
                6 => Some(RiscvInstr::VSUXEI_V(Vsew::E32)),
                7 => Some(RiscvInstr::VSUXEI_V(Vsew::E64)),
                _ => None,
            },
            2 => match v / 0x1000 % 8 {
                0 => Some(RiscvInstr::VSSE_V(Vsew::E8)),
                5 => Some(RiscvInstr::VSSE_V(Vsew::E16)),
                6 => Some(RiscvInstr::VSSE_V(Vsew::E32)),
                7 => Some(RiscvInstr::VSSE_V(Vsew::E64)),
                _ => None,
            },
            _ => match v / 0x1000 % 8 {
                0 => Some(RiscvInstr::VSOXEI_V(Vsew::E8)),
                5 => Some(RiscvInstr::VSOXEI_V(Vsew::E16)),
                6 => Some(RiscvInstr::VSOXEI_V(Vsew::E32)),
                7 => Some(RiscvInstr::VSOXEI_V(Vsew::E64)),
                _ => None,
            },
        }
    }
}

fn decode_load_fp(v: u32) -> (r: Option<RiscvInstr>)
    ensures
        r == load_fp_instr(v),
{
    match v / 0x1000 % 8 {
        2 => Some(RiscvInstr::FLW),
        3 => Some(RiscvInstr::FLD),
        _ => decode_vector_load(v),
    }
}

fn decode_store_fp(v: u32) -> (r: Option<RiscvInstr>)
    ensures
        r == store_fp_instr(v),
{
    match v / 0x1000 % 8 {
        2 => Some(RiscvInstr::FSW),
        3 => Some(RiscvInstr::FSD),
        _ => decode_vector_store(v),
    }
}

fn decode_opivv(v: u32) -> (r: Option<RiscvInstr>)
    ensures
        r == opivv_instr(v),
{
    match v / 0x400_0000 {
        0b000000 => Some(RiscvInstr::VADD_VV),
        0b000010 => Some(RiscvInstr::VSUB_VV),
        0b000100 => Some(RiscvInstr::VMINU_VV),
        0b000101 => Some(RiscvInstr::VMIN_VV),
        0b000110 => Some(RiscvInstr::VMAXU_VV),
        0b000111 => Some(RiscvInstr::VMAX_VV),
        0b001001 => Some(RiscvInstr::VAND_VV),
        0b001010 => Some(RiscvInstr::VOR_VV),
        0b001011 => Some(RiscvInstr::VXOR_VV),
        0b001100 => Some(RiscvInstr::VRGATHER_VV),
        0b001110 => Some(RiscvInstr::VRGATHEREI16_VV),
        0b010000 => if v / 0x200_0000 % 2 == 0 {
            Some(RiscvInstr::VADC_VVM)
        } else {
            None
        },
        0b010001 => if v / 0x200_0000 % 2 == 0 {
            Some(RiscvInstr::VMADC_VVM)
        } else {
            Some(RiscvInstr::VMADC_VV)
        },
        0b010010 => if v / 0x200_0000 % 2 == 0 {
            Some(RiscvInstr::VSBC_VVM)
        } else {
            None
        },
        0b010011 => if v / 0x200_0000 % 2 == 0 {
            Some(RiscvInstr::VMSBC_VVM)
        } else {
            Some(RiscvInstr::VMSBC_VV)
        },
        0b010111 => if v / 0x200_0000 % 2 == 0 {
            Some(RiscvInstr::VMERGE_VVM)
        } else {
            Some(RiscvInstr::VMV_V_V)
        },
        0b011000 => Some(RiscvInstr::VMSEQ_VV),
        0b011001 => Some(RiscvInstr::VMSNE_VV),
        0b011010 => Some(RiscvInstr::VMSLTU_VV),
        0b011011 => Some(RiscvInstr::VMSLT_VV),
        0b011100 => Some(RiscvInstr::VMSLEU_VV),
        0b011101 => Some(RiscvInstr::VMSLE_VV),
        0b100000 => Some(RiscvInstr::VSADDU_VV),
        0b100001 => Some(RiscvInstr::VSADD_VV),
        0b100010 => Some(RiscvInstr::VSSUBU_VV),
        0b100011 => Some(RiscvInstr::VSSUB_VV),
        0b100101 => Some(RiscvInstr::VSLL_VV),
        0b100111 => Some(RiscvInstr::VSMUL_VV),
        0b101000 => Some(RiscvInstr::VSRL_VV),
        0b101001 => Some(RiscvInstr::VSRA_VV),
        0b101010 => Some(RiscvInstr::VSSRL_VV),
        0b101011 => Some(RiscvInstr::VSSRA_VV),
        0b101100 => Some(RiscvInstr::VNSRL_WV),
        0b101101 => Some(RiscvInstr::VNSRA_WV),
        0b101110 => Some(RiscvInstr::VNCLIPU_WV),
        0b101111 => Some(RiscvInstr::VNCLIP_WV),
        _ => None,
    }
}

fn decode_opivx(v: u32) -> (r: Option<RiscvInstr>)
    ensures
        r == opivx_instr(v),
{
    match v / 0x400_0000 {
        0b000000 => Some(RiscvInstr::VADD_VX),
        0b000010 => Some(RiscvInstr::VSUB_VX),
        0b000011 => Some(RiscvInstr::VRSUB_VX),
        0b000100 => Some(RiscvInstr::VMINU_VX),
        0b000101 => Some(RiscvInstr::VMIN_VX),
        0b000110 => Some(RiscvInstr::VMAXU_VX),
        0b000111 => Some(RiscvInstr::VMAX_VX),
        0b001001 => Some(RiscvInstr::VAND_VX),
        0b001010 => Some(RiscvInstr::VOR_VX),
        0b001011 => Some(RiscvInstr::VXOR_VX),
        0b001100 => Some(RiscvInstr::VRGATHER_VX),
        0b001110 => Some(RiscvInstr::VSLIDEUP_VX),
        0b001111 => Some(RiscvInstr::VSLIDEDOWN_VX),
        0b010000 => if v / 0x200_0000 % 2 == 0 {
            Some(RiscvInstr::VADC_VXM)
        } else {
            None
        },
        0b010001 => if v / 0x200_0000 % 2 == 0 {
            Some(RiscvInstr::VMADC_VXM)
        } else {
            Some(RiscvInstr::VMADC_VX)
        },
        0b010010 => if v / 0x200_0000 % 2 == 0 {
            Some(RiscvInstr::VSBC_VXM)
        } else {
            None
        },
        0b010011 => if v / 0x200_0000 % 2 == 0 {
            Some(RiscvInstr::VMSBC_VXM)
        } else {
            Some(RiscvInstr::VMSBC_VX)
        },
        0b010111 => if v / 0x200_0000 % 2 == 0 {
            Some(RiscvInstr::VMERGE_VXM)
        } else {
            Some(RiscvInstr::VMV_V_X)
        },
        0b011000 => Some(RiscvInstr::VMSEQ_VX),
        0b011001 => Some(RiscvInstr::VMSNE_VX),
        0b011010 => Some(RiscvInstr::VMSLTU_VX),
        0b011011 => Some(RiscvInstr::VMSLT_VX),
        0b011100 => Some(RiscvInstr::VMSLEU_VX),
        0b011101 => Some(RiscvInstr::VMSLE_VX),
        0b011110 => Some(RiscvInstr::VMSGTU_VX),
        0b011111 => Some(RiscvInstr::VMSGT_VX),
        0b100000 => Some(RiscvInstr::VSADDU_VX),
        0b100001 => Some(RiscvInstr::VSADD_VX),
        0b100010 => Some(RiscvInstr::VSSUBU_VX),
        0b100011 => Some(RiscvInstr::VSSUB_VX),
        0b100101 => Some(RiscvInstr::VSLL_VX),
        0b100111 => Some(RiscvInstr::VSMUL_VX),
        0b101000 => Some(RiscvInstr::VSRL_VX),
        0b101001 => Some(RiscvInstr::VSRA_VX),
        0b101010 => Some(RiscvInstr::VSSRL_VX),
        0b101011 => Some(RiscvInstr::VSSRA_VX),
        0b101100 => Some(RiscvInstr::VNSRL_WX),
        0b101101 => Some(RiscvInstr::VNSRA_WX),
        0b101110 => Some(RiscvInstr::VNCLIPU_WX),
        0b101111 => Some(RiscvInstr::VNCLIP_WX),
        _ => None,
    }
}

fn decode_opivi(v: u32) -> (r: Option<RiscvInstr>)
    ensures
        r == opivi_instr(v),
{
    match v / 0x400_0000 {
        0b000000 => Some(RiscvInstr::VADD_VI),
        0b000011 => Some(RiscvInstr::VRSUB_VI),
        0b001001 => Some(RiscvInstr::VAND_VI),
        0b001010 => Some(RiscvInstr::VOR_VI),
        0b001011 => Some(RiscvInstr::VXOR_VI),
        0b001100 => Some(RiscvInstr::VRGATHER_VI),
        0b001110 => Some(RiscvInstr::VSLIDEUP_VI),
        0b001111 => Some(RiscvInstr::VSLIDEDOWN_VI),
        0b010000 => if v / 0x200_0000 % 2 == 0 {
            Some(RiscvInstr::VADC_VIM)
        } else {
            None
        },
        0b010001 => if v / 0x200_0000 % 2 == 0 {
            Some(RiscvInstr::VMADC_VIM)
        } else {
            Some(RiscvInstr::VMADC_VI)
        },
        0b010111 => if v / 0x200_0000 % 2 == 0 {
            Some(RiscvInstr::VMERGE_VIM)
        } else {
            Some(RiscvInstr::VMV_V_I)
        },
        0b011000 => Some(RiscvInstr::VMSEQ_VI),
        0b011001 => Some(RiscvInstr::VMSNE_VI),
        0b011100 => Some(RiscvInstr::VMSLEU_VI),
        0b011101 => Some(RiscvInstr::VMSLE_VI),
        0b011110 => Some(RiscvInstr::VMSGTU_VI),
        0b011111 => Some(RiscvInstr::VMSGT_VI),
        0b100000 => Some(RiscvInstr::VSADDU_VI),
        0b100001 => Some(RiscvInstr::VSADD_VI),
        0b100101 => Some(RiscvInstr::VSLL_VI),
        0b100111 => if v / 0x200_0000 % 2 == 1 {
            match v / 0x8000 % 32 {
                0 => Some(RiscvInstr::VMV1R_V),
                1 => Some(RiscvInstr::VMV2R_V),
                3 => Some(RiscvInstr::VMV4R_V),
                7 => Some(RiscvInstr::VMV8R_V),
                _ => None,
            }
        } else {
            None
        },
        0b101000 => Some(RiscvInstr::VSRL_VI),
        0b101001 => Some(RiscvInstr::VSRA_VI),
        0b101010 => Some(RiscvInstr::VSSRL_VI),
        0b101011 => Some(RiscvInstr::VSSRA_VI),
        0b101100 => Some(RiscvInstr::VNSRL_WI),
        0b101101 => Some(RiscvInstr::VNSRA_WI),
        0b101110 => Some(RiscvInstr::VNCLIPU_WI),
        0b101111 => Some(RiscvInstr::VNCLIP_WI),
        _ => None,
    }
}

fn decode_opmvv(v: u32) -> (r: Option<RiscvInstr>)
    ensures
        r == opmvv_instr(v),
{
    match v / 0x400_0000 {
        0b001000 => Some(RiscvInstr::VAADDU_VV),
        0b001001 => Some(RiscvInstr::VAADD_VV),
        0b001010 => Some(RiscvInstr::VASUBU_VV),
        0b001011 => Some(RiscvInstr::VASUB_VV),
        0b010000 => match v / 0x8000 % 32 {
            0b00000 => Some(RiscvInstr::VMV_X_S),
            0b10000 => Some(RiscvInstr::VCPOP_M),
            0b10001 => Some(RiscvInstr::VFIRST_M),
            _ => None,
        },
        0b010010 => match v / 0x8000 % 32 {
            0b00010 => Some(RiscvInstr::VZEXT_VF8),
            0b00011 => Some(RiscvInstr::VSEXT_VF8),
            0b00100 => Some(RiscvInstr::VZEXT_VF4),
            0b00101 => Some(RiscvInstr::VSEXT_VF4),
            0b00110 => Some(RiscvInstr::VZEXT_VF2),
            0b00111 => Some(RiscvInstr::VSEXT_VF2),
            _ => None,
        },
        0b010100 => match v / 0x8000 % 32 {
            0b00001 => Some(RiscvInstr::VMSBF_M),
            0b00010 => Some(RiscvInstr::VMSOF_M),
            0b00011 => Some(RiscvInstr::VMSIF_M),
            0b10000 => Some(RiscvInstr::VIOTA_M),
            0b10001 => Some(RiscvInstr::VID_V),
            _ => None,
        },
        0b010111 => Some(RiscvInstr::VCOMPRESS_VM),
        0b011000 => Some(RiscvInstr::VMANDN_MM),
        0b011001 => Some(RiscvInstr::VMAND_MM),
        0b011010 => Some(RiscvInstr::VMOR_MM),
        0b011011 => Some(RiscvInstr::VMXOR_MM),
        0b011100 => Some(RiscvInstr::VMORN_MM),
        0b011101 => Some(RiscvInstr::VMNAND_MM),
        0b011110 => Some(RiscvInstr::VMNOR_MM),
        0b011111 => Some(RiscvInstr::VMXNOR_MM),
        0b100000 => Some(RiscvInstr::VDIVU_VV),
        0b100001 => Some(RiscvInstr::VDIV_VV),
        0b100010 => Some(RiscvInstr::VREMU_VV),
        0b100011 => Some(RiscvInstr::VREM_VV),
        0b100100 => Some(RiscvInstr::VMULHU_VV),
        0b100101 => Some(RiscvInstr::VMUL_VV),
        0b100110 => Some(RiscvInstr::VMULHSU_VV),
        0b100111 => Some(RiscvInstr::VMULH_VV),
        0b101001 => Some(RiscvInstr::VMADD_VV),
        0b101011 => Some(RiscvInstr::VNMSUB_VV),
        0b101101 => Some(RiscvInstr::VMACC_VV),
        0b101111 => Some(RiscvInstr::VNMSAC_VV),
        0b110000 => Some(RiscvInstr::VWADDU_VV),
        0b110001 => Some(RiscvInstr::VWADD_VV),
        0b110010 => Some(RiscvInstr::VWSUBU_VV),
        0b110011 => Some(RiscvInstr::VWSUB_VV),
        0b110100 => Some(RiscvInstr::VWADDU_WV),
        0b110101 => Some(RiscvInstr::VWADD_WV),
        0b110110 => Some(RiscvInstr::VWSUBU_WV),
        0b110111 => Some(RiscvInstr::VWSUB_WV),
        0b111000 => Some(RiscvInstr::VWMULU_VV),
        0b111010 => Some(RiscvInstr::VWMULSU_VV),
        0b111011 => Some(RiscvInstr::VWMUL_VV),
        0b111100 => Some(RiscvInstr::VWMACCU_VV),
        0b111101 => Some(RiscvInstr::VWMACC_VV),
        0b111111 => Some(RiscvInstr::VWMACCSU_VV),
        _ => None,
    }
}

fn decode_opmvx(v: u32) -> (r: Option<RiscvInstr>)
    ensures
        r == opmvx_instr(v),
{
    match v / 0x400_0000 {
        0b001000 => Some(RiscvInstr::VAADDU_VX),
        0b001001 => Some(RiscvInstr::VAADD_VX),
        0b001010 => Some(RiscvInstr::VASUBU_VX),
        0b001011 => Some(RiscvInstr::VASUB_VX),
        0b001110 => Some(RiscvInstr::VSLIDE1UP_VX),
        0b001111 => Some(RiscvInstr::VSLIDE1DOWN_VX),
        0b010000 => if v / 0x10_0000 % 32 == 0 {
            Some(RiscvInstr::VMV_S_X)
        } else {
            None
        },
        0b100000 => Some(RiscvInstr::VDIVU_VX),
        0b100001 => Some(RiscvInstr::VDIV_VX),
        0b100010 => Some(RiscvInstr::VREMU_VX),
        0b100011 => Some(RiscvInstr::VREM_VX),
        0b100100 => Some(RiscvInstr::VMULHU_VX),
        0b100101 => Some(RiscvInstr::VMUL_VX),
        0b100110 => Some(RiscvInstr::VMULHSU_VX),
        0b100111 => Some(RiscvInstr::VMULH_VX),
        0b101001 => Some(RiscvInstr::VMADD_VX),
        0b101011 => Some(RiscvInstr::VNMSUB_VX),
        0b101101 => Some(RiscvInstr::VMACC_VX),
        0b101111 => Some(RiscvInstr::VNMSAC_VX),
        0b110000 => Some(RiscvInstr::VWADDU_VX),
        0b110001 => Some(RiscvInstr::VWADD_VX),
        0b110010 => Some(RiscvInstr::VWSUBU_VX),
        0b110011 => Some(RiscvInstr::VWSUB_VX),
        0b110100 => Some(RiscvInstr::VWADDU_WX),
        0b110101 => Some(RiscvInstr::VWADD_WX),
        0b110110 => Some(RiscvInstr::VWSUBU_WX),
        0b110111 => Some(RiscvInstr::VWSUB_WX),
        0b111000 => Some(RiscvInstr::VWMULU_VX),
        0b111010 => Some(RiscvInstr::VWMULSU_VX),
        0b111011 => Some(RiscvInstr::VWMUL_VX),
        0b111100 => Some(RiscvInstr::VWMACCU_VX),
        0b111101 => Some(RiscvInstr::VWMACC_VX),
        0b111110 => Some(RiscvInstr::VWMACCUS_VX),
        0b111111 => Some(RiscvInstr::VWMACCSU_VX),
        _ => None,
    }
}

fn decode_vector_config(v: u32) -> (r: Option<RiscvInstr>)
    ensures
        r == vector_config_instr(v),
{
    if v < 0x8000_0000 {
        Some(RiscvInstr::VSETVLI)
    } else if v >= 0xc000_0000 {
        Some(RiscvInstr::VSETIVLI)
    } else if v / 0x200_0000 == 0b1000000 {
        Some(RiscvInstr::VSETVL)
    } else {
        None
    }
}

fn decode_op_v(v: u32) -> (r: Option<RiscvInstr>)
    ensures
        r == op_v_instr(v),
{
    match v / 0x1000 % 8 {
        0 => decode_opivv(v),
        2 => decode_opmvv(v),
        3 => decode_opivi(v),
        4 => decode_opivx(v),
        6 => decode_opmvx(v),
        7 => decode_vector_config(v),
        _ => None,
    }
}

fn decode_op_fp(v: u32) -> (r: Option<RiscvInstr>)
    ensures
        r == op_fp_instr(v),
{
    if v / 0x200_0000 % 4 == 0 {
        decode_single(v)
    } else {
        decode_double(v)
    }
}

fn decode_full(v: u32) -> (r: Option<RiscvInstr>)
    ensures
        r == full_instr(v),
{
    match v % 0x80 {
        0x03 => decode_load(v),
        0x07 => decode_load_fp(v),
        0x0f => decode_fence(v),
        0x13 => decode_op_imm(v),
        0x17 => Some(RiscvInstr::AUIPC),
        0x1b => decode_op_imm_32(v),
        0x23 => decode_store(v),
        0x27 => decode_store_fp(v),
        0x2f => decode_amo(v),
        0x33 => decode_op(v),
        0x37 => Some(RiscvInstr::LUI),
        0x3b => decode_op_32(v),
        0x43 => decode_madd(v),
        0x47 => decode_msub(v),
        0x4b => decode_nmsub(v),
        0x4f => decode_nmadd(v),
        0x53 => decode_op_fp(v),
        0x57 => decode_op_v(v),
        0x63 => decode_branch(v),
        0x67 => if v / 0x1000 % 8 == 0 {
            Some(RiscvInstr::JALR)
        } else {
            None
        },
        0x6f => Some(RiscvInstr::JAL),
        0x73 => decode_system(v),
        _ => None,
    }
}

fn decode_quadrant0(v: u32) -> (r: Option<RiscvInstr>)
    ensures
        r == quadrant0_instr(v),
{
    match v / 0x2000 % 8 {
        0 => if v % 0x1_0000 == 0 {
            Some(RiscvInstr::ILLEGAL)
        } else if v / 0x20 % 0x100 == 0 {
            None
        } else {
            Some(RiscvInstr::C_ADDI4SPN)
        },
        1 => Some(RiscvInstr::C_FLD),
        2 => Some(RiscvInstr::C_LW),
        3 => Some(RiscvInstr::C_LD),
        5 => Some(RiscvInstr::C_FSD),
        6 => Some(RiscvInstr::C_SW),
        7 => Some(RiscvInstr::C_SD),
        _ => None,
    }
}

fn decode_quadrant1(v: u32) -> (r: Option<RiscvInstr>)
    ensures
        r == quadrant1_instr(v),
{
    match v / 0x2000 % 8 {
        0 => if v / 0x80 % 32 == 0 {
            Some(RiscvInstr::C_NOP)
        } else {
            Some(RiscvInstr::C_ADDI)
        },
        1 => if v / 0x80 % 32 == 0 {
            None
        } else {
            Some(RiscvInstr::C_ADDIW)
        },
        2 => Some(RiscvInstr::C_LI),
        3 => if v / 0x1000 % 2 == 0 && v / 4 % 32 == 0 {
            None
        } else if v / 0x80 % 32 == 2 {
            Some(RiscvInstr::C_ADDI16SP)
        } else {
            Some(RiscvInstr::C_LUI)
        },
        4 => match v / 0x400 % 4 {
            0 => Some(RiscvInstr::C_SRLI),
            1 => Some(RiscvInstr::C_SRAI),
            2 => Some(RiscvInstr::C_ANDI),
            _ => match (v / 0x1000 % 2, v / 0x20 % 4) {
                (0, 0) => Some(RiscvInstr::C_SUB),
                (0, 1) => Some(RiscvInstr::C_XOR),
                (0, 2) => Some(RiscvInstr::C_OR),
                (0, 3) => Some(RiscvInstr::C_AND),
                (1, 0) => Some(RiscvInstr::C_SUBW),
                (1, 1) => Some(RiscvInstr::C_ADDW),
                _ => None,
            },
        },
        5 => Some(RiscvInstr::C_J),
        6 => Some(RiscvInstr::C_BEQZ),
        _ => Some(RiscvInstr::C_BNEZ),
    }
}

fn decode_quadrant2(v: u32) -> (r: Option<RiscvInstr>)
    ensures
        r == quadrant2_instr(v),
{
    match v / 0x2000 % 8 {
        0 => Some(RiscvInstr::C_SLLI),
        1 => Some(RiscvInstr::C_FLDSP),
        2 => if v / 0x80 % 32 == 0 {
            None
        } else {
            Some(RiscvInstr::C_LWSP)
        },
        3 => if v / 0x80 % 32 == 0 {
            None
        } else {
            Some(RiscvInstr::C_LDSP)
        },
        4 => if v / 0x1000 % 2 == 0 {
            if v / 4 % 32 != 0 {
                Some(RiscvInstr::C_MV)
            } else if v / 0x80 % 32 != 0 {
                Some(RiscvInstr::C_JR)
            } else {
                None
            }
        } else if v / 4 % 32 != 0 {
            Some(RiscvInstr::C_ADD)
        } else if v / 0x80 % 32 != 0 {
            Some(RiscvInstr::C_JALR)
        } else {
            Some(RiscvInstr::C_EBREAK)
        },
        5 => Some(RiscvInstr::C_FSDSP),
        6 => Some(RiscvInstr::C_SWSP),
        _ => Some(RiscvInstr::C_SDSP),
    }
}

/// Finds the instruction that a word encodes.
pub fn decode_any(v: u32) -> (r: Option<RiscvInstr>)
    ensures
        r == any_instr(v),
{
    match v % 4 {
        0 => decode_quadrant0(v),
        1 => decode_quadrant1(v),
        2 => decode_quadrant2(v),
        _ => decode_full(v),
    }
}

impl RiscvInstr {
    /// How the operands of the instruction are encoded.
    pub open spec fn spec_format(self) -> InstrFormat {
        match self {
            RiscvInstr::EBREAK
            | RiscvInstr::ECALL
            | RiscvInstr::MRET
            | RiscvInstr::WFI
            | RiscvInstr::SRET
            | RiscvInstr::C_NOP
            | RiscvInstr::C_EBREAK
            | RiscvInstr::ILLEGAL => InstrFormat::NoOperands,
            RiscvInstr::ADD
            | RiscvInstr::ADDW
            | RiscvInstr::SUB
            | RiscvInstr::SUBW
            | RiscvInstr::MUL
            | RiscvInstr::MULH
            | RiscvInstr::MULHU
            | RiscvInstr::MULHSU
            | RiscvInstr::DIV
            | RiscvInstr::DIVU
            | RiscvInstr::REM
            | RiscvInstr::REMU
            | RiscvInstr::MULW
            | RiscvInstr::DIVW
            | RiscvInstr::DIVUW
            | RiscvInstr::REMW
            | RiscvInstr::REMUW
            | RiscvInstr::SLL
            | RiscvInstr::SRL
            | RiscvInstr::SRA
            | RiscvInstr::SRAW
            | RiscvInstr::SLLW
            | RiscvInstr::SRLW
            | RiscvInstr::SLT
            | RiscvInstr::SLTU
            | RiscvInstr::AND
            | RiscvInstr::OR
            | RiscvInstr::XOR
            | RiscvInstr::FMIN_S
            | RiscvInstr::FMAX_S
            | RiscvInstr::FMIN_D
            | RiscvInstr::FMAX_D
            | RiscvInstr::FSGNJ_S
            | RiscvInstr::FSGNJN_S
            | RiscvInstr::FSGNJX_S
            | RiscvInstr::FSGNJ_D
            | RiscvInstr::FSGNJN_D
            | RiscvInstr::FSGNJX_D
            | RiscvInstr::FEQ_S
            | RiscvInstr::FLT_S
            | RiscvInstr::FLE_S
            | RiscvInstr::FEQ_D
            | RiscvInstr::FLT_D
            | RiscvInstr::FLE_D
            | RiscvInstr::FMV_X_W
            | RiscvInstr::FMV_W_X
            | RiscvInstr::FMV_X_D
            | RiscvInstr::FMV_D_X
            | RiscvInstr::FCLASS_S
            | RiscvInstr::FCLASS_D
            | RiscvInstr::SFENCE_VMA => InstrFormat::R,
            RiscvInstr::FADD_S
            | RiscvInstr::FSUB_S
            | RiscvInstr::FMUL_S
            | RiscvInstr::FDIV_S
            | RiscvInstr::FSQRT_S
            | RiscvInstr::FADD_D
            | RiscvInstr::FSUB_D
            | RiscvInstr::FMUL_D
            | RiscvInstr::FDIV_D
            | RiscvInstr::FSQRT_D
            | RiscvInstr::FCVT_W_S
            | RiscvInstr::FCVT_WU_S
            | RiscvInstr::FCVT_S_W
            | RiscvInstr::FCVT_S_WU
            | RiscvInstr::FCVT_L_S
            | RiscvInstr::FCVT_LU_S
            | RiscvInstr::FCVT_S_L
            | RiscvInstr::FCVT_S_LU
            | RiscvInstr::FCVT_W_D
            | RiscvInstr::FCVT_WU_D
            | RiscvInstr::FCVT_D_W
            | RiscvInstr::FCVT_D_WU
            | RiscvInstr::FCVT_L_D
            | RiscvInstr::FCVT_LU_D
            | RiscvInstr::FCVT_D_L
            | RiscvInstr::FCVT_D_LU
            | RiscvInstr::FCVT_D_S
            | RiscvInstr::FCVT_S_D => InstrFormat::R_rm,
            RiscvInstr::FMADD_S
            | RiscvInstr::FNMADD_S
            | RiscvInstr::FMSUB_S
            | RiscvInstr::FNMSUB_S
            | RiscvInstr::FMADD_D
            | RiscvInstr::FNMADD_D
            | RiscvInstr::FMSUB_D
            | RiscvInstr::FNMSUB_D => InstrFormat::R4_rm,
            RiscvInstr::ADDI
            | RiscvInstr::ADDIW
            | RiscvInstr::SLLI
            | RiscvInstr::SRLI
            | RiscvInstr::SRAI
            | RiscvInstr::SRAIW
            | RiscvInstr::SLLIW
            | RiscvInstr::SRLIW
            | RiscvInstr::SLTI
            | RiscvInstr::SLTIU
            | RiscvInstr::ANDI
            | RiscvInstr::ORI
            | RiscvInstr::XORI
            | RiscvInstr::LB
            | RiscvInstr::LBU
            | RiscvInstr::LH
            | RiscvInstr::LHU
            | RiscvInstr::LW
            | RiscvInstr::LWU
            | RiscvInstr::LD
            | RiscvInstr::JALR
            | RiscvInstr::FENCE
            | RiscvInstr::FENCE_I
            | RiscvInstr::CSRRW
            | RiscvInstr::CSRRC
            | RiscvInstr::CSRRS
            | RiscvInstr::CSRRWI
            | RiscvInstr::CSRRCI
            | RiscvInstr::CSRRSI
            | RiscvInstr::FLW
            | RiscvInstr::FLD => InstrFormat::I,
            RiscvInstr::SB
            | RiscvInstr::SH
            | RiscvInstr::SW
            | RiscvInstr::SD
            | RiscvInstr::FSW
            | RiscvInstr::FSD => InstrFormat::S,
            RiscvInstr::BEQ
            | RiscvInstr::BNE
            | RiscvInstr::BLT
            | RiscvInstr::BGE
            | RiscvInstr::BLTU
            | RiscvInstr::BGEU => InstrFormat::B,
            RiscvInstr::AUIPC | RiscvInstr::LUI => InstrFormat::U,
            RiscvInstr::JAL => InstrFormat::J,
            RiscvInstr::AMOADD_W
            | RiscvInstr::AMOAND_W
            | RiscvInstr::AMOOR_W
            | RiscvInstr::AMOXOR_W
            | RiscvInstr::AMOADD_D
            | RiscvInstr::AMOAND_D
            | RiscvInstr::AMOOR_D
            | RiscvInstr::AMOXOR_D
            | RiscvInstr::AMOSWAP_W
            | RiscvInstr::AMOSWAP_D
            | RiscvInstr::AMOMAX_W
            | RiscvInstr::AMOMIN_W
            | RiscvInstr::AMOMAXU_W
            | RiscvInstr::AMOMINU_W
            | RiscvInstr::AMOMAX_D
            | RiscvInstr::AMOMIN_D
            | RiscvInstr::AMOMAXU_D
            | RiscvInstr::AMOMINU_D
            | RiscvInstr::LR_W
            | RiscvInstr::SC_W
            | RiscvInstr::LR_D
            | RiscvInstr::SC_D => InstrFormat::A,
            RiscvInstr::C_ADDI
            | RiscvInstr::C_ADDI16SP
            | RiscvInstr::C_ADDIW
            | RiscvInstr::C_SLLI
            | RiscvInstr::C_LI
            | RiscvInstr::C_LUI
            | RiscvInstr::C_LWSP
            | RiscvInstr::C_LDSP
            | RiscvInstr::C_FLWSP
            | RiscvInstr::C_FLDSP => InstrFormat::CI,
            RiscvInstr::C_ADDI4SPN => InstrFormat::CIW,
            RiscvInstr::C_ADDW
            | RiscvInstr::C_AND
            | RiscvInstr::C_OR
            | RiscvInstr::C_XOR
            | RiscvInstr::C_SUB
            | RiscvInstr::C_SUBW => InstrFormat::CA,
            RiscvInstr::C_SRLI
            | RiscvInstr::C_SRAI
            | RiscvInstr::C_ANDI
            | RiscvInstr::C_BEQZ
            | RiscvInstr::C_BNEZ => InstrFormat::CB,
            RiscvInstr::C_J | RiscvInstr::C_JAL => InstrFormat::CJ,
            RiscvInstr::C_LW
            | RiscvInstr::C_LD
            | RiscvInstr::C_FLW
            | RiscvInstr::C_FLD => InstrFormat::CL,
            RiscvInstr::C_ADD
            | RiscvInstr::C_MV
            | RiscvInstr::C_JR
            | RiscvInstr::C_JALR => InstrFormat::CR,
            RiscvInstr::C_SW
            | RiscvInstr::C_SD
            | RiscvInstr::C_FSW
            | RiscvInstr::C_FSD => InstrFormat::CS,
            RiscvInstr::C_SWSP
            | RiscvInstr::C_SDSP
            | RiscvInstr::C_FSWSP
            | RiscvInstr::C_FSDSP => InstrFormat::CSS,
            _ => InstrFormat::V,
        }
    }

    /// The extension that the instruction belongs to.
    pub open spec fn spec_extension(self) -> Extension {
        match self {
            RiscvInstr::ADD
            | RiscvInstr::ADDI
            | RiscvInstr::ADDW
            | RiscvInstr::ADDIW
            | RiscvInstr::SUB
            | RiscvInstr::SUBW
            | RiscvInstr::SLL
            | RiscvInstr::SLLI
            | RiscvInstr::SRL
            | RiscvInstr::SRLI
            | RiscvInstr::SRA
            | RiscvInstr::SRAI
            | RiscvInstr::SRAW
            | RiscvInstr::SRAIW
            | RiscvInstr::SLLW
            | RiscvInstr::SLLIW
            | RiscvInstr::SRLW
            | RiscvInstr::SRLIW
            | RiscvInstr::SLT
            | RiscvInstr::SLTI
            | RiscvInstr::SLTU
            | RiscvInstr::SLTIU
            | RiscvInstr::AND
            | RiscvInstr::ANDI
            | RiscvInstr::OR
            | RiscvInstr::ORI
            | RiscvInstr::XOR
            | RiscvInstr::XORI
            | RiscvInstr::BEQ
            | RiscvInstr::BNE
            | RiscvInstr::BLT
            | RiscvInstr::BGE
            | RiscvInstr::BLTU
            | RiscvInstr::BGEU
            | RiscvInstr::LB
            | RiscvInstr::LBU
            | RiscvInstr::LH
            | RiscvInstr::LHU
            | RiscvInstr::LW
            | RiscvInstr::LWU
            | RiscvInstr::LD
            | RiscvInstr::SB
            | RiscvInstr::SH
            | RiscvInstr::SW
            | RiscvInstr::SD
            | RiscvInstr::JAL
            | RiscvInstr::JALR
            | RiscvInstr::AUIPC
            | RiscvInstr::LUI
            | RiscvInstr::EBREAK
            | RiscvInstr::ECALL
            | RiscvInstr::FENCE
            | RiscvInstr::FENCE_I
            | RiscvInstr::CSRRW
            | RiscvInstr::CSRRC
            | RiscvInstr::CSRRS
            | RiscvInstr::CSRRWI
            | RiscvInstr::CSRRCI
            | RiscvInstr::CSRRSI
            | RiscvInstr::MRET
            | RiscvInstr::WFI
            | RiscvInstr::SRET
            | RiscvInstr::SFENCE_VMA => Extension::I,
            RiscvInstr::MUL
            | RiscvInstr::MULH
            | RiscvInstr::MULHU
            | RiscvInstr::MULHSU
            | RiscvInstr::DIV
            | RiscvInstr::DIVU
            | RiscvInstr::REM
            | RiscvInstr::REMU
            | RiscvInstr::MULW
            | RiscvInstr::DIVW
            | RiscvInstr::DIVUW
            | RiscvInstr::REMW
            | RiscvInstr::REMUW => Extension::M,
            RiscvInstr::AMOADD_W
            | RiscvInstr::AMOAND_W
            | RiscvInstr::AMOOR_W
            | RiscvInstr::AMOXOR_W
            | RiscvInstr::AMOADD_D
            | RiscvInstr::AMOAND_D
            | RiscvInstr::AMOOR_D
            | RiscvInstr::AMOXOR_D
            | RiscvInstr::AMOSWAP_W
            | RiscvInstr::AMOSWAP_D
            | RiscvInstr::AMOMAX_W
            | RiscvInstr::AMOMIN_W
            | RiscvInstr::AMOMAXU_W
            | RiscvInstr::AMOMINU_W
            | RiscvInstr::AMOMAX_D
            | RiscvInstr::AMOMIN_D
            | RiscvInstr::AMOMAXU_D
            | RiscvInstr::AMOMINU_D
            | RiscvInstr::LR_W
            | RiscvInstr::SC_W
            | RiscvInstr::LR_D
            | RiscvInstr::SC_D => Extension::A,
            RiscvInstr::FADD_S
            | RiscvInstr::FSUB_S
            | RiscvInstr::FMUL_S
            | RiscvInstr::FDIV_S
            | RiscvInstr::FMADD_S
            | RiscvInstr::FNMADD_S
            | RiscvInstr::FMSUB_S
            | RiscvInstr::FNMSUB_S
            | RiscvInstr::FSQRT_S
            | RiscvInstr::FMIN_S
            | RiscvInstr::FMAX_S
            | RiscvInstr::FSGNJ_S
            | RiscvInstr::FSGNJN_S
            | RiscvInstr::FSGNJX_S
            | RiscvInstr::FCVT_W_S
            | RiscvInstr::FCVT_WU_S
            | RiscvInstr::FCVT_S_W
            | RiscvInstr::FCVT_S_WU
            | RiscvInstr::FCVT_L_S
            | RiscvInstr::FCVT_LU_S
            | RiscvInstr::FCVT_S_L
            | RiscvInstr::FCVT_S_LU
            | RiscvInstr::FEQ_S
            | RiscvInstr::FLT_S
            | RiscvInstr::FLE_S
            | RiscvInstr::FLW
            | RiscvInstr::FSW
            | RiscvInstr::FMV_X_W
            | RiscvInstr::FMV_W_X
            | RiscvInstr::FCLASS_S => Extension::F,
            RiscvInstr::FADD_D
            | RiscvInstr::FSUB_D
            | RiscvInstr::FMUL_D
            | RiscvInstr::FDIV_D
            | RiscvInstr::FMADD_D
            | RiscvInstr::FNMADD_D
            | RiscvInstr::FMSUB_D
            | RiscvInstr::FNMSUB_D
            | RiscvInstr::FSQRT_D
            | RiscvInstr::FMIN_D
            | RiscvInstr::FMAX_D
            | RiscvInstr::FSGNJ_D
            | RiscvInstr::FSGNJN_D
            | RiscvInstr::FSGNJX_D
            | RiscvInstr::FCVT_W_D
            | RiscvInstr::FCVT_WU_D
            | RiscvInstr::FCVT_D_W
            | RiscvInstr::FCVT_D_WU
            | RiscvInstr::FCVT_L_D
            | RiscvInstr::FCVT_LU_D
            | RiscvInstr::FCVT_D_L
            | RiscvInstr::FCVT_D_LU
            | RiscvInstr::FCVT_D_S
            | RiscvInstr::FCVT_S_D
            | RiscvInstr::FEQ_D
            | RiscvInstr::FLT_D
            | RiscvInstr::FLE_D
            | RiscvInstr::FLD
            | RiscvInstr::FSD
            | RiscvInstr::FMV_X_D
            | RiscvInstr::FMV_D_X
            | RiscvInstr::FCLASS_D => Extension::D,
            RiscvInstr::C_ADD
            | RiscvInstr::C_ADDI
            | RiscvInstr::C_ADDI16SP
            | RiscvInstr::C_ADDW
            | RiscvInstr::C_ADDIW
            | RiscvInstr::C_ADDI4SPN
            | RiscvInstr::C_SLLI
            | RiscvInstr::C_SRLI
            | RiscvInstr::C_SRAI
            | RiscvInstr::C_MV
            | RiscvInstr::C_AND
            | RiscvInstr::C_ANDI
            | RiscvInstr::C_OR
            | RiscvInstr::C_XOR
            | RiscvInstr::C_SUB
            | RiscvInstr::C_SUBW
            | RiscvInstr::C_NOP
            | RiscvInstr::C_EBREAK
            | RiscvInstr::C_LI
            | RiscvInstr::C_LUI
            | RiscvInstr::C_LW
            | RiscvInstr::C_LD
            | RiscvInstr::C_LWSP
            | RiscvInstr::C_LDSP
            | RiscvInstr::C_SW
            | RiscvInstr::C_SD
            | RiscvInstr::C_SWSP
            | RiscvInstr::C_SDSP
            | RiscvInstr::C_FLW
            | RiscvInstr::C_FLD
            | RiscvInstr::C_FLWSP
            | RiscvInstr::C_FLDSP
            | RiscvInstr::C_FSW
            | RiscvInstr::C_FSD
            | RiscvInstr::C_FSWSP
            | RiscvInstr::C_FSDSP
            | RiscvInstr::C_BEQZ
            | RiscvInstr::C_BNEZ
            | RiscvInstr::C_J
            | RiscvInstr::C_JAL
            | RiscvInstr::C_JR
            | RiscvInstr::C_JALR
            | RiscvInstr::ILLEGAL => Extension::C,
            _ => Extension::V,
        }
    }

    /// How the operands of the instruction are encoded.
    pub fn format(self) -> (r: InstrFormat)
        ensures
            r == self.spec_format(),
    {
        match self {
            RiscvInstr::EBREAK
            | RiscvInstr::ECALL
            | RiscvInstr::MRET
            | RiscvInstr::WFI
            | RiscvInstr::SRET
            | RiscvInstr::C_NOP
            | RiscvInstr::C_EBREAK
            | RiscvInstr::ILLEGAL => InstrFormat::NoOperands,
            RiscvInstr::ADD
            | RiscvInstr::ADDW
            | RiscvInstr::SUB
            | RiscvInstr::SUBW
            | RiscvInstr::MUL
            | RiscvInstr::MULH
            | RiscvInstr::MULHU
            | RiscvInstr::MULHSU
            | RiscvInstr::DIV
            | RiscvInstr::DIVU
            | RiscvInstr::REM
            | RiscvInstr::REMU
            | RiscvInstr::MULW
            | RiscvInstr::DIVW
            | RiscvInstr::DIVUW
            | RiscvInstr::REMW
            | RiscvInstr::REMUW
            | RiscvInstr::SLL
            | RiscvInstr::SRL
            | RiscvInstr::SRA
            | RiscvInstr::SRAW
            | RiscvInstr::SLLW
            | RiscvInstr::SRLW
            | RiscvInstr::SLT
            | RiscvInstr::SLTU
            | RiscvInstr::AND
            | RiscvInstr::OR
            | RiscvInstr::XOR
            | RiscvInstr::FMIN_S
            | RiscvInstr::FMAX_S
            | RiscvInstr::FMIN_D
            | RiscvInstr::FMAX_D
            | RiscvInstr::FSGNJ_S
            | RiscvInstr::FSGNJN_S
            | RiscvInstr::FSGNJX_S
            | RiscvInstr::FSGNJ_D
            | RiscvInstr::FSGNJN_D
            | RiscvInstr::FSGNJX_D
            | RiscvInstr::FEQ_S
            | RiscvInstr::FLT_S
            | RiscvInstr::FLE_S
            | RiscvInstr::FEQ_D
            | RiscvInstr::FLT_D
            | RiscvInstr::FLE_D
            | RiscvInstr::FMV_X_W
            | RiscvInstr::FMV_W_X
            | RiscvInstr::FMV_X_D
            | RiscvInstr::FMV_D_X
            | RiscvInstr::FCLASS_S
            | RiscvInstr::FCLASS_D
            | RiscvInstr::SFENCE_VMA => InstrFormat::R,
            RiscvInstr::FADD_S
            | RiscvInstr::FSUB_S
            | RiscvInstr::FMUL_S
            | RiscvInstr::FDIV_S
            | RiscvInstr::FSQRT_S
            | RiscvInstr::FADD_D
            | RiscvInstr::FSUB_D
            | RiscvInstr::FMUL_D
            | RiscvInstr::FDIV_D
            | RiscvInstr::FSQRT_D
            | RiscvInstr::FCVT_W_S
            | RiscvInstr::FCVT_WU_S
            | RiscvInstr::FCVT_S_W
            | RiscvInstr::FCVT_S_WU
            | RiscvInstr::FCVT_L_S
            | RiscvInstr::FCVT_LU_S
            | RiscvInstr::FCVT_S_L
            | RiscvInstr::FCVT_S_LU
            | RiscvInstr::FCVT_W_D
            | RiscvInstr::FCVT_WU_D
            | RiscvInstr::FCVT_D_W
            | RiscvInstr::FCVT_D_WU
            | RiscvInstr::FCVT_L_D
            | RiscvInstr::FCVT_LU_D
            | RiscvInstr::FCVT_D_L
            | RiscvInstr::FCVT_D_LU
            | RiscvInstr::FCVT_D_S
            | RiscvInstr::FCVT_S_D => InstrFormat::R_rm,
            RiscvInstr::FMADD_S
            | RiscvInstr::FNMADD_S
            | RiscvInstr::FMSUB_S
            | RiscvInstr::FNMSUB_S
            | RiscvInstr::FMADD_D
            | RiscvInstr::FNMADD_D
            | RiscvInstr::FMSUB_D
            | RiscvInstr::FNMSUB_D => InstrFormat::R4_rm,
            RiscvInstr::ADDI
            | RiscvInstr::ADDIW
            | RiscvInstr::SLLI
            | RiscvInstr::SRLI
            | RiscvInstr::SRAI
            | RiscvInstr::SRAIW
            | RiscvInstr::SLLIW
            | RiscvInstr::SRLIW
            | RiscvInstr::SLTI
            | RiscvInstr::SLTIU
            | RiscvInstr::ANDI
            | RiscvInstr::ORI
            | RiscvInstr::XORI
            | RiscvInstr::LB
            | RiscvInstr::LBU
            | RiscvInstr::LH
            | RiscvInstr::LHU
            | RiscvInstr::LW
            | RiscvInstr::LWU
            | RiscvInstr::LD
            | RiscvInstr::JALR
            | RiscvInstr::FENCE
            | RiscvInstr::FENCE_I
            | RiscvInstr::CSRRW
            | RiscvInstr::CSRRC
            | RiscvInstr::CSRRS
            | RiscvInstr::CSRRWI
            | RiscvInstr::CSRRCI
            | RiscvInstr::CSRRSI
            | RiscvInstr::FLW
            | RiscvInstr::FLD => InstrFormat::I,
            RiscvInstr::SB
            | RiscvInstr::SH
            | RiscvInstr::SW
            | RiscvInstr::SD
            | RiscvInstr::FSW
            | RiscvInstr::FSD => InstrFormat::S,
            RiscvInstr::BEQ
            | RiscvInstr::BNE
            | RiscvInstr::BLT
            | RiscvInstr::BGE
            | RiscvInstr::BLTU
            | RiscvInstr::BGEU => InstrFormat::B,
            RiscvInstr::AUIPC | RiscvInstr::LUI => InstrFormat::U,
            RiscvInstr::JAL => InstrFormat::J,
            RiscvInstr::AMOADD_W
            | RiscvInstr::AMOAND_W
            | RiscvInstr::AMOOR_W
            | RiscvInstr::AMOXOR_W
            | RiscvInstr::AMOADD_D
            | RiscvInstr::AMOAND_D
            | RiscvInstr::AMOOR_D
            | RiscvInstr::AMOXOR_D
            | RiscvInstr::AMOSWAP_W
            | RiscvInstr::AMOSWAP_D
            | RiscvInstr::AMOMAX_W
            | RiscvInstr::AMOMIN_W
            | RiscvInstr::AMOMAXU_W
            | RiscvInstr::AMOMINU_W
            | RiscvInstr::AMOMAX_D
            | RiscvInstr::AMOMIN_D
            | RiscvInstr::AMOMAXU_D
            | RiscvInstr::AMOMINU_D
            | RiscvInstr::LR_W
            | RiscvInstr::SC_W
            | RiscvInstr::LR_D
            | RiscvInstr::SC_D => InstrFormat::A,
            RiscvInstr::C_ADDI
            | RiscvInstr::C_ADDI16SP
            | RiscvInstr::C_ADDIW
            | RiscvInstr::C_SLLI
            | RiscvInstr::C_LI
            | RiscvInstr::C_LUI
            | RiscvInstr::C_LWSP
            | RiscvInstr::C_LDSP
            | RiscvInstr::C_FLWSP
            | RiscvInstr::C_FLDSP => InstrFormat::CI,
            RiscvInstr::C_ADDI4SPN => InstrFormat::CIW,
            RiscvInstr::C_ADDW
            | RiscvInstr::C_AND
            | RiscvInstr::C_OR
            | RiscvInstr::C_XOR
            | RiscvInstr::C_SUB
            | RiscvInstr::C_SUBW => InstrFormat::CA,
            RiscvInstr::C_SRLI
            | RiscvInstr::C_SRAI
            | RiscvInstr::C_ANDI
            | RiscvInstr::C_BEQZ
            | RiscvInstr::C_BNEZ => InstrFormat::CB,
            RiscvInstr::C_J | RiscvInstr::C_JAL => InstrFormat::CJ,
            RiscvInstr::C_LW
            | RiscvInstr::C_LD
            | RiscvInstr::C_FLW
            | RiscvInstr::C_FLD => InstrFormat::CL,
            RiscvInstr::C_ADD
            | RiscvInstr::C_MV
            | RiscvInstr::C_JR
            | RiscvInstr::C_JALR => InstrFormat::CR,
            RiscvInstr::C_SW
            | RiscvInstr::C_SD
            | RiscvInstr::C_FSW
            | RiscvInstr::C_FSD => InstrFormat::CS,
            RiscvInstr::C_SWSP
            | RiscvInstr::C_SDSP
            | RiscvInstr::C_FSWSP
            | RiscvInstr::C_FSDSP => InstrFormat::CSS,
            _ => InstrFormat::V,
        }
    }

    /// The extension that the instruction belongs to.
    pub fn extension(self) -> (r: Extension)
        ensures
            r == self.spec_extension(),
    {
        match self {
            RiscvInstr::ADD
            | RiscvInstr::ADDI
            | RiscvInstr::ADDW
            | RiscvInstr::ADDIW
            | RiscvInstr::SUB
            | RiscvInstr::SUBW
            | RiscvInstr::SLL
            | RiscvInstr::SLLI
            | RiscvInstr::SRL
            | RiscvInstr::SRLI
            | RiscvInstr::SRA
            | RiscvInstr::SRAI
            | RiscvInstr::SRAW
            | RiscvInstr::SRAIW
            | RiscvInstr::SLLW
            | RiscvInstr::SLLIW
            | RiscvInstr::SRLW
            | RiscvInstr::SRLIW
            | RiscvInstr::SLT
            | RiscvInstr::SLTI
            | RiscvInstr::SLTU
            | RiscvInstr::SLTIU
            | RiscvInstr::AND
            | RiscvInstr::ANDI
            | RiscvInstr::OR
            | RiscvInstr::ORI
            | RiscvInstr::XOR
            | RiscvInstr::XORI
            | RiscvInstr::BEQ
            | RiscvInstr::BNE
            | RiscvInstr::BLT
            | RiscvInstr::BGE
            | RiscvInstr::BLTU
            | RiscvInstr::BGEU
            | RiscvInstr::LB
            | RiscvInstr::LBU
            | RiscvInstr::LH
            | RiscvInstr::LHU
            | RiscvInstr::LW
            | RiscvInstr::LWU
            | RiscvInstr::LD
            | RiscvInstr::SB
            | RiscvInstr::SH
            | RiscvInstr::SW
            | RiscvInstr::SD
            | RiscvInstr::JAL
            | RiscvInstr::JALR
            | RiscvInstr::AUIPC
            | RiscvInstr::LUI
            | RiscvInstr::EBREAK
            | RiscvInstr::ECALL
            | RiscvInstr::FENCE
            | RiscvInstr::FENCE_I
            | RiscvInstr::CSRRW
            | RiscvInstr::CSRRC
            | RiscvInstr::CSRRS
            | RiscvInstr::CSRRWI
            | RiscvInstr::CSRRCI
            | RiscvInstr::CSRRSI
            | RiscvInstr::MRET
            | RiscvInstr::WFI
            | RiscvInstr::SRET
            | RiscvInstr::SFENCE_VMA => Extension::I,
            RiscvInstr::MUL
            | RiscvInstr::MULH
            | RiscvInstr::MULHU
            | RiscvInstr::MULHSU
            | RiscvInstr::DIV
            | RiscvInstr::DIVU
            | RiscvInstr::REM
            | RiscvInstr::REMU
            | RiscvInstr::MULW
            | RiscvInstr::DIVW
            | RiscvInstr::DIVUW
            | RiscvInstr::REMW
            | RiscvInstr::REMUW => Extension::M,
            RiscvInstr::AMOADD_W
            | RiscvInstr::AMOAND_W
            | RiscvInstr::AMOOR_W
            | RiscvInstr::AMOXOR_W
            | RiscvInstr::AMOADD_D
            | RiscvInstr::AMOAND_D
            | RiscvInstr::AMOOR_D
            | RiscvInstr::AMOXOR_D
            | RiscvInstr::AMOSWAP_W
            | RiscvInstr::AMOSWAP_D
            | RiscvInstr::AMOMAX_W
            | RiscvInstr::AMOMIN_W
            | RiscvInstr::AMOMAXU_W
            | RiscvInstr::AMOMINU_W
            | RiscvInstr::AMOMAX_D
            | RiscvInstr::AMOMIN_D
            | RiscvInstr::AMOMAXU_D
            | RiscvInstr::AMOMINU_D
            | RiscvInstr::LR_W
            | RiscvInstr::SC_W
            | RiscvInstr::LR_D
            | RiscvInstr::SC_D => Extension::A,
            RiscvInstr::FADD_S
            | RiscvInstr::FSUB_S
            | RiscvInstr::FMUL_S
            | RiscvInstr::FDIV_S
            | RiscvInstr::FMADD_S
            | RiscvInstr::FNMADD_S
            | RiscvInstr::FMSUB_S
            | RiscvInstr::FNMSUB_S
            | RiscvInstr::FSQRT_S
            | RiscvInstr::FMIN_S
            | RiscvInstr::FMAX_S
            | RiscvInstr::FSGNJ_S
            | RiscvInstr::FSGNJN_S
            | RiscvInstr::FSGNJX_S
            | RiscvInstr::FCVT_W_S
            | RiscvInstr::FCVT_WU_S
            | RiscvInstr::FCVT_S_W
            | RiscvInstr::FCVT_S_WU
            | RiscvInstr::FCVT_L_S
            | RiscvInstr::FCVT_LU_S
            | RiscvInstr::FCVT_S_L
            | RiscvInstr::FCVT_S_LU
            | RiscvInstr::FEQ_S
            | RiscvInstr::FLT_S
            | RiscvInstr::FLE_S
            | RiscvInstr::FLW
            | RiscvInstr::FSW
            | RiscvInstr::FMV_X_W
            | RiscvInstr::FMV_W_X
            | RiscvInstr::FCLASS_S => Extension::F,
            RiscvInstr::FADD_D
            | RiscvInstr::FSUB_D
            | RiscvInstr::FMUL_D
            | RiscvInstr::FDIV_D
            | RiscvInstr::FMADD_D
            | RiscvInstr::FNMADD_D
            | RiscvInstr::FMSUB_D
            | RiscvInstr::FNMSUB_D
            | RiscvInstr::FSQRT_D
            | RiscvInstr::FMIN_D
            | RiscvInstr::FMAX_D
            | RiscvInstr::FSGNJ_D
            | RiscvInstr::FSGNJN_D
            | RiscvInstr::FSGNJX_D
            | RiscvInstr::FCVT_W_D
            | RiscvInstr::FCVT_WU_D
            | RiscvInstr::FCVT_D_W
            | RiscvInstr::FCVT_D_WU
            | RiscvInstr::FCVT_L_D
            | RiscvInstr::FCVT_LU_D
            | RiscvInstr::FCVT_D_L
            | RiscvInstr::FCVT_D_LU
            | RiscvInstr::FCVT_D_S
            | RiscvInstr::FCVT_S_D
            | RiscvInstr::FEQ_D
            | RiscvInstr::FLT_D
            | RiscvInstr::FLE_D
            | RiscvInstr::FLD
            | RiscvInstr::FSD
            | RiscvInstr::FMV_X_D
            | RiscvInstr::FMV_D_X
            | RiscvInstr::FCLASS_D => Extension::D,
            RiscvInstr::C_ADD
            | RiscvInstr::C_ADDI
            | RiscvInstr::C_ADDI16SP
            | RiscvInstr::C_ADDW
            | RiscvInstr::C_ADDIW
            | RiscvInstr::C_ADDI4SPN
            | RiscvInstr::C_SLLI
            | RiscvInstr::C_SRLI
            | RiscvInstr::C_SRAI
            | RiscvInstr::C_MV
            | RiscvInstr::C_AND
            | RiscvInstr::C_ANDI
            | RiscvInstr::C_OR
            | RiscvInstr::C_XOR
            | RiscvInstr::C_SUB
            | RiscvInstr::C_SUBW
            | RiscvInstr::C_NOP
            | RiscvInstr::C_EBREAK
            | RiscvInstr::C_LI
            | RiscvInstr::C_LUI
            | RiscvInstr::C_LW
            | RiscvInstr::C_LD
            | RiscvInstr::C_LWSP
            | RiscvInstr::C_LDSP
            | RiscvInstr::C_SW
            | RiscvInstr::C_SD
            | RiscvInstr::C_SWSP
            | RiscvInstr::C_SDSP
            | RiscvInstr::C_FLW
            | RiscvInstr::C_FLD
            | RiscvInstr::C_FLWSP
            | RiscvInstr::C_FLDSP
            | RiscvInstr::C_FSW
            | RiscvInstr::C_FSD
            | RiscvInstr::C_FSWSP
            | RiscvInstr::C_FSDSP
            | RiscvInstr::C_BEQZ
            | RiscvInstr::C_BNEZ
            | RiscvInstr::C_J
            | RiscvInstr::C_JAL
            | RiscvInstr::C_JR
            | RiscvInstr::C_JALR
            | RiscvInstr::ILLEGAL => Extension::C,
            _ => Extension::V,
        }
    }
}

} // verus!
