//! Words come back as the instructions that they encode.
use vstd::prelude::*;

use crate::isa::riscv::instruction::instr_table::RiscvInstr;

use super::opcode;

verus! {

/// Whether a word has the opcode of vector operations and the fields that tell one apart: bits 14 to
/// 12, bits 31 to 26, and, where they matter, the mask bit and bits 19 to 15.
pub open spec fn has_vector_fields(
    v: u32,
    f3: int,
    code: Option<(int, Option<int>, Option<int>)>,
) -> bool {
    let x = v as int;
    match code {
        Some((func6, vm, field)) => {
            &&& x % 0x80 == 0x57
            &&& x / 0x1000 % 8 == f3
            &&& x / 0x400_0000 == func6
            &&& vm is Some ==> x / 0x200_0000 % 2 == vm->0
            &&& field is Some ==> x / 0x8000 % 0x20 == field->0
        },
        None => false,
    }
}

/// How an integer operation on two vectors is encoded: bits 31 to 26, and, where they tell instructions apart, the
/// mask bit and bits 19 to 15.
#[verifier::opaque]
pub open spec fn integer_vv_code(instr: RiscvInstr) -> Option<(int, Option<int>, Option<int>)> {
    match instr {
        RiscvInstr::VADD_VV => Some((0x0, None, None)),
        RiscvInstr::VSUB_VV => Some((0x2, None, None)),
        RiscvInstr::VMINU_VV => Some((0x4, None, None)),
        RiscvInstr::VMIN_VV => Some((0x5, None, None)),
        RiscvInstr::VMAXU_VV => Some((0x6, None, None)),
        RiscvInstr::VMAX_VV => Some((0x7, None, None)),
        RiscvInstr::VAND_VV => Some((0x9, None, None)),
        RiscvInstr::VOR_VV => Some((0xa, None, None)),
        RiscvInstr::VXOR_VV => Some((0xb, None, None)),
        RiscvInstr::VRGATHER_VV => Some((0xc, None, None)),
        RiscvInstr::VRGATHEREI16_VV => Some((0xe, None, None)),
        RiscvInstr::VADC_VVM => Some((0x10, Some(0), None)),
        RiscvInstr::VMADC_VVM => Some((0x11, Some(0), None)),
        RiscvInstr::VMADC_VV => Some((0x11, Some(1), None)),
        RiscvInstr::VSBC_VVM => Some((0x12, Some(0), None)),
        RiscvInstr::VMSBC_VVM => Some((0x13, Some(0), None)),
        RiscvInstr::VMSBC_VV => Some((0x13, Some(1), None)),
        RiscvInstr::VMERGE_VVM => Some((0x17, Some(0), None)),
        RiscvInstr::VMV_V_V => Some((0x17, Some(1), None)),
        RiscvInstr::VMSEQ_VV => Some((0x18, None, None)),
        RiscvInstr::VMSNE_VV => Some((0x19, None, None)),
        RiscvInstr::VMSLTU_VV => Some((0x1a, None, None)),
        RiscvInstr::VMSLT_VV => Some((0x1b, None, None)),
        RiscvInstr::VMSLEU_VV => Some((0x1c, None, None)),
        RiscvInstr::VMSLE_VV => Some((0x1d, None, None)),
        RiscvInstr::VSADDU_VV => Some((0x20, None, None)),
        RiscvInstr::VSADD_VV => Some((0x21, None, None)),
        RiscvInstr::VSSUBU_VV => Some((0x22, None, None)),
        RiscvInstr::VSSUB_VV => Some((0x23, None, None)),
        RiscvInstr::VSLL_VV => Some((0x25, None, None)),
        RiscvInstr::VSMUL_VV => Some((0x27, None, None)),
        RiscvInstr::VSRL_VV => Some((0x28, None, None)),
        RiscvInstr::VSRA_VV => Some((0x29, None, None)),
        RiscvInstr::VSSRL_VV => Some((0x2a, None, None)),
        RiscvInstr::VSSRA_VV => Some((0x2b, None, None)),
        RiscvInstr::VNSRL_WV => Some((0x2c, None, None)),
        RiscvInstr::VNSRA_WV => Some((0x2d, None, None)),
        RiscvInstr::VNCLIPU_WV => Some((0x2e, None, None)),
        RiscvInstr::VNCLIP_WV => Some((0x2f, None, None)),
        _ => None,
    }
}

/// A word with the fields of an integer operation on two vectors is decoded as that operation.
pub proof fn law_decodes_integer_vv(instr: RiscvInstr, v: u32)
    requires
        has_vector_fields(v, 0, integer_vv_code(instr)),
    ensures
        opcode::any_instr(v) == Some(instr),
{
    reveal(integer_vv_code);
    assert(v % 4 == 3);
    assert(opcode::any_instr(v) == opcode::op_v_instr(v));
    assert(opcode::op_v_instr(v) == opcode::opivv_instr(v));
}

/// How an integer operation with a register is encoded: bits 31 to 26, and, where they tell instructions apart, the
/// mask bit and bits 19 to 15.
#[verifier::opaque]
pub open spec fn integer_vx_code(instr: RiscvInstr) -> Option<(int, Option<int>, Option<int>)> {
    match instr {
        RiscvInstr::VADD_VX => Some((0x0, None, None)),
        RiscvInstr::VSUB_VX => Some((0x2, None, None)),
        RiscvInstr::VRSUB_VX => Some((0x3, None, None)),
        RiscvInstr::VMINU_VX => Some((0x4, None, None)),
        RiscvInstr::VMIN_VX => Some((0x5, None, None)),
        RiscvInstr::VMAXU_VX => Some((0x6, None, None)),
        RiscvInstr::VMAX_VX => Some((0x7, None, None)),
        RiscvInstr::VAND_VX => Some((0x9, None, None)),
        RiscvInstr::VOR_VX => Some((0xa, None, None)),
        RiscvInstr::VXOR_VX => Some((0xb, None, None)),
        RiscvInstr::VRGATHER_VX => Some((0xc, None, None)),
        RiscvInstr::VSLIDEUP_VX => Some((0xe, None, None)),
        RiscvInstr::VSLIDEDOWN_VX => Some((0xf, None, None)),
        RiscvInstr::VADC_VXM => Some((0x10, Some(0), None)),
        RiscvInstr::VMADC_VXM => Some((0x11, Some(0), None)),
        RiscvInstr::VMADC_VX => Some((0x11, Some(1), None)),
        RiscvInstr::VSBC_VXM => Some((0x12, Some(0), None)),
        RiscvInstr::VMSBC_VXM => Some((0x13, Some(0), None)),
        RiscvInstr::VMSBC_VX => Some((0x13, Some(1), None)),
        RiscvInstr::VMERGE_VXM => Some((0x17, Some(0), None)),
        RiscvInstr::VMV_V_X => Some((0x17, Some(1), None)),
        RiscvInstr::VMSEQ_VX => Some((0x18, None, None)),
        RiscvInstr::VMSNE_VX => Some((0x19, None, None)),
        RiscvInstr::VMSLTU_VX => Some((0x1a, None, None)),
        RiscvInstr::VMSLT_VX => Some((0x1b, None, None)),
        RiscvInstr::VMSLEU_VX => Some((0x1c, None, None)),
        RiscvInstr::VMSLE_VX => Some((0x1d, None, None)),
        RiscvInstr::VMSGTU_VX => Some((0x1e, None, None)),
        RiscvInstr::VMSGT_VX => Some((0x1f, None, None)),
        RiscvInstr::VSADDU_VX => Some((0x20, None, None)),
        RiscvInstr::VSADD_VX => Some((0x21, None, None)),
        RiscvInstr::VSSUBU_VX => Some((0x22, None, None)),
        RiscvInstr::VSSUB_VX => Some((0x23, None, None)),
        RiscvInstr::VSLL_VX => Some((0x25, None, None)),
        RiscvInstr::VSMUL_VX => Some((0x27, None, None)),
        RiscvInstr::VSRL_VX => Some((0x28, None, None)),
        RiscvInstr::VSRA_VX => Some((0x29, None, None)),
        RiscvInstr::VSSRL_VX => Some((0x2a, None, None)),
        RiscvInstr::VSSRA_VX => Some((0x2b, None, None)),
        RiscvInstr::VNSRL_WX => Some((0x2c, None, None)),
        RiscvInstr::VNSRA_WX => Some((0x2d, None, None)),
        RiscvInstr::VNCLIPU_WX => Some((0x2e, None, None)),
        RiscvInstr::VNCLIP_WX => Some((0x2f, None, None)),
        _ => None,
    }
}

/// A word with the fields of an integer operation with a register is decoded as that operation.
pub proof fn law_decodes_integer_vx(instr: RiscvInstr, v: u32)
    requires
        has_vector_fields(v, 4, integer_vx_code(instr)),
    ensures
        opcode::any_instr(v) == Some(instr),
{
    reveal(integer_vx_code);
    assert(v % 4 == 3);
    assert(opcode::any_instr(v) == opcode::op_v_instr(v));
    assert(opcode::op_v_instr(v) == opcode::opivx_instr(v));
}

/// How an integer operation with an immediate is encoded: bits 31 to 26, and, where they tell instructions apart, the
/// mask bit and bits 19 to 15.
#[verifier::opaque]
pub open spec fn integer_vi_code(instr: RiscvInstr) -> Option<(int, Option<int>, Option<int>)> {
    match instr {
        RiscvInstr::VADD_VI => Some((0x0, None, None)),
        RiscvInstr::VRSUB_VI => Some((0x3, None, None)),
        RiscvInstr::VAND_VI => Some((0x9, None, None)),
        RiscvInstr::VOR_VI => Some((0xa, None, None)),
        RiscvInstr::VXOR_VI => Some((0xb, None, None)),
        RiscvInstr::VRGATHER_VI => Some((0xc, None, None)),
        RiscvInstr::VSLIDEUP_VI => Some((0xe, None, None)),
        RiscvInstr::VSLIDEDOWN_VI => Some((0xf, None, None)),
        RiscvInstr::VADC_VIM => Some((0x10, Some(0), None)),
        RiscvInstr::VMADC_VIM => Some((0x11, Some(0), None)),
        RiscvInstr::VMADC_VI => Some((0x11, Some(1), None)),
        RiscvInstr::VMERGE_VIM => Some((0x17, Some(0), None)),
        RiscvInstr::VMV_V_I => Some((0x17, Some(1), None)),
        RiscvInstr::VMSEQ_VI => Some((0x18, None, None)),
        RiscvInstr::VMSNE_VI => Some((0x19, None, None)),
        RiscvInstr::VMSLEU_VI => Some((0x1c, None, None)),
        RiscvInstr::VMSLE_VI => Some((0x1d, None, None)),
        RiscvInstr::VMSGTU_VI => Some((0x1e, None, None)),
        RiscvInstr::VMSGT_VI => Some((0x1f, None, None)),
        RiscvInstr::VSADDU_VI => Some((0x20, None, None)),
        RiscvInstr::VSADD_VI => Some((0x21, None, None)),
        RiscvInstr::VSLL_VI => Some((0x25, None, None)),
        RiscvInstr::VMV1R_V => Some((0x27, Some(1), Some(0))),
        RiscvInstr::VMV2R_V => Some((0x27, Some(1), Some(1))),
        RiscvInstr::VMV4R_V => Some((0x27, Some(1), Some(3))),
        RiscvInstr::VMV8R_V => Some((0x27, Some(1), Some(7))),
        RiscvInstr::VSRL_VI => Some((0x28, None, None)),
        RiscvInstr::VSRA_VI => Some((0x29, None, None)),
        RiscvInstr::VSSRL_VI => Some((0x2a, None, None)),
        RiscvInstr::VSSRA_VI => Some((0x2b, None, None)),
        RiscvInstr::VNSRL_WI => Some((0x2c, None, None)),
        RiscvInstr::VNSRA_WI => Some((0x2d, None, None)),
        RiscvInstr::VNCLIPU_WI => Some((0x2e, None, None)),
        RiscvInstr::VNCLIP_WI => Some((0x2f, None, None)),
        _ => None,
    }
}

/// A word with the fields of an integer operation with an immediate is decoded as that operation.
pub proof fn law_decodes_integer_vi(instr: RiscvInstr, v: u32)
    requires
        has_vector_fields(v, 3, integer_vi_code(instr)),
    ensures
        opcode::any_instr(v) == Some(instr),
{
    reveal(integer_vi_code);
    assert(v % 4 == 3);
    assert(opcode::any_instr(v) == opcode::op_v_instr(v));
    assert(opcode::op_v_instr(v) == opcode::opivi_instr(v));
}

/// How another operation on two vectors is encoded: bits 31 to 26, and, where they tell instructions apart, the
/// mask bit and bits 19 to 15.
#[verifier::opaque]
pub open spec fn other_vv_code(instr: RiscvInstr) -> Option<(int, Option<int>, Option<int>)> {
    match instr {
        RiscvInstr::VAADDU_VV => Some((0x8, None, None)),
        RiscvInstr::VAADD_VV => Some((0x9, None, None)),
        RiscvInstr::VASUBU_VV => Some((0xa, None, None)),
        RiscvInstr::VASUB_VV => Some((0xb, None, None)),
        RiscvInstr::VMV_X_S => Some((0x10, None, Some(0))),
        RiscvInstr::VCPOP_M => Some((0x10, None, Some(16))),
        RiscvInstr::VFIRST_M => Some((0x10, None, Some(17))),
        RiscvInstr::VZEXT_VF8 => Some((0x12, None, Some(2))),
        RiscvInstr::VSEXT_VF8 => Some((0x12, None, Some(3))),
        RiscvInstr::VZEXT_VF4 => Some((0x12, None, Some(4))),
        RiscvInstr::VSEXT_VF4 => Some((0x12, None, Some(5))),
        RiscvInstr::VZEXT_VF2 => Some((0x12, None, Some(6))),
        RiscvInstr::VSEXT_VF2 => Some((0x12, None, Some(7))),
        RiscvInstr::VMSBF_M => Some((0x14, None, Some(1))),
        RiscvInstr::VMSOF_M => Some((0x14, None, Some(2))),
        RiscvInstr::VMSIF_M => Some((0x14, None, Some(3))),
        RiscvInstr::VIOTA_M => Some((0x14, None, Some(16))),
        RiscvInstr::VID_V => Some((0x14, None, Some(17))),
        RiscvInstr::VCOMPRESS_VM => Some((0x17, None, None)),
        RiscvInstr::VMANDN_MM => Some((0x18, None, None)),
        RiscvInstr::VMAND_MM => Some((0x19, None, None)),
        RiscvInstr::VMOR_MM => Some((0x1a, None, None)),
        RiscvInstr::VMXOR_MM => Some((0x1b, None, None)),
        RiscvInstr::VMORN_MM => Some((0x1c, None, None)),
        RiscvInstr::VMNAND_MM => Some((0x1d, None, None)),
        RiscvInstr::VMNOR_MM => Some((0x1e, None, None)),
        RiscvInstr::VMXNOR_MM => Some((0x1f, None, None)),
        RiscvInstr::VDIVU_VV => Some((0x20, None, None)),
        RiscvInstr::VDIV_VV => Some((0x21, None, None)),
        RiscvInstr::VREMU_VV => Some((0x22, None, None)),
        RiscvInstr::VREM_VV => Some((0x23, None, None)),
        RiscvInstr::VMULHU_VV => Some((0x24, None, None)),
        RiscvInstr::VMUL_VV => Some((0x25, None, None)),
        RiscvInstr::VMULHSU_VV => Some((0x26, None, None)),
        RiscvInstr::VMULH_VV => Some((0x27, None, None)),
        RiscvInstr::VMADD_VV => Some((0x29, None, None)),
        RiscvInstr::VNMSUB_VV => Some((0x2b, None, None)),
        RiscvInstr::VMACC_VV => Some((0x2d, None, None)),
        RiscvInstr::VNMSAC_VV => Some((0x2f, None, None)),
        RiscvInstr::VWADDU_VV => Some((0x30, None, None)),
        RiscvInstr::VWADD_VV => Some((0x31, None, None)),
        RiscvInstr::VWSUBU_VV => Some((0x32, None, None)),
        RiscvInstr::VWSUB_VV => Some((0x33, None, None)),
        RiscvInstr::VWADDU_WV => Some((0x34, None, None)),
        RiscvInstr::VWADD_WV => Some((0x35, None, None)),
        RiscvInstr::VWSUBU_WV => Some((0x36, None, None)),
        RiscvInstr::VWSUB_WV => Some((0x37, None, None)),
        RiscvInstr::VWMULU_VV => Some((0x38, None, None)),
        RiscvInstr::VWMULSU_VV => Some((0x3a, None, None)),
        RiscvInstr::VWMUL_VV => Some((0x3b, None, None)),
        RiscvInstr::VWMACCU_VV => Some((0x3c, None, None)),
        RiscvInstr::VWMACC_VV => Some((0x3d, None, None)),
        RiscvInstr::VWMACCSU_VV => Some((0x3f, None, None)),
        _ => None,
    }
}

/// A word with the fields of another operation on two vectors is decoded as that operation.
pub proof fn law_decodes_other_vv(instr: RiscvInstr, v: u32)
    requires
        has_vector_fields(v, 2, other_vv_code(instr)),
    ensures
        opcode::any_instr(v) == Some(instr),
{
    reveal(other_vv_code);
    assert(v % 4 == 3);
    assert(opcode::any_instr(v) == opcode::op_v_instr(v));
    assert(opcode::op_v_instr(v) == opcode::opmvv_instr(v));
}

/// How another operation with a register is encoded: bits 31 to 26, and, where they tell instructions apart, the
/// mask bit and bits 19 to 15.
#[verifier::opaque]
pub open spec fn other_vx_code(instr: RiscvInstr) -> Option<(int, Option<int>, Option<int>)> {
    match instr {
        RiscvInstr::VAADDU_VX => Some((0x8, None, None)),
        RiscvInstr::VAADD_VX => Some((0x9, None, None)),
        RiscvInstr::VASUBU_VX => Some((0xa, None, None)),
        RiscvInstr::VASUB_VX => Some((0xb, None, None)),
        RiscvInstr::VSLIDE1UP_VX => Some((0xe, None, None)),
        RiscvInstr::VSLIDE1DOWN_VX => Some((0xf, None, None)),
        RiscvInstr::VDIVU_VX => Some((0x20, None, None)),
        RiscvInstr::VDIV_VX => Some((0x21, None, None)),
        RiscvInstr::VREMU_VX => Some((0x22, None, None)),
        RiscvInstr::VREM_VX => Some((0x23, None, None)),
        RiscvInstr::VMULHU_VX => Some((0x24, None, None)),
        RiscvInstr::VMUL_VX => Some((0x25, None, None)),
        RiscvInstr::VMULHSU_VX => Some((0x26, None, None)),
        RiscvInstr::VMULH_VX => Some((0x27, None, None)),
        RiscvInstr::VMADD_VX => Some((0x29, None, None)),
        RiscvInstr::VNMSUB_VX => Some((0x2b, None, None)),
        RiscvInstr::VMACC_VX => Some((0x2d, None, None)),
        RiscvInstr::VNMSAC_VX => Some((0x2f, None, None)),
        RiscvInstr::VWADDU_VX => Some((0x30, None, None)),
        RiscvInstr::VWADD_VX => Some((0x31, None, None)),
        RiscvInstr::VWSUBU_VX => Some((0x32, None, None)),
        RiscvInstr::VWSUB_VX => Some((0x33, None, None)),
        RiscvInstr::VWADDU_WX => Some((0x34, None, None)),
        RiscvInstr::VWADD_WX => Some((0x35, None, None)),
        RiscvInstr::VWSUBU_WX => Some((0x36, None, None)),
        RiscvInstr::VWSUB_WX => Some((0x37, None, None)),
        RiscvInstr::VWMULU_VX => Some((0x38, None, None)),
        RiscvInstr::VWMULSU_VX => Some((0x3a, None, None)),
        RiscvInstr::VWMUL_VX => Some((0x3b, None, None)),
        RiscvInstr::VWMACCU_VX => Some((0x3c, None, None)),
        RiscvInstr::VWMACC_VX => Some((0x3d, None, None)),
        RiscvInstr::VWMACCUS_VX => Some((0x3e, None, None)),
        RiscvInstr::VWMACCSU_VX => Some((0x3f, None, None)),
        _ => None,
    }
}

/// A word with the fields of another operation with a register is decoded as that operation.
pub proof fn law_decodes_other_vx(instr: RiscvInstr, v: u32)
    requires
        has_vector_fields(v, 6, other_vx_code(instr)),
    ensures
        opcode::any_instr(v) == Some(instr),
{
    reveal(other_vx_code);
    assert(v % 4 == 3);
    assert(opcode::any_instr(v) == opcode::op_v_instr(v));
    assert(opcode::op_v_instr(v) == opcode::opmvx_instr(v));
}

/// How an integer instruction is encoded: the opcode, bits 14 to 12, and, where they tell
/// instructions apart, bits 31 to 25.
#[verifier::opaque]
pub open spec fn integer_code(instr: RiscvInstr) -> Option<(int, int, Option<int>)> {
    match instr {
        RiscvInstr::LB => Some((0x3, 0, None)),
        RiscvInstr::LH => Some((0x3, 1, None)),
        RiscvInstr::LW => Some((0x3, 2, None)),
        RiscvInstr::LD => Some((0x3, 3, None)),
        RiscvInstr::LBU => Some((0x3, 4, None)),
        RiscvInstr::LHU => Some((0x3, 5, None)),
        RiscvInstr::LWU => Some((0x3, 6, None)),
        RiscvInstr::SB => Some((0x23, 0, None)),
        RiscvInstr::SH => Some((0x23, 1, None)),
        RiscvInstr::SW => Some((0x23, 2, None)),
        RiscvInstr::SD => Some((0x23, 3, None)),
        RiscvInstr::BEQ => Some((0x63, 0, None)),
        RiscvInstr::BNE => Some((0x63, 1, None)),
        RiscvInstr::BLT => Some((0x63, 4, None)),
        RiscvInstr::BGE => Some((0x63, 5, None)),
        RiscvInstr::BLTU => Some((0x63, 6, None)),
        RiscvInstr::BGEU => Some((0x63, 7, None)),
        RiscvInstr::FENCE => Some((0xf, 0, None)),
        RiscvInstr::FENCE_I => Some((0xf, 1, None)),
        RiscvInstr::ADDI => Some((0x13, 0, None)),
        RiscvInstr::SLTI => Some((0x13, 2, None)),
        RiscvInstr::SLTIU => Some((0x13, 3, None)),
        RiscvInstr::XORI => Some((0x13, 4, None)),
        RiscvInstr::ORI => Some((0x13, 6, None)),
        RiscvInstr::ANDI => Some((0x13, 7, None)),
        RiscvInstr::ADDIW => Some((0x1b, 0, None)),
        RiscvInstr::CSRRW => Some((0x73, 1, None)),
        RiscvInstr::CSRRS => Some((0x73, 2, None)),
        RiscvInstr::CSRRC => Some((0x73, 3, None)),
        RiscvInstr::CSRRWI => Some((0x73, 5, None)),
        RiscvInstr::CSRRSI => Some((0x73, 6, None)),
        RiscvInstr::CSRRCI => Some((0x73, 7, None)),
        RiscvInstr::SLLIW => Some((0x1b, 1, Some(0))),
        RiscvInstr::SRLIW => Some((0x1b, 5, Some(0))),
        RiscvInstr::SRAIW => Some((0x1b, 5, Some(32))),
        RiscvInstr::ADD => Some((0x33, 0, Some(0))),
        RiscvInstr::SLL => Some((0x33, 1, Some(0))),
        RiscvInstr::SLT => Some((0x33, 2, Some(0))),
        RiscvInstr::SLTU => Some((0x33, 3, Some(0))),
        RiscvInstr::XOR => Some((0x33, 4, Some(0))),
        RiscvInstr::SRL => Some((0x33, 5, Some(0))),
        RiscvInstr::OR => Some((0x33, 6, Some(0))),
        RiscvInstr::AND => Some((0x33, 7, Some(0))),
        RiscvInstr::SUB => Some((0x33, 0, Some(32))),
        RiscvInstr::SRA => Some((0x33, 5, Some(32))),
        RiscvInstr::MUL => Some((0x33, 0, Some(1))),
        RiscvInstr::MULH => Some((0x33, 1, Some(1))),
        RiscvInstr::MULHSU => Some((0x33, 2, Some(1))),
        RiscvInstr::MULHU => Some((0x33, 3, Some(1))),
        RiscvInstr::DIV => Some((0x33, 4, Some(1))),
        RiscvInstr::DIVU => Some((0x33, 5, Some(1))),
        RiscvInstr::REM => Some((0x33, 6, Some(1))),
        RiscvInstr::REMU => Some((0x33, 7, Some(1))),
        RiscvInstr::ADDW => Some((0x3b, 0, Some(0))),
        RiscvInstr::SLLW => Some((0x3b, 1, Some(0))),
        RiscvInstr::SRLW => Some((0x3b, 5, Some(0))),
        RiscvInstr::SUBW => Some((0x3b, 0, Some(32))),
        RiscvInstr::SRAW => Some((0x3b, 5, Some(32))),
        RiscvInstr::MULW => Some((0x3b, 0, Some(1))),
        RiscvInstr::DIVW => Some((0x3b, 4, Some(1))),
        RiscvInstr::DIVUW => Some((0x3b, 5, Some(1))),
        RiscvInstr::REMW => Some((0x3b, 6, Some(1))),
        RiscvInstr::REMUW => Some((0x3b, 7, Some(1))),
        RiscvInstr::FLW => Some((0x7, 2, None)),
        RiscvInstr::FLD => Some((0x7, 3, None)),
        RiscvInstr::FSW => Some((0x27, 2, None)),
        RiscvInstr::FSD => Some((0x27, 3, None)),
        RiscvInstr::JALR => Some((0x67, 0, None)),
        _ => None,
    }
}

/// A word with the fields of an integer instruction is decoded as that instruction.
pub proof fn law_decodes_integer(instr: RiscvInstr, v: u32)
    requires
        ({
            let x = v as int;
            match integer_code(instr) {
                Some((op, f3, f7)) => {
                    &&& x % 0x80 == op
                    &&& x / 0x1000 % 8 == f3
                    &&& f7 is Some ==> x / 0x200_0000 == f7->0
                },
                None => false,
            }
        }),
    ensures
        opcode::any_instr(v) == Some(instr),
{
    reveal(integer_code);
    assert(v % 4 == 3);
    assert(opcode::any_instr(v) == opcode::full_instr(v));
}

/// The shifts of whole registers by an immediate have six bits for the distance; jumps and upper
/// immediates are told by the opcode alone.
pub proof fn law_decodes_long_immediates(v: u32)
    ensures
        v % 0x80 == 0x13 && v / 0x1000 % 8 == 1 && v / 0x400_0000 == 0 ==> opcode::any_instr(v)
            == Some(RiscvInstr::SLLI),
        v % 0x80 == 0x13 && v / 0x1000 % 8 == 5 && v / 0x400_0000 == 0 ==> opcode::any_instr(v)
            == Some(RiscvInstr::SRLI),
        v % 0x80 == 0x13 && v / 0x1000 % 8 == 5 && v / 0x400_0000 == 0x10 ==> opcode::any_instr(v)
            == Some(RiscvInstr::SRAI),
        v % 0x80 == 0x17 ==> opcode::any_instr(v) == Some(RiscvInstr::AUIPC),
        v % 0x80 == 0x37 ==> opcode::any_instr(v) == Some(RiscvInstr::LUI),
        v % 0x80 == 0x6f ==> opcode::any_instr(v) == Some(RiscvInstr::JAL),
{
    assert(v % 0x80 == 0x13 || v % 0x80 == 0x17 || v % 0x80 == 0x37 || v % 0x80 == 0x6f ==> v % 4
        == 3);
}

/// How an atomic instruction is encoded: bits 14 to 12, and bits 31 to 27.
#[verifier::opaque]
pub open spec fn atomic_code(instr: RiscvInstr) -> Option<(int, int)> {
    match instr {
        RiscvInstr::SC_W => Some((2, 0x3)),
        RiscvInstr::AMOADD_W => Some((2, 0x0)),
        RiscvInstr::AMOSWAP_W => Some((2, 0x1)),
        RiscvInstr::AMOXOR_W => Some((2, 0x4)),
        RiscvInstr::AMOOR_W => Some((2, 0x8)),
        RiscvInstr::AMOAND_W => Some((2, 0xc)),
        RiscvInstr::AMOMIN_W => Some((2, 0x10)),
        RiscvInstr::AMOMAX_W => Some((2, 0x14)),
        RiscvInstr::AMOMINU_W => Some((2, 0x18)),
        RiscvInstr::AMOMAXU_W => Some((2, 0x1c)),
        RiscvInstr::SC_D => Some((3, 0x3)),
        RiscvInstr::AMOADD_D => Some((3, 0x0)),
        RiscvInstr::AMOSWAP_D => Some((3, 0x1)),
        RiscvInstr::AMOXOR_D => Some((3, 0x4)),
        RiscvInstr::AMOOR_D => Some((3, 0x8)),
        RiscvInstr::AMOAND_D => Some((3, 0xc)),
        RiscvInstr::AMOMIN_D => Some((3, 0x10)),
        RiscvInstr::AMOMAX_D => Some((3, 0x14)),
        RiscvInstr::AMOMINU_D => Some((3, 0x18)),
        RiscvInstr::AMOMAXU_D => Some((3, 0x1c)),
        RiscvInstr::LR_W => Some((2, 0x2)),
        RiscvInstr::LR_D => Some((3, 0x2)),
        _ => None,
    }
}

/// A word with the fields of an atomic instruction is decoded as that instruction; a load-reserved has
/// no second source.
pub proof fn law_decodes_atomic(instr: RiscvInstr, v: u32)
    requires
        ({
            let x = v as int;
            match atomic_code(instr) {
                Some((f3, f5)) => {
                    &&& x % 0x80 == 0x2f
                    &&& x / 0x1000 % 8 == f3
                    &&& x / 0x800_0000 == f5
                    &&& instr == RiscvInstr::LR_W || instr == RiscvInstr::LR_D ==> x / 0x10_0000
                        % 0x20 == 0
                },
                None => false,
            }
        }),
    ensures
        opcode::any_instr(v) == Some(instr),
{
    reveal(atomic_code);
    assert(v % 4 == 3);
    assert(opcode::any_instr(v) == opcode::amo_instr(v));
}

/// How a floating-point operation is encoded: bits 31 to 25, and, where they tell instructions apart,
/// bits 14 to 12 and bits 24 to 20.
#[verifier::opaque]
pub open spec fn float_code(instr: RiscvInstr) -> Option<(int, Option<int>, Option<int>)> {
    match instr {
        RiscvInstr::FADD_S => Some((0x0, None, None)),
        RiscvInstr::FSUB_S => Some((0x4, None, None)),
        RiscvInstr::FMUL_S => Some((0x8, None, None)),
        RiscvInstr::FDIV_S => Some((0xc, None, None)),
        RiscvInstr::FSQRT_S => Some((0x2c, None, Some(0))),
        RiscvInstr::FSGNJ_S => Some((0x10, Some(0), None)),
        RiscvInstr::FSGNJN_S => Some((0x10, Some(1), None)),
        RiscvInstr::FSGNJX_S => Some((0x10, Some(2), None)),
        RiscvInstr::FMIN_S => Some((0x14, Some(0), None)),
        RiscvInstr::FMAX_S => Some((0x14, Some(1), None)),
        RiscvInstr::FLE_S => Some((0x50, Some(0), None)),
        RiscvInstr::FLT_S => Some((0x50, Some(1), None)),
        RiscvInstr::FEQ_S => Some((0x50, Some(2), None)),
        RiscvInstr::FCVT_W_S => Some((0x60, None, Some(0))),
        RiscvInstr::FCVT_WU_S => Some((0x60, None, Some(1))),
        RiscvInstr::FCVT_L_S => Some((0x60, None, Some(2))),
        RiscvInstr::FCVT_LU_S => Some((0x60, None, Some(3))),
        RiscvInstr::FCVT_S_W => Some((0x68, None, Some(0))),
        RiscvInstr::FCVT_S_WU => Some((0x68, None, Some(1))),
        RiscvInstr::FCVT_S_L => Some((0x68, None, Some(2))),
        RiscvInstr::FCVT_S_LU => Some((0x68, None, Some(3))),
        RiscvInstr::FMV_X_W => Some((0x70, Some(0), Some(0))),
        RiscvInstr::FCLASS_S => Some((0x70, Some(1), Some(0))),
        RiscvInstr::FMV_W_X => Some((0x78, Some(0), Some(0))),
        RiscvInstr::FCVT_S_D => Some((0x20, None, Some(1))),
        RiscvInstr::FADD_D => Some((0x1, None, None)),
        RiscvInstr::FSUB_D => Some((0x5, None, None)),
        RiscvInstr::FMUL_D => Some((0x9, None, None)),
        RiscvInstr::FDIV_D => Some((0xd, None, None)),
        RiscvInstr::FSQRT_D => Some((0x2d, None, Some(0))),
        RiscvInstr::FSGNJ_D => Some((0x11, Some(0), None)),
        RiscvInstr::FSGNJN_D => Some((0x11, Some(1), None)),
        RiscvInstr::FSGNJX_D => Some((0x11, Some(2), None)),
        RiscvInstr::FMIN_D => Some((0x15, Some(0), None)),
        RiscvInstr::FMAX_D => Some((0x15, Some(1), None)),
        RiscvInstr::FLE_D => Some((0x51, Some(0), None)),
        RiscvInstr::FLT_D => Some((0x51, Some(1), None)),
        RiscvInstr::FEQ_D => Some((0x51, Some(2), None)),
        RiscvInstr::FCVT_W_D => Some((0x61, None, Some(0))),
        RiscvInstr::FCVT_WU_D => Some((0x61, None, Some(1))),
        RiscvInstr::FCVT_L_D => Some((0x61, None, Some(2))),
        RiscvInstr::FCVT_LU_D => Some((0x61, None, Some(3))),
        RiscvInstr::FCVT_D_W => Some((0x69, None, Some(0))),
        RiscvInstr::FCVT_D_WU => Some((0x69, None, Some(1))),
        RiscvInstr::FCVT_D_L => Some((0x69, None, Some(2))),
        RiscvInstr::FCVT_D_LU => Some((0x69, None, Some(3))),
        RiscvInstr::FMV_X_D => Some((0x71, Some(0), Some(0))),
        RiscvInstr::FCLASS_D => Some((0x71, Some(1), Some(0))),
        RiscvInstr::FMV_D_X => Some((0x79, Some(0), Some(0))),
        RiscvInstr::FCVT_D_S => Some((0x21, None, Some(0))),
        _ => None,
    }
}

/// A word with the fields of a floating-point operation is decoded as that operation.
pub proof fn law_decodes_float(instr: RiscvInstr, v: u32)
    requires
        ({
            let x = v as int;
            match float_code(instr) {
                Some((f7, f3, rs2)) => {
                    &&& x % 0x80 == 0x53
                    &&& x / 0x200_0000 == f7
                    &&& f3 is Some ==> x / 0x1000 % 8 == f3->0
                    &&& rs2 is Some ==> x / 0x10_0000 % 0x20 == rs2->0
                },
                None => false,
            }
        }),
    ensures
        opcode::any_instr(v) == Some(instr),
{
    reveal(float_code);
    assert(v % 4 == 3);
    assert(opcode::any_instr(v) == opcode::op_fp_instr(v));
    let (f7, f3, rs2) = float_code(instr)->0;
    assert(v / 0x200_0000 % 4 == f7 % 4);
    if f7 % 4 == 0 {
        assert(opcode::op_fp_instr(v) == opcode::single_instr(v));
    } else {
        assert(opcode::op_fp_instr(v) == opcode::double_instr(v));
    }
}

/// The fused operations are told by the opcode, and their format by bits 26 and 25.
pub proof fn law_decodes_fused(v: u32)
    ensures
        v % 0x80 == 0x43 && v / 0x200_0000 % 4 == 0 ==> opcode::any_instr(v) == Some(
            RiscvInstr::FMADD_S,
        ),
        v % 0x80 == 0x43 && v / 0x200_0000 % 4 == 1 ==> opcode::any_instr(v) == Some(
            RiscvInstr::FMADD_D,
        ),
        v % 0x80 == 0x47 && v / 0x200_0000 % 4 == 0 ==> opcode::any_instr(v) == Some(
            RiscvInstr::FMSUB_S,
        ),
        v % 0x80 == 0x47 && v / 0x200_0000 % 4 == 1 ==> opcode::any_instr(v) == Some(
            RiscvInstr::FMSUB_D,
        ),
        v % 0x80 == 0x4b && v / 0x200_0000 % 4 == 0 ==> opcode::any_instr(v) == Some(
            RiscvInstr::FNMSUB_S,
        ),
        v % 0x80 == 0x4b && v / 0x200_0000 % 4 == 1 ==> opcode::any_instr(v) == Some(
            RiscvInstr::FNMSUB_D,
        ),
        v % 0x80 == 0x4f && v / 0x200_0000 % 4 == 0 ==> opcode::any_instr(v) == Some(
            RiscvInstr::FNMADD_S,
        ),
        v % 0x80 == 0x4f && v / 0x200_0000 % 4 == 1 ==> opcode::any_instr(v) == Some(
            RiscvInstr::FNMADD_D,
        ),
{
    assert(v % 0x80 == 0x43 || v % 0x80 == 0x47 || v % 0x80 == 0x4b || v % 0x80 == 0x4f ==> v % 4
        == 3);
}

} // verus!
