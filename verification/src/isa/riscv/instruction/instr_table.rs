//! The instructions by name.
use vstd::prelude::*;

use crate::isa::riscv::vector::types::Vsew;

verus! {

/// An instruction. The vector loads and stores stand for every number of fields; they carry the
/// width that their name gives.
#[allow(non_camel_case_types)]
#[derive(Debug, Clone, Copy, PartialEq, Eq, Structural)]
pub enum RiscvInstr {
    ADD,
    ADDI,
    ADDW,
    ADDIW,
    SUB,
    SUBW,
    MUL,
    MULH,
    MULHU,
    MULHSU,
    DIV,
    DIVU,
    REM,
    REMU,
    MULW,
    DIVW,
    DIVUW,
    REMW,
    REMUW,
    SLL,
    SLLI,
    SRL,
    SRLI,
    SRA,
    SRAI,
    SRAW,
    SRAIW,
    SLLW,
    SLLIW,
    SRLW,
    SRLIW,
    SLT,
    SLTI,
    SLTU,
    SLTIU,
    AND,
    ANDI,
    OR,
    ORI,
    XOR,
    XORI,
    BEQ,
    BNE,
    BLT,
    BGE,
    BLTU,
    BGEU,
    LB,
    LBU,
    LH,
    LHU,
    LW,
    LWU,
    LD,
    SB,
    SH,
    SW,
    SD,
    JAL,
    JALR,
    AUIPC,
    LUI,
    EBREAK,
    ECALL,
    FENCE,
    FENCE_I,
    CSRRW,
    CSRRC,
    CSRRS,
    CSRRWI,
    CSRRCI,
    CSRRSI,
    MRET,
    WFI,
    FADD_S,
    FSUB_S,
    FMUL_S,
    FDIV_S,
    FMADD_S,
    FNMADD_S,
    FMSUB_S,
    FNMSUB_S,
    FSQRT_S,
    FMIN_S,
    FMAX_S,
    FADD_D,
    FSUB_D,
    FMUL_D,
    FDIV_D,
    FMADD_D,
    FNMADD_D,
    FMSUB_D,
    FNMSUB_D,
    FSQRT_D,
    FMIN_D,
    FMAX_D,
    FSGNJ_S,
    FSGNJN_S,
    FSGNJX_S,
    FSGNJ_D,
    FSGNJN_D,
    FSGNJX_D,
    FCVT_W_S,
    FCVT_WU_S,
    FCVT_S_W,
    FCVT_S_WU,
    FCVT_L_S,
    FCVT_LU_S,
    FCVT_S_L,
    FCVT_S_LU,
    FCVT_W_D,
    FCVT_WU_D,
    FCVT_D_W,
    FCVT_D_WU,
    FCVT_L_D,
    FCVT_LU_D,
    FCVT_D_L,
    FCVT_D_LU,
    FCVT_D_S,
    FCVT_S_D,
    FEQ_S,
    FLT_S,
    FLE_S,
    FEQ_D,
    FLT_D,
    FLE_D,
    FLW,
    FSW,
    FLD,
    FSD,
    FMV_X_W,
    FMV_W_X,
    FMV_X_D,
    FMV_D_X,
    FCLASS_S,
    FCLASS_D,
    AMOADD_W,
    AMOAND_W,
    AMOOR_W,
    AMOXOR_W,
    AMOADD_D,
    AMOAND_D,
    AMOOR_D,
    AMOXOR_D,
    AMOSWAP_W,
    AMOSWAP_D,
    AMOMAX_W,
    AMOMIN_W,
    AMOMAXU_W,
    AMOMINU_W,
    AMOMAX_D,
    AMOMIN_D,
    AMOMAXU_D,
    AMOMINU_D,
    LR_W,
    SC_W,
    LR_D,
    SC_D,
    SRET,
    SFENCE_VMA,
    C_ADD,
    C_ADDI,
    C_ADDI16SP,
    C_ADDW,
    C_ADDIW,
    C_ADDI4SPN,
    C_SLLI,
    C_SRLI,
    C_SRAI,
    C_MV,
    C_AND,
    C_ANDI,
    C_OR,
    C_XOR,
    C_SUB,
    C_SUBW,
    C_NOP,
    C_EBREAK,
    C_LI,
    C_LUI,
    C_LW,
    C_LD,
    C_LWSP,
    C_LDSP,
    C_SW,
    C_SD,
    C_SWSP,
    C_SDSP,
    C_FLW,
    C_FLD,
    C_FLWSP,
    C_FLDSP,
    C_FSW,
    C_FSD,
    C_FSWSP,
    C_FSDSP,
    C_BEQZ,
    C_BNEZ,
    C_J,
    C_JAL,
    C_JR,
    C_JALR,
    ILLEGAL,
    VSETVL,
    VSETVLI,
    VSETIVLI,
    VADD_VV,
    VSUB_VV,
    VMUL_VV,
    VMULH_VV,
    VMULHU_VV,
    VMULHSU_VV,
    VDIV_VV,
    VDIVU_VV,
    VREM_VV,
    VREMU_VV,
    VAND_VV,
    VOR_VV,
    VXOR_VV,
    VSRA_VV,
    VSRL_VV,
    VSLL_VV,
    VNSRL_WV,
    VNSRA_WV,
    VMSEQ_VV,
    VMSNE_VV,
    VMSLTU_VV,
    VMSLT_VV,
    VMSLEU_VV,
    VMSLE_VV,
    VADC_VVM,
    VMADC_VV,
    VMADC_VVM,
    VSBC_VVM,
    VMSBC_VV,
    VMSBC_VVM,
    VMAX_VV,
    VMAXU_VV,
    VMIN_VV,
    VMINU_VV,
    VMACC_VV,
    VNMSAC_VV,
    VMADD_VV,
    VNMSUB_VV,
    VMERGE_VVM,
    VMV_V_V,
    VSADDU_VV,
    VSADD_VV,
    VSSUBU_VV,
    VSSUB_VV,
    VAADDU_VV,
    VAADD_VV,
    VASUBU_VV,
    VASUB_VV,
    VSMUL_VV,
    VSSRL_VV,
    VSSRA_VV,
    VNCLIPU_WV,
    VNCLIP_WV,
    VRGATHER_VV,
    VRGATHEREI16_VV,
    VADD_VX,
    VSUB_VX,
    VRSUB_VX,
    VMUL_VX,
    VMULH_VX,
    VMULHU_VX,
    VMULHSU_VX,
    VDIV_VX,
    VDIVU_VX,
    VREM_VX,
    VREMU_VX,
    VAND_VX,
    VOR_VX,
    VXOR_VX,
    VSRA_VX,
    VSRL_VX,
    VSLL_VX,
    VNSRL_WX,
    VNSRA_WX,
    VMSEQ_VX,
    VMSNE_VX,
    VMSLTU_VX,
    VMSLT_VX,
    VMSLEU_VX,
    VMSLE_VX,
    VMSGTU_VX,
    VMSGT_VX,
    VADC_VXM,
    VMADC_VX,
    VMADC_VXM,
    VSBC_VXM,
    VMSBC_VX,
    VMSBC_VXM,
    VMAX_VX,
    VMAXU_VX,
    VMIN_VX,
    VMINU_VX,
    VMACC_VX,
    VNMSAC_VX,
    VMADD_VX,
    VNMSUB_VX,
    VMERGE_VXM,
    VMV_V_X,
    VSADDU_VX,
    VSADD_VX,
    VSSUBU_VX,
    VSSUB_VX,
    VAADDU_VX,
    VAADD_VX,
    VASUBU_VX,
    VASUB_VX,
    VSMUL_VX,
    VSSRL_VX,
    VSSRA_VX,
    VNCLIPU_WX,
    VNCLIP_WX,
    VSLIDEUP_VX,
    VSLIDEDOWN_VX,
    VRGATHER_VX,
    VADD_VI,
    VRSUB_VI,
    VAND_VI,
    VOR_VI,
    VXOR_VI,
    VSRA_VI,
    VSRL_VI,
    VSLL_VI,
    VNSRL_WI,
    VNSRA_WI,
    VMSEQ_VI,
    VMSNE_VI,
    VMSLEU_VI,
    VMSLE_VI,
    VMSGTU_VI,
    VMSGT_VI,
    VADC_VIM,
    VMADC_VI,
    VMADC_VIM,
    VMERGE_VIM,
    VMV_V_I,
    VSADDU_VI,
    VSADD_VI,
    VSSRL_VI,
    VSSRA_VI,
    VNCLIPU_WI,
    VNCLIP_WI,
    VSLIDEUP_VI,
    VSLIDEDOWN_VI,
    VRGATHER_VI,
    VMV1R_V,
    VMV2R_V,
    VMV4R_V,
    VMV8R_V,
    VWADD_VV,
    VWADD_WV,
    VWADDU_VV,
    VWADDU_WV,
    VWSUB_VV,
    VWSUB_WV,
    VWSUBU_VV,
    VWSUBU_WV,
    VWMUL_VV,
    VWMULU_VV,
    VWMULSU_VV,
    VZEXT_VF2,
    VZEXT_VF4,
    VZEXT_VF8,
    VSEXT_VF2,
    VSEXT_VF4,
    VSEXT_VF8,
    VWMACCU_VV,
    VWMACC_VV,
    VWMACCSU_VV,
    VCOMPRESS_VM,
    VMAND_MM,
    VMNAND_MM,
    VMANDN_MM,
    VMXOR_MM,
    VMOR_MM,
    VMNOR_MM,
    VMORN_MM,
    VMXNOR_MM,
    VCPOP_M,
    VFIRST_M,
    VMSBF_M,
    VMSIF_M,
    VMSOF_M,
    VIOTA_M,
    VID_V,
    VMV_X_S,
    VMV_S_X,
    VWADD_VX,
    VWADD_WX,
    VWADDU_VX,
    VWADDU_WX,
    VWSUB_VX,
    VWSUB_WX,
    VWSUBU_VX,
    VWSUBU_WX,
    VWMUL_VX,
    VWMULU_VX,
    VWMULSU_VX,
    VWMACCU_VX,
    VWMACC_VX,
    VWMACCSU_VX,
    VWMACCUS_VX,
    VLM_V,
    VSM_V,
    VSLIDE1UP_VX,
    VSLIDE1DOWN_VX,
    VLE_V(Vsew),
    VLEFF_V(Vsew),
    VLSE_V(Vsew),
    VLUXEI_V(Vsew),
    VLOXEI_V(Vsew),
    VLRE_V(Vsew),
    VSE_V(Vsew),
    VSSE_V(Vsew),
    VSUXEI_V(Vsew),
    VSOXEI_V(Vsew),
    VSR_V,
}

impl RiscvInstr {
    /// Whether the instruction is encoded in two bytes.
    pub open spec fn compressed(self) -> bool {
        match self {
            RiscvInstr::C_ADD
            | RiscvInstr::C_ADDI
            | RiscvInstr::C_ADDI16SP
            | RiscvInstr::C_ADDW
            | RiscvInstr::C_ADDIW
            | RiscvInstr::C_ADDI4SPN
            | RiscvInstr::C_SLLI
            | RiscvInstr::C_SRLI
            | RiscvInstr::C_SRAI
            | RiscvInstr::C_MV
            | RiscvInstr::C_AND
            | RiscvInstr::C_ANDI
            | RiscvInstr::C_OR
            | RiscvInstr::C_XOR
            | RiscvInstr::C_SUB
            | RiscvInstr::C_SUBW
            | RiscvInstr::C_NOP
            | RiscvInstr::C_EBREAK
            | RiscvInstr::C_LI
            | RiscvInstr::C_LUI
            | RiscvInstr::C_LW
            | RiscvInstr::C_LD
            | RiscvInstr::C_LWSP
            | RiscvInstr::C_LDSP
            | RiscvInstr::C_SW
            | RiscvInstr::C_SD
            | RiscvInstr::C_SWSP
            | RiscvInstr::C_SDSP
            | RiscvInstr::C_FLW
            | RiscvInstr::C_FLD
            | RiscvInstr::C_FLWSP
            | RiscvInstr::C_FLDSP
            | RiscvInstr::C_FSW
            | RiscvInstr::C_FSD
            | RiscvInstr::C_FSWSP
            | RiscvInstr::C_FSDSP
            | RiscvInstr::C_BEQZ
            | RiscvInstr::C_BNEZ
            | RiscvInstr::C_J
            | RiscvInstr::C_JAL
            | RiscvInstr::C_JR
            | RiscvInstr::C_JALR
            | RiscvInstr::ILLEGAL => true,
            _ => false,
        }
    }

    /// The length of the encoded instruction in bytes.
    pub fn len(&self) -> (r: u64)
        ensures
            r == if self.compressed() {
                2u64
            } else {
                4u64
            },
    {
        match *self {
            RiscvInstr::C_ADD
            | RiscvInstr::C_ADDI
            | RiscvInstr::C_ADDI16SP
            | RiscvInstr::C_ADDW
            | RiscvInstr::C_ADDIW
            | RiscvInstr::C_ADDI4SPN
            | RiscvInstr::C_SLLI
            | RiscvInstr::C_SRLI
            | RiscvInstr::C_SRAI
            | RiscvInstr::C_MV
            | RiscvInstr::C_AND
            | RiscvInstr::C_ANDI
            | RiscvInstr::C_OR
            | RiscvInstr::C_XOR
            | RiscvInstr::C_SUB
            | RiscvInstr::C_SUBW
            | RiscvInstr::C_NOP
            | RiscvInstr::C_EBREAK
            | RiscvInstr::C_LI
            | RiscvInstr::C_LUI
            | RiscvInstr::C_LW
            | RiscvInstr::C_LD
            | RiscvInstr::C_LWSP
            | RiscvInstr::C_LDSP
            | RiscvInstr::C_SW
            | RiscvInstr::C_SD
            | RiscvInstr::C_SWSP
            | RiscvInstr::C_SDSP
            | RiscvInstr::C_FLW
            | RiscvInstr::C_FLD
            | RiscvInstr::C_FLWSP
            | RiscvInstr::C_FLDSP
            | RiscvInstr::C_FSW
            | RiscvInstr::C_FSD
            | RiscvInstr::C_FSWSP
            | RiscvInstr::C_FSDSP
            | RiscvInstr::C_BEQZ
            | RiscvInstr::C_BNEZ
            | RiscvInstr::C_J
            | RiscvInstr::C_JAL
            | RiscvInstr::C_JR
            | RiscvInstr::C_JALR
            | RiscvInstr::ILLEGAL => 2,
            _ => 4,
        }
    }
}

} // verus!
