//! Which handler executes an instruction.
use vstd::prelude::*;

use crate::fpu::bits::{FloatFormat, FloatRelation, SignInjection};
use crate::fpu::soft_float::{FloatBinary, FloatTernary};
use crate::isa::riscv::mmu::AmoOp;
use crate::isa::riscv::vector::element::{MulAddFn, WidenFn, WidenMulAddFn};
use crate::isa::riscv::vector::fixed::FixedFn;
use crate::isa::riscv::vector::mask::{MaskLogic, MaskRelation};
use crate::isa::riscv::vector::types::Vsew;
use crate::utils::Width;

use super::alu::{AluFn, CompareFn};
use super::info::RVInstrInfo;
use super::instr_table::RiscvInstr;

verus! {

/// Where a vector instruction takes its second operand from.
#[derive(Clone, Copy, Debug, PartialEq, Eq, Structural)]
pub enum VecForm {
    /// A vector register.
    VV,
    /// An integer register.
    VX,
    /// A signed immediate of five bits.
    VI,
    /// An unsigned immediate of five bits.
    VU,
}

/// Where an instruction that configures the vector unit takes its settings from.
#[derive(Clone, Copy, Debug, PartialEq, Eq, Structural)]
pub enum VectorConfigForm {
    /// Type and length from registers.
    Vsetvl,
    /// The type from an immediate, the length from a register.
    Vsetvli,
    /// Type and length from immediates.
    Vsetivli,
}

/// A vector instruction with legality or operands of its own.
#[allow(non_camel_case_types)]
#[derive(Clone, Copy, Debug, PartialEq, Eq, Structural)]
pub enum VectorSpecInstr {
    SLIDEUP_VI,
    SLIDEDOWN_VI,
    GATHER_VI,
    COMPRESS_VM,
    CPOP_M,
    FIRST_M,
    MSBF_M,
    MSOF_M,
    MSIF_M,
    IOTA_M,
    ID_V,
    SLIDEUP_VX,
    SLIDEDOWN_VX,
    GATHER_VV,
    GATHER_VX,
    GATHER_EI16_VV,
    MOVE_V,
    MOVE_VX,
    MOVE_VI,
    NSRL_WV,
    NSRA_WV,
    NSRL_WX,
    NSRA_WX,
    NSRL_WI,
    NSRA_WI,
    MADC_VVM,
    MSBC_VVM,
    MADC_VXM,
    MSBC_VXM,
    MADC_VIM,
    ADC_VIM,
    MERGE_VIM,
    MOVE_SX,
    MOVE_XS,
    SLIDE1UP_VX,
    SLIDE1DOWN_VX,
}

/// A handler: an operation with the parameters that tell its instructions apart.
#[derive(Clone, Copy, Debug, PartialEq, Eq, Structural)]
pub enum ExecFn {
    Arith(AluFn),
    ArithWord(AluFn),
    Branch(CompareFn),
    /// A load, sign-extended if the flag is set.
    Load(Width, bool),
    Store(Width),
    Jal,
    Jalr,
    Auipc,
    Lui,
    Ebreak,
    Ecall,
    Nop,
    FenceI,
    /// The flag says that the source is an immediate.
    Csrw(bool),
    /// The flags say that bits are set, not cleared, and that the source is an immediate.
    CsrBit(bool, bool),
    Mret,
    Sret,
    SfenceVma,
    Illegal,
    FloatArith(FloatFormat, FloatBinary),
    FloatFused(FloatFormat, FloatTernary),
    FloatSqrt(FloatFormat),
    FloatMin(FloatFormat),
    FloatMax(FloatFormat),
    FloatSign(FloatFormat, SignInjection),
    /// The flag says that the integer is signed.
    IntFromFloat(FloatFormat, Width, bool),
    FloatFromSigned(FloatFormat),
    FloatFromUnsigned(FloatFormat, Width),
    FloatConvert(FloatFormat),
    FloatCompare(FloatFormat, FloatRelation),
    FloatLoad(FloatFormat),
    FloatStore(FloatFormat),
    /// The flag says that the low half is sign-extended.
    XFromFloat(bool),
    FloatFromX(FloatFormat),
    FloatClassify(FloatFormat),
    Amo(AmoOp, Width),
    LoadReserved(Width, bool),
    StoreConditional(Width),
    CompressArith(AluFn),
    CompressArithWord(AluFn),
    Addi4spn,
    CompressMv,
    CompressNop,
    CompressLi,
    CompressLoad(Width, bool),
    CompressLoadSp(Width, bool),
    CompressStore(Width),
    CompressStoreSp(Width),
    CompressFloatLoad(FloatFormat),
    CompressFloatLoadSp(FloatFormat),
    CompressFloatStore(FloatFormat),
    CompressFloatStoreSp(FloatFormat),
    CompressBranch(CompareFn),
    /// The flag says that the return address is kept.
    CompressJump(bool),
    CompressJumpReg(bool),
    VecConfig(VectorConfigForm),
    VecInteger(AluFn, VecForm),
    VecMulAdd(MulAddFn, VecForm),
    /// The flag says that the first operand has twice the width already.
    VecWiden(WidenFn, VecForm, bool),
    VecWidenMulAdd(WidenMulAddFn, VecForm),
    VecFixedPoint(FixedFn, VecForm),
    VecClip(bool, VecForm),
    VecCarry(bool, VecForm),
    VecMerge(VecForm),
    VecCompare(MaskRelation, VecForm),
    VecCarryOut(bool, VecForm),
    VecBit(MaskLogic),
    VecExtend(bool, u8),
    VecWholeMove(u8),
    VecSpec(VectorSpecInstr),
    VecUnitLoad(Vsew),
    VecStrideLoad(Vsew),
    VecIndexedLoad(Vsew),
    VecUnorderedLoad,
    VecFaultFirstLoad,
    VecWholeLoad,
    VecMaskLoad,
    VecUnitStore(Vsew),
    VecStrideStore(Vsew),
    VecIndexedStore(Vsew),
    VecUnorderedStore,
    VecWholeStore,
    VecMaskStore,
}

/// The handler of an instruction.
pub open spec fn exec_func_of(instr: RiscvInstr) -> ExecFn {
    match instr {
        RiscvInstr::ADD | RiscvInstr::ADDI => ExecFn::Arith(AluFn::Add),
        RiscvInstr::ADDW | RiscvInstr::ADDIW => ExecFn::ArithWord(AluFn::Add),
        RiscvInstr::SUB => ExecFn::Arith(AluFn::Sub),
        RiscvInstr::SUBW => ExecFn::ArithWord(AluFn::Sub),
        RiscvInstr::MUL => ExecFn::Arith(AluFn::MulLow),
        RiscvInstr::MULH => ExecFn::Arith(AluFn::MulHighSigned),
        RiscvInstr::MULHU => ExecFn::Arith(AluFn::MulHighUnsigned),
        RiscvInstr::MULHSU => ExecFn::Arith(AluFn::MulHighSignedUnsigned),
        RiscvInstr::DIV => ExecFn::Arith(AluFn::DivSigned),
        RiscvInstr::DIVU => ExecFn::Arith(AluFn::DivUnsigned),
        RiscvInstr::REM => ExecFn::Arith(AluFn::RemSigned),
        RiscvInstr::REMU => ExecFn::Arith(AluFn::RemUnsigned),
        RiscvInstr::MULW => ExecFn::ArithWord(AluFn::MulLow),
        RiscvInstr::DIVW => ExecFn::ArithWord(AluFn::DivSigned),
        RiscvInstr::DIVUW => ExecFn::ArithWord(AluFn::DivUnsigned),
        RiscvInstr::REMW => ExecFn::ArithWord(AluFn::RemSigned),
        RiscvInstr::REMUW => ExecFn::ArithWord(AluFn::RemUnsigned),
        RiscvInstr::SLL | RiscvInstr::SLLI => ExecFn::Arith(AluFn::Sll),
        RiscvInstr::SRL | RiscvInstr::SRLI => ExecFn::Arith(AluFn::Srl),
        RiscvInstr::SRA | RiscvInstr::SRAI => ExecFn::Arith(AluFn::Sra),
        RiscvInstr::SRAW | RiscvInstr::SRAIW => ExecFn::ArithWord(AluFn::Sra),
        RiscvInstr::SLLW | RiscvInstr::SLLIW => ExecFn::ArithWord(AluFn::Sll),
        RiscvInstr::SRLW | RiscvInstr::SRLIW => ExecFn::ArithWord(AluFn::Srl),
        RiscvInstr::SLT | RiscvInstr::SLTI => ExecFn::Arith(AluFn::SignedLess),
        RiscvInstr::SLTU | RiscvInstr::SLTIU => ExecFn::Arith(AluFn::UnsignedLess),
        RiscvInstr::AND | RiscvInstr::ANDI => ExecFn::Arith(AluFn::And),
        RiscvInstr::OR | RiscvInstr::ORI => ExecFn::Arith(AluFn::Or),
        RiscvInstr::XOR | RiscvInstr::XORI => ExecFn::Arith(AluFn::Xor),
        RiscvInstr::BEQ => ExecFn::Branch(CompareFn::Equal),
        RiscvInstr::BNE => ExecFn::Branch(CompareFn::NotEqual),
        RiscvInstr::BLT => ExecFn::Branch(CompareFn::SignedLess),
        RiscvInstr::BGE => ExecFn::Branch(CompareFn::SignedGreatEqual),
        RiscvInstr::BLTU => ExecFn::Branch(CompareFn::UnsignedLess),
        RiscvInstr::BGEU => ExecFn::Branch(CompareFn::UnsignedGreatEqual),
        RiscvInstr::LB => ExecFn::Load(Width::W8, true),
        RiscvInstr::LBU => ExecFn::Load(Width::W8, false),
        RiscvInstr::LH => ExecFn::Load(Width::W16, true),
        RiscvInstr::LHU => ExecFn::Load(Width::W16, false),
        RiscvInstr::LW => ExecFn::Load(Width::W32, true),
        RiscvInstr::LWU => ExecFn::Load(Width::W32, false),
        RiscvInstr::LD => ExecFn::Load(Width::W64, false),
        RiscvInstr::SB => ExecFn::Store(Width::W8),
        RiscvInstr::SH => ExecFn::Store(Width::W16),
        RiscvInstr::SW => ExecFn::Store(Width::W32),
        RiscvInstr::SD => ExecFn::Store(Width::W64),
        RiscvInstr::JAL => ExecFn::Jal,
        RiscvInstr::JALR => ExecFn::Jalr,
        RiscvInstr::AUIPC => ExecFn::Auipc,
        RiscvInstr::LUI => ExecFn::Lui,
        RiscvInstr::EBREAK | RiscvInstr::C_EBREAK => ExecFn::Ebreak,
        RiscvInstr::ECALL => ExecFn::Ecall,
        RiscvInstr::FENCE | RiscvInstr::WFI => ExecFn::Nop,
        RiscvInstr::FENCE_I => ExecFn::FenceI,
        RiscvInstr::CSRRW => ExecFn::Csrw(false),
        RiscvInstr::CSRRC => ExecFn::CsrBit(false, false),
        RiscvInstr::CSRRS => ExecFn::CsrBit(true, false),
        RiscvInstr::CSRRWI => ExecFn::Csrw(true),
        RiscvInstr::CSRRCI => ExecFn::CsrBit(false, true),
        RiscvInstr::CSRRSI => ExecFn::CsrBit(true, true),
        RiscvInstr::MRET => ExecFn::Mret,
        RiscvInstr::FADD_S => ExecFn::FloatArith(FloatFormat::Single, FloatBinary::Add),
        RiscvInstr::FSUB_S => ExecFn::FloatArith(FloatFormat::Single, FloatBinary::Sub),
        RiscvInstr::FMUL_S => ExecFn::FloatArith(FloatFormat::Single, FloatBinary::Mul),
        RiscvInstr::FDIV_S => ExecFn::FloatArith(FloatFormat::Single, FloatBinary::Div),
        RiscvInstr::FMADD_S => ExecFn::FloatFused(FloatFormat::Single, FloatTernary::MulAdd),
        RiscvInstr::FNMADD_S => ExecFn::FloatFused(FloatFormat::Single, FloatTernary::NegMulAdd),
        RiscvInstr::FMSUB_S => ExecFn::FloatFused(FloatFormat::Single, FloatTernary::MulSub),
        RiscvInstr::FNMSUB_S => ExecFn::FloatFused(FloatFormat::Single, FloatTernary::NegMulSub),
        RiscvInstr::FSQRT_S => ExecFn::FloatSqrt(FloatFormat::Single),
        RiscvInstr::FMIN_S => ExecFn::FloatMin(FloatFormat::Single),
        RiscvInstr::FMAX_S => ExecFn::FloatMax(FloatFormat::Single),
        RiscvInstr::FADD_D => ExecFn::FloatArith(FloatFormat::Double, FloatBinary::Add),
        RiscvInstr::FSUB_D => ExecFn::FloatArith(FloatFormat::Double, FloatBinary::Sub),
        RiscvInstr::FMUL_D => ExecFn::FloatArith(FloatFormat::Double, FloatBinary::Mul),
        RiscvInstr::FDIV_D => ExecFn::FloatArith(FloatFormat::Double, FloatBinary::Div),
        RiscvInstr::FMADD_D => ExecFn::FloatFused(FloatFormat::Double, FloatTernary::MulAdd),
        RiscvInstr::FNMADD_D => ExecFn::FloatFused(FloatFormat::Double, FloatTernary::NegMulAdd),
        RiscvInstr::FMSUB_D => ExecFn::FloatFused(FloatFormat::Double, FloatTernary::MulSub),
        RiscvInstr::FNMSUB_D => ExecFn::FloatFused(FloatFormat::Double, FloatTernary::NegMulSub),
        RiscvInstr::FSQRT_D => ExecFn::FloatSqrt(FloatFormat::Double),
        RiscvInstr::FMIN_D => ExecFn::FloatMin(FloatFormat::Double),
        RiscvInstr::FMAX_D => ExecFn::FloatMax(FloatFormat::Double),
        RiscvInstr::FSGNJ_S => ExecFn::FloatSign(FloatFormat::Single, SignInjection::Copy),
        RiscvInstr::FSGNJN_S => ExecFn::FloatSign(FloatFormat::Single, SignInjection::Negate),
        RiscvInstr::FSGNJX_S => ExecFn::FloatSign(FloatFormat::Single, SignInjection::Xor),
        RiscvInstr::FSGNJ_D => ExecFn::FloatSign(FloatFormat::Double, SignInjection::Copy),
        RiscvInstr::FSGNJN_D => ExecFn::FloatSign(FloatFormat::Double, SignInjection::Negate),
        RiscvInstr::FSGNJX_D => ExecFn::FloatSign(FloatFormat::Double, SignInjection::Xor),
        RiscvInstr::FCVT_W_S => ExecFn::IntFromFloat(FloatFormat::Single, Width::W32, true),
        RiscvInstr::FCVT_WU_S => ExecFn::IntFromFloat(FloatFormat::Single, Width::W32, false),
        RiscvInstr::FCVT_S_W | RiscvInstr::FCVT_S_L => ExecFn::FloatFromSigned(FloatFormat::Single),
        RiscvInstr::FCVT_S_WU => ExecFn::FloatFromUnsigned(FloatFormat::Single, Width::W32),
        RiscvInstr::FCVT_L_S => ExecFn::IntFromFloat(FloatFormat::Single, Width::W64, true),
        RiscvInstr::FCVT_LU_S => ExecFn::IntFromFloat(FloatFormat::Single, Width::W64, false),
        RiscvInstr::FCVT_S_LU => ExecFn::FloatFromUnsigned(FloatFormat::Single, Width::W64),
        RiscvInstr::FCVT_W_D => ExecFn::IntFromFloat(FloatFormat::Double, Width::W32, true),
        RiscvInstr::FCVT_WU_D => ExecFn::IntFromFloat(FloatFormat::Double, Width::W32, false),
        RiscvInstr::FCVT_D_W | RiscvInstr::FCVT_D_L => ExecFn::FloatFromSigned(FloatFormat::Double),
        RiscvInstr::FCVT_D_WU => ExecFn::FloatFromUnsigned(FloatFormat::Double, Width::W32),
        RiscvInstr::FCVT_L_D => ExecFn::IntFromFloat(FloatFormat::Double, Width::W64, true),
        RiscvInstr::FCVT_LU_D => ExecFn::IntFromFloat(FloatFormat::Double, Width::W64, false),
        RiscvInstr::FCVT_D_LU => ExecFn::FloatFromUnsigned(FloatFormat::Double, Width::W64),
        RiscvInstr::FCVT_D_S => ExecFn::FloatConvert(FloatFormat::Single),
        RiscvInstr::FCVT_S_D => ExecFn::FloatConvert(FloatFormat::Double),
        RiscvInstr::FEQ_S => ExecFn::FloatCompare(FloatFormat::Single, FloatRelation::Eq),
        RiscvInstr::FLT_S => ExecFn::FloatCompare(FloatFormat::Single, FloatRelation::Lt),
        RiscvInstr::FLE_S => ExecFn::FloatCompare(FloatFormat::Single, FloatRelation::Le),
        RiscvInstr::FEQ_D => ExecFn::FloatCompare(FloatFormat::Double, FloatRelation::Eq),
        RiscvInstr::FLT_D => ExecFn::FloatCompare(FloatFormat::Double, FloatRelation::Lt),
        RiscvInstr::FLE_D => ExecFn::FloatCompare(FloatFormat::Double, FloatRelation::Le),
        RiscvInstr::FLW => ExecFn::FloatLoad(FloatFormat::Single),
        RiscvInstr::FSW => ExecFn::FloatStore(FloatFormat::Single),
        RiscvInstr::FLD => ExecFn::FloatLoad(FloatFormat::Double),
        RiscvInstr::FSD => ExecFn::FloatStore(FloatFormat::Double),
        RiscvInstr::FMV_X_W => ExecFn::XFromFloat(true),
        RiscvInstr::FMV_W_X => ExecFn::FloatFromX(FloatFormat::Single),
        RiscvInstr::FMV_X_D => ExecFn::XFromFloat(false),
        RiscvInstr::FMV_D_X => ExecFn::FloatFromX(FloatFormat::Double),
        RiscvInstr::FCLASS_S => ExecFn::FloatClassify(FloatFormat::Single),
        RiscvInstr::FCLASS_D => ExecFn::FloatClassify(FloatFormat::Double),
        RiscvInstr::AMOADD_W => ExecFn::Amo(AmoOp::Add, Width::W32),
        RiscvInstr::AMOAND_W => ExecFn::Amo(AmoOp::And, Width::W32),
        RiscvInstr::AMOOR_W => ExecFn::Amo(AmoOp::Or, Width::W32),
        RiscvInstr::AMOXOR_W => ExecFn::Amo(AmoOp::Xor, Width::W32),
        RiscvInstr::AMOADD_D => ExecFn::Amo(AmoOp::Add, Width::W64),
        RiscvInstr::AMOAND_D => ExecFn::Amo(AmoOp::And, Width::W64),
        RiscvInstr::AMOOR_D => ExecFn::Amo(AmoOp::Or, Width::W64),
        RiscvInstr::AMOXOR_D => ExecFn::Amo(AmoOp::Xor, Width::W64),
        RiscvInstr::AMOSWAP_W => ExecFn::Amo(AmoOp::Swap, Width::W32),
        RiscvInstr::AMOSWAP_D => ExecFn::Amo(AmoOp::Swap, Width::W64),
        RiscvInstr::AMOMAX_W => ExecFn::Amo(AmoOp::Max, Width::W32),
        RiscvInstr::AMOMIN_W => ExecFn::Amo(AmoOp::Min, Width::W32),
        RiscvInstr::AMOMAXU_W => ExecFn::Amo(AmoOp::MaxU, Width::W32),
        RiscvInstr::AMOMINU_W => ExecFn::Amo(AmoOp::MinU, Width::W32),
        RiscvInstr::AMOMAX_D => ExecFn::Amo(AmoOp::Max, Width::W64),
        RiscvInstr::AMOMIN_D => ExecFn::Amo(AmoOp::Min, Width::W64),
        RiscvInstr::AMOMAXU_D => ExecFn::Amo(AmoOp::MaxU, Width::W64),
        RiscvInstr::AMOMINU_D => ExecFn::Amo(AmoOp::MinU, Width::W64),
        RiscvInstr::LR_W => ExecFn::LoadReserved(Width::W32, true),
        RiscvInstr::SC_W => ExecFn::StoreConditional(Width::W32),
        RiscvInstr::LR_D => ExecFn::LoadReserved(Width::W64, false),
        RiscvInstr::SC_D => ExecFn::StoreConditional(Width::W64),
        RiscvInstr::SRET => ExecFn::Sret,
        RiscvInstr::SFENCE_VMA => ExecFn::SfenceVma,
        RiscvInstr::C_ADD
        | RiscvInstr::C_ADDI
        | RiscvInstr::C_ADDI16SP => ExecFn::CompressArith(AluFn::Add),
        RiscvInstr::C_ADDW | RiscvInstr::C_ADDIW => ExecFn::CompressArithWord(AluFn::Add),
        RiscvInstr::C_ADDI4SPN => ExecFn::Addi4spn,
        RiscvInstr::C_SLLI => ExecFn::CompressArith(AluFn::Sll),
        RiscvInstr::C_SRLI => ExecFn::CompressArith(AluFn::Srl),
        RiscvInstr::C_SRAI => ExecFn::CompressArith(AluFn::Sra),
        RiscvInstr::C_MV => ExecFn::CompressMv,
        RiscvInstr::C_AND | RiscvInstr::C_ANDI => ExecFn::CompressArith(AluFn::And),
        RiscvInstr::C_OR => ExecFn::CompressArith(AluFn::Or),
        RiscvInstr::C_XOR => ExecFn::CompressArith(AluFn::Xor),
        RiscvInstr::C_SUB => ExecFn::CompressArith(AluFn::Sub),
        RiscvInstr::C_SUBW => ExecFn::CompressArithWord(AluFn::Sub),
        RiscvInstr::C_NOP => ExecFn::CompressNop,
        RiscvInstr::C_LI | RiscvInstr::C_LUI => ExecFn::CompressLi,
        RiscvInstr::C_LW => ExecFn::CompressLoad(Width::W32, true),
        RiscvInstr::C_LD => ExecFn::CompressLoad(Width::W64, false),
        RiscvInstr::C_LWSP => ExecFn::CompressLoadSp(Width::W32, true),
        RiscvInstr::C_LDSP => ExecFn::CompressLoadSp(Width::W64, false),
        RiscvInstr::C_SW => ExecFn::CompressStore(Width::W32),
        RiscvInstr::C_SD => ExecFn::CompressStore(Width::W64),
        RiscvInstr::C_SWSP => ExecFn::CompressStoreSp(Width::W32),
        RiscvInstr::C_SDSP => ExecFn::CompressStoreSp(Width::W64),
        RiscvInstr::C_FLW => ExecFn::CompressFloatLoad(FloatFormat::Single),
        RiscvInstr::C_FLD => ExecFn::CompressFloatLoad(FloatFormat::Double),
        RiscvInstr::C_FLWSP => ExecFn::CompressFloatLoadSp(FloatFormat::Single),
        RiscvInstr::C_FLDSP => ExecFn::CompressFloatLoadSp(FloatFormat::Double),
        RiscvInstr::C_FSW => ExecFn::CompressFloatStore(FloatFormat::Single),
        RiscvInstr::C_FSD => ExecFn::CompressFloatStore(FloatFormat::Double),
        RiscvInstr::C_FSWSP => ExecFn::CompressFloatStoreSp(FloatFormat::Single),
        RiscvInstr::C_FSDSP => ExecFn::CompressFloatStoreSp(FloatFormat::Double),
        RiscvInstr::C_BEQZ => ExecFn::CompressBranch(CompareFn::Equal),
        RiscvInstr::C_BNEZ => ExecFn::CompressBranch(CompareFn::NotEqual),
        RiscvInstr::C_J => ExecFn::CompressJump(false),
        RiscvInstr::C_JAL => ExecFn::CompressJump(true),
        RiscvInstr::C_JR => ExecFn::CompressJumpReg(false),
        RiscvInstr::C_JALR => ExecFn::CompressJumpReg(true),
        RiscvInstr::ILLEGAL => ExecFn::Illegal,
        RiscvInstr::VSETVL => ExecFn::VecConfig(VectorConfigForm::Vsetvl),
        RiscvInstr::VSETVLI => ExecFn::VecConfig(VectorConfigForm::Vsetvli),
        RiscvInstr::VSETIVLI => ExecFn::VecConfig(VectorConfigForm::Vsetivli),
        RiscvInstr::VADD_VV => ExecFn::VecInteger(AluFn::Add, VecForm::VV),
        RiscvInstr::VSUB_VV => ExecFn::VecInteger(AluFn::Sub, VecForm::VV),
        RiscvInstr::VMUL_VV => ExecFn::VecInteger(AluFn::MulLow, VecForm::VV),
        RiscvInstr::VMULH_VV => ExecFn::VecInteger(AluFn::MulHighSigned, VecForm::VV),
        RiscvInstr::VMULHU_VV => ExecFn::VecInteger(AluFn::MulHighUnsigned, VecForm::VV),
        RiscvInstr::VMULHSU_VV => ExecFn::VecInteger(AluFn::MulHighSignedUnsigned, VecForm::VV),
        RiscvInstr::VDIV_VV => ExecFn::VecInteger(AluFn::DivSigned, VecForm::VV),
        RiscvInstr::VDIVU_VV => ExecFn::VecInteger(AluFn::DivUnsigned, VecForm::VV),
        RiscvInstr::VREM_VV => ExecFn::VecInteger(AluFn::RemSigned, VecForm::VV),
        RiscvInstr::VREMU_VV => ExecFn::VecInteger(AluFn::RemUnsigned, VecForm::VV),
        RiscvInstr::VAND_VV => ExecFn::VecInteger(AluFn::And, VecForm::VV),
        RiscvInstr::VOR_VV => ExecFn::VecInteger(AluFn::Or, VecForm::VV),
        RiscvInstr::VXOR_VV => ExecFn::VecInteger(AluFn::Xor, VecForm::VV),
        RiscvInstr::VSRA_VV => ExecFn::VecInteger(AluFn::Sra, VecForm::VV),
        RiscvInstr::VSRL_VV => ExecFn::VecInteger(AluFn::Srl, VecForm::VV),
        RiscvInstr::VSLL_VV => ExecFn::VecInteger(AluFn::Sll, VecForm::VV),
        RiscvInstr::VNSRL_WV => ExecFn::VecSpec(VectorSpecInstr::NSRL_WV),
        RiscvInstr::VNSRA_WV => ExecFn::VecSpec(VectorSpecInstr::NSRA_WV),
        RiscvInstr::VMSEQ_VV => ExecFn::VecCompare(MaskRelation::Eq, VecForm::VV),
        RiscvInstr::VMSNE_VV => ExecFn::VecCompare(MaskRelation::Ne, VecForm::VV),
        RiscvInstr::VMSLTU_VV => ExecFn::VecCompare(MaskRelation::Ltu, VecForm::VV),
        RiscvInstr::VMSLT_VV => ExecFn::VecCompare(MaskRelation::Lt, VecForm::VV),
        RiscvInstr::VMSLEU_VV => ExecFn::VecCompare(MaskRelation::Leu, VecForm::VV),
        RiscvInstr::VMSLE_VV => ExecFn::VecCompare(MaskRelation::Le, VecForm::VV),
        RiscvInstr::VADC_VVM => ExecFn::VecCarry(false, VecForm::VV),
        RiscvInstr::VMADC_VV => ExecFn::VecCarryOut(false, VecForm::VV),
        RiscvInstr::VMADC_VVM => ExecFn::VecSpec(VectorSpecInstr::MADC_VVM),
        RiscvInstr::VSBC_VVM => ExecFn::VecCarry(true, VecForm::VV),
        RiscvInstr::VMSBC_VV => ExecFn::VecCarryOut(true, VecForm::VV),
        RiscvInstr::VMSBC_VVM => ExecFn::VecSpec(VectorSpecInstr::MSBC_VVM),
        RiscvInstr::VMAX_VV => ExecFn::VecInteger(AluFn::Max, VecForm::VV),
        RiscvInstr::VMAXU_VV => ExecFn::VecInteger(AluFn::Maxu, VecForm::VV),
        RiscvInstr::VMIN_VV => ExecFn::VecInteger(AluFn::Min, VecForm::VV),
        RiscvInstr::VMINU_VV => ExecFn::VecInteger(AluFn::Minu, VecForm::VV),
        RiscvInstr::VMACC_VV => ExecFn::VecMulAdd(MulAddFn::Macc, VecForm::VV),
        RiscvInstr::VNMSAC_VV => ExecFn::VecMulAdd(MulAddFn::Nmsac, VecForm::VV),
        RiscvInstr::VMADD_VV => ExecFn::VecMulAdd(MulAddFn::Madd, VecForm::VV),
        RiscvInstr::VNMSUB_VV => ExecFn::VecMulAdd(MulAddFn::Nmsub, VecForm::VV),
        RiscvInstr::VMERGE_VVM => ExecFn::VecMerge(VecForm::VV),
        RiscvInstr::VMV_V_V => ExecFn::VecSpec(VectorSpecInstr::MOVE_V),
        RiscvInstr::VSADDU_VV => ExecFn::VecFixedPoint(FixedFn::Saddu, VecForm::VV),
        RiscvInstr::VSADD_VV => ExecFn::VecFixedPoint(FixedFn::Sadd, VecForm::VV),
        RiscvInstr::VSSUBU_VV => ExecFn::VecFixedPoint(FixedFn::Ssubu, VecForm::VV),
        RiscvInstr::VSSUB_VV => ExecFn::VecFixedPoint(FixedFn::Ssub, VecForm::VV),
        RiscvInstr::VAADDU_VV => ExecFn::VecFixedPoint(FixedFn::Aaddu, VecForm::VV),
        RiscvInstr::VAADD_VV => ExecFn::VecFixedPoint(FixedFn::Aadd, VecForm::VV),
        RiscvInstr::VASUBU_VV => ExecFn::VecFixedPoint(FixedFn::Asubu, VecForm::VV),
        RiscvInstr::VASUB_VV => ExecFn::VecFixedPoint(FixedFn::Asub, VecForm::VV),
        RiscvInstr::VSMUL_VV => ExecFn::VecFixedPoint(FixedFn::Smul, VecForm::VV),
        RiscvInstr::VSSRL_VV => ExecFn::VecFixedPoint(FixedFn::Ssrl, VecForm::VV),
        RiscvInstr::VSSRA_VV => ExecFn::VecFixedPoint(FixedFn::Ssra, VecForm::VV),
        RiscvInstr::VNCLIPU_WV => ExecFn::VecClip(false, VecForm::VV),
        RiscvInstr::VNCLIP_WV => ExecFn::VecClip(true, VecForm::VV),
        RiscvInstr::VRGATHER_VV => ExecFn::VecSpec(VectorSpecInstr::GATHER_VV),
        RiscvInstr::VRGATHEREI16_VV => ExecFn::VecSpec(VectorSpecInstr::GATHER_EI16_VV),
        RiscvInstr::VADD_VX => ExecFn::VecInteger(AluFn::Add, VecForm::VX),
        RiscvInstr::VSUB_VX => ExecFn::VecInteger(AluFn::Sub, VecForm::VX),
        RiscvInstr::VRSUB_VX => ExecFn::VecInteger(AluFn::RevSub, VecForm::VX),
        RiscvInstr::VMUL_VX => ExecFn::VecInteger(AluFn::MulLow, VecForm::VX),
        RiscvInstr::VMULH_VX => ExecFn::VecInteger(AluFn::MulHighSigned, VecForm::VX),
        RiscvInstr::VMULHU_VX => ExecFn::VecInteger(AluFn::MulHighUnsigned, VecForm::VX),
        RiscvInstr::VMULHSU_VX => ExecFn::VecInteger(AluFn::MulHighSignedUnsigned, VecForm::VX),
        RiscvInstr::VDIV_VX => ExecFn::VecInteger(AluFn::DivSigned, VecForm::VX),
        RiscvInstr::VDIVU_VX => ExecFn::VecInteger(AluFn::DivUnsigned, VecForm::VX),
        RiscvInstr::VREM_VX => ExecFn::VecInteger(AluFn::RemSigned, VecForm::VX),
        RiscvInstr::VREMU_VX => ExecFn::VecInteger(AluFn::RemUnsigned, VecForm::VX),
        RiscvInstr::VAND_VX => ExecFn::VecInteger(AluFn::And, VecForm::VX),
        RiscvInstr::VOR_VX => ExecFn::VecInteger(AluFn::Or, VecForm::VX),
        RiscvInstr::VXOR_VX => ExecFn::VecInteger(AluFn::Xor, VecForm::VX),
        RiscvInstr::VSRA_VX => ExecFn::VecInteger(AluFn::Sra, VecForm::VX),
        RiscvInstr::VSRL_VX => ExecFn::VecInteger(AluFn::Srl, VecForm::VX),
        RiscvInstr::VSLL_VX => ExecFn::VecInteger(AluFn::Sll, VecForm::VX),
        RiscvInstr::VNSRL_WX => ExecFn::VecSpec(VectorSpecInstr::NSRL_WX),
        RiscvInstr::VNSRA_WX => ExecFn::VecSpec(VectorSpecInstr::NSRA_WX),
        RiscvInstr::VMSEQ_VX => ExecFn::VecCompare(MaskRelation::Eq, VecForm::VX),
        RiscvInstr::VMSNE_VX => ExecFn::VecCompare(MaskRelation::Ne, VecForm::VX),
        RiscvInstr::VMSLTU_VX => ExecFn::VecCompare(MaskRelation::Ltu, VecForm::VX),
        RiscvInstr::VMSLT_VX => ExecFn::VecCompare(MaskRelation::Lt, VecForm::VX),
        RiscvInstr::VMSLEU_VX => ExecFn::VecCompare(MaskRelation::Leu, VecForm::VX),
        RiscvInstr::VMSLE_VX => ExecFn::VecCompare(MaskRelation::Le, VecForm::VX),
        RiscvInstr::VMSGTU_VX => ExecFn::VecCompare(MaskRelation::Gtu, VecForm::VX),
        RiscvInstr::VMSGT_VX => ExecFn::VecCompare(MaskRelation::Gt, VecForm::VX),
        RiscvInstr::VADC_VXM => ExecFn::VecCarry(false, VecForm::VX),
        RiscvInstr::VMADC_VX => ExecFn::VecCarryOut(false, VecForm::VX),
        RiscvInstr::VMADC_VXM => ExecFn::VecSpec(VectorSpecInstr::MADC_VXM),
        RiscvInstr::VSBC_VXM => ExecFn::VecCarry(true, VecForm::VX),
        RiscvInstr::VMSBC_VX => ExecFn::VecCarryOut(true, VecForm::VX),
        RiscvInstr::VMSBC_VXM => ExecFn::VecSpec(VectorSpecInstr::MSBC_VXM),
        RiscvInstr::VMAX_VX => ExecFn::VecInteger(AluFn::Max, VecForm::VX),
        RiscvInstr::VMAXU_VX => ExecFn::VecInteger(AluFn::Maxu, VecForm::VX),
        RiscvInstr::VMIN_VX => ExecFn::VecInteger(AluFn::Min, VecForm::VX),
        RiscvInstr::VMINU_VX => ExecFn::VecInteger(AluFn::Minu, VecForm::VX),
        RiscvInstr::VMACC_VX => ExecFn::VecMulAdd(MulAddFn::Macc, VecForm::VX),
        RiscvInstr::VNMSAC_VX => ExecFn::VecMulAdd(MulAddFn::Nmsac, VecForm::VX),
        RiscvInstr::VMADD_VX => ExecFn::VecMulAdd(MulAddFn::Madd, VecForm::VX),
        RiscvInstr::VNMSUB_VX => ExecFn::VecMulAdd(MulAddFn::Nmsub, VecForm::VX),
        RiscvInstr::VMERGE_VXM => ExecFn::VecMerge(VecForm::VX),
        RiscvInstr::VMV_V_X => ExecFn::VecSpec(VectorSpecInstr::MOVE_VX),
        RiscvInstr::VSADDU_VX => ExecFn::VecFixedPoint(FixedFn::Saddu, VecForm::VX),
        RiscvInstr::VSADD_VX => ExecFn::VecFixedPoint(FixedFn::Sadd, VecForm::VX),
        RiscvInstr::VSSUBU_VX => ExecFn::VecFixedPoint(FixedFn::Ssubu, VecForm::VX),
        RiscvInstr::VSSUB_VX => ExecFn::VecFixedPoint(FixedFn::Ssub, VecForm::VX),
        RiscvInstr::VAADDU_VX => ExecFn::VecFixedPoint(FixedFn::Aaddu, VecForm::VX),
        RiscvInstr::VAADD_VX => ExecFn::VecFixedPoint(FixedFn::Aadd, VecForm::VX),
        RiscvInstr::VASUBU_VX => ExecFn::VecFixedPoint(FixedFn::Asubu, VecForm::VX),
        RiscvInstr::VASUB_VX => ExecFn::VecFixedPoint(FixedFn::Asub, VecForm::VX),
        RiscvInstr::VSMUL_VX => ExecFn::VecFixedPoint(FixedFn::Smul, VecForm::VX),
        RiscvInstr::VSSRL_VX => ExecFn::VecFixedPoint(FixedFn::Ssrl, VecForm::VX),
        RiscvInstr::VSSRA_VX => ExecFn::VecFixedPoint(FixedFn::Ssra, VecForm::VX),
        RiscvInstr::VNCLIPU_WX => ExecFn::VecClip(false, VecForm::VX),
        RiscvInstr::VNCLIP_WX => ExecFn::VecClip(true, VecForm::VX),
        RiscvInstr::VSLIDEUP_VX => ExecFn::VecSpec(VectorSpecInstr::SLIDEUP_VX),
        RiscvInstr::VSLIDEDOWN_VX => ExecFn::VecSpec(VectorSpecInstr::SLIDEDOWN_VX),
        RiscvInstr::VRGATHER_VX => ExecFn::VecSpec(VectorSpecInstr::GATHER_VX),
        RiscvInstr::VADD_VI => ExecFn::VecInteger(AluFn::Add, VecForm::VI),
        RiscvInstr::VRSUB_VI => ExecFn::VecInteger(AluFn::RevSub, VecForm::VI),
        RiscvInstr::VAND_VI => ExecFn::VecInteger(AluFn::And, VecForm::VI),
        RiscvInstr::VOR_VI => ExecFn::VecInteger(AluFn::Or, VecForm::VI),
        RiscvInstr::VXOR_VI => ExecFn::VecInteger(AluFn::Xor, VecForm::VI),
        RiscvInstr::VSRA_VI => ExecFn::VecInteger(AluFn::Sra, VecForm::VU),
        RiscvInstr::VSRL_VI => ExecFn::VecInteger(AluFn::Srl, VecForm::VU),
        RiscvInstr::VSLL_VI => ExecFn::VecInteger(AluFn::Sll, VecForm::VU),
        RiscvInstr::VNSRL_WI => ExecFn::VecSpec(VectorSpecInstr::NSRL_WI),
        RiscvInstr::VNSRA_WI => ExecFn::VecSpec(VectorSpecInstr::NSRA_WI),
        RiscvInstr::VMSEQ_VI => ExecFn::VecCompare(MaskRelation::Eq, VecForm::VI),
        RiscvInstr::VMSNE_VI => ExecFn::VecCompare(MaskRelation::Ne, VecForm::VI),
        RiscvInstr::VMSLEU_VI => ExecFn::VecCompare(MaskRelation::Leu, VecForm::VI),
        RiscvInstr::VMSLE_VI => ExecFn::VecCompare(MaskRelation::Le, VecForm::VI),
        RiscvInstr::VMSGTU_VI => ExecFn::VecCompare(MaskRelation::Gtu, VecForm::VI),
        RiscvInstr::VMSGT_VI => ExecFn::VecCompare(MaskRelation::Gt, VecForm::VI),
        RiscvInstr::VADC_VIM => ExecFn::VecSpec(VectorSpecInstr::ADC_VIM),
        RiscvInstr::VMADC_VI => ExecFn::VecCarryOut(false, VecForm::VI),
        RiscvInstr::VMADC_VIM => ExecFn::VecSpec(VectorSpecInstr::MADC_VIM),
        RiscvInstr::VMERGE_VIM => ExecFn::VecSpec(VectorSpecInstr::MERGE_VIM),
        RiscvInstr::VMV_V_I => ExecFn::VecSpec(VectorSpecInstr::MOVE_VI),
        RiscvInstr::VSADDU_VI => ExecFn::VecFixedPoint(FixedFn::Saddu, VecForm::VI),
        RiscvInstr::VSADD_VI => ExecFn::VecFixedPoint(FixedFn::Sadd, VecForm::VI),
        RiscvInstr::VSSRL_VI => ExecFn::VecFixedPoint(FixedFn::Ssrl, VecForm::VU),
        RiscvInstr::VSSRA_VI => ExecFn::VecFixedPoint(FixedFn::Ssra, VecForm::VU),
        RiscvInstr::VNCLIPU_WI => ExecFn::VecClip(false, VecForm::VU),
        RiscvInstr::VNCLIP_WI => ExecFn::VecClip(true, VecForm::VU),
        RiscvInstr::VSLIDEUP_VI => ExecFn::VecSpec(VectorSpecInstr::SLIDEUP_VI),
        RiscvInstr::VSLIDEDOWN_VI => ExecFn::VecSpec(VectorSpecInstr::SLIDEDOWN_VI),
        RiscvInstr::VRGATHER_VI => ExecFn::VecSpec(VectorSpecInstr::GATHER_VI),
        RiscvInstr::VMV1R_V => ExecFn::VecWholeMove(1),
        RiscvInstr::VMV2R_V => ExecFn::VecWholeMove(2),
        RiscvInstr::VMV4R_V => ExecFn::VecWholeMove(4),
        RiscvInstr::VMV8R_V => ExecFn::VecWholeMove(8),
        RiscvInstr::VWADD_VV => ExecFn::VecWiden(WidenFn::Add, VecForm::VV, false),
        RiscvInstr::VWADD_WV => ExecFn::VecWiden(WidenFn::Add, VecForm::VV, true),
        RiscvInstr::VWADDU_VV => ExecFn::VecWiden(WidenFn::Addu, VecForm::VV, false),
        RiscvInstr::VWADDU_WV => ExecFn::VecWiden(WidenFn::Addu, VecForm::VV, true),
        RiscvInstr::VWSUB_VV => ExecFn::VecWiden(WidenFn::Sub, VecForm::VV, false),
        RiscvInstr::VWSUB_WV => ExecFn::VecWiden(WidenFn::Sub, VecForm::VV, true),
        RiscvInstr::VWSUBU_VV => ExecFn::VecWiden(WidenFn::Subu, VecForm::VV, false),
        RiscvInstr::VWSUBU_WV => ExecFn::VecWiden(WidenFn::Subu, VecForm::VV, true),
        RiscvInstr::VWMUL_VV => ExecFn::VecWiden(WidenFn::Mul, VecForm::VV, false),
        RiscvInstr::VWMULU_VV => ExecFn::VecWiden(WidenFn::Mulu, VecForm::VV, false),
        RiscvInstr::VWMULSU_VV => ExecFn::VecWiden(WidenFn::Mulsu, VecForm::VV, false),
        RiscvInstr::VZEXT_VF2 => ExecFn::VecExtend(false, 2),
        RiscvInstr::VZEXT_VF4 => ExecFn::VecExtend(false, 4),
        RiscvInstr::VZEXT_VF8 => ExecFn::VecExtend(false, 8),
        RiscvInstr::VSEXT_VF2 => ExecFn::VecExtend(true, 2),
        RiscvInstr::VSEXT_VF4 => ExecFn::VecExtend(true, 4),
        RiscvInstr::VSEXT_VF8 => ExecFn::VecExtend(true, 8),
        RiscvInstr::VWMACCU_VV => ExecFn::VecWidenMulAdd(WidenMulAddFn::Maccu, VecForm::VV),
        RiscvInstr::VWMACC_VV => ExecFn::VecWidenMulAdd(WidenMulAddFn::Macc, VecForm::VV),
        RiscvInstr::VWMACCSU_VV => ExecFn::VecWidenMulAdd(WidenMulAddFn::Maccsu, VecForm::VV),
        RiscvInstr::VCOMPRESS_VM => ExecFn::VecSpec(VectorSpecInstr::COMPRESS_VM),
        RiscvInstr::VMAND_MM => ExecFn::VecBit(MaskLogic::And),
        RiscvInstr::VMNAND_MM => ExecFn::VecBit(MaskLogic::Nand),
        RiscvInstr::VMANDN_MM => ExecFn::VecBit(MaskLogic::Andn),
        RiscvInstr::VMXOR_MM => ExecFn::VecBit(MaskLogic::Xor),
        RiscvInstr::VMOR_MM => ExecFn::VecBit(MaskLogic::Or),
        RiscvInstr::VMNOR_MM => ExecFn::VecBit(MaskLogic::Nor),
        RiscvInstr::VMORN_MM => ExecFn::VecBit(MaskLogic::Orn),
        RiscvInstr::VMXNOR_MM => ExecFn::VecBit(MaskLogic::Xnor),
        RiscvInstr::VCPOP_M => ExecFn::VecSpec(VectorSpecInstr::CPOP_M),
        RiscvInstr::VFIRST_M => ExecFn::VecSpec(VectorSpecInstr::FIRST_M),
        RiscvInstr::VMSBF_M => ExecFn::VecSpec(VectorSpecInstr::MSBF_M),
        RiscvInstr::VMSIF_M => ExecFn::VecSpec(VectorSpecInstr::MSIF_M),
        RiscvInstr::VMSOF_M => ExecFn::VecSpec(VectorSpecInstr::MSOF_M),
        RiscvInstr::VIOTA_M => ExecFn::VecSpec(VectorSpecInstr::IOTA_M),
        RiscvInstr::VID_V => ExecFn::VecSpec(VectorSpecInstr::ID_V),
        RiscvInstr::VMV_X_S => ExecFn::VecSpec(VectorSpecInstr::MOVE_XS),
        RiscvInstr::VMV_S_X => ExecFn::VecSpec(VectorSpecInstr::MOVE_SX),
        RiscvInstr::VWADD_VX => ExecFn::VecWiden(WidenFn::Add, VecForm::VX, false),
        RiscvInstr::VWADD_WX => ExecFn::VecWiden(WidenFn::Add, VecForm::VX, true),
        RiscvInstr::VWADDU_VX => ExecFn::VecWiden(WidenFn::Addu, VecForm::VX, false),
        RiscvInstr::VWADDU_WX => ExecFn::VecWiden(WidenFn::Addu, VecForm::VX, true),
        RiscvInstr::VWSUB_VX => ExecFn::VecWiden(WidenFn::Sub, VecForm::VX, false),
        RiscvInstr::VWSUB_WX => ExecFn::VecWiden(WidenFn::Sub, VecForm::VX, true),
        RiscvInstr::VWSUBU_VX => ExecFn::VecWiden(WidenFn::Subu, VecForm::VX, false),
        RiscvInstr::VWSUBU_WX => ExecFn::VecWiden(WidenFn::Subu, VecForm::VX, true),
        RiscvInstr::VWMUL_VX => ExecFn::VecWiden(WidenFn::Mul, VecForm::VX, false),
        RiscvInstr::VWMULU_VX => ExecFn::VecWiden(WidenFn::Mulu, VecForm::VX, false),
        RiscvInstr::VWMULSU_VX => ExecFn::VecWiden(WidenFn::Mulsu, VecForm::VX, false),
        RiscvInstr::VWMACCU_VX => ExecFn::VecWidenMulAdd(WidenMulAddFn::Maccu, VecForm::VX),
        RiscvInstr::VWMACC_VX => ExecFn::VecWidenMulAdd(WidenMulAddFn::Macc, VecForm::VX),
        RiscvInstr::VWMACCSU_VX => ExecFn::VecWidenMulAdd(WidenMulAddFn::Maccsu, VecForm::VX),
        RiscvInstr::VWMACCUS_VX => ExecFn::VecWidenMulAdd(WidenMulAddFn::Maccus, VecForm::VX),
        RiscvInstr::VLM_V => ExecFn::VecMaskLoad,
        RiscvInstr::VSM_V => ExecFn::VecMaskStore,
        RiscvInstr::VSLIDE1UP_VX => ExecFn::VecSpec(VectorSpecInstr::SLIDE1UP_VX),
        RiscvInstr::VSLIDE1DOWN_VX => ExecFn::VecSpec(VectorSpecInstr::SLIDE1DOWN_VX),
        RiscvInstr::VLE_V(eew) => ExecFn::VecUnitLoad(eew),
        RiscvInstr::VLEFF_V(_) => ExecFn::VecFaultFirstLoad,
        RiscvInstr::VLSE_V(eew) => ExecFn::VecStrideLoad(eew),
        RiscvInstr::VLUXEI_V(_) => ExecFn::VecUnorderedLoad,
        RiscvInstr::VLOXEI_V(eew) => ExecFn::VecIndexedLoad(eew),
        RiscvInstr::VLRE_V(_) => ExecFn::VecWholeLoad,
        RiscvInstr::VSE_V(eew) => ExecFn::VecUnitStore(eew),
        RiscvInstr::VSSE_V(eew) => ExecFn::VecStrideStore(eew),
        RiscvInstr::VSUXEI_V(_) => ExecFn::VecUnorderedStore,
        RiscvInstr::VSOXEI_V(eew) => ExecFn::VecIndexedStore(eew),
        RiscvInstr::VSR_V => ExecFn::VecWholeStore,
    }
}

/// The handler of an instruction.
pub fn get_exec_func(instr: RiscvInstr) -> (r: ExecFn)
    ensures
        r == exec_func_of(instr),
{
    match instr {
        RiscvInstr::ADD | RiscvInstr::ADDI => ExecFn::Arith(AluFn::Add),
        RiscvInstr::ADDW | RiscvInstr::ADDIW => ExecFn::ArithWord(AluFn::Add),
        RiscvInstr::SUB => ExecFn::Arith(AluFn::Sub),
        RiscvInstr::SUBW => ExecFn::ArithWord(AluFn::Sub),
        RiscvInstr::MUL => ExecFn::Arith(AluFn::MulLow),
        RiscvInstr::MULH => ExecFn::Arith(AluFn::MulHighSigned),
        RiscvInstr::MULHU => ExecFn::Arith(AluFn::MulHighUnsigned),
        RiscvInstr::MULHSU => ExecFn::Arith(AluFn::MulHighSignedUnsigned),
        RiscvInstr::DIV => ExecFn::Arith(AluFn::DivSigned),
        RiscvInstr::DIVU => ExecFn::Arith(AluFn::DivUnsigned),
        RiscvInstr::REM => ExecFn::Arith(AluFn::RemSigned),
        RiscvInstr::REMU => ExecFn::Arith(AluFn::RemUnsigned),
        RiscvInstr::MULW => ExecFn::ArithWord(AluFn::MulLow),
        RiscvInstr::DIVW => ExecFn::ArithWord(AluFn::DivSigned),
        RiscvInstr::DIVUW => ExecFn::ArithWord(AluFn::DivUnsigned),
        RiscvInstr::REMW => ExecFn::ArithWord(AluFn::RemSigned),
        RiscvInstr::REMUW => ExecFn::ArithWord(AluFn::RemUnsigned),
        RiscvInstr::SLL | RiscvInstr::SLLI => ExecFn::Arith(AluFn::Sll),
        RiscvInstr::SRL | RiscvInstr::SRLI => ExecFn::Arith(AluFn::Srl),
        RiscvInstr::SRA | RiscvInstr::SRAI => ExecFn::Arith(AluFn::Sra),
        RiscvInstr::SRAW | RiscvInstr::SRAIW => ExecFn::ArithWord(AluFn::Sra),
        RiscvInstr::SLLW | RiscvInstr::SLLIW => ExecFn::ArithWord(AluFn::Sll),
        RiscvInstr::SRLW | RiscvInstr::SRLIW => ExecFn::ArithWord(AluFn::Srl),
        RiscvInstr::SLT | RiscvInstr::SLTI => ExecFn::Arith(AluFn::SignedLess),
        RiscvInstr::SLTU | RiscvInstr::SLTIU => ExecFn::Arith(AluFn::UnsignedLess),
        RiscvInstr::AND | RiscvInstr::ANDI => ExecFn::Arith(AluFn::And),
        RiscvInstr::OR | RiscvInstr::ORI => ExecFn::Arith(AluFn::Or),
        RiscvInstr::XOR | RiscvInstr::XORI => ExecFn::Arith(AluFn::Xor),
        RiscvInstr::BEQ => ExecFn::Branch(CompareFn::Equal),
        RiscvInstr::BNE => ExecFn::Branch(CompareFn::NotEqual),
        RiscvInstr::BLT => ExecFn::Branch(CompareFn::SignedLess),
        RiscvInstr::BGE => ExecFn::Branch(CompareFn::SignedGreatEqual),
        RiscvInstr::BLTU => ExecFn::Branch(CompareFn::UnsignedLess),
        RiscvInstr::BGEU => ExecFn::Branch(CompareFn::UnsignedGreatEqual),
        RiscvInstr::LB => ExecFn::Load(Width::W8, true),
        RiscvInstr::LBU => ExecFn::Load(Width::W8, false),
        RiscvInstr::LH => ExecFn::Load(Width::W16, true),
        RiscvInstr::LHU => ExecFn::Load(Width::W16, false),
        RiscvInstr::LW => ExecFn::Load(Width::W32, true),
        RiscvInstr::LWU => ExecFn::Load(Width::W32, false),
        RiscvInstr::LD => ExecFn::Load(Width::W64, false),
        RiscvInstr::SB => ExecFn::Store(Width::W8),
        RiscvInstr::SH => ExecFn::Store(Width::W16),
        RiscvInstr::SW => ExecFn::Store(Width::W32),
        RiscvInstr::SD => ExecFn::Store(Width::W64),
        RiscvInstr::JAL => ExecFn::Jal,
        RiscvInstr::JALR => ExecFn::Jalr,
        RiscvInstr::AUIPC => ExecFn::Auipc,
        RiscvInstr::LUI => ExecFn::Lui,
        RiscvInstr::EBREAK | RiscvInstr::C_EBREAK => ExecFn::Ebreak,
        RiscvInstr::ECALL => ExecFn::Ecall,
        RiscvInstr::FENCE | RiscvInstr::WFI => ExecFn::Nop,
        RiscvInstr::FENCE_I => ExecFn::FenceI,
        RiscvInstr::CSRRW => ExecFn::Csrw(false),
        RiscvInstr::CSRRC => ExecFn::CsrBit(false, false),
        RiscvInstr::CSRRS => ExecFn::CsrBit(true, false),
        RiscvInstr::CSRRWI => ExecFn::Csrw(true),
        RiscvInstr::CSRRCI => ExecFn::CsrBit(false, true),
        RiscvInstr::CSRRSI => ExecFn::CsrBit(true, true),
        RiscvInstr::MRET => ExecFn::Mret,
        RiscvInstr::FADD_S => ExecFn::FloatArith(FloatFormat::Single, FloatBinary::Add),
        RiscvInstr::FSUB_S => ExecFn::FloatArith(FloatFormat::Single, FloatBinary::Sub),
        RiscvInstr::FMUL_S => ExecFn::FloatArith(FloatFormat::Single, FloatBinary::Mul),
        RiscvInstr::FDIV_S => ExecFn::FloatArith(FloatFormat::Single, FloatBinary::Div),
        RiscvInstr::FMADD_S => ExecFn::FloatFused(FloatFormat::Single, FloatTernary::MulAdd),
        RiscvInstr::FNMADD_S => ExecFn::FloatFused(FloatFormat::Single, FloatTernary::NegMulAdd),
        RiscvInstr::FMSUB_S => ExecFn::FloatFused(FloatFormat::Single, FloatTernary::MulSub),
        RiscvInstr::FNMSUB_S => ExecFn::FloatFused(FloatFormat::Single, FloatTernary::NegMulSub),
        RiscvInstr::FSQRT_S => ExecFn::FloatSqrt(FloatFormat::Single),
        RiscvInstr::FMIN_S => ExecFn::FloatMin(FloatFormat::Single),
        RiscvInstr::FMAX_S => ExecFn::FloatMax(FloatFormat::Single),
        RiscvInstr::FADD_D => ExecFn::FloatArith(FloatFormat::Double, FloatBinary::Add),
        RiscvInstr::FSUB_D => ExecFn::FloatArith(FloatFormat::Double, FloatBinary::Sub),
        RiscvInstr::FMUL_D => ExecFn::FloatArith(FloatFormat::Double, FloatBinary::Mul),
        RiscvInstr::FDIV_D => ExecFn::FloatArith(FloatFormat::Double, FloatBinary::Div),
        RiscvInstr::FMADD_D => ExecFn::FloatFused(FloatFormat::Double, FloatTernary::MulAdd),
        RiscvInstr::FNMADD_D => ExecFn::FloatFused(FloatFormat::Double, FloatTernary::NegMulAdd),
        RiscvInstr::FMSUB_D => ExecFn::FloatFused(FloatFormat::Double, FloatTernary::MulSub),
        RiscvInstr::FNMSUB_D => ExecFn::FloatFused(FloatFormat::Double, FloatTernary::NegMulSub),
        RiscvInstr::FSQRT_D => ExecFn::FloatSqrt(FloatFormat::Double),
        RiscvInstr::FMIN_D => ExecFn::FloatMin(FloatFormat::Double),
        RiscvInstr::FMAX_D => ExecFn::FloatMax(FloatFormat::Double),
        RiscvInstr::FSGNJ_S => ExecFn::FloatSign(FloatFormat::Single, SignInjection::Copy),
        RiscvInstr::FSGNJN_S => ExecFn::FloatSign(FloatFormat::Single, SignInjection::Negate),
        RiscvInstr::FSGNJX_S => ExecFn::FloatSign(FloatFormat::Single, SignInjection::Xor),
        RiscvInstr::FSGNJ_D => ExecFn::FloatSign(FloatFormat::Double, SignInjection::Copy),
        RiscvInstr::FSGNJN_D => ExecFn::FloatSign(FloatFormat::Double, SignInjection::Negate),
        RiscvInstr::FSGNJX_D => ExecFn::FloatSign(FloatFormat::Double, SignInjection::Xor),
        RiscvInstr::FCVT_W_S => ExecFn::IntFromFloat(FloatFormat::Single, Width::W32, true),
        RiscvInstr::FCVT_WU_S => ExecFn::IntFromFloat(FloatFormat::Single, Width::W32, false),
        RiscvInstr::FCVT_S_W | RiscvInstr::FCVT_S_L => ExecFn::FloatFromSigned(FloatFormat::Single),
        RiscvInstr::FCVT_S_WU => ExecFn::FloatFromUnsigned(FloatFormat::Single, Width::W32),
        RiscvInstr::FCVT_L_S => ExecFn::IntFromFloat(FloatFormat::Single, Width::W64, true),
        RiscvInstr::FCVT_LU_S => ExecFn::IntFromFloat(FloatFormat::Single, Width::W64, false),
        RiscvInstr::FCVT_S_LU => ExecFn::FloatFromUnsigned(FloatFormat::Single, Width::W64),
        RiscvInstr::FCVT_W_D => ExecFn::IntFromFloat(FloatFormat::Double, Width::W32, true),
        RiscvInstr::FCVT_WU_D => ExecFn::IntFromFloat(FloatFormat::Double, Width::W32, false),
        RiscvInstr::FCVT_D_W | RiscvInstr::FCVT_D_L => ExecFn::FloatFromSigned(FloatFormat::Double),
        RiscvInstr::FCVT_D_WU => ExecFn::FloatFromUnsigned(FloatFormat::Double, Width::W32),
        RiscvInstr::FCVT_L_D => ExecFn::IntFromFloat(FloatFormat::Double, Width::W64, true),
        RiscvInstr::FCVT_LU_D => ExecFn::IntFromFloat(FloatFormat::Double, Width::W64, false),
        RiscvInstr::FCVT_D_LU => ExecFn::FloatFromUnsigned(FloatFormat::Double, Width::W64),
        RiscvInstr::FCVT_D_S => ExecFn::FloatConvert(FloatFormat::Single),
        RiscvInstr::FCVT_S_D => ExecFn::FloatConvert(FloatFormat::Double),
        RiscvInstr::FEQ_S => ExecFn::FloatCompare(FloatFormat::Single, FloatRelation::Eq),
        RiscvInstr::FLT_S => ExecFn::FloatCompare(FloatFormat::Single, FloatRelation::Lt),
        RiscvInstr::FLE_S => ExecFn::FloatCompare(FloatFormat::Single, FloatRelation::Le),
        RiscvInstr::FEQ_D => ExecFn::FloatCompare(FloatFormat::Double, FloatRelation::Eq),
        RiscvInstr::FLT_D => ExecFn::FloatCompare(FloatFormat::Double, FloatRelation::Lt),
        RiscvInstr::FLE_D => ExecFn::FloatCompare(FloatFormat::Double, FloatRelation::Le),
        RiscvInstr::FLW => ExecFn::FloatLoad(FloatFormat::Single),
        RiscvInstr::FSW => ExecFn::FloatStore(FloatFormat::Single),
        RiscvInstr::FLD => ExecFn::FloatLoad(FloatFormat::Double),
        RiscvInstr::FSD => ExecFn::FloatStore(FloatFormat::Double),
        RiscvInstr::FMV_X_W => ExecFn::XFromFloat(true),
        RiscvInstr::FMV_W_X => ExecFn::FloatFromX(FloatFormat::Single),
        RiscvInstr::FMV_X_D => ExecFn::XFromFloat(false),
        RiscvInstr::FMV_D_X => ExecFn::FloatFromX(FloatFormat::Double),
        RiscvInstr::FCLASS_S => ExecFn::FloatClassify(FloatFormat::Single),
        RiscvInstr::FCLASS_D => ExecFn::FloatClassify(FloatFormat::Double),
        RiscvInstr::AMOADD_W => ExecFn::Amo(AmoOp::Add, Width::W32),
        RiscvInstr::AMOAND_W => ExecFn::Amo(AmoOp::And, Width::W32),
        RiscvInstr::AMOOR_W => ExecFn::Amo(AmoOp::Or, Width::W32),
        RiscvInstr::AMOXOR_W => ExecFn::Amo(AmoOp::Xor, Width::W32),
        RiscvInstr::AMOADD_D => ExecFn::Amo(AmoOp::Add, Width::W64),
        RiscvInstr::AMOAND_D => ExecFn::Amo(AmoOp::And, Width::W64),
        RiscvInstr::AMOOR_D => ExecFn::Amo(AmoOp::Or, Width::W64),
        RiscvInstr::AMOXOR_D => ExecFn::Amo(AmoOp::Xor, Width::W64),
        RiscvInstr::AMOSWAP_W => ExecFn::Amo(AmoOp::Swap, Width::W32),
        RiscvInstr::AMOSWAP_D => ExecFn::Amo(AmoOp::Swap, Width::W64),
        RiscvInstr::AMOMAX_W => ExecFn::Amo(AmoOp::Max, Width::W32),
        RiscvInstr::AMOMIN_W => ExecFn::Amo(AmoOp::Min, Width::W32),
        RiscvInstr::AMOMAXU_W => ExecFn::Amo(AmoOp::MaxU, Width::W32),
        RiscvInstr::AMOMINU_W => ExecFn::Amo(AmoOp::MinU, Width::W32),
        RiscvInstr::AMOMAX_D => ExecFn::Amo(AmoOp::Max, Width::W64),
        RiscvInstr::AMOMIN_D => ExecFn::Amo(AmoOp::Min, Width::W64),
        RiscvInstr::AMOMAXU_D => ExecFn::Amo(AmoOp::MaxU, Width::W64),
        RiscvInstr::AMOMINU_D => ExecFn::Amo(AmoOp::MinU, Width::W64),
        RiscvInstr::LR_W => ExecFn::LoadReserved(Width::W32, true),
        RiscvInstr::SC_W => ExecFn::StoreConditional(Width::W32),
        RiscvInstr::LR_D => ExecFn::LoadReserved(Width::W64, false),
        RiscvInstr::SC_D => ExecFn::StoreConditional(Width::W64),
        RiscvInstr::SRET => ExecFn::Sret,
        RiscvInstr::SFENCE_VMA => ExecFn::SfenceVma,
        RiscvInstr::C_ADD
        | RiscvInstr::C_ADDI
        | RiscvInstr::C_ADDI16SP => ExecFn::CompressArith(AluFn::Add),
        RiscvInstr::C_ADDW | RiscvInstr::C_ADDIW => ExecFn::CompressArithWord(AluFn::Add),
        RiscvInstr::C_ADDI4SPN => ExecFn::Addi4spn,
        RiscvInstr::C_SLLI => ExecFn::CompressArith(AluFn::Sll),
        RiscvInstr::C_SRLI => ExecFn::CompressArith(AluFn::Srl),
        RiscvInstr::C_SRAI => ExecFn::CompressArith(AluFn::Sra),
        RiscvInstr::C_MV => ExecFn::CompressMv,
        RiscvInstr::C_AND | RiscvInstr::C_ANDI => ExecFn::CompressArith(AluFn::And),
        RiscvInstr::C_OR => ExecFn::CompressArith(AluFn::Or),
        RiscvInstr::C_XOR => ExecFn::CompressArith(AluFn::Xor),
        RiscvInstr::C_SUB => ExecFn::CompressArith(AluFn::Sub),
        RiscvInstr::C_SUBW => ExecFn::CompressArithWord(AluFn::Sub),
        RiscvInstr::C_NOP => ExecFn::CompressNop,
        RiscvInstr::C_LI | RiscvInstr::C_LUI => ExecFn::CompressLi,
        RiscvInstr::C_LW => ExecFn::CompressLoad(Width::W32, true),
        RiscvInstr::C_LD => ExecFn::CompressLoad(Width::W64, false),
        RiscvInstr::C_LWSP => ExecFn::CompressLoadSp(Width::W32, true),
        RiscvInstr::C_LDSP => ExecFn::CompressLoadSp(Width::W64, false),
        RiscvInstr::C_SW => ExecFn::CompressStore(Width::W32),
        RiscvInstr::C_SD => ExecFn::CompressStore(Width::W64),
        RiscvInstr::C_SWSP => ExecFn::CompressStoreSp(Width::W32),
        RiscvInstr::C_SDSP => ExecFn::CompressStoreSp(Width::W64),
        RiscvInstr::C_FLW => ExecFn::CompressFloatLoad(FloatFormat::Single),
        RiscvInstr::C_FLD => ExecFn::CompressFloatLoad(FloatFormat::Double),
        RiscvInstr::C_FLWSP => ExecFn::CompressFloatLoadSp(FloatFormat::Single),
        RiscvInstr::C_FLDSP => ExecFn::CompressFloatLoadSp(FloatFormat::Double),
        RiscvInstr::C_FSW => ExecFn::CompressFloatStore(FloatFormat::Single),
        RiscvInstr::C_FSD => ExecFn::CompressFloatStore(FloatFormat::Double),
        RiscvInstr::C_FSWSP => ExecFn::CompressFloatStoreSp(FloatFormat::Single),
        RiscvInstr::C_FSDSP => ExecFn::CompressFloatStoreSp(FloatFormat::Double),
        RiscvInstr::C_BEQZ => ExecFn::CompressBranch(CompareFn::Equal),
        RiscvInstr::C_BNEZ => ExecFn::CompressBranch(CompareFn::NotEqual),
        RiscvInstr::C_J => ExecFn::CompressJump(false),
        RiscvInstr::C_JAL => ExecFn::CompressJump(true),
        RiscvInstr::C_JR => ExecFn::CompressJumpReg(false),
        RiscvInstr::C_JALR => ExecFn::CompressJumpReg(true),
        RiscvInstr::ILLEGAL => ExecFn::Illegal,
        RiscvInstr::VSETVL => ExecFn::VecConfig(VectorConfigForm::Vsetvl),
        RiscvInstr::VSETVLI => ExecFn::VecConfig(VectorConfigForm::Vsetvli),
        RiscvInstr::VSETIVLI => ExecFn::VecConfig(VectorConfigForm::Vsetivli),
        RiscvInstr::VADD_VV => ExecFn::VecInteger(AluFn::Add, VecForm::VV),
        RiscvInstr::VSUB_VV => ExecFn::VecInteger(AluFn::Sub, VecForm::VV),
        RiscvInstr::VMUL_VV => ExecFn::VecInteger(AluFn::MulLow, VecForm::VV),
        RiscvInstr::VMULH_VV => ExecFn::VecInteger(AluFn::MulHighSigned, VecForm::VV),
        RiscvInstr::VMULHU_VV => ExecFn::VecInteger(AluFn::MulHighUnsigned, VecForm::VV),
        RiscvInstr::VMULHSU_VV => ExecFn::VecInteger(AluFn::MulHighSignedUnsigned, VecForm::VV),
        RiscvInstr::VDIV_VV => ExecFn::VecInteger(AluFn::DivSigned, VecForm::VV),
        RiscvInstr::VDIVU_VV => ExecFn::VecInteger(AluFn::DivUnsigned, VecForm::VV),
        RiscvInstr::VREM_VV => ExecFn::VecInteger(AluFn::RemSigned, VecForm::VV),
        RiscvInstr::VREMU_VV => ExecFn::VecInteger(AluFn::RemUnsigned, VecForm::VV),
        RiscvInstr::VAND_VV => ExecFn::VecInteger(AluFn::And, VecForm::VV),
        RiscvInstr::VOR_VV => ExecFn::VecInteger(AluFn::Or, VecForm::VV),
        RiscvInstr::VXOR_VV => ExecFn::VecInteger(AluFn::Xor, VecForm::VV),
        RiscvInstr::VSRA_VV => ExecFn::VecInteger(AluFn::Sra, VecForm::VV),
        RiscvInstr::VSRL_VV => ExecFn::VecInteger(AluFn::Srl, VecForm::VV),
        RiscvInstr::VSLL_VV => ExecFn::VecInteger(AluFn::Sll, VecForm::VV),
        RiscvInstr::VNSRL_WV => ExecFn::VecSpec(VectorSpecInstr::NSRL_WV),
        RiscvInstr::VNSRA_WV => ExecFn::VecSpec(VectorSpecInstr::NSRA_WV),
        RiscvInstr::VMSEQ_VV => ExecFn::VecCompare(MaskRelation::Eq, VecForm::VV),
        RiscvInstr::VMSNE_VV => ExecFn::VecCompare(MaskRelation::Ne, VecForm::VV),
        RiscvInstr::VMSLTU_VV => ExecFn::VecCompare(MaskRelation::Ltu, VecForm::VV),
        RiscvInstr::VMSLT_VV => ExecFn::VecCompare(MaskRelation::Lt, VecForm::VV),
        RiscvInstr::VMSLEU_VV => ExecFn::VecCompare(MaskRelation::Leu, VecForm::VV),
        RiscvInstr::VMSLE_VV => ExecFn::VecCompare(MaskRelation::Le, VecForm::VV),
        RiscvInstr::VADC_VVM => ExecFn::VecCarry(false, VecForm::VV),
        RiscvInstr::VMADC_VV => ExecFn::VecCarryOut(false, VecForm::VV),
        RiscvInstr::VMADC_VVM => ExecFn::VecSpec(VectorSpecInstr::MADC_VVM),
        RiscvInstr::VSBC_VVM => ExecFn::VecCarry(true, VecForm::VV),
        RiscvInstr::VMSBC_VV => ExecFn::VecCarryOut(true, VecForm::VV),
        RiscvInstr::VMSBC_VVM => ExecFn::VecSpec(VectorSpecInstr::MSBC_VVM),
        RiscvInstr::VMAX_VV => ExecFn::VecInteger(AluFn::Max, VecForm::VV),
        RiscvInstr::VMAXU_VV => ExecFn::VecInteger(AluFn::Maxu, VecForm::VV),
        RiscvInstr::VMIN_VV => ExecFn::VecInteger(AluFn::Min, VecForm::VV),
        RiscvInstr::VMINU_VV => ExecFn::VecInteger(AluFn::Minu, VecForm::VV),
        RiscvInstr::VMACC_VV => ExecFn::VecMulAdd(MulAddFn::Macc, VecForm::VV),
        RiscvInstr::VNMSAC_VV => ExecFn::VecMulAdd(MulAddFn::Nmsac, VecForm::VV),
        RiscvInstr::VMADD_VV => ExecFn::VecMulAdd(MulAddFn::Madd, VecForm::VV),
        RiscvInstr::VNMSUB_VV => ExecFn::VecMulAdd(MulAddFn::Nmsub, VecForm::VV),
        RiscvInstr::VMERGE_VVM => ExecFn::VecMerge(VecForm::VV),
        RiscvInstr::VMV_V_V => ExecFn::VecSpec(VectorSpecInstr::MOVE_V),
        RiscvInstr::VSADDU_VV => ExecFn::VecFixedPoint(FixedFn::Saddu, VecForm::VV),
        RiscvInstr::VSADD_VV => ExecFn::VecFixedPoint(FixedFn::Sadd, VecForm::VV),
        RiscvInstr::VSSUBU_VV => ExecFn::VecFixedPoint(FixedFn::Ssubu, VecForm::VV),
        RiscvInstr::VSSUB_VV => ExecFn::VecFixedPoint(FixedFn::Ssub, VecForm::VV),
        RiscvInstr::VAADDU_VV => ExecFn::VecFixedPoint(FixedFn::Aaddu, VecForm::VV),
        RiscvInstr::VAADD_VV => ExecFn::VecFixedPoint(FixedFn::Aadd, VecForm::VV),
        RiscvInstr::VASUBU_VV => ExecFn::VecFixedPoint(FixedFn::Asubu, VecForm::VV),
        RiscvInstr::VASUB_VV => ExecFn::VecFixedPoint(FixedFn::Asub, VecForm::VV),
        RiscvInstr::VSMUL_VV => ExecFn::VecFixedPoint(FixedFn::Smul, VecForm::VV),
        RiscvInstr::VSSRL_VV => ExecFn::VecFixedPoint(FixedFn::Ssrl, VecForm::VV),
        RiscvInstr::VSSRA_VV => ExecFn::VecFixedPoint(FixedFn::Ssra, VecForm::VV),
        RiscvInstr::VNCLIPU_WV => ExecFn::VecClip(false, VecForm::VV),
        RiscvInstr::VNCLIP_WV => ExecFn::VecClip(true, VecForm::VV),
        RiscvInstr::VRGATHER_VV => ExecFn::VecSpec(VectorSpecInstr::GATHER_VV),
        RiscvInstr::VRGATHEREI16_VV => ExecFn::VecSpec(VectorSpecInstr::GATHER_EI16_VV),
        RiscvInstr::VADD_VX => ExecFn::VecInteger(AluFn::Add, VecForm::VX),
        RiscvInstr::VSUB_VX => ExecFn::VecInteger(AluFn::Sub, VecForm::VX),
        RiscvInstr::VRSUB_VX => ExecFn::VecInteger(AluFn::RevSub, VecForm::VX),
        RiscvInstr::VMUL_VX => ExecFn::VecInteger(AluFn::MulLow, VecForm::VX),
        RiscvInstr::VMULH_VX => ExecFn::VecInteger(AluFn::MulHighSigned, VecForm::VX),
        RiscvInstr::VMULHU_VX => ExecFn::VecInteger(AluFn::MulHighUnsigned, VecForm::VX),
        RiscvInstr::VMULHSU_VX => ExecFn::VecInteger(AluFn::MulHighSignedUnsigned, VecForm::VX),
        RiscvInstr::VDIV_VX => ExecFn::VecInteger(AluFn::DivSigned, VecForm::VX),
        RiscvInstr::VDIVU_VX => ExecFn::VecInteger(AluFn::DivUnsigned, VecForm::VX),
        RiscvInstr::VREM_VX => ExecFn::VecInteger(AluFn::RemSigned, VecForm::VX),
        RiscvInstr::VREMU_VX => ExecFn::VecInteger(AluFn::RemUnsigned, VecForm::VX),
        RiscvInstr::VAND_VX => ExecFn::VecInteger(AluFn::And, VecForm::VX),
        RiscvInstr::VOR_VX => ExecFn::VecInteger(AluFn::Or, VecForm::VX),
        RiscvInstr::VXOR_VX => ExecFn::VecInteger(AluFn::Xor, VecForm::VX),
        RiscvInstr::VSRA_VX => ExecFn::VecInteger(AluFn::Sra, VecForm::VX),
        RiscvInstr::VSRL_VX => ExecFn::VecInteger(AluFn::Srl, VecForm::VX),
        RiscvInstr::VSLL_VX => ExecFn::VecInteger(AluFn::Sll, VecForm::VX),
        RiscvInstr::VNSRL_WX => ExecFn::VecSpec(VectorSpecInstr::NSRL_WX),
        RiscvInstr::VNSRA_WX => ExecFn::VecSpec(VectorSpecInstr::NSRA_WX),
        RiscvInstr::VMSEQ_VX => ExecFn::VecCompare(MaskRelation::Eq, VecForm::VX),
        RiscvInstr::VMSNE_VX => ExecFn::VecCompare(MaskRelation::Ne, VecForm::VX),
        RiscvInstr::VMSLTU_VX => ExecFn::VecCompare(MaskRelation::Ltu, VecForm::VX),
        RiscvInstr::VMSLT_VX => ExecFn::VecCompare(MaskRelation::Lt, VecForm::VX),
        RiscvInstr::VMSLEU_VX => ExecFn::VecCompare(MaskRelation::Leu, VecForm::VX),
        RiscvInstr::VMSLE_VX => ExecFn::VecCompare(MaskRelation::Le, VecForm::VX),
        RiscvInstr::VMSGTU_VX => ExecFn::VecCompare(MaskRelation::Gtu, VecForm::VX),
        RiscvInstr::VMSGT_VX => ExecFn::VecCompare(MaskRelation::Gt, VecForm::VX),
        RiscvInstr::VADC_VXM => ExecFn::VecCarry(false, VecForm::VX),
        RiscvInstr::VMADC_VX => ExecFn::VecCarryOut(false, VecForm::VX),
        RiscvInstr::VMADC_VXM => ExecFn::VecSpec(VectorSpecInstr::MADC_VXM),
        RiscvInstr::VSBC_VXM => ExecFn::VecCarry(true, VecForm::VX),
        RiscvInstr::VMSBC_VX => ExecFn::VecCarryOut(true, VecForm::VX),
        RiscvInstr::VMSBC_VXM => ExecFn::VecSpec(VectorSpecInstr::MSBC_VXM),
        RiscvInstr::VMAX_VX => ExecFn::VecInteger(AluFn::Max, VecForm::VX),
        RiscvInstr::VMAXU_VX => ExecFn::VecInteger(AluFn::Maxu, VecForm::VX),
        RiscvInstr::VMIN_VX => ExecFn::VecInteger(AluFn::Min, VecForm::VX),
        RiscvInstr::VMINU_VX => ExecFn::VecInteger(AluFn::Minu, VecForm::VX),
        RiscvInstr::VMACC_VX => ExecFn::VecMulAdd(MulAddFn::Macc, VecForm::VX),
        RiscvInstr::VNMSAC_VX => ExecFn::VecMulAdd(MulAddFn::Nmsac, VecForm::VX),
        RiscvInstr::VMADD_VX => ExecFn::VecMulAdd(MulAddFn::Madd, VecForm::VX),
        RiscvInstr::VNMSUB_VX => ExecFn::VecMulAdd(MulAddFn::Nmsub, VecForm::VX),
        RiscvInstr::VMERGE_VXM => ExecFn::VecMerge(VecForm::VX),
        RiscvInstr::VMV_V_X => ExecFn::VecSpec(VectorSpecInstr::MOVE_VX),
        RiscvInstr::VSADDU_VX => ExecFn::VecFixedPoint(FixedFn::Saddu, VecForm::VX),
        RiscvInstr::VSADD_VX => ExecFn::VecFixedPoint(FixedFn::Sadd, VecForm::VX),
        RiscvInstr::VSSUBU_VX => ExecFn::VecFixedPoint(FixedFn::Ssubu, VecForm::VX),
        RiscvInstr::VSSUB_VX => ExecFn::VecFixedPoint(FixedFn::Ssub, VecForm::VX),
        RiscvInstr::VAADDU_VX => ExecFn::VecFixedPoint(FixedFn::Aaddu, VecForm::VX),
        RiscvInstr::VAADD_VX => ExecFn::VecFixedPoint(FixedFn::Aadd, VecForm::VX),
        RiscvInstr::VASUBU_VX => ExecFn::VecFixedPoint(FixedFn::Asubu, VecForm::VX),
        RiscvInstr::VASUB_VX => ExecFn::VecFixedPoint(FixedFn::Asub, VecForm::VX),
        RiscvInstr::VSMUL_VX => ExecFn::VecFixedPoint(FixedFn::Smul, VecForm::VX),
        RiscvInstr::VSSRL_VX => ExecFn::VecFixedPoint(FixedFn::Ssrl, VecForm::VX),
        RiscvInstr::VSSRA_VX => ExecFn::VecFixedPoint(FixedFn::Ssra, VecForm::VX),
        RiscvInstr::VNCLIPU_WX => ExecFn::VecClip(false, VecForm::VX),
        RiscvInstr::VNCLIP_WX => ExecFn::VecClip(true, VecForm::VX),
        RiscvInstr::VSLIDEUP_VX => ExecFn::VecSpec(VectorSpecInstr::SLIDEUP_VX),
        RiscvInstr::VSLIDEDOWN_VX => ExecFn::VecSpec(VectorSpecInstr::SLIDEDOWN_VX),
        RiscvInstr::VRGATHER_VX => ExecFn::VecSpec(VectorSpecInstr::GATHER_VX),
        RiscvInstr::VADD_VI => ExecFn::VecInteger(AluFn::Add, VecForm::VI),
        RiscvInstr::VRSUB_VI => ExecFn::VecInteger(AluFn::RevSub, VecForm::VI),
        RiscvInstr::VAND_VI => ExecFn::VecInteger(AluFn::And, VecForm::VI),
        RiscvInstr::VOR_VI => ExecFn::VecInteger(AluFn::Or, VecForm::VI),
        RiscvInstr::VXOR_VI => ExecFn::VecInteger(AluFn::Xor, VecForm::VI),
        RiscvInstr::VSRA_VI => ExecFn::VecInteger(AluFn::Sra, VecForm::VU),
        RiscvInstr::VSRL_VI => ExecFn::VecInteger(AluFn::Srl, VecForm::VU),
        RiscvInstr::VSLL_VI => ExecFn::VecInteger(AluFn::Sll, VecForm::VU),
        RiscvInstr::VNSRL_WI => ExecFn::VecSpec(VectorSpecInstr::NSRL_WI),
        RiscvInstr::VNSRA_WI => ExecFn::VecSpec(VectorSpecInstr::NSRA_WI),
        RiscvInstr::VMSEQ_VI => ExecFn::VecCompare(MaskRelation::Eq, VecForm::VI),
        RiscvInstr::VMSNE_VI => ExecFn::VecCompare(MaskRelation::Ne, VecForm::VI),
        RiscvInstr::VMSLEU_VI => ExecFn::VecCompare(MaskRelation::Leu, VecForm::VI),
        RiscvInstr::VMSLE_VI => ExecFn::VecCompare(MaskRelation::Le, VecForm::VI),
        RiscvInstr::VMSGTU_VI => ExecFn::VecCompare(MaskRelation::Gtu, VecForm::VI),
        RiscvInstr::VMSGT_VI => ExecFn::VecCompare(MaskRelation::Gt, VecForm::VI),
        RiscvInstr::VADC_VIM => ExecFn::VecSpec(VectorSpecInstr::ADC_VIM),
        RiscvInstr::VMADC_VI => ExecFn::VecCarryOut(false, VecForm::VI),
        RiscvInstr::VMADC_VIM => ExecFn::VecSpec(VectorSpecInstr::MADC_VIM),
        RiscvInstr::VMERGE_VIM => ExecFn::VecSpec(VectorSpecInstr::MERGE_VIM),
        RiscvInstr::VMV_V_I => ExecFn::VecSpec(VectorSpecInstr::MOVE_VI),
        RiscvInstr::VSADDU_VI => ExecFn::VecFixedPoint(FixedFn::Saddu, VecForm::VI),
        RiscvInstr::VSADD_VI => ExecFn::VecFixedPoint(FixedFn::Sadd, VecForm::VI),
        RiscvInstr::VSSRL_VI => ExecFn::VecFixedPoint(FixedFn::Ssrl, VecForm::VU),
        RiscvInstr::VSSRA_VI => ExecFn::VecFixedPoint(FixedFn::Ssra, VecForm::VU),
        RiscvInstr::VNCLIPU_WI => ExecFn::VecClip(false, VecForm::VU),
        RiscvInstr::VNCLIP_WI => ExecFn::VecClip(true, VecForm::VU),
        RiscvInstr::VSLIDEUP_VI => ExecFn::VecSpec(VectorSpecInstr::SLIDEUP_VI),
        RiscvInstr::VSLIDEDOWN_VI => ExecFn::VecSpec(VectorSpecInstr::SLIDEDOWN_VI),
        RiscvInstr::VRGATHER_VI => ExecFn::VecSpec(VectorSpecInstr::GATHER_VI),
        RiscvInstr::VMV1R_V => ExecFn::VecWholeMove(1),
        RiscvInstr::VMV2R_V => ExecFn::VecWholeMove(2),
        RiscvInstr::VMV4R_V => ExecFn::VecWholeMove(4),
        RiscvInstr::VMV8R_V => ExecFn::VecWholeMove(8),
        RiscvInstr::VWADD_VV => ExecFn::VecWiden(WidenFn::Add, VecForm::VV, false),
        RiscvInstr::VWADD_WV => ExecFn::VecWiden(WidenFn::Add, VecForm::VV, true),
        RiscvInstr::VWADDU_VV => ExecFn::VecWiden(WidenFn::Addu, VecForm::VV, false),
        RiscvInstr::VWADDU_WV => ExecFn::VecWiden(WidenFn::Addu, VecForm::VV, true),
        RiscvInstr::VWSUB_VV => ExecFn::VecWiden(WidenFn::Sub, VecForm::VV, false),
        RiscvInstr::VWSUB_WV => ExecFn::VecWiden(WidenFn::Sub, VecForm::VV, true),
        RiscvInstr::VWSUBU_VV => ExecFn::VecWiden(WidenFn::Subu, VecForm::VV, false),
        RiscvInstr::VWSUBU_WV => ExecFn::VecWiden(WidenFn::Subu, VecForm::VV, true),
        RiscvInstr::VWMUL_VV => ExecFn::VecWiden(WidenFn::Mul, VecForm::VV, false),
        RiscvInstr::VWMULU_VV => ExecFn::VecWiden(WidenFn::Mulu, VecForm::VV, false),
        RiscvInstr::VWMULSU_VV => ExecFn::VecWiden(WidenFn::Mulsu, VecForm::VV, false),
        RiscvInstr::VZEXT_VF2 => ExecFn::VecExtend(false, 2),
        RiscvInstr::VZEXT_VF4 => ExecFn::VecExtend(false, 4),
        RiscvInstr::VZEXT_VF8 => ExecFn::VecExtend(false, 8),
        RiscvInstr::VSEXT_VF2 => ExecFn::VecExtend(true, 2),
        RiscvInstr::VSEXT_VF4 => ExecFn::VecExtend(true, 4),
        RiscvInstr::VSEXT_VF8 => ExecFn::VecExtend(true, 8),
        RiscvInstr::VWMACCU_VV => ExecFn::VecWidenMulAdd(WidenMulAddFn::Maccu, VecForm::VV),
        RiscvInstr::VWMACC_VV => ExecFn::VecWidenMulAdd(WidenMulAddFn::Macc, VecForm::VV),
        RiscvInstr::VWMACCSU_VV => ExecFn::VecWidenMulAdd(WidenMulAddFn::Maccsu, VecForm::VV),
        RiscvInstr::VCOMPRESS_VM => ExecFn::VecSpec(VectorSpecInstr::COMPRESS_VM),
        RiscvInstr::VMAND_MM => ExecFn::VecBit(MaskLogic::And),
        RiscvInstr::VMNAND_MM => ExecFn::VecBit(MaskLogic::Nand),
        RiscvInstr::VMANDN_MM => ExecFn::VecBit(MaskLogic::Andn),
        RiscvInstr::VMXOR_MM => ExecFn::VecBit(MaskLogic::Xor),
        RiscvInstr::VMOR_MM => ExecFn::VecBit(MaskLogic::Or),
        RiscvInstr::VMNOR_MM => ExecFn::VecBit(MaskLogic::Nor),
        RiscvInstr::VMORN_MM => ExecFn::VecBit(MaskLogic::Orn),
        RiscvInstr::VMXNOR_MM => ExecFn::VecBit(MaskLogic::Xnor),
        RiscvInstr::VCPOP_M => ExecFn::VecSpec(VectorSpecInstr::CPOP_M),
        RiscvInstr::VFIRST_M => ExecFn::VecSpec(VectorSpecInstr::FIRST_M),
        RiscvInstr::VMSBF_M => ExecFn::VecSpec(VectorSpecInstr::MSBF_M),
        RiscvInstr::VMSIF_M => ExecFn::VecSpec(VectorSpecInstr::MSIF_M),
        RiscvInstr::VMSOF_M => ExecFn::VecSpec(VectorSpecInstr::MSOF_M),
        RiscvInstr::VIOTA_M => ExecFn::VecSpec(VectorSpecInstr::IOTA_M),
        RiscvInstr::VID_V => ExecFn::VecSpec(VectorSpecInstr::ID_V),
        RiscvInstr::VMV_X_S => ExecFn::VecSpec(VectorSpecInstr::MOVE_XS),
        RiscvInstr::VMV_S_X => ExecFn::VecSpec(VectorSpecInstr::MOVE_SX),
        RiscvInstr::VWADD_VX => ExecFn::VecWiden(WidenFn::Add, VecForm::VX, false),
        RiscvInstr::VWADD_WX => ExecFn::VecWiden(WidenFn::Add, VecForm::VX, true),
        RiscvInstr::VWADDU_VX => ExecFn::VecWiden(WidenFn::Addu, VecForm::VX, false),
        RiscvInstr::VWADDU_WX => ExecFn::VecWiden(WidenFn::Addu, VecForm::VX, true),
        RiscvInstr::VWSUB_VX => ExecFn::VecWiden(WidenFn::Sub, VecForm::VX, false),
        RiscvInstr::VWSUB_WX => ExecFn::VecWiden(WidenFn::Sub, VecForm::VX, true),
        RiscvInstr::VWSUBU_VX => ExecFn::VecWiden(WidenFn::Subu, VecForm::VX, false),
        RiscvInstr::VWSUBU_WX => ExecFn::VecWiden(WidenFn::Subu, VecForm::VX, true),
        RiscvInstr::VWMUL_VX => ExecFn::VecWiden(WidenFn::Mul, VecForm::VX, false),
        RiscvInstr::VWMULU_VX => ExecFn::VecWiden(WidenFn::Mulu, VecForm::VX, false),
        RiscvInstr::VWMULSU_VX => ExecFn::VecWiden(WidenFn::Mulsu, VecForm::VX, false),
        RiscvInstr::VWMACCU_VX => ExecFn::VecWidenMulAdd(WidenMulAddFn::Maccu, VecForm::VX),
        RiscvInstr::VWMACC_VX => ExecFn::VecWidenMulAdd(WidenMulAddFn::Macc, VecForm::VX),
        RiscvInstr::VWMACCSU_VX => ExecFn::VecWidenMulAdd(WidenMulAddFn::Maccsu, VecForm::VX),
        RiscvInstr::VWMACCUS_VX => ExecFn::VecWidenMulAdd(WidenMulAddFn::Maccus, VecForm::VX),
        RiscvInstr::VLM_V => ExecFn::VecMaskLoad,
        RiscvInstr::VSM_V => ExecFn::VecMaskStore,
        RiscvInstr::VSLIDE1UP_VX => ExecFn::VecSpec(VectorSpecInstr::SLIDE1UP_VX),
        RiscvInstr::VSLIDE1DOWN_VX => ExecFn::VecSpec(VectorSpecInstr::SLIDE1DOWN_VX),
        RiscvInstr::VLE_V(eew) => ExecFn::VecUnitLoad(eew),
        RiscvInstr::VLEFF_V(_) => ExecFn::VecFaultFirstLoad,
        RiscvInstr::VLSE_V(eew) => ExecFn::VecStrideLoad(eew),
        RiscvInstr::VLUXEI_V(_) => ExecFn::VecUnorderedLoad,
        RiscvInstr::VLOXEI_V(eew) => ExecFn::VecIndexedLoad(eew),
        RiscvInstr::VLRE_V(_) => ExecFn::VecWholeLoad,
        RiscvInstr::VSE_V(eew) => ExecFn::VecUnitStore(eew),
        RiscvInstr::VSSE_V(eew) => ExecFn::VecStrideStore(eew),
        RiscvInstr::VSUXEI_V(_) => ExecFn::VecUnorderedStore,
        RiscvInstr::VSOXEI_V(eew) => ExecFn::VecIndexedStore(eew),
        RiscvInstr::VSR_V => ExecFn::VecWholeStore,
    }
}

impl ExecFn {
    /// Whether the handler can work on operands: they are of the kind that its instructions have,
    /// and the registers that they name exist.
    pub open spec fn takes(self, info: RVInstrInfo) -> bool {
        info.regs_ok() && match self {
            ExecFn::Arith(_) | ExecFn::ArithWord(_) => info is R || info is I,
            ExecFn::Branch(_) => info is B,
            ExecFn::Load(_, _) | ExecFn::Jalr | ExecFn::CsrBit(_, _) | ExecFn::FloatLoad(_) => {
                info is I
            },
            ExecFn::Store(_) | ExecFn::FloatStore(_) => info is S,
            ExecFn::Jal => info is J,
            ExecFn::Auipc | ExecFn::Lui => info is U,
            ExecFn::Ebreak
            | ExecFn::Ecall
            | ExecFn::Nop
            | ExecFn::FenceI
            | ExecFn::Csrw(_)
            | ExecFn::Mret
            | ExecFn::Sret
            | ExecFn::SfenceVma
            | ExecFn::Illegal
            | ExecFn::CompressNop => true,
            ExecFn::FloatArith(_, _)
            | ExecFn::FloatSqrt(_)
            | ExecFn::IntFromFloat(_, _, _)
            | ExecFn::FloatFromSigned(_)
            | ExecFn::FloatFromUnsigned(_, _)
            | ExecFn::FloatConvert(_) => info is R_rm,
            ExecFn::FloatFused(_, _) => info is R4_rm,
            ExecFn::FloatMin(_)
            | ExecFn::FloatMax(_)
            | ExecFn::FloatSign(_, _)
            | ExecFn::FloatCompare(_, _)
            | ExecFn::XFromFloat(_)
            | ExecFn::FloatFromX(_)
            | ExecFn::FloatClassify(_) => info is R,
            ExecFn::Amo(_, _) | ExecFn::LoadReserved(_, _) | ExecFn::StoreConditional(_) => {
                info is A
            },
            ExecFn::CompressArith(_) | ExecFn::CompressArithWord(_) => info is CR || info is CA
                || info is CI || info is CB,
            ExecFn::Addi4spn => info is CIW,
            ExecFn::CompressMv | ExecFn::CompressJumpReg(_) => info is CR,
            ExecFn::CompressLi
            | ExecFn::CompressLoadSp(_, _)
            | ExecFn::CompressFloatLoadSp(_) => info is CI,
            ExecFn::CompressLoad(_, _) | ExecFn::CompressFloatLoad(_) => info is CL,
            ExecFn::CompressStore(_) | ExecFn::CompressFloatStore(_) => info is CS,
            ExecFn::CompressStoreSp(_) | ExecFn::CompressFloatStoreSp(_) => info is CSS,
            ExecFn::CompressBranch(_) => info is CB,
            ExecFn::CompressJump(_) => info is CJ,
            _ => info is V,
        }
    }
}

} // verus!
