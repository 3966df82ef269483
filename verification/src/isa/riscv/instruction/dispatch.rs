//! What each handler does, and the call of a handler.
use vstd::prelude::*;

use crate::isa::riscv::executor::{CpuState, RVCPU};
use crate::isa::riscv::trap::Exception;

use super::exec_atomic_function;
use super::exec_compress_function;
use super::exec_core::Step;
use super::exec_float_function;
use super::exec_function;
use super::exec_mapping;
use super::exec_mapping::ExecFn;
use super::exec_vector_function;
use super::info::RVInstrInfo;
use super::instr_table::RiscvInstr;

verus! {

/// Whether a state and a result are what a step leads to.
spec fn is_outcome(s: CpuState, r: Result<(), Exception>, step: Step) -> bool {
    s == step.0 && r == step.1
}

/// What an instruction does to a hart.
pub open spec fn executed(instr: RiscvInstr, s: CpuState, info: RVInstrInfo) -> Step {
    exec_mapping::exec_func_of(instr).step(s, info)
}

impl ExecFn {
    /// What an instruction of the base set, the atomic ones included does.
    #[verifier::opaque]
    pub open spec fn base_step(self, s: CpuState, info: RVInstrInfo) -> Step {
        match self {
            ExecFn::Arith(op) => exec_function::arith_step(op, s, info),
            ExecFn::ArithWord(op) => exec_function::arith_word_step(op, s, info),
            ExecFn::Branch(op) => exec_function::branch_step(op, s, info),
            ExecFn::Load(w, extend) => exec_function::load_step(w, extend, s, info),
            ExecFn::Store(w) => exec_function::store_step(w, s, info),
            ExecFn::Jal => exec_function::jal_step(s, info),
            ExecFn::Jalr => exec_function::jalr_step(s, info),
            ExecFn::Auipc => exec_function::upper_step(true, s, info),
            ExecFn::Lui => exec_function::upper_step(false, s, info),
            ExecFn::Ebreak => (s, Err(Exception::Breakpoint)),
            ExecFn::Ecall => (s, Err(exec_function::ecall_exception(s.csr.cpl))),
            ExecFn::Nop => (s.retired(4), Ok(())),
            ExecFn::FenceI => (s.icache_flushed().retired(4), Ok(())),
            ExecFn::Csrw(uimm) => exec_function::csrw_step(uimm, s, info),
            ExecFn::CsrBit(set, uimm) => exec_function::csr_bit_step(set, uimm, s, info),
            ExecFn::Mret => exec_function::mret_step(s),
            ExecFn::Sret => exec_function::sret_step(s),
            ExecFn::SfenceVma => exec_function::sfence_vma_step(s),
            ExecFn::Illegal => (s, Err(Exception::IllegalInstruction)),
            ExecFn::Amo(op, w) => exec_atomic_function::amo_step(op, w, s, info),
            ExecFn::LoadReserved(w, extend) => exec_atomic_function::lr_step(w, extend, s, info),
            ExecFn::StoreConditional(w) => exec_atomic_function::sc_step(w, s, info),
            _ => self.float_arith_step(s, info),
        }
    }

    /// What an operation on floating-point numbers does.
    #[verifier::opaque]
    pub open spec fn float_arith_step(self, s: CpuState, info: RVInstrInfo) -> Step {
        match self {
            ExecFn::FloatArith(f, op) => exec_float_function::float_arith_rm_step(f, op, s, info),
            ExecFn::FloatFused(f, op) => exec_float_function::float_arith_r4_rm_step(
                f,
                op,
                s,
                info,
            ),
            ExecFn::FloatSqrt(f) => exec_float_function::sqrt_step(f, s, info),
            ExecFn::FloatMin(f) => exec_float_function::float_min_step(f, s, info),
            ExecFn::FloatMax(f) => exec_float_function::float_max_step(f, s, info),
            ExecFn::FloatSign(f, op) => exec_float_function::float_arith_step(f, op, s, info),
            _ => self.float_convert_step(s, info),
        }
    }

    /// What a conversion or comparison of floating-point numbers does.
    #[verifier::opaque]
    pub open spec fn float_convert_step(self, s: CpuState, info: RVInstrInfo) -> Step {
        match self {
            ExecFn::IntFromFloat(f, w, signed) => if signed {
                exec_float_function::cvt_i_from_f_step(f, w, s, info)
            } else {
                exec_float_function::cvt_u_from_f_step(f, w, s, info)
            },
            ExecFn::FloatFromSigned(f) => exec_float_function::cvt_f_from_i_step(f, s, info),
            ExecFn::FloatFromUnsigned(f, w) => exec_float_function::cvt_f_from_u_step(
                f,
                w,
                s,
                info,
            ),
            ExecFn::FloatConvert(f) => exec_float_function::cvt_float_step(f, s, info),
            ExecFn::FloatCompare(f, op) => exec_float_function::float_compare_step(f, op, s, info),
            _ => self.float_move_step(s, info),
        }
    }

    /// What a move of floating-point numbers does.
    #[verifier::opaque]
    pub open spec fn float_move_step(self, s: CpuState, info: RVInstrInfo) -> Step {
        match self {
            ExecFn::FloatLoad(f) => exec_float_function::float_load_step(f, s, info),
            ExecFn::FloatStore(f) => exec_float_function::float_store_step(f, s, info),
            ExecFn::XFromFloat(extend) => exec_float_function::mv_x_from_f_step(extend, s, info),
            ExecFn::FloatFromX(f) => exec_float_function::mv_f_from_x_step(f, s, info),
            ExecFn::FloatClassify(f) => exec_float_function::float_classify_step(f, s, info),
            _ => self.compressed_step(s, info),
        }
    }

    /// What a two-byte instruction that works on registers does.
    #[verifier::opaque]
    pub open spec fn compressed_step(self, s: CpuState, info: RVInstrInfo) -> Step {
        match self {
            ExecFn::CompressArith(op) => exec_compress_function::compress_arith_step(op, s, info),
            ExecFn::CompressArithWord(op) => exec_compress_function::compress_arith_word_step(
                op,
                s,
                info,
            ),
            ExecFn::Addi4spn => exec_compress_function::compress_set_step(s, info),
            ExecFn::CompressMv => exec_compress_function::compress_set_step(s, info),
            ExecFn::CompressNop => (s.retired(2), Ok(())),
            ExecFn::CompressLi => exec_compress_function::compress_set_step(s, info),
            ExecFn::CompressBranch(op) => exec_compress_function::compress_branch_step(op, s, info),
            ExecFn::CompressJump(link) => exec_compress_function::compress_jump_step(link, s, info),
            ExecFn::CompressJumpReg(link) => exec_compress_function::compress_jump_reg_step(
                link,
                s,
                info,
            ),
            _ => self.compressed_memory_step(s, info),
        }
    }

    /// What a two-byte load or store does.
    #[verifier::opaque]
    pub open spec fn compressed_memory_step(self, s: CpuState, info: RVInstrInfo) -> Step {
        match self {
            ExecFn::CompressLoad(w, extend) => exec_compress_function::compress_load_step(
                w,
                extend,
                s,
                info,
            ),
            ExecFn::CompressLoadSp(w, extend) => exec_compress_function::compress_load_step(
                w,
                extend,
                s,
                info,
            ),
            ExecFn::CompressStore(w) => exec_compress_function::compress_store_step(w, s, info),
            ExecFn::CompressStoreSp(w) => exec_compress_function::compress_store_step(w, s, info),
            ExecFn::CompressFloatLoad(f) => exec_compress_function::compress_float_load_step(
                f,
                s,
                info,
            ),
            ExecFn::CompressFloatLoadSp(f) => exec_compress_function::compress_float_load_step(
                f,
                s,
                info,
            ),
            ExecFn::CompressFloatStore(f) => exec_compress_function::compress_float_store_step(
                f,
                s,
                info,
            ),
            ExecFn::CompressFloatStoreSp(f) => exec_compress_function::compress_float_store_step(
                f,
                s,
                info,
            ),
            _ => self.vector_step(s, info),
        }
    }

    /// What a vector instruction that sets the unit up or computes integers does.
    #[verifier::opaque]
    pub open spec fn vector_step(self, s: CpuState, info: RVInstrInfo) -> Step {
        match self {
            ExecFn::VecConfig(form) => exec_vector_function::vector_config_step(form, s, info),
            ExecFn::VecInteger(op, form) => exec_vector_function::vec_integer_op_step(
                op,
                form,
                s,
                info,
            ),
            ExecFn::VecMulAdd(op, form) => exec_vector_function::vec_mul_add_op_step(
                op,
                form,
                s,
                info,
            ),
            ExecFn::VecWiden(op, form, wide) => exec_vector_function::vec_widening_integer_op_step(
                op,
                form,
                wide,
                s,
                info,
            ),
            ExecFn::VecWidenMulAdd(op, form) => exec_vector_function::vec_widening_mul_add_op_step(
                op,
                form,
                s,
                info,
            ),
            _ => self.vector_fixed_step(s, info),
        }
    }

    /// What a vector instruction with rounding or carries does.
    #[verifier::opaque]
    pub open spec fn vector_fixed_step(self, s: CpuState, info: RVInstrInfo) -> Step {
        match self {
            ExecFn::VecFixedPoint(op, form) => exec_vector_function::vec_fixed_point_op_step(
                op,
                form,
                s,
                info,
            ),
            ExecFn::VecClip(signed, form) => exec_vector_function::vec_fixed_point_narrowing_op_step(
                signed,
                form,
                s,
                info,
            ),
            ExecFn::VecCarry(subtract, form) => exec_vector_function::vec_carry_op_step(
                subtract,
                form,
                s,
                info,
            ),
            ExecFn::VecMerge(form) => exec_vector_function::vec_merge_op_step(form, s, info),
            _ => self.vector_mask_step(s, info),
        }
    }

    /// What a vector instruction on masks, or with rules of its own does.
    #[verifier::opaque]
    pub open spec fn vector_mask_step(self, s: CpuState, info: RVInstrInfo) -> Step {
        match self {
            ExecFn::VecCompare(op, form) => exec_vector_function::vec_integer_mask_op_step(
                op,
                form,
                s,
                info,
            ),
            ExecFn::VecCarryOut(subtract, form) => exec_vector_function::vec_carry_out_op_step(
                subtract,
                form,
                s,
                info,
            ),
            ExecFn::VecBit(op) => exec_vector_function::vec_bit_op_step(op, s, info),
            ExecFn::VecExtend(signed, factor) => exec_vector_function::vec_integer_ext_op_step(
                signed,
                factor,
                s,
                info,
            ),
            ExecFn::VecWholeMove(count) => exec_vector_function::vec_whole_register_move_step(
                count,
                s,
                info,
            ),
            ExecFn::VecSpec(instr) => exec_vector_function::vec_integer_spec_step(instr, s, info),
            _ => self.vector_load_step(s, info),
        }
    }

    /// What a vector load does.
    #[verifier::opaque]
    pub open spec fn vector_load_step(self, s: CpuState, info: RVInstrInfo) -> Step {
        match self {
            ExecFn::VecUnitLoad(eew) => exec_vector_function::vector_load_step(
                exec_vector_function::unit_access(eew, s, info),
                s,
            ),
            ExecFn::VecStrideLoad(eew) => exec_vector_function::vector_load_step(
                exec_vector_function::stride_access(eew, s, info),
                s,
            ),
            ExecFn::VecIndexedLoad(eew) => exec_vector_function::vector_load_step(
                exec_vector_function::indexed_access(eew, s, info),
                s,
            ),
            ExecFn::VecUnorderedLoad => exec_vector_function::refused_step(s),
            ExecFn::VecFaultFirstLoad => exec_vector_function::refused_step(s),
            ExecFn::VecWholeLoad => exec_vector_function::vector_whole_register_load_step(s, info),
            ExecFn::VecMaskLoad => exec_vector_function::vector_mask_load_step(s, info),
            _ => self.vector_store_step(s, info),
        }
    }

    /// What a vector store does.
    #[verifier::opaque]
    pub open spec fn vector_store_step(self, s: CpuState, info: RVInstrInfo) -> Step {
        match self {
            ExecFn::VecUnitStore(eew) => exec_vector_function::vector_store_step(
                exec_vector_function::unit_access(eew, s, info),
                s,
            ),
            ExecFn::VecStrideStore(eew) => exec_vector_function::vector_store_step(
                exec_vector_function::stride_access(eew, s, info),
                s,
            ),
            ExecFn::VecIndexedStore(eew) => exec_vector_function::vector_store_step(
                exec_vector_function::indexed_access(eew, s, info),
                s,
            ),
            ExecFn::VecUnorderedStore => exec_vector_function::refused_step(s),
            ExecFn::VecWholeStore => exec_vector_function::vector_whole_register_store_step(
                s,
                info,
            ),
            ExecFn::VecMaskStore => exec_vector_function::vector_mask_store_step(s, info),
            _ => (s, Ok(())),
        }
    }

    /// What the handler does to a hart.
    pub open spec fn step(self, s: CpuState, info: RVInstrInfo) -> Step {
        self.base_step(s, info)
    }

    /// Executes an instruction of the base set, the atomic ones included.
    fn call_base(self, info: RVInstrInfo, cpu: &mut RVCPU) -> (r: Result<(), Exception>)
        requires
            old(cpu).wf(),
            self.takes(info),
        ensures
            final(cpu).wf(),
            is_outcome(final(cpu)@, r, self.base_step(old(cpu)@, info)),
    {
        proof {
            reveal(ExecFn::base_step);
        }
        match self {
            ExecFn::Arith(op) => exec_function::exec_arith(op, info, cpu),
            ExecFn::ArithWord(op) => exec_function::exec_arith_word(op, info, cpu),
            ExecFn::Branch(op) => exec_function::exec_branch(op, info, cpu),
            ExecFn::Load(w, extend) => exec_function::exec_load(w, extend, info, cpu),
            ExecFn::Store(w) => exec_function::exec_store(w, info, cpu),
            ExecFn::Jal => exec_function::exec_jal(info, cpu),
            ExecFn::Jalr => exec_function::exec_jalr(info, cpu),
            ExecFn::Auipc => exec_function::exec_upper(true, info, cpu),
            ExecFn::Lui => exec_function::exec_upper(false, info, cpu),
            ExecFn::Ebreak => Err(Exception::Breakpoint),
            ExecFn::Ecall => exec_function::exec_ecall(cpu),
            ExecFn::Nop => exec_function::exec_nop(cpu),
            ExecFn::FenceI => exec_function::exec_fence_i(cpu),
            ExecFn::Csrw(uimm) => exec_function::exec_csrw(uimm, info, cpu),
            ExecFn::CsrBit(set, uimm) => exec_function::exec_csr_bit(set, uimm, info, cpu),
            ExecFn::Mret => exec_function::exec_mret(cpu),
            ExecFn::Sret => exec_function::exec_sret(cpu),
            ExecFn::SfenceVma => exec_function::exec_sfence_vma(cpu),
            ExecFn::Illegal => Err(Exception::IllegalInstruction),
            ExecFn::Amo(op, w) => exec_atomic_function::exec_atomic_memory_operation(
                op,
                w,
                info,
                cpu,
            ),
            ExecFn::LoadReserved(w, extend) => exec_atomic_function::exec_lr(w, extend, info, cpu),
            ExecFn::StoreConditional(w) => exec_atomic_function::exec_sc(w, info, cpu),
            _ => self.call_float_arith(info, cpu),
        }
    }

    /// Executes an operation on floating-point numbers.
    fn call_float_arith(self, info: RVInstrInfo, cpu: &mut RVCPU) -> (r: Result<(), Exception>)
        requires
            old(cpu).wf(),
            self.takes(info),
        ensures
            final(cpu).wf(),
            is_outcome(final(cpu)@, r, self.float_arith_step(old(cpu)@, info)),
    {
        proof {
            reveal(ExecFn::float_arith_step);
        }
        match self {
            ExecFn::FloatArith(f, op) => exec_float_function::exec_float_arith_rm(f, op, info, cpu),
            ExecFn::FloatFused(f, op) => exec_float_function::exec_float_arith_r4_rm(
                f,
                op,
                info,
                cpu,
            ),
            ExecFn::FloatSqrt(f) => exec_float_function::exec_sqrt(f, info, cpu),
            ExecFn::FloatMin(f) => exec_float_function::exec_float_min(f, info, cpu),
            ExecFn::FloatMax(f) => exec_float_function::exec_float_max(f, info, cpu),
            ExecFn::FloatSign(f, op) => exec_float_function::exec_float_arith(f, op, info, cpu),
            _ => self.call_float_convert(info, cpu),
        }
    }

    /// Executes a conversion or comparison of floating-point numbers.
    fn call_float_convert(self, info: RVInstrInfo, cpu: &mut RVCPU) -> (r: Result<(), Exception>)
        requires
            old(cpu).wf(),
            self.takes(info),
        ensures
            final(cpu).wf(),
            is_outcome(final(cpu)@, r, self.float_convert_step(old(cpu)@, info)),
    {
        proof {
            reveal(ExecFn::float_convert_step);
        }
        match self {
            ExecFn::IntFromFloat(f, w, signed) => if signed {
                exec_float_function::exec_cvt_i_from_f(f, w, info, cpu)
            } else {
                exec_float_function::exec_cvt_u_from_f(f, w, info, cpu)
            },
            ExecFn::FloatFromSigned(f) => exec_float_function::exec_cvt_f_from_i(f, info, cpu),
            ExecFn::FloatFromUnsigned(f, w) => exec_float_function::exec_cvt_f_from_u(
                f,
                w,
                info,
                cpu,
            ),
            ExecFn::FloatConvert(f) => exec_float_function::exec_cvt_float(f, info, cpu),
            ExecFn::FloatCompare(f, op) => exec_float_function::exec_float_compare(
                f,
                op,
                info,
                cpu,
            ),
            _ => self.call_float_move(info, cpu),
        }
    }

    /// Executes a move of floating-point numbers.
    fn call_float_move(self, info: RVInstrInfo, cpu: &mut RVCPU) -> (r: Result<(), Exception>)
        requires
            old(cpu).wf(),
            self.takes(info),
        ensures
            final(cpu).wf(),
            is_outcome(final(cpu)@, r, self.float_move_step(old(cpu)@, info)),
    {
        proof {
            reveal(ExecFn::float_move_step);
        }
        match self {
            ExecFn::FloatLoad(f) => exec_float_function::exec_float_load(f, info, cpu),
            ExecFn::FloatStore(f) => exec_float_function::exec_float_store(f, info, cpu),
            ExecFn::XFromFloat(extend) => exec_float_function::exec_mv_x_from_f(extend, info, cpu),
            ExecFn::FloatFromX(f) => exec_float_function::exec_mv_f_from_x(f, info, cpu),
            ExecFn::FloatClassify(f) => exec_float_function::exec_float_classify(f, info, cpu),
            _ => self.call_compressed(info, cpu),
        }
    }

    /// Executes a two-byte instruction that works on registers.
    fn call_compressed(self, info: RVInstrInfo, cpu: &mut RVCPU) -> (r: Result<(), Exception>)
        requires
            old(cpu).wf(),
            self.takes(info),
        ensures
            final(cpu).wf(),
            is_outcome(final(cpu)@, r, self.compressed_step(old(cpu)@, info)),
    {
        proof {
            reveal(ExecFn::compressed_step);
        }
        match self {
            ExecFn::CompressArith(op) => exec_compress_function::exec_compress_arith(op, info, cpu),
            ExecFn::CompressArithWord(op) => exec_compress_function::exec_compress_arith_word(
                op,
                info,
                cpu,
            ),
            ExecFn::Addi4spn => exec_compress_function::exec_addi4spn(info, cpu),
            ExecFn::CompressMv => exec_compress_function::exec_compress_mv(info, cpu),
            ExecFn::CompressNop => exec_compress_function::exec_compress_nop(cpu),
            ExecFn::CompressLi => exec_compress_function::exec_compress_li(info, cpu),
            ExecFn::CompressBranch(op) => exec_compress_function::exec_compress_branch(
                op,
                info,
                cpu,
            ),
            ExecFn::CompressJump(link) => exec_compress_function::exec_compress_jump(
                link,
                info,
                cpu,
            ),
            ExecFn::CompressJumpReg(link) => exec_compress_function::exec_compress_jump_reg(
                link,
                info,
                cpu,
            ),
            _ => self.call_compressed_memory(info, cpu),
        }
    }

    /// Executes a two-byte load or store.
    fn call_compressed_memory(
        self,
        info: RVInstrInfo,
        cpu: &mut RVCPU,
    ) -> (r: Result<(), Exception>)
        requires
            old(cpu).wf(),
            self.takes(info),
        ensures
            final(cpu).wf(),
            is_outcome(final(cpu)@, r, self.compressed_memory_step(old(cpu)@, info)),
    {
        proof {
            reveal(ExecFn::compressed_memory_step);
        }
        match self {
            ExecFn::CompressLoad(w, extend) => exec_compress_function::exec_compress_load(
                w,
                extend,
                info,
                cpu,
            ),
            ExecFn::CompressLoadSp(w, extend) => exec_compress_function::exec_compress_load_sp(
                w,
                extend,
                info,
                cpu,
            ),
            ExecFn::CompressStore(w) => exec_compress_function::exec_compress_store(w, info, cpu),
            ExecFn::CompressStoreSp(w) => exec_compress_function::exec_compress_store_sp(
                w,
                info,
                cpu,
            ),
            ExecFn::CompressFloatLoad(f) => exec_compress_function::exec_compress_float_load(
                f,
                info,
                cpu,
            ),
            ExecFn::CompressFloatLoadSp(f) => exec_compress_function::exec_compress_float_load_sp(
                f,
                info,
                cpu,
            ),
            ExecFn::CompressFloatStore(f) => exec_compress_function::exec_compress_float_store(
                f,
                info,
                cpu,
            ),
            ExecFn::CompressFloatStoreSp(f) => exec_compress_function::exec_compress_float_store_sp(
                f,
                info,
                cpu,
            ),
            _ => self.call_vector(info, cpu),
        }
    }

    /// Executes a vector instruction that sets the unit up or computes integers.
    fn call_vector(self, info: RVInstrInfo, cpu: &mut RVCPU) -> (r: Result<(), Exception>)
        requires
            old(cpu).wf(),
            self.takes(info),
        ensures
            final(cpu).wf(),
            is_outcome(final(cpu)@, r, self.vector_step(old(cpu)@, info)),
    {
        proof {
            reveal(ExecFn::vector_step);
        }
        match self {
            ExecFn::VecConfig(form) => exec_vector_function::exec_vector_config(form, info, cpu),
            ExecFn::VecInteger(op, form) => exec_vector_function::vec_integer_op(
                op,
                form,
                info,
                cpu,
            ),
            ExecFn::VecMulAdd(op, form) => exec_vector_function::vec_mul_add_op(
                op,
                form,
                info,
                cpu,
            ),
            ExecFn::VecWiden(op, form, wide) => exec_vector_function::vec_widening_integer_op(
                op,
                form,
                wide,
                info,
                cpu,
            ),
            ExecFn::VecWidenMulAdd(op, form) => exec_vector_function::vec_widening_mul_add_op(
                op,
                form,
                info,
                cpu,
            ),
            _ => self.call_vector_fixed(info, cpu),
        }
    }

    /// Executes a vector instruction with rounding or carries.
    fn call_vector_fixed(self, info: RVInstrInfo, cpu: &mut RVCPU) -> (r: Result<(), Exception>)
        requires
            old(cpu).wf(),
            self.takes(info),
        ensures
            final(cpu).wf(),
            is_outcome(final(cpu)@, r, self.vector_fixed_step(old(cpu)@, info)),
    {
        proof {
            reveal(ExecFn::vector_fixed_step);
        }
        match self {
            ExecFn::VecFixedPoint(op, form) => exec_vector_function::vec_fixed_point_op(
                op,
                form,
                info,
                cpu,
            ),
            ExecFn::VecClip(signed, form) => exec_vector_function::vec_fixed_point_narrowing_op(
                signed,
                form,
                info,
                cpu,
            ),
            ExecFn::VecCarry(subtract, form) => exec_vector_function::vec_carry_op(
                subtract,
                form,
                info,
                cpu,
            ),
            ExecFn::VecMerge(form) => exec_vector_function::vec_merge_op(form, info, cpu),
            _ => self.call_vector_mask(info, cpu),
        }
    }

    /// Executes a vector instruction on masks, or with rules of its own.
    fn call_vector_mask(self, info: RVInstrInfo, cpu: &mut RVCPU) -> (r: Result<(), Exception>)
        requires
            old(cpu).wf(),
            self.takes(info),
        ensures
            final(cpu).wf(),
            is_outcome(final(cpu)@, r, self.vector_mask_step(old(cpu)@, info)),
    {
        proof {
            reveal(ExecFn::vector_mask_step);
        }
        match self {
            ExecFn::VecCompare(op, form) => exec_vector_function::vec_integer_mask_op(
                op,
                form,
                info,
                cpu,
            ),
            ExecFn::VecCarryOut(subtract, form) => exec_vector_function::vec_carry_out_op(
                subtract,
                form,
                info,
                cpu,
            ),
            ExecFn::VecBit(op) => exec_vector_function::vec_bit_op(op, info, cpu),
            ExecFn::VecExtend(signed, factor) => exec_vector_function::vec_integer_ext_op(
                signed,
                factor,
                info,
                cpu,
            ),
            ExecFn::VecWholeMove(count) => exec_vector_function::vec_whole_register_move_op_v(
                count,
                info,
                cpu,
            ),
            ExecFn::VecSpec(instr) => exec_vector_function::vec_integer_spec_op(instr, info, cpu),
            _ => self.call_vector_load(info, cpu),
        }
    }

    /// Executes a vector load.
    fn call_vector_load(self, info: RVInstrInfo, cpu: &mut RVCPU) -> (r: Result<(), Exception>)
        requires
            old(cpu).wf(),
            self.takes(info),
        ensures
            final(cpu).wf(),
            is_outcome(final(cpu)@, r, self.vector_load_step(old(cpu)@, info)),
    {
        proof {
            reveal(ExecFn::vector_load_step);
        }
        match self {
            ExecFn::VecUnitLoad(eew) => exec_vector_function::vector_unit_stride_load(
                eew,
                info,
                cpu,
            ),
            ExecFn::VecStrideLoad(eew) => exec_vector_function::vector_constant_stride_load(
                eew,
                info,
                cpu,
            ),
            ExecFn::VecIndexedLoad(eew) => exec_vector_function::vector_indexed_ordered_load(
                eew,
                info,
                cpu,
            ),
            ExecFn::VecUnorderedLoad => exec_vector_function::exec_vector_missing(cpu),
            ExecFn::VecFaultFirstLoad => exec_vector_function::exec_vector_missing(cpu),
            ExecFn::VecWholeLoad => exec_vector_function::vector_whole_register_load(info, cpu),
            ExecFn::VecMaskLoad => exec_vector_function::vector_mask_load(info, cpu),
            _ => self.call_vector_store(info, cpu),
        }
    }

    /// Executes a vector store.
    fn call_vector_store(self, info: RVInstrInfo, cpu: &mut RVCPU) -> (r: Result<(), Exception>)
        requires
            old(cpu).wf(),
            self.takes(info),
        ensures
            final(cpu).wf(),
            is_outcome(final(cpu)@, r, self.vector_store_step(old(cpu)@, info)),
    {
        proof {
            reveal(ExecFn::vector_store_step);
        }
        match self {
            ExecFn::VecUnitStore(eew) => exec_vector_function::vector_unit_stride_store(
                eew,
                info,
                cpu,
            ),
            ExecFn::VecStrideStore(eew) => exec_vector_function::vector_constant_stride_store(
                eew,
                info,
                cpu,
            ),
            ExecFn::VecIndexedStore(eew) => exec_vector_function::vector_indexed_ordered_store(
                eew,
                info,
                cpu,
            ),
            ExecFn::VecUnorderedStore => exec_vector_function::exec_vector_missing(cpu),
            ExecFn::VecWholeStore => exec_vector_function::vector_whole_register_store(info, cpu),
            ExecFn::VecMaskStore => exec_vector_function::vector_mask_store(info, cpu),
            _ => Ok(()),
        }
    }

    /// Calls the handler with the operands of an instruction.
    pub fn call(self, info: RVInstrInfo, cpu: &mut RVCPU) -> (r: Result<(), Exception>)
        requires
            old(cpu).wf(),
            self.takes(info),
        ensures
            final(cpu).wf(),
            final(cpu)@ == self.step(old(cpu)@, info).0,
            r == self.step(old(cpu)@, info).1,
    {
        self.call_base(info, cpu)
    }
}

} // verus!
