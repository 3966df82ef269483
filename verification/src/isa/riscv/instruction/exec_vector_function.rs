//! The handlers of the vector instructions.
use vstd::prelude::*;

use crate::device::PhysState;
use crate::isa::riscv::csr_reg::csr_index;
use crate::isa::riscv::csr_reg::field::CsrField;
use crate::isa::riscv::csr_reg::file;
use crate::isa::riscv::executor::{CpuState, RVCPU};
use crate::isa::riscv::mmu::manager::VmState;
use crate::isa::riscv::trap::Exception;
use crate::isa::riscv::vector::element::{ElemFn, MulAddFn, Rhs, WidenFn, WidenMulAddFn};
use crate::isa::riscv::vector::fixed::{FixedFn, FixedOp, FixedPointRoundingMode};
use crate::isa::riscv::vector::mask;
use crate::isa::riscv::vector::mask::{FirstBit, MaskFn, MaskLogic, MaskRelation};
use crate::isa::riscv::vector::memory::{Addressing, VectorAccess, VectorMemException};
use crate::isa::riscv::vector::state;
use crate::isa::riscv::vector::state::VectorState;
use crate::isa::riscv::vector::types::{VectorConfig, Vsew};
use crate::utils;
use crate::utils::Width;

use super::alu::AluFn;
use super::exec_core::Step;
use super::exec_mapping::{VecForm, VectorConfigForm, VectorSpecInstr};
use super::info::RVInstrInfo;

verus! {

impl CpuState {
    /// The element that a vector instruction starts from.
    pub open spec fn vstart(self) -> u64 {
        self.csr.value(csr_index::vstart)
    }

    pub open spec fn with_vstart(self, i: u64) -> CpuState {
        CpuState { csr: self.csr.with_value(csr_index::vstart, i), ..self }
    }

    /// The state with another vector unit.
    pub open spec fn with_vector(self, vector: VectorState) -> CpuState {
        CpuState { vector, ..self }
    }

    /// The state with other memory.
    pub open spec fn with_phys(self, phys: PhysState) -> CpuState {
        CpuState { vm: VmState { phys, ..self.vm }, ..self }
    }

    /// The rounding mode of fixed-point instructions.
    pub open spec fn fixed_point_rounding(self) -> FixedPointRoundingMode {
        FixedPointRoundingMode::of_bits(self.csr.field(CsrField::Vcsr_vxrm))
    }

    /// The state after a fixed-point instruction that may have saturated.
    pub open spec fn saturated_if(self, saturated: bool) -> CpuState {
        if saturated {
            CpuState { csr: self.csr.with_field_directly(CsrField::Vcsr_vxsat, 1), ..self }
        } else {
            self
        }
    }

    /// What an error of a vector memory access does: `vstart` keeps the element that faulted.
    pub open spec fn vector_fault(self, err: VectorMemException) -> Step {
        (
            match err.index {
                Some(i) => self.with_vstart(i),
                None => self,
            },
            Err(err.cause),
        )
    }

    /// What a vector memory access does, from its effect and whether it completed.
    pub open spec fn vector_access(self, done: Result<(), VectorMemException>) -> Step {
        match done {
            Ok(_) => (self, Ok(())),
            Err(err) => self.vector_fault(err),
        }
    }
}

/// What a vector instruction does after its effect: if that raised no exception, it goes on to
/// the next one with `vstart` 0.
pub open spec fn complete_step(step: Step) -> Step {
    match step.1 {
        Ok(_) => (step.0.retired(4).with_vstart(0), Ok(())),
        Err(_) => step,
    }
}

/// What a vector instruction does whose effect is `body`: with the unit switched off it is
/// illegal.
#[verifier::opaque]
pub open spec fn vector_step(s: CpuState, body: Step) -> Step {
    if s.csr.field(CsrField::Mstatus_vs) == 0 {
        (s, Err(Exception::IllegalInstruction))
    } else {
        complete_step(body)
    }
}

fn set_vstart(cpu: &mut RVCPU, i: u64)
    requires
        old(cpu).wf(),
    ensures
        final(cpu).wf(),
        final(cpu)@ == old(cpu)@.with_vstart(i),
{
    let _ = cpu.csr.write_directly(csr_index::vstart, i);
}

/// Goes on to the next instruction and clears `vstart`, if there was no exception.
pub fn finish_vector(cpu: &mut RVCPU, done: Result<(), Exception>) -> (r: Result<(), Exception>)
    requires
        old(cpu).wf(),
    ensures
        final(cpu).wf(),
        final(cpu)@ == complete_step((old(cpu)@, done)).0,
        r == complete_step((old(cpu)@, done)).1,
{
    match done {
        Ok(_) => {
            cpu.retire(4);
            set_vstart(cpu, 0);
            Ok(())
        },
        Err(e) => Err(e),
    }
}

/// Ends a vector memory access: an error leaves the element that faulted in `vstart`.
pub fn finish_vector_memory_access(cpu: &mut RVCPU, done: Result<(), VectorMemException>) -> (r:
    Result<(), Exception>)
    requires
        old(cpu).wf(),
    ensures
        final(cpu).wf(),
        final(cpu)@ == complete_step(old(cpu)@.vector_access(done)).0,
        r == complete_step(old(cpu)@.vector_access(done)).1,
{
    match done {
        Ok(_) => finish_vector(cpu, Ok(())),
        Err(err) => {
            if let Some(i) = err.fault_index() {
                set_vstart(cpu, i);
            }
            Err(err.exception())
        },
    }
}

/// The second operand of an instruction.
pub open spec fn rhs_of(form: VecForm, s: CpuState, rs1: u8) -> Rhs {
    match form {
        VecForm::VV => Rhs::Reg(rs1),
        VecForm::VX => Rhs::Scalar(s.reg(rs1)),
        VecForm::VI => Rhs::Scalar(utils::sign_extended(rs1 as u64, 5)),
        VecForm::VU => Rhs::Scalar(rs1 as u64),
    }
}

/// The second operand of an instruction.
pub fn read_rhs(form: VecForm, cpu: &RVCPU, rs1: u8) -> (r: Rhs)
    requires
        rs1 < 32,
    ensures
        r == rhs_of(form, cpu@, rs1),
{
    match form {
        VecForm::VV => Rhs::Reg(rs1),
        VecForm::VX => Rhs::Scalar(cpu.read_reg(rs1)),
        VecForm::VI => Rhs::Scalar(utils::sign_extend(rs1 as u64, 5)),
        VecForm::VU => Rhs::Scalar(rs1 as u64),
    }
}

/// What an instruction does that computes elements.
#[verifier::opaque]
pub open spec fn elements_step(f: ElemFn, vd: u8, masked: bool, s: CpuState) -> Step {
    let (v, r) = f.applied(s.vector, vd, masked, s.vstart());
    vector_step(s, (s.with_vector(v), r))
}

/// Executes an instruction that computes elements.
pub fn exec_elements(f: ElemFn, vd: u8, masked: bool, cpu: &mut RVCPU) -> (r: Result<
    (),
    Exception,
>)
    requires
        old(cpu).wf(),
    ensures
        final(cpu).wf(),
        final(cpu)@ == elements_step(f, vd, masked, old(cpu)@).0,
        r == elements_step(f, vd, masked, old(cpu)@).1,
{
    proof {
        reveal(elements_step);
        reveal(vector_step);
    }
    if cpu.csr.get_field(CsrField::Mstatus_vs) == 0 {
        return Err(Exception::IllegalInstruction);
    }
    let vstart: u64 = cpu.csr.value_of(csr_index::vstart);
    let done = cpu.vector.exec_elements(f, vd, masked, vstart);
    finish_vector(cpu, done)
}

/// What an instruction does that computes a mask.
#[verifier::opaque]
pub open spec fn mask_step(f: MaskFn, vd: u8, masked: bool, s: CpuState) -> Step {
    let (v, r) = f.applied(s.vector, vd, masked, s.vstart());
    vector_step(s, (s.with_vector(v), r))
}

/// Executes an instruction that computes a mask.
pub fn exec_mask(f: MaskFn, vd: u8, masked: bool, cpu: &mut RVCPU) -> (r: Result<(), Exception>)
    requires
        old(cpu).wf(),
    ensures
        final(cpu).wf(),
        final(cpu)@ == mask_step(f, vd, masked, old(cpu)@).0,
        r == mask_step(f, vd, masked, old(cpu)@).1,
{
    proof {
        reveal(mask_step);
        reveal(vector_step);
    }
    if cpu.csr.get_field(CsrField::Mstatus_vs) == 0 {
        return Err(Exception::IllegalInstruction);
    }
    let vstart: u64 = cpu.csr.value_of(csr_index::vstart);
    let done = cpu.vector.exec_mask(f, vd, masked, vstart);
    finish_vector(cpu, done)
}

/// The rounding mode of fixed-point instructions.
pub fn fixed_point_rounding_mode(cpu: &RVCPU) -> (r: FixedPointRoundingMode)
    requires
        cpu.wf(),
    ensures
        r == cpu@.fixed_point_rounding(),
{
    let bits: u64 = cpu.csr.get_field(CsrField::Vcsr_vxrm);
    let ghost raw = cpu.csr@.value(csr_index::vcsr);
    assert((raw >> 1) & ((((1u64 << 2u64) as int) - 1) as u64) < 4) by (bit_vector);
    FixedPointRoundingMode::from_bits(bits)
}

/// What a fixed-point instruction does.
#[verifier::opaque]
pub open spec fn fixed_point_step(f: FixedOp, vd: u8, masked: bool, s: CpuState) -> Step {
    let (v, r) = f.applied(s.vector, vd, masked, s.vstart(), s.fixed_point_rounding());
    vector_step(
        s,
        match r {
            Ok(saturated) => (s.with_vector(v).saturated_if(saturated), Ok(())),
            Err(e) => (s.with_vector(v), Err(e)),
        },
    )
}

/// Executes a fixed-point instruction.
pub fn exec_fixed_point(f: FixedOp, vd: u8, masked: bool, cpu: &mut RVCPU) -> (r: Result<
    (),
    Exception,
>)
    requires
        old(cpu).wf(),
    ensures
        final(cpu).wf(),
        final(cpu)@ == fixed_point_step(f, vd, masked, old(cpu)@).0,
        r == fixed_point_step(f, vd, masked, old(cpu)@).1,
{
    proof {
        reveal(fixed_point_step);
        reveal(vector_step);
    }
    if cpu.csr.get_field(CsrField::Mstatus_vs) == 0 {
        return Err(Exception::IllegalInstruction);
    }
    let vstart: u64 = cpu.csr.value_of(csr_index::vstart);
    let mode = fixed_point_rounding_mode(cpu);
    match cpu.vector.exec_fixed_point(f, vd, masked, vstart, mode) {
        Ok(saturated) => {
            if saturated {
                proof {
                    file::lemma_complete_field(cpu.csr@, CsrField::Vcsr_vxsat);
                }
                cpu.csr.set_field_directly(CsrField::Vcsr_vxsat, 1);
            }
            finish_vector(cpu, Ok(()))
        },
        Err(e) => Err(e),
    }
}

/// What an integer operation on each element does.
#[verifier::opaque]
pub open spec fn vec_integer_op_step(
    op: AluFn,
    form: VecForm,
    s: CpuState,
    info: RVInstrInfo,
) -> Step {
    match info {
        RVInstrInfo::V { rs1, rs2, rd, vm, .. } => elements_step(
            ElemFn::Alu { op, vs2: rs2, rhs: rhs_of(form, s, rs1) },
            rd,
            !vm,
            s,
        ),
        _ => (s, Ok(())),
    }
}

/// Executes an integer operation on each element.
pub fn vec_integer_op(
    op: AluFn,
    form: VecForm,
    info: RVInstrInfo,
    cpu: &mut RVCPU,
) -> (r: Result<(), Exception>)
    requires
        old(cpu).wf(),
        info.regs_ok(),
        info is V,
    ensures
        final(cpu).wf(),
        final(cpu)@ == vec_integer_op_step(op, form, old(cpu)@, info).0,
        r == vec_integer_op_step(op, form, old(cpu)@, info).1,
{
    proof {
        reveal(vec_integer_op_step);
    }
    if let RVInstrInfo::V { rs1, rs2, rd, vm, func6: _ } = info {
        let f = ElemFn::Alu { op, vs2: rs2, rhs: read_rhs(form, cpu, rs1) };
        exec_elements(f, rd, !vm, cpu)
    } else {
        Ok(())
    }
}

/// What a multiplication and addition on each element does.
#[verifier::opaque]
pub open spec fn vec_mul_add_op_step(
    op: MulAddFn,
    form: VecForm,
    s: CpuState,
    info: RVInstrInfo,
) -> Step {
    match info {
        RVInstrInfo::V { rs1, rs2, rd, vm, .. } => elements_step(
            ElemFn::MulAdd { op, vs2: rs2, rhs: rhs_of(form, s, rs1), vd: rd },
            rd,
            !vm,
            s,
        ),
        _ => (s, Ok(())),
    }
}

/// Executes a multiplication and addition on each element.
pub fn vec_mul_add_op(
    op: MulAddFn,
    form: VecForm,
    info: RVInstrInfo,
    cpu: &mut RVCPU,
) -> (r: Result<(), Exception>)
    requires
        old(cpu).wf(),
        info.regs_ok(),
        info is V,
    ensures
        final(cpu).wf(),
        final(cpu)@ == vec_mul_add_op_step(op, form, old(cpu)@, info).0,
        r == vec_mul_add_op_step(op, form, old(cpu)@, info).1,
{
    proof {
        reveal(vec_mul_add_op_step);
    }
    if let RVInstrInfo::V { rs1, rs2, rd, vm, func6: _ } = info {
        let f = ElemFn::MulAdd { op, vs2: rs2, rhs: read_rhs(form, cpu, rs1), vd: rd };
        exec_elements(f, rd, !vm, cpu)
    } else {
        Ok(())
    }
}

/// What an operation to twice the width does.
#[verifier::opaque]
pub open spec fn vec_widening_integer_op_step(
    op: WidenFn,
    form: VecForm,
    wide: bool,
    s: CpuState,
    info: RVInstrInfo,
) -> Step {
    match info {
        RVInstrInfo::V { rs1, rs2, rd, vm, .. } => elements_step(
            ElemFn::Widen { op, vs2: rs2, rhs: rhs_of(form, s, rs1), wide },
            rd,
            !vm,
            s,
        ),
        _ => (s, Ok(())),
    }
}

/// Executes an operation to twice the width.
pub fn vec_widening_integer_op(
    op: WidenFn,
    form: VecForm,
    wide: bool,
    info: RVInstrInfo,
    cpu: &mut RVCPU,
) -> (r: Result<(), Exception>)
    requires
        old(cpu).wf(),
        info.regs_ok(),
        info is V,
    ensures
        final(cpu).wf(),
        final(cpu)@ == vec_widening_integer_op_step(op, form, wide, old(cpu)@, info).0,
        r == vec_widening_integer_op_step(op, form, wide, old(cpu)@, info).1,
{
    proof {
        reveal(vec_widening_integer_op_step);
    }
    if let RVInstrInfo::V { rs1, rs2, rd, vm, func6: _ } = info {
        let f = ElemFn::Widen { op, vs2: rs2, rhs: read_rhs(form, cpu, rs1), wide };
        exec_elements(f, rd, !vm, cpu)
    } else {
        Ok(())
    }
}

/// What a multiplication and addition to twice the width does.
#[verifier::opaque]
pub open spec fn vec_widening_mul_add_op_step(
    op: WidenMulAddFn,
    form: VecForm,
    s: CpuState,
    info: RVInstrInfo,
) -> Step {
    match info {
        RVInstrInfo::V { rs1, rs2, rd, vm, .. } => elements_step(
            ElemFn::WidenMulAdd { op, vs2: rs2, rhs: rhs_of(form, s, rs1), vd: rd },
            rd,
            !vm,
            s,
        ),
        _ => (s, Ok(())),
    }
}

/// Executes a multiplication and addition to twice the width.
pub fn vec_widening_mul_add_op(
    op: WidenMulAddFn,
    form: VecForm,
    info: RVInstrInfo,
    cpu: &mut RVCPU,
) -> (r: Result<(), Exception>)
    requires
        old(cpu).wf(),
        info.regs_ok(),
        info is V,
    ensures
        final(cpu).wf(),
        final(cpu)@ == vec_widening_mul_add_op_step(op, form, old(cpu)@, info).0,
        r == vec_widening_mul_add_op_step(op, form, old(cpu)@, info).1,
{
    proof {
        reveal(vec_widening_mul_add_op_step);
    }
    if let RVInstrInfo::V { rs1, rs2, rd, vm, func6: _ } = info {
        let f = ElemFn::WidenMulAdd { op, vs2: rs2, rhs: read_rhs(form, cpu, rs1), vd: rd };
        exec_elements(f, rd, !vm, cpu)
    } else {
        Ok(())
    }
}

/// What an addition or subtraction with the carries in register 0 does.
#[verifier::opaque]
pub open spec fn vec_carry_op_step(
    subtract: bool,
    form: VecForm,
    s: CpuState,
    info: RVInstrInfo,
) -> Step {
    match info {
        RVInstrInfo::V { rs1, rs2, rd, .. } => elements_step(
            ElemFn::Carry { subtract, vs2: rs2, rhs: rhs_of(form, s, rs1) },
            rd,
            false,
            s,
        ),
        _ => (s, Ok(())),
    }
}

/// Executes an addition or subtraction with the carries in register 0.
pub fn vec_carry_op(
    subtract: bool,
    form: VecForm,
    info: RVInstrInfo,
    cpu: &mut RVCPU,
) -> (r: Result<(), Exception>)
    requires
        old(cpu).wf(),
        info.regs_ok(),
        info is V,
    ensures
        final(cpu).wf(),
        final(cpu)@ == vec_carry_op_step(subtract, form, old(cpu)@, info).0,
        r == vec_carry_op_step(subtract, form, old(cpu)@, info).1,
{
    proof {
        reveal(vec_carry_op_step);
    }
    if let RVInstrInfo::V { rs1, rs2, rd, vm: _, func6: _ } = info {
        let f = ElemFn::Carry { subtract, vs2: rs2, rhs: read_rhs(form, cpu, rs1) };
        exec_elements(f, rd, false, cpu)
    } else {
        Ok(())
    }
}

/// What a choice by the mask in register 0 does.
#[verifier::opaque]
pub open spec fn vec_merge_op_step(form: VecForm, s: CpuState, info: RVInstrInfo) -> Step {
    match info {
        RVInstrInfo::V { rs1, rs2, rd, .. } => elements_step(
            ElemFn::Merge { vs2: rs2, rhs: rhs_of(form, s, rs1) },
            rd,
            false,
            s,
        ),
        _ => (s, Ok(())),
    }
}

/// Executes a choice by the mask in register 0.
pub fn vec_merge_op(form: VecForm, info: RVInstrInfo, cpu: &mut RVCPU) -> (r: Result<(), Exception>)
    requires
        old(cpu).wf(),
        info.regs_ok(),
        info is V,
    ensures
        final(cpu).wf(),
        final(cpu)@ == vec_merge_op_step(form, old(cpu)@, info).0,
        r == vec_merge_op_step(form, old(cpu)@, info).1,
{
    proof {
        reveal(vec_merge_op_step);
    }
    if let RVInstrInfo::V { rs1, rs2, rd, vm: _, func6: _ } = info {
        let f = ElemFn::Merge { vs2: rs2, rhs: read_rhs(form, cpu, rs1) };
        exec_elements(f, rd, false, cpu)
    } else {
        Ok(())
    }
}

/// What a comparison of elements does.
#[verifier::opaque]
pub open spec fn vec_integer_mask_op_step(
    op: MaskRelation,
    form: VecForm,
    s: CpuState,
    info: RVInstrInfo,
) -> Step {
    match info {
        RVInstrInfo::V { rs1, rs2, rd, vm, .. } => mask_step(
            MaskFn::Compare { op, vs2: rs2, rhs: rhs_of(form, s, rs1) },
            rd,
            !vm,
            s,
        ),
        _ => (s, Ok(())),
    }
}

/// Executes a comparison of elements.
pub fn vec_integer_mask_op(
    op: MaskRelation,
    form: VecForm,
    info: RVInstrInfo,
    cpu: &mut RVCPU,
) -> (r: Result<(), Exception>)
    requires
        old(cpu).wf(),
        info.regs_ok(),
        info is V,
    ensures
        final(cpu).wf(),
        final(cpu)@ == vec_integer_mask_op_step(op, form, old(cpu)@, info).0,
        r == vec_integer_mask_op_step(op, form, old(cpu)@, info).1,
{
    proof {
        reveal(vec_integer_mask_op_step);
    }
    if let RVInstrInfo::V { rs1, rs2, rd, vm, func6: _ } = info {
        let f = MaskFn::Compare { op, vs2: rs2, rhs: read_rhs(form, cpu, rs1) };
        exec_mask(f, rd, !vm, cpu)
    } else {
        Ok(())
    }
}

/// What a computation of carries does.
#[verifier::opaque]
pub open spec fn vec_carry_out_op_step(
    subtract: bool,
    form: VecForm,
    s: CpuState,
    info: RVInstrInfo,
) -> Step {
    match info {
        RVInstrInfo::V { rs1, rs2, rd, vm, .. } => mask_step(
            MaskFn::CarryOut { subtract, vs2: rs2, rhs: rhs_of(form, s, rs1), with: false },
            rd,
            !vm,
            s,
        ),
        _ => (s, Ok(())),
    }
}

/// Executes a computation of carries.
pub fn vec_carry_out_op(
    subtract: bool,
    form: VecForm,
    info: RVInstrInfo,
    cpu: &mut RVCPU,
) -> (r: Result<(), Exception>)
    requires
        old(cpu).wf(),
        info.regs_ok(),
        info is V,
    ensures
        final(cpu).wf(),
        final(cpu)@ == vec_carry_out_op_step(subtract, form, old(cpu)@, info).0,
        r == vec_carry_out_op_step(subtract, form, old(cpu)@, info).1,
{
    proof {
        reveal(vec_carry_out_op_step);
    }
    if let RVInstrInfo::V { rs1, rs2, rd, vm, func6: _ } = info {
        let f = MaskFn::CarryOut { subtract, vs2: rs2, rhs: read_rhs(form, cpu, rs1), with: false };
        exec_mask(f, rd, !vm, cpu)
    } else {
        Ok(())
    }
}

/// What a fixed-point operation on each element does.
#[verifier::opaque]
pub open spec fn vec_fixed_point_op_step(
    op: FixedFn,
    form: VecForm,
    s: CpuState,
    info: RVInstrInfo,
) -> Step {
    match info {
        RVInstrInfo::V { rs1, rs2, rd, vm, .. } => fixed_point_step(
            FixedOp::Single { op, vs2: rs2, rhs: rhs_of(form, s, rs1) },
            rd,
            !vm,
            s,
        ),
        _ => (s, Ok(())),
    }
}

/// Executes a fixed-point operation on each element.
pub fn vec_fixed_point_op(
    op: FixedFn,
    form: VecForm,
    info: RVInstrInfo,
    cpu: &mut RVCPU,
) -> (r: Result<(), Exception>)
    requires
        old(cpu).wf(),
        info.regs_ok(),
        info is V,
    ensures
        final(cpu).wf(),
        final(cpu)@ == vec_fixed_point_op_step(op, form, old(cpu)@, info).0,
        r == vec_fixed_point_op_step(op, form, old(cpu)@, info).1,
{
    proof {
        reveal(vec_fixed_point_op_step);
    }
    if let RVInstrInfo::V { rs1, rs2, rd, vm, func6: _ } = info {
        let f = FixedOp::Single { op, vs2: rs2, rhs: read_rhs(form, cpu, rs1) };
        exec_fixed_point(f, rd, !vm, cpu)
    } else {
        Ok(())
    }
}

/// What a fixed-point operation to half the width does.
#[verifier::opaque]
pub open spec fn vec_fixed_point_narrowing_op_step(
    signed: bool,
    form: VecForm,
    s: CpuState,
    info: RVInstrInfo,
) -> Step {
    match info {
        RVInstrInfo::V { rs1, rs2, rd, vm, .. } => fixed_point_step(
            FixedOp::Clip { signed, vs2: rs2, rhs: rhs_of(form, s, rs1) },
            rd,
            !vm,
            s,
        ),
        _ => (s, Ok(())),
    }
}

/// Executes a fixed-point operation to half the width.
pub fn vec_fixed_point_narrowing_op(
    signed: bool,
    form: VecForm,
    info: RVInstrInfo,
    cpu: &mut RVCPU,
) -> (r: Result<(), Exception>)
    requires
        old(cpu).wf(),
        info.regs_ok(),
        info is V,
    ensures
        final(cpu).wf(),
        final(cpu)@ == vec_fixed_point_narrowing_op_step(signed, form, old(cpu)@, info).0,
        r == vec_fixed_point_narrowing_op_step(signed, form, old(cpu)@, info).1,
{
    proof {
        reveal(vec_fixed_point_narrowing_op_step);
    }
    if let RVInstrInfo::V { rs1, rs2, rd, vm, func6: _ } = info {
        let f = FixedOp::Clip { signed, vs2: rs2, rhs: read_rhs(form, cpu, rs1) };
        exec_fixed_point(f, rd, !vm, cpu)
    } else {
        Ok(())
    }
}

/// What an operation on masks does.
#[verifier::opaque]
pub open spec fn vec_bit_op_step(op: MaskLogic, s: CpuState, info: RVInstrInfo) -> Step {
    match info {
        RVInstrInfo::V { rs1, rs2, rd, vm, .. } => mask_step(
            MaskFn::Logic { op, vs2: rs2, vs1: rs1 },
            rd,
            !vm,
            s,
        ),
        _ => (s, Ok(())),
    }
}

/// Executes an operation on masks.
pub fn vec_bit_op(op: MaskLogic, info: RVInstrInfo, cpu: &mut RVCPU) -> (r: Result<(), Exception>)
    requires
        old(cpu).wf(),
        info.regs_ok(),
        info is V,
    ensures
        final(cpu).wf(),
        final(cpu)@ == vec_bit_op_step(op, old(cpu)@, info).0,
        r == vec_bit_op_step(op, old(cpu)@, info).1,
{
    proof {
        reveal(vec_bit_op_step);
    }
    if let RVInstrInfo::V { rs1, rs2, rd, vm, func6: _ } = info {
        let f = MaskFn::Logic { op, vs2: rs2, vs1: rs1 };
        exec_mask(f, rd, !vm, cpu)
    } else {
        Ok(())
    }
}

/// What an extension of elements does.
#[verifier::opaque]
pub open spec fn vec_integer_ext_op_step(
    signed: bool,
    factor: u8,
    s: CpuState,
    info: RVInstrInfo,
) -> Step {
    match info {
        RVInstrInfo::V { rs2, rd, vm, .. } => elements_step(
            ElemFn::Extend { signed, factor, vs2: rs2 },
            rd,
            !vm,
            s,
        ),
        _ => (s, Ok(())),
    }
}

/// Executes an extension of elements.
pub fn vec_integer_ext_op(
    signed: bool,
    factor: u8,
    info: RVInstrInfo,
    cpu: &mut RVCPU,
) -> (r: Result<(), Exception>)
    requires
        old(cpu).wf(),
        info.regs_ok(),
        info is V,
    ensures
        final(cpu).wf(),
        final(cpu)@ == vec_integer_ext_op_step(signed, factor, old(cpu)@, info).0,
        r == vec_integer_ext_op_step(signed, factor, old(cpu)@, info).1,
{
    proof {
        reveal(vec_integer_ext_op_step);
    }
    if let RVInstrInfo::V { rs1: _, rs2, rd, vm, func6: _ } = info {
        let f = ElemFn::Extend { signed, factor, vs2: rs2 };
        exec_elements(f, rd, !vm, cpu)
    } else {
        Ok(())
    }
}

/// What the settings of the vector unit are that an instruction asks for: the type and the number
/// of elements.
pub open spec fn config_request(form: VectorConfigForm, s: CpuState, info: RVInstrInfo) -> (
    u64,
    u64,
) {
    match info {
        RVInstrInfo::V { rs1, rs2, vm, func6, .. } => {
            let imm = func6 * 64 + (if vm {
                32int
            } else {
                0
            }) + rs2;
            match form {
                VectorConfigForm::Vsetivli => ((imm % 1024) as u64, rs1 as u64),
                VectorConfigForm::Vsetvli => ((imm % 2048) as u64, s.reg(rs1)),
                VectorConfigForm::Vsetvl => (s.reg(rs2), s.reg(rs1)),
            }
        },
        _ => (0, 0),
    }
}

fn read_config_request(form: VectorConfigForm, cpu: &RVCPU, info: RVInstrInfo) -> (r: (u64, u64))
    requires
        info.regs_ok(),
    ensures
        r == config_request(form, cpu@, info),
{
    if let RVInstrInfo::V { rs1, rs2, rd: _, vm, func6 } = info {
        let imm: u64 = func6 as u64 * 64 + (if vm {
            32
        } else {
            0
        }) + rs2 as u64;
        match form {
            VectorConfigForm::Vsetivli => (imm % 1024, rs1 as u64),
            VectorConfigForm::Vsetvli => (imm % 2048, cpu.read_reg(rs1)),
            VectorConfigForm::Vsetvl => (cpu.read_reg(rs2), cpu.read_reg(rs1)),
        }
    } else {
        (0, 0)
    }
}

impl CpuState {
    /// The state after the vector unit is set to a type, with `len` elements or as many as fit.
    pub open spec fn configured(
        self,
        rd: u8,
        config: VectorConfig,
        vtype: u64,
        len: u64,
    ) -> CpuState {
        let vl = if len < config.vl {
            len
        } else {
            config.vl as u64
        };
        CpuState {
            csr: self.csr.with_value(csr_index::vtype, vtype).with_value(csr_index::vl, vl),
            vector: VectorState {
                config: VectorConfig { vl: vl as u16, ..config },
                ..self.vector
            },
            ..self
        }.with_reg(rd, vl)
    }
}

/// What an instruction does that sets the vector unit up. A type that the unit does not have is
/// illegal, and leaves 0 in the register.
#[verifier::opaque]
pub open spec fn vector_config_step(
    form: VectorConfigForm,
    s: CpuState,
    info: RVInstrInfo,
) -> Step {
    match info {
        RVInstrInfo::V { rd, .. } => {
            let (vtype, len) = config_request(form, s, info);
            vector_step(
                s,
                match VectorConfig::of_vtype(vtype) {
                    Some(config) => (s.configured(rd, config, vtype, len), Ok(())),
                    None => (s.with_reg(rd, 0), Err(Exception::IllegalInstruction)),
                },
            )
        },
        _ => (s, Ok(())),
    }
}

/// Executes an instruction that sets the vector unit up.
pub fn exec_vector_config(form: VectorConfigForm, info: RVInstrInfo, cpu: &mut RVCPU) -> (r: Result<
    (),
    Exception,
>)
    requires
        old(cpu).wf(),
        info.regs_ok(),
        info is V,
    ensures
        final(cpu).wf(),
        final(cpu)@ == vector_config_step(form, old(cpu)@, info).0,
        r == vector_config_step(form, old(cpu)@, info).1,
{
    proof {
        reveal(vector_config_step);
        reveal(vector_step);
    }
    if let RVInstrInfo::V { rs1: _, rs2: _, rd, vm: _, func6: _ } = info {
        if cpu.csr.get_field(CsrField::Mstatus_vs) == 0 {
            return Err(Exception::IllegalInstruction);
        }
        let (vtype, len) = read_config_request(form, cpu, info);
        match VectorConfig::from_vtype(vtype) {
            Some(config) => {
                let vl: u64 = if len < config.vl as u64 {
                    len
                } else {
                    config.vl as u64
                };
                let _ = cpu.csr.write_directly(csr_index::vtype, vtype);
                let _ = cpu.csr.write_directly(csr_index::vl, vl);
                cpu.vector.set_config(VectorConfig { vl: vl as u16, ..config });
                cpu.write_reg(rd, vl);
                finish_vector(cpu, Ok(()))
            },
            None => {
                cpu.write_reg(rd, 0);
                Err(Exception::IllegalInstruction)
            },
        }
    } else {
        Ok(())
    }
}

/// What a load of elements does.
#[verifier::opaque]
pub open spec fn vector_load_step(access: VectorAccess, s: CpuState) -> Step {
    let (v, r) = access.load_effect(s.vector, s.vm.phys);
    vector_step(s, s.with_vector(v).vector_access(r))
}

/// Loads elements.
pub fn exec_vector_load(access: VectorAccess, cpu: &mut RVCPU) -> (r: Result<(), Exception>)
    requires
        old(cpu).wf(),
    ensures
        final(cpu).wf(),
        final(cpu)@ == vector_load_step(access, old(cpu)@).0,
        r == vector_load_step(access, old(cpu)@).1,
{
    proof {
        reveal(vector_load_step);
        reveal(vector_step);
    }
    if cpu.csr.get_field(CsrField::Mstatus_vs) == 0 {
        return Err(Exception::IllegalInstruction);
    }
    let done = cpu.vector.exec_load(access, &cpu.memory.mmio);
    finish_vector_memory_access(cpu, done)
}

/// What a store of elements does.
#[verifier::opaque]
pub open spec fn vector_store_step(access: VectorAccess, s: CpuState) -> Step {
    let (m, r) = access.store_effect(s.vector, s.vm.phys);
    vector_step(s, s.with_phys(m).vector_access(r))
}

/// Stores elements.
pub fn exec_vector_store(access: VectorAccess, cpu: &mut RVCPU) -> (r: Result<(), Exception>)
    requires
        old(cpu).wf(),
    ensures
        final(cpu).wf(),
        final(cpu)@ == vector_store_step(access, old(cpu)@).0,
        r == vector_store_step(access, old(cpu)@).1,
{
    proof {
        reveal(vector_store_step);
        reveal(vector_step);
    }
    if cpu.csr.get_field(CsrField::Mstatus_vs) == 0 {
        return Err(Exception::IllegalInstruction);
    }
    let done = cpu.vector.exec_store(access, &mut cpu.memory.mmio);
    finish_vector_memory_access(cpu, done)
}

/// The access of a load or store of fields one after the other.
pub open spec fn unit_access(eew: Vsew, s: CpuState, info: RVInstrInfo) -> VectorAccess {
    VectorAccess { addressing: Addressing::Unit, ..segment_access(eew.spec_width(), s, info) }
}

/// The access of a load or store of segments a number of bytes apart.
pub open spec fn stride_access(eew: Vsew, s: CpuState, info: RVInstrInfo) -> VectorAccess {
    VectorAccess {
        addressing: Addressing::Stride(s.reg(info->V_rs2)),
        ..segment_access(eew.spec_width(), s, info)
    }
}

/// The access of a load or store of fields at offsets that memory holds.
pub open spec fn indexed_access(eew: Vsew, s: CpuState, info: RVInstrInfo) -> VectorAccess {
    VectorAccess {
        addressing: Addressing::Indexed { array: s.reg(info->V_rs2), width: eew.spec_width() },
        ..segment_access(s.vector.sew(), s, info)
    }
}

/// What the accesses have in common: the number of fields of a segment is a part of the
/// instruction.
pub open spec fn segment_access(w: Width, s: CpuState, info: RVInstrInfo) -> VectorAccess {
    VectorAccess {
        reg: info->V_rd,
        width: w,
        segments: (info->V_func6 / 8 + 1) as u8,
        addressing: Addressing::Unit,
        masked: !info->V_vm,
        vstart: s.vstart(),
        base: s.reg(info->V_rs1),
    }
}

/// Describes the access of an instruction; `addressing` tells the three kinds apart.
fn read_access(
    w: Width,
    addressing: Addressing,
    cpu: &RVCPU,
    info: RVInstrInfo,
) -> (r: VectorAccess)
    requires
        cpu.wf(),
        info.regs_ok(),
        info is V,
    ensures
        r == (VectorAccess { addressing, ..segment_access(w, cpu@, info) }),
{
    if let RVInstrInfo::V { rs1, rs2: _, rd, vm, func6 } = info {
        VectorAccess {
            reg: rd,
            width: w,
            segments: func6 / 8 + 1,
            addressing,
            masked: !vm,
            vstart: cpu.csr.value_of(csr_index::vstart),
            base: cpu.read_reg(rs1),
        }
    } else {
        VectorAccess {
            reg: 0,
            width: w,
            segments: 1,
            addressing,
            masked: false,
            vstart: 0,
            base: 0,
        }
    }
}

fn second_register(cpu: &RVCPU, info: RVInstrInfo) -> (r: u64)
    requires
        info.regs_ok(),
        info is V,
    ensures
        r == cpu@.reg(info->V_rs2),
{
    if let RVInstrInfo::V { rs1: _, rs2, rd: _, vm: _, func6: _ } = info {
        cpu.read_reg(rs2)
    } else {
        0
    }
}

/// Executes a load of fields one after the other.
pub fn vector_unit_stride_load(
    eew: Vsew,
    info: RVInstrInfo,
    cpu: &mut RVCPU,
) -> (r: Result<(), Exception>)
    requires
        old(cpu).wf(),
        info.regs_ok(),
        info is V,
    ensures
        final(cpu).wf(),
        final(cpu)@ == vector_load_step(unit_access(eew, old(cpu)@, info), old(cpu)@).0,
        r == vector_load_step(unit_access(eew, old(cpu)@, info), old(cpu)@).1,
{
    let addressing = Addressing::Unit;
    let access = read_access(eew.width(), addressing, cpu, info);
    exec_vector_load(access, cpu)
}

/// Executes a load of segments a number of bytes apart.
pub fn vector_constant_stride_load(
    eew: Vsew,
    info: RVInstrInfo,
    cpu: &mut RVCPU,
) -> (r: Result<(), Exception>)
    requires
        old(cpu).wf(),
        info.regs_ok(),
        info is V,
    ensures
        final(cpu).wf(),
        final(cpu)@ == vector_load_step(stride_access(eew, old(cpu)@, info), old(cpu)@).0,
        r == vector_load_step(stride_access(eew, old(cpu)@, info), old(cpu)@).1,
{
    let addressing = Addressing::Stride(second_register(cpu, info));
    let access = read_access(eew.width(), addressing, cpu, info);
    exec_vector_load(access, cpu)
}

/// Executes a load of fields at offsets that memory holds.
pub fn vector_indexed_ordered_load(
    eew: Vsew,
    info: RVInstrInfo,
    cpu: &mut RVCPU,
) -> (r: Result<(), Exception>)
    requires
        old(cpu).wf(),
        info.regs_ok(),
        info is V,
    ensures
        final(cpu).wf(),
        final(cpu)@ == vector_load_step(indexed_access(eew, old(cpu)@, info), old(cpu)@).0,
        r == vector_load_step(indexed_access(eew, old(cpu)@, info), old(cpu)@).1,
{
    let addressing = Addressing::Indexed { array: second_register(cpu, info), width: eew.width() };
    let access = read_access(cpu.vector.config.vsew.width(), addressing, cpu, info);
    exec_vector_load(access, cpu)
}

/// Executes a store of fields one after the other.
pub fn vector_unit_stride_store(
    eew: Vsew,
    info: RVInstrInfo,
    cpu: &mut RVCPU,
) -> (r: Result<(), Exception>)
    requires
        old(cpu).wf(),
        info.regs_ok(),
        info is V,
    ensures
        final(cpu).wf(),
        final(cpu)@ == vector_store_step(unit_access(eew, old(cpu)@, info), old(cpu)@).0,
        r == vector_store_step(unit_access(eew, old(cpu)@, info), old(cpu)@).1,
{
    let addressing = Addressing::Unit;
    let access = read_access(eew.width(), addressing, cpu, info);
    exec_vector_store(access, cpu)
}

/// Executes a store of segments a number of bytes apart.
pub fn vector_constant_stride_store(
    eew: Vsew,
    info: RVInstrInfo,
    cpu: &mut RVCPU,
) -> (r: Result<(), Exception>)
    requires
        old(cpu).wf(),
        info.regs_ok(),
        info is V,
    ensures
        final(cpu).wf(),
        final(cpu)@ == vector_store_step(stride_access(eew, old(cpu)@, info), old(cpu)@).0,
        r == vector_store_step(stride_access(eew, old(cpu)@, info), old(cpu)@).1,
{
    let addressing = Addressing::Stride(second_register(cpu, info));
    let access = read_access(eew.width(), addressing, cpu, info);
    exec_vector_store(access, cpu)
}

/// Executes a store of fields at offsets that memory holds.
pub fn vector_indexed_ordered_store(
    eew: Vsew,
    info: RVInstrInfo,
    cpu: &mut RVCPU,
) -> (r: Result<(), Exception>)
    requires
        old(cpu).wf(),
        info.regs_ok(),
        info is V,
    ensures
        final(cpu).wf(),
        final(cpu)@ == vector_store_step(indexed_access(eew, old(cpu)@, info), old(cpu)@).0,
        r == vector_store_step(indexed_access(eew, old(cpu)@, info), old(cpu)@).1,
{
    let addressing = Addressing::Indexed { array: second_register(cpu, info), width: eew.width() };
    let access = read_access(cpu.vector.config.vsew.width(), addressing, cpu, info);
    exec_vector_store(access, cpu)
}

/// What an instruction does that the unit refuses.
pub open spec fn refused_step(s: CpuState) -> Step {
    (s, Err(Exception::IllegalInstruction))
}

/// Refuses an instruction that the unit does not have: loads that stop at the first fault, and
/// accesses in an arbitrary order.
pub fn exec_vector_missing(cpu: &mut RVCPU) -> (r: Result<(), Exception>)
    ensures
        *final(cpu) == *old(cpu),
        r == refused_step(old(cpu)@).1,
{
    Err(Exception::IllegalInstruction)
}

/// What a load of whole registers does.
#[verifier::opaque]
pub open spec fn vector_whole_register_load_step(s: CpuState, info: RVInstrInfo) -> Step {
    let (x, r) = s.vector.whole_loaded(
        info->V_rd, info->V_func6 / 8,
        s.vstart(),
        s.reg(info->V_rs1),
        s.vm.phys,
    );
    vector_step(s, s.with_vector(x).vector_access(r))
}

/// Executes a load of whole registers.
pub fn vector_whole_register_load(info: RVInstrInfo, cpu: &mut RVCPU) -> (r: Result<(), Exception>)
    requires
        old(cpu).wf(),
        info.regs_ok(),
        info is V,
    ensures
        final(cpu).wf(),
        final(cpu)@ == vector_whole_register_load_step(old(cpu)@, info).0,
        r == vector_whole_register_load_step(old(cpu)@, info).1,
{
    proof {
        reveal(vector_step);
        reveal(vector_whole_register_load_step);
    }
    if let RVInstrInfo::V { rs1, rs2: _, rd, vm: _, func6 } = info {
        if cpu.csr.get_field(CsrField::Mstatus_vs) == 0 {
            return Err(Exception::IllegalInstruction);
        }
        let vstart: u64 = cpu.csr.value_of(csr_index::vstart);
        let base: u64 = cpu.read_reg(rs1);
        let done = cpu.vector.load_whole_register(rd, func6 / 8, vstart, base, &cpu.memory.mmio);
        finish_vector_memory_access(cpu, done)
    } else {
        Ok(())
    }
}

/// What a store of whole registers does.
#[verifier::opaque]
pub open spec fn vector_whole_register_store_step(s: CpuState, info: RVInstrInfo) -> Step {
    let (x, r) = s.vector.whole_stored(
        info->V_rd, info->V_func6 / 8,
        s.vstart(),
        s.reg(info->V_rs1),
        s.vm.phys,
    );
    vector_step(s, s.with_phys(x).vector_access(r))
}

/// Executes a store of whole registers.
pub fn vector_whole_register_store(info: RVInstrInfo, cpu: &mut RVCPU) -> (r: Result<(), Exception>)
    requires
        old(cpu).wf(),
        info.regs_ok(),
        info is V,
    ensures
        final(cpu).wf(),
        final(cpu)@ == vector_whole_register_store_step(old(cpu)@, info).0,
        r == vector_whole_register_store_step(old(cpu)@, info).1,
{
    proof {
        reveal(vector_step);
        reveal(vector_whole_register_store_step);
    }
    if let RVInstrInfo::V { rs1, rs2: _, rd, vm: _, func6 } = info {
        if cpu.csr.get_field(CsrField::Mstatus_vs) == 0 {
            return Err(Exception::IllegalInstruction);
        }
        let vstart: u64 = cpu.csr.value_of(csr_index::vstart);
        let base: u64 = cpu.read_reg(rs1);
        let done = cpu.vector.store_whole_register(
            rd,
            func6 / 8,
            vstart,
            base,
            &mut cpu.memory.mmio,
        );
        finish_vector_memory_access(cpu, done)
    } else {
        Ok(())
    }
}

/// What a load of a mask does.
#[verifier::opaque]
pub open spec fn vector_mask_load_step(s: CpuState, info: RVInstrInfo) -> Step {
    let (x, r) = s.vector.mask_loaded(
        info->V_rd,
        s.vstart(),
        s.reg(info->V_rs1),
        s.vm.phys,
    );
    vector_step(s, s.with_vector(x).vector_access(r))
}

/// Executes a load of a mask.
pub fn vector_mask_load(info: RVInstrInfo, cpu: &mut RVCPU) -> (r: Result<(), Exception>)
    requires
        old(cpu).wf(),
        info.regs_ok(),
        info is V,
    ensures
        final(cpu).wf(),
        final(cpu)@ == vector_mask_load_step(old(cpu)@, info).0,
        r == vector_mask_load_step(old(cpu)@, info).1,
{
    proof {
        reveal(vector_step);
        reveal(vector_mask_load_step);
    }
    if let RVInstrInfo::V { rs1, rs2: _, rd, vm: _, func6: _ } = info {
        if cpu.csr.get_field(CsrField::Mstatus_vs) == 0 {
            return Err(Exception::IllegalInstruction);
        }
        let vstart: u64 = cpu.csr.value_of(csr_index::vstart);
        let base: u64 = cpu.read_reg(rs1);
        let done = cpu.vector.mask_load(rd, vstart, base, &cpu.memory.mmio);
        finish_vector_memory_access(cpu, done)
    } else {
        Ok(())
    }
}

/// What a store of a mask does.
#[verifier::opaque]
pub open spec fn vector_mask_store_step(s: CpuState, info: RVInstrInfo) -> Step {
    let (x, r) = s.vector.mask_stored(
        info->V_rd,
        s.vstart(),
        s.reg(info->V_rs1),
        s.vm.phys,
    );
    vector_step(s, s.with_phys(x).vector_access(r))
}

/// Executes a store of a mask.
pub fn vector_mask_store(info: RVInstrInfo, cpu: &mut RVCPU) -> (r: Result<(), Exception>)
    requires
        old(cpu).wf(),
        info.regs_ok(),
        info is V,
    ensures
        final(cpu).wf(),
        final(cpu)@ == vector_mask_store_step(old(cpu)@, info).0,
        r == vector_mask_store_step(old(cpu)@, info).1,
{
    proof {
        reveal(vector_step);
        reveal(vector_mask_store_step);
    }
    if let RVInstrInfo::V { rs1, rs2: _, rd, vm: _, func6: _ } = info {
        if cpu.csr.get_field(CsrField::Mstatus_vs) == 0 {
            return Err(Exception::IllegalInstruction);
        }
        let vstart: u64 = cpu.csr.value_of(csr_index::vstart);
        let base: u64 = cpu.read_reg(rs1);
        let done = cpu.vector.mask_store(rd, vstart, base, &mut cpu.memory.mmio);
        finish_vector_memory_access(cpu, done)
    } else {
        Ok(())
    }
}

/// What a move of `count` whole registers does.
#[verifier::opaque]
pub open spec fn vec_whole_register_move_step(count: u8, s: CpuState, info: RVInstrInfo) -> Step {
    match info {
        RVInstrInfo::V { rs1, rs2, rd, .. } => {
            let (v, r) = s.vector.with_registers(rs2, rd, count, s.vstart());
            vector_step(
                s,
                if rs1 + 1 == count {
                    (s.with_vector(v), r)
                } else {
                    (s, Err(Exception::IllegalInstruction))
                },
            )
        },
        _ => (s, Ok(())),
    }
}

/// Executes a move of `count` whole registers, whose first field has to be one less.
pub fn vec_whole_register_move_op_v(count: u8, info: RVInstrInfo, cpu: &mut RVCPU) -> (r: Result<
    (),
    Exception,
>)
    requires
        old(cpu).wf(),
        info.regs_ok(),
        info is V,
    ensures
        final(cpu).wf(),
        final(cpu)@ == vec_whole_register_move_step(count, old(cpu)@, info).0,
        r == vec_whole_register_move_step(count, old(cpu)@, info).1,
{
    proof {
        reveal(vec_whole_register_move_step);
        reveal(vector_step);
    }
    if let RVInstrInfo::V { rs1, rs2, rd, vm: _, func6: _ } = info {
        if cpu.csr.get_field(CsrField::Mstatus_vs) == 0 || rs1 + 1 != count {
            return Err(Exception::IllegalInstruction);
        }
        let vstart: u64 = cpu.csr.value_of(csr_index::vstart);
        let done = cpu.vector.exec_whole_register_move(rs2, rd, count, vstart);
        finish_vector(cpu, done)
    } else {
        Ok(())
    }
}

/// What an instruction does that reads a number from the unit to a register.
#[verifier::opaque]
pub open spec fn number_step(value: Result<u64, Exception>, rd: u8, s: CpuState) -> Step {
    vector_step(
        s,
        match value {
            Ok(v) => (s.with_reg(rd, v), Ok(())),
            Err(e) => (s, Err(e)),
        },
    )
}

fn finish_number(value: Result<u64, Exception>, rd: u8, cpu: &mut RVCPU) -> (r: Result<
    (),
    Exception,
>)
    requires
        old(cpu).wf(),
        rd < 32,
        old(cpu)@.csr.field(CsrField::Mstatus_vs) != 0,
    ensures
        final(cpu).wf(),
        final(cpu)@ == number_step(value, rd, old(cpu)@).0,
        r == number_step(value, rd, old(cpu)@).1,
{
    proof {
        reveal(number_step);
        reveal(vector_step);
    }
    match value {
        Ok(v) => {
            cpu.write_reg(rd, v);
            finish_vector(cpu, Ok(()))
        },
        Err(e) => Err(e),
    }
}

/// What an instruction with legality or operands of its own does.
#[verifier::opaque]
pub open spec fn vec_integer_spec_step(
    instr: VectorSpecInstr,
    s: CpuState,
    info: RVInstrInfo,
) -> Step {
    match info {
        RVInstrInfo::V { rs1, rs2, rd, vm, .. } => {
            let imm = utils::sign_extended(rs1 as u64, 5);
            match instr {
                VectorSpecInstr::SLIDEUP_VI => elements_step(
                    ElemFn::SlideUp { offset: rs1 as u64, vs2: rs2 },
                    rd,
                    !vm,
                    s,
                ),
                VectorSpecInstr::SLIDEUP_VX => if rd == rs2 {
                    refused_step(s)
                } else {
                    elements_step(
                    ElemFn::SlideUp { offset: s.reg(rs1), vs2: rs2 },
                    rd,
                    !vm,
                    s,
                )
                },
                VectorSpecInstr::SLIDEDOWN_VI => elements_step(
                    ElemFn::SlideDown { offset: rs1 as u64, vs2: rs2 },
                    rd,
                    !vm,
                    s,
                ),
                VectorSpecInstr::SLIDEDOWN_VX => elements_step(
                    ElemFn::SlideDown { offset: s.reg(rs1), vs2: rs2 },
                    rd,
                    !vm,
                    s,
                ),
                VectorSpecInstr::SLIDE1UP_VX => elements_step(
                    ElemFn::Slide1Up { x: s.reg(rs1), vs2: rs2 },
                    rd,
                    !vm,
                    s,
                ),
                VectorSpecInstr::SLIDE1DOWN_VX => elements_step(
                    ElemFn::Slide1Down { x: s.reg(rs1), vs2: rs2 },
                    rd,
                    !vm,
                    s,
                ),
                VectorSpecInstr::GATHER_VV => if rd == rs2 || rd == rs1 {
                    refused_step(s)
                } else {
                    elements_step(
                    ElemFn::Gather { vs2: rs2, vs1: rs1 },
                    rd,
                    !vm,
                    s,
                )
                },
                VectorSpecInstr::GATHER_VX => if rd == rs2 {
                    refused_step(s)
                } else {
                    elements_step(
                    ElemFn::GatherOne { vs2: rs2, index: s.reg(rs1) },
                    rd,
                    !vm,
                    s,
                )
                },
                VectorSpecInstr::GATHER_VI => if rd == rs2 {
                    refused_step(s)
                } else {
                    elements_step(
                    ElemFn::GatherOne { vs2: rs2, index: rs1 as u64 },
                    rd,
                    !vm,
                    s,
                )
                },
                VectorSpecInstr::GATHER_EI16_VV => if rd == rs2 || rd == rs1 {
                    refused_step(s)
                } else {
                    elements_step(
                    ElemFn::GatherEi16 { vs2: rs2, vs1: rs1 },
                    rd,
                    !vm,
                    s,
                )
                },
                VectorSpecInstr::MOVE_V => if rs2 != 0 {
                    refused_step(s)
                } else {
                    elements_step(
                    ElemFn::Move { rhs: Rhs::Reg(rs1) },
                    rd,
                    false,
                    s,
                )
                },
                VectorSpecInstr::MOVE_VX => if rs2 != 0 {
                    refused_step(s)
                } else {
                    elements_step(
                    ElemFn::Move { rhs: Rhs::Scalar(s.reg(rs1)) },
                    rd,
                    false,
                    s,
                )
                },
                VectorSpecInstr::MOVE_VI => if rs2 != 0 {
                    refused_step(s)
                } else {
                    elements_step(
                    ElemFn::Move { rhs: Rhs::Scalar(imm) },
                    rd,
                    false,
                    s,
                )
                },
                VectorSpecInstr::NSRL_WV => elements_step(
                    ElemFn::Narrow { arithmetic: false, vs2: rs2, rhs: Rhs::Reg(rs1) },
                    rd,
                    !vm,
                    s,
                ),
                VectorSpecInstr::NSRA_WV => elements_step(
                    ElemFn::Narrow { arithmetic: true, vs2: rs2, rhs: Rhs::Reg(rs1) },
                    rd,
                    !vm,
                    s,
                ),
                VectorSpecInstr::NSRL_WX => elements_step(
                    ElemFn::Narrow { arithmetic: false, vs2: rs2, rhs: Rhs::Scalar(s.reg(rs1)) },
                    rd,
                    !vm,
                    s,
                ),
                VectorSpecInstr::NSRA_WX => elements_step(
                    ElemFn::Narrow { arithmetic: true, vs2: rs2, rhs: Rhs::Scalar(s.reg(rs1)) },
                    rd,
                    !vm,
                    s,
                ),
                VectorSpecInstr::NSRL_WI => elements_step(
                    ElemFn::Narrow { arithmetic: false, vs2: rs2, rhs: Rhs::Scalar(rs1 as u64) },
                    rd,
                    !vm,
                    s,
                ),
                VectorSpecInstr::NSRA_WI => elements_step(
                    ElemFn::Narrow { arithmetic: true, vs2: rs2, rhs: Rhs::Scalar(imm) },
                    rd,
                    !vm,
                    s,
                ),
                VectorSpecInstr::ADC_VIM => elements_step(
                    ElemFn::Carry { subtract: false, vs2: rs2, rhs: Rhs::Scalar(imm) },
                    rd,
                    false,
                    s,
                ),
                VectorSpecInstr::MERGE_VIM => elements_step(
                    ElemFn::Merge { vs2: rs2, rhs: Rhs::Scalar(imm) },
                    rd,
                    false,
                    s,
                ),
                VectorSpecInstr::IOTA_M => elements_step(
                    ElemFn::Iota { vs2: rs2, masked: !vm },
                    rd,
                    !vm,
                    s,
                ),
                VectorSpecInstr::ID_V => elements_step(
                    ElemFn::Index,
                    rd,
                    !vm,
                    s,
                ),
                VectorSpecInstr::MADC_VVM => mask_step(
                    MaskFn::CarryOut { subtract: false, vs2: rs2, rhs: Rhs::Reg(rs1), with: true },
                    rd,
                    false,
                    s,
                ),
                VectorSpecInstr::MSBC_VVM => mask_step(
                    MaskFn::CarryOut { subtract: true, vs2: rs2, rhs: Rhs::Reg(rs1), with: true },
                    rd,
                    false,
                    s,
                ),
                VectorSpecInstr::MADC_VXM => mask_step(
                    MaskFn::CarryOut { subtract: false, vs2: rs2, rhs: Rhs::Scalar(s.reg(rs1)), with: true },
                    rd,
                    false,
                    s,
                ),
                VectorSpecInstr::MSBC_VXM => mask_step(
                    MaskFn::CarryOut { subtract: true, vs2: rs2, rhs: Rhs::Scalar(s.reg(rs1)), with: true },
                    rd,
                    false,
                    s,
                ),
                VectorSpecInstr::MADC_VIM => mask_step(
                    MaskFn::CarryOut { subtract: false, vs2: rs2, rhs: Rhs::Scalar(imm), with: true },
                    rd,
                    false,
                    s,
                ),
                VectorSpecInstr::MSBF_M => mask_step(
                    MaskFn::First { kind: FirstBit::Before, vs2: rs2, masked: !vm },
                    rd,
                    !vm,
                    s,
                ),
                VectorSpecInstr::MSOF_M => mask_step(
                    MaskFn::First { kind: FirstBit::Only, vs2: rs2, masked: !vm },
                    rd,
                    !vm,
                    s,
                ),
                VectorSpecInstr::MSIF_M => mask_step(
                    MaskFn::First { kind: FirstBit::Including, vs2: rs2, masked: !vm },
                    rd,
                    !vm,
                    s,
                ),
                VectorSpecInstr::COMPRESS_VM => if !vm {
                    refused_step(s)
                } else {
                    let (v, r) = mask::compressed(s.vector, rs1, rs2, rd, s.vstart());
                    vector_step(s, (s.with_vector(v), r))
                },
                VectorSpecInstr::CPOP_M => number_step(
                    mask::population(s.vector, rs2, !vm, s.vstart()),
                    rd,
                    s,
                ),
                VectorSpecInstr::FIRST_M => number_step(
                    mask::first_index(s.vector, rs2, !vm, s.vstart()),
                    rd,
                    s,
                ),
                VectorSpecInstr::MOVE_SX => if rs2 != 0 {
                    refused_step(s)
                } else {
                    vector_step(
                        s,
                        (
                            s.with_vector(s.vector.with_scalar(s.reg(rs1), rd, s.vstart())),
                            Ok(()),
                        ),
                    )
                },
                VectorSpecInstr::MOVE_XS => if rs1 != 0 {
                    refused_step(s)
                } else {
                    match s.vector.scalar_of(rs2, s.vstart()) {
                        Ok(Some(value)) => number_step(Ok(value), rd, s),
                        Ok(None) => vector_step(s, (s, Ok(()))),
                        Err(e) => number_step(Err(e), rd, s),
                    }
                },
            }
        },
        _ => (s, Ok(())),
    }
}

/// Executes an instruction with legality or operands of its own.
#[verifier::rlimit(40)]
pub fn vec_integer_spec_op(
    instr: VectorSpecInstr,
    info: RVInstrInfo,
    cpu: &mut RVCPU,
) -> (r: Result<
    (),
    Exception,
>)
    requires
        old(cpu).wf(),
        info.regs_ok(),
        info is V,
    ensures
        final(cpu).wf(),
        final(cpu)@ == vec_integer_spec_step(instr, old(cpu)@, info).0,
        r == vec_integer_spec_step(instr, old(cpu)@, info).1,
{
    proof {
        reveal(vec_integer_spec_step);
        reveal(elements_step);
        reveal(mask_step);
        reveal(number_step);
        reveal(vector_step);
    }
    if let RVInstrInfo::V { rs1, rs2, rd, vm, func6: _ } = info {
        if cpu.csr.get_field(CsrField::Mstatus_vs) == 0 {
            return Err(Exception::IllegalInstruction);
        }
        let x1: u64 = cpu.read_reg(rs1);
        let imm: u64 = utils::sign_extend(rs1 as u64, 5);
        let vstart: u64 = cpu.csr.value_of(csr_index::vstart);
        match instr {
            VectorSpecInstr::SLIDEUP_VI => {
                exec_elements(ElemFn::SlideUp { offset: rs1 as u64, vs2: rs2 }, rd, !vm, cpu)
            },
            VectorSpecInstr::SLIDEUP_VX => {
                if rd == rs2 {
                    return Err(Exception::IllegalInstruction);
                }
                exec_elements(ElemFn::SlideUp { offset: x1, vs2: rs2 }, rd, !vm, cpu)
            },
            VectorSpecInstr::SLIDEDOWN_VI => {
                exec_elements(ElemFn::SlideDown { offset: rs1 as u64, vs2: rs2 }, rd, !vm, cpu)
            },
            VectorSpecInstr::SLIDEDOWN_VX => {
                exec_elements(ElemFn::SlideDown { offset: x1, vs2: rs2 }, rd, !vm, cpu)
            },
            VectorSpecInstr::SLIDE1UP_VX => {
                exec_elements(ElemFn::Slide1Up { x: x1, vs2: rs2 }, rd, !vm, cpu)
            },
            VectorSpecInstr::SLIDE1DOWN_VX => {
                exec_elements(ElemFn::Slide1Down { x: x1, vs2: rs2 }, rd, !vm, cpu)
            },
            VectorSpecInstr::GATHER_VV => {
                if rd == rs2 || rd == rs1 {
                    return Err(Exception::IllegalInstruction);
                }
                exec_elements(ElemFn::Gather { vs2: rs2, vs1: rs1 }, rd, !vm, cpu)
            },
            VectorSpecInstr::GATHER_VX => {
                if rd == rs2 {
                    return Err(Exception::IllegalInstruction);
                }
                exec_elements(ElemFn::GatherOne { vs2: rs2, index: x1 }, rd, !vm, cpu)
            },
            VectorSpecInstr::GATHER_VI => {
                if rd == rs2 {
                    return Err(Exception::IllegalInstruction);
                }
                exec_elements(ElemFn::GatherOne { vs2: rs2, index: rs1 as u64 }, rd, !vm, cpu)
            },
            VectorSpecInstr::GATHER_EI16_VV => {
                if rd == rs2 || rd == rs1 {
                    return Err(Exception::IllegalInstruction);
                }
                exec_elements(ElemFn::GatherEi16 { vs2: rs2, vs1: rs1 }, rd, !vm, cpu)
            },
            VectorSpecInstr::MOVE_V => {
                if rs2 != 0 {
                    return Err(Exception::IllegalInstruction);
                }
                exec_elements(ElemFn::Move { rhs: Rhs::Reg(rs1) }, rd, false, cpu)
            },
            VectorSpecInstr::MOVE_VX => {
                if rs2 != 0 {
                    return Err(Exception::IllegalInstruction);
                }
                exec_elements(ElemFn::Move { rhs: Rhs::Scalar(x1) }, rd, false, cpu)
            },
            VectorSpecInstr::MOVE_VI => {
                if rs2 != 0 {
                    return Err(Exception::IllegalInstruction);
                }
                exec_elements(ElemFn::Move { rhs: Rhs::Scalar(imm) }, rd, false, cpu)
            },
            VectorSpecInstr::NSRL_WV => {
                exec_elements(
                    ElemFn::Narrow { arithmetic: false, vs2: rs2, rhs: Rhs::Reg(rs1) },
                    rd,
                    !vm,
                    cpu,
                )
            },
            VectorSpecInstr::NSRA_WV => {
                exec_elements(
                    ElemFn::Narrow { arithmetic: true, vs2: rs2, rhs: Rhs::Reg(rs1) },
                    rd,
                    !vm,
                    cpu,
                )
            },
            VectorSpecInstr::NSRL_WX => {
                exec_elements(
                    ElemFn::Narrow { arithmetic: false, vs2: rs2, rhs: Rhs::Scalar(x1) },
                    rd,
                    !vm,
                    cpu,
                )
            },
            VectorSpecInstr::NSRA_WX => {
                exec_elements(
                    ElemFn::Narrow { arithmetic: true, vs2: rs2, rhs: Rhs::Scalar(x1) },
                    rd,
                    !vm,
                    cpu,
                )
            },
            VectorSpecInstr::NSRL_WI => {
                exec_elements(
                    ElemFn::Narrow { arithmetic: false, vs2: rs2, rhs: Rhs::Scalar(rs1 as u64) },
                    rd,
                    !vm,
                    cpu,
                )
            },
            VectorSpecInstr::NSRA_WI => {
                exec_elements(
                    ElemFn::Narrow { arithmetic: true, vs2: rs2, rhs: Rhs::Scalar(imm) },
                    rd,
                    !vm,
                    cpu,
                )
            },
            VectorSpecInstr::ADC_VIM => {
                exec_elements(
                    ElemFn::Carry { subtract: false, vs2: rs2, rhs: Rhs::Scalar(imm) },
                    rd,
                    false,
                    cpu,
                )
            },
            VectorSpecInstr::MERGE_VIM => {
                exec_elements(ElemFn::Merge { vs2: rs2, rhs: Rhs::Scalar(imm) }, rd, false, cpu)
            },
            VectorSpecInstr::IOTA_M => {
                exec_elements(ElemFn::Iota { vs2: rs2, masked: !vm }, rd, !vm, cpu)
            },
            VectorSpecInstr::ID_V => {
                exec_elements(ElemFn::Index, rd, !vm, cpu)
            },
            VectorSpecInstr::MADC_VVM => {
                exec_mask(
                    MaskFn::CarryOut { subtract: false, vs2: rs2, rhs: Rhs::Reg(rs1), with: true },
                    rd,
                    false,
                    cpu,
                )
            },
            VectorSpecInstr::MSBC_VVM => {
                exec_mask(
                    MaskFn::CarryOut { subtract: true, vs2: rs2, rhs: Rhs::Reg(rs1), with: true },
                    rd,
                    false,
                    cpu,
                )
            },
            VectorSpecInstr::MADC_VXM => {
                exec_mask(
                    MaskFn::CarryOut { subtract: false, vs2: rs2, rhs: Rhs::Scalar(x1), with: true },
                    rd,
                    false,
                    cpu,
                )
            },
            VectorSpecInstr::MSBC_VXM => {
                exec_mask(
                    MaskFn::CarryOut { subtract: true, vs2: rs2, rhs: Rhs::Scalar(x1), with: true },
                    rd,
                    false,
                    cpu,
                )
            },
            VectorSpecInstr::MADC_VIM => {
                exec_mask(
                    MaskFn::CarryOut { subtract: false, vs2: rs2, rhs: Rhs::Scalar(imm), with: true },
                    rd,
                    false,
                    cpu,
                )
            },
            VectorSpecInstr::MSBF_M => {
                exec_mask(
                    MaskFn::First { kind: FirstBit::Before, vs2: rs2, masked: !vm },
                    rd,
                    !vm,
                    cpu,
                )
            },
            VectorSpecInstr::MSOF_M => {
                exec_mask(
                    MaskFn::First { kind: FirstBit::Only, vs2: rs2, masked: !vm },
                    rd,
                    !vm,
                    cpu,
                )
            },
            VectorSpecInstr::MSIF_M => {
                exec_mask(
                    MaskFn::First { kind: FirstBit::Including, vs2: rs2, masked: !vm },
                    rd,
                    !vm,
                    cpu,
                )
            },
            VectorSpecInstr::COMPRESS_VM => {
                if !vm {
                    return Err(Exception::IllegalInstruction);
                }
                let done = cpu.vector.exec_compress(rs1, rs2, rd, vstart);
                finish_vector(cpu, done)
            },
            VectorSpecInstr::CPOP_M => {
                let value = cpu.vector.exec_population(rs2, !vm, vstart);
                finish_number(value, rd, cpu)
            },
            VectorSpecInstr::FIRST_M => {
                let value = cpu.vector.exec_first(rs2, !vm, vstart);
                finish_number(value, rd, cpu)
            },
            VectorSpecInstr::MOVE_SX => {
                if rs2 != 0 {
                    return Err(Exception::IllegalInstruction);
                }
                cpu.vector.exec_move_scalar_to_element(x1, rd, vstart);
                finish_vector(cpu, Ok(()))
            },
            VectorSpecInstr::MOVE_XS => {
                if rs1 != 0 {
                    return Err(Exception::IllegalInstruction);
                }
                match cpu.vector.exec_move_element_to_scalar(rs2, vstart) {
                    Ok(Some(value)) => finish_number(Ok(value), rd, cpu),
                    Ok(None) => finish_vector(cpu, Ok(())),
                    Err(e) => Err(e),
                }
            },
        }
    } else {
        Ok(())
    }
}

} // verus!
