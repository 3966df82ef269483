//! The handlers of the floating-point instructions.
use vstd::prelude::*;

use crate::fpu::bits;
use crate::fpu::bits::{FloatFormat, FloatRelation, Round, SignInjection};
use crate::fpu::soft_float;
use crate::fpu::soft_float::{FloatBinary, FloatTernary, FpuState};
use crate::fpu::sqrt;
use crate::isa::riscv::csr_reg::csr_index;
use crate::isa::riscv::csr_reg::field;
use crate::isa::riscv::csr_reg::field::CsrField;
use crate::isa::riscv::csr_reg::file;
use crate::isa::riscv::executor::{CpuState, RVCPU};
use crate::isa::riscv::trap::Exception;
use crate::utils;
use crate::utils::Width;

use super::exec_core;
use super::exec_core::Step;
use super::info::RVInstrInfo;

verus! {

/// The rounding direction that a field of an instruction or of `fcsr` names. A field that names
/// none, or the dynamic one from `fcsr`, stands for the nearest number, ties to even.
pub open spec fn named_round(rm: u64) -> Round {
    if rm == 1 {
        Round::TowardZero
    } else if rm == 2 {
        Round::TowardNegative
    } else if rm == 3 {
        Round::TowardPositive
    } else if rm == 4 {
        Round::NearestTiesToAway
    } else {
        Round::NearestTiesToEven
    }
}

fn pick_round(rm: u64) -> (r: Round)
    ensures
        r == named_round(rm),
{
    match rm {
        1 => Round::TowardZero,
        2 => Round::TowardNegative,
        3 => Round::TowardPositive,
        4 => Round::NearestTiesToAway,
        _ => Round::NearestTiesToEven,
    }
}

impl CpuState {
    /// The rounding direction of an instruction whose rounding field is `rm`.
    pub open spec fn round(self, rm: u8) -> Round {
        if rm == 7 {
            named_round(self.csr.field(CsrField::Fcsr_rm))
        } else {
            named_round(rm as u64)
        }
    }

    /// The state with the flags of the last floating-point operation in `fcsr`.
    pub open spec fn with_fflags(self) -> CpuState {
        CpuState {
            csr: self.csr.with_field(CsrField::Fcsr_fflags, fflags_of(self.fpu.status) as u64),
            ..self
        }
    }

    /// The state with another floating-point unit.
    pub open spec fn with_fpu(self, fpu: FpuState) -> CpuState {
        CpuState { fpu, ..self }
    }
}

/// The rounding direction of an instruction whose rounding field is `rm`.
pub fn rm_to_round(cpu: &RVCPU, rm: u8) -> (r: Round)
    requires
        cpu.wf(),
    ensures
        r == cpu@.round(rm),
{
    if rm == 7 {
        pick_round(cpu.csr.get_field(CsrField::Fcsr_rm))
    } else {
        pick_round(rm as u64)
    }
}

/// The exception flags of a status: its low five bits in reverse order.
pub open spec fn fflags_of(status: u8) -> u8 {
    (status % 2 * 16 + status / 2 % 2 * 8 + status / 4 % 2 * 4 + status / 8 % 2 * 2 + status / 16
        % 2) as u8
}

/// The exception flags of a status.
pub fn status_to_fflags(status: u8) -> (r: u8)
    ensures
        r == fflags_of(status),
        r < 32,
{
    status % 2 * 16 + status / 2 % 2 * 8 + status / 4 % 2 * 4 + status / 8 % 2 * 2 + status / 16
        % 2
}

/// Writes the flags of the last floating-point operation to `fcsr`.
pub fn save_fflags_to_cpu(cpu: &mut RVCPU)
    requires
        old(cpu).wf(),
    ensures
        final(cpu).wf(),
        final(cpu)@ == old(cpu)@.with_fflags(),
{
    proof {
        file::lemma_complete_field(cpu.csr@, CsrField::Fcsr_fflags);
    }
    let fflags: u8 = status_to_fflags(cpu.fpu.last_status());
    cpu.csr.set_field(CsrField::Fcsr_fflags, fflags as u64);
}

/// Saving flags puts them into the low five bits of `fcsr` and leaves the rounding direction and
/// every other register alone.
pub proof fn law_fflags_saved(s: CpuState)
    requires
        s.csr.governed(),
    ensures
        s.with_fflags().csr.field(CsrField::Fcsr_fflags) == fflags_of(s.fpu.status),
        s.with_fflags().csr.field(CsrField::Fcsr_rm) == s.csr.field(CsrField::Fcsr_rm),
        forall|a: u64|
            #![trigger s.with_fflags().csr.table[a as int]]
            a < file::CSR_SIZE && a != csr_index::fcsr ==> s.with_fflags().csr.table[a as int]
                == s.csr.table[a as int],
        s.with_fflags().csr.governed(),
{
    reveal(file::rules_kept);
    file::law_row_governs(s.csr, 0);
    let v = s.csr.value(csr_index::fcsr);
    let f = fflags_of(s.fpu.status) as u64;
    let five = field::low_mask(5);
    let three = field::low_mask(3);
    assert(1u64 << 5u64 == 32u64 && 1u64 << 3u64 == 8u64) by (bit_vector);
    assert(five == 31 && three == 7);
    assert(f < 32 && five == 31 && three == 7 ==> ({
        let w = (v & !0xffu64) | (((v & !(five << 0u64)) | ((f & five) << 0u64)) & 0xffu64);
        &&& (w >> 0u64) & five == f
        &&& (w >> 5u64) & three == (v >> 5u64) & three
    })) by (bit_vector);
}

/// What a floating-point instruction of `len` bytes does after its effect: if that raised no
/// exception, it goes on to the next one and leaves its flags.
pub open spec fn flags_step(step: Step, len: u64) -> Step {
    match step.1 {
        Ok(_) => (step.0.retired(len).with_fflags(), Ok(())),
        Err(_) => step,
    }
}

/// What a floating-point instruction of `len` bytes does whose effect is `body`: with the unit
/// switched off it is illegal.
#[verifier::opaque]
pub open spec fn float_step(s: CpuState, body: Step, len: u64) -> Step {
    if s.csr.field(CsrField::Mstatus_fs) == 0 {
        (s, Err(Exception::IllegalInstruction))
    } else {
        flags_step(body, len)
    }
}

/// Goes on to the next instruction and saves the flags, if there was no exception.
pub fn finish_float(cpu: &mut RVCPU, done: Result<(), Exception>, len: u64) -> (r: Result<
    (),
    Exception,
>)
    requires
        old(cpu).wf(),
    ensures
        final(cpu).wf(),
        final(cpu)@ == flags_step((old(cpu)@, done), len).0,
        r == flags_step((old(cpu)@, done), len).1,
{
    match done {
        Ok(_) => {
            cpu.retire(len);
            save_fflags_to_cpu(cpu);
            Ok(())
        },
        Err(e) => Err(e),
    }
}

/// What a load to a floating-point register does.
#[verifier::opaque]
pub open spec fn float_load_step(f: FloatFormat, s: CpuState, info: RVInstrInfo) -> Step {
    match info {
        RVInstrInfo::I { rs1, rd, imm } => float_step(
            s,
            s.float_loaded(f, rd, Width::W64.wrap(s.reg(rs1) + imm)),
            4,
        ),
        _ => (s, Ok(())),
    }
}

/// Executes a load to a floating-point register.
pub fn exec_float_load(
    f: FloatFormat,
    info: RVInstrInfo,
    cpu: &mut RVCPU,
) -> (r: Result<(), Exception>)
    requires
        old(cpu).wf(),
        info.regs_ok(),
        info is I,
    ensures
        final(cpu).wf(),
        final(cpu)@ == float_load_step(f, old(cpu)@, info).0,
        r == float_load_step(f, old(cpu)@, info).1,
{
    proof {
        reveal(float_step);
        reveal(float_load_step);
    }
    if let RVInstrInfo::I { rs1, rd, imm } = info {
        if cpu.csr.get_field(CsrField::Mstatus_fs) == 0 {
            return Err(Exception::IllegalInstruction);
        }
        let addr: u64 = utils::add64(cpu.read_reg(rs1), imm);
        let done = exec_core::handle_float_load(cpu, f, addr, rd);
        return finish_float(cpu, done, 4);
    }
    Ok(())
}

/// What a store of a floating-point register does.
#[verifier::opaque]
pub open spec fn float_store_step(f: FloatFormat, s: CpuState, info: RVInstrInfo) -> Step {
    match info {
        RVInstrInfo::S { rs1, rs2, imm } => float_step(
            s,
            s.float_stored(f, rs2, Width::W64.wrap(s.reg(rs1) + imm)),
            4,
        ),
        _ => (s, Ok(())),
    }
}

/// Executes a store of a floating-point register.
pub fn exec_float_store(
    f: FloatFormat,
    info: RVInstrInfo,
    cpu: &mut RVCPU,
) -> (r: Result<(), Exception>)
    requires
        old(cpu).wf(),
        info.regs_ok(),
        info is S,
    ensures
        final(cpu).wf(),
        final(cpu)@ == float_store_step(f, old(cpu)@, info).0,
        r == float_store_step(f, old(cpu)@, info).1,
{
    proof {
        reveal(float_step);
        reveal(float_store_step);
    }
    if let RVInstrInfo::S { rs1, rs2, imm } = info {
        if cpu.csr.get_field(CsrField::Mstatus_fs) == 0 {
            return Err(Exception::IllegalInstruction);
        }
        let addr: u64 = utils::add64(cpu.read_reg(rs1), imm);
        let done = exec_core::handle_float_store(cpu, f, addr, rs2);
        return finish_float(cpu, done, 4);
    }
    Ok(())
}

/// What a fused multiplication and addition does.
#[verifier::opaque]
pub open spec fn float_arith_r4_rm_step(
    f: FloatFormat,
    op: FloatTernary,
    s: CpuState,
    info: RVInstrInfo,
) -> Step {
    match info {
        RVInstrInfo::R4_rm { rs1, rs2, rs3, rd, rm } => float_step(
            s,
            (
                s.with_fpu(
                    s.fpu.finished(
                        f,
                        rd,
                        op.result(
                            f,
                            s.fpu.value(f, rs1),
                            s.fpu.value(f, rs2),
                            s.fpu.value(f, rs3),
                            s.round(rm),
                        ),
                    ),
                ),
                Ok(()),
            ),
            4,
        ),
        _ => (s, Ok(())),
    }
}

/// Executes a fused multiplication and addition.
pub fn exec_float_arith_r4_rm(
    f: FloatFormat,
    op: FloatTernary,
    info: RVInstrInfo,
    cpu: &mut RVCPU,
) -> (r: Result<(), Exception>)
    requires
        old(cpu).wf(),
        info.regs_ok(),
        info is R4_rm,
    ensures
        final(cpu).wf(),
        final(cpu)@ == float_arith_r4_rm_step(f, op, old(cpu)@, info).0,
        r == float_arith_r4_rm_step(f, op, old(cpu)@, info).1,
{
    proof {
        reveal(float_step);
        reveal(float_arith_r4_rm_step);
    }
    if let RVInstrInfo::R4_rm { rs1, rs2, rs3, rd, rm } = info {
        if cpu.csr.get_field(CsrField::Mstatus_fs) == 0 {
            return Err(Exception::IllegalInstruction);
        }
        let round = rm_to_round(cpu, rm);
        cpu.fpu.exec_ternary_r(op, f, rs1, rs2, rs3, rd, round);
        return finish_float(cpu, Ok(()), 4);
    }
    Ok(())
}

/// What an operation on two numbers does.
#[verifier::opaque]
pub open spec fn float_arith_rm_step(
    f: FloatFormat,
    op: FloatBinary,
    s: CpuState,
    info: RVInstrInfo,
) -> Step {
    match info {
        RVInstrInfo::R_rm { rs1, rs2, rd, rm } => float_step(
            s,
            (
                s.with_fpu(
                    s.fpu.finished(
                        f,
                        rd,
                        op.result(f, s.fpu.value(f, rs1), s.fpu.value(f, rs2), s.round(rm)),
                    ),
                ),
                Ok(()),
            ),
            4,
        ),
        _ => (s, Ok(())),
    }
}

/// Executes an operation on two numbers.
pub fn exec_float_arith_rm(
    f: FloatFormat,
    op: FloatBinary,
    info: RVInstrInfo,
    cpu: &mut RVCPU,
) -> (r: Result<(), Exception>)
    requires
        old(cpu).wf(),
        info.regs_ok(),
        info is R_rm,
    ensures
        final(cpu).wf(),
        final(cpu)@ == float_arith_rm_step(f, op, old(cpu)@, info).0,
        r == float_arith_rm_step(f, op, old(cpu)@, info).1,
{
    proof {
        reveal(float_step);
        reveal(float_arith_rm_step);
    }
    if let RVInstrInfo::R_rm { rs1, rs2, rd, rm } = info {
        if cpu.csr.get_field(CsrField::Mstatus_fs) == 0 {
            return Err(Exception::IllegalInstruction);
        }
        let round = rm_to_round(cpu, rm);
        cpu.fpu.exec_binary_r(op, f, rs1, rs2, rd, round);
        return finish_float(cpu, Ok(()), 4);
    }
    Ok(())
}

/// What a sign injection does.
#[verifier::opaque]
pub open spec fn float_arith_step(
    f: FloatFormat,
    op: SignInjection,
    s: CpuState,
    info: RVInstrInfo,
) -> Step {
    match info {
        RVInstrInfo::R { rs1, rs2, rd } => float_step(
            s,
            (
                s.with_fpu(
                    s.fpu.with_value(f, rd, op.injected(f, s.fpu.value(f, rs1), s.fpu.value(f, rs2))).with_status(
                        bits::STATUS_OK,
                    ),
                ),
                Ok(()),
            ),
            4,
        ),
        _ => (s, Ok(())),
    }
}

/// Executes a sign injection.
pub fn exec_float_arith(
    f: FloatFormat,
    op: SignInjection,
    info: RVInstrInfo,
    cpu: &mut RVCPU,
) -> (r: Result<(), Exception>)
    requires
        old(cpu).wf(),
        info.regs_ok(),
        info is R,
    ensures
        final(cpu).wf(),
        final(cpu)@ == float_arith_step(f, op, old(cpu)@, info).0,
        r == float_arith_step(f, op, old(cpu)@, info).1,
{
    proof {
        reveal(float_step);
        reveal(float_arith_step);
    }
    if let RVInstrInfo::R { rs1, rs2, rd } = info {
        if cpu.csr.get_field(CsrField::Mstatus_fs) == 0 {
            return Err(Exception::IllegalInstruction);
        }
        cpu.fpu.inject_sign(op, f, rs1, rs2, rd);
        return finish_float(cpu, Ok(()), 4);
    }
    Ok(())
}

/// What a square root does.
#[verifier::opaque]
pub open spec fn sqrt_step(f: FloatFormat, s: CpuState, info: RVInstrInfo) -> Step {
    match info {
        RVInstrInfo::R_rm { rs1, rd, rm, .. } => float_step(
            s,
            (
                s.with_fpu(
                    s.fpu.finished(f, rd, sqrt::sqrt_of(f, s.fpu.value(f, rs1), s.round(rm))),
                ),
                Ok(()),
            ),
            4,
        ),
        _ => (s, Ok(())),
    }
}

/// Executes a square root.
pub fn exec_sqrt(f: FloatFormat, info: RVInstrInfo, cpu: &mut RVCPU) -> (r: Result<(), Exception>)
    requires
        old(cpu).wf(),
        info.regs_ok(),
        info is R_rm,
    ensures
        final(cpu).wf(),
        final(cpu)@ == sqrt_step(f, old(cpu)@, info).0,
        r == sqrt_step(f, old(cpu)@, info).1,
{
    proof {
        reveal(float_step);
        reveal(sqrt_step);
    }
    if let RVInstrInfo::R_rm { rs1, rs2: _, rd, rm } = info {
        if cpu.csr.get_field(CsrField::Mstatus_fs) == 0 {
            return Err(Exception::IllegalInstruction);
        }
        let round = rm_to_round(cpu, rm);
        cpu.fpu.sqrt(f, rs1, rd, round);
        return finish_float(cpu, Ok(()), 4);
    }
    Ok(())
}

/// What a conversion to an unsigned integer does.
#[verifier::opaque]
pub open spec fn cvt_u_from_f_step(
    f: FloatFormat,
    w: Width,
    s: CpuState,
    info: RVInstrInfo,
) -> Step {
    match info {
        RVInstrInfo::R_rm { rs1, rd, rm, .. } => float_step(
            s,
            (
                s.with_fpu(s.fpu.with_status(soft_float::to_unsigned_of(f, s.fpu.value(f, rs1), w, s.round(rm)).1)).with_reg(
                    rd,
                    utils::widened(
                        w,
                        soft_float::to_unsigned_of(f, s.fpu.value(f, rs1), w, s.round(rm)).0,
                    ),
                ),
                Ok(()),
            ),
            4,
        ),
        _ => (s, Ok(())),
    }
}

/// Executes a conversion to an unsigned integer.
pub fn exec_cvt_u_from_f(
    f: FloatFormat,
    w: Width,
    info: RVInstrInfo,
    cpu: &mut RVCPU,
) -> (r: Result<(), Exception>)
    requires
        old(cpu).wf(),
        info.regs_ok(),
        info is R_rm,
    ensures
        final(cpu).wf(),
        final(cpu)@ == cvt_u_from_f_step(f, w, old(cpu)@, info).0,
        r == cvt_u_from_f_step(f, w, old(cpu)@, info).1,
{
    proof {
        reveal(float_step);
        reveal(cvt_u_from_f_step);
    }
    if let RVInstrInfo::R_rm { rs1, rs2: _, rd, rm } = info {
        if cpu.csr.get_field(CsrField::Mstatus_fs) == 0 {
            return Err(Exception::IllegalInstruction);
        }
        let round = rm_to_round(cpu, rm);
        let data: u64 = cpu.fpu.get_and_cvt_unsigned(f, rs1, w, round);
        cpu.write_reg(rd, utils::widen(w, data));
        return finish_float(cpu, Ok(()), 4);
    }
    Ok(())
}

/// What a conversion to a signed integer does.
#[verifier::opaque]
pub open spec fn cvt_i_from_f_step(
    f: FloatFormat,
    w: Width,
    s: CpuState,
    info: RVInstrInfo,
) -> Step {
    match info {
        RVInstrInfo::R_rm { rs1, rd, rm, .. } => float_step(
            s,
            (
                s.with_fpu(s.fpu.with_status(soft_float::to_signed_of(f, s.fpu.value(f, rs1), w, s.round(rm)).1)).with_reg(
                    rd,
                    utils::widened(
                        w,
                        soft_float::to_signed_of(f, s.fpu.value(f, rs1), w, s.round(rm)).0,
                    ),
                ),
                Ok(()),
            ),
            4,
        ),
        _ => (s, Ok(())),
    }
}

/// Executes a conversion to a signed integer.
pub fn exec_cvt_i_from_f(
    f: FloatFormat,
    w: Width,
    info: RVInstrInfo,
    cpu: &mut RVCPU,
) -> (r: Result<(), Exception>)
    requires
        old(cpu).wf(),
        info.regs_ok(),
        info is R_rm,
    ensures
        final(cpu).wf(),
        final(cpu)@ == cvt_i_from_f_step(f, w, old(cpu)@, info).0,
        r == cvt_i_from_f_step(f, w, old(cpu)@, info).1,
{
    proof {
        reveal(float_step);
        reveal(cvt_i_from_f_step);
    }
    if let RVInstrInfo::R_rm { rs1, rs2: _, rd, rm } = info {
        if cpu.csr.get_field(CsrField::Mstatus_fs) == 0 {
            return Err(Exception::IllegalInstruction);
        }
        let round = rm_to_round(cpu, rm);
        let data: u64 = cpu.fpu.get_and_cvt_signed(f, rs1, w, round);
        cpu.write_reg(rd, utils::widen(w, data));
        return finish_float(cpu, Ok(()), 4);
    }
    Ok(())
}

/// What a conversion from an unsigned integer does.
#[verifier::opaque]
pub open spec fn cvt_f_from_u_step(
    f: FloatFormat,
    w: Width,
    s: CpuState,
    info: RVInstrInfo,
) -> Step {
    match info {
        RVInstrInfo::R_rm { rs1, rd, rm, .. } => float_step(
            s,
            (
                s.with_fpu(
                    s.fpu.finished(
                        f,
                        rd,
                        soft_float::from_unsigned_of(f, w.wrap(s.reg(rs1) as int), s.round(rm)),
                    ),
                ),
                Ok(()),
            ),
            4,
        ),
        _ => (s, Ok(())),
    }
}

/// Executes a conversion from an unsigned integer.
pub fn exec_cvt_f_from_u(
    f: FloatFormat,
    w: Width,
    info: RVInstrInfo,
    cpu: &mut RVCPU,
) -> (r: Result<(), Exception>)
    requires
        old(cpu).wf(),
        info.regs_ok(),
        info is R_rm,
    ensures
        final(cpu).wf(),
        final(cpu)@ == cvt_f_from_u_step(f, w, old(cpu)@, info).0,
        r == cvt_f_from_u_step(f, w, old(cpu)@, info).1,
{
    proof {
        reveal(float_step);
        reveal(cvt_f_from_u_step);
    }
    if let RVInstrInfo::R_rm { rs1, rs2: _, rd, rm } = info {
        if cpu.csr.get_field(CsrField::Mstatus_fs) == 0 {
            return Err(Exception::IllegalInstruction);
        }
        let round = rm_to_round(cpu, rm);
        let val: u64 = w.truncate(cpu.read_reg(rs1));
        cpu.fpu.cvt_unsigned_and_store(f, rd, val, round);
        return finish_float(cpu, Ok(()), 4);
    }
    Ok(())
}

/// What a conversion from a signed integer does.
#[verifier::opaque]
pub open spec fn cvt_f_from_i_step(f: FloatFormat, s: CpuState, info: RVInstrInfo) -> Step {
    match info {
        RVInstrInfo::R_rm { rs1, rd, rm, .. } => float_step(
            s,
            (
                s.with_fpu(
                    s.fpu.finished(
                        f,
                        rd,
                        soft_float::from_signed_of(
                            f,
                            Width::W64.signed(s.reg(rs1)) as i64,
                            s.round(rm),
                        ),
                    ),
                ),
                Ok(()),
            ),
            4,
        ),
        _ => (s, Ok(())),
    }
}

/// Executes a conversion from a signed integer.
pub fn exec_cvt_f_from_i(
    f: FloatFormat,
    info: RVInstrInfo,
    cpu: &mut RVCPU,
) -> (r: Result<(), Exception>)
    requires
        old(cpu).wf(),
        info.regs_ok(),
        info is R_rm,
    ensures
        final(cpu).wf(),
        final(cpu)@ == cvt_f_from_i_step(f, old(cpu)@, info).0,
        r == cvt_f_from_i_step(f, old(cpu)@, info).1,
{
    proof {
        reveal(float_step);
        reveal(cvt_f_from_i_step);
    }
    if let RVInstrInfo::R_rm { rs1, rs2: _, rd, rm } = info {
        if cpu.csr.get_field(CsrField::Mstatus_fs) == 0 {
            return Err(Exception::IllegalInstruction);
        }
        let round = rm_to_round(cpu, rm);
        let val: u64 = cpu.read_reg(rs1);
        assert(val < 0x8000_0000_0000_0000 ==> val as i64 == val) by (bit_vector);
        assert(val >= 0x8000_0000_0000_0000 ==> val as i64 == val - 0x1_0000_0000_0000_0000)
            by (bit_vector);
        cpu.fpu.cvt_signed_and_store(f, rd, val as i64, round);
        return finish_float(cpu, Ok(()), 4);
    }
    Ok(())
}

/// What a conversion to the other format does.
#[verifier::opaque]
pub open spec fn cvt_float_step(f: FloatFormat, s: CpuState, info: RVInstrInfo) -> Step {
    match info {
        RVInstrInfo::R_rm { rs1, rd, rm, .. } => float_step(
            s,
            (
                s.with_fpu(
                    s.fpu.finished(
                        soft_float::other_format(f),
                        rd,
                        soft_float::converted(f, s.fpu.value(f, rs1), s.round(rm)),
                    ),
                ),
                Ok(()),
            ),
            4,
        ),
        _ => (s, Ok(())),
    }
}

/// Executes a conversion to the other format.
pub fn exec_cvt_float(
    f: FloatFormat,
    info: RVInstrInfo,
    cpu: &mut RVCPU,
) -> (r: Result<(), Exception>)
    requires
        old(cpu).wf(),
        info.regs_ok(),
        info is R_rm,
    ensures
        final(cpu).wf(),
        final(cpu)@ == cvt_float_step(f, old(cpu)@, info).0,
        r == cvt_float_step(f, old(cpu)@, info).1,
{
    proof {
        reveal(float_step);
        reveal(cvt_float_step);
    }
    if let RVInstrInfo::R_rm { rs1, rs2: _, rd, rm } = info {
        if cpu.csr.get_field(CsrField::Mstatus_fs) == 0 {
            return Err(Exception::IllegalInstruction);
        }
        let round = rm_to_round(cpu, rm);
        cpu.fpu.cvt_float_and_store(f, rd, rs1, round);
        return finish_float(cpu, Ok(()), 4);
    }
    Ok(())
}

/// What a comparison does.
#[verifier::opaque]
pub open spec fn float_compare_step(
    f: FloatFormat,
    op: FloatRelation,
    s: CpuState,
    info: RVInstrInfo,
) -> Step {
    match info {
        RVInstrInfo::R { rs1, rs2, rd } => float_step(
            s,
            (
                s.with_fpu(s.fpu.with_status(op.compared(f, s.fpu.value(f, rs1), s.fpu.value(f, rs2)).1)).with_reg(
                    rd,
                    if op.compared(f, s.fpu.value(f, rs1), s.fpu.value(f, rs2)).0 { 1 } else { 0 },
                ),
                Ok(()),
            ),
            4,
        ),
        _ => (s, Ok(())),
    }
}

/// Executes a comparison.
pub fn exec_float_compare(
    f: FloatFormat,
    op: FloatRelation,
    info: RVInstrInfo,
    cpu: &mut RVCPU,
) -> (r: Result<(), Exception>)
    requires
        old(cpu).wf(),
        info.regs_ok(),
        info is R,
    ensures
        final(cpu).wf(),
        final(cpu)@ == float_compare_step(f, op, old(cpu)@, info).0,
        r == float_compare_step(f, op, old(cpu)@, info).1,
{
    proof {
        reveal(float_step);
        reveal(float_compare_step);
    }
    if let RVInstrInfo::R { rs1, rs2, rd } = info {
        if cpu.csr.get_field(CsrField::Mstatus_fs) == 0 {
            return Err(Exception::IllegalInstruction);
        }
        let holds = cpu.fpu.compare(op, f, rs1, rs2);
        cpu.write_reg(
            rd,
            if holds {
                1
            } else {
                0
            },
        );
        return finish_float(cpu, Ok(()), 4);
    }
    Ok(())
}

/// What a classification does.
#[verifier::opaque]
pub open spec fn float_classify_step(f: FloatFormat, s: CpuState, info: RVInstrInfo) -> Step {
    match info {
        RVInstrInfo::R { rs1, rd, .. } => float_step(
            s,
            (s.with_reg(rd, bits::class_of(f, s.fpu.value(f, rs1))), Ok(())),
            4,
        ),
        _ => (s, Ok(())),
    }
}

/// Executes a classification.
pub fn exec_float_classify(
    f: FloatFormat,
    info: RVInstrInfo,
    cpu: &mut RVCPU,
) -> (r: Result<(), Exception>)
    requires
        old(cpu).wf(),
        info.regs_ok(),
        info is R,
    ensures
        final(cpu).wf(),
        final(cpu)@ == float_classify_step(f, old(cpu)@, info).0,
        r == float_classify_step(f, old(cpu)@, info).1,
{
    proof {
        reveal(float_step);
        reveal(float_classify_step);
    }
    if let RVInstrInfo::R { rs1, rs2: _, rd } = info {
        if cpu.csr.get_field(CsrField::Mstatus_fs) == 0 {
            return Err(Exception::IllegalInstruction);
        }
        let class: u64 = cpu.fpu.classify(f, rs1);
        cpu.write_reg(rd, class);
        return finish_float(cpu, Ok(()), 4);
    }
    Ok(())
}

/// What a move of raw bits to an integer register does.
#[verifier::opaque]
pub open spec fn mv_x_from_f_step(extend: bool, s: CpuState, info: RVInstrInfo) -> Step {
    match info {
        RVInstrInfo::R { rs1, rd, .. } => float_step(
            s,
            (
                s.with_reg(
                    rd,
                    if extend { utils::sign_extended(s.fpu.regs[rs1 as int], 32) } else { s.fpu.regs[rs1 as int] },
                ),
                Ok(()),
            ),
            4,
        ),
        _ => (s, Ok(())),
    }
}

/// Executes a move of raw bits to an integer register.
pub fn exec_mv_x_from_f(
    extend: bool,
    info: RVInstrInfo,
    cpu: &mut RVCPU,
) -> (r: Result<(), Exception>)
    requires
        old(cpu).wf(),
        info.regs_ok(),
        info is R,
    ensures
        final(cpu).wf(),
        final(cpu)@ == mv_x_from_f_step(extend, old(cpu)@, info).0,
        r == mv_x_from_f_step(extend, old(cpu)@, info).1,
{
    proof {
        reveal(float_step);
        reveal(mv_x_from_f_step);
    }
    if let RVInstrInfo::R { rs1, rs2: _, rd } = info {
        if cpu.csr.get_field(CsrField::Mstatus_fs) == 0 {
            return Err(Exception::IllegalInstruction);
        }
        let raw: u64 = cpu.fpu.load_raw(rs1);
        let value: u64 = if extend {
            utils::sign_extend(raw, 32)
        } else {
            raw
        };
        cpu.write_reg(rd, value);
        return finish_float(cpu, Ok(()), 4);
    }
    Ok(())
}

/// What a move of raw bits from an integer register does.
#[verifier::opaque]
pub open spec fn mv_f_from_x_step(f: FloatFormat, s: CpuState, info: RVInstrInfo) -> Step {
    match info {
        RVInstrInfo::R { rs1, rd, .. } => float_step(
            s,
            (
                s.with_fpu(s.fpu.with_value(f, rd, exec_core::width_of(f).wrap(s.reg(rs1) as int))),
                Ok(()),
            ),
            4,
        ),
        _ => (s, Ok(())),
    }
}

/// Executes a move of raw bits from an integer register.
pub fn exec_mv_f_from_x(
    f: FloatFormat,
    info: RVInstrInfo,
    cpu: &mut RVCPU,
) -> (r: Result<(), Exception>)
    requires
        old(cpu).wf(),
        info.regs_ok(),
        info is R,
    ensures
        final(cpu).wf(),
        final(cpu)@ == mv_f_from_x_step(f, old(cpu)@, info).0,
        r == mv_f_from_x_step(f, old(cpu)@, info).1,
{
    proof {
        reveal(float_step);
        reveal(mv_f_from_x_step);
    }
    if let RVInstrInfo::R { rs1, rs2: _, rd } = info {
        if cpu.csr.get_field(CsrField::Mstatus_fs) == 0 {
            return Err(Exception::IllegalInstruction);
        }
        let raw: u64 = exec_core::float_width(f).truncate(cpu.read_reg(rs1));
        cpu.fpu.store_raw(f, rd, raw);
        return finish_float(cpu, Ok(()), 4);
    }
    Ok(())
}

/// What a minimum does.
#[verifier::opaque]
pub open spec fn float_min_step(f: FloatFormat, s: CpuState, info: RVInstrInfo) -> Step {
    match info {
        RVInstrInfo::R { rs1, rs2, rd } => float_step(
            s,
            (
                s.with_fpu(
                    s.fpu.finished(
                        f,
                        rd,
                        bits::extreme_of(f, false, s.fpu.value(f, rs1), s.fpu.value(f, rs2)),
                    ),
                ),
                Ok(()),
            ),
            4,
        ),
        _ => (s, Ok(())),
    }
}

/// Executes a minimum.
pub fn exec_float_min(
    f: FloatFormat,
    info: RVInstrInfo,
    cpu: &mut RVCPU,
) -> (r: Result<(), Exception>)
    requires
        old(cpu).wf(),
        info.regs_ok(),
        info is R,
    ensures
        final(cpu).wf(),
        final(cpu)@ == float_min_step(f, old(cpu)@, info).0,
        r == float_min_step(f, old(cpu)@, info).1,
{
    proof {
        reveal(float_step);
        reveal(float_min_step);
    }
    if let RVInstrInfo::R { rs1, rs2, rd } = info {
        if cpu.csr.get_field(CsrField::Mstatus_fs) == 0 {
            return Err(Exception::IllegalInstruction);
        }
        cpu.fpu.min_num(f, rs1, rs2, rd);
        return finish_float(cpu, Ok(()), 4);
    }
    Ok(())
}

/// What a maximum does.
#[verifier::opaque]
pub open spec fn float_max_step(f: FloatFormat, s: CpuState, info: RVInstrInfo) -> Step {
    match info {
        RVInstrInfo::R { rs1, rs2, rd } => float_step(
            s,
            (
                s.with_fpu(
                    s.fpu.finished(
                        f,
                        rd,
                        bits::extreme_of(f, true, s.fpu.value(f, rs1), s.fpu.value(f, rs2)),
                    ),
                ),
                Ok(()),
            ),
            4,
        ),
        _ => (s, Ok(())),
    }
}

/// Executes a maximum.
pub fn exec_float_max(
    f: FloatFormat,
    info: RVInstrInfo,
    cpu: &mut RVCPU,
) -> (r: Result<(), Exception>)
    requires
        old(cpu).wf(),
        info.regs_ok(),
        info is R,
    ensures
        final(cpu).wf(),
        final(cpu)@ == float_max_step(f, old(cpu)@, info).0,
        r == float_max_step(f, old(cpu)@, info).1,
{
    proof {
        reveal(float_step);
        reveal(float_max_step);
    }
    if let RVInstrInfo::R { rs1, rs2, rd } = info {
        if cpu.csr.get_field(CsrField::Mstatus_fs) == 0 {
            return Err(Exception::IllegalInstruction);
        }
        cpu.fpu.max_num(f, rs1, rs2, rd);
        return finish_float(cpu, Ok(()), 4);
    }
    Ok(())
}

} // verus!
