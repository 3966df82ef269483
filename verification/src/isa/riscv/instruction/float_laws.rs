//! What the floating-point instructions are for, as relations between the hart before and after.
use vstd::arithmetic::power2::*;
use vstd::prelude::*;

use crate::fpu::apfloat;
use crate::fpu::bits;
use crate::fpu::bits::{FloatFormat, Round};
use crate::fpu::rounding;
use crate::fpu::sqrt;
use crate::isa::riscv::csr_reg::field::CsrField;
use crate::isa::riscv::executor::CpuState;
use crate::isa::riscv::trap::Exception;
use crate::utils;
use crate::utils::Width;

use super::alu_laws;
use super::dispatch;
use super::exec_float_function;
use super::exec_mapping;
use super::exec_mapping::ExecFn;
use super::info::RVInstrInfo;
use super::instr_table::RiscvInstr;
use super::vector_laws;

verus! {

/// Whether the floating-point register holds the number with the encoding `a`: a double as it is,
/// a single with every upper bit set.
pub open spec fn holds_number(s: CpuState, f: FloatFormat, reg: u8, a: u64) -> bool {
    match f {
        FloatFormat::Single => a < 0x1_0000_0000 && s.fpu.regs[reg as int] == 0xffff_ffff_0000_0000
            + a,
        FloatFormat::Double => s.fpu.regs[reg as int] == a,
    }
}

/// The rounding direction that a rounding field names.
pub open spec fn direction(rm: u8) -> Round {
    match rm {
        1 => Round::TowardZero,
        2 => Round::TowardNegative,
        3 => Round::TowardPositive,
        4 => Round::NearestTiesToAway,
        _ => Round::NearestTiesToEven,
    }
}

/// What a conversion to an integer converts, to which width, and whether that is signed.
pub open spec fn to_integer_kind(instr: RiscvInstr) -> Option<(FloatFormat, Width, bool)> {
    match instr {
        RiscvInstr::FCVT_W_S => Some((FloatFormat::Single, Width::W32, true)),
        RiscvInstr::FCVT_WU_S => Some((FloatFormat::Single, Width::W32, false)),
        RiscvInstr::FCVT_L_S => Some((FloatFormat::Single, Width::W64, true)),
        RiscvInstr::FCVT_LU_S => Some((FloatFormat::Single, Width::W64, false)),
        RiscvInstr::FCVT_W_D => Some((FloatFormat::Double, Width::W32, true)),
        RiscvInstr::FCVT_WU_D => Some((FloatFormat::Double, Width::W32, false)),
        RiscvInstr::FCVT_L_D => Some((FloatFormat::Double, Width::W64, true)),
        RiscvInstr::FCVT_LU_D => Some((FloatFormat::Double, Width::W64, false)),
        _ => None,
    }
}

/// The least integer of a kind.
pub open spec fn least(w: Width, signed: bool) -> int {
    if signed {
        -w.half()
    } else {
        0
    }
}

/// The greatest integer of a kind.
pub open spec fn greatest(w: Width, signed: bool) -> int {
    if signed {
        w.half() - 1
    } else {
        w.modulus() - 1
    }
}

/// The integer of a kind that a register holds, of a word the lower half.
pub open spec fn integer_in(reg: u64, w: Width, signed: bool) -> int {
    let low = reg as int % w.modulus();
    if signed && low >= w.half() {
        low - w.modulus()
    } else {
        low
    }
}

/// A finite number in the range of the integers converts to the integer `n` that the rounding field
/// asks for, where the number is `x / d`: towards zero (1), |n| <= |x / d| < |n| + 1 and n has the
/// sign of x; down (2), n is the floor; up (3), the ceiling; to the nearest (0 and 4), the
/// difference is at most a half, and of two nearest the even one or the one away from zero is
/// taken. A word is sign-extended, whether it is signed or not.
#[verifier::rlimit(60)]
pub proof fn law_float_to_integer(
    instr: RiscvInstr,
    s: CpuState,
    rs1: u8,
    rs2: u8,
    rd: u8,
    rm: u8,
    a: u64,
)
    requires
        to_integer_kind(instr) is Some,
        s.csr.field(CsrField::Mstatus_fs) != 0,
        s.regs.len() == 32,
        rd < 32,
        rm <= 4,
        ({
            let (f, w, signed) = to_integer_kind(instr)->0;
            let (x, d) = (rounding::signed_numerator(f, a), rounding::denominator(f, a));
            &&& holds_number(s, f, rs1, a)
            &&& f.magnitude(a) < f.spec_infinity()
            &&& least(w, signed) * d <= x <= greatest(w, signed) * d
        }),
    ensures
        ({
            let (f, w, signed) = to_integer_kind(instr)->0;
            let (x, d) = (rounding::signed_numerator(f, a), rounding::denominator(f, a));
            let step = dispatch::executed(instr, s, RVInstrInfo::R_rm { rs1, rs2, rd, rm });
            let t = step.0;
            let n = integer_in(t.reg(rd), w, signed);
            &&& step.1 is Ok
            &&& least(w, signed) <= n <= greatest(w, signed)
            &&& Width::W64.signed(t.reg(rd)) == w.signed(w.wrap(n))
            &&& rm == 1 && x >= 0 ==> n >= 0 && n * d <= x < (n + 1) * d
            &&& rm == 1 && x < 0 ==> n <= 0 && (n - 1) * d < x <= n * d
            &&& rm == 2 ==> n * d <= x < (n + 1) * d
            &&& rm == 3 ==> (n - 1) * d < x <= n * d
            &&& rm == 0 || rm == 4 ==> -d <= 2 * (x - n * d) <= d
            &&& rm == 0 && (2 * (x - n * d) == d || 2 * (x - n * d) == -d) ==> n % 2 == 0
            &&& rm == 4 && 2 * (x - n * d) == d ==> x < 0
            &&& rm == 4 && 2 * (x - n * d) == -d ==> x > 0
            &&& t.fpu.status == if n * d == x {
                bits::STATUS_OK
            } else {
                bits::STATUS_INEXACT
            }
            &&& t.fpu.regs == s.fpu.regs
            &&& forall|k: u8| k < 32 && k != rd ==> #[trigger] t.reg(k) == s.reg(k)
        }),
{
    let (f, w, signed) = to_integer_kind(instr)->0;
    let round = direction(rm);
    lemma_to_integer_step(instr, s, rs1, rs2, rd, rm, a);
    rounding::law_conversion_in_range(f, a, least(w, signed), greatest(w, signed), round);
    let v = rounding::to_integer(f, a, least(w, signed), greatest(w, signed), round).0;
    lemma_integer_in(w, signed, v);
}

/// What a register holds of an integer that was put there as a conversion does.
proof fn lemma_integer_in(w: Width, signed: bool, v: int)
    requires
        least(w, signed) <= v <= greatest(w, signed),
    ensures
        integer_in(utils::widened(w, w.wrap(v)), w, signed) == v,
        Width::W64.signed(utils::widened(w, w.wrap(v))) == w.signed(w.wrap(v)),
{
    let low = w.wrap(v);
    alu_laws::law_width(w, low, v);
    alu_laws::law_widened(w, low);
    assert(utils::widened(w, low) as int % w.modulus() == low);
}

/// The conversion as a step.
proof fn lemma_to_integer_step(
    instr: RiscvInstr,
    s: CpuState,
    rs1: u8,
    rs2: u8,
    rd: u8,
    rm: u8,
    a: u64,
)
    requires
        to_integer_kind(instr) is Some,
        s.csr.field(CsrField::Mstatus_fs) != 0,
        s.regs.len() == 32,
        rd < 32,
        rm <= 4,
        holds_number(s, (to_integer_kind(instr)->0).0, rs1, a),
        !(to_integer_kind(instr)->0).0.is_nan(a),
    ensures
        ({
            let (f, w, signed) = to_integer_kind(instr)->0;
            let (v, status) = rounding::to_integer(
                f,
                a,
                least(w, signed),
                greatest(w, signed),
                direction(rm),
            );
            let step = dispatch::executed(instr, s, RVInstrInfo::R_rm { rs1, rs2, rd, rm });
            let t = step.0;
            &&& least(w, signed) <= v <= greatest(w, signed) ==> t.reg(rd) == utils::widened(
                w,
                w.wrap(v),
            )
            &&& step.1 is Ok
            &&& t.fpu.status == status
            &&& t.fpu.regs == s.fpu.regs
            &&& forall|k: u8| k < 32 && k != rd ==> #[trigger] t.reg(k) == s.reg(k)
        }),
{
    let (f, w, signed) = to_integer_kind(instr)->0;
    let info = RVInstrInfo::R_rm { rs1, rs2, rd, rm };
    let g = exec_mapping::exec_func_of(instr);
    assert(g == ExecFn::IntFromFloat(f, w, signed));
    lemma_convert_dispatch(g, s, info);
    reveal(ExecFn::float_convert_step);
    reveal(exec_float_function::float_step);
    reveal(exec_float_function::cvt_i_from_f_step);
    reveal(exec_float_function::cvt_u_from_f_step);
    lemma2_to64();
    lemma2_to64_rest();
    assert(s.fpu.value(f, rs1) == a);
    assert(s.round(rm) == direction(rm));
}

/// The handlers of conversions, comparisons and moves are reached.
proof fn lemma_convert_dispatch(f: ExecFn, s: CpuState, info: RVInstrInfo)
    requires
        f is IntFromFloat || f is FloatFromSigned || f is FloatFromUnsigned || f is FloatConvert
            || f is FloatCompare || f is FloatLoad || f is FloatStore || f is XFromFloat
            || f is FloatFromX || f is FloatClassify,
    ensures
        f.step(s, info) == f.float_convert_step(s, info),
{
    reveal(ExecFn::base_step);
    reveal(ExecFn::float_arith_step);
}

/// The handlers of arithmetic are reached.
proof fn lemma_arith_dispatch(f: ExecFn, s: CpuState, info: RVInstrInfo)
    requires
        f is FloatArith || f is FloatFused || f is FloatSqrt || f is FloatMin || f is FloatMax
            || f is FloatSign,
    ensures
        f.step(s, info) == f.float_arith_step(s, info),
{
    reveal(ExecFn::base_step);
}

/// The handlers of moves are reached.
proof fn lemma_move_dispatch(f: ExecFn, s: CpuState, info: RVInstrInfo)
    requires
        f is FloatLoad || f is FloatStore || f is XFromFloat || f is FloatFromX
            || f is FloatClassify,
    ensures
        f.step(s, info) == f.float_move_step(s, info),
{
    lemma_convert_dispatch(f, s, info);
    reveal(ExecFn::float_convert_step);
}

/// Whether a step without exception left the number `v` in a floating-point register, left every
/// other one and the integer registers alone, and left `status` as the status of the unit. A unit
/// that makes NaNs canonical may have replaced one.
pub open spec fn gives_number(
    s: CpuState,
    t: CpuState,
    f: FloatFormat,
    rd: u8,
    v: u64,
    status: u8,
) -> bool {
    &&& f.is_nan(v) || holds_number(t, f, rd, v)
    &&& f.is_nan(v) && !s.fpu.canonical_nan ==> holds_number(t, f, rd, v)
    &&& f.is_nan(v) && s.fpu.canonical_nan ==> holds_number(
        t,
        f,
        rd,
        if f == FloatFormat::Single {
            0x7fc0_0000
        } else {
            0x7ff8_0000_0000_0000
        },
    )
    &&& t.fpu.status == status
    &&& forall|k: u8| k < 32 && k != rd ==> #[trigger] t.fpu.regs[k as int] == s.fpu.regs[k as int]
    &&& t.regs == s.regs
    &&& t.pc == (s.pc + 4) % 0x1_0000_0000_0000_0000
}

/// What finishing an operation leaves.
proof fn lemma_gives_number(
    s: CpuState,
    body: CpuState,
    f: FloatFormat,
    rd: u8,
    v: u64,
    status: u8,
)
    requires
        s.fpu.regs.len() == 32,
        rd < 32,
        f.encodes(v),
        s.csr.field(CsrField::Mstatus_fs) != 0,
        body == s.with_fpu(s.fpu.finished(f, rd, (v, status))),
    ensures
        ({
            let step = exec_float_function::float_step(s, (body, Ok(())), 4);
            step.1 is Ok && gives_number(s, step.0, f, rd, v, status)
        }),
{
    reveal(exec_float_function::float_step);
}

/// The exact operation that an arithmetic instruction on two numbers asks for, its operands in
/// order.
pub open spec fn arithmetic_result(
    instr: RiscvInstr,
    a: u64,
    b: u64,
    round: Round,
) -> Option<(FloatFormat, u64, u8)> {
    let (x, y) = (a as u32, b as u32);
    match instr {
        RiscvInstr::FADD_S => {
            let r = apfloat::single_add_of(x, y, round);
            Some((FloatFormat::Single, r.0 as u64, r.1))
        },
        RiscvInstr::FSUB_S => {
            let r = apfloat::single_sub_of(x, y, round);
            Some((FloatFormat::Single, r.0 as u64, r.1))
        },
        RiscvInstr::FMUL_S => {
            let r = apfloat::single_mul_of(x, y, round);
            Some((FloatFormat::Single, r.0 as u64, r.1))
        },
        RiscvInstr::FDIV_S => {
            let r = apfloat::single_div_of(x, y, round);
            Some((FloatFormat::Single, r.0 as u64, r.1))
        },
        RiscvInstr::FADD_D => {
            let r = apfloat::double_add_of(a, b, round);
            Some((FloatFormat::Double, r.0, r.1))
        },
        RiscvInstr::FSUB_D => {
            let r = apfloat::double_sub_of(a, b, round);
            Some((FloatFormat::Double, r.0, r.1))
        },
        RiscvInstr::FMUL_D => {
            let r = apfloat::double_mul_of(a, b, round);
            Some((FloatFormat::Double, r.0, r.1))
        },
        RiscvInstr::FDIV_D => {
            let r = apfloat::double_div_of(a, b, round);
            Some((FloatFormat::Double, r.0, r.1))
        },
        _ => None,
    }
}

/// Addition, subtraction, multiplication and division give the rounded result on the first and the
/// second source, in that order, rounded in the direction that the instruction names, and leave its
/// status.
#[verifier::rlimit(60)]
pub proof fn law_float_arithmetic(
    instr: RiscvInstr,
    s: CpuState,
    rs1: u8,
    rs2: u8,
    rd: u8,
    rm: u8,
    a: u64,
    b: u64,
)
    requires
        arithmetic_result(instr, a, b, direction(rm)) is Some,
        s.csr.field(CsrField::Mstatus_fs) != 0,
        s.fpu.regs.len() == 32,
        rd < 32,
        rm <= 4,
        holds_number(s, (arithmetic_result(instr, a, b, direction(rm))->0).0, rs1, a),
        holds_number(s, (arithmetic_result(instr, a, b, direction(rm))->0).0, rs2, b),
    ensures
        ({
            let (f, v, status) = arithmetic_result(instr, a, b, direction(rm))->0;
            let step = dispatch::executed(instr, s, RVInstrInfo::R_rm { rs1, rs2, rd, rm });
            step.1 is Ok && gives_number(s, step.0, f, rd, v, status)
        }),
{
    let (f, v, status) = arithmetic_result(instr, a, b, direction(rm))->0;
    let info = RVInstrInfo::R_rm { rs1, rs2, rd, rm };
    let g = exec_mapping::exec_func_of(instr);
    assert(g is FloatArith && g->FloatArith_0 == f);
    lemma_arith_dispatch(g, s, info);
    reveal(ExecFn::float_arith_step);
    reveal(exec_float_function::float_arith_rm_step);
    assert(s.fpu.value(f, rs1) == a && s.fpu.value(f, rs2) == b);
    assert(s.round(rm) == direction(rm));
    assert(g->FloatArith_1.result(f, a, b, direction(rm)) == (v, status));
    lemma_gives_number(s, s.with_fpu(s.fpu.finished(f, rd, (v, status))), f, rd, v, status);
}

/// The format of a fused instruction, and whether it negates the product and the addend.
pub open spec fn fused_kind(instr: RiscvInstr) -> Option<(FloatFormat, bool, bool)> {
    match instr {
        RiscvInstr::FMADD_S => Some((FloatFormat::Single, false, false)),
        RiscvInstr::FMSUB_S => Some((FloatFormat::Single, false, true)),
        RiscvInstr::FNMSUB_S => Some((FloatFormat::Single, true, false)),
        RiscvInstr::FNMADD_S => Some((FloatFormat::Single, true, true)),
        RiscvInstr::FMADD_D => Some((FloatFormat::Double, false, false)),
        RiscvInstr::FMSUB_D => Some((FloatFormat::Double, false, true)),
        RiscvInstr::FNMSUB_D => Some((FloatFormat::Double, true, false)),
        RiscvInstr::FNMADD_D => Some((FloatFormat::Double, true, true)),
        _ => None,
    }
}

/// An encoding with the other sign.
pub open spec fn flipped(f: FloatFormat, a: u64) -> u64 {
    let unit = match f {
        FloatFormat::Single => 0x8000_0000int,
        FloatFormat::Double => 0x8000_0000_0000_0000int,
    };
    if a >= unit {
        (a - unit) as u64
    } else {
        (a + unit) as u64
    }
}

/// The fused instructions multiply the first two sources and add the third with one rounding; the
/// product is negated by flipping the sign of the first factor, the addend by flipping its own.
#[verifier::rlimit(60)]
pub proof fn law_float_fused(
    instr: RiscvInstr,
    s: CpuState,
    rs1: u8,
    rs2: u8,
    rs3: u8,
    rd: u8,
    rm: u8,
    a: u64,
    b: u64,
    c: u64,
)
    requires
        fused_kind(instr) is Some,
        s.csr.field(CsrField::Mstatus_fs) != 0,
        s.fpu.regs.len() == 32,
        rd < 32,
        rm <= 4,
        holds_number(s, (fused_kind(instr)->0).0, rs1, a),
        holds_number(s, (fused_kind(instr)->0).0, rs2, b),
        holds_number(s, (fused_kind(instr)->0).0, rs3, c),
    ensures
        ({
            let (f, product, addend) = fused_kind(instr)->0;
            let x = if product {
                flipped(f, a)
            } else {
                a
            };
            let z = if addend {
                flipped(f, c)
            } else {
                c
            };
            let round = direction(rm);
            let step = dispatch::executed(
                instr,
                s,
                RVInstrInfo::R4_rm { rs1, rs2, rs3, rd, rm },
            );
            &&& step.1 is Ok
            &&& f == FloatFormat::Single ==> ({
                let r = apfloat::single_mul_add_of(x as u32, b as u32, z as u32, round);
                gives_number(s, step.0, f, rd, r.0 as u64, r.1)
            })
            &&& f == FloatFormat::Double ==> ({
                let r = apfloat::double_mul_add_of(x, b, z, round);
                gives_number(s, step.0, f, rd, r.0, r.1)
            })
        }),
{
    let (f, product, addend) = fused_kind(instr)->0;
    let info = RVInstrInfo::R4_rm { rs1, rs2, rs3, rd, rm };
    let g = exec_mapping::exec_func_of(instr);
    assert(g is FloatFused && g->FloatFused_0 == f);
    let op = g->FloatFused_1;
    assert(op.negates_product() == product && op.negates_addend() == addend);
    lemma_arith_dispatch(g, s, info);
    reveal(ExecFn::float_arith_step);
    reveal(exec_float_function::float_arith_r4_rm_step);
    assert(s.fpu.value(f, rs1) == a && s.fpu.value(f, rs2) == b && s.fpu.value(f, rs3) == c);
    assert(s.round(rm) == direction(rm));
    let (v, status) = op.result(f, a, b, c, direction(rm));
    assert(f.encodes(v));
    lemma_gives_number(s, s.with_fpu(s.fpu.finished(f, rd, (v, status))), f, rd, v, status);
}

/// With the rounding field 7 an instruction rounds as `frm` says: it does what the same instruction
/// does whose field holds that direction.
#[verifier::rlimit(60)]
pub proof fn law_dynamic_rounding(
    instr: RiscvInstr,
    s: CpuState,
    rs1: u8,
    rs2: u8,
    rs3: u8,
    rd: u8,
    frm: u8,
)
    requires
        s.csr.field(CsrField::Fcsr_rm) == frm,
        frm != 7,
        ({
            let f = exec_mapping::exec_func_of(instr);
            f is FloatArith || f is FloatFused || f is FloatSqrt || f is IntFromFloat
                || f is FloatFromSigned || f is FloatFromUnsigned || f is FloatConvert
        }),
    ensures
        dispatch::executed(instr, s, RVInstrInfo::R_rm { rs1, rs2, rd, rm: 7 })
            == dispatch::executed(instr, s, RVInstrInfo::R_rm { rs1, rs2, rd, rm: frm }),
        dispatch::executed(instr, s, RVInstrInfo::R4_rm { rs1, rs2, rs3, rd, rm: 7 })
            == dispatch::executed(instr, s, RVInstrInfo::R4_rm { rs1, rs2, rs3, rd, rm: frm }),
{
    let f = exec_mapping::exec_func_of(instr);
    assert(s.round(7) == s.round(frm));
    reveal(ExecFn::base_step);
    reveal(ExecFn::float_arith_step);
    reveal(ExecFn::float_convert_step);
    reveal(exec_float_function::float_arith_rm_step);
    reveal(exec_float_function::float_arith_r4_rm_step);
    reveal(exec_float_function::sqrt_step);
    reveal(exec_float_function::cvt_i_from_f_step);
    reveal(exec_float_function::cvt_u_from_f_step);
    reveal(exec_float_function::cvt_f_from_i_step);
    reveal(exec_float_function::cvt_f_from_u_step);
    reveal(exec_float_function::cvt_float_step);
}

/// The flags are the bits of the status in reverse order: the lowest of the status, for an invalid
/// operation, is the highest flag, and the highest, for an inexact result, is the lowest flag.
#[verifier::rlimit(60)]
pub proof fn law_flag_order(status: u8)
    requires
        status < 32,
    ensures
        ({
            let flags = exec_float_function::fflags_of(status);
            &&& flags < 32
            &&& (flags / 16 == 1) == (status % 2 == 1)
            &&& (flags / 8 % 2 == 1) == (status / 2 % 2 == 1)
            &&& (flags / 4 % 2 == 1) == (status / 4 % 2 == 1)
            &&& (flags / 2 % 2 == 1) == (status / 8 % 2 == 1)
            &&& (flags % 2 == 1) == (status / 16 % 2 == 1)
        }),
{
}

/// The result and the operands of a sign injection: the magnitude of the first source, under the
/// sign of the second, its opposite, or the sign that the two make together.
#[verifier::rlimit(60)]
pub proof fn law_sign_injection(
    instr: RiscvInstr,
    s: CpuState,
    rs1: u8,
    rs2: u8,
    rd: u8,
    a: u64,
    b: u64,
    f: FloatFormat,
)
    requires
        match instr {
            RiscvInstr::FSGNJ_S | RiscvInstr::FSGNJN_S | RiscvInstr::FSGNJX_S => f
                == FloatFormat::Single,
            RiscvInstr::FSGNJ_D | RiscvInstr::FSGNJN_D | RiscvInstr::FSGNJX_D => f
                == FloatFormat::Double,
            _ => false,
        },
        s.csr.field(CsrField::Mstatus_fs) != 0,
        s.fpu.regs.len() == 32,
        rd < 32,
        holds_number(s, f, rs1, a),
        holds_number(s, f, rs2, b),
    ensures
        ({
            let unit = match f {
                FloatFormat::Single => 0x8000_0000int,
                FloatFormat::Double => 0x8000_0000_0000_0000int,
            };
            let (x, y) = (a >= unit, b >= unit);
            let sign = match instr {
                RiscvInstr::FSGNJ_S | RiscvInstr::FSGNJ_D => y,
                RiscvInstr::FSGNJN_S | RiscvInstr::FSGNJN_D => !y,
                _ => x != y,
            };
            let step = dispatch::executed(instr, s, RVInstrInfo::R { rs1, rs2, rd });
            let v = (a as int % unit) + if sign {
                unit
            } else {
                0
            };
            &&& step.1 is Ok
            &&& holds_number(step.0, f, rd, v as u64)
            &&& step.0.fpu.status == bits::STATUS_OK
            &&& forall|k: u8|
                k < 32 && k != rd ==> #[trigger] step.0.fpu.regs[k as int] == s.fpu.regs[k as int]
            &&& step.0.regs == s.regs
        }),
{
    let info = RVInstrInfo::R { rs1, rs2, rd };
    let g = exec_mapping::exec_func_of(instr);
    assert(g is FloatSign && g->FloatSign_0 == f);
    lemma_arith_dispatch(g, s, info);
    reveal(ExecFn::float_arith_step);
    reveal(exec_float_function::float_arith_step);
    reveal(exec_float_function::float_step);
    assert(s.fpu.value(f, rs1) == a && s.fpu.value(f, rs2) == b);
}

/// Whether one number is less than another, neither a NaN: by sign, then by magnitude. The two zeros
/// are equal.
pub open spec fn is_less(f: FloatFormat, a: u64, b: u64) -> bool {
    let unit = match f {
        FloatFormat::Single => 0x8000_0000int,
        FloatFormat::Double => 0x8000_0000_0000_0000int,
    };
    let (ma, mb) = (a as int % unit, b as int % unit);
    if a < unit && b < unit {
        ma < mb
    } else if a >= unit && b >= unit {
        mb < ma
    } else {
        a >= unit && (ma != 0 || mb != 0)
    }
}

/// The format of a comparison.
pub open spec fn comparison_format(instr: RiscvInstr) -> Option<FloatFormat> {
    match instr {
        RiscvInstr::FEQ_S | RiscvInstr::FLT_S | RiscvInstr::FLE_S => Some(FloatFormat::Single),
        RiscvInstr::FEQ_D | RiscvInstr::FLT_D | RiscvInstr::FLE_D => Some(FloatFormat::Double),
        _ => None,
    }
}

/// A comparison leaves 1 or 0 in an integer register: 0 where an operand is a NaN, and else whether
/// the first source is equal to the second, less, or not greater. FLT and FLE find any NaN invalid,
/// FEQ only a signaling one.
#[verifier::rlimit(60)]
pub proof fn law_float_comparison(
    instr: RiscvInstr,
    s: CpuState,
    rs1: u8,
    rs2: u8,
    rd: u8,
    a: u64,
    b: u64,
)
    requires
        comparison_format(instr) is Some,
        s.csr.field(CsrField::Mstatus_fs) != 0,
        s.regs.len() == 32,
        rd < 32,
        holds_number(s, comparison_format(instr)->0, rs1, a),
        holds_number(s, comparison_format(instr)->0, rs2, b),
    ensures
        ({
            let f = comparison_format(instr)->0;
            let step = dispatch::executed(instr, s, RVInstrInfo::R { rs1, rs2, rd });
            let t = step.0;
            let nan = f.is_nan(a) || f.is_nan(b);
            let holds = !nan && match instr {
                RiscvInstr::FEQ_S | RiscvInstr::FEQ_D => !is_less(f, a, b) && !is_less(f, b, a),
                RiscvInstr::FLT_S | RiscvInstr::FLT_D => is_less(f, a, b),
                _ => !is_less(f, b, a),
            };
            let invalid = match instr {
                RiscvInstr::FEQ_S | RiscvInstr::FEQ_D => f.is_signaling(a) || f.is_signaling(b),
                _ => nan,
            };
            &&& step.1 is Ok
            &&& t.reg(rd) == if holds {
                1u64
            } else {
                0
            }
            &&& t.fpu.status == if invalid {
                1u8
            } else {
                0
            }
            &&& t.fpu.regs == s.fpu.regs
            &&& forall|k: u8| k < 32 && k != rd ==> #[trigger] t.reg(k) == s.reg(k)
        }),
{
    let f = comparison_format(instr)->0;
    let info = RVInstrInfo::R { rs1, rs2, rd };
    let g = exec_mapping::exec_func_of(instr);
    assert(g is FloatCompare && g->FloatCompare_0 == f);
    lemma_convert_dispatch(g, s, info);
    reveal(ExecFn::float_convert_step);
    reveal(exec_float_function::float_compare_step);
    reveal(exec_float_function::float_step);
    assert(s.fpu.value(f, rs1) == a && s.fpu.value(f, rs2) == b);
}

/// The format of a minimum or maximum.
pub open spec fn extreme_format(instr: RiscvInstr) -> Option<FloatFormat> {
    match instr {
        RiscvInstr::FMIN_S | RiscvInstr::FMAX_S => Some(FloatFormat::Single),
        RiscvInstr::FMIN_D | RiscvInstr::FMAX_D => Some(FloatFormat::Double),
        _ => None,
    }
}

/// The minimum and the maximum of two numbers is one of them, and no other is less or greater; of
/// the two zeros the negative one is the minimum. A NaN yields to a number, and two NaNs give the
/// canonical one.
#[verifier::rlimit(60)]
pub proof fn law_float_extremes(
    instr: RiscvInstr,
    s: CpuState,
    rs1: u8,
    rs2: u8,
    rd: u8,
    a: u64,
    b: u64,
    v: u64,
)
    requires
        extreme_format(instr) is Some,
        s.csr.field(CsrField::Mstatus_fs) != 0,
        s.fpu.regs.len() == 32,
        rd < 32,
        holds_number(s, extreme_format(instr)->0, rs1, a),
        holds_number(s, extreme_format(instr)->0, rs2, b),
        holds_number(
            dispatch::executed(instr, s, RVInstrInfo::R { rs1, rs2, rd }).0,
            extreme_format(instr)->0,
            rd,
            v,
        ),
    ensures
        ({
            let f = extreme_format(instr)->0;
            let min = instr == RiscvInstr::FMIN_S || instr == RiscvInstr::FMIN_D;
            let unit = match f {
                FloatFormat::Single => 0x8000_0000int,
                FloatFormat::Double => 0x8000_0000_0000_0000int,
            };
            &&& dispatch::executed(instr, s, RVInstrInfo::R { rs1, rs2, rd }).1 is Ok
            &&& if f.is_nan(a) && f.is_nan(b) {
                v == if f == FloatFormat::Single {
                    0x7fc0_0000u64
                } else {
                    0x7ff8_0000_0000_0000
                }
            } else if f.is_nan(a) {
                v == b
            } else if f.is_nan(b) {
                v == a
            } else {
                &&& v == a || v == b
                &&& min ==> !is_less(f, a, v) && !is_less(f, b, v)
                &&& !min ==> !is_less(f, v, a) && !is_less(f, v, b)
                &&& min && a as int % unit == 0 && b as int % unit == 0 && a != b ==> v >= unit
                &&& !min && a as int % unit == 0 && b as int % unit == 0 && a != b ==> v < unit
            }
        }),
{
    let f = extreme_format(instr)->0;
    let info = RVInstrInfo::R { rs1, rs2, rd };
    let g = exec_mapping::exec_func_of(instr);
    lemma_arith_dispatch(g, s, info);
    reveal(ExecFn::float_arith_step);
    reveal(exec_float_function::float_min_step);
    reveal(exec_float_function::float_max_step);
    reveal(exec_float_function::float_step);
    assert(s.fpu.value(f, rs1) == a && s.fpu.value(f, rs2) == b);
}

/// A classification sets one of ten bits: from negative infinity (0) over the negative normal,
/// negative subnormal, negative zero, positive zero, positive subnormal and positive normal numbers
/// to positive infinity (7), then the signaling (8) and the quiet (9) NaN.
#[verifier::rlimit(60)]
pub proof fn law_float_classification(
    s: CpuState,
    rs1: u8,
    rs2: u8,
    rd: u8,
    a: u64,
    f: FloatFormat,
)
    requires
        s.csr.field(CsrField::Mstatus_fs) != 0,
        s.regs.len() == 32,
        rd < 32,
        holds_number(s, f, rs1, a),
    ensures
        ({
            let instr = match f {
                FloatFormat::Single => RiscvInstr::FCLASS_S,
                FloatFormat::Double => RiscvInstr::FCLASS_D,
            };
            let (unit, infinity, normal) = match f {
                FloatFormat::Single => (0x8000_0000int, 0x7f80_0000int, 0x80_0000int),
                FloatFormat::Double => (
                    0x8000_0000_0000_0000int,
                    0x7ff0_0000_0000_0000int,
                    0x10_0000_0000_0000int,
                ),
            };
            let m = a as int % unit;
            let step = dispatch::executed(instr, s, RVInstrInfo::R { rs1, rs2, rd });
            let place = if m >= infinity + normal / 2 {
                9
            } else if m > infinity {
                8
            } else {
                let size = if m == infinity {
                    3
                } else if m >= normal {
                    2
                } else if m > 0 {
                    1
                } else {
                    0int
                };
                if a >= unit {
                    3 - size
                } else {
                    4 + size
                }
            };
            step.1 is Ok && step.0.reg(rd) == pow2(place as nat)
        }),
{
    let instr = match f {
        FloatFormat::Single => RiscvInstr::FCLASS_S,
        FloatFormat::Double => RiscvInstr::FCLASS_D,
    };
    let info = RVInstrInfo::R { rs1, rs2, rd };
    let g = exec_mapping::exec_func_of(instr);
    lemma_move_dispatch(g, s, info);
    reveal(ExecFn::float_move_step);
    reveal(exec_float_function::float_classify_step);
    reveal(exec_float_function::float_step);
    assert(s.fpu.value(f, rs1) == a);
    lemma2_to64();
}

/// Moves carry bits: a word goes to an integer register sign-extended and to a floating-point
/// register with every upper bit set, a doubleword as it is.
#[verifier::rlimit(60)]
pub proof fn law_float_moves(s: CpuState, rs1: u8, rs2: u8, rd: u8)
    requires
        s.csr.field(CsrField::Mstatus_fs) != 0,
        s.regs.len() == 32,
        s.fpu.regs.len() == 32,
        rd < 32,
    ensures
        ({
            let (t, r) = dispatch::executed(RiscvInstr::FMV_X_W, s, RVInstrInfo::R { rs1, rs2, rd });
            r is Ok && Width::W64.signed(t.reg(rd)) == Width::W32.signed(
                s.fpu.regs[rs1 as int] % 0x1_0000_0000,
            ) && t.fpu.regs == s.fpu.regs
        }),
        ({
            let (t, r) = dispatch::executed(RiscvInstr::FMV_X_D, s, RVInstrInfo::R { rs1, rs2, rd });
            r is Ok && t.reg(rd) == s.fpu.regs[rs1 as int] && t.fpu.regs == s.fpu.regs
        }),
        ({
            let (t, r) = dispatch::executed(RiscvInstr::FMV_W_X, s, RVInstrInfo::R { rs1, rs2, rd });
            r is Ok && t.fpu.regs[rd as int] == 0xffff_ffff_0000_0000 + s.reg(rs1) % 0x1_0000_0000
                && t.regs == s.regs
        }),
        ({
            let (t, r) = dispatch::executed(RiscvInstr::FMV_D_X, s, RVInstrInfo::R { rs1, rs2, rd });
            r is Ok && t.fpu.regs[rd as int] == s.reg(rs1) && t.regs == s.regs
        }),
{
    let info = RVInstrInfo::R { rs1, rs2, rd };
    lemma_move_dispatch(ExecFn::XFromFloat(true), s, info);
    lemma_move_dispatch(ExecFn::XFromFloat(false), s, info);
    lemma_move_dispatch(ExecFn::FloatFromX(FloatFormat::Single), s, info);
    lemma_move_dispatch(ExecFn::FloatFromX(FloatFormat::Double), s, info);
    reveal(ExecFn::float_move_step);
    reveal(exec_float_function::mv_x_from_f_step);
    reveal(exec_float_function::mv_f_from_x_step);
    reveal(exec_float_function::float_step);
    lemma2_to64();
}

/// Loads and stores of floating-point registers go to the sum of a register and the immediate: a
/// load of a word sets every upper bit of the register, a store of a word takes the lower half.
#[verifier::rlimit(60)]
pub proof fn law_float_memory(s: CpuState, rs1: u8, rs2: u8, rd: u8, imm: u64, f: FloatFormat)
    requires
        s.csr.field(CsrField::Mstatus_fs) != 0,
        s.fpu.regs.len() == 32,
        rd < 32,
    ensures
        ({
            let (load, store, w) = match f {
                FloatFormat::Single => (RiscvInstr::FLW, RiscvInstr::FSW, Width::W32),
                FloatFormat::Double => (RiscvInstr::FLD, RiscvInstr::FSD, Width::W64),
            };
            let addr = ((s.reg(rs1) + imm) % 0x1_0000_0000_0000_0000) as u64;
            let (after, read) = s.data_read(addr, w);
            let (t, r) = dispatch::executed(load, s, RVInstrInfo::I { rs1, rd, imm });
            let (stored, done) = s.data_written(
                addr,
                w,
                (s.fpu.regs[rs2 as int] as int % w.modulus()) as u64,
            );
            let (u, q) = dispatch::executed(store, s, RVInstrInfo::S { rs1, rs2, imm });
            &&& t.vm == after.vm
            &&& read is Ok ==> r is Ok && holds_number(t, f, rd, read->Ok_0)
            &&& read is Err ==> r == Err::<(), Exception>(read->Err_0) && t.fpu == s.fpu
            &&& t.regs == s.regs
            &&& u.vm == stored.vm
            &&& q == done
            &&& u.regs == s.regs
            &&& u.fpu.regs == s.fpu.regs
        }),
{
    lemma_move_dispatch(ExecFn::FloatLoad(f), s, RVInstrInfo::I { rs1, rd, imm });
    lemma_move_dispatch(ExecFn::FloatStore(f), s, RVInstrInfo::S { rs1, rs2, imm });
    reveal(ExecFn::float_move_step);
    reveal(exec_float_function::float_load_step);
    reveal(exec_float_function::float_store_step);
    reveal(exec_float_function::float_step);
}

/// A square root of a positive number is the rounded root in the direction that the instruction
/// names; a negative number, zero aside, is invalid and gives the canonical NaN; zeros and the
/// positive infinity are their own roots.
#[verifier::rlimit(60)]
pub proof fn law_float_square_root(
    s: CpuState,
    rs1: u8,
    rs2: u8,
    rd: u8,
    rm: u8,
    a: u64,
    f: FloatFormat,
)
    requires
        s.csr.field(CsrField::Mstatus_fs) != 0,
        s.fpu.regs.len() == 32,
        rd < 32,
        rm <= 4,
        holds_number(s, f, rs1, a),
    ensures
        ({
            let instr = match f {
                FloatFormat::Single => RiscvInstr::FSQRT_S,
                FloatFormat::Double => RiscvInstr::FSQRT_D,
            };
            let step = dispatch::executed(instr, s, RVInstrInfo::R_rm { rs1, rs2, rd, rm });
            let nan = if f == FloatFormat::Single {
                0x7fc0_0000u64
            } else {
                0x7ff8_0000_0000_0000
            };
            &&& step.1 is Ok
            &&& f.magnitude(a) == 0 || a == f.spec_infinity() ==> gives_number(
                s,
                step.0,
                f,
                rd,
                a,
                bits::STATUS_OK,
            )
            &&& f.sign(a) && 0 < f.magnitude(a) <= f.spec_infinity() ==> gives_number(
                s,
                step.0,
                f,
                rd,
                nan,
                bits::STATUS_INVALID_OP,
            )
            &&& 0 < a < f.spec_infinity() ==> ({
                let (v, status) = sqrt::sqrt_of(f, a, direction(rm));
                &&& gives_number(s, step.0, f, rd, v, status)
                &&& exists|k: int, e: int, sh: int|
                    #[trigger] sqrt::is_rounded_root(f, a, k, e, sh, direction(rm)) && v == (e - 1)
                        * f.spec_fractions() + k
            })
        }),
{
    let instr = match f {
        FloatFormat::Single => RiscvInstr::FSQRT_S,
        FloatFormat::Double => RiscvInstr::FSQRT_D,
    };
    let info = RVInstrInfo::R_rm { rs1, rs2, rd, rm };
    let g = exec_mapping::exec_func_of(instr);
    lemma_arith_dispatch(g, s, info);
    reveal(ExecFn::float_arith_step);
    reveal(exec_float_function::sqrt_step);
    assert(s.fpu.value(f, rs1) == a);
    assert(s.round(rm) == direction(rm));
    let (v, status) = sqrt::sqrt_of(f, a, direction(rm));
    if 0 < a < f.spec_infinity() {
        sqrt::law_square_root(f, a, direction(rm));
        sqrt::lemma_root_encodes(f, a, direction(rm));
    }
    lemma_gives_number(s, s.with_fpu(s.fpu.finished(f, rd, (v, status))), f, rd, v, status);
}

/// What a conversion from an integer gives: the encoding of the rounded integer, and the status. The
/// words among the unsigned ones are the lower half of a register; the signed ones take the whole.
pub open spec fn from_integer_result(instr: RiscvInstr, x: u64, round: Round) -> Option<
    (FloatFormat, u64, u8),
> {
    let v = Width::W64.signed(x) as i64;
    let low = x % 0x1_0000_0000;
    match instr {
        RiscvInstr::FCVT_S_W | RiscvInstr::FCVT_S_L => {
            let r = apfloat::single_from_signed_of(v, round);
            Some((FloatFormat::Single, r.0 as u64, r.1))
        },
        RiscvInstr::FCVT_S_WU => {
            let r = apfloat::single_from_unsigned_of(low, round);
            Some((FloatFormat::Single, r.0 as u64, r.1))
        },
        RiscvInstr::FCVT_S_LU => {
            let r = apfloat::single_from_unsigned_of(x, round);
            Some((FloatFormat::Single, r.0 as u64, r.1))
        },
        RiscvInstr::FCVT_D_W | RiscvInstr::FCVT_D_L => {
            let r = apfloat::double_from_signed_of(v, round);
            Some((FloatFormat::Double, r.0, r.1))
        },
        RiscvInstr::FCVT_D_WU => {
            let r = apfloat::double_from_unsigned_of(low, round);
            Some((FloatFormat::Double, r.0, r.1))
        },
        RiscvInstr::FCVT_D_LU => {
            let r = apfloat::double_from_unsigned_of(x, round);
            Some((FloatFormat::Double, r.0, r.1))
        },
        _ => None,
    }
}

/// A conversion from an integer register gives the number that the integer is rounded to in the
/// direction that the instruction names.
#[verifier::rlimit(60)]
pub proof fn law_integer_to_float(
    instr: RiscvInstr,
    s: CpuState,
    rs1: u8,
    rs2: u8,
    rd: u8,
    rm: u8,
)
    requires
        from_integer_result(instr, s.reg(rs1), direction(rm)) is Some,
        s.csr.field(CsrField::Mstatus_fs) != 0,
        s.fpu.regs.len() == 32,
        rd < 32,
        rm <= 4,
    ensures
        ({
            let (f, v, status) = from_integer_result(instr, s.reg(rs1), direction(rm))->0;
            let step = dispatch::executed(instr, s, RVInstrInfo::R_rm { rs1, rs2, rd, rm });
            step.1 is Ok && gives_number(s, step.0, f, rd, v, status)
        }),
{
    let (f, v, status) = from_integer_result(instr, s.reg(rs1), direction(rm))->0;
    let info = RVInstrInfo::R_rm { rs1, rs2, rd, rm };
    let g = exec_mapping::exec_func_of(instr);
    lemma_convert_dispatch(g, s, info);
    reveal(ExecFn::float_convert_step);
    reveal(exec_float_function::cvt_f_from_i_step);
    reveal(exec_float_function::cvt_f_from_u_step);
    assert(s.round(rm) == direction(rm));
    let x = s.reg(rs1);
    assert(Width::W32.wrap(x as int) == x % 0x1_0000_0000 && Width::W64.wrap(x as int) == x);
    match instr {
        RiscvInstr::FCVT_S_W
        | RiscvInstr::FCVT_S_L
        | RiscvInstr::FCVT_D_W
        | RiscvInstr::FCVT_D_L => {
            assert(g == ExecFn::FloatFromSigned(f));
        },
        RiscvInstr::FCVT_S_WU | RiscvInstr::FCVT_D_WU => {
            assert(g == ExecFn::FloatFromUnsigned(f, Width::W32));
        },
        _ => {
            assert(g == ExecFn::FloatFromUnsigned(f, Width::W64));
        },
    }
    lemma_gives_number(s, s.with_fpu(s.fpu.finished(f, rd, (v, status))), f, rd, v, status);
}

/// A conversion between the formats takes a number of one and gives a number of the other.
#[verifier::rlimit(60)]
pub proof fn law_float_to_float(s: CpuState, rs1: u8, rs2: u8, rd: u8, rm: u8, a: u64)
    requires
        s.csr.field(CsrField::Mstatus_fs) != 0,
        s.fpu.regs.len() == 32,
        rd < 32,
        rm <= 4,
    ensures
        holds_number(s, FloatFormat::Single, rs1, a) ==> ({
            let r = apfloat::single_to_double_of(a as u32, direction(rm));
            let info = RVInstrInfo::R_rm { rs1, rs2, rd, rm };
            let step = dispatch::executed(RiscvInstr::FCVT_D_S, s, info);
            step.1 is Ok && gives_number(s, step.0, FloatFormat::Double, rd, r.0, r.1)
        }),
        holds_number(s, FloatFormat::Double, rs1, a) ==> ({
            let r = apfloat::double_to_single_of(a, direction(rm));
            let info = RVInstrInfo::R_rm { rs1, rs2, rd, rm };
            let step = dispatch::executed(RiscvInstr::FCVT_S_D, s, info);
            step.1 is Ok && gives_number(s, step.0, FloatFormat::Single, rd, r.0 as u64, r.1)
        }),
{
    let info = RVInstrInfo::R_rm { rs1, rs2, rd, rm };
    lemma_convert_dispatch(ExecFn::FloatConvert(FloatFormat::Single), s, info);
    lemma_convert_dispatch(ExecFn::FloatConvert(FloatFormat::Double), s, info);
    reveal(ExecFn::float_convert_step);
    reveal(exec_float_function::cvt_float_step);
    assert(s.round(rm) == direction(rm));
    let d = apfloat::single_to_double_of(a as u32, direction(rm));
    let n = apfloat::double_to_single_of(a, direction(rm));
    lemma_gives_number(
        s,
        s.with_fpu(s.fpu.finished(FloatFormat::Double, rd, d)),
        FloatFormat::Double,
        rd,
        d.0,
        d.1,
    );
    lemma_gives_number(
        s,
        s.with_fpu(s.fpu.finished(FloatFormat::Single, rd, (n.0 as u64, n.1))),
        FloatFormat::Single,
        rd,
        n.0 as u64,
        n.1,
    );
}

/// A NaN converts to the greatest integer; a number beyond the range by one or more, or an infinity,
/// to the end of the range on its side. All of that is invalid.
#[verifier::rlimit(60)]
pub proof fn law_float_to_integer_limits(
    instr: RiscvInstr,
    s: CpuState,
    rs1: u8,
    rs2: u8,
    rd: u8,
    rm: u8,
    a: u64,
)
    requires
        to_integer_kind(instr) is Some,
        s.csr.field(CsrField::Mstatus_fs) != 0,
        s.regs.len() == 32,
        rd < 32,
        rm <= 4,
        ({
            let (f, w, signed) = to_integer_kind(instr)->0;
            let (x, d) = (rounding::signed_numerator(f, a), rounding::denominator(f, a));
            &&& holds_number(s, f, rs1, a)
            &&& f.magnitude(a) >= f.spec_infinity() || x <= (least(w, signed) - 1) * d || x >= (
            greatest(w, signed) + 1) * d
        }),
    ensures
        ({
            let (f, w, signed) = to_integer_kind(instr)->0;
            let step = dispatch::executed(instr, s, RVInstrInfo::R_rm { rs1, rs2, rd, rm });
            let t = step.0;
            &&& step.1 is Ok
            &&& integer_in(t.reg(rd), w, signed) == if f.is_nan(a) || !f.sign(a) {
                greatest(w, signed)
            } else {
                least(w, signed)
            }
            &&& t.fpu.status == bits::STATUS_INVALID_OP
        }),
{
    let (f, w, signed) = to_integer_kind(instr)->0;
    let round = direction(rm);
    if f.is_nan(a) {
        let info = RVInstrInfo::R_rm { rs1, rs2, rd, rm };
        let g = exec_mapping::exec_func_of(instr);
        assert(g == ExecFn::IntFromFloat(f, w, signed));
        lemma_convert_dispatch(g, s, info);
        reveal(ExecFn::float_convert_step);
        reveal(exec_float_function::float_step);
        reveal(exec_float_function::cvt_i_from_f_step);
        reveal(exec_float_function::cvt_u_from_f_step);
        assert(s.fpu.value(f, rs1) == a);
        lemma_integer_in(w, signed, greatest(w, signed));
        vector_laws::lemma_wrapped(w, greatest(w, signed));
    } else {
        lemma_to_integer_step(instr, s, rs1, rs2, rd, rm, a);
        rounding::law_conversion_out_of_range(f, a, least(w, signed), greatest(w, signed), round);
        let v = rounding::to_integer(f, a, least(w, signed), greatest(w, signed), round).0;
        lemma_integer_in(w, signed, v);
    }
}

/// With the floating-point unit switched off its instructions are illegal and change nothing.
#[verifier::rlimit(60)]
pub proof fn law_float_unit_off(instr: RiscvInstr, s: CpuState, info: RVInstrInfo)
    requires
        s.csr.field(CsrField::Mstatus_fs) == 0,
        exec_mapping::exec_func_of(instr).takes(info),
        ({
            let f = exec_mapping::exec_func_of(instr);
            f is FloatArith || f is FloatFused || f is FloatSqrt || f is FloatMin || f is FloatMax
                || f is FloatSign || f is IntFromFloat || f is FloatFromSigned
                || f is FloatFromUnsigned || f is FloatConvert || f is FloatCompare
                || f is FloatLoad || f is FloatStore || f is XFromFloat || f is FloatFromX
                || f is FloatClassify
        }),
    ensures
        dispatch::executed(instr, s, info) == (s, Err::<(), Exception>(
            Exception::IllegalInstruction,
        )),
{
    let f = exec_mapping::exec_func_of(instr);
    reveal(ExecFn::base_step);
    reveal(ExecFn::float_arith_step);
    reveal(ExecFn::float_convert_step);
    reveal(ExecFn::float_move_step);
    reveal(exec_float_function::float_step);
    reveal(exec_float_function::float_arith_rm_step);
    reveal(exec_float_function::float_arith_r4_rm_step);
    reveal(exec_float_function::sqrt_step);
    reveal(exec_float_function::float_min_step);
    reveal(exec_float_function::float_max_step);
    reveal(exec_float_function::float_arith_step);
    reveal(exec_float_function::cvt_i_from_f_step);
    reveal(exec_float_function::cvt_u_from_f_step);
    reveal(exec_float_function::cvt_f_from_i_step);
    reveal(exec_float_function::cvt_f_from_u_step);
    reveal(exec_float_function::cvt_float_step);
    reveal(exec_float_function::float_compare_step);
    reveal(exec_float_function::float_load_step);
    reveal(exec_float_function::float_store_step);
    reveal(exec_float_function::mv_x_from_f_step);
    reveal(exec_float_function::mv_f_from_x_step);
    reveal(exec_float_function::float_classify_step);
}

} // verus!
