//! What the fixed-point vector instructions are for, as relations between the register bytes before
//! and after.
use vstd::arithmetic::div_mod::*;
use vstd::arithmetic::power2::*;
use vstd::prelude::*;

use crate::isa::riscv::csr_reg::csr_index;
use crate::isa::riscv::csr_reg::field;
use crate::isa::riscv::csr_reg::field::CsrField;
use crate::isa::riscv::executor::CpuState;
use crate::isa::riscv::trap::trap_laws;
use crate::isa::riscv::vector::element;
use crate::isa::riscv::vector::fixed;
use crate::isa::riscv::vector::fixed::{Fit, FixedFn, FixedOp, FixedPointRoundingMode};
use crate::isa::riscv::vector::state;
use crate::utils::Width;

use super::dispatch;
use super::exec_mapping;
use super::exec_mapping::{ExecFn, VecForm};
use super::exec_vector_function;
use super::info::RVInstrInfo;
use super::instr_table::RiscvInstr;
use super::vector_laws;

verus! {

/// The form of a fixed-point instruction on elements of one width.
pub open spec fn fixed_form(instr: RiscvInstr) -> Option<VecForm> {
    match instr {
        RiscvInstr::VSADDU_VV
        | RiscvInstr::VSADD_VV
        | RiscvInstr::VSSUBU_VV
        | RiscvInstr::VSSUB_VV
        | RiscvInstr::VAADDU_VV
        | RiscvInstr::VAADD_VV
        | RiscvInstr::VASUBU_VV
        | RiscvInstr::VASUB_VV
        | RiscvInstr::VSMUL_VV
        | RiscvInstr::VSSRL_VV
        | RiscvInstr::VSSRA_VV => Some(VecForm::VV),
        RiscvInstr::VSADDU_VX
        | RiscvInstr::VSADD_VX
        | RiscvInstr::VSSUBU_VX
        | RiscvInstr::VSSUB_VX
        | RiscvInstr::VAADDU_VX
        | RiscvInstr::VAADD_VX
        | RiscvInstr::VASUBU_VX
        | RiscvInstr::VASUB_VX
        | RiscvInstr::VSMUL_VX
        | RiscvInstr::VSSRL_VX
        | RiscvInstr::VSSRA_VX => Some(VecForm::VX),
        RiscvInstr::VSADDU_VI | RiscvInstr::VSADD_VI => Some(VecForm::VI),
        RiscvInstr::VSSRL_VI | RiscvInstr::VSSRA_VI => Some(VecForm::VU),
        _ => None,
    }
}

/// Whether `q` is `x / d` rounded as `vxrm` asks for: to the nearest with ties up (0), with ties to
/// even (1), down (2), or, where it is not exact, to the odd neighbour (3).
pub open spec fn is_scaled(x: int, d: int, q: int, vxrm: u64) -> bool {
    let off = x - q * d;
    if vxrm == 0 {
        -d <= 2 * off < d
    } else if vxrm == 1 {
        -d <= 2 * off <= d && (2 * off == d || 2 * off == -d ==> q % 2 == 0)
    } else if vxrm == 2 {
        0 <= off < d
    } else {
        off == 0 || (-d < off < d && q % 2 == 1)
    }
}

/// Whether `r` is the number of a range that is nearest to `x`.
pub open spec fn is_nearest(x: int, least: int, greatest: int, r: int) -> bool {
    if x < least {
        r == least
    } else if x > greatest {
        r == greatest
    } else {
        r == x
    }
}

/// A rounded quotient is scaled.
#[verifier::rlimit(40)]
proof fn lemma_scaled(x: int, n: nat, bits: u64)
    requires
        bits < 4,
    ensures
        is_scaled(
            x,
            pow2(n) as int,
            fixed::rounded(x, n, FixedPointRoundingMode::of_bits(bits)),
            bits,
        ),
{
    let d = pow2(n) as int;
    lemma_pow2_pos(n);
    lemma_fundamental_div_mod(x, d);
    lemma_mod_bound(x, d);
    let q = x / d;
    assert(d * q == q * d && (q + 1) * d == q * d + d) by (nonlinear_arith);
    if n > 0 {
        lemma_pow2_unfold(n);
    } else {
        lemma2_to64();
    }
}

/// What a fixed-point instruction leaves in an element of its destination.
#[verifier::rlimit(40)]
proof fn lemma_fixed_after(f: FixedOp, vd: u8, vm: bool, s: CpuState, i: int)
    requires
        s.vector.wf(),
        exec_vector_function::fixed_point_step(f, vd, !vm, s).1 is Ok,
        0 <= i < s.vector.config.vl,
    ensures
        ({
            let w = s.vector.sew();
            let t = exec_vector_function::fixed_point_step(f, vd, !vm, s).0;
            &&& f.legal(s.vector.config, vd)
            &&& vector_laws::held(t, vd, i, w) == if vector_laws::works_on(s, vm, i) {
                w.wrap(f.value(s.vector, i, s.fixed_point_rounding()).0 as int)
            } else {
                vector_laws::held(s, vd, i, w)
            }
        }),
{
    reveal(exec_vector_function::fixed_point_step);
    reveal(exec_vector_function::vector_step);
    let c = s.vector.config;
    let w = s.vector.sew();
    element::lemma_results_fit(c, vd, w);
    let results = f.results(s.vector, !vm, s.vstart(), s.fixed_point_rounding());
    state::law_written_elements(s.vector.bytes, vd, w, results, c.vl as int, i);
    assert(vector_laws::works_on(s, vm, i) == s.vector.active(i, !vm, s.vstart()));
}

/// A fitted number is the nearest of its range.
#[verifier::rlimit(40)]
proof fn lemma_fitted(w: Width, x: int)
    ensures
        ({
            let (u, v) = (Fit::Unsigned.fitted(w, x).0, Fit::Signed.fitted(w, x).0);
            &&& w.holds(u)
            &&& is_nearest(x, 0, w.modulus() - 1, u as int)
            &&& w.holds(v)
            &&& is_nearest(x, -w.half(), w.half() - 1, w.signed(v))
        }),
{
}

/// How the result `r` of a fixed-point instruction goes with its operands of width `w`.
#[verifier::opaque]
pub open spec fn scales(instr: RiscvInstr, w: Width, a: u64, b: u64, vxrm: u64, r: u64) -> bool {
    let (x, y, z) = (w.signed(a), w.signed(b), w.signed(r));
    let (m, h) = (w.modulus(), w.half());
    let shift = pow2((b as int % w.spec_bits()) as nat) as int;
    match instr {
        RiscvInstr::VSADDU_VV | RiscvInstr::VSADDU_VX | RiscvInstr::VSADDU_VI => is_nearest(
            a + b,
            0,
            m - 1,
            r as int,
        ),
        RiscvInstr::VSADD_VV | RiscvInstr::VSADD_VX | RiscvInstr::VSADD_VI => is_nearest(
            x + y,
            -h,
            h - 1,
            z,
        ),
        RiscvInstr::VSSUBU_VV | RiscvInstr::VSSUBU_VX => is_nearest(a - b, 0, m - 1, r as int),
        RiscvInstr::VSSUB_VV | RiscvInstr::VSSUB_VX => is_nearest(x - y, -h, h - 1, z),
        RiscvInstr::VAADDU_VV | RiscvInstr::VAADDU_VX => is_scaled_to(a + b, 2, m, vxrm, r),
        RiscvInstr::VAADD_VV | RiscvInstr::VAADD_VX => is_scaled_to(x + y, 2, m, vxrm, r),
        RiscvInstr::VASUBU_VV | RiscvInstr::VASUBU_VX => is_scaled_to(a - b, 2, m, vxrm, r),
        RiscvInstr::VASUB_VV | RiscvInstr::VASUB_VX => is_scaled_to(x - y, 2, m, vxrm, r),
        RiscvInstr::VSMUL_VV | RiscvInstr::VSMUL_VX => is_clipped(x * y, h, -h, h - 1, vxrm, z),
        RiscvInstr::VSSRL_VV | RiscvInstr::VSSRL_VX | RiscvInstr::VSSRL_VI => is_scaled_to(
            a as int,
            shift,
            m,
            vxrm,
            r,
        ),
        RiscvInstr::VSSRA_VV | RiscvInstr::VSSRA_VX | RiscvInstr::VSSRA_VI => is_scaled_to(
            x,
            shift,
            m,
            vxrm,
            r,
        ),
        _ => false,
    }
}

/// Whether `r` is, modulo `m`, the quotient of `x` and `d` rounded as `vxrm` asks for.
pub open spec fn is_scaled_to(x: int, d: int, m: int, vxrm: u64, r: u64) -> bool {
    exists|q: int| #[trigger] is_scaled(x, d, q, vxrm) && r == q % m
}

/// The operation of a fixed-point instruction.
pub open spec fn fixed_operation(instr: RiscvInstr) -> FixedFn {
    match instr {
        RiscvInstr::VSADDU_VV | RiscvInstr::VSADDU_VX | RiscvInstr::VSADDU_VI => FixedFn::Saddu,
        RiscvInstr::VSADD_VV | RiscvInstr::VSADD_VX | RiscvInstr::VSADD_VI => FixedFn::Sadd,
        RiscvInstr::VSSUBU_VV | RiscvInstr::VSSUBU_VX => FixedFn::Ssubu,
        RiscvInstr::VSSUB_VV | RiscvInstr::VSSUB_VX => FixedFn::Ssub,
        RiscvInstr::VAADDU_VV | RiscvInstr::VAADDU_VX => FixedFn::Aaddu,
        RiscvInstr::VAADD_VV | RiscvInstr::VAADD_VX => FixedFn::Aadd,
        RiscvInstr::VASUBU_VV | RiscvInstr::VASUBU_VX => FixedFn::Asubu,
        RiscvInstr::VASUB_VV | RiscvInstr::VASUB_VX => FixedFn::Asub,
        RiscvInstr::VSMUL_VV | RiscvInstr::VSMUL_VX => FixedFn::Smul,
        RiscvInstr::VSSRL_VV | RiscvInstr::VSSRL_VX | RiscvInstr::VSSRL_VI => FixedFn::Ssrl,
        _ => FixedFn::Ssra,
    }
}

#[verifier::rlimit(40)]
proof fn lemma_fixed_handler(instr: RiscvInstr)
    requires
        fixed_form(instr) is Some,
    ensures
        exec_mapping::exec_func_of(instr) == ExecFn::VecFixedPoint(
            fixed_operation(instr),
            fixed_form(instr)->0,
        ),
{
}

/// Whether `z` is the number of a range that is nearest to the quotient of `x` and `d` rounded as
/// `vxrm` asks for.
pub open spec fn is_clipped(
    x: int,
    d: int,
    least: int,
    greatest: int,
    vxrm: u64,
    z: int,
) -> bool {
    exists|q: int| #[trigger] is_scaled(x, d, q, vxrm) && is_nearest(q, least, greatest, z)
}

/// What a fixed-point operation computes is what the instruction stands for.
#[verifier::rlimit(40)]
proof fn lemma_scales(instr: RiscvInstr, w: Width, a: u64, b: u64, vxrm: u64)
    requires
        fixed_form(instr) is Some,
        w.holds(a),
        w.holds(b),
        vxrm < 4,
    ensures
        ({
            let op = fixed_operation(instr);
            let e = op.exact(w, a, b, FixedPointRoundingMode::of_bits(vxrm));
            let r = op.spec_fit().fitted(w, e).0;
            &&& w.holds(r)
            &&& scales(instr, w, a, b, vxrm, r)
        }),
{
    reveal(scales);
    let op = fixed_operation(instr);
    let mode = FixedPointRoundingMode::of_bits(vxrm);
    let e = op.exact(w, a, b, mode);
    lemma_fitted(w, e);
    vector_laws::lemma_wrapped(w, e);
    let (x, y) = (w.signed(a), w.signed(b));
    let n = (b as int % w.spec_bits()) as nat;
    let r = op.spec_fit().fitted(w, e).0;
    match instr {
        RiscvInstr::VSADDU_VV | RiscvInstr::VSADDU_VX | RiscvInstr::VSADDU_VI => {
            assert(e == a + b && op.spec_fit() == Fit::Unsigned);
        },
        RiscvInstr::VSADD_VV | RiscvInstr::VSADD_VX | RiscvInstr::VSADD_VI => {
            assert(e == x + y && op.spec_fit() == Fit::Signed);
        },
        RiscvInstr::VSSUBU_VV | RiscvInstr::VSSUBU_VX => {
            assert(e == a - b && op.spec_fit() == Fit::Unsigned);
        },
        RiscvInstr::VSSUB_VV | RiscvInstr::VSSUB_VX => {
            assert(e == x - y && op.spec_fit() == Fit::Signed);
        },
        RiscvInstr::VAADDU_VV | RiscvInstr::VAADDU_VX => {
            lemma_halved(w, a + b, vxrm);
        },
        RiscvInstr::VAADD_VV | RiscvInstr::VAADD_VX => {
            lemma_halved(w, x + y, vxrm);
        },
        RiscvInstr::VASUBU_VV | RiscvInstr::VASUBU_VX => {
            lemma_halved(w, a - b, vxrm);
        },
        RiscvInstr::VASUB_VV | RiscvInstr::VASUB_VX => {
            lemma_halved(w, x - y, vxrm);
        },
        RiscvInstr::VSMUL_VV | RiscvInstr::VSMUL_VX => {
            lemma_fraction_unit(w);
            lemma_scaled(x * y, (w.spec_bits() - 1) as nat, vxrm);
            assert(is_scaled(x * y, w.half(), e, vxrm) && op.spec_fit() == Fit::Signed);
            assert(is_clipped(x * y, w.half(), -w.half(), w.half() - 1, vxrm, w.signed(r)));
        },
        RiscvInstr::VSSRL_VV | RiscvInstr::VSSRL_VX | RiscvInstr::VSSRL_VI => {
            lemma_scaled(a as int, n, vxrm);
            assert(is_scaled(a as int, pow2(n) as int, e, vxrm) && r == e % w.modulus());
        },
        _ => {
            lemma_scaled(x, n, vxrm);
            assert(is_scaled(x, pow2(n) as int, e, vxrm) && r == e % w.modulus());
        },
    }
}

#[verifier::rlimit(40)]
proof fn lemma_halved(w: Width, e: int, vxrm: u64)
    requires
        vxrm < 4,
    ensures
        is_scaled_to(
            e,
            2,
            w.modulus(),
            vxrm,
            w.wrap(fixed::rounded(e, 1, FixedPointRoundingMode::of_bits(vxrm))),
        ),
{
    lemma2_to64();
    lemma_scaled(e, 1, vxrm);
    let q = fixed::rounded(e, 1, FixedPointRoundingMode::of_bits(vxrm));
    assert(is_scaled(e, 2, q, vxrm));
    vector_laws::lemma_wrapped(w, q);
}

#[verifier::rlimit(40)]
proof fn lemma_fraction_unit(w: Width)
    ensures
        pow2((w.spec_bits() - 1) as nat) == w.half(),
{
    lemma2_to64();
    lemma2_to64_rest();
}

/// The saturating instructions leave the exact sum or difference, or the nearest number of the
/// range; the averaging ones half of it, the rounding shifts the quotient by a power of two, and the
/// fractional multiplication the product scaled down by all bits but one, each rounded as `vxrm`
/// asks for.
#[verifier::rlimit(60)]
pub proof fn law_vector_fixed_point(
    instr: RiscvInstr,
    s: CpuState,
    rs1: u8,
    rs2: u8,
    rd: u8,
    vm: bool,
    func6: u8,
    i: int,
)
    requires
        fixed_form(instr) is Some,
        s.vector.wf(),
        rs1 < 32,
        0 <= i < s.vector.config.vl,
        s.csr.field(CsrField::Vcsr_vxrm) < 4,
        dispatch::executed(instr, s, RVInstrInfo::V { rs1, rs2, rd, vm, func6 }).1 is Ok,
    ensures
        ({
            let t = dispatch::executed(instr, s, RVInstrInfo::V { rs1, rs2, rd, vm, func6 }).0;
            let w = s.vector.config.vsew.spec_width();
            let vxrm = s.csr.field(CsrField::Vcsr_vxrm);
            let a = vector_laws::held(s, rs2, i, w);
            let b = vector_laws::second(s, fixed_form(instr)->0, rs1, i, w) as u64;
            let r = vector_laws::held(t, rd, i, w);
            if vector_laws::works_on(s, vm, i) {
                scales(instr, w, a, b, vxrm, r)
            } else {
                r == vector_laws::held(s, rd, i, w)
            }
        }),
{
    let info = RVInstrInfo::V { rs1, rs2, rd, vm, func6 };
    let form = fixed_form(instr)->0;
    let f = exec_mapping::exec_func_of(instr);
    let w = s.vector.sew();
    let rhs = exec_vector_function::rhs_of(form, s, rs1);
    vector_laws::lemma_second(s, form, rs1, i, w);
    vector_laws::lemma_held(s, rs2, i, w);
    let (a, b) = (vector_laws::held(s, rs2, i, w), rhs.value(s.vector, i, w));
    lemma_scales(instr, w, a, b, s.csr.field(CsrField::Vcsr_vxrm));
    lemma_fixed_handler(instr);
    let op = fixed_operation(instr);
    vector_laws::lemma_later_dispatch(f, s, info);
    reveal(ExecFn::vector_fixed_step);
    reveal(exec_vector_function::vec_fixed_point_op_step);
    lemma_fixed_after(FixedOp::Single { op, vs2: rs2, rhs }, rd, vm, s, i);
    let e = op.exact(w, a, b, s.fixed_point_rounding());
    vector_laws::lemma_wrapped(w, op.spec_fit().fitted(w, e).0 as int);
}

/// Whether a clip is signed, and the form of its distance.
pub open spec fn clip_kind(instr: RiscvInstr) -> Option<(bool, VecForm)> {
    match instr {
        RiscvInstr::VNCLIPU_WV => Some((false, VecForm::VV)),
        RiscvInstr::VNCLIP_WV => Some((true, VecForm::VV)),
        RiscvInstr::VNCLIPU_WX => Some((false, VecForm::VX)),
        RiscvInstr::VNCLIP_WX => Some((true, VecForm::VX)),
        RiscvInstr::VNCLIPU_WI => Some((false, VecForm::VU)),
        RiscvInstr::VNCLIP_WI => Some((true, VecForm::VU)),
        _ => None,
    }
}

/// A clip divides an element of twice the width by a power of two, rounds as `vxrm` asks for, and
/// leaves the nearest number of the narrow range.
#[verifier::rlimit(60)]
pub proof fn law_vector_clip(
    instr: RiscvInstr,
    s: CpuState,
    rs1: u8,
    rs2: u8,
    rd: u8,
    vm: bool,
    func6: u8,
    i: int,
)
    requires
        clip_kind(instr) is Some,
        s.vector.wf(),
        rs1 < 32,
        0 <= i < s.vector.config.vl,
        s.csr.field(CsrField::Vcsr_vxrm) < 4,
        dispatch::executed(instr, s, RVInstrInfo::V { rs1, rs2, rd, vm, func6 }).1 is Ok,
    ensures
        ({
            let t = dispatch::executed(instr, s, RVInstrInfo::V { rs1, rs2, rd, vm, func6 }).0;
            let w = s.vector.config.vsew.spec_width();
            let w2 = element::double(w);
            let vxrm = s.csr.field(CsrField::Vcsr_vxrm);
            let (signed, form) = clip_kind(instr)->0;
            let wide = vector_laws::held(s, rs2, i, w2);
            let d = pow2((vector_laws::second(s, form, rs1, i, w) % w2.spec_bits()) as nat) as int;
            let r = vector_laws::held(t, rd, i, w);
            if !vector_laws::works_on(s, vm, i) {
                r == vector_laws::held(s, rd, i, w)
            } else if signed {
                is_clipped(w2.signed(wide), d, -w.half(), w.half() - 1, vxrm, w.signed(r))
            } else {
                is_clipped(wide as int, d, 0, w.modulus() - 1, vxrm, r as int)
            }
        }),
{
    let info = RVInstrInfo::V { rs1, rs2, rd, vm, func6 };
    let (signed, form) = clip_kind(instr)->0;
    let f = exec_mapping::exec_func_of(instr);
    assert(f == ExecFn::VecClip(signed, form));
    vector_laws::lemma_later_dispatch(f, s, info);
    reveal(ExecFn::vector_fixed_step);
    reveal(exec_vector_function::vec_fixed_point_narrowing_op_step);
    let rhs = exec_vector_function::rhs_of(form, s, rs1);
    lemma_fixed_after(FixedOp::Clip { signed, vs2: rs2, rhs }, rd, vm, s, i);
    let w = s.vector.sew();
    let w2 = element::double(w);
    vector_laws::lemma_second(s, form, rs1, i, w);
    vector_laws::lemma_held(s, rs2, i, w2);
    let wide = vector_laws::held(s, rs2, i, w2);
    let n = (vector_laws::second(s, form, rs1, i, w) % w2.spec_bits()) as nat;
    let vxrm = s.csr.field(CsrField::Vcsr_vxrm);
    let mode = s.fixed_point_rounding();
    lemma_scaled(w2.signed(wide), n, vxrm);
    lemma_scaled(wide as int, n, vxrm);
    let e = fixed::rounded(
        if signed {
            w2.signed(wide)
        } else {
            wide as int
        },
        n,
        mode,
    );
    lemma_fitted(w, e);
    vector_laws::lemma_wrapped(w, Fit::Signed.fitted(w, e).0 as int);
    vector_laws::lemma_wrapped(w, Fit::Unsigned.fitted(w, e).0 as int);
}

/// Whether the exact sum or difference of element `i` of a saturating instruction does not fit, and
/// the instruction works on the element.
pub open spec fn overflows(
    instr: RiscvInstr,
    s: CpuState,
    rs1: u8,
    rs2: u8,
    vm: bool,
    i: int,
) -> bool {
    let w = s.vector.config.vsew.spec_width();
    let a = vector_laws::held(s, rs2, i, w);
    let b = vector_laws::second(s, fixed_form(instr)->0, rs1, i, w) as u64;
    let (x, y) = (w.signed(a), w.signed(b));
    vector_laws::works_on(s, vm, i) && match instr {
        RiscvInstr::VSADDU_VV | RiscvInstr::VSADDU_VX | RiscvInstr::VSADDU_VI => a + b
            >= w.modulus(),
        RiscvInstr::VSADD_VV | RiscvInstr::VSADD_VX | RiscvInstr::VSADD_VI => !(-w.half() <= x + y
            < w.half()),
        RiscvInstr::VSSUBU_VV | RiscvInstr::VSSUBU_VX => a < b,
        RiscvInstr::VSSUB_VV | RiscvInstr::VSSUB_VX => !(-w.half() <= x - y < w.half()),
        _ => false,
    }
}

/// A saturating addition or subtraction sets `vxsat` where an element that it works on did not fit,
/// and leaves it alone elsewhere.
#[verifier::rlimit(60)]
pub proof fn law_vector_saturation(
    instr: RiscvInstr,
    s: CpuState,
    rs1: u8,
    rs2: u8,
    rd: u8,
    vm: bool,
    func6: u8,
)
    requires
        fixed_operation(instr) == FixedFn::Saddu || fixed_operation(instr) == FixedFn::Sadd
            || fixed_operation(instr) == FixedFn::Ssubu || fixed_operation(instr) == FixedFn::Ssub,
        fixed_form(instr) is Some,
        s.vector.wf(),
        s.csr.complete(),
        rs1 < 32,
        dispatch::executed(instr, s, RVInstrInfo::V { rs1, rs2, rd, vm, func6 }).1 is Ok,
    ensures
        ({
            let t = dispatch::executed(instr, s, RVInstrInfo::V { rs1, rs2, rd, vm, func6 }).0;
            let before = field::field_of(s.csr.value(csr_index::vcsr), 0, 1);
            let after = field::field_of(t.csr.value(csr_index::vcsr), 0, 1);
            let some = exists|i: int|
                0 <= i < s.vector.config.vl && #[trigger] overflows(instr, s, rs1, rs2, vm, i);
            after == if some {
                1
            } else {
                before
            }
        }),
{
    let info = RVInstrInfo::V { rs1, rs2, rd, vm, func6 };
    let form = fixed_form(instr)->0;
    let f = exec_mapping::exec_func_of(instr);
    lemma_fixed_handler(instr);
    let op = fixed_operation(instr);
    vector_laws::lemma_later_dispatch(f, s, info);
    reveal(ExecFn::vector_fixed_step);
    reveal(exec_vector_function::vec_fixed_point_op_step);
    reveal(exec_vector_function::fixed_point_step);
    reveal(exec_vector_function::vector_step);
    let rhs = exec_vector_function::rhs_of(form, s, rs1);
    let g = FixedOp::Single { op, vs2: rs2, rhs };
    let mode = s.fixed_point_rounding();
    let n = s.vector.config.vl as int;
    let w = s.vector.sew();
    assert forall|i: int| 0 <= i < n implies (s.vector.active(i, !vm, s.vstart()) && (
    #[trigger] g.value(s.vector, i, mode)).1) == overflows(instr, s, rs1, rs2, vm, i) by {
        vector_laws::lemma_second(s, form, rs1, i, w);
        vector_laws::lemma_held(s, rs2, i, w);
    }
    let saturated = g.saturates(s.vector, !vm, s.vstart(), mode, n);
    if saturated {
        let i = choose|i: int|
            0 <= i < n && s.vector.active(i, !vm, s.vstart()) && (#[trigger] g.value(
                s.vector,
                i,
                mode,
            )).1;
        assert(overflows(instr, s, rs1, rs2, vm, i));
    }
    if exists|i: int| 0 <= i < n && #[trigger] overflows(instr, s, rs1, rs2, vm, i) {
        let i = choose|i: int| 0 <= i < n && #[trigger] overflows(instr, s, rs1, rs2, vm, i);
        assert(g.value(s.vector, i, mode).1);
    }
    field::law_field_reads_back(s.csr.value(csr_index::vcsr), 0, 1, 1);
    trap_laws::lemma_small_fields(s.csr.value(csr_index::vcsr), 0);
}

} // verus!
