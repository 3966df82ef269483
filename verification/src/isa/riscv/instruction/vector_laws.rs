//! What the vector instructions on integers are for, as relations between the register bytes before
//! and after.
use vstd::arithmetic::div_mod::*;
use vstd::arithmetic::power2::*;
use vstd::prelude::*;

use crate::isa::riscv::csr_reg::csr_index;
use crate::isa::riscv::csr_reg::field::CsrField;
use crate::isa::riscv::executor::CpuState;
use crate::isa::riscv::trap::Exception;
use crate::isa::riscv::vector::element;
use crate::isa::riscv::vector::element::{ElemFn, Rhs, WidenFn};
use crate::isa::riscv::vector::state;
use crate::isa::riscv::vector::types;
use crate::utils;
use crate::utils::Width;

use super::alu;
use super::alu::AluFn;
use super::alu_laws;
use super::dispatch;
use super::exec_mapping;
use super::exec_mapping::{ExecFn, VecForm};
use super::exec_vector_function;
use super::info::RVInstrInfo;
use super::instr_table::RiscvInstr;
use super::integer_laws;

verus! {

/// Whether a vector instruction works on element `i`: it lies between `vstart` and `vl`, and is not
/// masked off by register 0.
pub open spec fn works_on(s: CpuState, vm: bool, i: int) -> bool {
    &&& s.csr.value(csr_index::vstart) <= i < s.vector.config.vl
    &&& vm || (s.vector.bytes[i / 8] >> ((i % 8) as u8)) & 1 == 1
}

/// Element `i` of width `w` of the registers from `reg` on.
pub open spec fn held(s: CpuState, reg: u8, i: int, w: Width) -> u64 {
    state::element(s.vector.bytes, reg, i, w)
}

/// The second operand of element `i`: an element, the low part of a register, or an immediate of
/// five bits that is sign-extended or not.
pub open spec fn second(s: CpuState, form: VecForm, rs1: u8, i: int, w: Width) -> int {
    match form {
        VecForm::VV => held(s, rs1, i, w) as int,
        VecForm::VX => s.reg(rs1) as int % w.modulus(),
        VecForm::VI => if rs1 < 16 {
            rs1 as int
        } else {
            w.modulus() + rs1 - 32
        },
        VecForm::VU => rs1 as int,
    }
}

/// The vector handlers are reached.
#[verifier::rlimit(40)]
pub proof fn lemma_vector_dispatch(f: ExecFn, s: CpuState, info: RVInstrInfo)
    requires
        f is VecConfig || f is VecInteger || f is VecMulAdd || f is VecWiden || f is VecWidenMulAdd
            || f is VecFixedPoint || f is VecClip || f is VecCarry || f is VecMerge
            || f is VecCompare || f is VecCarryOut || f is VecBit || f is VecExtend
            || f is VecWholeMove || f is VecSpec || f is VecUnitLoad || f is VecStrideLoad
            || f is VecIndexedLoad || f is VecUnorderedLoad || f is VecFaultFirstLoad
            || f is VecWholeLoad || f is VecMaskLoad || f is VecUnitStore || f is VecStrideStore
            || f is VecIndexedStore || f is VecUnorderedStore || f is VecWholeStore
            || f is VecMaskStore,
    ensures
        f.step(s, info) == f.vector_step(s, info),
{
    reveal(ExecFn::base_step);
    reveal(ExecFn::float_arith_step);
    reveal(ExecFn::float_convert_step);
    reveal(ExecFn::float_move_step);
    reveal(ExecFn::compressed_step);
    reveal(ExecFn::compressed_memory_step);
}

/// The second operand as the handlers see it.
#[verifier::rlimit(40)]
pub proof fn lemma_second(s: CpuState, form: VecForm, rs1: u8, i: int, w: Width)
    requires
        rs1 < 32,
    ensures
        exec_vector_function::rhs_of(form, s, rs1).value(s.vector, i, w) == second(
            s,
            form,
            rs1,
            i,
            w,
        ),
        w.holds(exec_vector_function::rhs_of(form, s, rs1).value(s.vector, i, w)),
        0 <= second(s, form, rs1, i, w) < w.modulus(),
{
    match form {
        VecForm::VV => {
            lemma_held(s, rs1, i, w);
        },
        VecForm::VX => {
            lemma_wrapped(w, s.reg(rs1) as int);
        },
        VecForm::VI => {
            lemma_extended(rs1, w);
        },
        VecForm::VU => {
            lemma_wrapped(w, rs1 as int);
        },
    }
}

/// An immediate of five bits, extended and cut to a width.
#[verifier::rlimit(40)]
proof fn lemma_extended(rs1: u8, w: Width)
    requires
        rs1 < 32,
    ensures
        w.wrap(utils::sign_extended(rs1 as u64, 5) as int) as int == if rs1 < 16 {
            rs1 as int
        } else {
            w.modulus() + rs1 - 32
        },
        w.holds(w.wrap(utils::sign_extended(rs1 as u64, 5) as int)),
{
    lemma2_to64();
    let x = utils::sign_extended(rs1 as u64, 5) as int;
    let m = w.modulus();
    lemma_wrapped(w, x);
    if rs1 >= 16 {
        assert(x == 0x1_0000_0000_0000_0000 + rs1 - 32);
        let r = m + rs1 - 32;
        let k = match w {
            Width::W8 => 0xff_ffff_ffff_ffffint,
            Width::W16 => 0xffff_ffff_ffffint,
            Width::W32 => 0xffff_ffffint,
            Width::W64 => 0int,
        };
        assert(m * k + r == x);
        lemma_mod_multiples_vanish(k, r, m);
        lemma_small_mod(r as nat, m as nat);
    }
}

/// A number cut to a width twice is cut once.
#[verifier::rlimit(40)]
pub proof fn lemma_wrapped(w: Width, x: int)
    ensures
        w.wrap(x) as int == x % w.modulus(),
        w.wrap(w.wrap(x) as int) == w.wrap(x),
        w.holds(w.wrap(x)),
        0 <= x < w.modulus() ==> w.wrap(x) == x,
{
    let m = w.modulus();
    lemma_mod_bound(x, m);
    lemma_mod_twice(x, m);
    if 0 <= x < m {
        lemma_small_mod(x as nat, m as nat);
    }
}

/// An element fits its width.
#[verifier::rlimit(40)]
pub proof fn lemma_held(s: CpuState, reg: u8, i: int, w: Width)
    ensures
        w.holds(held(s, reg, i, w)),
        0 <= held(s, reg, i, w) < w.modulus(),
{
}

/// What an instruction that computes elements leaves in an element of its destination.
#[verifier::rlimit(40)]
pub proof fn lemma_element_after(f: ElemFn, vd: u8, vm: bool, s: CpuState, i: int)
    requires
        s.vector.wf(),
        exec_vector_function::elements_step(f, vd, !vm, s).1 is Ok,
        0 <= i < s.vector.config.vl,
    ensures
        ({
            let w = f.dest_width(s.vector.sew());
            let t = exec_vector_function::elements_step(f, vd, !vm, s).0;
            &&& f.legal(s.vector.config, vd)
            &&& held(t, vd, i, w) == if works_on(s, vm, i) {
                match f.value(s.vector, i) {
                    Some(v) => w.wrap(v as int),
                    None => held(s, vd, i, w),
                }
            } else {
                held(s, vd, i, w)
            }
            &&& t.vector.config == s.vector.config
            &&& t.regs == s.regs
            &&& t.pc == (s.pc + 4) % 0x1_0000_0000_0000_0000
        }),
{
    reveal(exec_vector_function::elements_step);
    reveal(exec_vector_function::vector_step);
    let c = s.vector.config;
    let w = f.dest_width(s.vector.sew());
    element::lemma_results_fit(c, vd, w);
    let results = f.results(s.vector, !vm, s.vstart());
    state::law_written_elements(s.vector.bytes, vd, w, results, c.vl as int, i);
    assert(works_on(s, vm, i) == s.vector.active(i, !vm, s.vstart()));
}

/// The form of a multiply-add.
pub open spec fn mul_add_form(instr: RiscvInstr) -> Option<VecForm> {
    match instr {
        RiscvInstr::VMACC_VV
        | RiscvInstr::VNMSAC_VV
        | RiscvInstr::VMADD_VV
        | RiscvInstr::VNMSUB_VV => Some(VecForm::VV),
        RiscvInstr::VMACC_VX
        | RiscvInstr::VNMSAC_VX
        | RiscvInstr::VMADD_VX
        | RiscvInstr::VNMSUB_VX => Some(VecForm::VX),
        _ => None,
    }
}

/// The multiply-adds, modulo the width. VMACC adds the product of its two operands to the
/// destination and VNMSAC subtracts it; VMADD multiplies the destination by the second operand and
/// adds the first, and VNMSUB subtracts that product from the first. Elements that the instruction
/// does not work on keep their value.
#[verifier::rlimit(60)]
pub proof fn law_multiply_add(
    instr: RiscvInstr,
    s: CpuState,
    rs1: u8,
    rs2: u8,
    rd: u8,
    vm: bool,
    func6: u8,
    i: int,
)
    requires
        mul_add_form(instr) is Some,
        s.vector.wf(),
        rs1 < 32,
        0 <= i < s.vector.config.vl,
        dispatch::executed(instr, s, RVInstrInfo::V { rs1, rs2, rd, vm, func6 }).1 is Ok,
    ensures
        ({
            let t = dispatch::executed(instr, s, RVInstrInfo::V { rs1, rs2, rd, vm, func6 }).0;
            let w = s.vector.config.vsew.spec_width();
            let m = w.modulus();
            let before = held(s, rd, i, w);
            let after = held(t, rd, i, w);
            let a = held(s, rs2, i, w);
            let b = second(s, mul_add_form(instr)->0, rs1, i, w);
            if works_on(s, vm, i) {
                match instr {
                    RiscvInstr::VMACC_VV | RiscvInstr::VMACC_VX => after == (before + b * a) % m
                        && (a == 0 ==> after == before),
                    RiscvInstr::VNMSAC_VV | RiscvInstr::VNMSAC_VX => after == (before - b * a) % m
                        && (a == 0 ==> after == before),
                    RiscvInstr::VMADD_VV | RiscvInstr::VMADD_VX => after == (b * before + a) % m
                        && (before == 0 ==> after == a),
                    _ => after == (a - b * before) % m && (before == 0 ==> after == a),
                }
            } else {
                after == before
            }
        }),
{
    let info = RVInstrInfo::V { rs1, rs2, rd, vm, func6 };
    let form = mul_add_form(instr)->0;
    let f = exec_mapping::exec_func_of(instr);
    assert(f is VecMulAdd && f->VecMulAdd_1 == form);
    lemma_vector_dispatch(f, s, info);
    reveal(ExecFn::vector_step);
    reveal(exec_vector_function::vec_mul_add_op_step);
    let rhs = exec_vector_function::rhs_of(form, s, rs1);
    let g = ElemFn::MulAdd { op: f->VecMulAdd_0, vs2: rs2, rhs, vd: rd };
    lemma_element_after(g, rd, vm, s, i);
    let w = s.vector.sew();
    lemma_second(s, form, rs1, i, w);
    lemma_held(s, rd, i, w);
    lemma_held(s, rs2, i, w);
    let (before, a) = (held(s, rd, i, w), held(s, rs2, i, w));
    let b = rhs.value(s.vector, i, w);
    lemma_wrapped(w, f->VecMulAdd_0.exact(b, a, before));
    lemma_wrapped(w, a as int);
    lemma_wrapped(w, before as int);
    assert(a == 0 ==> b * a == 0) by (nonlinear_arith);
    assert(before == 0 ==> b * before == 0) by (nonlinear_arith);
}

/// The instruction on registers that a vector instruction is for each element, and the form of its
/// second operand.
pub open spec fn scalar_twin(instr: RiscvInstr) -> Option<(RiscvInstr, VecForm)> {
    match instr {
        RiscvInstr::VADD_VV => Some((RiscvInstr::ADD, VecForm::VV)),
        RiscvInstr::VADD_VX => Some((RiscvInstr::ADD, VecForm::VX)),
        RiscvInstr::VSUB_VV => Some((RiscvInstr::SUB, VecForm::VV)),
        RiscvInstr::VSUB_VX => Some((RiscvInstr::SUB, VecForm::VX)),
        RiscvInstr::VMUL_VV => Some((RiscvInstr::MUL, VecForm::VV)),
        RiscvInstr::VMUL_VX => Some((RiscvInstr::MUL, VecForm::VX)),
        RiscvInstr::VMULH_VV => Some((RiscvInstr::MULH, VecForm::VV)),
        RiscvInstr::VMULH_VX => Some((RiscvInstr::MULH, VecForm::VX)),
        RiscvInstr::VMULHU_VV => Some((RiscvInstr::MULHU, VecForm::VV)),
        RiscvInstr::VMULHU_VX => Some((RiscvInstr::MULHU, VecForm::VX)),
        RiscvInstr::VMULHSU_VV => Some((RiscvInstr::MULHSU, VecForm::VV)),
        RiscvInstr::VMULHSU_VX => Some((RiscvInstr::MULHSU, VecForm::VX)),
        RiscvInstr::VDIV_VV => Some((RiscvInstr::DIV, VecForm::VV)),
        RiscvInstr::VDIV_VX => Some((RiscvInstr::DIV, VecForm::VX)),
        RiscvInstr::VDIVU_VV => Some((RiscvInstr::DIVU, VecForm::VV)),
        RiscvInstr::VDIVU_VX => Some((RiscvInstr::DIVU, VecForm::VX)),
        RiscvInstr::VREM_VV => Some((RiscvInstr::REM, VecForm::VV)),
        RiscvInstr::VREM_VX => Some((RiscvInstr::REM, VecForm::VX)),
        RiscvInstr::VREMU_VV => Some((RiscvInstr::REMU, VecForm::VV)),
        RiscvInstr::VREMU_VX => Some((RiscvInstr::REMU, VecForm::VX)),
        RiscvInstr::VAND_VV => Some((RiscvInstr::AND, VecForm::VV)),
        RiscvInstr::VAND_VX => Some((RiscvInstr::AND, VecForm::VX)),
        RiscvInstr::VOR_VV => Some((RiscvInstr::OR, VecForm::VV)),
        RiscvInstr::VOR_VX => Some((RiscvInstr::OR, VecForm::VX)),
        RiscvInstr::VXOR_VV => Some((RiscvInstr::XOR, VecForm::VV)),
        RiscvInstr::VXOR_VX => Some((RiscvInstr::XOR, VecForm::VX)),
        RiscvInstr::VSRA_VV => Some((RiscvInstr::SRA, VecForm::VV)),
        RiscvInstr::VSRA_VX => Some((RiscvInstr::SRA, VecForm::VX)),
        RiscvInstr::VSRL_VV => Some((RiscvInstr::SRL, VecForm::VV)),
        RiscvInstr::VSRL_VX => Some((RiscvInstr::SRL, VecForm::VX)),
        RiscvInstr::VSLL_VV => Some((RiscvInstr::SLL, VecForm::VV)),
        RiscvInstr::VSLL_VX => Some((RiscvInstr::SLL, VecForm::VX)),
        RiscvInstr::VADD_VI => Some((RiscvInstr::ADD, VecForm::VI)),
        RiscvInstr::VAND_VI => Some((RiscvInstr::AND, VecForm::VI)),
        RiscvInstr::VOR_VI => Some((RiscvInstr::OR, VecForm::VI)),
        RiscvInstr::VXOR_VI => Some((RiscvInstr::XOR, VecForm::VI)),
        RiscvInstr::VSRA_VI => Some((RiscvInstr::SRA, VecForm::VU)),
        RiscvInstr::VSRL_VI => Some((RiscvInstr::SRL, VecForm::VU)),
        RiscvInstr::VSLL_VI => Some((RiscvInstr::SLL, VecForm::VU)),
        _ => None,
    }
}

#[verifier::rlimit(40)]
proof fn lemma_twin_handlers(instr: RiscvInstr)
    requires
        scalar_twin(instr) is Some,
    ensures
        ({
            let (twin, form) = scalar_twin(instr)->0;
            &&& integer_laws::is_long(twin)
            &&& exec_mapping::exec_func_of(twin) is Arith
            &&& exec_mapping::exec_func_of(instr) == ExecFn::VecInteger(
                exec_mapping::exec_func_of(twin)->Arith_0,
                form,
            )
        }),
{
}

/// The step of an integer operation on elements.
#[verifier::rlimit(40)]
proof fn lemma_integer_elements(
    op: AluFn,
    form: VecForm,
    s: CpuState,
    rs1: u8,
    rs2: u8,
    rd: u8,
    vm: bool,
    func6: u8,
    i: int,
)
    requires
        s.vector.wf(),
        rs1 < 32,
        0 <= i < s.vector.config.vl,
        ExecFn::VecInteger(op, form).step(s, RVInstrInfo::V { rs1, rs2, rd, vm, func6 }).1 is Ok,
    ensures
        ({
            let t = ExecFn::VecInteger(op, form).step(
                s,
                RVInstrInfo::V { rs1, rs2, rd, vm, func6 },
            ).0;
            let w = s.vector.config.vsew.spec_width();
            let a = held(s, rs2, i, w);
            let b = second(s, form, rs1, i, w) as u64;
            &&& w.holds(a)
            &&& w.holds(b)
            &&& held(t, rd, i, w) == if works_on(s, vm, i) {
                w.wrap(alu::alu(op, w, a, b) as int)
            } else {
                held(s, rd, i, w)
            }
        }),
{
    let info = RVInstrInfo::V { rs1, rs2, rd, vm, func6 };
    lemma_vector_dispatch(ExecFn::VecInteger(op, form), s, info);
    reveal(ExecFn::vector_step);
    reveal(exec_vector_function::vec_integer_op_step);
    let rhs = exec_vector_function::rhs_of(form, s, rs1);
    lemma_element_after(ElemFn::Alu { op, vs2: rs2, rhs }, rd, vm, s, i);
    let w = s.vector.sew();
    lemma_second(s, form, rs1, i, w);
    lemma_held(s, rs2, i, w);
}

/// A vector instruction on integers does for each element that it works on what the instruction on
/// registers of the same name does, at the selected width; the other elements keep their value.
#[verifier::rlimit(60)]
pub proof fn law_vector_arithmetic(
    instr: RiscvInstr,
    s: CpuState,
    rs1: u8,
    rs2: u8,
    rd: u8,
    vm: bool,
    func6: u8,
    i: int,
)
    requires
        scalar_twin(instr) is Some,
        s.vector.wf(),
        rs1 < 32,
        0 <= i < s.vector.config.vl,
        dispatch::executed(instr, s, RVInstrInfo::V { rs1, rs2, rd, vm, func6 }).1 is Ok,
    ensures
        ({
            let t = dispatch::executed(instr, s, RVInstrInfo::V { rs1, rs2, rd, vm, func6 }).0;
            let w = s.vector.config.vsew.spec_width();
            let (twin, form) = scalar_twin(instr)->0;
            if works_on(s, vm, i) {
                integer_laws::relates(
                    twin,
                    w,
                    held(s, rs2, i, w),
                    second(s, form, rs1, i, w) as u64,
                    held(t, rd, i, w),
                )
            } else {
                held(t, rd, i, w) == held(s, rd, i, w)
            }
        }),
{
    let w = s.vector.config.vsew.spec_width();
    let (twin, form) = scalar_twin(instr)->0;
    lemma_twin_handlers(instr);
    let op = exec_mapping::exec_func_of(twin)->Arith_0;
    lemma_integer_elements(op, form, s, rs1, rs2, rd, vm, func6, i);
    let (a, b) = (held(s, rs2, i, w), second(s, form, rs1, i, w) as u64);
    integer_laws::lemma_relates(twin, w, a, b);
    let r = alu::alu(op, w, a, b);
    integer_laws::lemma_relates_holds(twin, w, a, b, r);
    lemma_wrapped(w, r as int);
}

/// The number of registers of a group of the selected width.
pub open spec fn group_size(s: CpuState) -> int {
    let e = s.vector.config.vlmul.spec_eighths();
    if e >= 8 {
        e / 8
    } else {
        1
    }
}

/// An operation on elements of the selected width is executed wherever the unit is on and every
/// register that it names starts a group; elsewhere it is illegal and changes nothing.
#[verifier::rlimit(60)]
pub proof fn law_vector_legality(
    instr: RiscvInstr,
    s: CpuState,
    rs1: u8,
    rs2: u8,
    rd: u8,
    vm: bool,
    func6: u8,
)
    requires
        scalar_twin(instr) is Some || mul_add_form(instr) is Some,
        rs1 < 32,
        rs2 < 32,
        rd < 32,
    ensures
        ({
            let step = dispatch::executed(instr, s, RVInstrInfo::V { rs1, rs2, rd, vm, func6 });
            let form = if scalar_twin(instr) is Some {
                (scalar_twin(instr)->0).1
            } else {
                mul_add_form(instr)->0
            };
            let n = group_size(s);
            let legal = s.csr.field(CsrField::Mstatus_vs) != 0 && rd as int % n == 0 && rs2 as int
                % n == 0 && (form == VecForm::VV ==> rs1 as int % n == 0);
            &&& legal ==> step.1 is Ok
            &&& !legal ==> step == (s, Err::<(), Exception>(Exception::IllegalInstruction))
        }),
{
    let info = RVInstrInfo::V { rs1, rs2, rd, vm, func6 };
    let f = exec_mapping::exec_func_of(instr);
    lemma_selected_group(s, rd);
    lemma_selected_group(s, rs2);
    lemma_selected_group(s, rs1);
    reveal(exec_vector_function::elements_step);
    reveal(exec_vector_function::vector_step);
    if scalar_twin(instr) is Some {
        let (twin, form) = scalar_twin(instr)->0;
        lemma_twin_handlers(instr);
        lemma_vector_dispatch(f, s, info);
        reveal(ExecFn::vector_step);
        reveal(exec_vector_function::vec_integer_op_step);
    } else {
        assert(f is VecMulAdd && f->VecMulAdd_1 == mul_add_form(instr)->0);
        lemma_vector_dispatch(f, s, info);
        reveal(ExecFn::vector_step);
        reveal(exec_vector_function::vec_mul_add_op_step);
    }
}

/// A group of the selected width always exists.
#[verifier::rlimit(40)]
proof fn lemma_selected_group(s: CpuState, reg: u8)
    requires
        reg < 32,
    ensures
        s.vector.config.group_ok(reg, s.vector.sew()) == (reg as int % group_size(s) == 0),
{
    let c = s.vector.config;
    let b = c.vsew.spec_width().spec_bytes();
    let e = c.vlmul.spec_eighths();
    lemma_div_multiples_vanish(e, b);
    lemma_mod_multiples_basic(e, b);
    assert(b * e == e * b) by (nonlinear_arith);
}

/// The form of a reverse subtraction, a minimum or a maximum.
pub open spec fn choosing_form(instr: RiscvInstr) -> Option<VecForm> {
    match instr {
        RiscvInstr::VRSUB_VX
        | RiscvInstr::VMAX_VX
        | RiscvInstr::VMAXU_VX
        | RiscvInstr::VMIN_VX
        | RiscvInstr::VMINU_VX => Some(VecForm::VX),
        RiscvInstr::VRSUB_VI => Some(VecForm::VI),
        RiscvInstr::VMAX_VV
        | RiscvInstr::VMAXU_VV
        | RiscvInstr::VMIN_VV
        | RiscvInstr::VMINU_VV => Some(VecForm::VV),
        _ => None,
    }
}

/// The reverse subtraction, the maxima and the minima, for each element that they work on.
#[verifier::rlimit(60)]
pub proof fn law_vector_choice(
    instr: RiscvInstr,
    s: CpuState,
    rs1: u8,
    rs2: u8,
    rd: u8,
    vm: bool,
    func6: u8,
    i: int,
)
    requires
        choosing_form(instr) is Some,
        s.vector.wf(),
        rs1 < 32,
        0 <= i < s.vector.config.vl,
        dispatch::executed(instr, s, RVInstrInfo::V { rs1, rs2, rd, vm, func6 }).1 is Ok,
    ensures
        ({
            let t = dispatch::executed(instr, s, RVInstrInfo::V { rs1, rs2, rd, vm, func6 }).0;
            let w = s.vector.config.vsew.spec_width();
            let a = held(s, rs2, i, w);
            let b = second(s, choosing_form(instr)->0, rs1, i, w) as u64;
            let r = held(t, rd, i, w);
            let (x, y, z) = (w.signed(a), w.signed(b), w.signed(r));
            if !works_on(s, vm, i) {
                r == held(s, rd, i, w)
            } else {
                match instr {
                    RiscvInstr::VRSUB_VX | RiscvInstr::VRSUB_VI => r == b - a || r == b - a
                        + w.modulus(),
                    RiscvInstr::VMAX_VV | RiscvInstr::VMAX_VX => (r == a || r == b) && z >= x && z
                        >= y,
                    RiscvInstr::VMIN_VV | RiscvInstr::VMIN_VX => (r == a || r == b) && z <= x && z
                        <= y,
                    RiscvInstr::VMAXU_VV | RiscvInstr::VMAXU_VX => (r == a || r == b) && r >= a && r
                        >= b,
                    _ => (r == a || r == b) && r <= a && r <= b,
                }
            }
        }),
{
    let w = s.vector.config.vsew.spec_width();
    let form = choosing_form(instr)->0;
    let f = exec_mapping::exec_func_of(instr);
    assert(f is VecInteger && f->VecInteger_1 == form);
    let op = f->VecInteger_0;
    lemma_integer_elements(op, form, s, rs1, rs2, rd, vm, func6, i);
    let (a, b) = (held(s, rs2, i, w), second(s, form, rs1, i, w) as u64);
    alu_laws::law_sum_and_difference(w, b, a);
    alu_laws::law_extremes(w, a, b);
    lemma_wrapped(w, alu::alu(op, w, a, b) as int);
    lemma_wrapped(w, a as int);
    lemma_wrapped(w, b as int);
}

/// What a widening instruction makes of its operands: their forms.
pub open spec fn widening_form(instr: RiscvInstr) -> Option<VecForm> {
    match instr {
        RiscvInstr::VWADD_VV
        | RiscvInstr::VWADD_WV
        | RiscvInstr::VWADDU_VV
        | RiscvInstr::VWADDU_WV
        | RiscvInstr::VWSUB_VV
        | RiscvInstr::VWSUB_WV
        | RiscvInstr::VWSUBU_VV
        | RiscvInstr::VWSUBU_WV
        | RiscvInstr::VWMUL_VV
        | RiscvInstr::VWMULU_VV
        | RiscvInstr::VWMULSU_VV => Some(VecForm::VV),
        RiscvInstr::VWADD_VX
        | RiscvInstr::VWADD_WX
        | RiscvInstr::VWADDU_VX
        | RiscvInstr::VWADDU_WX
        | RiscvInstr::VWSUB_VX
        | RiscvInstr::VWSUB_WX
        | RiscvInstr::VWSUBU_VX
        | RiscvInstr::VWSUBU_WX
        | RiscvInstr::VWMUL_VX
        | RiscvInstr::VWMULU_VX
        | RiscvInstr::VWMULSU_VX => Some(VecForm::VX),
        _ => None,
    }
}

/// How the result `r` of a widening instruction, of twice the width `w`, goes with its operands: the
/// first is `a`, or `wide` where it has twice the width already.
#[verifier::opaque]
pub open spec fn widens(instr: RiscvInstr, w: Width, a: u64, wide: u64, b: u64, r: u64) -> bool {
    let w2 = element::double(w);
    match instr {
        RiscvInstr::VWADD_VV | RiscvInstr::VWADD_VX => w2.signed(r) == w.signed(a) + w.signed(b),
        RiscvInstr::VWADDU_VV | RiscvInstr::VWADDU_VX => r == a + b,
        RiscvInstr::VWSUB_VV | RiscvInstr::VWSUB_VX => w2.signed(r) == w.signed(a) - w.signed(b),
        RiscvInstr::VWSUBU_VV | RiscvInstr::VWSUBU_VX => w2.signed(r) == a - b,
        RiscvInstr::VWMUL_VV | RiscvInstr::VWMUL_VX => w2.signed(r) == w.signed(a) * w.signed(b),
        RiscvInstr::VWMULU_VV | RiscvInstr::VWMULU_VX => r == a * b,
        RiscvInstr::VWMULSU_VV | RiscvInstr::VWMULSU_VX => w2.signed(r) == w.signed(a) * b,
        RiscvInstr::VWADD_WV | RiscvInstr::VWADD_WX => r == (wide + w.signed(b)) % w2.modulus(),
        RiscvInstr::VWADDU_WV | RiscvInstr::VWADDU_WX => r == (wide + b) % w2.modulus(),
        RiscvInstr::VWSUB_WV | RiscvInstr::VWSUB_WX => r == (wide - w.signed(b)) % w2.modulus(),
        RiscvInstr::VWSUBU_WV | RiscvInstr::VWSUBU_WX => r == (wide - b) % w2.modulus(),
        _ => false,
    }
}

/// The operation of a widening instruction, and whether its first operand is wide.
spec fn widening_operation(instr: RiscvInstr) -> (WidenFn, bool) {
    match instr {
        RiscvInstr::VWADD_VV | RiscvInstr::VWADD_VX => (WidenFn::Add, false),
        RiscvInstr::VWADDU_VV | RiscvInstr::VWADDU_VX => (WidenFn::Addu, false),
        RiscvInstr::VWSUB_VV | RiscvInstr::VWSUB_VX => (WidenFn::Sub, false),
        RiscvInstr::VWSUBU_VV | RiscvInstr::VWSUBU_VX => (WidenFn::Subu, false),
        RiscvInstr::VWMUL_VV | RiscvInstr::VWMUL_VX => (WidenFn::Mul, false),
        RiscvInstr::VWMULU_VV | RiscvInstr::VWMULU_VX => (WidenFn::Mulu, false),
        RiscvInstr::VWMULSU_VV | RiscvInstr::VWMULSU_VX => (WidenFn::Mulsu, false),
        RiscvInstr::VWADD_WV | RiscvInstr::VWADD_WX => (WidenFn::Add, true),
        RiscvInstr::VWADDU_WV | RiscvInstr::VWADDU_WX => (WidenFn::Addu, true),
        RiscvInstr::VWSUB_WV | RiscvInstr::VWSUB_WX => (WidenFn::Sub, true),
        _ => (WidenFn::Subu, true),
    }
}

#[verifier::rlimit(40)]
proof fn lemma_widening_handler(instr: RiscvInstr)
    requires
        widening_form(instr) is Some,
    ensures
        exec_mapping::exec_func_of(instr) == ExecFn::VecWiden(
            widening_operation(instr).0,
            widening_form(instr)->0,
            widening_operation(instr).1,
        ),
{
}

/// What a widening operation computes is what the instruction stands for.
#[verifier::rlimit(40)]
proof fn lemma_widens(instr: RiscvInstr, w: Width, a: u64, wide: u64, b: u64)
    requires
        widening_form(instr) is Some,
        w != Width::W64,
        w.holds(a),
        w.holds(b),
    ensures
        ({
            let (op, is_wide) = widening_operation(instr);
            let first = if is_wide {
                wide as int
            } else if op.signed_vs2() {
                w.signed(a)
            } else {
                a as int
            };
            widens(instr, w, a, wide, b, element::double(w).wrap(op.exact(w, first, b)))
        }),
{
    reveal(widens);
    let w2 = element::double(w);
    let (x, y) = (w.signed(a), w.signed(b));
    lemma_widening_fits(w, a, b);
    match instr {
        RiscvInstr::VWADD_VV | RiscvInstr::VWADD_VX => {
            lemma_read_signed(w2, x + y);
        },
        RiscvInstr::VWADDU_VV | RiscvInstr::VWADDU_VX => {
            lemma_wrapped(w2, a + b);
        },
        RiscvInstr::VWSUB_VV | RiscvInstr::VWSUB_VX => {
            lemma_read_signed(w2, x - y);
        },
        RiscvInstr::VWSUBU_VV | RiscvInstr::VWSUBU_VX => {
            lemma_read_signed(w2, a - b);
        },
        RiscvInstr::VWMUL_VV | RiscvInstr::VWMUL_VX => {
            lemma_read_signed(w2, x * y);
        },
        RiscvInstr::VWMULU_VV | RiscvInstr::VWMULU_VX => {
            lemma_wrapped(w2, a * b);
        },
        RiscvInstr::VWMULSU_VV | RiscvInstr::VWMULSU_VX => {
            lemma_read_signed(w2, x * b);
        },
        RiscvInstr::VWADD_WV | RiscvInstr::VWADD_WX => {
            lemma_wrapped(w2, wide + y);
        },
        RiscvInstr::VWADDU_WV | RiscvInstr::VWADDU_WX => {
            lemma_wrapped(w2, wide + b);
        },
        RiscvInstr::VWSUB_WV | RiscvInstr::VWSUB_WX => {
            lemma_wrapped(w2, wide - y);
        },
        _ => {
            lemma_wrapped(w2, wide - b);
        },
    }
}

/// The widening instructions leave the exact sum, difference or product of their operands in
/// elements of twice the width: signed ones read both operands as signed numbers, unsigned ones as
/// unsigned, VWMULSU the first as signed and the second as unsigned. The forms whose first operand
/// is wide already go round that width.
#[verifier::rlimit(60)]
pub proof fn law_vector_widening(
    instr: RiscvInstr,
    s: CpuState,
    rs1: u8,
    rs2: u8,
    rd: u8,
    vm: bool,
    func6: u8,
    i: int,
)
    requires
        widening_form(instr) is Some,
        s.vector.wf(),
        rs1 < 32,
        0 <= i < s.vector.config.vl,
        dispatch::executed(instr, s, RVInstrInfo::V { rs1, rs2, rd, vm, func6 }).1 is Ok,
    ensures
        ({
            let t = dispatch::executed(instr, s, RVInstrInfo::V { rs1, rs2, rd, vm, func6 }).0;
            let w = s.vector.config.vsew.spec_width();
            let w2 = element::double(w);
            let b = second(s, widening_form(instr)->0, rs1, i, w) as u64;
            let r = held(t, rd, i, w2);
            &&& w2.spec_bits() == 2 * w.spec_bits()
            &&& if works_on(s, vm, i) {
                widens(instr, w, held(s, rs2, i, w), held(s, rs2, i, w2), b, r)
            } else {
                r == held(s, rd, i, w2)
            }
        }),
{
    let info = RVInstrInfo::V { rs1, rs2, rd, vm, func6 };
    let form = widening_form(instr)->0;
    let f = exec_mapping::exec_func_of(instr);
    let w = s.vector.sew();
    let w2 = element::double(w);
    lemma_second(s, form, rs1, i, w);
    lemma_held(s, rs2, i, w);
    let a = held(s, rs2, i, w);
    let wide = held(s, rs2, i, w2);
    let rhs = exec_vector_function::rhs_of(form, s, rs1);
    let b = rhs.value(s.vector, i, w);
    lemma_widening_handler(instr);
    let (op, is_wide) = widening_operation(instr);
    lemma_widen_step(op, form, is_wide, s, rs1, rs2, rd, vm, func6, i);
    lemma_widens(instr, w, a, wide, b);
}

/// The step of a widening instruction.
#[verifier::rlimit(40)]
proof fn lemma_widen_step(
    op: WidenFn,
    form: VecForm,
    is_wide: bool,
    s: CpuState,
    rs1: u8,
    rs2: u8,
    rd: u8,
    vm: bool,
    func6: u8,
    i: int,
)
    requires
        s.vector.wf(),
        0 <= i < s.vector.config.vl,
        ExecFn::VecWiden(op, form, is_wide).step(
            s,
            RVInstrInfo::V { rs1, rs2, rd, vm, func6 },
        ).1 is Ok,
    ensures
        ({
            let t = ExecFn::VecWiden(op, form, is_wide).step(
                s,
                RVInstrInfo::V { rs1, rs2, rd, vm, func6 },
            ).0;
            let w = s.vector.sew();
            let w2 = element::double(w);
            let first = if is_wide {
                held(s, rs2, i, w2) as int
            } else if op.signed_vs2() {
                w.signed(held(s, rs2, i, w))
            } else {
                held(s, rs2, i, w) as int
            };
            let b = exec_vector_function::rhs_of(form, s, rs1).value(s.vector, i, w);
            &&& w != Width::W64
            &&& held(t, rd, i, w2) == if works_on(s, vm, i) {
                w2.wrap(op.exact(w, first, b))
            } else {
                held(s, rd, i, w2)
            }
        }),
{
    let info = RVInstrInfo::V { rs1, rs2, rd, vm, func6 };
    lemma_vector_dispatch(ExecFn::VecWiden(op, form, is_wide), s, info);
    reveal(ExecFn::vector_step);
    reveal(exec_vector_function::vec_widening_integer_op_step);
    let rhs = exec_vector_function::rhs_of(form, s, rs1);
    let g = ElemFn::Widen { op, vs2: rs2, rhs, wide: is_wide };
    lemma_element_after(g, rd, vm, s, i);
    let w = s.vector.sew();
    let w2 = element::double(w);
    let first = if is_wide {
        held(s, rs2, i, w2) as int
    } else if op.signed_vs2() {
        w.signed(held(s, rs2, i, w))
    } else {
        held(s, rs2, i, w) as int
    };
    lemma_wrapped(w2, op.exact(w, first, rhs.value(s.vector, i, w)));
}

/// A number in the range of a width is read back as itself.
#[verifier::rlimit(40)]
proof fn lemma_read_signed(w: Width, x: int)
    ensures
        -w.half() <= x < w.half() ==> w.signed(w.wrap(x)) == x,
{
    alu_laws::law_width(w, 0, x);
}

/// Twice the width has room for sums, differences and products.
#[verifier::rlimit(40)]
proof fn lemma_widening_fits(w: Width, a: u64, b: u64)
    requires
        w != Width::W64,
        w.holds(a),
        w.holds(b),
    ensures
        ({
            let w2 = element::double(w);
            &&& -w2.half() <= w.signed(a) + w.signed(b) < w2.half()
            &&& -w2.half() <= w.signed(a) - w.signed(b) < w2.half()
            &&& -w2.half() <= a - b < w2.half()
            &&& 0 <= a + b < w2.modulus()
            &&& -w2.half() <= w.signed(a) * w.signed(b) < w2.half()
            &&& 0 <= a * b < w2.modulus()
            &&& -w2.half() <= w.signed(a) * b < w2.half()
        }),
{
    let (x, y, m, h) = (w.signed(a), w.signed(b), w.modulus(), w.half());
    let w2 = element::double(w);
    assert(w2.half() == h * m && w2.modulus() == m * m) by {
        assert(0x80 * 0x100 == 0x8000 && 0x100 * 0x100 == 0x1_0000);
        assert(0x8000 * 0x1_0000 == 0x8000_0000int && 0x1_0000 * 0x1_0000 == 0x1_0000_0000int);
        assert(0x8000_0000 * 0x1_0000_0000 == 0x8000_0000_0000_0000int && 0x1_0000_0000
            * 0x1_0000_0000 == 0x1_0000_0000_0000_0000int);
    }
    assert(-(h * m) <= x * y < h * m && -(h * m) <= x + y < h * m && -(h * m) <= x - y < h * m)
        by (nonlinear_arith)
        requires
            -h <= x < h,
            -h <= y < h,
            m == 2 * h,
            h >= 0x80,
    ;
    assert(0 <= a * b < m * m && a + b < m * m && -(h * m) <= a - b < h * m) by (nonlinear_arith)
        requires
            0 <= a < m,
            0 <= b < m,
            m == 2 * h,
            h >= 0x80,
    ;
    assert(-(h * m) <= x * b < h * m) by (nonlinear_arith)
        requires
            -h <= x < h,
            0 <= b < m,
            m == 2 * h,
            h > 0,
    ;
}

/// A vector computation that completes leaves `vstart` at 0, so that the next one starts from the
/// first element, and goes on to the next instruction; one that does not leaves it alone.
#[verifier::rlimit(60)]
pub proof fn law_vector_start_is_reset(
    instr: RiscvInstr,
    s: CpuState,
    rs1: u8,
    rs2: u8,
    rd: u8,
    vm: bool,
    func6: u8,
)
    requires
        s.csr.complete(),
        scalar_twin(instr) is Some || mul_add_form(instr) is Some || widening_form(instr) is Some,
    ensures
        ({
            let (t, r) = dispatch::executed(
                instr,
                s,
                RVInstrInfo::V { rs1, rs2, rd, vm, func6 },
            );
            &&& r is Ok ==> t.csr.value(csr_index::vstart) == 0 && t.pc == (s.pc + 4)
                % 0x1_0000_0000_0000_0000
            &&& r is Err ==> t == s
        }),
{
    let info = RVInstrInfo::V { rs1, rs2, rd, vm, func6 };
    let f = exec_mapping::exec_func_of(instr);
    if scalar_twin(instr) is Some {
        lemma_twin_handlers(instr);
    } else if widening_form(instr) is Some {
        lemma_widening_handler(instr);
    } else {
        assert(f is VecMulAdd);
    }
    lemma_vector_dispatch(f, s, info);
    reveal(ExecFn::vector_step);
    reveal(exec_vector_function::vec_integer_op_step);
    reveal(exec_vector_function::vec_mul_add_op_step);
    reveal(exec_vector_function::vec_widening_integer_op_step);
    reveal(exec_vector_function::elements_step);
    reveal(exec_vector_function::vector_step);
}

/// The form of a widening multiply-add.
pub open spec fn widening_mul_add_form(instr: RiscvInstr) -> Option<VecForm> {
    match instr {
        RiscvInstr::VWMACCU_VV
        | RiscvInstr::VWMACC_VV
        | RiscvInstr::VWMACCSU_VV => Some(VecForm::VV),
        RiscvInstr::VWMACCU_VX
        | RiscvInstr::VWMACC_VX
        | RiscvInstr::VWMACCSU_VX
        | RiscvInstr::VWMACCUS_VX => Some(VecForm::VX),
        _ => None,
    }
}

/// The widening multiply-adds add a product to the wide destination, modulo its width: VWMACCSU
/// takes the second operand as signed and the first as unsigned, VWMACCUS the other way round.
#[verifier::rlimit(60)]
pub proof fn law_vector_widening_multiply_add(
    instr: RiscvInstr,
    s: CpuState,
    rs1: u8,
    rs2: u8,
    rd: u8,
    vm: bool,
    func6: u8,
    i: int,
)
    requires
        widening_mul_add_form(instr) is Some,
        s.vector.wf(),
        rs1 < 32,
        0 <= i < s.vector.config.vl,
        dispatch::executed(instr, s, RVInstrInfo::V { rs1, rs2, rd, vm, func6 }).1 is Ok,
    ensures
        ({
            let t = dispatch::executed(instr, s, RVInstrInfo::V { rs1, rs2, rd, vm, func6 }).0;
            let w = s.vector.config.vsew.spec_width();
            let w2 = element::double(w);
            let a = held(s, rs2, i, w);
            let b = second(s, widening_mul_add_form(instr)->0, rs1, i, w) as u64;
            let before = held(s, rd, i, w2);
            let r = held(t, rd, i, w2);
            if !works_on(s, vm, i) {
                r == before
            } else {
                match instr {
                    RiscvInstr::VWMACCU_VV | RiscvInstr::VWMACCU_VX => r == (before + b * a)
                        % w2.modulus(),
                    RiscvInstr::VWMACC_VV | RiscvInstr::VWMACC_VX => r == (before + w.signed(b)
                        * w.signed(a)) % w2.modulus(),
                    RiscvInstr::VWMACCSU_VV | RiscvInstr::VWMACCSU_VX => r == (before + w.signed(b)
                        * a) % w2.modulus(),
                    _ => r == (before + b * w.signed(a)) % w2.modulus(),
                }
            }
        }),
{
    let info = RVInstrInfo::V { rs1, rs2, rd, vm, func6 };
    let form = widening_mul_add_form(instr)->0;
    let f = exec_mapping::exec_func_of(instr);
    assert(f is VecWidenMulAdd && f->VecWidenMulAdd_1 == form);
    let op = f->VecWidenMulAdd_0;
    lemma_vector_dispatch(f, s, info);
    reveal(ExecFn::vector_step);
    reveal(exec_vector_function::vec_widening_mul_add_op_step);
    let rhs = exec_vector_function::rhs_of(form, s, rs1);
    let g = ElemFn::WidenMulAdd { op, vs2: rs2, rhs, vd: rd };
    lemma_element_after(g, rd, vm, s, i);
    let w = s.vector.sew();
    let w2 = element::double(w);
    lemma_second(s, form, rs1, i, w);
    let a = held(s, rs2, i, w);
    let b = rhs.value(s.vector, i, w);
    lemma_wrapped(w2, op.exact(w, b, a, held(s, rd, i, w2)));
}

/// The handlers behind the first group are reached.
#[verifier::rlimit(40)]
pub proof fn lemma_later_dispatch(f: ExecFn, s: CpuState, info: RVInstrInfo)
    requires
        f is VecFixedPoint || f is VecClip || f is VecCarry || f is VecMerge || f is VecCompare
            || f is VecCarryOut || f is VecBit || f is VecExtend || f is VecWholeMove || f is VecSpec,
    ensures
        f.step(s, info) == f.vector_fixed_step(s, info),
        !(f is VecFixedPoint || f is VecClip || f is VecCarry || f is VecMerge) ==> f.step(s, info)
            == f.vector_mask_step(s, info),
        f is VecSpec ==> f.step(s, info) == exec_vector_function::vec_integer_spec_step(
            f->VecSpec_0,
            s,
            info,
        ),
{
    lemma_vector_dispatch(f, s, info);
    reveal(ExecFn::vector_step);
    reveal(ExecFn::vector_fixed_step);
    reveal(ExecFn::vector_mask_step);
}

/// The carry that register 0 holds for element `i`.
pub open spec fn carry_in(s: CpuState, i: int) -> int {
    if (s.vector.bytes[i / 8] >> ((i % 8) as u8)) & 1 == 1 {
        1
    } else {
        0
    }
}

/// The form of an addition or subtraction with carries, of a merge or of a move.
pub open spec fn mask_operand_form(instr: RiscvInstr) -> Option<VecForm> {
    match instr {
        RiscvInstr::VADC_VVM
        | RiscvInstr::VSBC_VVM
        | RiscvInstr::VMERGE_VVM
        | RiscvInstr::VMV_V_V => Some(VecForm::VV),
        RiscvInstr::VADC_VXM
        | RiscvInstr::VSBC_VXM
        | RiscvInstr::VMERGE_VXM
        | RiscvInstr::VMV_V_X => Some(VecForm::VX),
        RiscvInstr::VADC_VIM | RiscvInstr::VMERGE_VIM | RiscvInstr::VMV_V_I => Some(VecForm::VI),
        _ => None,
    }
}

/// Additions and subtractions take the bit of register 0 as a carry or a borrow, a merge takes it
/// to choose the second operand over the first, and a move copies its operand. All of them work on
/// every element from `vstart` on, whether its bit is set or not.
#[verifier::rlimit(60)]
pub proof fn law_vector_mask_operand(
    instr: RiscvInstr,
    s: CpuState,
    rs1: u8,
    rs2: u8,
    rd: u8,
    vm: bool,
    func6: u8,
    i: int,
)
    requires
        mask_operand_form(instr) is Some,
        s.vector.wf(),
        rs1 < 32,
        0 <= i < s.vector.config.vl,
        dispatch::executed(instr, s, RVInstrInfo::V { rs1, rs2, rd, vm, func6 }).1 is Ok,
    ensures
        ({
            let t = dispatch::executed(instr, s, RVInstrInfo::V { rs1, rs2, rd, vm, func6 }).0;
            let w = s.vector.config.vsew.spec_width();
            let a = held(s, rs2, i, w);
            let b = second(s, mask_operand_form(instr)->0, rs1, i, w);
            let r = held(t, rd, i, w);
            let c = carry_in(s, i);
            if i < s.csr.value(csr_index::vstart) {
                r == held(s, rd, i, w)
            } else {
                match instr {
                    RiscvInstr::VADC_VVM | RiscvInstr::VADC_VXM | RiscvInstr::VADC_VIM => r == (a
                        + b + c) % w.modulus(),
                    RiscvInstr::VSBC_VVM | RiscvInstr::VSBC_VXM => r == (a - b - c) % w.modulus(),
                    RiscvInstr::VMERGE_VVM
                    | RiscvInstr::VMERGE_VXM
                    | RiscvInstr::VMERGE_VIM => r == if c == 1 {
                        b
                    } else {
                        a as int
                    },
                    _ => r == b,
                }
            }
        }),
{
    let form = mask_operand_form(instr)->0;
    let rhs = exec_vector_function::rhs_of(form, s, rs1);
    let w = s.vector.sew();
    let g = mask_operand_fn(instr, rs2, rhs);
    lemma_mask_operand_step(instr, s, rs1, rs2, rd, vm, func6);
    lemma_element_after(g, rd, true, s, i);
    lemma_second(s, form, rs1, i, w);
    lemma_held(s, rs2, i, w);
    let (a, b, c) = (held(s, rs2, i, w), second(s, form, rs1, i, w), carry_in(s, i));
    lemma_wrapped(w, a + b + c);
    lemma_wrapped(w, a - b - c);
    lemma_wrapped(w, a as int);
    lemma_wrapped(w, b);
}

/// What an addition or subtraction with carries, a merge or a move computes.
spec fn mask_operand_fn(instr: RiscvInstr, vs2: u8, rhs: Rhs) -> ElemFn {
    match instr {
        RiscvInstr::VADC_VVM | RiscvInstr::VADC_VXM | RiscvInstr::VADC_VIM => ElemFn::Carry {
            subtract: false,
            vs2,
            rhs,
        },
        RiscvInstr::VSBC_VVM | RiscvInstr::VSBC_VXM => ElemFn::Carry { subtract: true, vs2, rhs },
        RiscvInstr::VMERGE_VVM
        | RiscvInstr::VMERGE_VXM
        | RiscvInstr::VMERGE_VIM => ElemFn::Merge { vs2, rhs },
        _ => ElemFn::Move { rhs },
    }
}

#[verifier::rlimit(60)]
proof fn lemma_mask_operand_step(
    instr: RiscvInstr,
    s: CpuState,
    rs1: u8,
    rs2: u8,
    rd: u8,
    vm: bool,
    func6: u8,
)
    requires
        mask_operand_form(instr) is Some,
        dispatch::executed(instr, s, RVInstrInfo::V { rs1, rs2, rd, vm, func6 }).1 is Ok,
    ensures
        ({
            let rhs = exec_vector_function::rhs_of(mask_operand_form(instr)->0, s, rs1);
            dispatch::executed(instr, s, RVInstrInfo::V { rs1, rs2, rd, vm, func6 })
                == exec_vector_function::elements_step(
                mask_operand_fn(instr, rs2, rhs),
                rd,
                false,
                s,
            )
        }),
{
    let info = RVInstrInfo::V { rs1, rs2, rd, vm, func6 };
    let f = exec_mapping::exec_func_of(instr);
    lemma_later_dispatch(f, s, info);
    reveal(ExecFn::vector_fixed_step);
    reveal(exec_vector_function::vec_carry_op_step);
    reveal(exec_vector_function::vec_merge_op_step);
    reveal(exec_vector_function::vec_integer_spec_step);
}

/// By which factor an extension makes elements wider, and whether it repeats the sign.
pub open spec fn extension_kind(instr: RiscvInstr) -> Option<(int, bool)> {
    match instr {
        RiscvInstr::VZEXT_VF2 => Some((2, false)),
        RiscvInstr::VZEXT_VF4 => Some((4, false)),
        RiscvInstr::VZEXT_VF8 => Some((8, false)),
        RiscvInstr::VSEXT_VF2 => Some((2, true)),
        RiscvInstr::VSEXT_VF4 => Some((4, true)),
        RiscvInstr::VSEXT_VF8 => Some((8, true)),
        _ => None,
    }
}

/// An extension keeps the value of elements of a fraction `f` of the selected width: the signed or
/// the unsigned one.
#[verifier::rlimit(60)]
pub proof fn law_vector_extension(
    instr: RiscvInstr,
    s: CpuState,
    rs1: u8,
    rs2: u8,
    rd: u8,
    vm: bool,
    func6: u8,
    i: int,
    f: Width,
)
    requires
        extension_kind(instr) is Some,
        s.vector.wf(),
        0 <= i < s.vector.config.vl,
        f.spec_bits() * (extension_kind(instr)->0).0 == s.vector.config.vsew.spec_width().spec_bits(),
        dispatch::executed(instr, s, RVInstrInfo::V { rs1, rs2, rd, vm, func6 }).1 is Ok,
    ensures
        ({
            let t = dispatch::executed(instr, s, RVInstrInfo::V { rs1, rs2, rd, vm, func6 }).0;
            let w = s.vector.config.vsew.spec_width();
            let a = held(s, rs2, i, f);
            let r = held(t, rd, i, w);
            if !works_on(s, vm, i) {
                r == held(s, rd, i, w)
            } else if (extension_kind(instr)->0).1 {
                w.signed(r) == f.signed(a)
            } else {
                r == a
            }
        }),
{
    let info = RVInstrInfo::V { rs1, rs2, rd, vm, func6 };
    let h = exec_mapping::exec_func_of(instr);
    lemma_later_dispatch(h, s, info);
    reveal(ExecFn::vector_mask_step);
    reveal(exec_vector_function::vec_integer_ext_op_step);
    let g = ElemFn::Extend { signed: h->VecExtend_0, factor: h->VecExtend_1, vs2: rs2 };
    lemma_element_after(g, rd, vm, s, i);
    let w = s.vector.sew();
    assert(element::fraction(w, h->VecExtend_1) == Some(f));
    lemma_held(s, rs2, i, f);
    let a = held(s, rs2, i, f);
    lemma_wrapped(w, f.signed(a));
    lemma_wrapped(w, a as int);
    lemma_read_signed(w, f.signed(a));
}

/// Whether a narrowing shift is arithmetic, and the form of its distance.
pub open spec fn narrowing_kind(instr: RiscvInstr) -> Option<(bool, VecForm)> {
    match instr {
        RiscvInstr::VNSRL_WV => Some((false, VecForm::VV)),
        RiscvInstr::VNSRA_WV => Some((true, VecForm::VV)),
        RiscvInstr::VNSRL_WX => Some((false, VecForm::VX)),
        RiscvInstr::VNSRA_WX => Some((true, VecForm::VX)),
        RiscvInstr::VNSRL_WI => Some((false, VecForm::VU)),
        RiscvInstr::VNSRA_WI => Some((true, VecForm::VI)),
        _ => None,
    }
}

/// The distance of a narrowing shift before it is cut to the bits that count.
pub open spec fn narrowing_distance(s: CpuState, form: VecForm, rs1: u8, i: int) -> int {
    let w = s.vector.config.vsew.spec_width();
    match form {
        VecForm::VV => held(s, rs1, i, w) as int,
        VecForm::VX => s.reg(rs1) as int,
        VecForm::VI => if rs1 < 16 {
            rs1 as int
        } else {
            rs1 - 32
        },
        VecForm::VU => rs1 as int,
    }
}

/// A narrowing shift divides an element of twice the width by a power of two, rounds down, and
/// keeps the low half of the quotient; the distance counts modulo the bits of the wide element.
#[verifier::rlimit(60)]
pub proof fn law_vector_narrowing_shift(
    instr: RiscvInstr,
    s: CpuState,
    rs1: u8,
    rs2: u8,
    rd: u8,
    vm: bool,
    func6: u8,
    i: int,
)
    requires
        narrowing_kind(instr) is Some,
        s.vector.wf(),
        rs1 < 32,
        0 <= i < s.vector.config.vl,
        dispatch::executed(instr, s, RVInstrInfo::V { rs1, rs2, rd, vm, func6 }).1 is Ok,
    ensures
        ({
            let t = dispatch::executed(instr, s, RVInstrInfo::V { rs1, rs2, rd, vm, func6 }).0;
            let w = s.vector.config.vsew.spec_width();
            let w2 = element::double(w);
            let (arithmetic, form) = narrowing_kind(instr)->0;
            let wide = held(s, rs2, i, w2);
            let x = if arithmetic {
                w2.signed(wide)
            } else {
                wide as int
            };
            let d = pow2((narrowing_distance(s, form, rs1, i) % w2.spec_bits()) as nat) as int;
            let r = held(t, rd, i, w);
            if works_on(s, vm, i) {
                exists|q: int| #[trigger] (q * d) <= x < q * d + d && r == q % w.modulus()
            } else {
                r == held(s, rd, i, w)
            }
        }),
{
    let info = RVInstrInfo::V { rs1, rs2, rd, vm, func6 };
    let h = exec_mapping::exec_func_of(instr);
    let (arithmetic, form) = narrowing_kind(instr)->0;
    lemma_later_dispatch(h, s, info);
    reveal(exec_vector_function::vec_integer_spec_step);
    let rhs = exec_vector_function::rhs_of(form, s, rs1);
    let g = ElemFn::Narrow { arithmetic, vs2: rs2, rhs };
    assert(h.step(s, info) == exec_vector_function::elements_step(g, rd, !vm, s));
    lemma_element_after(g, rd, vm, s, i);
    let w = s.vector.sew();
    let w2 = element::double(w);
    let wide = held(s, rs2, i, w2);
    lemma_held(s, rs2, i, w2);
    let b = match rhs {
        Rhs::Reg(vs1) => held(s, vs1, i, w),
        Rhs::Scalar(x) => w2.wrap(x as int),
    };
    lemma_distance(w2, s.reg(rs1) as int);
    lemma_distance(w2, rs1 as int);
    lemma_distance(w2, utils::sign_extended(rs1 as u64, 5) as int);
    lemma_immediate_distance(w2, rs1);
    assert(b as int % w2.spec_bits() == narrowing_distance(s, form, rs1, i) % w2.spec_bits());
    alu_laws::law_shifts(w2, wide, b);
    let d = pow2((b as int % w2.spec_bits()) as nat) as int;
    let v = alu::alu(
        if arithmetic {
            AluFn::Sra
        } else {
            AluFn::Srl
        },
        w2,
        wide,
        b,
    );
    let q = if arithmetic {
        w2.signed(v)
    } else {
        v as int
    };
    assert((q + 1) * d == q * d + d) by (nonlinear_arith);
    lemma_wrapped(w, v as int);
    lemma_half_congruent(w, v);
    assert(q % w.modulus() == v as int % w.modulus());
}

/// The low bits of a distance do not change when it is cut to the width.
#[verifier::rlimit(40)]
proof fn lemma_distance(w: Width, x: int)
    ensures
        w.wrap(x) as int % w.spec_bits() == x % w.spec_bits(),
{
    lemma_wrapped(w, x);
    match w {
        Width::W8 => lemma_mod_mod(x, 8, 0x20),
        Width::W16 => lemma_mod_mod(x, 16, 0x1000),
        Width::W32 => lemma_mod_mod(x, 32, 0x800_0000),
        Width::W64 => lemma_mod_mod(x, 64, 0x400_0000_0000_0000),
    }
}

/// The low bits of an immediate do not change when it is sign-extended.
#[verifier::rlimit(40)]
proof fn lemma_immediate_distance(w: Width, rs1: u8)
    requires
        rs1 < 32,
    ensures
        ({
            let x = utils::sign_extended(rs1 as u64, 5) as int;
            x % w.spec_bits() == (if rs1 < 16 {
                rs1 as int
            } else {
                rs1 - 32
            }) % w.spec_bits()
        }),
{
    lemma2_to64();
    if rs1 >= 16 {
        let y = rs1 - 32;
        match w {
            Width::W8 => lemma_mod_multiples_vanish(0x2000_0000_0000_0000, y, 8),
            Width::W16 => lemma_mod_multiples_vanish(0x1000_0000_0000_0000, y, 16),
            Width::W32 => lemma_mod_multiples_vanish(0x800_0000_0000_0000, y, 32),
            Width::W64 => lemma_mod_multiples_vanish(0x400_0000_0000_0000, y, 64),
        }
    }
}

/// Both readings of a wide value agree modulo the narrow width.
#[verifier::rlimit(40)]
proof fn lemma_half_congruent(w: Width, v: u64)
    requires
        w != Width::W64,
        element::double(w).holds(v),
    ensures
        element::double(w).signed(v) % w.modulus() == v as int % w.modulus(),
{
    match w {
        Width::W8 => {},
        Width::W16 => {},
        Width::W32 => {},
        Width::W64 => {},
    }
}

/// How far a slide moves elements, and which way: up or down.
pub open spec fn slide_kind(instr: RiscvInstr, s: CpuState, rs1: u8) -> Option<(int, bool)> {
    match instr {
        RiscvInstr::VSLIDEUP_VX => Some((s.reg(rs1) as int, true)),
        RiscvInstr::VSLIDEUP_VI => Some((rs1 as int, true)),
        RiscvInstr::VSLIDEDOWN_VX => Some((s.reg(rs1) as int, false)),
        RiscvInstr::VSLIDEDOWN_VI => Some((rs1 as int, false)),
        _ => None,
    }
}

/// A slide up moves element `i - d` to element `i` and keeps the elements below `d`; a slide down
/// moves element `i + d` to element `i`, and brings in zeros from behind the group.
#[verifier::rlimit(60)]
pub proof fn law_vector_slides(
    instr: RiscvInstr,
    s: CpuState,
    rs1: u8,
    rs2: u8,
    rd: u8,
    vm: bool,
    func6: u8,
    i: int,
)
    requires
        slide_kind(instr, s, rs1) is Some,
        s.vector.wf(),
        0 <= i < s.vector.config.vl,
        dispatch::executed(instr, s, RVInstrInfo::V { rs1, rs2, rd, vm, func6 }).1 is Ok,
    ensures
        ({
            let t = dispatch::executed(instr, s, RVInstrInfo::V { rs1, rs2, rd, vm, func6 }).0;
            let w = s.vector.config.vsew.spec_width();
            let capacity = types::vlmax_of(s.vector.config.vlmul, w);
            let (d, up) = slide_kind(instr, s, rs1)->0;
            held(t, rd, i, w) == if !works_on(s, vm, i) || (up && i < d) {
                held(s, rd, i, w)
            } else if up {
                held(s, rs2, i - d, w)
            } else if i + d < capacity {
                held(s, rs2, i + d, w)
            } else {
                0
            }
        }),
{
    let info = RVInstrInfo::V { rs1, rs2, rd, vm, func6 };
    let f = exec_mapping::exec_func_of(instr);
    let (d, up) = slide_kind(instr, s, rs1)->0;
    lemma_later_dispatch(f, s, info);
    reveal(exec_vector_function::vec_integer_spec_step);
    let g = if up {
        ElemFn::SlideUp { offset: d as u64, vs2: rs2 }
    } else {
        ElemFn::SlideDown { offset: d as u64, vs2: rs2 }
    };
    assert(f.step(s, info) == exec_vector_function::elements_step(g, rd, !vm, s));
    lemma_element_after(g, rd, vm, s, i);
    let w = s.vector.sew();
    lemma_held(s, rs2, i - d, w);
    lemma_held(s, rs2, i + d, w);
    lemma_wrapped(w, held(s, rs2, i - d, w) as int);
    lemma_wrapped(w, held(s, rs2, i + d, w) as int);
    lemma_wrapped(w, 0);
}

/// A slide by one brings the register in at the open end: at element 0 where it moves up, at the
/// last element where it moves down.
#[verifier::rlimit(60)]
pub proof fn law_vector_slides_by_one(
    instr: RiscvInstr,
    s: CpuState,
    rs1: u8,
    rs2: u8,
    rd: u8,
    vm: bool,
    func6: u8,
    i: int,
)
    requires
        instr == RiscvInstr::VSLIDE1UP_VX || instr == RiscvInstr::VSLIDE1DOWN_VX,
        s.vector.wf(),
        0 <= i < s.vector.config.vl,
        dispatch::executed(instr, s, RVInstrInfo::V { rs1, rs2, rd, vm, func6 }).1 is Ok,
    ensures
        ({
            let t = dispatch::executed(instr, s, RVInstrInfo::V { rs1, rs2, rd, vm, func6 }).0;
            let w = s.vector.config.vsew.spec_width();
            let up = instr == RiscvInstr::VSLIDE1UP_VX;
            let open_end = if up {
                0
            } else {
                s.vector.config.vl - 1
            };
            held(t, rd, i, w) == if !works_on(s, vm, i) {
                held(s, rd, i, w) as int
            } else if i == open_end {
                s.reg(rs1) as int % w.modulus()
            } else if up {
                held(s, rs2, i - 1, w) as int
            } else {
                held(s, rs2, i + 1, w) as int
            }
        }),
{
    let info = RVInstrInfo::V { rs1, rs2, rd, vm, func6 };
    let f = exec_mapping::exec_func_of(instr);
    lemma_later_dispatch(f, s, info);
    reveal(exec_vector_function::vec_integer_spec_step);
    let x = s.reg(rs1);
    let g = if instr == RiscvInstr::VSLIDE1UP_VX {
        ElemFn::Slide1Up { x, vs2: rs2 }
    } else {
        ElemFn::Slide1Down { x, vs2: rs2 }
    };
    assert(f.step(s, info) == exec_vector_function::elements_step(g, rd, !vm, s));
    lemma_element_after(g, rd, vm, s, i);
    let w = s.vector.sew();
    lemma_held(s, rs2, i - 1, w);
    lemma_held(s, rs2, i + 1, w);
    lemma_wrapped(w, held(s, rs2, i - 1, w) as int);
    lemma_wrapped(w, held(s, rs2, i + 1, w) as int);
    lemma_wrapped(w, x as int);
}

/// The index that a gather takes element `i` from.
pub open spec fn gather_index(instr: RiscvInstr, s: CpuState, rs1: u8, i: int) -> Option<u64> {
    match instr {
        RiscvInstr::VRGATHER_VV => Some(held(s, rs1, i, s.vector.config.vsew.spec_width())),
        RiscvInstr::VRGATHEREI16_VV => Some(held(s, rs1, i, Width::W16)),
        RiscvInstr::VRGATHER_VX => Some(s.reg(rs1)),
        RiscvInstr::VRGATHER_VI => Some(rs1 as u64),
        _ => None,
    }
}

/// A gather takes each element from the index that its operand names, and takes zero from behind
/// the group.
#[verifier::rlimit(60)]
pub proof fn law_vector_gathers(
    instr: RiscvInstr,
    s: CpuState,
    rs1: u8,
    rs2: u8,
    rd: u8,
    vm: bool,
    func6: u8,
    i: int,
)
    requires
        gather_index(instr, s, rs1, i) is Some,
        s.vector.wf(),
        0 <= i < s.vector.config.vl,
        dispatch::executed(instr, s, RVInstrInfo::V { rs1, rs2, rd, vm, func6 }).1 is Ok,
    ensures
        ({
            let t = dispatch::executed(instr, s, RVInstrInfo::V { rs1, rs2, rd, vm, func6 }).0;
            let w = s.vector.config.vsew.spec_width();
            let capacity = types::vlmax_of(s.vector.config.vlmul, w);
            let from = gather_index(instr, s, rs1, i)->0 as int;
            held(t, rd, i, w) == if !works_on(s, vm, i) {
                held(s, rd, i, w)
            } else if from < capacity {
                held(s, rs2, from, w)
            } else {
                0
            }
        }),
{
    let info = RVInstrInfo::V { rs1, rs2, rd, vm, func6 };
    let f = exec_mapping::exec_func_of(instr);
    lemma_later_dispatch(f, s, info);
    reveal(exec_vector_function::vec_integer_spec_step);
    let from = gather_index(instr, s, rs1, i)->0;
    let g = match instr {
        RiscvInstr::VRGATHER_VV => ElemFn::Gather { vs2: rs2, vs1: rs1 },
        RiscvInstr::VRGATHEREI16_VV => ElemFn::GatherEi16 { vs2: rs2, vs1: rs1 },
        _ => ElemFn::GatherOne { vs2: rs2, index: from },
    };
    assert(f.step(s, info) == exec_vector_function::elements_step(g, rd, !vm, s));
    lemma_element_after(g, rd, vm, s, i);
    let w = s.vector.sew();
    lemma_held(s, rs2, from as int, w);
    lemma_wrapped(w, held(s, rs2, from as int, w) as int);
    lemma_wrapped(w, 0);
}

/// Numbering gives each element its index. Counting gives each element the number of set bits
/// before it: none at the first element, and one more behind a bit that is set and counts than at
/// that bit.
#[verifier::rlimit(60)]
pub proof fn law_vector_numbering(
    s: CpuState,
    rs1: u8,
    rs2: u8,
    rd: u8,
    vm: bool,
    func6: u8,
    i: int,
)
    requires
        s.vector.wf(),
        0 <= i < s.vector.config.vl,
        works_on(s, vm, i),
    ensures
        ({
            let info = RVInstrInfo::V { rs1, rs2, rd, vm, func6 };
            let w = s.vector.config.vsew.spec_width();
            let (t, r) = dispatch::executed(RiscvInstr::VID_V, s, info);
            r is Ok ==> held(t, rd, i, w) == i % w.modulus()
        }),
        ({
            let info = RVInstrInfo::V { rs1, rs2, rd, vm, func6 };
            let w = s.vector.config.vsew.spec_width();
            let (t, r) = dispatch::executed(RiscvInstr::VIOTA_M, s, info);
            &&& r is Ok && i == 0 ==> held(t, rd, i, w) == 0
            &&& r is Ok && i + 1 < s.vector.config.vl && works_on(s, vm, i + 1) ==> held(
                t,
                rd,
                i + 1,
                w,
            ) == (held(t, rd, i, w) + if (s.vector.bytes[rs2 * 16 + i / 8] >> ((i % 8) as u8)) & 1
                == 1 {
                1int
            } else {
                0
            }) % w.modulus()
        }),
{
    lemma_index(s, rs1, rs2, rd, vm, func6, i);
    lemma_iota(s, rs1, rs2, rd, vm, func6, i);
    if i + 1 < s.vector.config.vl && works_on(s, vm, i + 1) {
        lemma_iota(s, rs1, rs2, rd, vm, func6, i + 1);
        let m = s.vector.sew().modulus();
        let n = element::count_set(s.vector.bytes, rs2, !vm, i);
        let c = element::count_set(s.vector.bytes, rs2, !vm, i + 1) - n;
        lemma_add_mod_noop_right(c, n, m);
    }
}

#[verifier::rlimit(40)]
proof fn lemma_index(s: CpuState, rs1: u8, rs2: u8, rd: u8, vm: bool, func6: u8, i: int)
    requires
        s.vector.wf(),
        0 <= i < s.vector.config.vl,
        works_on(s, vm, i),
    ensures
        ({
            let info = RVInstrInfo::V { rs1, rs2, rd, vm, func6 };
            let w = s.vector.sew();
            let (t, r) = dispatch::executed(RiscvInstr::VID_V, s, info);
            r is Ok ==> held(t, rd, i, w) == i % w.modulus()
        }),
{
    let info = RVInstrInfo::V { rs1, rs2, rd, vm, func6 };
    let f = exec_mapping::exec_func_of(RiscvInstr::VID_V);
    lemma_later_dispatch(f, s, info);
    reveal(exec_vector_function::vec_integer_spec_step);
    if f.step(s, info).1 is Ok {
        lemma_element_after(ElemFn::Index, rd, vm, s, i);
        lemma_wrapped(s.vector.sew(), i);
    }
}

#[verifier::rlimit(40)]
proof fn lemma_iota(s: CpuState, rs1: u8, rs2: u8, rd: u8, vm: bool, func6: u8, i: int)
    requires
        s.vector.wf(),
        0 <= i < s.vector.config.vl,
        works_on(s, vm, i),
    ensures
        ({
            let info = RVInstrInfo::V { rs1, rs2, rd, vm, func6 };
            let w = s.vector.sew();
            let (t, r) = dispatch::executed(RiscvInstr::VIOTA_M, s, info);
            r is Ok ==> held(t, rd, i, w) == element::count_set(s.vector.bytes, rs2, !vm, i)
                % w.modulus()
        }),
{
    let info = RVInstrInfo::V { rs1, rs2, rd, vm, func6 };
    let f = exec_mapping::exec_func_of(RiscvInstr::VIOTA_M);
    lemma_later_dispatch(f, s, info);
    reveal(exec_vector_function::vec_integer_spec_step);
    if f.step(s, info).1 is Ok {
        lemma_element_after(ElemFn::Iota { vs2: rs2, masked: !vm }, rd, vm, s, i);
        lemma_wrapped(s.vector.sew(), element::count_set(s.vector.bytes, rs2, !vm, i));
    }
}

} // verus!
