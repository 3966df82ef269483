//! What the vector instructions on masks are for, as relations between the register bytes before and
//! after.
use vstd::prelude::*;

use crate::isa::riscv::executor::CpuState;
use crate::isa::riscv::vector::element;
use crate::isa::riscv::vector::mask;
use crate::isa::riscv::vector::mask::{FirstBit, MaskFn};
use crate::isa::riscv::vector::state;
use crate::utils::Width;

use super::dispatch;
use super::exec_mapping;
use super::exec_mapping::{ExecFn, VecForm};
use super::exec_vector_function;
use super::info::RVInstrInfo;
use super::instr_table::RiscvInstr;
use super::vector_laws;

verus! {

/// Bit `i` of the mask in a register.
pub open spec fn flag(s: CpuState, reg: u8, i: int) -> bool {
    (s.vector.bytes[reg * 16 + i / 8] >> ((i % 8) as u8)) & 1 == 1
}

/// What an instruction that computes a mask leaves in a bit of its destination.
#[verifier::rlimit(40)]
pub proof fn lemma_flag_after(f: MaskFn, vd: u8, vm: bool, s: CpuState, i: int)
    requires
        s.vector.wf(),
        exec_vector_function::mask_step(f, vd, !vm, s).1 is Ok,
        0 <= i < s.vector.config.vl,
    ensures
        ({
            let t = exec_vector_function::mask_step(f, vd, !vm, s).0;
            &&& f.legal(s.vector.config, s.vstart())
            &&& flag(t, vd, i) == if vector_laws::works_on(s, vm, i) {
                f.value(s.vector, i)
            } else {
                flag(s, vd, i)
            }
            &&& t.regs == s.regs
        }),
{
    reveal(exec_vector_function::mask_step);
    reveal(exec_vector_function::vector_step);
    state::lemma_vl_bound(s.vector.config);
    let results = f.results(s.vector, !vm, s.vstart());
    state::law_written_mask(s.vector.bytes, vd, results, s.vector.config.vl as int, i);
    assert(vector_laws::works_on(s, vm, i) == s.vector.active(i, !vm, s.vstart()));
}

/// The form of a comparison of elements.
pub open spec fn comparing_form(instr: RiscvInstr) -> Option<VecForm> {
    match instr {
        RiscvInstr::VMSEQ_VV
        | RiscvInstr::VMSNE_VV
        | RiscvInstr::VMSLTU_VV
        | RiscvInstr::VMSLT_VV
        | RiscvInstr::VMSLEU_VV
        | RiscvInstr::VMSLE_VV => Some(VecForm::VV),
        RiscvInstr::VMSEQ_VX
        | RiscvInstr::VMSNE_VX
        | RiscvInstr::VMSLTU_VX
        | RiscvInstr::VMSLT_VX
        | RiscvInstr::VMSLEU_VX
        | RiscvInstr::VMSLE_VX
        | RiscvInstr::VMSGTU_VX
        | RiscvInstr::VMSGT_VX => Some(VecForm::VX),
        RiscvInstr::VMSEQ_VI
        | RiscvInstr::VMSNE_VI
        | RiscvInstr::VMSLEU_VI
        | RiscvInstr::VMSLE_VI
        | RiscvInstr::VMSGTU_VI
        | RiscvInstr::VMSGT_VI => Some(VecForm::VI),
        _ => None,
    }
}

/// A comparison sets the bit of an element where the relation that it is named after holds of the
/// first operand and the second; the bits that it does not work on stay.
#[verifier::rlimit(60)]
pub proof fn law_vector_comparisons(
    instr: RiscvInstr,
    s: CpuState,
    rs1: u8,
    rs2: u8,
    rd: u8,
    vm: bool,
    func6: u8,
    i: int,
)
    requires
        comparing_form(instr) is Some,
        s.vector.wf(),
        rs1 < 32,
        0 <= i < s.vector.config.vl,
        dispatch::executed(instr, s, RVInstrInfo::V { rs1, rs2, rd, vm, func6 }).1 is Ok,
    ensures
        ({
            let t = dispatch::executed(instr, s, RVInstrInfo::V { rs1, rs2, rd, vm, func6 }).0;
            let w = s.vector.config.vsew.spec_width();
            let a = vector_laws::held(s, rs2, i, w);
            let b = vector_laws::second(s, comparing_form(instr)->0, rs1, i, w) as u64;
            let (x, y) = (w.signed(a), w.signed(b));
            flag(t, rd, i) == if !vector_laws::works_on(s, vm, i) {
                flag(s, rd, i)
            } else {
                match instr {
                    RiscvInstr::VMSEQ_VV | RiscvInstr::VMSEQ_VX | RiscvInstr::VMSEQ_VI => a == b,
                    RiscvInstr::VMSNE_VV | RiscvInstr::VMSNE_VX | RiscvInstr::VMSNE_VI => a != b,
                    RiscvInstr::VMSLTU_VV | RiscvInstr::VMSLTU_VX => a < b,
                    RiscvInstr::VMSLT_VV | RiscvInstr::VMSLT_VX => x < y,
                    RiscvInstr::VMSLEU_VV
                    | RiscvInstr::VMSLEU_VX
                    | RiscvInstr::VMSLEU_VI => a <= b,
                    RiscvInstr::VMSLE_VV | RiscvInstr::VMSLE_VX | RiscvInstr::VMSLE_VI => x <= y,
                    RiscvInstr::VMSGTU_VX | RiscvInstr::VMSGTU_VI => a > b,
                    _ => x > y,
                }
            }
        }),
{
    let info = RVInstrInfo::V { rs1, rs2, rd, vm, func6 };
    let form = comparing_form(instr)->0;
    let f = exec_mapping::exec_func_of(instr);
    assert(f is VecCompare && f->VecCompare_1 == form);
    vector_laws::lemma_later_dispatch(f, s, info);
    reveal(ExecFn::vector_mask_step);
    reveal(exec_vector_function::vec_integer_mask_op_step);
    let rhs = exec_vector_function::rhs_of(form, s, rs1);
    lemma_flag_after(MaskFn::Compare { op: f->VecCompare_0, vs2: rs2, rhs }, rd, vm, s, i);
    vector_laws::lemma_second(s, form, rs1, i, s.vector.sew());
}

/// The form of a computation of carries, and whether the carry of register 0 comes in.
pub open spec fn carrying_kind(instr: RiscvInstr) -> Option<(VecForm, bool)> {
    match instr {
        RiscvInstr::VMADC_VV | RiscvInstr::VMSBC_VV => Some((VecForm::VV, false)),
        RiscvInstr::VMADC_VX | RiscvInstr::VMSBC_VX => Some((VecForm::VX, false)),
        RiscvInstr::VMADC_VI => Some((VecForm::VI, false)),
        RiscvInstr::VMADC_VVM | RiscvInstr::VMSBC_VVM => Some((VecForm::VV, true)),
        RiscvInstr::VMADC_VXM | RiscvInstr::VMSBC_VXM => Some((VecForm::VX, true)),
        RiscvInstr::VMADC_VIM => Some((VecForm::VI, true)),
        _ => None,
    }
}

/// A computation of carries sets the bit of an element where the exact sum does not fit the width,
/// or the exact difference is negative.
#[verifier::rlimit(60)]
pub proof fn law_vector_carries(
    instr: RiscvInstr,
    s: CpuState,
    rs1: u8,
    rs2: u8,
    rd: u8,
    vm: bool,
    func6: u8,
    i: int,
)
    requires
        carrying_kind(instr) is Some,
        s.vector.wf(),
        rs1 < 32,
        0 <= i < s.vector.config.vl,
        dispatch::executed(instr, s, RVInstrInfo::V { rs1, rs2, rd, vm, func6 }).1 is Ok,
    ensures
        ({
            let t = dispatch::executed(instr, s, RVInstrInfo::V { rs1, rs2, rd, vm, func6 }).0;
            let w = s.vector.config.vsew.spec_width();
            let (form, with) = carrying_kind(instr)->0;
            let a = vector_laws::held(s, rs2, i, w);
            let b = vector_laws::second(s, form, rs1, i, w);
            let c = if with {
                vector_laws::carry_in(s, i)
            } else {
                0
            };
            flag(t, rd, i) == if !vector_laws::works_on(s, vm || with, i) {
                flag(s, rd, i)
            } else {
                match instr {
                    RiscvInstr::VMSBC_VV
                    | RiscvInstr::VMSBC_VX
                    | RiscvInstr::VMSBC_VVM
                    | RiscvInstr::VMSBC_VXM => a < b + c,
                    _ => a + b + c >= w.modulus(),
                }
            }
        }),
{
    let info = RVInstrInfo::V { rs1, rs2, rd, vm, func6 };
    let (form, with) = carrying_kind(instr)->0;
    let f = exec_mapping::exec_func_of(instr);
    vector_laws::lemma_later_dispatch(f, s, info);
    reveal(ExecFn::vector_mask_step);
    reveal(exec_vector_function::vec_carry_out_op_step);
    reveal(exec_vector_function::vec_integer_spec_step);
    let rhs = exec_vector_function::rhs_of(form, s, rs1);
    let subtract = match instr {
        RiscvInstr::VMSBC_VV
        | RiscvInstr::VMSBC_VX
        | RiscvInstr::VMSBC_VVM
        | RiscvInstr::VMSBC_VXM => true,
        _ => false,
    };
    let g = MaskFn::CarryOut { subtract, vs2: rs2, rhs, with };
    assert(f.step(s, info) == exec_vector_function::mask_step(g, rd, !(vm || with), s));
    lemma_flag_after(g, rd, vm || with, s, i);
    vector_laws::lemma_second(s, form, rs1, i, s.vector.sew());
}

/// The logical instructions combine the bits of two masks: the first is that of the second source
/// register, and the inverted one of ANDN and ORN is that of the first.
#[verifier::rlimit(60)]
pub proof fn law_vector_mask_logic(
    instr: RiscvInstr,
    s: CpuState,
    rs1: u8,
    rs2: u8,
    rd: u8,
    vm: bool,
    func6: u8,
    i: int,
)
    requires
        exec_mapping::exec_func_of(instr) is VecBit,
        s.vector.wf(),
        0 <= i < s.vector.config.vl,
        dispatch::executed(instr, s, RVInstrInfo::V { rs1, rs2, rd, vm, func6 }).1 is Ok,
    ensures
        ({
            let t = dispatch::executed(instr, s, RVInstrInfo::V { rs1, rs2, rd, vm, func6 }).0;
            let (a, b) = (flag(s, rs2, i), flag(s, rs1, i));
            flag(t, rd, i) == if !vector_laws::works_on(s, vm, i) {
                flag(s, rd, i)
            } else {
                match instr {
                    RiscvInstr::VMAND_MM => a && b,
                    RiscvInstr::VMNAND_MM => !(a && b),
                    RiscvInstr::VMANDN_MM => a && !b,
                    RiscvInstr::VMXOR_MM => a != b,
                    RiscvInstr::VMOR_MM => a || b,
                    RiscvInstr::VMNOR_MM => !(a || b),
                    RiscvInstr::VMORN_MM => a || !b,
                    RiscvInstr::VMXNOR_MM => a == b,
                    _ => false,
                }
            }
        }),
{
    let info = RVInstrInfo::V { rs1, rs2, rd, vm, func6 };
    let f = exec_mapping::exec_func_of(instr);
    vector_laws::lemma_later_dispatch(f, s, info);
    reveal(ExecFn::vector_mask_step);
    reveal(exec_vector_function::vec_bit_op_step);
    lemma_flag_after(MaskFn::Logic { op: f->VecBit_0, vs2: rs2, vs1: rs1 }, rd, vm, s, i);
}

/// Whether bit `i` of a mask is set and not masked off.
pub open spec fn seen(s: CpuState, reg: u8, vm: bool, i: int) -> bool {
    (vm || flag(s, 0, i)) && flag(s, reg, i)
}

/// Around the first set bit: VMSBF sets the bits before it, VMSIF those and the bit itself, VMSOF
/// that bit alone.
#[verifier::rlimit(60)]
pub proof fn law_vector_first_bits(
    instr: RiscvInstr,
    s: CpuState,
    rs1: u8,
    rs2: u8,
    rd: u8,
    vm: bool,
    func6: u8,
    i: int,
)
    requires
        instr == RiscvInstr::VMSBF_M || instr == RiscvInstr::VMSIF_M || instr
            == RiscvInstr::VMSOF_M,
        s.vector.wf(),
        0 <= i < s.vector.config.vl,
        dispatch::executed(instr, s, RVInstrInfo::V { rs1, rs2, rd, vm, func6 }).1 is Ok,
    ensures
        ({
            let t = dispatch::executed(instr, s, RVInstrInfo::V { rs1, rs2, rd, vm, func6 }).0;
            let none_before = forall|j: int| 0 <= j < i ==> !#[trigger] seen(s, rs2, vm, j);
            flag(t, rd, i) == if !vector_laws::works_on(s, vm, i) {
                flag(s, rd, i)
            } else {
                match instr {
                    RiscvInstr::VMSBF_M => none_before && !seen(s, rs2, vm, i),
                    RiscvInstr::VMSIF_M => none_before,
                    _ => none_before && seen(s, rs2, vm, i),
                }
            }
        }),
{
    let info = RVInstrInfo::V { rs1, rs2, rd, vm, func6 };
    let f = exec_mapping::exec_func_of(instr);
    vector_laws::lemma_later_dispatch(f, s, info);
    reveal(exec_vector_function::vec_integer_spec_step);
    let kind = match instr {
        RiscvInstr::VMSBF_M => FirstBit::Before,
        RiscvInstr::VMSIF_M => FirstBit::Including,
        _ => FirstBit::Only,
    };
    let g = MaskFn::First { kind, vs2: rs2, masked: !vm };
    assert(f.step(s, info) == exec_vector_function::mask_step(g, rd, !vm, s));
    lemma_flag_after(g, rd, vm, s, i);
    let n = s.vector.config.vl as int;
    let first = mask::first_from(s.vector.bytes, rs2, !vm, 0, n);
    mask::law_first_set_bit(s.vector.bytes, rs2, !vm, 0, n);
    assert forall|j: int| 0 <= j < n implies #[trigger] seen(s, rs2, vm, j) == mask::counts(
        s.vector.bytes,
        rs2,
        !vm,
        j,
    ) by {}
    if first < i {
        assert(seen(s, rs2, vm, first));
    }
}

/// The set bits of a mask below `n` that are not masked off.
pub open spec fn seen_below(s: CpuState, reg: u8, vm: bool, n: int) -> Set<int> {
    Set::new(|j: int| 0 <= j < n && seen(s, reg, vm, j))
}

#[verifier::rlimit(40)]
pub proof fn lemma_population(s: CpuState, reg: u8, vm: bool, n: int)
    requires
        0 <= n,
    ensures
        seen_below(s, reg, vm, n).finite(),
        seen_below(s, reg, vm, n).len() == element::count_set(s.vector.bytes, reg, !vm, n),
        element::count_set(s.vector.bytes, reg, !vm, n) <= n,
    decreases n,
{
    let set = seen_below(s, reg, vm, n);
    if n > 0 {
        lemma_population(s, reg, vm, n - 1);
        let prev = seen_below(s, reg, vm, n - 1);
        if seen(s, reg, vm, n - 1) {
            assert(set =~= prev.insert(n - 1));
            assert(!prev.contains(n - 1));
        } else {
            assert(set =~= prev);
        }
    } else {
        assert(set =~= Set::empty());
    }
}

/// Counting gives the number of set bits, and finding the first gives its index, or -1 where there
/// is none. Neither changes the vector registers.
#[verifier::rlimit(60)]
pub proof fn law_vector_population(
    s: CpuState,
    rs1: u8,
    rs2: u8,
    rd: u8,
    vm: bool,
    func6: u8,
)
    requires
        s.vector.wf(),
        s.regs.len() == 32,
        rd < 32,
    ensures
        ({
            let info = RVInstrInfo::V { rs1, rs2, rd, vm, func6 };
            let (t, r) = dispatch::executed(RiscvInstr::VCPOP_M, s, info);
            r is Ok ==> t.reg(rd) == seen_below(s, rs2, vm, s.vector.config.vl as int).len()
                && t.vector == s.vector
        }),
        ({
            let info = RVInstrInfo::V { rs1, rs2, rd, vm, func6 };
            let n = s.vector.config.vl as int;
            let (t, r) = dispatch::executed(RiscvInstr::VFIRST_M, s, info);
            let x = t.reg(rd);
            r is Ok ==> t.vector == s.vector && if x < n {
                seen(s, rs2, vm, x as int) && forall|j: int|
                    0 <= j < x ==> !#[trigger] seen(s, rs2, vm, j)
            } else {
                Width::W64.signed(x) == -1 && forall|j: int|
                    0 <= j < n ==> !#[trigger] seen(s, rs2, vm, j)
            }
        }),
{
    let info = RVInstrInfo::V { rs1, rs2, rd, vm, func6 };
    vector_laws::lemma_later_dispatch(exec_mapping::exec_func_of(RiscvInstr::VCPOP_M), s, info);
    vector_laws::lemma_later_dispatch(exec_mapping::exec_func_of(RiscvInstr::VFIRST_M), s, info);
    reveal(exec_vector_function::vec_integer_spec_step);
    reveal(exec_vector_function::number_step);
    reveal(exec_vector_function::vector_step);
    let n = s.vector.config.vl as int;
    lemma_population(s, rs2, vm, n);
    mask::law_first_set_bit(s.vector.bytes, rs2, !vm, 0, n);
    assert forall|j: int| 0 <= j < n implies #[trigger] seen(s, rs2, vm, j) == mask::counts(
        s.vector.bytes,
        rs2,
        !vm,
        j,
    ) by {}
}

} // verus!
