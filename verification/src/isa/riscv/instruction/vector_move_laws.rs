//! What setting up the vector unit and moving elements is for, as relations between the hart before
//! and after.
use vstd::arithmetic::div_mod::*;
use vstd::arithmetic::power2::*;
use vstd::prelude::*;

use crate::isa::riscv::csr_reg::csr_index;
use crate::isa::riscv::csr_reg::field::CsrField;
use crate::isa::riscv::executor::CpuState;
use crate::isa::riscv::trap::Exception;
use crate::isa::riscv::vector::element;
use crate::isa::riscv::vector::mask;
use crate::isa::riscv::vector::state;
use crate::isa::riscv::vector::types::VectorConfig;
use crate::utils::Width;

use super::alu_laws;
use super::dispatch;
use super::exec_mapping;
use super::exec_mapping::ExecFn;
use super::exec_vector_function;
use super::info::RVInstrInfo;
use super::instr_table::RiscvInstr;
use super::vector_laws;
use super::vector_mask_laws;

verus! {

/// The type and the number of elements that a setting asks for: VSETVLI has the type in eleven bits
/// of the instruction, VSETIVLI in ten and the number too, VSETVL both in registers.
pub open spec fn requested(
    instr: RiscvInstr,
    s: CpuState,
    rs1: u8,
    rs2: u8,
    vm: bool,
    func6: u8,
) -> Option<(int, int)> {
    let imm = func6 * 64 + rs2 + if vm {
        32int
    } else {
        0
    };
    match instr {
        RiscvInstr::VSETVLI => Some((imm % 2048, s.reg(rs1) as int)),
        RiscvInstr::VSETIVLI => Some((imm % 1024, rs1 as int)),
        RiscvInstr::VSETVL => Some((s.reg(rs2) as int, s.reg(rs1) as int)),
        _ => None,
    }
}

/// How many eighths of a register a group takes, by the low three bits of a type.
pub open spec fn group_eighths(bits: int) -> int {
    if bits <= 3 {
        8 * (pow2(bits as nat) as int)
    } else {
        pow2((bits - 5) as nat) as int
    }
}

/// Whether a type exists: no upper bit is set, the width is at most 64 bits, the group multiplier is
/// not the reserved one, and a group of registers of 128 bits holds an element.
pub open spec fn type_exists(vtype: int) -> bool {
    &&& 0 <= vtype < 256
    &&& vtype / 8 % 8 <= 3
    &&& vtype % 8 != 4
    &&& 8 * pow2((vtype / 8 % 8) as nat) <= 16 * group_eighths(vtype % 8)
}

/// Setting the unit up selects the width and the group that the type encodes, and as many elements
/// as were asked for or as fit, whichever is less; the destination and `vl` hold that number. A type
/// that does not exist is refused. The vector registers stay.
#[verifier::rlimit(60)]
pub proof fn law_vector_setting(
    instr: RiscvInstr,
    s: CpuState,
    rs1: u8,
    rs2: u8,
    rd: u8,
    vm: bool,
    func6: u8,
)
    requires
        requested(instr, s, rs1, rs2, vm, func6) is Some,
        s.csr.field(CsrField::Mstatus_vs) != 0,
        s.csr.complete(),
        s.regs.len() == 32,
        rd < 32,
    ensures
        ({
            let (vtype, asked) = requested(instr, s, rs1, rs2, vm, func6)->0;
            let (t, r) = dispatch::executed(
                instr,
                s,
                RVInstrInfo::V { rs1, rs2, rd, vm, func6 },
            );
            let c = t.vector.config;
            let bits = 8 * pow2((vtype / 8 % 8) as nat);
            let vl = c.vl as int;
            &&& r is Ok <==> type_exists(vtype)
            &&& r is Err ==> r->Err_0 == Exception::IllegalInstruction
            &&& t.vector.bytes == s.vector.bytes
            &&& r is Ok ==> {
                &&& c.vsew.spec_width().spec_bits() == bits
                &&& c.vlmul.spec_eighths() == group_eighths(vtype % 8)
                &&& c.vta == (vtype / 64 % 2 == 1)
                &&& c.vma == (vtype / 128 % 2 == 1)
                &&& vl <= asked
                &&& vl * bits <= 16 * group_eighths(vtype % 8)
                &&& vl == asked || (vl + 1) * bits > 16 * group_eighths(vtype % 8)
                &&& t.reg(rd) == vl
                &&& t.csr.value(csr_index::vl) == vl
                &&& t.csr.value(csr_index::vtype) == vtype
                &&& t.pc == (s.pc + 4) % 0x1_0000_0000_0000_0000
            }
        }),
{
    let info = RVInstrInfo::V { rs1, rs2, rd, vm, func6 };
    let f = exec_mapping::exec_func_of(instr);
    assert(f is VecConfig);
    vector_laws::lemma_vector_dispatch(f, s, info);
    reveal(ExecFn::vector_step);
    reveal(exec_vector_function::vector_config_step);
    reveal(exec_vector_function::vector_step);
    let (vtype, asked) = requested(instr, s, rs1, rs2, vm, func6)->0;
    assert(exec_vector_function::config_request(f->VecConfig_0, s, info) == (
        vtype as u64,
        asked as u64,
    ));
    lemma_type(vtype as u64);
}

/// What a type encodes.
proof fn lemma_type(vtype: u64)
    ensures
        VectorConfig::of_vtype(vtype) is Some <==> type_exists(vtype as int),
        VectorConfig::of_vtype(vtype) matches Some(c) ==> {
            let bits = 8 * pow2((vtype as int / 8 % 8) as nat);
            let room = 16 * group_eighths(vtype as int % 8);
            &&& c.vsew.spec_width().spec_bits() == bits
            &&& c.vlmul.spec_eighths() == group_eighths(vtype as int % 8)
            &&& c.vta == (vtype / 64 % 2 == 1)
            &&& c.vma == (vtype / 128 % 2 == 1)
            &&& c.vl * bits <= room
            &&& (c.vl + 1) * bits > room
            &&& forall|n: int| 0 <= n <= c.vl ==> #[trigger] (n * bits) <= room
        },
{
    lemma2_to64();
    let sew = (vtype / 8 % 8) as nat;
    let m = vtype as int % 8;
    if let Some(c) = VectorConfig::of_vtype(vtype) {
        let bits = 8 * pow2(sew) as int;
        let room = 16 * group_eighths(m);
        let vl = c.vl as int;
        let b = c.vsew.spec_width().spec_bytes();
        let e = c.vlmul.spec_eighths();
        assert(bits == 8 * b && room == 16 * e);
        assert(vl == (2 * e) / b);
        lemma_fundamental_div_mod(2 * e, b);
        lemma_mod_bound(2 * e, b);
        assert(vl * bits <= room && (vl + 1) * bits > room) by (nonlinear_arith)
            requires
                bits == 8 * b,
                room == 16 * e,
                2 * e == b * vl + (2 * e) % b,
                0 <= (2 * e) % b < b,
        ;
        assert forall|n: int| 0 <= n <= vl implies #[trigger] (n * bits) <= room by {
            assert(n * bits <= vl * bits) by (nonlinear_arith)
                requires
                    n <= vl,
                    bits >= 0,
            ;
        }
    }
}

/// Moving element 0 to a register sign-extends it; moving a register to element 0 cuts it to the
/// width and leaves the other elements of the register alone. Neither does anything from an element
/// behind the last one on.
#[verifier::rlimit(60)]
pub proof fn law_vector_scalar_moves(
    s: CpuState,
    reg: u8,
    rd: u8,
    vm: bool,
    func6: u8,
    i: int,
)
    requires
        s.vector.wf(),
        s.csr.field(CsrField::Mstatus_vs) != 0,
        s.csr.value(csr_index::vstart) < s.vector.config.vl,
        s.regs.len() == 32,
        reg < 32,
        rd < 32,
        0 < i,
        i * s.vector.config.vsew.spec_width().spec_bytes()
            + s.vector.config.vsew.spec_width().spec_bytes() <= 16,
    ensures
        ({
            let info = RVInstrInfo::V { rs1: 0, rs2: reg, rd, vm, func6 };
            let (t, r) = dispatch::executed(RiscvInstr::VMV_X_S, s, info);
            let w = s.vector.config.vsew.spec_width();
            &&& r is Ok
            &&& Width::W64.signed(t.reg(rd)) == w.signed(vector_laws::held(s, reg, 0, w))
            &&& t.vector == s.vector
        }),
        ({
            let info = RVInstrInfo::V { rs1: reg, rs2: 0, rd, vm, func6 };
            let (t, r) = dispatch::executed(RiscvInstr::VMV_S_X, s, info);
            let w = s.vector.config.vsew.spec_width();
            &&& r is Ok
            &&& vector_laws::held(t, rd, 0, w) == s.reg(reg) as int % w.modulus()
            &&& vector_laws::held(t, rd, i, w) == vector_laws::held(s, rd, i, w)
            &&& t.regs == s.regs
        }),
{
    let w = s.vector.sew();
    let info = RVInstrInfo::V { rs1: 0, rs2: reg, rd, vm, func6 };
    let other = RVInstrInfo::V { rs1: reg, rs2: 0, rd, vm, func6 };
    vector_laws::lemma_later_dispatch(
        exec_mapping::exec_func_of(RiscvInstr::VMV_X_S),
        s,
        info,
    );
    vector_laws::lemma_later_dispatch(
        exec_mapping::exec_func_of(RiscvInstr::VMV_S_X),
        s,
        other,
    );
    reveal(exec_vector_function::vec_integer_spec_step);
    reveal(exec_vector_function::number_step);
    reveal(exec_vector_function::vector_step);
    vector_laws::lemma_held(s, reg, 0, w);
    alu_laws::law_widened(w, vector_laws::held(s, reg, 0, w));
    let results = seq![Some(s.reg(reg))];
    let b = w.spec_bytes();
    assert(i * b >= 1 * b) by (nonlinear_arith)
        requires
            i >= 1,
            b >= 1,
    ;
    state::law_written_elements(s.vector.bytes, rd, w, results, 1, 0);
    state::lemma_elements_frame(
        s.vector.bytes,
        rd,
        w,
        results,
        1,
        rd * 16 + i * w.spec_bytes(),
        w,
    );
}

/// The number of registers of a whole-register move.
pub open spec fn whole_count(instr: RiscvInstr) -> Option<int> {
    match instr {
        RiscvInstr::VMV1R_V => Some(1),
        RiscvInstr::VMV2R_V => Some(2),
        RiscvInstr::VMV4R_V => Some(4),
        RiscvInstr::VMV8R_V => Some(8),
        _ => None,
    }
}

/// A whole-register move copies as many registers as its name says, in doublewords from `vstart` on,
/// whatever the configuration is.
#[verifier::rlimit(60)]
pub proof fn law_vector_whole_moves(
    instr: RiscvInstr,
    s: CpuState,
    rs1: u8,
    rs2: u8,
    rd: u8,
    vm: bool,
    func6: u8,
    i: int,
)
    requires
        whole_count(instr) is Some,
        s.vector.wf(),
        0 <= i < 2 * whole_count(instr)->0,
        dispatch::executed(instr, s, RVInstrInfo::V { rs1, rs2, rd, vm, func6 }).1 is Ok,
    ensures
        ({
            let t = dispatch::executed(instr, s, RVInstrInfo::V { rs1, rs2, rd, vm, func6 }).0;
            vector_laws::held(t, rd, i, Width::W64) == if s.csr.value(csr_index::vstart) <= i {
                vector_laws::held(s, rs2, i, Width::W64)
            } else {
                vector_laws::held(s, rd, i, Width::W64)
            }
        }),
{
    let info = RVInstrInfo::V { rs1, rs2, rd, vm, func6 };
    let f = exec_mapping::exec_func_of(instr);
    let count = whole_count(instr)->0;
    assert(f == ExecFn::VecWholeMove(count as u8));
    vector_laws::lemma_later_dispatch(f, s, info);
    reveal(ExecFn::vector_mask_step);
    reveal(exec_vector_function::vec_whole_register_move_step);
    reveal(exec_vector_function::vector_step);
    let vstart = s.vstart();
    let results = Seq::new(
        (2 * count) as nat,
        |j: int|
            if vstart <= j {
                Some(state::element(s.vector.bytes, rs2, j, Width::W64))
            } else {
                None
            },
    );
    state::law_written_elements(s.vector.bytes, rd, Width::W64, results, 2 * count, i);
    let moved = Seq::new(
        (count as u8 * 2) as nat,
        |j: int|
            if vstart <= j {
                Some(state::element(s.vector.bytes, rs2, j, Width::W64))
            } else {
                None
            },
    );
    assert(moved =~= results);
}

/// Packing keeps the elements whose bit is set in a mask, in their order, at the start of the
/// destination: element `i` of the source goes to the place that the number of set bits before it
/// gives. The elements behind them stay.
#[verifier::rlimit(60)]
pub proof fn law_vector_packing(
    s: CpuState,
    rs1: u8,
    rs2: u8,
    rd: u8,
    vm: bool,
    func6: u8,
    i: int,
)
    requires
        s.vector.wf(),
        0 <= i < s.vector.config.vl,
        dispatch::executed(
            RiscvInstr::VCOMPRESS_VM,
            s,
            RVInstrInfo::V { rs1, rs2, rd, vm, func6 },
        ).1 is Ok,
    ensures
        ({
            let t = dispatch::executed(
                RiscvInstr::VCOMPRESS_VM,
                s,
                RVInstrInfo::V { rs1, rs2, rd, vm, func6 },
            ).0;
            let w = s.vector.config.vsew.spec_width();
            let n = s.vector.config.vl as int;
            let before = vector_mask_laws::seen_below(s, rs1, true, i).len() as int;
            let all = vector_mask_laws::seen_below(s, rs1, true, n).len();
            &&& vector_mask_laws::flag(s, rs1, i) ==> vector_laws::held(t, rd, before, w)
                == vector_laws::held(s, rs2, i, w)
            &&& i >= all ==> vector_laws::held(t, rd, i, w) == vector_laws::held(s, rd, i, w)
        }),
{
    let info = RVInstrInfo::V { rs1, rs2, rd, vm, func6 };
    let f = exec_mapping::exec_func_of(RiscvInstr::VCOMPRESS_VM);
    vector_laws::lemma_later_dispatch(f, s, info);
    reveal(exec_vector_function::vec_integer_spec_step);
    reveal(exec_vector_function::vector_step);
    let w = s.vector.sew();
    let c = s.vector.config;
    let n = c.vl as int;
    let results = mask::selected(s.vector, rs1, rs2, n);
    lemma_selected(s, rs1, rs2, n, i);
    element::lemma_results_fit(c, rd, w);
    vector_mask_laws::lemma_population(s, rs1, true, i);
    vector_mask_laws::lemma_population(s, rs1, true, n);
    let len = results.len() as int;
    let b = w.spec_bytes();
    assert(len * b <= n * b && 0 <= i * b && i * b + b <= n * b) by (nonlinear_arith)
        requires
            0 <= len <= n,
            0 <= i < n,
            b >= 1,
    ;
    if vector_mask_laws::flag(s, rs1, i) {
        let k = element::count_set(s.vector.bytes, rs1, false, i);
        state::law_written_elements(s.vector.bytes, rd, w, results, len, k);
        vector_laws::lemma_held(s, rs2, i, w);
        vector_laws::lemma_wrapped(w, vector_laws::held(s, rs2, i, w) as int);
    }
    if i >= len {
        assert(len * b <= i * b) by (nonlinear_arith)
            requires
                len <= i,
                b >= 1,
        ;
        state::lemma_elements_frame(
            s.vector.bytes,
            rd,
            w,
            results,
            len,
            rd * 16 + i * b,
            w,
        );
    }
}

/// The elements that a mask selects, and where each of them is.
proof fn lemma_selected(s: CpuState, rs1: u8, rs2: u8, n: int, i: int)
    requires
        0 <= i < n,
    ensures
        ({
            let results = mask::selected(s.vector, rs1, rs2, n);
            let k = element::count_set(s.vector.bytes, rs1, false, i);
            &&& results.len() == element::count_set(s.vector.bytes, rs1, false, n)
            &&& results.len() <= n
            &&& vector_mask_laws::flag(s, rs1, i) ==> 0 <= k < results.len() && results[k] == Some(
                vector_laws::held(s, rs2, i, s.vector.sew()),
            )
        }),
    decreases n,
{
    lemma_selected_len(s, rs1, rs2, n);
    lemma_selected_len(s, rs1, rs2, n - 1);
    if i < n - 1 {
        lemma_selected(s, rs1, rs2, n - 1, i);
    }
}

proof fn lemma_selected_len(s: CpuState, rs1: u8, rs2: u8, n: int)
    requires
        0 <= n,
    ensures
        mask::selected(s.vector, rs1, rs2, n).len() == element::count_set(
            s.vector.bytes,
            rs1,
            false,
            n,
        ),
        mask::selected(s.vector, rs1, rs2, n).len() <= n,
    decreases n,
{
    if n > 0 {
        lemma_selected_len(s, rs1, rs2, n - 1);
    }
}

} // verus!
