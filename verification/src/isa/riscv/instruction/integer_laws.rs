//! What the integer instructions are for, as relations between the hart before and after.
use vstd::arithmetic::div_mod::*;
use vstd::arithmetic::mul::*;
use vstd::arithmetic::power2::*;
use vstd::prelude::*;

use crate::isa::riscv::csr_reg::csr_index;
use crate::isa::riscv::csr_reg::file;
use crate::isa::riscv::executor::CpuState;
use crate::utils::Width;

use super::alu;
use super::alu::AluFn;
use super::alu_laws;
use super::dispatch;
use super::exec_core::Step;
use super::exec_mapping;
use super::exec_mapping::ExecFn;
use super::info::RVInstrInfo;
use super::instr_table::RiscvInstr;

verus! {

/// Whether a step had no exception, moved the program counter on by `len`, and changed nothing
/// else of the hart but one register and the count of instructions.
pub open spec fn writes_only(s: CpuState, step: Step, rd: u8, len: int) -> bool {
    let t = step.0;
    &&& step.1 is Ok
    &&& t.pc == (s.pc + len) % 0x1_0000_0000_0000_0000
    &&& t.regs.len() == s.regs.len()
    &&& forall|k: u8| k < 32 && k != rd ==> #[trigger] t.reg(k) == s.reg(k)
    &&& t.vm == s.vm
    &&& t.fpu == s.fpu
    &&& t.vector == s.vector
    &&& t.csr.cpl == s.csr.cpl
    &&& t.pending_tval == s.pending_tval
    &&& s.csr.table.len() == file::CSR_SIZE ==> {
        &&& t.csr.value(csr_index::minstret) == (s.csr.value(csr_index::minstret) + 1)
            % 0x1_0000_0000_0000_0000
        &&& forall|a: u64|
            a < file::CSR_SIZE && a != csr_index::minstret ==> #[trigger] t.csr.table[a as int]
                == s.csr.table[a as int]
    }
}

/// The bits of `r` are those of `a` and `b`, each pair combined by an operation of `instr`.
pub open spec fn bits_combined(instr: RiscvInstr, w: Width, a: u64, b: u64, r: u64) -> bool {
    forall|i: u64|
        i < w.spec_bits() ==> #[trigger] alu_laws::bit(r, i) == match instr {
            RiscvInstr::AND => alu_laws::bit(a, i) && alu_laws::bit(b, i),
            RiscvInstr::OR => alu_laws::bit(a, i) || alu_laws::bit(b, i),
            _ => alu_laws::bit(a, i) != alu_laws::bit(b, i),
        }
}

/// How the result `r` of an instruction on registers of width `w` goes with its operands.
#[verifier::opaque]
pub open spec fn relates(instr: RiscvInstr, w: Width, a: u64, b: u64, r: u64) -> bool {
    let m = w.modulus();
    let d = pow2((b as int % w.spec_bits()) as nat);
    let (x, y, z) = (w.signed(a), w.signed(b), w.signed(r));
    let overflows = x == -w.half() && y == -1;
    w.holds(r) && match instr {
        RiscvInstr::ADD => r == a + b || r == a + b - m,
        RiscvInstr::SUB => r == a - b || r == a - b + m,
        RiscvInstr::SLL => exists|k: int| a * d == r + #[trigger] (k * m),
        RiscvInstr::SRL => r * d <= a < (r + 1) * d,
        RiscvInstr::SRA => z * d <= x < (z + 1) * d,
        RiscvInstr::SLT => r == if x < y { 1u64 } else { 0 },
        RiscvInstr::SLTU => r == if a < b { 1u64 } else { 0 },
        RiscvInstr::AND | RiscvInstr::OR | RiscvInstr::XOR => bits_combined(instr, w, a, b, r),
        RiscvInstr::MUL => exists|k: int| a * b == r + #[trigger] (k * m),
        RiscvInstr::MULHU => r * m <= a * b < (r + 1) * m,
        RiscvInstr::MULH => z * m <= x * y < (z + 1) * m,
        RiscvInstr::MULHSU => z * m <= x * b < (z + 1) * m,
        RiscvInstr::DIV => if b == 0 {
            z == -1
        } else if overflows {
            r == a
        } else {
            let rest = x - y * z;
            alu::abs(rest) < alu::abs(y) && (rest == 0 || (rest < 0) == (x < 0))
        },
        RiscvInstr::REM => if b == 0 {
            r == a
        } else if overflows {
            r == 0
        } else {
            alu::abs(z) < alu::abs(y) && (z == 0 || (z < 0) == (x < 0)) && exists|q: int|
                x == #[trigger] (y * q) + z
        },
        RiscvInstr::DIVU => if b == 0 {
            r == m - 1
        } else {
            b * r <= a < b * r + b
        },
        RiscvInstr::REMU => if b == 0 {
            r == a
        } else {
            r < b && exists|q: int| a == #[trigger] (b * q) + r
        },
        _ => false,
    }
}

/// The instruction on two registers whose operation an instruction with an immediate has.
pub open spec fn register_form(instr: RiscvInstr) -> RiscvInstr {
    match instr {
        RiscvInstr::ADDI => RiscvInstr::ADD,
        RiscvInstr::SLLI => RiscvInstr::SLL,
        RiscvInstr::SRLI => RiscvInstr::SRL,
        RiscvInstr::SRAI => RiscvInstr::SRA,
        RiscvInstr::SLTI => RiscvInstr::SLT,
        RiscvInstr::SLTIU => RiscvInstr::SLTU,
        RiscvInstr::ANDI => RiscvInstr::AND,
        RiscvInstr::ORI => RiscvInstr::OR,
        RiscvInstr::XORI => RiscvInstr::XOR,
        RiscvInstr::ADDIW => RiscvInstr::ADDW,
        RiscvInstr::SLLIW => RiscvInstr::SLLW,
        RiscvInstr::SRLIW => RiscvInstr::SRLW,
        RiscvInstr::SRAIW => RiscvInstr::SRAW,
        _ => instr,
    }
}

/// The instruction on whole registers whose operation an instruction on words has.
pub open spec fn long_form(instr: RiscvInstr) -> RiscvInstr {
    match instr {
        RiscvInstr::ADDW => RiscvInstr::ADD,
        RiscvInstr::SUBW => RiscvInstr::SUB,
        RiscvInstr::SLLW => RiscvInstr::SLL,
        RiscvInstr::SRLW => RiscvInstr::SRL,
        RiscvInstr::SRAW => RiscvInstr::SRA,
        RiscvInstr::MULW => RiscvInstr::MUL,
        RiscvInstr::DIVW => RiscvInstr::DIV,
        RiscvInstr::DIVUW => RiscvInstr::DIVU,
        RiscvInstr::REMW => RiscvInstr::REM,
        RiscvInstr::REMUW => RiscvInstr::REMU,
        _ => instr,
    }
}

/// Whether an instruction computes on whole registers.
pub open spec fn is_long(instr: RiscvInstr) -> bool {
    match instr {
        RiscvInstr::ADD
        | RiscvInstr::SUB
        | RiscvInstr::SLL
        | RiscvInstr::SRL
        | RiscvInstr::SRA
        | RiscvInstr::SLT
        | RiscvInstr::SLTU
        | RiscvInstr::AND
        | RiscvInstr::OR
        | RiscvInstr::XOR
        | RiscvInstr::MUL
        | RiscvInstr::MULH
        | RiscvInstr::MULHU
        | RiscvInstr::MULHSU
        | RiscvInstr::DIV
        | RiscvInstr::DIVU
        | RiscvInstr::REM
        | RiscvInstr::REMU => true,
        _ => false,
    }
}

/// The operation of an instruction on whole registers gives what the instruction stands for, at
/// any width.
pub proof fn lemma_relates(instr: RiscvInstr, w: Width, a: u64, b: u64)
    requires
        is_long(instr),
        w.holds(a),
        w.holds(b),
    ensures
        exec_mapping::exec_func_of(instr) is Arith,
        relates(instr, w, a, b, alu::alu(exec_mapping::exec_func_of(instr)->Arith_0, w, a, b)),
{
    reveal(relates);
    match instr {
        RiscvInstr::ADD | RiscvInstr::SUB => {
            alu_laws::law_sum_and_difference(w, a, b);
        },
        RiscvInstr::SLL | RiscvInstr::SRL | RiscvInstr::SRA => {
            alu_laws::law_shifts(w, a, b);
        },
        RiscvInstr::SLT | RiscvInstr::SLTU => {
            alu_laws::law_comparisons(w, a, b);
        },
        RiscvInstr::AND | RiscvInstr::OR | RiscvInstr::XOR => {
            alu::lemma_bitwise_narrow(w, a, b);
            let r = alu::alu(exec_mapping::exec_func_of(instr)->Arith_0, w, a, b);
            assert forall|i: u64| i < w.spec_bits() implies #[trigger] alu_laws::bit(r, i)
                == match instr {
                RiscvInstr::AND => alu_laws::bit(a, i) && alu_laws::bit(b, i),
                RiscvInstr::OR => alu_laws::bit(a, i) || alu_laws::bit(b, i),
                _ => alu_laws::bit(a, i) != alu_laws::bit(b, i),
            } by {
                alu_laws::law_bitwise(w, a, b, i);
            }
        },
        RiscvInstr::MUL | RiscvInstr::MULH | RiscvInstr::MULHU | RiscvInstr::MULHSU => {
            lemma_products_relate(instr, w, a, b);
        },
        RiscvInstr::DIV | RiscvInstr::REM => {
            alu_laws::law_signed_division(w, a, b);
            let q = w.signed(alu::alu(AluFn::DivSigned, w, a, b));
            assert(w.signed(b) * q == w.signed(b) * q + 0);
        },
        _ => {
            alu_laws::law_unsigned_division(w, a, b);
            let q = alu::alu(AluFn::DivUnsigned, w, a, b) as int;
            assert(b * q == b * q + 0);
            if b != 0 {
                lemma_div_nonincreasing(a as int, b as int);
                lemma_mod_bound(a as int, b as int);
            }
        },
    }
}

proof fn lemma_products_relate(instr: RiscvInstr, w: Width, a: u64, b: u64)
    requires
        instr == RiscvInstr::MUL || instr == RiscvInstr::MULH || instr == RiscvInstr::MULHU || instr
            == RiscvInstr::MULHSU,
        w.holds(a),
        w.holds(b),
    ensures
        relates(instr, w, a, b, alu::alu(exec_mapping::exec_func_of(instr)->Arith_0, w, a, b)),
{
    reveal(relates);
    alu_laws::law_product_halves(w, a, b);
    let m = w.modulus();
    let low = alu::alu(AluFn::MulLow, w, a, b);
    let h = alu::alu(AluFn::MulHighUnsigned, w, a, b) as int;
    let hs = w.signed(alu::alu(AluFn::MulHighSigned, w, a, b));
    let hm = w.signed(alu::alu(AluFn::MulHighSignedUnsigned, w, a, b));
    assert(a * b == low + h * m);
    assert((h + 1) * m == h * m + m && (hs + 1) * m == hs * m + m && (hm + 1) * m == hm * m + m)
        by (nonlinear_arith);
    assert(0 <= low < m);
}

/// An instruction on whole registers leaves in its destination what its name stands for, and
/// changes nothing else; the forms with an immediate take it in place of the second register.
pub proof fn law_long_arithmetic(
    instr: RiscvInstr,
    s: CpuState,
    rs1: u8,
    rs2: u8,
    rd: u8,
    imm: u64,
)
    requires
        is_long(register_form(instr)),
        s.regs.len() == 32,
        rd < 32,
    ensures
        ({
            let step = dispatch::executed(instr, s, RVInstrInfo::R { rs1, rs2, rd });
            &&& writes_only(s, step, rd, 4)
            &&& relates(register_form(instr), Width::W64, s.reg(rs1), s.reg(rs2), step.0.reg(rd))
        }),
        ({
            let step = dispatch::executed(instr, s, RVInstrInfo::I { rs1, rd, imm });
            &&& writes_only(s, step, rd, 4)
            &&& relates(register_form(instr), Width::W64, s.reg(rs1), imm, step.0.reg(rd))
        }),
{
    reveal(ExecFn::base_step);
    let long = register_form(instr);
    assert(exec_mapping::exec_func_of(instr) == exec_mapping::exec_func_of(long));
    lemma_relates(long, Width::W64, s.reg(rs1), s.reg(rs2));
    lemma_relates(long, Width::W64, s.reg(rs1), imm);
}

/// An instruction on words leaves in its destination, sign-extended, what the instruction on whole
/// registers of the same name stands for at the width of a word.
pub proof fn law_word_arithmetic(
    instr: RiscvInstr,
    s: CpuState,
    rs1: u8,
    rs2: u8,
    rd: u8,
    imm: u64,
)
    requires
        long_form(register_form(instr)) != register_form(instr),
        s.regs.len() == 32,
        rd < 32,
    ensures
        ({
            let step = dispatch::executed(instr, s, RVInstrInfo::R { rs1, rs2, rd });
            let r = step.0.reg(rd);
            &&& writes_only(s, step, rd, 4)
            &&& relates(
                long_form(register_form(instr)),
                Width::W32,
                s.reg(rs1) % 0x1_0000_0000,
                s.reg(rs2) % 0x1_0000_0000,
                r % 0x1_0000_0000,
            )
            &&& Width::W64.signed(r) == Width::W32.signed(r % 0x1_0000_0000)
        }),
        ({
            let step = dispatch::executed(instr, s, RVInstrInfo::I { rs1, rd, imm });
            let r = step.0.reg(rd);
            &&& writes_only(s, step, rd, 4)
            &&& relates(
                long_form(register_form(instr)),
                Width::W32,
                s.reg(rs1) % 0x1_0000_0000,
                imm % 0x1_0000_0000,
                r % 0x1_0000_0000,
            )
            &&& Width::W64.signed(r) == Width::W32.signed(r % 0x1_0000_0000)
        }),
{
    reveal(ExecFn::base_step);
    let word = register_form(instr);
    assert(exec_mapping::exec_func_of(instr) == exec_mapping::exec_func_of(word));
    lemma_word_handler(word);
    lemma_word_value(word, s.reg(rs1), s.reg(rs2));
    lemma_word_value(word, s.reg(rs1), imm);
}

proof fn lemma_word_handler(word: RiscvInstr)
    requires
        long_form(word) != word,
    ensures
        is_long(long_form(word)),
        exec_mapping::exec_func_of(word) is ArithWord,
        exec_mapping::exec_func_of(long_form(word)) is Arith,
        exec_mapping::exec_func_of(word)->ArithWord_0 == exec_mapping::exec_func_of(
            long_form(word),
        )->Arith_0,
{
}

proof fn lemma_word_value(word: RiscvInstr, a: u64, b: u64)
    requires
        long_form(word) != word,
    ensures
        ({
            let r = alu::alu_word(exec_mapping::exec_func_of(word)->ArithWord_0, a, b);
            &&& relates(
                long_form(word),
                Width::W32,
                a % 0x1_0000_0000,
                b % 0x1_0000_0000,
                r % 0x1_0000_0000,
            )
            &&& Width::W64.signed(r) == Width::W32.signed(r % 0x1_0000_0000)
        }),
{
    lemma_word_handler(word);
    let w = Width::W32;
    let op = exec_mapping::exec_func_of(word)->ArithWord_0;
    let (x, y) = (w.wrap(a as int), w.wrap(b as int));
    lemma_relates(long_form(word), w, x, y);
    let v = alu::alu(op, w, x, y);
    lemma_relates_holds(long_form(word), w, x, y, v);
    alu_laws::law_widened(w, v);
}

pub proof fn lemma_relates_holds(instr: RiscvInstr, w: Width, a: u64, b: u64, r: u64)
    requires
        relates(instr, w, a, b, r),
    ensures
        w.holds(r),
{
    reveal(relates);
}

} // verus!
