//! What branches, jumps, loads and stores are for, as relations between the hart before and after.
use vstd::prelude::*;

use crate::config::{BASE_ADDR, RAM_SIZE};
use crate::device;
use crate::device::{MemError, PhysState, Window};
use crate::fpu::bits::FloatFormat;
use crate::isa::riscv::csr_reg::csr_index;
use crate::isa::riscv::csr_reg::field::CsrField;
use crate::isa::riscv::executor::CpuState;
use crate::isa::riscv::mmu::manager::AccessType;
use crate::isa::riscv::mmu::policy;
use crate::isa::riscv::trap::Exception;
use crate::ram;
use crate::utils;
use crate::utils::Width;

use super::alu::{AluFn, CompareFn};
use super::alu_laws;
use super::dispatch;
use super::exec_compress_function;
use super::exec_core;
use super::exec_core::Step;
use super::exec_float_function;
use super::exec_mapping;
use super::exec_mapping::ExecFn;
use super::float_laws;
use super::info::RVInstrInfo;
use super::instr_table::RiscvInstr;
use super::integer_laws;

verus! {

/// Whether a branch is taken on two registers.
pub open spec fn taken(instr: RiscvInstr, a: u64, b: u64) -> bool {
    let (x, y) = (Width::W64.signed(a), Width::W64.signed(b));
    match instr {
        RiscvInstr::BEQ => a == b,
        RiscvInstr::BNE => a != b,
        RiscvInstr::BLT => x < y,
        RiscvInstr::BGE => x >= y,
        RiscvInstr::BLTU => a < b,
        RiscvInstr::BGEU => a >= b,
        _ => false,
    }
}

/// Whether a step left the program counter at `target`, or, where that is no place for an
/// instruction, refused to and left the target for the trap value.
pub open spec fn arrives(s: CpuState, step: Step, target: int) -> bool {
    let t = step.0;
    if target % 4 == 0 || (s.csr.value(csr_index::misa) / 4) % 2 == 1 {
        &&& step.1 is Ok
        &&& t.pc == target
        &&& t.pending_tval == s.pending_tval
    } else {
        &&& step.1 == Err::<(), Exception>(Exception::InstructionMisaligned)
        &&& t.pc == s.pc
        &&& t.regs == s.regs
        &&& t.pending_tval == Some(target as u64)
    }
}

/// A branch goes to its target where the comparison that it is named after holds of its registers,
/// and on to the next instruction elsewhere; it changes no register.
#[verifier::rlimit(60)]
pub proof fn law_branches(instr: RiscvInstr, s: CpuState, rs1: u8, rs2: u8, imm: u64)
    requires
        instr == RiscvInstr::BEQ || instr == RiscvInstr::BNE || instr == RiscvInstr::BLT || instr
            == RiscvInstr::BGE || instr == RiscvInstr::BLTU || instr == RiscvInstr::BGEU,
    ensures
        ({
            let step = dispatch::executed(instr, s, RVInstrInfo::B { rs1, rs2, imm });
            &&& if taken(instr, s.reg(rs1), s.reg(rs2)) {
                arrives(s, step, (s.pc + imm) % 0x1_0000_0000_0000_0000)
            } else {
                step.1 is Ok && step.0.pc == (s.pc + 4) % 0x1_0000_0000_0000_0000
            }
            &&& step.0.regs == s.regs
            &&& step.0.vm == s.vm
        }),
{
    reveal(ExecFn::base_step);
}

/// A jump goes to its target, and leaves the address of the next instruction in its destination; a
/// jump through a register drops the lowest bit of the sum. The register is read before the
/// destination is written.
#[verifier::rlimit(60)]
pub proof fn law_jumps(s: CpuState, rs1: u8, rd: u8, imm: u64)
    requires
        s.regs.len() == 32,
        rd < 32,
    ensures
        ({
            let step = dispatch::executed(RiscvInstr::JAL, s, RVInstrInfo::J { rd, imm });
            let t = step.0;
            &&& arrives(s, step, (s.pc + imm) % 0x1_0000_0000_0000_0000)
            &&& step.1 is Ok ==> t.reg(rd) == (s.pc + 4) % 0x1_0000_0000_0000_0000
            &&& forall|k: u8| k < 32 && k != rd ==> #[trigger] t.reg(k) == s.reg(k)
            &&& t.vm == s.vm
        }),
        ({
            let step = dispatch::executed(RiscvInstr::JALR, s, RVInstrInfo::I { rs1, rd, imm });
            let t = step.0;
            let sum = (s.reg(rs1) + imm) % 0x1_0000_0000_0000_0000;
            &&& arrives(s, step, 2 * (sum / 2))
            &&& step.1 is Ok ==> t.reg(rd) == (s.pc + 4) % 0x1_0000_0000_0000_0000
            &&& forall|k: u8| k < 32 && k != rd ==> #[trigger] t.reg(k) == s.reg(k)
            &&& t.vm == s.vm
        }),
{
    reveal(ExecFn::base_step);
}

/// An upper immediate goes to the destination as it is, or added to the address of the
/// instruction.
#[verifier::rlimit(60)]
pub proof fn law_upper_immediates(s: CpuState, rd: u8, imm: u64)
    requires
        s.regs.len() == 32,
        rd < 32,
    ensures
        ({
            let step = dispatch::executed(RiscvInstr::LUI, s, RVInstrInfo::U { rd, imm });
            integer_laws::writes_only(s, step, rd, 4) && step.0.reg(rd) == imm
        }),
        ({
            let step = dispatch::executed(RiscvInstr::AUIPC, s, RVInstrInfo::U { rd, imm });
            integer_laws::writes_only(s, step, rd, 4) && step.0.reg(rd) == (s.pc + imm)
                % 0x1_0000_0000_0000_0000
        }),
{
    reveal(ExecFn::base_step);
}

/// The width of the memory operand of a load or store.
pub open spec fn access_width(instr: RiscvInstr) -> Option<Width> {
    match instr {
        RiscvInstr::LB | RiscvInstr::LBU | RiscvInstr::SB => Some(Width::W8),
        RiscvInstr::LH | RiscvInstr::LHU | RiscvInstr::SH => Some(Width::W16),
        RiscvInstr::LW | RiscvInstr::LWU | RiscvInstr::SW => Some(Width::W32),
        RiscvInstr::LD | RiscvInstr::SD => Some(Width::W64),
        _ => None,
    }
}

/// Whether an instruction loads an integer.
pub open spec fn is_load(instr: RiscvInstr) -> bool {
    match instr {
        RiscvInstr::LB
        | RiscvInstr::LBU
        | RiscvInstr::LH
        | RiscvInstr::LHU
        | RiscvInstr::LW
        | RiscvInstr::LWU
        | RiscvInstr::LD => true,
        _ => false,
    }
}

/// Whether an instruction stores an integer.
pub open spec fn is_store(instr: RiscvInstr) -> bool {
    match instr {
        RiscvInstr::SB | RiscvInstr::SH | RiscvInstr::SW | RiscvInstr::SD => true,
        _ => false,
    }
}

/// A load reads as many bytes as its name says at the sum of a register and the immediate: the
/// unsigned ones fill the register with zeros, the others repeat the sign. An exception is that of
/// the access, and leaves the registers alone.
#[verifier::rlimit(60)]
pub proof fn law_loads(instr: RiscvInstr, s: CpuState, rs1: u8, rd: u8, imm: u64)
    requires
        is_load(instr),
        s.regs.len() == 32,
        rd < 32,
    ensures
        ({
            let w = access_width(instr)->0;
            let addr = ((s.reg(rs1) + imm) % 0x1_0000_0000_0000_0000) as u64;
            let (after, read) = s.data_read(addr, w);
            let step = dispatch::executed(instr, s, RVInstrInfo::I { rs1, rd, imm });
            let t = step.0;
            &&& t.vm == after.vm
            &&& forall|k: u8| k < 32 && k != rd ==> #[trigger] t.reg(k) == s.reg(k)
            &&& match read {
                Ok(v) => {
                    &&& step.1 is Ok
                    &&& t.pc == (s.pc + 4) % 0x1_0000_0000_0000_0000
                    &&& if instr == RiscvInstr::LBU || instr == RiscvInstr::LHU || instr
                        == RiscvInstr::LWU {
                        t.reg(rd) == v
                    } else {
                        Width::W64.signed(t.reg(rd)) == w.signed(v)
                    }
                },
                Err(e) => {
                    &&& step.1 == Err::<(), Exception>(e)
                    &&& t.regs == s.regs
                    &&& t.pc == s.pc
                    &&& t.pending_tval == Some(addr)
                },
            }
        }),
{
    reveal(ExecFn::base_step);
    let w = access_width(instr)->0;
    let addr = Width::W64.wrap(s.reg(rs1) + imm);
    lemma_read_holds(s, addr, w);
    if s.data_read(addr, w).1 is Ok {
        alu_laws::law_widened(w, s.data_read(addr, w).1->Ok_0);
    }
}

/// What a load gives fits the width.
proof fn lemma_read_holds(s: CpuState, addr: u64, w: Width)
    ensures
        s.data_read(addr, w).1 matches Ok(v) ==> w.holds(v),
{
}

/// A store writes the low bytes of a register, as many as its name says, at the sum of a register
/// and the immediate, and changes no register.
#[verifier::rlimit(60)]
pub proof fn law_stores(instr: RiscvInstr, s: CpuState, rs1: u8, rs2: u8, imm: u64)
    requires
        is_store(instr),
    ensures
        ({
            let w = access_width(instr)->0;
            let addr = ((s.reg(rs1) + imm) % 0x1_0000_0000_0000_0000) as u64;
            let (after, done) = s.data_written(
                addr,
                w,
                (s.reg(rs2) as int % w.modulus()) as u64,
            );
            let step = dispatch::executed(instr, s, RVInstrInfo::S { rs1, rs2, imm });
            &&& step.1 == done
            &&& step.0.vm == after.vm
            &&& step.0.regs == s.regs
            &&& done is Ok ==> step.0.pc == (s.pc + 4) % 0x1_0000_0000_0000_0000
            &&& done is Err ==> step.0.pc == s.pc && step.0.pending_tval == Some(addr)
        }),
{
    reveal(ExecFn::base_step);
}

/// In RAM, where addresses are physical, a load gives back what the store of the same width at the
/// same address stored: the low part of the register.
#[verifier::rlimit(60)]
pub proof fn law_load_after_store(s: CpuState, addr: u64, w: Width, v: u64)
    requires
        s.vm.phys.ram.bytes.len() == RAM_SIZE,
        policy::data_policy(s.csr, AccessType::Read, true) is Direct,
        policy::data_policy(s.csr, AccessType::Write, true) is Direct,
        device::in_ram(addr),
        utils::aligned(w, addr),
        w.holds(v),
    ensures
        s.data_written(addr, w, v).1 is Ok,
        s.data_written(addr, w, v).0.data_read(addr, w).1 == Ok::<u64, Exception>(v),
{
    let t = s.data_written(addr, w, v).0;
    assert(t.csr == s.csr && t.vm.phys == s.vm.phys.written(addr, w, v));
    lemma_ram_reads_back(s.vm.phys, addr, w, v);
}

proof fn lemma_ram_reads_back(phys: PhysState, addr: u64, w: Width, v: u64)
    requires
        phys.ram.bytes.len() == RAM_SIZE,
        device::in_ram(addr),
        utils::aligned(w, addr),
        w.holds(v),
    ensures
        phys.write_result(addr, w) is Ok,
        phys.written(addr, w, v).read(addr, w) == Ok::<u64, MemError>(v),
{
    device::lemma_aligned_fits(addr, w);
    ram::law_load_after_store(phys.ram.bytes, addr - BASE_ADDR, w, v);
    alu_laws::law_width(w, v, v as int);
}

/// A device window gives back what was written to it, and a write marks it for its device.
#[verifier::rlimit(60)]
pub proof fn law_window_reads_back(phys: PhysState, addr: u64, w: Width, v: u64)
    requires
        !device::in_ram(addr),
        phys.write_result(addr, w) is Ok,
        w.holds(v),
    ensures
        phys.written(addr, w, v).read(addr, w) == Ok::<u64, MemError>(v),
        phys.written(addr, w, v).ram == phys.ram,
        phys.written(addr, w, v).windows.len() == phys.windows.len(),
        exists|i: int|
            0 <= i < phys.windows.len() && (#[trigger] phys.written(addr, w, v).windows[i]).pending
                && phys.windows[i].covers(addr, w.spec_bytes()) && forall|j: int|
                0 <= j < phys.windows.len() && j != i ==> #[trigger] phys.written(
                    addr,
                    w,
                    v,
                ).windows[j] == phys.windows[j],
{
    let n = w.spec_bytes();
    lemma_window_found(phys.windows, addr, n, 0);
    let i = device::window_from(phys.windows, addr, n, 0)->0;
    let old_window = phys.windows[i];
    let after = phys.written(addr, w, v);
    ram::law_load_after_store(old_window.bytes, addr - old_window.start, w, v);
    alu_laws::law_width(w, v, v as int);
    lemma_same_window(phys.windows, after.windows, addr, n, 0);
    assert(after.windows[i].pending);
}

/// The window that is found covers the access.
proof fn lemma_window_found(windows: Seq<Window>, addr: u64, n: int, i: int)
    ensures
        device::window_from(windows, addr, n, i) matches Some(k) ==> i <= k < windows.len() && k
            >= 0 && windows[k].covers(addr, n),
    decreases windows.len() - i,
{
    if 0 <= i < windows.len() && !windows[i].covers(addr, n) {
        lemma_window_found(windows, addr, n, i + 1);
    }
}

/// Where windows lie decides which one is found.
proof fn lemma_same_window(a: Seq<Window>, b: Seq<Window>, addr: u64, n: int, i: int)
    requires
        a.len() == b.len(),
        forall|k: int|
            0 <= k < a.len() ==> (#[trigger] a[k]).start == b[k].start && a[k].bytes.len()
                == b[k].bytes.len(),
    ensures
        device::window_from(a, addr, n, i) == device::window_from(b, addr, n, i),
    decreases a.len() - i,
{
    if 0 <= i < a.len() {
        assert(a[i].start == b[i].start && a[i].bytes.len() == b[i].bytes.len());
        lemma_same_window(a, b, addr, n, i + 1);
    }
}

/// What physical memory answers: an access that starts in RAM works if it is aligned to its size; one
/// that starts elsewhere works if a window of a device covers all of it. Any other faults, and a
/// write that faults changes nothing.
#[verifier::rlimit(60)]
pub proof fn law_physical_accesses(phys: PhysState, addr: u64, w: Width, v: u64)
    ensures
        ({
            let in_ram = BASE_ADDR <= addr < BASE_ADDR + RAM_SIZE;
            let aligned = addr as int % w.spec_bytes() == 0;
            let covered = exists|i: int|
                0 <= i < phys.windows.len() && (#[trigger] phys.windows[i]).start <= addr && addr
                    + w.spec_bytes() <= phys.windows[i].start + phys.windows[i].bytes.len();
            let (read, write) = (phys.read(addr, w), phys.write_result(addr, w));
            &&& in_ram && aligned ==> read == Ok::<u64, MemError>(
                ram::load_le(phys.ram.bytes, addr - BASE_ADDR, w),
            ) && write is Ok
            &&& in_ram && !aligned ==> read == Err::<u64, MemError>(MemError::LoadMisaligned)
                && write == Err::<(), MemError>(MemError::StoreMisaligned)
            &&& !in_ram && covered ==> read is Ok && write is Ok
            &&& !in_ram && !covered ==> read == Err::<u64, MemError>(MemError::LoadFault) && write
                == Err::<(), MemError>(MemError::StoreFault)
            &&& write is Err ==> phys.written(addr, w, v) == phys
        }),
{
    let n = w.spec_bytes();
    lemma_window_found(phys.windows, addr, n, 0);
    lemma_window_missed(phys.windows, addr, n, 0);
    if !device::in_ram(addr) {
        match device::window_from(phys.windows, addr, n, 0) {
            Some(k) => {
                assert(phys.windows[k].start <= addr);
            },
            None => {},
        }
    }
}

/// Where no window is found none covers the access.
proof fn lemma_window_missed(windows: Seq<Window>, addr: u64, n: int, i: int)
    requires
        0 <= i,
    ensures
        device::window_from(windows, addr, n, i) is None ==> forall|k: int|
            i <= k < windows.len() ==> !(#[trigger] windows[k]).covers(addr, n),
    decreases windows.len() - i,
{
    if i < windows.len() && !windows[i].covers(addr, n) {
        lemma_window_missed(windows, addr, n, i + 1);
    }
}

/// The least significant byte comes first: a load of twice the width is the load of the width at
/// the same address plus the load behind it, moved up.
#[verifier::rlimit(60)]
pub proof fn law_little_endian(bytes: Seq<u8>, at: int)
    ensures
        ram::load_le(bytes, at, Width::W8) == bytes[at],
        ram::load_le(bytes, at, Width::W16) == ram::load_le(bytes, at, Width::W8) + 0x100
            * ram::load_le(bytes, at + 1, Width::W8),
        ram::load_le(bytes, at, Width::W32) == ram::load_le(bytes, at, Width::W16) + 0x1_0000
            * ram::load_le(bytes, at + 2, Width::W16),
        ram::load_le(bytes, at, Width::W64) == ram::load_le(bytes, at, Width::W32) + 0x1_0000_0000
            * ram::load_le(bytes, at + 4, Width::W32),
{
}

/// The four-byte instruction that a two-byte instruction on registers stands for, with its
/// operands. Register 2 is the stack pointer, register 1 the return address.
pub open spec fn expanded(instr: RiscvInstr, info: RVInstrInfo) -> Option<
    (RiscvInstr, RVInstrInfo),
> {
    match (instr, info) {
        (RiscvInstr::C_ADD, RVInstrInfo::CR { rd_rs1, rs2 }) => Some(
            (RiscvInstr::ADD, RVInstrInfo::R { rs1: rd_rs1, rs2, rd: rd_rs1 }),
        ),
        (RiscvInstr::C_ADDW, RVInstrInfo::CA { rd_rs1, rs2 }) => Some(
            (RiscvInstr::ADDW, RVInstrInfo::R { rs1: rd_rs1, rs2, rd: rd_rs1 }),
        ),
        (RiscvInstr::C_SUB, RVInstrInfo::CA { rd_rs1, rs2 }) => Some(
            (RiscvInstr::SUB, RVInstrInfo::R { rs1: rd_rs1, rs2, rd: rd_rs1 }),
        ),
        (RiscvInstr::C_SUBW, RVInstrInfo::CA { rd_rs1, rs2 }) => Some(
            (RiscvInstr::SUBW, RVInstrInfo::R { rs1: rd_rs1, rs2, rd: rd_rs1 }),
        ),
        (RiscvInstr::C_AND, RVInstrInfo::CA { rd_rs1, rs2 }) => Some(
            (RiscvInstr::AND, RVInstrInfo::R { rs1: rd_rs1, rs2, rd: rd_rs1 }),
        ),
        (RiscvInstr::C_OR, RVInstrInfo::CA { rd_rs1, rs2 }) => Some(
            (RiscvInstr::OR, RVInstrInfo::R { rs1: rd_rs1, rs2, rd: rd_rs1 }),
        ),
        (RiscvInstr::C_XOR, RVInstrInfo::CA { rd_rs1, rs2 }) => Some(
            (RiscvInstr::XOR, RVInstrInfo::R { rs1: rd_rs1, rs2, rd: rd_rs1 }),
        ),
        (RiscvInstr::C_ADDI, RVInstrInfo::CI { rd_rs1, imm }) => Some(
            (RiscvInstr::ADDI, RVInstrInfo::I { rs1: rd_rs1, rd: rd_rs1, imm }),
        ),
        (RiscvInstr::C_ADDI16SP, RVInstrInfo::CI { rd_rs1, imm }) => Some(
            (RiscvInstr::ADDI, RVInstrInfo::I { rs1: rd_rs1, rd: rd_rs1, imm }),
        ),
        (RiscvInstr::C_ADDIW, RVInstrInfo::CI { rd_rs1, imm }) => Some(
            (RiscvInstr::ADDIW, RVInstrInfo::I { rs1: rd_rs1, rd: rd_rs1, imm }),
        ),
        (RiscvInstr::C_SLLI, RVInstrInfo::CI { rd_rs1, imm }) => Some(
            (RiscvInstr::SLLI, RVInstrInfo::I { rs1: rd_rs1, rd: rd_rs1, imm }),
        ),
        (RiscvInstr::C_SRLI, RVInstrInfo::CB { rd_rs1, imm }) => Some(
            (RiscvInstr::SRLI, RVInstrInfo::I { rs1: rd_rs1, rd: rd_rs1, imm }),
        ),
        (RiscvInstr::C_SRAI, RVInstrInfo::CB { rd_rs1, imm }) => Some(
            (RiscvInstr::SRAI, RVInstrInfo::I { rs1: rd_rs1, rd: rd_rs1, imm }),
        ),
        (RiscvInstr::C_ANDI, RVInstrInfo::CB { rd_rs1, imm }) => Some(
            (RiscvInstr::ANDI, RVInstrInfo::I { rs1: rd_rs1, rd: rd_rs1, imm }),
        ),
        (RiscvInstr::C_ADDI4SPN, RVInstrInfo::CIW { rd, imm }) => Some(
            (RiscvInstr::ADDI, RVInstrInfo::I { rs1: 2, rd, imm }),
        ),
        (RiscvInstr::C_LUI, RVInstrInfo::CI { rd_rs1, imm }) => Some(
            (RiscvInstr::LUI, RVInstrInfo::U { rd: rd_rs1, imm }),
        ),
        (RiscvInstr::C_LW, RVInstrInfo::CL { rd, rs1, imm }) => Some(
            (RiscvInstr::LW, RVInstrInfo::I { rs1, rd, imm }),
        ),
        (RiscvInstr::C_LD, RVInstrInfo::CL { rd, rs1, imm }) => Some(
            (RiscvInstr::LD, RVInstrInfo::I { rs1, rd, imm }),
        ),
        (RiscvInstr::C_LWSP, RVInstrInfo::CI { rd_rs1, imm }) => Some(
            (RiscvInstr::LW, RVInstrInfo::I { rs1: 2, rd: rd_rs1, imm }),
        ),
        (RiscvInstr::C_LDSP, RVInstrInfo::CI { rd_rs1, imm }) => Some(
            (RiscvInstr::LD, RVInstrInfo::I { rs1: 2, rd: rd_rs1, imm }),
        ),
        (RiscvInstr::C_SW, RVInstrInfo::CS { rs1, rs2, imm }) => Some(
            (RiscvInstr::SW, RVInstrInfo::S { rs1, rs2, imm }),
        ),
        (RiscvInstr::C_SD, RVInstrInfo::CS { rs1, rs2, imm }) => Some(
            (RiscvInstr::SD, RVInstrInfo::S { rs1, rs2, imm }),
        ),
        (RiscvInstr::C_SWSP, RVInstrInfo::CSS { rs2, imm }) => Some(
            (RiscvInstr::SW, RVInstrInfo::S { rs1: 2, rs2, imm }),
        ),
        (RiscvInstr::C_SDSP, RVInstrInfo::CSS { rs2, imm }) => Some(
            (RiscvInstr::SD, RVInstrInfo::S { rs1: 2, rs2, imm }),
        ),
        (RiscvInstr::C_NOP, _) => Some((RiscvInstr::FENCE, info)),
        _ => None,
    }
}

/// A two-byte instruction does what the four-byte instruction that it stands for does, except that
/// the next instruction is two bytes further, not four.
#[verifier::rlimit(60)]
pub proof fn law_compressed(instr: RiscvInstr, s: CpuState, info: RVInstrInfo)
    requires
        expanded(instr, info) is Some,
    ensures
        ({
            let (full, operands) = expanded(instr, info)->0;
            let (long, done) = dispatch::executed(full, s, operands);
            let (short, r) = dispatch::executed(instr, s, info);
            &&& r == done
            &&& short == if done is Ok {
                CpuState { pc: ((s.pc + 2) % 0x1_0000_0000_0000_0000) as u64, ..long }
            } else {
                long
            }
        }),
{
    let (full, operands) = expanded(instr, info)->0;
    let f = exec_mapping::exec_func_of(instr);
    let g = exec_mapping::exec_func_of(full);
    lemma_expanded_handlers(instr, info);
    match f {
        ExecFn::CompressArith(_) | ExecFn::CompressArithWord(_) => {
            lemma_short_arith(f, g, s, info, operands);
        },
        ExecFn::CompressLoad(_, _) | ExecFn::CompressLoadSp(_, _) => {
            lemma_short_load(f, g, s, info, operands);
        },
        ExecFn::CompressStore(_) | ExecFn::CompressStoreSp(_) => {
            lemma_short_store(f, g, s, info, operands);
        },
        _ => {
            lemma_short_set(f, g, s, info, operands);
        },
    }
}

/// Whether a step of two bytes is one of four but for the program counter.
spec fn shortened(s: CpuState, short: Step, long: Step) -> bool {
    &&& short.1 == long.1
    &&& short.0 == if long.1 is Ok {
        CpuState { pc: ((s.pc + 2) % 0x1_0000_0000_0000_0000) as u64, ..long.0 }
    } else {
        long.0
    }
}

/// The handlers of a two-byte instruction and of what it stands for.
proof fn lemma_expanded_handlers(instr: RiscvInstr, info: RVInstrInfo)
    requires
        expanded(instr, info) is Some,
    ensures
        ({
            let (full, operands) = expanded(instr, info)->0;
            let f = exec_mapping::exec_func_of(instr);
            let g = exec_mapping::exec_func_of(full);
            match f {
                ExecFn::CompressArith(op) => g == ExecFn::Arith(op) && same_operands(info, operands),
                ExecFn::CompressArithWord(op) => g == ExecFn::ArithWord(op) && same_operands(
                    info,
                    operands,
                ),
                ExecFn::CompressLoad(w, e) => g == ExecFn::Load(w, e) && match (info, operands) {
                    (
                        RVInstrInfo::CL { rd, rs1, imm },
                        RVInstrInfo::I { rs1: a, rd: b, imm: c },
                    ) => a == rs1 && b == rd && c == imm,
                    _ => false,
                },
                ExecFn::CompressLoadSp(w, e) => g == ExecFn::Load(w, e) && match (info, operands) {
                    (
                        RVInstrInfo::CI { rd_rs1, imm },
                        RVInstrInfo::I { rs1: a, rd: b, imm: c },
                    ) => a == 2 && b == rd_rs1 && c == imm,
                    _ => false,
                },
                ExecFn::CompressStore(w) => g == ExecFn::Store(w) && match (info, operands) {
                    (
                        RVInstrInfo::CS { rs1, rs2, imm },
                        RVInstrInfo::S { rs1: a, rs2: b, imm: c },
                    ) => a == rs1 && b == rs2 && c == imm,
                    _ => false,
                },
                ExecFn::CompressStoreSp(w) => g == ExecFn::Store(w) && match (info, operands) {
                    (
                        RVInstrInfo::CSS { rs2, imm },
                        RVInstrInfo::S { rs1: a, rs2: b, imm: c },
                    ) => a == 2 && b == rs2 && c == imm,
                    _ => false,
                },
                ExecFn::Addi4spn => g == ExecFn::Arith(AluFn::Add) && match (info, operands) {
                    (
                        RVInstrInfo::CIW { rd, imm },
                        RVInstrInfo::I { rs1: a, rd: b, imm: c },
                    ) => a == 2 && b == rd && c == imm,
                    _ => false,
                },
                ExecFn::CompressLi => g == ExecFn::Lui && match (info, operands) {
                    (RVInstrInfo::CI { rd_rs1, imm }, RVInstrInfo::U { rd: b, imm: c }) => b
                        == rd_rs1 && c == imm,
                    _ => false,
                },
                ExecFn::CompressNop => g == ExecFn::Nop,
                _ => false,
            }
        }),
{
}

/// Whether operands of two bytes name the same values as operands of four.
spec fn same_operands(info: RVInstrInfo, operands: RVInstrInfo) -> bool {
    match (info, operands) {
        (
            RVInstrInfo::CR { rd_rs1, rs2 },
            RVInstrInfo::R { rs1: a, rs2: b, rd: c },
        ) => a == rd_rs1 && b == rs2 && c == rd_rs1,
        (
            RVInstrInfo::CA { rd_rs1, rs2 },
            RVInstrInfo::R { rs1: a, rs2: b, rd: c },
        ) => a == rd_rs1 && b == rs2 && c == rd_rs1,
        (
            RVInstrInfo::CI { rd_rs1, imm },
            RVInstrInfo::I { rs1: a, rd: b, imm: c },
        ) => a == rd_rs1 && b == rd_rs1 && c == imm,
        (
            RVInstrInfo::CB { rd_rs1, imm },
            RVInstrInfo::I { rs1: a, rd: b, imm: c },
        ) => a == rd_rs1 && b == rd_rs1 && c == imm,
        _ => false,
    }
}

proof fn lemma_short_arith(
    f: ExecFn,
    g: ExecFn,
    s: CpuState,
    info: RVInstrInfo,
    operands: RVInstrInfo,
)
    requires
        f is CompressArith ==> g == ExecFn::Arith(f->CompressArith_0),
        f is CompressArithWord ==> g == ExecFn::ArithWord(f->CompressArithWord_0),
        f is CompressArith || f is CompressArithWord,
        same_operands(info, operands),
    ensures
        shortened(s, f.step(s, info), g.step(s, operands)),
{
    lemma_compressed_dispatch(f, s, info);
    reveal(ExecFn::base_step);
    reveal(ExecFn::compressed_step);
    reveal(exec_compress_function::compress_arith_step);
    reveal(exec_compress_function::compress_arith_word_step);
}

proof fn lemma_short_load(
    f: ExecFn,
    g: ExecFn,
    s: CpuState,
    info: RVInstrInfo,
    operands: RVInstrInfo,
)
    requires
        match (f, info, operands) {
            (
                ExecFn::CompressLoad(w, e),
                RVInstrInfo::CL { rd, rs1, imm },
                RVInstrInfo::I { rs1: a, rd: b, imm: c },
            ) => g == ExecFn::Load(w, e) && a == rs1 && b == rd && c == imm,
            (
                ExecFn::CompressLoadSp(w, e),
                RVInstrInfo::CI { rd_rs1, imm },
                RVInstrInfo::I { rs1: a, rd: b, imm: c },
            ) => g == ExecFn::Load(w, e) && a == 2 && b == rd_rs1 && c == imm,
            _ => false,
        },
    ensures
        shortened(s, f.step(s, info), g.step(s, operands)),
{
    lemma_compressed_dispatch(f, s, info);
    reveal(ExecFn::base_step);
    reveal(ExecFn::compressed_memory_step);
    reveal(exec_compress_function::compress_load_step);
}

proof fn lemma_short_store(
    f: ExecFn,
    g: ExecFn,
    s: CpuState,
    info: RVInstrInfo,
    operands: RVInstrInfo,
)
    requires
        match (f, info, operands) {
            (
                ExecFn::CompressStore(w),
                RVInstrInfo::CS { rs1, rs2, imm },
                RVInstrInfo::S { rs1: a, rs2: b, imm: c },
            ) => g == ExecFn::Store(w) && a == rs1 && b == rs2 && c == imm,
            (
                ExecFn::CompressStoreSp(w),
                RVInstrInfo::CSS { rs2, imm },
                RVInstrInfo::S { rs1: a, rs2: b, imm: c },
            ) => g == ExecFn::Store(w) && a == 2 && b == rs2 && c == imm,
            _ => false,
        },
    ensures
        shortened(s, f.step(s, info), g.step(s, operands)),
{
    lemma_compressed_dispatch(f, s, info);
    reveal(ExecFn::base_step);
    reveal(ExecFn::compressed_memory_step);
    reveal(exec_compress_function::compress_store_step);
}

proof fn lemma_short_set(
    f: ExecFn,
    g: ExecFn,
    s: CpuState,
    info: RVInstrInfo,
    operands: RVInstrInfo,
)
    requires
        match (f, info, operands) {
            (
                ExecFn::Addi4spn,
                RVInstrInfo::CIW { rd, imm },
                RVInstrInfo::I { rs1: a, rd: b, imm: c },
            ) => g == ExecFn::Arith(AluFn::Add) && a == 2 && b == rd && c == imm,
            (
                ExecFn::CompressLi,
                RVInstrInfo::CI { rd_rs1, imm },
                RVInstrInfo::U { rd: b, imm: c },
            ) => g == ExecFn::Lui && b == rd_rs1 && c == imm,
            (ExecFn::CompressNop, _, _) => g == ExecFn::Nop,
            _ => false,
        },
    ensures
        shortened(s, f.step(s, info), g.step(s, operands)),
{
    lemma_compressed_dispatch(f, s, info);
    reveal(ExecFn::base_step);
    reveal(ExecFn::compressed_step);
    reveal(exec_compress_function::compress_set_step);
}

/// What the two-byte moves, branches and jumps do. A move or an immediate goes to the destination;
/// a branch compares its register with zero; a jump that keeps the return address keeps it in
/// register 1, two bytes behind the jump.
#[verifier::rlimit(60)]
pub proof fn law_compressed_flow(s: CpuState, rd_rs1: u8, rs2: u8, imm: u64)
    requires
        s.regs.len() == 32,
        rd_rs1 < 32,
    ensures
        ({
            let step = dispatch::executed(RiscvInstr::C_MV, s, RVInstrInfo::CR { rd_rs1, rs2 });
            integer_laws::writes_only(s, step, rd_rs1, 2) && step.0.reg(rd_rs1) == s.reg(rs2)
        }),
        ({
            let step = dispatch::executed(RiscvInstr::C_LI, s, RVInstrInfo::CI { rd_rs1, imm });
            integer_laws::writes_only(s, step, rd_rs1, 2) && step.0.reg(rd_rs1) == imm
        }),
        ({
            let step = dispatch::executed(RiscvInstr::C_BEQZ, s, RVInstrInfo::CB { rd_rs1, imm });
            let len = if s.reg(rd_rs1) == 0 { imm as int } else { 2 };
            step.1 is Ok && step.0.regs == s.regs && step.0.pc == (s.pc + len)
                % 0x1_0000_0000_0000_0000
        }),
        ({
            let step = dispatch::executed(RiscvInstr::C_BNEZ, s, RVInstrInfo::CB { rd_rs1, imm });
            let len = if s.reg(rd_rs1) != 0 { imm as int } else { 2 };
            step.1 is Ok && step.0.regs == s.regs && step.0.pc == (s.pc + len)
                % 0x1_0000_0000_0000_0000
        }),
        ({
            let step = dispatch::executed(RiscvInstr::C_J, s, RVInstrInfo::CJ { target: imm });
            step.1 is Ok && step.0.regs == s.regs && step.0.pc == (s.pc + imm)
                % 0x1_0000_0000_0000_0000
        }),
        ({
            let step = dispatch::executed(RiscvInstr::C_JAL, s, RVInstrInfo::CJ { target: imm });
            step.1 is Ok && step.0.pc == (s.pc + imm) % 0x1_0000_0000_0000_0000 && step.0.reg(1)
                == (s.pc + 2) % 0x1_0000_0000_0000_0000 && forall|k: u8|
                k < 32 && k != 1 ==> #[trigger] step.0.reg(k) == s.reg(k)
        }),
        ({
            let step = dispatch::executed(RiscvInstr::C_JR, s, RVInstrInfo::CR { rd_rs1, rs2 });
            step.1 is Ok && step.0.regs == s.regs && step.0.pc == 2 * (s.reg(rd_rs1) / 2)
        }),
        ({
            let step = dispatch::executed(RiscvInstr::C_JALR, s, RVInstrInfo::CR { rd_rs1, rs2 });
            step.1 is Ok && step.0.pc == 2 * (s.reg(rd_rs1) / 2) && step.0.reg(1) == (s.pc + 2)
                % 0x1_0000_0000_0000_0000 && forall|k: u8|
                k < 32 && k != 1 ==> #[trigger] step.0.reg(k) == s.reg(k)
        }),
{
    lemma_compressed_dispatch(ExecFn::CompressMv, s, RVInstrInfo::CR { rd_rs1, rs2 });
    lemma_compressed_dispatch(ExecFn::CompressLi, s, RVInstrInfo::CI { rd_rs1, imm });
    lemma_compressed_dispatch(
        ExecFn::CompressBranch(CompareFn::Equal),
        s,
        RVInstrInfo::CB { rd_rs1, imm },
    );
    lemma_compressed_dispatch(
        ExecFn::CompressBranch(CompareFn::NotEqual),
        s,
        RVInstrInfo::CB { rd_rs1, imm },
    );
    lemma_compressed_dispatch(ExecFn::CompressJump(false), s, RVInstrInfo::CJ { target: imm });
    lemma_compressed_dispatch(ExecFn::CompressJump(true), s, RVInstrInfo::CJ { target: imm });
    lemma_compressed_dispatch(ExecFn::CompressJumpReg(false), s, RVInstrInfo::CR { rd_rs1, rs2 });
    lemma_compressed_dispatch(ExecFn::CompressJumpReg(true), s, RVInstrInfo::CR { rd_rs1, rs2 });
    reveal(ExecFn::compressed_step);
    reveal(exec_compress_function::compress_set_step);
    reveal(exec_compress_function::compress_branch_step);
    reveal(exec_compress_function::compress_jump_step);
    reveal(exec_compress_function::compress_jump_reg_step);
}

/// The two-byte loads and stores of single numbers: the address is the sum of a register, or of the
/// stack pointer, and the offset.
#[verifier::rlimit(60)]
pub proof fn law_compressed_single_memory(s: CpuState, reg: u8, base: u8, imm: u64)
    requires
        s.fpu.regs.len() == 32,
        reg < 32,
    ensures
        ({
            let w = Width::W32;
            let addr = ((s.reg(base) + imm) % 0x1_0000_0000_0000_0000) as u64;
            let on_stack = ((s.reg(2) + imm) % 0x1_0000_0000_0000_0000) as u64;
            let v = (s.fpu.regs[reg as int] as int % w.modulus()) as u64;
            let on = s.csr.field(CsrField::Mstatus_fs) != 0;
            let info = RVInstrInfo::CL { rd: reg, rs1: base, imm };
            let info_sp = RVInstrInfo::CI { rd_rs1: reg, imm };
            let to = RVInstrInfo::CS { rs1: base, rs2: reg, imm };
            let to_sp = RVInstrInfo::CSS { rs2: reg, imm };
            let f = FloatFormat::Single;
            &&& on ==> loads_number(
                s,
                dispatch::executed(RiscvInstr::C_FLW, s, info),
                f,
                w,
                reg,
                addr,
            )
            &&& on ==> loads_number(
                s,
                dispatch::executed(RiscvInstr::C_FLWSP, s, info_sp),
                f,
                w,
                reg,
                on_stack,
            )
            &&& stores_number(s, dispatch::executed(RiscvInstr::C_FSW, s, to), w, addr, v)
            &&& stores_number(s, dispatch::executed(RiscvInstr::C_FSWSP, s, to_sp), w, on_stack, v)
        }),
{
    let f = FloatFormat::Single;
    let addr = Width::W64.wrap(s.reg(base) + imm);
    let on_stack = Width::W64.wrap(s.reg(2) + imm);
    lemma_loads_number(s, f, reg, addr);
    lemma_loads_number(s, f, reg, on_stack);
    lemma_stores_number(s, f, reg, addr);
    lemma_stores_number(s, f, reg, on_stack);
    lemma_compressed_float_steps(s, reg, base, imm, f);
}

/// The two-byte loads and stores of double numbers: the address is the sum of a register, or of the
/// stack pointer, and the offset.
#[verifier::rlimit(60)]
pub proof fn law_compressed_double_memory(s: CpuState, reg: u8, base: u8, imm: u64)
    requires
        s.fpu.regs.len() == 32,
        reg < 32,
    ensures
        ({
            let w = Width::W64;
            let addr = ((s.reg(base) + imm) % 0x1_0000_0000_0000_0000) as u64;
            let on_stack = ((s.reg(2) + imm) % 0x1_0000_0000_0000_0000) as u64;
            let v = (s.fpu.regs[reg as int] as int % w.modulus()) as u64;
            let on = s.csr.field(CsrField::Mstatus_fs) != 0;
            let info = RVInstrInfo::CL { rd: reg, rs1: base, imm };
            let info_sp = RVInstrInfo::CI { rd_rs1: reg, imm };
            let to = RVInstrInfo::CS { rs1: base, rs2: reg, imm };
            let to_sp = RVInstrInfo::CSS { rs2: reg, imm };
            let f = FloatFormat::Double;
            &&& on ==> loads_number(
                s,
                dispatch::executed(RiscvInstr::C_FLD, s, info),
                f,
                w,
                reg,
                addr,
            )
            &&& on ==> loads_number(
                s,
                dispatch::executed(RiscvInstr::C_FLDSP, s, info_sp),
                f,
                w,
                reg,
                on_stack,
            )
            &&& stores_number(s, dispatch::executed(RiscvInstr::C_FSD, s, to), w, addr, v)
            &&& stores_number(s, dispatch::executed(RiscvInstr::C_FSDSP, s, to_sp), w, on_stack, v)
        }),
{
    let f = FloatFormat::Double;
    let addr = Width::W64.wrap(s.reg(base) + imm);
    let on_stack = Width::W64.wrap(s.reg(2) + imm);
    lemma_loads_number(s, f, reg, addr);
    lemma_loads_number(s, f, reg, on_stack);
    lemma_stores_number(s, f, reg, addr);
    lemma_stores_number(s, f, reg, on_stack);
    lemma_compressed_float_steps(s, reg, base, imm, f);
}

/// The steps of the two-byte loads and stores of floating-point registers.
proof fn lemma_compressed_float_steps(s: CpuState, reg: u8, base: u8, imm: u64, f: FloatFormat)
    ensures
        ({
            let addr = Width::W64.wrap(s.reg(base) + imm);
            let on_stack = Width::W64.wrap(s.reg(2) + imm);
            &&& ExecFn::CompressFloatLoad(f).step(s, RVInstrInfo::CL { rd: reg, rs1: base, imm })
                == exec_float_function::float_step(s, s.float_loaded(f, reg, addr), 2)
            &&& ExecFn::CompressFloatLoadSp(f).step(s, RVInstrInfo::CI { rd_rs1: reg, imm })
                == exec_float_function::float_step(s, s.float_loaded(f, reg, on_stack), 2)
            &&& ExecFn::CompressFloatStore(f).step(s, RVInstrInfo::CS { rs1: base, rs2: reg, imm })
                == exec_core::retire_step(s.float_stored(f, reg, addr), 2)
            &&& ExecFn::CompressFloatStoreSp(f).step(s, RVInstrInfo::CSS { rs2: reg, imm })
                == exec_core::retire_step(s.float_stored(f, reg, on_stack), 2)
        }),
{
    let info = RVInstrInfo::CL { rd: reg, rs1: base, imm };
    let info_sp = RVInstrInfo::CI { rd_rs1: reg, imm };
    let to = RVInstrInfo::CS { rs1: base, rs2: reg, imm };
    let to_sp = RVInstrInfo::CSS { rs2: reg, imm };
    lemma_compressed_dispatch(ExecFn::CompressFloatLoad(f), s, info);
    lemma_compressed_dispatch(ExecFn::CompressFloatLoadSp(f), s, info_sp);
    lemma_compressed_dispatch(ExecFn::CompressFloatStore(f), s, to);
    lemma_compressed_dispatch(ExecFn::CompressFloatStoreSp(f), s, to_sp);
    reveal(ExecFn::compressed_memory_step);
    reveal(exec_compress_function::compress_float_load_step);
    reveal(exec_compress_function::compress_float_store_step);
}

proof fn lemma_loads_number(s: CpuState, f: FloatFormat, reg: u8, addr: u64)
    requires
        s.fpu.regs.len() == 32,
        reg < 32,
    ensures
        s.csr.field(CsrField::Mstatus_fs) != 0 ==> loads_number(
            s,
            exec_float_function::float_step(s, s.float_loaded(f, reg, addr), 2),
            f,
            exec_core::width_of(f),
            reg,
            addr,
        ),
{
    reveal(loads_number);
    reveal(exec_float_function::float_step);
    lemma_read_holds(s, addr, exec_core::width_of(f));
    let (after, read) = s.data_read(addr, exec_core::width_of(f));
    assert(after.fpu == s.fpu && after.regs == s.regs && after.pc == s.pc);
}

proof fn lemma_stores_number(s: CpuState, f: FloatFormat, reg: u8, addr: u64)
    ensures
        stores_number(
            s,
            exec_core::retire_step(s.float_stored(f, reg, addr), 2),
            exec_core::width_of(f),
            addr,
            (s.fpu.regs[reg as int] as int % exec_core::width_of(f).modulus()) as u64,
        ),
{
    reveal(stores_number);
}

/// Whether a step of two bytes loaded a number to a floating-point register.
#[verifier::opaque]
pub open spec fn loads_number(
    s: CpuState,
    step: Step,
    f: FloatFormat,
    w: Width,
    reg: u8,
    addr: u64,
) -> bool {
    let (after, read) = s.data_read(addr, w);
    &&& step.0.vm == after.vm
    &&& step.0.regs == s.regs
    &&& match read {
        Ok(v) => {
            &&& step.1 is Ok
            &&& step.0.pc == (s.pc + 2) % 0x1_0000_0000_0000_0000
            &&& float_laws::holds_number(step.0, f, reg, v)
        },
        Err(e) => step.1 == Err::<(), Exception>(e) && step.0.fpu == s.fpu,
    }
}

/// Whether a step of two bytes stored a value.
#[verifier::opaque]
pub open spec fn stores_number(s: CpuState, step: Step, w: Width, addr: u64, v: u64) -> bool {
    let (after, done) = s.data_written(addr, w, v);
    &&& step.1 == done
    &&& step.0.vm == after.vm
    &&& step.0.regs == s.regs
    &&& step.0.fpu == s.fpu
    &&& done is Ok ==> step.0.pc == (s.pc + 2) % 0x1_0000_0000_0000_0000
}

/// The handlers of two-byte instructions are reached.
proof fn lemma_compressed_dispatch(f: ExecFn, s: CpuState, info: RVInstrInfo)
    ensures
        ({
            &&& (f is CompressArith || f is CompressArithWord || f is Addi4spn || f is CompressMv
                || f is CompressNop || f is CompressLi || f is CompressBranch || f is CompressJump
                || f is CompressJumpReg || f is CompressLoad || f is CompressLoadSp
                || f is CompressStore || f is CompressStoreSp || f is CompressFloatLoad
                || f is CompressFloatLoadSp || f is CompressFloatStore
                || f is CompressFloatStoreSp) ==> f.step(s, info) == f.compressed_step(s, info)
            &&& (f is CompressLoad || f is CompressLoadSp || f is CompressStore
                || f is CompressStoreSp || f is CompressFloatLoad || f is CompressFloatLoadSp
                || f is CompressFloatStore || f is CompressFloatStoreSp) ==> f.compressed_step(
                s,
                info,
            ) == f.compressed_memory_step(s, info)
        }),
{
    reveal(ExecFn::base_step);
    reveal(ExecFn::float_arith_step);
    reveal(ExecFn::float_convert_step);
    reveal(ExecFn::float_move_step);
    reveal(ExecFn::compressed_step);
}

} // verus!
