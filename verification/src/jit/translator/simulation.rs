//! That generated code does to a hart what the guest instructions do.
use vstd::prelude::*;

use crate::isa::riscv::csr_reg::csr_index;
use crate::isa::riscv::csr_reg::file::CsrState;
use crate::isa::riscv::executor::CpuState;
use crate::isa::riscv::instruction::exec_core;
use crate::isa::riscv::instruction::exec_core::Step;
use crate::isa::riscv::mmu::manager::AccessType;
use crate::isa::riscv::mmu::policy;
use crate::isa::riscv::trap::Exception;
use crate::jit::helpers::{LoadKind, StoreKind};
use crate::jit::jit_function::JitInfo;
use crate::jit::machine::{Host, Machine};
use crate::utils;
use crate::utils::Width;

use super::accesses;
use super::agreement;
use super::control;
use super::{GenState, TranslateResult};

verus! {

/// A hart whose registers and program counter are elsewhere, and which has not counted the last
/// `n` instructions yet.
pub open spec fn caught_up(cpu: CpuState, regs: Seq<u64>, pc: u64, n: u64) -> CpuState {
    CpuState { regs, pc, ..cpu }.counted(n)
}

/// Whether the host stands for a hart: with the guest registers wherever they are, and the last
/// `n` instructions counted, it is the hart.
#[verifier::opaque]
pub open spec fn stands_for(
    gen: GenState,
    host: Host,
    start: Machine,
    s: CpuState,
    n: u64,
) -> bool {
    &&& gen.agrees(host, start, s.regs, None)
    &&& gen.idle()
    &&& s.regs.len() == 32
    &&& s.regs[0] == 0
    &&& gen.machine(host, start).cpu.csr.table.len() == 4096
    &&& s == caught_up(gen.machine(host, start).cpu, s.regs, s.pc, n)
}

/// Whether the code of an instruction did what the instruction does: either the host stands for
/// the hart after it, and knows the next address if the block ends, or the code was left with the
/// exception of the instruction.
pub open spec fn mirrored(
    gen: GenState,
    result: TranslateResult,
    host: Host,
    start: Machine,
    context: JitInfo,
    s: CpuState,
    step: Step,
) -> bool {
    let m = gen.machine(host, start);
    match step.1 {
        Ok(_) => {
            &&& stands_for(gen, host, start, step.0, context.instr_cnt.wrapping_add(1))
            &&& step.0.csr == s.counted(1).csr
            &&& match result {
                TranslateResult::Continue => step.0.pc == Width::W64.wrap(
                    context.instr_pc + context.instr_len,
                ),
                TranslateResult::ControlFlow => m.regs[5] == step.0.pc,
                TranslateResult::Unsupported => false,
            }
        },
        Err(exception) => match m.left {
            Some(exit) => {
                &&& exit.guest_pc == context.instr_pc
                &&& exit.icount == context.instr_cnt
                &&& exit.exception == exception
                &&& exception != Exception::IllegalInstruction
                &&& step.0.pending_tval == Some(exit.tval)
                &&& m.cpu.regs == s.regs
                &&& m.cpu.csr.table.len() == 4096
                &&& step.0 == caught_up(
                    CpuState { pending_tval: Some(exit.tval), ..m.cpu },
                    s.regs,
                    s.pc,
                    context.instr_cnt,
                )
            },
            None => false,
        },
    }
}

/// Counting instructions changes one register only.
pub(crate) proof fn lemma_counted(s: CpuState, a: u64, b: u64)
    requires
        s.csr.table.len() == 4096,
    ensures
        s.counted(a).counted(b) == s.counted(a.wrapping_add(b)),
        s.counted(a).csr.table.len() == 4096,
        s.counted(a).csr.value(csr_index::misa) == s.csr.value(csr_index::misa),
        s.counted(a).csr.value(csr_index::mstatus) == s.csr.value(csr_index::mstatus),
        s.counted(a).csr.cpl == s.csr.cpl,
{
    let once = s.counted(a).counted(b).csr;
    let both = s.counted(a.wrapping_add(b)).csr;
    assert(once.table =~= both.table);
}

/// The policy of an access depends on one register and the privilege level.
proof fn lemma_policy(a: CsrState, b: CsrState, access: AccessType)
    requires
        a.value(csr_index::mstatus) == b.value(csr_index::mstatus),
        a.cpl == b.cpl,
    ensures
        policy::data_policy(a, access, true) == policy::data_policy(b, access, true),
{
}

/// A load does not depend on what is not counted yet.
proof fn lemma_read(cpu: CpuState, regs: Seq<u64>, pc: u64, n: u64, addr: u64, w: Width)
    requires
        cpu.csr.table.len() == 4096,
    ensures
        ({
            let (after, r) = CpuState { regs, ..cpu }.data_read(addr, w);
            caught_up(cpu, regs, pc, n).data_read(addr, w) == (
                caught_up(after, regs, pc, n),
                r,
            )
        }),
{
    let s = CpuState { regs, pc, ..cpu };
    lemma_counted(s, n, 0);
    lemma_policy(s.counted(n).csr, cpu.csr, AccessType::Read);
}

/// A store does not depend on what is not counted yet.
proof fn lemma_written(
    cpu: CpuState,
    regs: Seq<u64>,
    pc: u64,
    n: u64,
    addr: u64,
    w: Width,
    data: u64,
)
    requires
        cpu.csr.table.len() == 4096,
    ensures
        ({
            let (after, r) = CpuState { regs, ..cpu }.data_written(addr, w, data);
            caught_up(cpu, regs, pc, n).data_written(addr, w, data) == (
                caught_up(after, regs, pc, n),
                r,
            )
        }),
{
    let s = CpuState { regs, pc, ..cpu };
    lemma_counted(s, n, 0);
    lemma_policy(s.counted(n).csr, cpu.csr, AccessType::Write);
}

/// The host stands for a hart after an instruction that wrote registers and was counted.
proof fn lemma_stands(
    gen: GenState,
    u: GenState,
    host: Host,
    start: Machine,
    s: CpuState,
    n: u64,
    h: Seq<u64>,
    pc: u64,
)
    requires
        stands_for(gen, host, start, s, n),
        u.agrees(host, start, h, None),
        u.idle(),
        agreement::only_regs(gen.machine(host, start).cpu, u.machine(host, start).cpu),
        h.len() == 32,
        h[0] == 0,
    ensures
        stands_for(
            u,
            host,
            start,
            CpuState { regs: h, pc, ..s }.counted(1),
            n.wrapping_add(1),
        ),
{
    reveal(stands_for);
    let cpu = gen.machine(host, start).cpu;
    let t = CpuState { regs: h, pc, ..cpu };
    lemma_counted(t, n, 1);
    assert(CpuState { regs: h, pc, ..s } == t.counted(n));
}

/// An instruction that writes a register.
pub(super) proof fn lemma_register(
    gen: GenState,
    u: GenState,
    host: Host,
    start: Machine,
    s: CpuState,
    context: JitInfo,
    rd: u8,
    value: u64,
)
    requires
        stands_for(gen, host, start, s, context.instr_cnt),
        s.pc == context.instr_pc,
        rd < 32,
        rd == 0 ==> u == gen,
        rd != 0 ==> u.idle() && agreement::carries(
            gen,
            u,
            host,
            start,
            s.regs,
            s.regs.update(rd as int, value),
        ),
    ensures
        mirrored(
            u,
            TranslateResult::Continue,
            host,
            start,
            context,
            s,
            (
                s.with_reg(rd, value).retired(context.instr_len).with_reg(0, 0),
                Ok(()),
            ),
        ),
{
    let pc = Width::W64.wrap(context.instr_pc + context.instr_len);
    let h = if rd == 0 {
        s.regs
    } else {
        s.regs.update(rd as int, value)
    };
    assert(s.regs.len() == 32 && s.regs[0] == 0 && gen.agrees(host, start, s.regs, None)
        && gen.idle()) by {
        reveal(stands_for);
    }
    lemma_stands(gen, u, host, start, s, context.instr_cnt, h, pc);
    assert(s.regs.update(rd as int, value).update(0, 0) =~= h);
}

/// An instruction that goes somewhere.
pub(super) proof fn lemma_goes(
    gen: GenState,
    u: GenState,
    host: Host,
    start: Machine,
    s: CpuState,
    context: JitInfo,
    h: Seq<u64>,
    target: u64,
)
    requires
        stands_for(gen, host, start, s, context.instr_cnt),
        control::goes_to(gen, u, host, start, h, target),
        h.len() == 32,
        h[0] == 0,
    ensures
        mirrored(
            u,
            TranslateResult::ControlFlow,
            host,
            start,
            context,
            s,
            (CpuState { regs: h, pc: target, ..s }.counted(1), Ok(())),
        ),
{
    lemma_stands(gen, u, host, start, s, context.instr_cnt, h, target);
}

/// An instruction that cannot go somewhere.
pub(super) proof fn lemma_misaligned(
    gen: GenState,
    u: GenState,
    result: TranslateResult,
    host: Host,
    start: Machine,
    s: CpuState,
    context: JitInfo,
    target: u64,
)
    requires
        stands_for(gen, host, start, s, context.instr_cnt),
        control::misaligned(gen, u, host, start, s.regs, context, target),
    ensures
        mirrored(
            u,
            result,
            host,
            start,
            context,
            s,
            (
                s.misaligned_jump(target).0.with_reg(0, 0),
                Err(Exception::InstructionMisaligned),
            ),
        ),
{
    reveal(stands_for);
    assert(s.regs.update(0, 0) =~= s.regs);
}

/// What is known of the hart that the host stands for.
pub(crate) proof fn lemma_standing(gen: GenState, host: Host, start: Machine, s: CpuState, n: u64)
    requires
        stands_for(gen, host, start, s, n),
    ensures
        gen.agrees(host, start, s.regs, None),
        gen.idle(),
        s.regs.len() == 32,
        s.regs[0] == 0,
        s.csr.table.len() == 4096,
{
    reveal(stands_for);
    lemma_counted(
        CpuState { regs: s.regs, pc: s.pc, ..gen.machine(host, start).cpu },
        n,
        0,
    );
}

/// A load.
pub(super) proof fn lemma_load(
    gen: GenState,
    host: Host,
    start: Machine,
    s: CpuState,
    context: JitInfo,
    rd: u8,
    rs1: u8,
    imm: u64,
    kind: LoadKind,
    extend: bool,
)
    requires
        stands_for(gen, host, start, s, context.instr_cnt),
        s.pc == context.instr_pc,
        rd < 32,
        rs1 < 32,
        utils::is_word(imm),
        super::calls::helpers_differ(host.around.helpers),
        extend == (kind == LoadKind::SignedByte || kind == LoadKind::SignedHalf || kind
            == LoadKind::SignedWord),
    ensures
        ({
            let addr = Width::W64.wrap(s.reg(rs1) + imm);
            let step = exec_core::retire_step(
                s.loaded(kind.spec_width(), extend, rd, addr),
                context.instr_len,
            );
            mirrored(
                gen.load(host.around, rd, rs1, imm, kind, context),
                TranslateResult::Continue,
                host,
                start,
                context,
                s,
                (step.0.with_reg(0, 0), step.1),
            )
        }),
{
    lemma_standing(gen, host, start, s, context.instr_cnt);
    let n = context.instr_cnt;
    let w = kind.spec_width();
    let addr = accesses::address_of(s.regs, rs1, imm);
    let cpu = gen.machine(host, start).cpu;
    accesses::lemma_load(gen, host, start, s.regs, rd, rs1, imm, kind, context);
    accesses::lemma_read_width(accesses::hart(gen, host, start, s.regs), addr, w);
    assert(cpu.csr.table.len() == 4096 && s == caught_up(cpu, s.regs, s.pc, n)) by {
        reveal(stands_for);
    }
    lemma_read(cpu, s.regs, s.pc, n, addr, w);
    let u = gen.load(host.around, rd, rs1, imm, kind, context);
    let (after, r) = accesses::hart(gen, host, start, s.regs).data_read(addr, w);
    match r {
        Ok(value) => {
            let v = accesses::extended_value(kind, value);
            let h = if rd == 0 {
                s.regs
            } else {
                s.regs.update(rd as int, v)
            };
            let pc = Width::W64.wrap(context.instr_pc + context.instr_len);
            lemma_after_access(u, host, start, s, n, after, h, pc);
            assert(s.regs.update(rd as int, v).update(0, 0) =~= h);
        },
        Err(_) => {
            assert(s.regs.update(0, 0) =~= s.regs);
        },
    }
}

/// The host stands for a hart after an access.
proof fn lemma_after_access(
    u: GenState,
    host: Host,
    start: Machine,
    s: CpuState,
    n: u64,
    after: CpuState,
    h: Seq<u64>,
    pc: u64,
)
    requires
        u.agrees(host, start, h, None),
        u.idle(),
        agreement::only_regs(after, u.machine(host, start).cpu),
        after.csr.table.len() == 4096,
        h.len() == 32,
        h[0] == 0,
    ensures
        stands_for(
            u,
            host,
            start,
            CpuState { regs: h, pc, ..caught_up(after, s.regs, s.pc, n) }.counted(1),
            n.wrapping_add(1),
        ),
{
    reveal(stands_for);
    let t = CpuState { regs: h, pc, ..after };
    lemma_counted(t, n, 1);
    assert(CpuState { regs: h, pc, ..caught_up(after, s.regs, s.pc, n) } == t.counted(n));
}

/// A store.
pub(super) proof fn lemma_store(
    gen: GenState,
    host: Host,
    start: Machine,
    s: CpuState,
    context: JitInfo,
    rs1: u8,
    rs2: u8,
    imm: u64,
    kind: StoreKind,
)
    requires
        stands_for(gen, host, start, s, context.instr_cnt),
        s.pc == context.instr_pc,
        rs1 < 32,
        rs2 < 32,
        utils::is_word(imm),
        super::calls::helpers_differ(host.around.helpers),
    ensures
        ({
            let addr = Width::W64.wrap(s.reg(rs1) + imm);
            let w = kind.spec_width();
            let step = exec_core::retire_step(
                s.data_written(addr, w, w.wrap(s.reg(rs2) as int)),
                context.instr_len,
            );
            mirrored(
                gen.store(host.around, rs1, rs2, imm, kind, context),
                TranslateResult::Continue,
                host,
                start,
                context,
                s,
                (step.0.with_reg(0, 0), step.1),
            )
        }),
{
    lemma_standing(gen, host, start, s, context.instr_cnt);
    let n = context.instr_cnt;
    let w = kind.spec_width();
    let addr = accesses::address_of(s.regs, rs1, imm);
    let data = w.wrap(s.reg(rs2) as int);
    let cpu = gen.machine(host, start).cpu;
    accesses::lemma_store(gen, host, start, s.regs, rs1, rs2, imm, kind, context);
    assert(cpu.csr.table.len() == 4096 && s == caught_up(cpu, s.regs, s.pc, n)) by {
        reveal(stands_for);
    }
    lemma_written(cpu, s.regs, s.pc, n, addr, w, data);
    let u = gen.store(host.around, rs1, rs2, imm, kind, context);
    let (after, r) = accesses::hart(gen, host, start, s.regs).data_written(addr, w, data);
    assert(s.regs.update(0, 0) =~= s.regs);
    match r {
        Ok(_) => {
            let pc = Width::W64.wrap(context.instr_pc + context.instr_len);
            lemma_after_access(u, host, start, s, n, after, s.regs, pc);
        },
        Err(_) => {},
    }
}

} // verus!
