//! That generated code and the interpreter agree.
use vstd::prelude::*;

use crate::isa::cache::CachePolicy;
use crate::isa::riscv::decoder::decode;
use crate::isa::riscv::decoder::DecodeInstr;
use crate::isa::riscv::executor;
use crate::isa::riscv::executor::{CpuState, InstrCache};
use crate::isa::riscv::instruction::exec_core::Step;
use crate::isa::riscv::instruction::info::RVInstrInfo;
use crate::isa::riscv::instruction::instr_table::RiscvInstr;
use crate::isa::riscv::trap::Exception;
use crate::utils::Width;

use super::engine;
use super::engine::{Translation, MAX_BASIC_BLOCK_INSTRS};
use super::jit_function::JitInfo;
use super::machine::{Host, Machine};
use super::stats::TranslationStop;
use super::backend::x86::X86Reg;
use super::translator::calls;
use super::translator::control;
use super::translator::growth;
use super::translator::mirror;
use super::translator::mirror_compressed;
use super::translator::rvc;
use super::translator::rvi;
use super::translator::simulation;
use super::translator::{GenState, Surroundings, TranslateResult};

verus! {

/// The base instructions take four bytes.
proof fn lemma_base_length(
    gen: GenState,
    host: Host,
    instr: RiscvInstr,
    info: RVInstrInfo,
    context: JitInfo,
)
    requires
        gen.rvi(host.around, instr, info, context).1 != TranslateResult::Unsupported,
    ensures
        !instr.compressed(),
{
}

/// The compressed instructions take two bytes.
proof fn lemma_compressed_length(
    gen: GenState,
    host: Host,
    instr: RiscvInstr,
    info: RVInstrInfo,
    context: JitInfo,
)
    requires
        gen.rvc(host.around, instr, info, context).1 != TranslateResult::Unsupported,
    ensures
        instr.compressed(),
{
}

/// What the interpreter does with an instruction.
#[verifier::opaque]
pub open spec fn effect(s: CpuState, d: DecodeInstr) -> Step {
    s.executed(d.instr, d.info)
}

/// Where an instruction of a block stands.
pub open spec fn context_of(s: CpuState, d: DecodeInstr, n: u64) -> JitInfo {
    JitInfo { instr_pc: s.pc, instr_cnt: n, instr_len: d.len, ialign: s.ialign() }
}

/// Whether a hart can be at an instruction: without two-byte instructions there is none, and no
/// address between two words is reached.
pub open spec fn reachable(s: CpuState, d: DecodeInstr) -> bool {
    s.ialign() == 4 ==> s.pc % 4 == 0 && !d.instr.compressed()
}

/// The code of an instruction does what the instruction does. If the host stands for a hart before
/// the code, it stands for the hart after the instruction, with the next address at hand if the
/// block ends there; and where the instruction raises an exception, the code is left with that
/// exception and its trap value, and with the registers of the hart up to date.
pub proof fn law_instruction_agrees(
    gen: GenState,
    host: Host,
    start: Machine,
    s: CpuState,
    d: DecodeInstr,
    n: u64,
)
    requires
        simulation::stands_for(gen, host, start, s, n),
        calls::helpers_differ(host.around.helpers),
        d.wf(),
        reachable(s, d),
        gen.instruction(host.around, d.instr, d.info, context_of(s, d, n)).1
            != TranslateResult::Unsupported,
    ensures
        ({
            let context = context_of(s, d, n);
            let (u, result) = gen.instruction(host.around, d.instr, d.info, context);
            simulation::mirrored(
                u,
                result,
                host,
                start,
                context,
                s,
                effect(s, d),
            )
        }),
{
    reveal(GenState::instruction);
    reveal(effect);
    let context = context_of(s, d, n);
    if gen.rvi(host.around, d.instr, d.info, context).1 != TranslateResult::Unsupported {
        lemma_base_length(gen, host, d.instr, d.info, context);
        mirror::lemma_base(gen, host, start, s, d.instr, d.info, context);
    } else {
        lemma_compressed_length(gen, host, d.instr, d.info, context);
        mirror_compressed::lemma_compressed(gen, host, start, s, d.instr, d.info, context);
    }
}

/// The instructions of a block.
pub open spec fn block_instrs(
    c: CpuState,
    gen: GenState,
    around: Surroundings,
    ialign: u64,
    addr: u64,
    cnt: nat,
) -> Seq<DecodeInstr>
    decreases MAX_BASIC_BLOCK_INSTRS - cnt,
{
    if cnt >= MAX_BASIC_BLOCK_INSTRS {
        Seq::empty()
    } else {
        let (cpu, found) = c.instr_decoded(addr);
        match found {
            Err(_) => Seq::empty(),
            Ok(d) => {
                let context = JitInfo {
                    instr_pc: addr,
                    instr_cnt: cnt as u64,
                    instr_len: d.len,
                    ialign,
                };
                let (next, result) = gen.instruction(around, d.instr, d.info, context);
                match result {
                    TranslateResult::Continue => seq![d] + block_instrs(
                        cpu,
                        next,
                        around,
                        ialign,
                        Width::W64.wrap(addr + d.len),
                        cnt + 1,
                    ),
                    TranslateResult::ControlFlow => seq![d],
                    TranslateResult::Unsupported => Seq::empty(),
                }
            },
        }
    }
}

/// The end of a run of instructions.
pub struct Outcome {
    pub cpu: CpuState,
    /// The exception that ended the run.
    pub exception: Option<Exception>,
    /// How many instructions were retired.
    pub retired: nat,
}

/// Instructions are executed in turn, up to one that raises an exception.
pub open spec fn in_turn(s: CpuState, instrs: Seq<DecodeInstr>) -> Outcome
    decreases instrs.len(),
{
    if instrs.len() == 0 {
        Outcome { cpu: s, exception: None, retired: 0 }
    } else {
        let (after, r) = effect(s, instrs[0]);
        match r {
            Err(e) => Outcome { cpu: after, exception: Some(e), retired: 0 },
            Ok(_) => {
                let rest = in_turn(after, instrs.drop_first());
                Outcome { retired: rest.retired + 1, ..rest }
            },
        }
    }
}

/// Whether a hart can be at each of the instructions when its turn comes.
pub open spec fn all_reachable(s: CpuState, instrs: Seq<DecodeInstr>) -> bool
    decreases instrs.len(),
{
    instrs.len() > 0 ==> {
        let (after, r) = effect(s, instrs[0]);
        &&& reachable(s, instrs[0])
        &&& r is Ok ==> all_reachable(after, instrs.drop_first())
    }
}

/// Whether what an instruction cache holds was decoded.
pub open spec fn decoded_only(c: CpuState) -> bool {
    c.icache.len() == 8192 && executor::cached_ok(c.icache)
}

/// What is found was decoded.
proof fn lemma_found(c: CpuState, addr: u64)
    requires
        decoded_only(c),
    ensures
        c.instr_decoded(addr).1 is Ok ==> c.instr_decoded(addr).1->Ok_0.wf(),
        decoded_only(c.instr_decoded(addr).0),
{
    reveal(CpuState::instr_fetched);
    InstrCache::lemma_slot(addr);
    let i = InstrCache::slot(addr);
    let asked = c.icache_asked(addr);
    let (s, r) = asked.instr_fetched(addr);
    assert(s.icache == c.icache);
    if InstrCache::lookup(c.icache, addr) is None {
        if let Ok(raw) = r {
            decode::lemma_decoded_wf(s.decoder, raw);
            if let Some(d) = s.decoder.decoded(raw) {
                let put = InstrCache::after_put(s.icache, addr, d);
                assert forall|j: int|
                    0 <= j < put.len() && (#[trigger] put[j]).1 is Some implies put[j].1->0.wf() by {
                    if j != i {
                        assert(put[j] == s.icache[j]);
                    }
                }
            }
        }
    } else {
        assert(c.icache[i].1 is Some);
    }
}

/// Translating the rest of a block adds to its code.
proof fn lemma_translation_grows(
    c: CpuState,
    gen: GenState,
    around: Surroundings,
    ialign: u64,
    addr: u64,
    cnt: nat,
)
    ensures
        gen.code.is_prefix_of(engine::translation(c, gen, around, ialign, addr, cnt).gen.code),
    decreases MAX_BASIC_BLOCK_INSTRS - cnt,
{
    if cnt < MAX_BASIC_BLOCK_INSTRS {
        let (cpu, found) = c.instr_decoded(addr);
        if let Ok(d) = found {
            let context = JitInfo {
                instr_pc: addr,
                instr_cnt: cnt as u64,
                instr_len: d.len,
                ialign,
            };
            growth::lemma_instruction(gen, around, d.instr, d.info, context);
            let (next, result) = gen.instruction(around, d.instr, d.info, context);
            if result == TranslateResult::Continue {
                let behind = Width::W64.wrap(addr + d.len);
                lemma_translation_grows(cpu, next, around, ialign, behind, cnt + 1);
                let end = engine::translation(cpu, next, around, ialign, behind, cnt + 1).gen;
                assert(gen.code =~= end.code.subrange(0, gen.code.len() as int));
            }
        }
    }
}

/// Whether the code of a block, up to its end, did what its instructions do in turn.
pub open spec fn block_mirrored(
    t: Translation,
    host: Host,
    start: Machine,
    cnt: nat,
    outcome: Outcome,
) -> bool {
    let m = t.gen.machine(host, start);
    match outcome.exception {
        None => {
            &&& simulation::stands_for(t.gen, host, start, outcome.cpu, t.cnt as u64)
            &&& t.cnt == cnt + outcome.retired
            &&& if t.stop == TranslationStop::ControlFlow {
                m.regs[5] == outcome.cpu.pc
            } else {
                t.addr == outcome.cpu.pc
            }
        },
        Some(exception) => match m.left {
            Some(exit) => {
                &&& exit.guest_pc == outcome.cpu.pc
                &&& exit.icount == cnt + outcome.retired
                &&& exit.exception == exception
                &&& exception != Exception::IllegalInstruction
                &&& m.cpu.csr.table.len() == 4096
                &&& m.cpu.regs.len() == 32
                &&& m.cpu.regs[0] == 0
                &&& outcome.cpu == simulation::caught_up(
                    CpuState { pending_tval: Some(exit.tval), ..m.cpu },
                    m.cpu.regs,
                    outcome.cpu.pc,
                    exit.icount,
                )
            },
            None => false,
        },
    }
}

/// The rest of a block does what its instructions do in turn.
proof fn lemma_block(
    c: CpuState,
    gen: GenState,
    host: Host,
    start: Machine,
    s: CpuState,
    cnt: nat,
)
    requires
        simulation::stands_for(gen, host, start, s, cnt as u64),
        calls::helpers_differ(host.around.helpers),
        decoded_only(c),
        cnt <= MAX_BASIC_BLOCK_INSTRS,
        all_reachable(s, block_instrs(c, gen, host.around, s.ialign(), s.pc, cnt)),
    ensures
        block_mirrored(
            engine::translation(c, gen, host.around, s.ialign(), s.pc, cnt),
            host,
            start,
            cnt,
            in_turn(s, block_instrs(c, gen, host.around, s.ialign(), s.pc, cnt)),
        ),
    decreases MAX_BASIC_BLOCK_INSTRS - cnt,
{
    let around = host.around;
    let ialign = s.ialign();
    let instrs = block_instrs(c, gen, around, ialign, s.pc, cnt);
    if cnt < MAX_BASIC_BLOCK_INSTRS {
        let (cpu, found) = c.instr_decoded(s.pc);
        lemma_found(c, s.pc);
        if let Ok(d) = found {
            let context = context_of(s, d, cnt as u64);
            let (next, result) = gen.instruction(around, d.instr, d.info, context);
            if result != TranslateResult::Unsupported {
                assert(instrs[0] == d);
                law_instruction_agrees(gen, host, start, s, d, cnt as u64);
                let (after, r) = effect(s, d);
                let behind = Width::W64.wrap(s.pc + d.len);
                simulation::lemma_standing(gen, host, start, s, cnt as u64);
                simulation::lemma_counted(s, 1, 0);
                if result == TranslateResult::Continue {
                    let rest = block_instrs(cpu, next, around, ialign, behind, cnt + 1);
                    assert(instrs.drop_first() =~= rest);
                    if r is Ok {
                        lemma_block(cpu, next, host, start, after, cnt + 1);
                    } else {
                        lemma_translation_grows(cpu, next, around, ialign, behind, cnt + 1);
                        let t = engine::translation(cpu, next, around, ialign, behind, cnt + 1);
                        calls::lemma_left_by(next, t.gen, host, start);
                    }
                } else {
                    let none = Seq::<DecodeInstr>::empty();
                    assert(instrs.drop_first() =~= none);
                    assert(in_turn(after, none) == Outcome {
                        cpu: after,
                        exception: None,
                        retired: 0,
                    });
                }
            }
        }
    }
}

/// Whether the host enters generated code for a hart.
pub open spec fn enters(host: Host, start: Machine, s: CpuState) -> bool {
    &&& start.left is None
    &&& start.regs.len() == 16
    &&& start.reg(X86Reg::RBP) == host.guest_regs
    &&& start.cpu == s
    &&& s.regs.len() == 32
    &&& s.reg(0) == 0
    &&& s.csr.complete()
}

/// Counting no instructions changes nothing.
proof fn lemma_counted_none(s: CpuState)
    requires
        s.csr.complete(),
    ensures
        s.counted(0) == s,
{
    assert(s.counted(0).csr.table =~= s.csr.table);
}

/// The order in which cycles and instructions are counted does not matter.
proof fn lemma_counters(s: CpuState, a: u64, b: u64)
    requires
        s.csr.table.len() == 4096,
    ensures
        s.cycled(a).counted(b) == s.counted(b).cycled(a),
{
    assert(s.cycled(a).counted(b).csr.table =~= s.counted(b).cycled(a).csr.table);
}

/// Before the first instruction the host stands for the hart.
proof fn lemma_enters(host: Host, start: Machine, s: CpuState)
    requires
        enters(host, start, s),
    ensures
        simulation::stands_for(engine::fresh(), host, start, s, 0),
{
    reveal(simulation::stands_for);
    reveal(GenState::agrees);
    let gen = engine::fresh();
    lemma_counted_none(s);
    assert(gen.machine(host, start) == start);
    assert(simulation::caught_up(s, s.regs, s.pc, 0) == s);
}

/// Running a block does to a hart what its instructions do in turn. When no instruction raises an
/// exception, the code returns, and what is made of its result is the hart after the instructions,
/// with the cycles counted. When one does, the code is left, and what is made of that is the hart
/// after the instructions before it and the trap that the interpreter would take.
pub proof fn law_block_agrees(c: CpuState, host: Host, start: Machine, s: CpuState)
    requires
        enters(host, start, s),
        calls::helpers_differ(host.around.helpers),
        decoded_only(c),
        c.ialign() == s.ialign(),
        all_reachable(
            s,
            block_instrs(c, engine::fresh(), host.around, s.ialign(), s.pc, 0),
        ),
    ensures
        ({
            let instrs = block_instrs(c, engine::fresh(), host.around, s.ialign(), s.pc, 0);
            let outcome = in_turn(s, instrs);
            let t = Translation::of(c, host.around, s.pc);
            let end = start.ran(host, t.code());
            match outcome.exception {
                None => {
                    &&& end.left is None
                    &&& t.cnt == instrs.len()
                    &&& end.cpu.block_finished(end.reg(X86Reg::RAX), t.cnt as u64, None)
                        == outcome.cpu.cycled(t.cnt as u64)
                },
                Some(exception) => match end.left {
                    Some(exit) => {
                        &&& exit.icount == outcome.retired
                        &&& exit.exception == exception
                        &&& end.cpu.block_finished(
                            exit.guest_pc,
                            exit.icount,
                            Some((exit.exception, exit.tval)),
                        ) == outcome.cpu.cycled(exit.icount).cycled(1).instr_trapped(exception)
                    },
                    None => false,
                },
            }
        }),
{
    let gen = engine::fresh();
    let instrs = block_instrs(c, gen, host.around, s.ialign(), s.pc, 0);
    let outcome = in_turn(s, instrs);
    let t = Translation::of(c, host.around, s.pc);
    lemma_enters(host, start, s);
    lemma_block(c, gen, host, start, s, 0);
    lemma_all_retired(s, instrs);
    match outcome.exception {
        None => {
            lemma_returned(t, host, start, outcome.cpu);
        },
        Some(exception) => {
            lemma_left(t, host, start, outcome.cpu, exception);
        },
    }
}

/// Without an exception all instructions are retired.
proof fn lemma_all_retired(s: CpuState, instrs: Seq<DecodeInstr>)
    ensures
        in_turn(s, instrs).exception is None ==> in_turn(s, instrs).retired == instrs.len(),
    decreases instrs.len(),
{
    if instrs.len() > 0 {
        lemma_all_retired(effect(s, instrs[0]).0, instrs.drop_first());
    }
}

/// What is made of a block that returned.
proof fn lemma_returned(t: Translation, host: Host, start: Machine, after: CpuState)
    requires
        simulation::stands_for(t.gen, host, start, after, t.cnt as u64),
        if t.stop == TranslationStop::ControlFlow {
            t.gen.machine(host, start).regs[5] == after.pc
        } else {
            t.addr == after.pc
        },
    ensures
        ({
            let end = start.ran(host, t.code());
            &&& end.left is None
            &&& end.cpu.block_finished(end.regs[5], t.cnt as u64, None) == after.cycled(
                t.cnt as u64,
            )
        }),
{
    reveal(simulation::stands_for);
    let n = t.cnt as u64;
    let next = if t.stop == TranslationStop::ControlFlow {
        None
    } else {
        Some(t.addr)
    };
    control::lemma_finished(t.gen, host, start, after.regs, next);
    let m = t.gen.machine(host, start);
    let x = CpuState { regs: after.regs, pc: after.pc, ..m.cpu };
    lemma_counters(x, n, n);
    assert(after.regs.update(0, 0) =~= after.regs);
}

/// What is made of a block that was left.
proof fn lemma_left(
    t: Translation,
    host: Host,
    start: Machine,
    after: CpuState,
    exception: Exception,
)
    requires
        ({
            let m = t.gen.machine(host, start);
            &&& m.left is Some
            &&& m.left->0.guest_pc == after.pc
            &&& m.left->0.exception == exception
            &&& exception != Exception::IllegalInstruction
            &&& m.cpu.csr.table.len() == 4096
            &&& m.cpu.regs.len() == 32
            &&& m.cpu.regs[0] == 0
            &&& after == simulation::caught_up(
                CpuState { pending_tval: Some(m.left->0.tval), ..m.cpu },
                m.cpu.regs,
                after.pc,
                m.left->0.icount,
            )
        }),
    ensures
        ({
            let end = start.ran(host, t.code());
            let exit = end.left->0;
            &&& end.left == t.gen.machine(host, start).left
            &&& end.cpu.block_finished(
                exit.guest_pc,
                exit.icount,
                Some((exit.exception, exit.tval)),
            ) == after.cycled(exit.icount).cycled(1).instr_trapped(exception)
        }),
{
    let next = if t.stop == TranslationStop::ControlFlow {
        None
    } else {
        Some(t.addr)
    };
    growth::lemma_finished(t.gen, next);
    calls::lemma_left_by(t.gen, t.gen.finished(next), host, start);
    let m = t.gen.machine(host, start);
    let n = m.left->0.icount;
    let x = CpuState { pc: after.pc, ..m.cpu };
    lemma_counters(x, n, n);
    assert(m.cpu.regs.update(0, 0) =~= m.cpu.regs);
    let y = x.cycled(n).counted(n).cycled(1);
    let z = after.cycled(n).cycled(1);
    assert(CpuState { pending_tval: None, ..y } == CpuState { pending_tval: None, ..z });
}

} // verus!
