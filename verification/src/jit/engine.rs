//! What is translated, what is interpreted, and what both count.
use vstd::prelude::*;

use crate::isa::cache::{Cache, CachePolicy, Cacheable, SetCache, SetModel};
use crate::isa::riscv::executor::{CpuState, RVCPU};
use crate::utils;
use crate::utils::Width;

use super::backend::x86::code;
use super::backend::x86::code::HostInstr;
use super::jit_buffer::{BufferModel, CodeLocation, JitBuffer};
use super::jit_function::{JitContext, JitInfo};
use super::stats::{Stats, StatsModel, TranslationStop};
use super::translator::reg_assign;
use super::translator::state_vec::HostRegState;
use super::translator::{GenState, Surroundings, TranslateResult, X86CodeGen};

verus! {

/// How many instructions a block has at most.
pub const MAX_BASIC_BLOCK_INSTRS: u64 = 1024;

/// A translated block that is not placed yet.
#[derive(Debug)]
pub struct RawBasicBlock {
    pub instr_cnt: u64,
    pub buf: Vec<u8>,
}

/// A block that is placed.
#[derive(Debug, Clone, Copy, PartialEq, Eq, Structural)]
pub struct BasicBlock {
    pub instr_cnt: u64,
    pub func: CodeLocation,
}

/// What is known of the code at an address.
#[derive(Debug, Clone, Copy, PartialEq, Eq, Structural)]
pub enum BBCacheEntry {
    Compiled(BasicBlock),
    InterpreterOnly,
}

impl Cacheable for BBCacheEntry {
    const ADDR_SHIFT_BITS: usize = 1;
}

/// Where blocks are found.
pub type BBCache = SetCache<BBCacheEntry, 4096, 8>;

/// The end of a translation.
pub struct Translation {
    pub cpu: CpuState,
    pub gen: GenState,
    /// The address behind the last instruction of the block.
    pub addr: u64,
    /// How many instructions the block has.
    pub cnt: nat,
    pub stop: TranslationStop,
}

/// The translation of a block from an address on, after `cnt` instructions of it.
pub open spec fn translation(
    s: CpuState,
    gen: GenState,
    around: Surroundings,
    ialign: u64,
    addr: u64,
    cnt: nat,
) -> Translation
    decreases MAX_BASIC_BLOCK_INSTRS - cnt,
{
    if cnt >= MAX_BASIC_BLOCK_INSTRS {
        Translation { cpu: s, gen, addr, cnt, stop: TranslationStop::InstructionLimit }
    } else {
        let (cpu, found) = s.instr_decoded(addr);
        match found {
            Err(_) => Translation { cpu, gen, addr, cnt, stop: TranslationStop::DecodeFailure },
            Ok(d) => {
                let info = JitInfo {
                    instr_pc: addr,
                    instr_cnt: cnt as u64,
                    instr_len: d.len,
                    ialign,
                };
                let (next, result) = gen.instruction(around, d.instr, d.info, info);
                let behind = Width::W64.wrap(addr + d.len);
                match result {
                    TranslateResult::Continue => translation(
                        cpu,
                        next,
                        around,
                        ialign,
                        behind,
                        cnt + 1,
                    ),
                    TranslateResult::ControlFlow => Translation {
                        cpu,
                        gen: next,
                        addr: behind,
                        cnt: cnt + 1,
                        stop: TranslationStop::ControlFlow,
                    },
                    TranslateResult::Unsupported => Translation {
                        cpu,
                        gen,
                        addr,
                        cnt,
                        stop: TranslationStop::UnsupportedInstruction(d.instr),
                    },
                }
            },
        }
    }
}

/// A block before its first instruction is translated.
pub open spec fn fresh() -> GenState {
    GenState {
        table: Seq::new(16, |i: int| HostRegState::unused(reg_assign::host_at(i))),
        code: Seq::empty(),
    }
}

impl Translation {
    /// The translation of a block.
    pub open spec fn of(s: CpuState, around: Surroundings, addr: u64) -> Translation {
        translation(s, fresh(), around, s.ialign(), addr, 0)
    }

    /// The code of the block.
    pub open spec fn code(self) -> Seq<HostInstr> {
        self.gen.finished(
            if self.stop == TranslationStop::ControlFlow {
                None
            } else {
                Some(self.addr)
            },
        ).code
    }

    /// The bytes of the block.
    pub open spec fn bytes(self) -> Seq<u8> {
        code::encode(self.code())
    }
}

/// The blocks as plain values.
#[verifier::ext_equal]
pub struct BlocksModel {
    pub cache: Seq<SetModel<BBCacheEntry>>,
    pub hits: u64,
    pub accesses: u64,
    pub buffer: BufferModel,
}

/// What is known after the block at the program counter is looked up: the blocks, the hart, the
/// counts, the block, and its bytes if it is new.
pub struct Lookup {
    pub blocks: BlocksModel,
    pub cpu: CpuState,
    pub stats: StatsModel,
    pub block: Option<BasicBlock>,
    pub code: Option<Seq<u8>>,
}

impl BlocksModel {
    /// The blocks after all are given up.
    pub open spec fn cleared(self) -> BlocksModel {
        BlocksModel { cache: BBCache::empty(), buffer: self.buffer.emptied(), ..self }
    }

    /// The blocks after one is asked for.
    pub open spec fn asked(self, pc: u64) -> BlocksModel {
        BlocksModel {
            accesses: self.accesses.wrapping_add(1),
            hits: if BBCache::lookup(self.cache, pc) is Some {
                self.hits.wrapping_add(1)
            } else {
                self.hits
            },
            ..self
        }
    }

    /// The block at the program counter. What is not known is translated; what cannot be
    /// translated is remembered too.
    pub open spec fn looked_up(
        self,
        s: CpuState,
        stats: StatsModel,
        around: Surroundings,
    ) -> Lookup {
        let pc = s.pc;
        let asked = self.asked(pc);
        match BBCache::lookup(self.cache, pc) {
            Some(BBCacheEntry::Compiled(bb)) => Lookup {
                blocks: asked,
                cpu: s,
                stats: stats.hit(),
                block: Some(bb),
                code: None,
            },
            Some(BBCacheEntry::InterpreterOnly) => Lookup {
                blocks: asked,
                cpu: s,
                stats,
                block: None,
                code: None,
            },
            None => {
                let t = Translation::of(s, around, pc);
                if t.cnt == 0 {
                    Lookup {
                        blocks: BlocksModel {
                            cache: BBCache::after_put(
                                self.cache,
                                pc,
                                BBCacheEntry::InterpreterOnly,
                            ),
                            ..asked
                        },
                        cpu: t.cpu,
                        stats,
                        block: None,
                        code: None,
                    }
                } else {
                    let len = t.bytes().len() as int;
                    let bb = BasicBlock {
                        instr_cnt: t.cnt as u64,
                        func: self.buffer.location(len),
                    };
                    Lookup {
                        blocks: BlocksModel {
                            cache: BBCache::after_put(self.cache, pc, BBCacheEntry::Compiled(bb)),
                            buffer: self.buffer.placed(len),
                            ..asked
                        },
                        cpu: t.cpu,
                        stats: stats.translated(t.cnt as u64, t.stop),
                        block: Some(bb),
                        code: Some(t.bytes()),
                    }
                }
            },
        }
    }

    /// Whether there is room for one more block.
    pub open spec fn has_room(self) -> bool {
        self.buffer.used + super::jit_buffer::JIT_BUFFER_SIZE <= usize::MAX
            && self.buffer.cursors.len() < usize::MAX
    }
}

proof fn lemma_translation_count(
    s: CpuState,
    gen: GenState,
    around: Surroundings,
    ialign: u64,
    addr: u64,
    cnt: nat,
)
    requires
        cnt <= MAX_BASIC_BLOCK_INSTRS,
    ensures
        cnt <= translation(s, gen, around, ialign, addr, cnt).cnt <= MAX_BASIC_BLOCK_INSTRS,
    decreases MAX_BASIC_BLOCK_INSTRS - cnt,
{
    if cnt < MAX_BASIC_BLOCK_INSTRS {
        let (cpu, found) = s.instr_decoded(addr);
        if let Ok(d) = found {
            let info = JitInfo {
                instr_pc: addr,
                instr_cnt: cnt as u64,
                instr_len: d.len,
                ialign,
            };
            let (next, result) = gen.instruction(around, d.instr, d.info, info);
            if result == TranslateResult::Continue {
                lemma_translation_count(
                    cpu,
                    next,
                    around,
                    ialign,
                    Width::W64.wrap(addr + d.len),
                    cnt + 1,
                );
            }
        }
    }
}

/// A block has at most as many instructions as blocks have.
pub proof fn law_blocks_are_bounded(s: CpuState, around: Surroundings, addr: u64)
    ensures
        Translation::of(s, around, addr).cnt <= MAX_BASIC_BLOCK_INSTRS,
{
    lemma_translation_count(s, fresh(), around, s.ialign(), addr, 0);
}

/// The blocks.
pub struct BasicBlockManager {
    pub cache: Cache<BBCache>,
    pub jit_buffer: JitBuffer,
}

impl View for BasicBlockManager {
    type V = BlocksModel;

    open spec fn view(&self) -> BlocksModel {
        BlocksModel {
            cache: self.cache.model(),
            hits: self.cache.hit_count,
            accesses: self.cache.access_count,
            buffer: self.jit_buffer@,
        }
    }
}

proof fn lemma_cache_parameters()
    ensures
        BBCache::parameters_ok(),
{
    assert(4096usize & 4095usize == 0 && 8usize & 7usize == 0) by (bit_vector);
}

impl BasicBlockManager {
    pub open spec fn wf(&self) -> bool {
        self.cache.wf() && self.jit_buffer@.valid()
    }

    /// No block is known.
    pub fn new() -> (r: BasicBlockManager)
        ensures
            r.wf(),
            r@ == (BlocksModel {
                cache: BBCache::empty(),
                hits: 0,
                accesses: 0,
                buffer: BufferModel { cursors: seq![0usize], current: 0, used: 0, peak: 0 },
            }),
    {
        proof {
            lemma_cache_parameters();
        }
        BasicBlockManager { cache: Cache::new(), jit_buffer: JitBuffer::new() }
    }

    /// Gives up all blocks.
    pub fn clear(&mut self)
        requires
            old(self).wf(),
        ensures
            final(self).wf(),
            final(self)@ == old(self)@.cleared(),
    {
        self.cache.clear();
        self.jit_buffer.reset();
    }

    /// How often a block was known.
    pub fn hit_count(&self) -> (r: u64)
        ensures
            r == self@.hits,
    {
        self.cache.hit_count()
    }

    /// How often a block was asked for.
    pub fn access_count(&self) -> (r: u64)
        ensures
            r == self@.accesses,
    {
        self.cache.access_count()
    }

    /// Translates the block at an address, if it has an instruction that can be translated.
    pub fn translate(
        cpu: &mut RVCPU,
        around: Surroundings,
        stats: &mut Stats,
        addr: u64,
    ) -> (r: Option<
        RawBasicBlock,
    >)
        requires
            old(cpu).wf(),
            old(stats)@.valid(),
        ensures
            final(cpu).wf(),
            final(stats)@.valid(),
            final(cpu)@ == Translation::of(old(cpu)@, around, addr).cpu,
            ({
                let t = Translation::of(old(cpu)@, around, addr);
                match r {
                    Some(block) => {
                        &&& t.cnt > 0
                        &&& block.instr_cnt == t.cnt
                        &&& block.buf@ == t.bytes()
                        &&& 0 < block.buf@.len() <= super::jit_buffer::JIT_BUFFER_SIZE
                        &&& final(stats)@ == old(stats)@.translated(t.cnt as u64, t.stop)
                    },
                    None => t.cnt == 0 && final(stats)@ == old(stats)@,
                }
            }),
    {
        let ialign: u64 = cpu.instruction_alignment();
        let mut code_gen = X86CodeGen::new(around.jit_context, around.helpers);
        assert(code_gen@.table =~= fresh().table);
        let mut instr_cnt: u64 = 0;
        let mut addr: u64 = addr;
        let mut stop = TranslationStop::InstructionLimit;
        let ghost whole = Translation::of(cpu@, around, addr);
        let mut going = true;
        while going && instr_cnt < MAX_BASIC_BLOCK_INSTRS
            invariant
                instr_cnt <= MAX_BASIC_BLOCK_INSTRS,
                cpu.wf(),
                code_gen.wf(),
                code_gen@.idle(),
                code_gen.around == around,
                stats@ == old(stats)@,
                code_gen@.code.len() <= super::translator::CODE_PER_INSTR * instr_cnt,
                going ==> stop == TranslationStop::InstructionLimit,
                whole == if going {
                    translation(cpu@, code_gen@, around, ialign, addr, instr_cnt as nat)
                } else {
                    Translation { cpu: cpu@, gen: code_gen@, addr, cnt: instr_cnt as nat, stop }
                },
            decreases
                MAX_BASIC_BLOCK_INSTRS - instr_cnt,
                if going {
                    1int
                } else {
                    0
                },
        {
            match cpu.decode_at(addr) {
                None => {
                    stop = TranslationStop::DecodeFailure;
                    going = false;
                },
                Some(decoded) => {
                    let info = JitInfo {
                        instr_pc: addr,
                        instr_cnt,
                        instr_len: decoded.len,
                        ialign,
                    };
                    match code_gen.translate(decoded, info) {
                        TranslateResult::Continue => {
                            instr_cnt = instr_cnt + 1;
                            addr = utils::add64(addr, decoded.len);
                        },
                        TranslateResult::ControlFlow => {
                            instr_cnt = instr_cnt + 1;
                            addr = utils::add64(addr, decoded.len);
                            stop = TranslationStop::ControlFlow;
                            going = false;
                        },
                        TranslateResult::Unsupported => {
                            stop = TranslationStop::UnsupportedInstruction(decoded.instr);
                            going = false;
                        },
                    }
                },
            }
        }
        if instr_cnt == 0 {
            return None;
        }
        stats.record_translation(instr_cnt, stop);
        let next_pc = match stop {
            TranslationStop::ControlFlow => None,
            _ => Some(addr),
        };
        Some(RawBasicBlock { instr_cnt, buf: code_gen.build(next_pc) })
    }

    /// The block at the program counter, and its bytes if it is new.
    pub fn get_or_translate(
        &mut self,
        cpu: &mut RVCPU,
        around: Surroundings,
        stats: &mut Stats,
    ) -> (r: (
        Option<BasicBlock>,
        Option<Vec<u8>>,
    ))
        requires
            old(self).wf(),
            old(cpu).wf(),
            old(stats)@.valid(),
            old(self)@.has_room(),
        ensures
            final(self).wf(),
            final(cpu).wf(),
            final(stats)@.valid(),
            ({
                let l = old(self)@.looked_up(old(cpu)@, old(stats)@, around);
                &&& final(self)@ == l.blocks
                &&& final(cpu)@ == l.cpu
                &&& final(stats)@ == l.stats
                &&& r.0 == l.block
                &&& match r.1 {
                    Some(bytes) => l.code == Some(bytes@),
                    None => l.code is None,
                }
            }),
    {
        let pc: u64 = cpu.context.pc;
        let ghost s = cpu@;
        match self.cache.get(pc) {
            Some(BBCacheEntry::Compiled(bb)) => {
                stats.record_compiled_cache_hit();
                return (Some(bb), None);
            },
            Some(BBCacheEntry::InterpreterOnly) => {
                return (None, None);
            },
            None => {},
        }
        match BasicBlockManager::translate(cpu, around, stats, pc) {
            None => {
                self.cache.put(pc, BBCacheEntry::InterpreterOnly);
                (None, None)
            },
            Some(raw) => {
                let func = self.jit_buffer.emit_code(raw.buf.as_slice());
                let bb = BasicBlock { instr_cnt: raw.instr_cnt, func };
                self.cache.put(pc, BBCacheEntry::Compiled(bb));
                (Some(bb), Some(raw.buf))
            },
        }
    }
}

/// The engine as plain values.
pub struct EngineModel {
    pub blocks: BlocksModel,
    pub icache_epoch: u64,
    pub stats: StatsModel,
    pub context: JitContext,
}

/// What happens next in a batch.
pub struct NextModel {
    pub engine: EngineModel,
    pub cpu: CpuState,
    /// The block that runs next, if the batch is not over.
    pub block: Option<BasicBlock>,
    /// Where a block that is new goes, and its bytes. It may be one that does not run yet.
    pub code: Option<(CodeLocation, Seq<u8>)>,
}

/// The bytes of a block with where they go.
pub open spec fn placed(bb: BasicBlock, code: Option<Seq<u8>>) -> Option<(CodeLocation, Seq<u8>)> {
    match code {
        Some(bytes) => Some((bb.func, bytes)),
        None => None,
    }
}

impl EngineModel {
    /// The engine after blocks of code that may have changed are given up.
    pub open spec fn synced(self, s: CpuState) -> EngineModel {
        if s.icache_epoch == self.icache_epoch {
            self
        } else {
            EngineModel {
                blocks: self.blocks.cleared(),
                icache_epoch: s.icache_epoch,
                ..self
            }
        }
    }

    /// The engine after cycles are spent.
    pub open spec fn spent(self, cycles: u64) -> EngineModel {
        EngineModel {
            context: JitContext {
                remaining_cycles: (self.context.remaining_cycles - cycles) as u64,
                ..self.context
            },
            ..self
        }
    }

    /// The engine after the block at the program counter is looked up.
    pub open spec fn with_lookup(self, l: Lookup) -> EngineModel {
        EngineModel { blocks: l.blocks, stats: l.stats, ..self }
    }

    /// What happens next in a batch: instructions that have no block are interpreted, and so is
    /// the rest of the batch if the next block is longer than that.
    pub open spec fn next(self, s: CpuState, around: Surroundings) -> NextModel
        decreases self.context.remaining_cycles,
    {
        let remaining = self.context.remaining_cycles;
        if remaining == 0 {
            NextModel { engine: self, cpu: s, block: None, code: None }
        } else {
            let synced = self.synced(s);
            let l = synced.blocks.looked_up(s, synced.stats, around);
            let found = synced.with_lookup(l);
            match l.block {
                None => found.spent(1).next(l.cpu.ran(1), around),
                Some(bb) => if bb.instr_cnt > remaining {
                    NextModel {
                        engine: found.spent(remaining),
                        cpu: l.cpu.ran(remaining as nat),
                        block: None,
                        code: placed(bb, l.code),
                    }
                } else {
                    NextModel {
                        engine: found,
                        cpu: l.cpu,
                        block: Some(bb),
                        code: placed(bb, l.code),
                    }
                },
            }
        }
    }

    /// The engine after a block ran.
    pub open spec fn ran_block(self, bb: BasicBlock) -> EngineModel {
        let spent = self.spent(bb.instr_cnt);
        EngineModel { stats: spent.stats.executed(bb.instr_cnt), ..spent }
    }

    /// The engine after an exception left a block.
    pub open spec fn left_block(self) -> EngineModel {
        let count = self.context.icount;
        let spent = self.spent((count + 1) as u64);
        EngineModel {
            stats: spent.stats.left_by(count, (self.context.exception->0).0).executed(count),
            context: JitContext { exception: None, ..spent.context },
            ..spent
        }
    }
}

/// A batch never runs a block that is longer than what is left of it, and it is over when nothing
/// is left.
pub proof fn law_batch_is_not_overrun(e: EngineModel, s: CpuState, around: Surroundings)
    ensures
        ({
            let n = e.next(s, around);
            &&& n.engine.context.remaining_cycles <= e.context.remaining_cycles
            &&& match n.block {
                Some(bb) => bb.instr_cnt <= n.engine.context.remaining_cycles,
                None => n.engine.context.remaining_cycles == 0,
            }
        }),
    decreases e.context.remaining_cycles,
{
    if e.context.remaining_cycles > 0 {
        let synced = e.synced(s);
        let l = synced.blocks.looked_up(s, synced.stats, around);
        if l.block is None {
            law_batch_is_not_overrun(synced.with_lookup(l).spent(1), l.cpu.ran(1), around);
        }
    }
}

/// After the instruction cache of the hart is emptied, no block from before is used again.
pub proof fn law_stale_blocks_are_dropped(e: EngineModel, s: CpuState, pc: u64)
    requires
        s.icache_epoch != e.icache_epoch,
    ensures
        BBCache::lookup(e.synced(s).blocks.cache, pc) is None,
        e.synced(s).icache_epoch == s.icache_epoch,
{
    lemma_cache_parameters();
    BBCache::law_never_invents(
        BBCache::empty(),
        pc,
        BBCacheEntry::InterpreterOnly,
        pc,
        BBCacheEntry::InterpreterOnly,
    );
}

/// Decides what is translated and what is interpreted. Running the blocks is left to the caller:
/// it calls [`RvJitEngine::next`], places the bytes of a new block where they go, calls the
/// block, and reports how it ended.
pub struct RvJitEngine {
    pub basic_blocks: BasicBlockManager,
    pub icache_epoch: u64,
    pub stats: Stats,
    pub context: JitContext,
}

impl View for RvJitEngine {
    type V = EngineModel;

    open spec fn view(&self) -> EngineModel {
        EngineModel {
            blocks: self.basic_blocks@,
            icache_epoch: self.icache_epoch,
            stats: self.stats@,
            context: self.context,
        }
    }
}

impl RvJitEngine {
    pub open spec fn wf(&self) -> bool {
        self.basic_blocks.wf() && self.stats@.valid()
    }

    /// Nothing has run.
    pub fn new() -> (r: RvJitEngine)
        ensures
            r.wf(),
            r.icache_epoch == 0,
            r@.stats == StatsModel::none(),
            r@.blocks == (BlocksModel {
                cache: BBCache::empty(),
                hits: 0,
                accesses: 0,
                buffer: BufferModel { cursors: seq![0usize], current: 0, used: 0, peak: 0 },
            }),
            r.context == (JitContext {
                guest_pc: 0,
                icount: 0,
                remaining_cycles: 0,
                exception: None,
            }),
    {
        RvJitEngine {
            basic_blocks: BasicBlockManager::new(),
            icache_epoch: 0,
            stats: Stats::new(),
            context: JitContext::new(),
        }
    }

    /// Gives up the blocks if the code that they came from may have changed.
    pub fn sync_icache_epoch(&mut self, cpu: &RVCPU)
        requires
            old(self).wf(),
        ensures
            final(self).wf(),
            final(self)@ == old(self)@.synced(cpu@),
    {
        let epoch: u64 = cpu.icache_epoch();
        if epoch != self.icache_epoch {
            self.basic_blocks.clear();
            self.icache_epoch = epoch;
        }
    }

    fn consume_cycles(&mut self, cycles: u64)
        requires
            cycles <= old(self).context.remaining_cycles,
        ensures
            final(self)@ == old(self)@.spent(cycles),
            final(self).wf() == old(self).wf(),
    {
        self.context.remaining_cycles = self.context.remaining_cycles - cycles;
    }

    fn run_interpreter(&mut self, cpu: &mut RVCPU, cycles: u64)
        requires
            old(self).wf(),
            old(cpu).wf(),
            cycles <= old(self).context.remaining_cycles,
        ensures
            final(self).wf(),
            final(cpu).wf(),
            final(self)@ == old(self)@.spent(cycles),
            final(cpu)@ == old(cpu)@.ran(cycles as nat),
    {
        cpu.step_batch_no_interrupt(cycles);
        self.consume_cycles(cycles);
    }

    /// Begins a batch. An interrupt that waits is taken first.
    pub fn begin(&mut self, cpu: &mut RVCPU, cycles: u64)
        requires
            old(self).wf(),
            old(cpu).wf(),
        ensures
            final(self).wf(),
            final(cpu).wf(),
            cycles == 0 ==> final(cpu)@ == old(cpu)@ && final(self)@ == (EngineModel {
                context: JitContext { remaining_cycles: 0, ..old(self).context },
                ..old(self)@
            }),
            cycles > 0 ==> {
                let taken = old(cpu)@.csr.next_interrupt() is Some;
                &&& final(cpu)@ == if taken {
                    old(cpu)@.interrupt_taken().cycled(1)
                } else {
                    old(cpu)@
                }
                &&& final(self)@ == (EngineModel {
                    context: JitContext {
                        remaining_cycles: if taken {
                            (cycles - 1) as u64
                        } else {
                            cycles
                        },
                        ..old(self).context
                    },
                    ..old(self)@
                })
            },
    {
        self.context.remaining_cycles = cycles;
        if cycles == 0 {
            return;
        }
        if cpu.try_take_pending_interrupt() {
            self.consume_cycles(1);
        }
    }

    /// What happens next in a batch. Gives the block that runs next, if the batch is not over, and
    /// the bytes of a block that is new with where they go.
    pub fn next(&mut self, cpu: &mut RVCPU, around: Surroundings) -> (r: (
        Option<BasicBlock>,
        Option<(CodeLocation, Vec<u8>)>,
    ))
        requires
            old(self).wf(),
            old(cpu).wf(),
            old(self)@.blocks.has_room(),
        ensures
            final(self).wf(),
            final(cpu).wf(),
            ({
                let n = old(self)@.next(old(cpu)@, around);
                &&& final(self)@ == n.engine
                &&& final(cpu)@ == n.cpu
                &&& r.0 == n.block
                &&& match r.1 {
                    Some((at, bytes)) => n.code == Some((at, bytes@)),
                    None => n.code is None,
                }
            }),
    {
        while self.context.remaining_cycles > 0
            invariant
                self.wf(),
                cpu.wf(),
                self@.blocks.has_room(),
                self@.next(cpu@, around) == old(self)@.next(old(cpu)@, around),
            decreases self.context.remaining_cycles,
        {
            let ghost before = self@;
            let ghost s = cpu@;
            self.sync_icache_epoch(cpu);
            let ghost synced = self@;
            let (block, bytes) = self.basic_blocks.get_or_translate(cpu, around, &mut self.stats);
            assert(self@ == synced.with_lookup(
                synced.blocks.looked_up(s, synced.stats, around),
            ));
            match block {
                None => {
                    self.run_interpreter(cpu, 1);
                },
                Some(bb) => {
                    let code = match bytes {
                        Some(bytes) => Some((bb.func, bytes)),
                        None => None,
                    };
                    let remaining: u64 = self.context.remaining_cycles;
                    if bb.instr_cnt > remaining {
                        self.run_interpreter(cpu, remaining);
                        return (None, code);
                    }
                    return (Some(bb), code);
                },
            }
        }
        (None, None)
    }

    /// Counts a block that ran to its end.
    pub fn finish_block(&mut self, cpu: &mut RVCPU, bb: BasicBlock, next_pc: u64)
        requires
            old(self).wf(),
            old(cpu).wf(),
            bb.instr_cnt <= old(self).context.remaining_cycles,
        ensures
            final(self).wf(),
            final(cpu).wf(),
            final(cpu)@ == old(cpu)@.block_finished(next_pc, bb.instr_cnt, None),
            final(self)@ == old(self)@.ran_block(bb),
    {
        cpu.finish_jit_block(next_pc, bb.instr_cnt, None);
        self.consume_cycles(bb.instr_cnt);
        self.stats.record_execution(bb.instr_cnt);
    }

    /// Counts a block that an exception left, and takes the exception.
    pub fn handle_exception_exit(&mut self, cpu: &mut RVCPU)
        requires
            old(self).wf(),
            old(cpu).wf(),
            old(self).context.exception is Some,
            old(self).context.icount < old(self).context.remaining_cycles,
        ensures
            final(self).wf(),
            final(cpu).wf(),
            final(cpu)@ == old(cpu)@.block_finished(
                old(self).context.guest_pc,
                old(self).context.icount,
                old(self).context.exception,
            ),
            final(self)@ == old(self)@.left_block(),
    {
        if let Some((exception, tval)) = self.context.exception {
            let instr_count: u64 = self.context.icount;
            self.context.exception = None;
            self.consume_cycles(instr_count + 1);
            self.stats.record_exception_exit(instr_count, exception);
            self.stats.record_execution(instr_count);
            cpu.finish_jit_block(self.context.guest_pc, instr_count, Some((exception, tval)));
        }
    }
}

} // verus!
