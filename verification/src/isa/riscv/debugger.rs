//! The debugger.
use std::collections::VecDeque;

use vstd::prelude::*;
use vstd::string::*;

use crate::board::{Board, BoardStatus, HookedBoard};
use crate::device::MemError;
use crate::load;
use crate::fpu::bits::FloatFormat;
use crate::load::{SymTab, Symbol};
use crate::utils::Width;

use super::csr_reg::csr_index;
use super::csr_reg::file;
use super::csr_reg::file::CsrState;
use super::csr_reg::PrivilegeLevel;
use super::decoder::{DecodeInstr, RawInstr};
use super::executor::batch;
use super::executor::laws;
use super::executor::batch::{BatchResult, ExecutionHook, SeenCycle};
use super::executor::{CpuState, RVCPU};
use super::mmu::manager::{AccessType, Address};
use super::mmu::page_table::PageTableError;
use super::mmu::policy;
use super::vector::state;
use super::vector::types;

pub mod ftrace;
pub mod target;

use ftrace::{FtraceModel, FtraceState, FtraceStatsSnapshot, FuncTrace, TraceEntry};

verus! {

/// How many steps the history keeps.
pub const MAX_HISTORY: usize = 1024;

/// Why the debugger stopped.
#[derive(Debug, Clone, Copy, PartialEq, Eq, Structural)]
pub enum DebugEvent {
    StepCompleted,
    BreakpointHit,
    BoardHalted,
}

/// What went wrong.
#[derive(Debug)]
pub enum DebugError {
    MemoryError(MemError),
    CSRNotExist(u64),
    SymbolNotFound(String),
    NoSymbolTable,
}

impl From<MemError> for DebugError {
    fn from(e: MemError) -> (r: DebugError) {
        DebugError::MemoryError(e)
    }
}

impl vstd::std_specs::convert::FromSpecImpl<MemError> for DebugError {
    open spec fn obeys_from_spec() -> bool {
        true
    }

    open spec fn from_spec(e: MemError) -> DebugError {
        DebugError::MemoryError(e)
    }
}

/// A place to stop at.
#[derive(Debug, Clone, Copy, PartialEq, Eq, Structural)]
pub struct Breakpoint {
    pub id: usize,
    pub addr: Address,
}

/// A step of the history: where it was and what was there.
pub type HistoryEntry = (u64, Option<RawInstr>);

/// What is carried from before a cycle to after it.
#[derive(Debug, Clone, Copy, PartialEq, Eq, Structural)]
pub struct DebugCycle {
    pub pc: u64,
    pub raw_instr: Option<RawInstr>,
    pub decoded_instr: Option<DecodeInstr>,
}

/// What the debugger keeps about the steps, as plain values.
#[verifier::ext_equal]
pub struct HookModel {
    pub breakpoints: Seq<Breakpoint>,
    pub history: Seq<HistoryEntry>,
    pub ftrace: FtraceModel,
    pub symtab: Option<Seq<Symbol>>,
}

/// What the debugger keeps about the steps.
pub struct DebuggerExecutionHook {
    pub breakpoints: Vec<Breakpoint>,
    pub history: VecDeque<HistoryEntry>,
    pub ftrace: FtraceState,
    pub symtab: Option<SymTab>,
}

impl View for DebuggerExecutionHook {
    type V = HookModel;

    open spec fn view(&self) -> HookModel {
        HookModel {
            breakpoints: self.breakpoints@,
            history: self.history@,
            ftrace: self.ftrace@,
            symtab: load::symtab_view(self.symtab),
        }
    }
}

/// Whether there is a breakpoint at an address.
pub open spec fn has_breakpoint(breakpoints: Seq<Breakpoint>, addr: Address) -> bool {
    exists|i: int| 0 <= i < breakpoints.len() && (#[trigger] breakpoints[i]).addr == addr
}

/// Whether a hart stands at a breakpoint: one at its virtual address, or one at the physical
/// address behind it.
pub open spec fn stands_at_breakpoint(breakpoints: Seq<Breakpoint>, s: CpuState) -> bool {
    ||| has_breakpoint(breakpoints, Address::Virt(s.pc))
    ||| match s.vm.debug_translated(s.pc) {
        Ok(paddr) => has_breakpoint(breakpoints, Address::Phys(paddr)),
        Err(_) => false,
    }
}

fn find_breakpoint(breakpoints: &Vec<Breakpoint>, addr: Address) -> (r: bool)
    ensures
        r == has_breakpoint(breakpoints@, addr),
{
    let mut i: usize = 0;
    while i < breakpoints.len()
        invariant
            i <= breakpoints.len(),
            forall|j: int| 0 <= j < i ==> (#[trigger] breakpoints@[j]).addr != addr,
        decreases breakpoints.len() - i,
    {
        if breakpoints[i].addr == addr {
            return true;
        }
        i = i + 1;
    }
    false
}

/// Whether a hart stands at a breakpoint.
pub fn cpu_on_breakpoint(breakpoints: &Vec<Breakpoint>, cpu: &mut RVCPU) -> (r: bool)
    requires
        old(cpu).wf(),
    ensures
        final(cpu).wf(),
        final(cpu)@ == old(cpu)@,
        r == stands_at_breakpoint(breakpoints@, old(cpu)@),
{
    let pc: u64 = cpu.read_pc();
    if find_breakpoint(breakpoints, Address::Virt(pc)) {
        return true;
    }
    match cpu.debug_vaddr_to_paddr(pc) {
        Ok(paddr) => find_breakpoint(breakpoints, Address::Phys(paddr)),
        Err(_) => false,
    }
}

impl HookModel {
    /// What is there before a step.
    pub open spec fn looked(s: CpuState) -> DebugCycle {
        let raw = match s.looked_instr(s.pc) {
            Ok(raw) => Some(raw),
            Err(_) => None,
        };
        DebugCycle {
            pc: s.pc,
            raw_instr: raw,
            decoded_instr: match raw {
                Some(raw) => s.decoder.decoded(raw),
                None => None,
            },
        }
    }

    /// What the debugger keeps after a step that led to `s`.
    pub open spec fn noted(self, cycle: DebugCycle, s: CpuState) -> HookModel {
        HookModel {
            history: if self.history.len() == MAX_HISTORY {
                self.history.skip(1).push((cycle.pc, cycle.raw_instr))
            } else {
                self.history.push((cycle.pc, cycle.raw_instr))
            },
            ftrace: self.ftrace.followed(self.symtab, cycle.decoded_instr, s.pc),
            ..self
        }
    }
}

impl ExecutionHook for DebuggerExecutionHook {
    type CycleContext = DebugCycle;

    type Model = HookModel;

    open spec fn model(&self) -> HookModel {
        self@
    }

    open spec fn before(m: HookModel, s: CpuState) -> (HookModel, CpuState, DebugCycle) {
        (m, s, HookModel::looked(s))
    }

    open spec fn interrupted(m: HookModel, pc: u64) -> (HookModel, DebugCycle) {
        (m, DebugCycle { pc, raw_instr: None, decoded_instr: None })
    }

    open spec fn after(m: HookModel, context: DebugCycle, s: CpuState) -> (
        HookModel,
        CpuState,
        bool,
    ) {
        (m.noted(context, s), s, stands_at_breakpoint(m.breakpoints, s))
    }

    fn before_step(&mut self, cpu: &mut RVCPU) -> (r: DebugCycle) {
        let pc: u64 = cpu.read_pc();
        let raw_instr = match cpu.read_instr(pc) {
            Ok(raw) => Some(raw),
            Err(_) => None,
        };
        let decoded_instr = match raw_instr {
            Some(raw) => cpu.decoded_instr(raw),
            None => None,
        };
        DebugCycle { pc, raw_instr, decoded_instr }
    }

    fn on_interrupt_taken(&mut self, interrupted_pc: u64) -> (r: DebugCycle) {
        DebugCycle { pc: interrupted_pc, raw_instr: None, decoded_instr: None }
    }

    fn after_step(&mut self, context: DebugCycle, cpu: &mut RVCPU) -> (r: bool) {
        let ghost before = self@;
        if self.history.len() == MAX_HISTORY {
            let _ = self.history.pop_front();
            assert(self.history@ =~= before.history.skip(1));
        }
        self.history.push_back((context.pc, context.raw_instr));
        if self.ftrace.enabled() {
            match ftrace::ftrace_for_step(&self.symtab, context.decoded_instr, cpu.read_pc()) {
                Some(trace) => {
                    self.ftrace.record(trace);
                },
                None => {},
            }
        }
        cpu_on_breakpoint(&self.breakpoints, cpu)
    }
}

/// Running under the debugger does not change what is executed.
pub proof fn law_debugger_only_watches()
    ensures
        batch::only_watches::<DebuggerExecutionHook>(),
{
}

/// The history never grows beyond its bound, and keeps the latest steps.
pub proof fn law_history_is_bounded(m: HookModel, cycle: DebugCycle, s: CpuState)
    requires
        m.history.len() <= MAX_HISTORY,
    ensures
        m.noted(cycle, s).history.len() <= MAX_HISTORY,
        m.noted(cycle, s).history == ftrace::bounded_push(
            m.history,
            (cycle.pc, cycle.raw_instr),
            MAX_HISTORY as int,
        ),
{
    assert(m.noted(cycle, s).history =~= ftrace::bounded_push(
        m.history,
        (cycle.pc, cycle.raw_instr),
        MAX_HISTORY as int,
    ));
}

/// A board under the debugger.
pub struct Debugger<B: HookedBoard<DebuggerExecutionHook>> {
    pub board: B,
    pub hook: DebuggerExecutionHook,
}

/// A lower-case hexadecimal digit.
pub open spec fn hex_digit(d: int) -> char {
    seq!['0', '1', '2', '3', '4', '5', '6', '7', '8', '9', 'a', 'b', 'c', 'd', 'e', 'f'][d]
}

/// The last `n` hexadecimal digits of a number.
pub open spec fn hex_digits(v: int, n: nat) -> Seq<char>
    decreases n,
{
    if n == 0 {
        Seq::empty()
    } else {
        hex_digits(v / 16, (n - 1) as nat).push(hex_digit(v % 16))
    }
}

/// How many hexadecimal digits an address is written with: at least eight.
pub open spec fn hex_width(v: u64) -> nat {
    if v < 0x1_0000_0000 {
        8
    } else if v < 0x10_0000_0000 {
        9
    } else if v < 0x100_0000_0000 {
        10
    } else if v < 0x1000_0000_0000 {
        11
    } else if v < 0x1_0000_0000_0000 {
        12
    } else if v < 0x10_0000_0000_0000 {
        13
    } else if v < 0x100_0000_0000_0000 {
        14
    } else if v < 0x1000_0000_0000_0000 {
        15
    } else {
        16
    }
}

/// What the error of a lookup by address says.
pub open spec fn not_found_message(addr: u64) -> Seq<char> {
    "Function at address 0x"@ + hex_digits(addr as int, hex_width(addr)) + " not found"@
}

fn digit_text(d: u64) -> (r: &'static str)
    requires
        d < 16,
    ensures
        r@ == seq![hex_digit(d as int)],
{
    proof {
        reveal_strlit("0");
        reveal_strlit("1");
        reveal_strlit("2");
        reveal_strlit("3");
        reveal_strlit("4");
        reveal_strlit("5");
        reveal_strlit("6");
        reveal_strlit("7");
        reveal_strlit("8");
        reveal_strlit("9");
        reveal_strlit("a");
        reveal_strlit("b");
        reveal_strlit("c");
        reveal_strlit("d");
        reveal_strlit("e");
        reveal_strlit("f");
    }
    let text: &'static str = match d {
        0 => "0",
        1 => "1",
        2 => "2",
        3 => "3",
        4 => "4",
        5 => "5",
        6 => "6",
        7 => "7",
        8 => "8",
        9 => "9",
        10 => "a",
        11 => "b",
        12 => "c",
        13 => "d",
        14 => "e",
        _ => "f",
    };
    assert(text@ =~= seq![hex_digit(d as int)]);
    text
}

fn append_hex(text: &mut String, v: u64, n: usize)
    ensures
        final(text)@ == old(text)@ + hex_digits(v as int, n as nat),
    decreases n,
{
    if n > 0 {
        append_hex(text, v / 16, n - 1);
        text.append(digit_text(v % 16));
        assert(text@ =~= old(text)@ + hex_digits(v as int, n as nat));
    } else {
        assert(text@ =~= old(text)@ + hex_digits(v as int, 0));
    }
}

fn describe_not_found(addr: u64) -> (r: String)
    ensures
        r@ == not_found_message(addr),
{
    let n: usize = if addr < 0x1_0000_0000 {
        8
    } else if addr < 0x10_0000_0000 {
        9
    } else if addr < 0x100_0000_0000 {
        10
    } else if addr < 0x1000_0000_0000 {
        11
    } else if addr < 0x1_0000_0000_0000 {
        12
    } else if addr < 0x10_0000_0000_0000 {
        13
    } else if addr < 0x100_0000_0000_0000 {
        14
    } else if addr < 0x1000_0000_0000_0000 {
        15
    } else {
        16
    };
    let mut text: String = "Function at address 0x".to_owned();
    append_hex(&mut text, addr, n);
    text.append(" not found");
    text
}

/// The event that a run ends with.
pub open spec fn event_of(r: BatchResult, halted: bool) -> DebugEvent {
    if r.hook_stopped {
        DebugEvent::BreakpointHit
    } else if halted {
        DebugEvent::BoardHalted
    } else {
        DebugEvent::StepCompleted
    }
}

/// How a lookup by address ends.
pub open spec fn lookup_result(
    symtab: Option<Seq<Symbol>>,
    addr: u64,
    found: Option<Seq<char>>,
    r: Result<&String, DebugError>,
) -> bool {
    match (symtab, found) {
        (None, _) => r is Err && r->Err_0 is NoSymbolTable,
        (Some(_), Some(name)) => r is Ok && r->Ok_0@ == name,
        (Some(_), None) => r matches Err(DebugError::SymbolNotFound(text)) && text@
            == not_found_message(addr),
    }
}

/// What one round of a run in batches comes to.
#[derive(Debug, Clone, Copy, PartialEq, Eq, Structural)]
pub enum BatchCheck {
    /// The run is over.
    Ended(DebugEvent),
    /// The run is paused.
    Paused,
    /// Another round is due.
    GoOn,
}

/// How many steps a round of a run in batches has.
pub const BATCH_STEPS: u64 = 1024;

impl<B: HookedBoard<DebuggerExecutionHook>> Debugger<B> {
    pub open spec fn wf(&self) -> bool {
        self.board.wf()
    }

    /// Whether a run of up to `max_steps` steps may lead from one state to another and end so.
    pub open spec fn may_continue(
        before: Self,
        max_steps: u64,
        after: Self,
        event: DebugEvent,
        steps: u64,
    ) -> bool {
        if max_steps == 0 {
            after == before && event == DebugEvent::StepCompleted && steps == 0
        } else if before.board.halted() {
            after == before && event == DebugEvent::BoardHalted && steps == 0
        } else {
            exists|r: BatchResult, seen: Seq<SeenCycle>|
                {
                    &&& #[trigger] Self::may_end(before, max_steps, after, r, seen)
                    &&& event == event_of(r, after.board.halted())
                    &&& steps == r.cycles
                }
        }
    }

    /// Whether a run of up to `max_steps` steps, in which the debugger saw some cycles, may end so.
    pub open spec fn may_end(
        before: Self,
        max_steps: u64,
        after: Self,
        r: BatchResult,
        seen: Seq<SeenCycle>,
    ) -> bool {
        &&& B::may_run(before.board, before.hook@, max_steps, after.board, after.hook@, r, seen)
        &&& r.cycles <= max_steps
        &&& !r.hook_stopped && !after.board.halted() ==> r.cycles == max_steps
        &&& seen.len() == r.cycles
        &&& batch::watched::<DebuggerExecutionHook>(
            before.hook@,
            before.board.hart(),
            seen,
            after.hook@,
            after.board.hart(),
            r.hook_stopped,
        )
    }

    /// The same debugger with a hart in another state.
    pub open spec fn only_hart_changed(before: Self, after: Self, hart: CpuState) -> bool {
        &&& after.wf()
        &&& after.board.hart() == hart
        &&& after.board.halted() == before.board.halted()
        &&& after.hook == before.hook
    }

    pub fn board(&self) -> (r: &B)
        ensures
            *r == self.board,
    {
        &self.board
    }

    pub fn board_mut(&mut self) -> (r: &mut B)
        ensures
            *r == old(self).board,
            final(self).board == *final(r),
            final(self).hook == old(self).hook,
    {
        &mut self.board
    }

    pub fn into_board(self) -> (r: B)
        ensures
            r == self.board,
    {
        self.board
    }

    /// A debugger without breakpoints, with the symbols that the board has.
    pub fn new(board: B) -> (r: Self)
        ensures
            r.board == board,
            r.hook@ == (HookModel {
                breakpoints: Seq::<Breakpoint>::empty(),
                history: Seq::<HistoryEntry>::empty(),
                ftrace: FtraceModel {
                    enabled: false,
                    queue: Seq::<TraceEntry>::empty(),
                    stats: ftrace::StatsState::none(),
                },
                symtab: board.symbols(),
            }),
    {
        let symtab = board.symbol_table();
        Debugger {
            board,
            hook: DebuggerExecutionHook {
                breakpoints: Vec::new(),
                history: VecDeque::with_capacity(MAX_HISTORY),
                ftrace: FtraceState::new(),
                symtab,
            },
        }
    }

    pub fn set_symbol_table(&mut self, symtab: SymTab)
        ensures
            final(self).board == old(self).board,
            final(self).hook@ == (HookModel { symtab: Some(symtab@), ..old(self).hook@ }),
    {
        self.hook.symtab = Some(symtab);
    }

    /// The latest `k` steps, the oldest first.
    pub fn pc_history(&self, k: usize) -> (r: Vec<HistoryEntry>)
        ensures
            r@ == ftrace::latest(self.hook@.history, k as int),
    {
        let n: usize = self.hook.history.len();
        let start: usize = if n > k {
            n - k
        } else {
            0
        };
        let mut out: Vec<HistoryEntry> = Vec::new();
        let mut i: usize = start;
        while i < n
            invariant
                start <= i <= n,
                n == self.hook.history@.len(),
                out@ =~= self.hook.history@.subrange(start as int, i as int),
            decreases n - i,
        {
            out.push(self.hook.history[i]);
            i = i + 1;
        }
        out
    }

    pub fn ftrace_start(&mut self)
        ensures
            final(self).board == old(self).board,
            final(self).hook@ == (HookModel { ftrace: FtraceModel::started(), ..old(self).hook@ }),
    {
        self.hook.ftrace.start();
    }

    pub fn ftrace_stop(&mut self)
        ensures
            final(self).board == old(self).board,
            final(self).hook@ == (HookModel {
                ftrace: FtraceModel { enabled: false, ..old(self).hook@.ftrace },
                ..old(self).hook@
            }),
    {
        self.hook.ftrace.stop();
    }

    pub fn ftrace_enabled(&self) -> (r: bool)
        ensures
            r == self.hook@.ftrace.enabled,
    {
        self.hook.ftrace.enabled()
    }

    /// The trace, the oldest entry first.
    pub fn ftrace_show(&self) -> (r: Vec<FuncTrace>)
        ensures
            ftrace::queue_view(r@) == self.hook@.ftrace.queue,
    {
        self.hook.ftrace.entries()
    }

    pub fn ftrace_stat(&self) -> (r: FtraceStatsSnapshot)
        ensures
            r.enabled == self.hook@.ftrace.enabled,
            r.queue_len == self.hook@.ftrace.queue.len(),
            r.stats() == self.hook@.ftrace.stats,
    {
        self.hook.ftrace.snapshot()
    }

    pub fn breakpoints(&self) -> (r: &Vec<Breakpoint>)
        ensures
            r@ == self.hook@.breakpoints,
    {
        &self.hook.breakpoints
    }

    pub fn symbol_table(&self) -> (r: Option<&SymTab>)
        ensures
            match r {
                Some(t) => self.hook@.symtab == Some(t@),
                None => self.hook@.symtab is None,
            },
    {
        match &self.hook.symtab {
            Some(t) => Some(t),
            None => None,
        }
    }

    /// The name of the function at an address.
    pub fn symbol_by_addr(&self, addr: u64) -> (r: Result<&String, DebugError>)
        ensures
            lookup_result(
                self.hook@.symtab,
                addr,
                ftrace::exact_name(self.hook@.symtab, addr),
                r,
            ),
    {
        match self.symbol_table() {
            None => Err(DebugError::NoSymbolTable),
            Some(t) => match t.func_name_by_addr(addr) {
                Some(name) => Ok(name),
                None => Err(DebugError::SymbolNotFound(describe_not_found(addr))),
            },
        }
    }

    /// The name of the function whose range an address lies in.
    pub fn symbol_in_addr_range(&self, addr: u64) -> (r: Result<&String, DebugError>)
        ensures
            lookup_result(
                self.hook@.symtab,
                addr,
                ftrace::range_name(self.hook@.symtab, addr),
                r,
            ),
    {
        match self.symbol_table() {
            None => Err(DebugError::NoSymbolTable),
            Some(t) => match t.func_name_in_addr_range(addr) {
                Some(name) => Ok(name),
                None => Err(DebugError::SymbolNotFound(describe_not_found(addr))),
            },
        }
    }

    /// The address of a function.
    pub fn addr_by_symbol(&self, func_name: &str) -> (r: Result<u64, DebugError>)
        ensures
            match self.hook@.symtab {
                None => r is Err && r->Err_0 is NoSymbolTable,
                Some(t) => match load::symbol_named(t, func_name@, t.len() as int) {
                    Some(i) => r is Ok && r->Ok_0 == t[i].1,
                    None => r matches Err(DebugError::SymbolNotFound(name)) && name@
                        == func_name@,
                },
            },
    {
        match self.symbol_table() {
            None => Err(DebugError::NoSymbolTable),
            Some(t) => match t.func_addr_by_name(func_name) {
                Some(addr) => Ok(addr),
                None => Err(DebugError::SymbolNotFound(func_name.to_owned())),
            },
        }
    }

    /// Sets a breakpoint. Says whether there was none yet.
    pub fn set_breakpoint(&mut self, addr: Address) -> (r: Result<bool, DebugError>)
        ensures
            r is Ok,
            r->Ok_0 == !has_breakpoint(old(self).hook@.breakpoints, addr),
            final(self).board == old(self).board,
            final(self).hook@ == if r->Ok_0 {
                HookModel {
                    breakpoints: old(self).hook@.breakpoints.push(
                        Breakpoint { id: old(self).hook.breakpoints.len(), addr },
                    ),
                    ..old(self).hook@
                }
            } else {
                old(self).hook@
            },
    {
        if find_breakpoint(&self.hook.breakpoints, addr) {
            return Ok(false);
        }
        let id: usize = self.hook.breakpoints.len();
        self.hook.breakpoints.push(Breakpoint { id, addr });
        Ok(true)
    }

    /// Removes a breakpoint. Says whether there was one.
    pub fn clear_breakpoint(&mut self, addr: Address) -> (r: Result<bool, DebugError>)
        ensures
            r is Ok,
            r->Ok_0 == has_breakpoint(old(self).hook@.breakpoints, addr),
            final(self).board == old(self).board,
            final(self).hook@ == (HookModel {
                breakpoints: without_breakpoint(old(self).hook@.breakpoints, addr),
                ..old(self).hook@
            }),
    {
        let ghost all = self.hook.breakpoints@;
        let n: usize = self.hook.breakpoints.len();
        let mut kept: Vec<Breakpoint> = Vec::new();
        let mut i: usize = 0;
        while i < n
            invariant
                i <= n,
                n == self.hook.breakpoints@.len(),
                all == self.hook.breakpoints@,
                *self == *old(self),
                kept@ == without_breakpoint(all.take(i as int), addr),
                kept@.len() <= i,
                (kept@.len() != i) == has_breakpoint(all.take(i as int), addr),
            decreases n - i,
        {
            let bp = self.hook.breakpoints[i];
            proof {
                assert(all.take(i + 1).drop_last() =~= all.take(i as int));
                lemma_has_breakpoint_push(all, i as int, addr);
            }
            if bp.addr != addr {
                kept.push(bp);
            }
            i = i + 1;
        }
        assert(all.take(n as int) =~= all);
        let changed = kept.len() != n;
        self.hook.breakpoints = kept;
        Ok(changed)
    }

    /// Whether the hart stands at a breakpoint.
    pub fn on_breakpoint(&mut self) -> (r: bool)
        requires
            old(self).wf(),
        ensures
            r == stands_at_breakpoint(old(self).hook@.breakpoints, old(self).board.hart()),
            Self::only_hart_changed(*old(self), *final(self), old(self).board.hart()),
    {
        cpu_on_breakpoint(&self.hook.breakpoints, self.board.cpu_mut())
    }

    /// Runs one step.
    pub fn step(&mut self) -> (r: Result<DebugEvent, DebugError>)
        requires
            old(self).wf(),
        ensures
            final(self).wf(),
            r is Ok,
            exists|event: DebugEvent, steps: u64|
                #[trigger] Self::may_continue(*old(self), 1, *final(self), event, steps)
                    && r->Ok_0 == event,
            r->Ok_0 == DebugEvent::BreakpointHit ==> stands_at_breakpoint(
                old(self).hook@.breakpoints,
                final(self).board.hart(),
            ),
    {
        match self.continue_until_step(1) {
            Ok((event, _)) => Ok(event),
            Err(e) => Err(e),
        }
    }

    /// Runs until a breakpoint is hit, `max_steps` steps are done or the board halts. Says which,
    /// and how many steps there were.
    pub fn continue_until_step(&mut self, max_steps: u64) -> (r: Result<
        (DebugEvent, u64),
        DebugError,
    >)
        requires
            old(self).wf(),
        ensures
            final(self).wf(),
            r is Ok,
            Self::may_continue(*old(self), max_steps, *final(self), r->Ok_0.0, r->Ok_0.1),
            r->Ok_0.1 <= max_steps,
            r->Ok_0.0 == DebugEvent::StepCompleted ==> r->Ok_0.1 == max_steps,
            r->Ok_0.0 == DebugEvent::BreakpointHit ==> r->Ok_0.1 > 0 && stands_at_breakpoint(
                old(self).hook@.breakpoints,
                final(self).board.hart(),
            ),
            final(self).hook@.breakpoints == old(self).hook@.breakpoints,
            final(self).hook@.symtab == old(self).hook@.symtab,
    {
        if max_steps == 0 {
            return Ok((DebugEvent::StepCompleted, 0));
        }
        if self.board.status() == BoardStatus::Halt {
            return Ok((DebugEvent::BoardHalted, 0));
        }
        let result = self.board.run_cycles_hooked(max_steps, &mut self.hook);
        proof {
            let seen = choose|seen: Seq<SeenCycle>|
                {
                    &&& #[trigger] B::may_run(
                        old(self).board,
                        old(self).hook@,
                        max_steps,
                        self.board,
                        self.hook@,
                        result,
                        seen,
                    )
                    &&& seen.len() == result.cycles
                    &&& batch::watched::<DebuggerExecutionHook>(
                        old(self).hook@,
                        old(self).board.hart(),
                        seen,
                        self.hook@,
                        self.board.hart(),
                        result.hook_stopped,
                    )
                };
            assert(Self::may_end(*old(self), max_steps, *self, result, seen));
            law_runs_stop_at_breakpoints(*old(self), max_steps, *self, result, seen);
        }
        let event = if result.hook_stopped {
            DebugEvent::BreakpointHit
        } else if self.board.status() == BoardStatus::Halt {
            DebugEvent::BoardHalted
        } else {
            DebugEvent::StepCompleted
        };
        Ok((event, result.cycles))
    }

    /// Runs until a breakpoint is hit or the board halts.
    pub fn continue_run(&mut self) -> (r: Result<(DebugEvent, u64), DebugError>)
        requires
            old(self).wf(),
        ensures
            final(self).wf(),
            r is Ok,
            Self::may_continue(*old(self), u64::MAX, *final(self), r->Ok_0.0, r->Ok_0.1),
            r->Ok_0.0 == DebugEvent::StepCompleted ==> r->Ok_0.1 == u64::MAX,
            r->Ok_0.0 == DebugEvent::BreakpointHit ==> r->Ok_0.1 > 0 && stands_at_breakpoint(
                old(self).hook@.breakpoints,
                final(self).board.hart(),
            ),
            final(self).hook@.breakpoints == old(self).hook@.breakpoints,
            final(self).hook@.symtab == old(self).hook@.symtab,
    {
        self.continue_until_step(u64::MAX)
    }

    /// One round of a run in batches: a board that halted ends it, a request pauses it, and else
    /// a batch runs, which ends it unless all its steps were done.
    pub fn continue_with_batch_check(&mut self, should_pause: bool) -> (r: Result<
        BatchCheck,
        DebugError,
    >)
        requires
            old(self).wf(),
        ensures
            final(self).wf(),
            r is Ok,
            if old(self).board.halted() {
                *final(self) == *old(self) && r->Ok_0 == BatchCheck::Ended(DebugEvent::BoardHalted)
            } else if should_pause {
                *final(self) == *old(self) && r->Ok_0 == BatchCheck::Paused
            } else {
                exists|event: DebugEvent, steps: u64|
                    {
                        &&& #[trigger] Self::may_continue(
                            *old(self),
                            BATCH_STEPS,
                            *final(self),
                            event,
                            steps,
                        )
                        &&& r->Ok_0 == if event == DebugEvent::StepCompleted {
                            BatchCheck::GoOn
                        } else {
                            BatchCheck::Ended(event)
                        }
                    }
            },
            r->Ok_0 == BatchCheck::Ended(DebugEvent::BreakpointHit) ==> stands_at_breakpoint(
                old(self).hook@.breakpoints,
                final(self).board.hart(),
            ),
    {
        if self.board.status() == BoardStatus::Halt {
            return Ok(BatchCheck::Ended(DebugEvent::BoardHalted));
        }
        if should_pause {
            return Ok(BatchCheck::Paused);
        }
        match self.continue_until_step(BATCH_STEPS) {
            Ok((event, _)) => if event == DebugEvent::StepCompleted {
                Ok(BatchCheck::GoOn)
            } else {
                Ok(BatchCheck::Ended(event))
            },
            Err(e) => Err(e),
        }
    }

    /// The instruction that comes next.
    pub fn next_instr(&mut self) -> (r: Option<RawInstr>)
        requires
            old(self).wf(),
        ensures
            r == ok_of(old(self).board.hart().looked_instr(old(self).board.hart().pc)),
            Self::only_hart_changed(*old(self), *final(self), old(self).board.hart()),
    {
        let pc: u64 = self.board.cpu().read_pc();
        self.read_instr(pc)
    }

    /// The physical address behind an address.
    pub fn unify_to_phys_addr(&mut self, addr: Address) -> (r: Option<u64>)
        requires
            old(self).wf(),
        ensures
            r == match addr {
                Address::Phys(paddr) => Some(paddr),
                Address::Virt(vaddr) => match old(self).board.hart().vm.debug_translated(vaddr) {
                    Ok(paddr) => Some(paddr),
                    Err(_) => None,
                },
            },
            Self::only_hart_changed(*old(self), *final(self), old(self).board.hart()),
    {
        match addr {
            Address::Phys(paddr) => Some(paddr),
            Address::Virt(vaddr) => match self.vaddr_to_paddr(vaddr) {
                Ok(paddr) => Some(paddr),
                Err(_) => None,
            },
        }
    }

    pub fn read_reg(&self, idx: u8) -> (r: u64)
        requires
            self.wf(),
            idx < 32,
        ensures
            r == self.board.hart().reg(idx),
    {
        self.board.cpu().read_reg(idx)
    }

    pub fn write_reg(&mut self, idx: u8, val: u64)
        requires
            old(self).wf(),
            idx < 32,
        ensures
            Self::only_hart_changed(
                *old(self),
                *final(self),
                old(self).board.hart().with_reg(idx, val),
            ),
    {
        self.board.cpu_mut().write_reg(idx, val);
    }

    pub fn read_pc(&self) -> (r: u64)
        requires
            self.wf(),
        ensures
            r == self.board.hart().pc,
    {
        self.board.cpu().read_pc()
    }

    pub fn write_pc(&mut self, val: u64)
        requires
            old(self).wf(),
        ensures
            Self::only_hart_changed(*old(self), *final(self), old(self).board.hart().with_pc(val)),
    {
        self.board.cpu_mut().write_pc(val);
    }

    /// The encodings that a floating-point register holds.
    pub fn read_float_reg(&self, idx: u8) -> (r: (u64, u64))
        requires
            self.wf(),
            idx < 32,
        ensures
            r == (
                self.board.hart().fpu.value(FloatFormat::Single, idx),
                self.board.hart().fpu.value(FloatFormat::Double, idx),
            ),
    {
        self.board.cpu().read_float_reg(idx)
    }

    /// Writes the encoding of a double-precision number to a floating-point register.
    pub fn write_float_reg(&mut self, idx: u8, encoding: u64)
        requires
            old(self).wf(),
            idx < 32,
        ensures
            Self::only_hart_changed(
                *old(self),
                *final(self),
                CpuState {
                    fpu: old(self).board.hart().fpu.with_value(FloatFormat::Double, idx, encoding),
                    ..old(self).board.hart()
                },
            ),
    {
        self.board.cpu_mut().write_float_reg(idx, encoding);
    }

    /// The elements of width `w` that the whole group at a vector register holds, whatever `vl` is.
    /// A group of the current multiplier has to start there.
    pub fn read_vector_reg(&self, idx: u8, w: Width) -> (r: Option<Vec<u64>>)
        requires
            self.wf(),
            idx < 32,
        ensures
            match r {
                Some(v) => {
                    let unit = self.board.hart().vector;
                    let regs = types::group_regs(unit.config.vlmul.spec_eighths());
                    &&& idx as int % regs == 0
                    &&& v@ == Seq::new(
                        (16 * regs / w.spec_bytes()) as nat,
                        |i: int| state::element(unit.bytes, idx, i, w),
                    )
                },
                None => idx as int % types::group_regs(
                    self.board.hart().vector.config.vlmul.spec_eighths(),
                ) != 0,
            },
    {
        self.board.cpu().vector.read_as_type(idx, w)
    }

    pub fn read_instr(&mut self, addr: u64) -> (r: Option<RawInstr>)
        requires
            old(self).wf(),
        ensures
            r == ok_of(old(self).board.hart().looked_instr(addr)),
            Self::only_hart_changed(*old(self), *final(self), old(self).board.hart()),
    {
        match self.board.cpu_mut().read_instr(addr) {
            Ok(raw) => Some(raw),
            Err(_) => None,
        }
    }

    pub fn read_memory(&mut self, addr: Address, w: Width) -> (r: Result<u64, MemError>)
        requires
            old(self).wf(),
        ensures
            r == old(self).board.hart().vm.debug_read(addr, w),
            Self::only_hart_changed(*old(self), *final(self), old(self).board.hart()),
    {
        self.board.cpu_mut().read_memory(addr, w)
    }

    pub fn write_memory(&mut self, addr: Address, w: Width, data: u64) -> (r: Result<(), MemError>)
        requires
            old(self).wf(),
        ensures
            r == old(self).board.hart().vm.debug_write(addr, w, data).1,
            Self::only_hart_changed(
                *old(self),
                *final(self),
                CpuState {
                    vm: old(self).board.hart().vm.debug_write(addr, w, data).0,
                    ..old(self).board.hart()
                },
            ),
    {
        self.board.cpu_mut().write_memory(addr, w, data)
    }

    pub fn read_csr(&mut self, addr: u64) -> (r: Option<u64>)
        requires
            old(self).wf(),
        ensures
            r == known_csr(old(self).board.hart().csr, addr),
            Self::only_hart_changed(*old(self), *final(self), old(self).board.hart()),
    {
        self.board.cpu_mut().debug_csr(addr, None)
    }

    /// Writes a control and status register. An address that no register has is an error, and
    /// nothing is written.
    pub fn write_csr(&mut self, addr: u64, data: u64) -> (r: Result<(), DebugError>)
        requires
            old(self).wf(),
        ensures
            match known_csr(old(self).board.hart().csr, addr) {
                Some(_) => r is Ok,
                None => r is Err && r->Err_0 == DebugError::CSRNotExist(addr),
            },
            Self::only_hart_changed(
                *old(self),
                *final(self),
                if addr < file::CSR_SIZE {
                    CpuState {
                        csr: old(self).board.hart().csr.written(addr, data),
                        ..old(self).board.hart()
                    }
                } else {
                    old(self).board.hart()
                },
            ),
    {
        match self.board.cpu_mut().debug_csr(addr, Some(data)) {
            Some(_) => Ok(()),
            None => Err(DebugError::CSRNotExist(addr)),
        }
    }

    pub fn get_current_privilege(&mut self) -> (r: PrivilegeLevel)
        requires
            old(self).wf(),
        ensures
            r == old(self).board.hart().csr.cpl,
            *final(self) == *old(self),
    {
        self.board.cpu().get_current_privilege()
    }

    pub fn set_current_privilege(&mut self, priv_level: PrivilegeLevel)
        requires
            old(self).wf(),
        ensures
            Self::only_hart_changed(
                *old(self),
                *final(self),
                CpuState {
                    csr: CsrState { cpl: priv_level, ..old(self).board.hart().csr },
                    ..old(self).board.hart()
                },
            ),
    {
        self.board.cpu_mut().csr.set_current_privileged(priv_level);
    }

    pub fn decoded_info(&self, raw: RawInstr) -> (r: Option<DecodeInstr>)
        requires
            self.wf(),
        ensures
            r == self.board.hart().decoder.decoded(raw),
    {
        self.board.cpu().decoded_instr(raw)
    }

    pub fn vaddr_to_paddr(&mut self, vaddr: u64) -> (r: Result<u64, PageTableError>)
        requires
            old(self).wf(),
        ensures
            r == old(self).board.hart().vm.debug_translated(vaddr),
            Self::only_hart_changed(*old(self), *final(self), old(self).board.hart()),
    {
        self.board.cpu_mut().debug_vaddr_to_paddr(vaddr)
    }

    pub fn translate(&mut self, addr: u64, access: AccessType) -> (r: Result<u64, PageTableError>)
        requires
            old(self).wf(),
        ensures
            r == old(self).board.hart().vm.policy_translated(
                addr,
                policy::data_policy(old(self).board.hart().csr, access, false),
            ).1,
            Self::only_hart_changed(*old(self), *final(self), old(self).board.hart()),
    {
        self.board.cpu_mut().debug_translate(addr, access)
    }

    /// How many cycles the hart has counted.
    pub fn cycle(&mut self) -> (r: u64)
        requires
            old(self).wf(),
        ensures
            r == old(self).board.hart().csr.value(csr_index::mcycle),
            *final(self) == *old(self),
    {
        self.board.cpu().csr.value_of(csr_index::mcycle)
    }
}

pub open spec fn ok_of<T, E>(r: Result<T, E>) -> Option<T> {
    match r {
        Ok(v) => Some(v),
        Err(_) => None,
    }
}

/// The value that the debugger reads from a register, if there is one.
pub open spec fn known_csr(csr: CsrState, addr: u64) -> Option<u64> {
    if addr < file::CSR_SIZE {
        csr.read(addr)
    } else {
        None
    }
}

/// The breakpoints that are not at an address.
pub open spec fn without_breakpoint(breakpoints: Seq<Breakpoint>, addr: Address) -> Seq<Breakpoint>
    decreases breakpoints.len(),
{
    if breakpoints.len() == 0 {
        Seq::empty()
    } else {
        let before = without_breakpoint(breakpoints.drop_last(), addr);
        if breakpoints.last().addr == addr {
            before
        } else {
            before.push(breakpoints.last())
        }
    }
}

proof fn lemma_has_breakpoint_push(all: Seq<Breakpoint>, i: int, addr: Address)
    requires
        0 <= i < all.len(),
    ensures
        has_breakpoint(all.take(i + 1), addr) == (has_breakpoint(all.take(i), addr) || all[i].addr
            == addr),
{
    if has_breakpoint(all.take(i), addr) {
        let j = choose|j: int| 0 <= j < i && (#[trigger] all.take(i)[j]).addr == addr;
        assert(all.take(i + 1)[j].addr == addr);
    }
    if all[i].addr == addr {
        assert(all.take(i + 1)[i].addr == addr);
    }
    if has_breakpoint(all.take(i + 1), addr) {
        let j = choose|j: int| 0 <= j < i + 1 && (#[trigger] all.take(i + 1)[j]).addr == addr;
        if j < i {
            assert(all.take(i)[j].addr == addr);
        }
    }
}

/// Clearing a breakpoint takes that one away and no other.
pub proof fn law_clear_breakpoint(breakpoints: Seq<Breakpoint>, cleared: Address, addr: Address)
    ensures
        has_breakpoint(without_breakpoint(breakpoints, cleared), addr) == (has_breakpoint(
            breakpoints,
            addr,
        ) && addr != cleared),
    decreases breakpoints.len(),
{
    if breakpoints.len() > 0 {
        let n = breakpoints.len() - 1;
        let before = breakpoints.drop_last();
        law_clear_breakpoint(before, cleared, addr);
        assert(breakpoints.take(n) =~= before);
        assert(breakpoints.take(n + 1) =~= breakpoints);
        lemma_has_breakpoint_push(breakpoints, n, addr);
        let kept = without_breakpoint(before, cleared);
        let all = kept.push(breakpoints.last());
        assert(all.take(kept.len() as int) =~= kept);
        assert(all.take(kept.len() as int + 1) =~= all);
        lemma_has_breakpoint_push(all, kept.len() as int, addr);
    }
}

/// A breakpoint that was set stops the hart there.
pub proof fn law_set_breakpoint(breakpoints: Seq<Breakpoint>, bp: Breakpoint, addr: Address)
    ensures
        has_breakpoint(breakpoints.push(bp), addr) == (has_breakpoint(breakpoints, addr) || addr
            == bp.addr),
{
    let all = breakpoints.push(bp);
    assert(all.take(breakpoints.len() as int) =~= breakpoints);
    assert(all.take(breakpoints.len() as int + 1) =~= all);
    lemma_has_breakpoint_push(all, breakpoints.len() as int, addr);
}

/// Whether none of the first `n` steps of a hart, each in a cycle, ends at a breakpoint.
pub open spec fn free_of_breakpoints(breakpoints: Seq<Breakpoint>, s: CpuState, n: int) -> bool {
    forall|k: nat|
        1 <= k <= n ==> !stands_at_breakpoint(breakpoints, #[trigger] s.ran(k))
}

proof fn lemma_debugged_run(m: HookModel, s: CpuState, n: nat, done: nat)
    requires
        n + done <= u64::MAX,
    ensures
        ({
            let (m2, s2, r) = batch::hooked_run::<DebuggerExecutionHook>(m, s, n, done);
            &&& m2.breakpoints == m.breakpoints
            &&& r.hook_stopped ==> r.cycles > done && stands_at_breakpoint(m.breakpoints, s2)
                && free_of_breakpoints(m.breakpoints, s, r.cycles - done - 1)
            &&& !r.hook_stopped ==> r.cycles == n + done && free_of_breakpoints(
                m.breakpoints,
                s,
                n as int,
            )
        }),
    decreases n,
{
    if n > 0 {
        let s1 = s.stepped().cycled(1);
        let m1 = m.noted(HookModel::looked(s), s1);
        if !stands_at_breakpoint(m.breakpoints, s1) {
            lemma_debugged_run(m1, s1, (n - 1) as nat, done + 1);
            let (m2, s2, r) = batch::hooked_run::<DebuggerExecutionHook>(m, s, n, done);
            let free = if r.hook_stopped {
                r.cycles - done - 1
            } else {
                n as int
            };
            assert forall|k: nat| 1 <= k <= free implies !stands_at_breakpoint(
                m.breakpoints,
                #[trigger] s.ran(k),
            ) by {
                assert(s1.ran(0) == s1);
                assert(s.ran(k) == s1.ran((k - 1) as nat));
            }
        }
    }
}

/// A hart under the debugger goes the way it would go alone. If a breakpoint stops it, it stands
/// at one and passed none on the way; if not, it did all the steps and met none.
pub proof fn law_breakpoints_stop(m: HookModel, s: CpuState, steps: u64)
    requires
        s.csr.next_interrupt() is None,
    ensures
        ({
            let (m2, s2, r) = batch::hooked_batch::<DebuggerExecutionHook>(m, s, steps);
            &&& s2 == s.ran(r.cycles as nat)
            &&& m2.breakpoints == m.breakpoints
            &&& r.hook_stopped ==> stands_at_breakpoint(m.breakpoints, s2) && free_of_breakpoints(
                m.breakpoints,
                s,
                r.cycles - 1,
            )
            &&& !r.hook_stopped ==> r.cycles == steps && free_of_breakpoints(
                m.breakpoints,
                s,
                steps as int,
            )
        }),
{
    law_debugger_only_watches();
    batch::law_watching_changes_nothing::<DebuggerExecutionHook>(m, s, steps);
    lemma_debugged_run(m, s, steps as nat, 0);
    assert(s.ran(0) == s);
}

/// What the history gets from a cycle: where the hart was, and the word that was there. A cycle
/// that an interrupt took, and one whose word cannot be read, has none.
pub open spec fn history_entry(c: SeenCycle) -> HistoryEntry {
    if c.interrupt {
        (c.before.pc, None)
    } else {
        (c.before.pc, ok_of(c.before.looked_instr(c.before.pc)))
    }
}

/// What the history gets from one cycle after the other.
pub open spec fn history_of(cycles: Seq<SeenCycle>) -> Seq<HistoryEntry> {
    Seq::new(cycles.len(), |i: int| history_entry(cycles[i]))
}

proof fn lemma_history_grows(m: HookModel, all: Seq<HistoryEntry>, cycles: Seq<SeenCycle>)
    requires
        m.history == ftrace::latest(all, MAX_HISTORY as int),
    ensures
        batch::seen_all::<DebuggerExecutionHook>(m, cycles).history == ftrace::latest(
            all + history_of(cycles),
            MAX_HISTORY as int,
        ),
    decreases cycles.len(),
{
    if cycles.len() == 0 {
        assert(all + history_of(cycles) =~= all);
    } else {
        let c = cycles.first();
        let cycle = if c.interrupt {
            DebugCycle { pc: c.before.pc, raw_instr: None, decoded_instr: None }
        } else {
            HookModel::looked(c.before)
        };
        let m1 = batch::seen::<DebuggerExecutionHook>(m, c).0;
        assert(m1 == m.noted(cycle, c.after));
        law_history_is_bounded(m, cycle, c.after);
        ftrace::law_queue_keeps_latest(all, history_entry(c), MAX_HISTORY as int);
        lemma_history_grows(m1, all.push(history_entry(c)), cycles.drop_first());
        assert(all.push(history_entry(c)) + history_of(cycles.drop_first()) =~= all + history_of(
            cycles,
        ));
    }
}

/// A debugger whose history is that of some cycles, before a run: after it, the history is that of
/// those cycles and of as many more as the run had steps. It is the latest of them, as many as it
/// can hold.
pub proof fn law_history_follows_runs<B: HookedBoard<DebuggerExecutionHook>>(
    before: Debugger<B>,
    past: Seq<SeenCycle>,
    max_steps: u64,
    after: Debugger<B>,
    event: DebugEvent,
    steps: u64,
)
    requires
        before.hook@.history == ftrace::latest(history_of(past), MAX_HISTORY as int),
        Debugger::<B>::may_continue(before, max_steps, after, event, steps),
    ensures
        exists|more: Seq<SeenCycle>|
            more.len() == steps && after.hook@.history == ftrace::latest(
                #[trigger] history_of(past + more),
                MAX_HISTORY as int,
            ),
{
    if max_steps == 0 || before.board.halted() {
        let more = Seq::<SeenCycle>::empty();
        assert(past + more =~= past);
        assert(after.hook@.history == ftrace::latest(history_of(past + more), MAX_HISTORY as int));
    } else {
        let (r, seen) = choose|r: BatchResult, seen: Seq<SeenCycle>|
            {
                &&& #[trigger] Debugger::<B>::may_end(before, max_steps, after, r, seen)
                &&& event == event_of(r, after.board.halted())
                &&& steps == r.cycles
            };
        batch::law_watched_is_seen::<DebuggerExecutionHook>(
            before.hook@,
            before.board.hart(),
            seen,
            after.hook@,
            after.board.hart(),
            r.hook_stopped,
        );
        lemma_history_grows(before.hook@, history_of(past), seen);
        assert(history_of(past) + history_of(seen) =~= history_of(past + seen));
    }
}

/// What can be read of the history of `cycles.len()` cycles: the latest `k` of them, or as many as
/// there were and are kept, the oldest first.
pub proof fn law_history_shows_latest(history: Seq<HistoryEntry>, cycles: Seq<SeenCycle>, k: nat)
    requires
        history == ftrace::latest(history_of(cycles), MAX_HISTORY as int),
    ensures
        ({
            let n = cycles.len();
            let shown = ftrace::latest(history, k as int);
            &&& shown.len() <= k && shown.len() <= n && shown.len() <= MAX_HISTORY
            &&& shown.len() == k || shown.len() == n || shown.len() == MAX_HISTORY
            &&& forall|i: int|
                0 <= i < shown.len() ==> #[trigger] shown[i] == history_entry(
                    cycles[n - shown.len() + i],
                )
        }),
{
}

/// The trace of a debugger that is not tracing stays as it is through a run: what can be read of
/// it is the same until it is started again.
pub proof fn law_stopped_trace_stays<B: HookedBoard<DebuggerExecutionHook>>(
    before: Debugger<B>,
    max_steps: u64,
    after: Debugger<B>,
    event: DebugEvent,
    steps: u64,
)
    requires
        !before.hook@.ftrace.enabled,
        Debugger::<B>::may_continue(before, max_steps, after, event, steps),
    ensures
        after.hook@.ftrace == before.hook@.ftrace,
{
    if max_steps != 0 && !before.board.halted() {
        let (r, seen) = choose|r: BatchResult, seen: Seq<SeenCycle>|
            {
                &&& #[trigger] Debugger::<B>::may_end(before, max_steps, after, r, seen)
                &&& event == event_of(r, after.board.halted())
                &&& steps == r.cycles
            };
        batch::law_watched_is_seen::<DebuggerExecutionHook>(
            before.hook@,
            before.board.hart(),
            seen,
            after.hook@,
            after.board.hart(),
            r.hook_stopped,
        );
        lemma_stopped_trace_stays(before.hook@, seen);
    }
}

proof fn lemma_stopped_trace_stays(m: HookModel, cycles: Seq<SeenCycle>)
    requires
        !m.ftrace.enabled,
    ensures
        batch::seen_all::<DebuggerExecutionHook>(m, cycles).ftrace == m.ftrace,
    decreases cycles.len(),
{
    if cycles.len() > 0 {
        lemma_stopped_trace_stays(
            batch::seen::<DebuggerExecutionHook>(m, cycles.first()).0,
            cycles.drop_first(),
        );
    }
}

/// What a trace gets from a cycle.
pub open spec fn trace_entry(symtab: Option<Seq<Symbol>>, c: SeenCycle) -> Option<TraceEntry> {
    ftrace::traced(
        symtab,
        if c.interrupt {
            None
        } else {
            HookModel::looked(c.before).decoded_instr
        },
        c.after.pc,
    )
}

/// What a trace gets from one cycle after the other.
pub open spec fn trace_of(symtab: Option<Seq<Symbol>>, cycles: Seq<SeenCycle>) -> Seq<TraceEntry>
    decreases cycles.len(),
{
    if cycles.len() == 0 {
        Seq::empty()
    } else {
        let rest = trace_of(symtab, cycles.drop_first());
        match trace_entry(symtab, cycles.first()) {
            Some(e) => seq![e] + rest,
            None => rest,
        }
    }
}

proof fn lemma_trace_grows(
    m: HookModel,
    start: FtraceModel,
    all: Seq<TraceEntry>,
    cycles: Seq<SeenCycle>,
)
    requires
        start.enabled,
        m.ftrace == start.recorded_all(all),
        m.ftrace.enabled,
    ensures
        batch::seen_all::<DebuggerExecutionHook>(m, cycles).ftrace == start.recorded_all(
            all + trace_of(m.symtab, cycles),
        ),
    decreases cycles.len(),
{
    if cycles.len() == 0 {
        assert(all + trace_of(m.symtab, cycles) =~= all);
    } else {
        let c = cycles.first();
        let m1 = batch::seen::<DebuggerExecutionHook>(m, c).0;
        let rest = trace_of(m.symtab, cycles.drop_first());
        match trace_entry(m.symtab, c) {
            Some(e) => {
                assert(all.push(e).drop_last() =~= all);
                assert(start.recorded_all(all.push(e)) == m1.ftrace);
                lemma_trace_grows(m1, start, all.push(e), cycles.drop_first());
                assert(all.push(e) + rest =~= all + trace_of(m.symtab, cycles));
            },
            None => {
                lemma_trace_grows(m1, start, all, cycles.drop_first());
            },
        }
    }
}

/// A trace that was started and got some calls and returns, before a run: after it, it got those of
/// the cycles of the run too, in order. What it then keeps and counts, [`ftrace::law_trace_adds_up`]
/// says.
pub proof fn law_trace_follows_runs<B: HookedBoard<DebuggerExecutionHook>>(
    before: Debugger<B>,
    past: Seq<TraceEntry>,
    max_steps: u64,
    after: Debugger<B>,
    event: DebugEvent,
    steps: u64,
)
    requires
        before.hook@.ftrace == FtraceModel::started().recorded_all(past),
        before.hook@.ftrace.enabled,
        Debugger::<B>::may_continue(before, max_steps, after, event, steps),
    ensures
        exists|more: Seq<SeenCycle>|
            more.len() == steps && after.hook@.ftrace == FtraceModel::started().recorded_all(
                past + #[trigger] trace_of(before.hook@.symtab, more),
            ),
{
    if max_steps == 0 || before.board.halted() {
        let more = Seq::<SeenCycle>::empty();
        assert(past + trace_of(before.hook@.symtab, more) =~= past);
    } else {
        let (r, seen) = choose|r: BatchResult, seen: Seq<SeenCycle>|
            {
                &&& #[trigger] Debugger::<B>::may_end(before, max_steps, after, r, seen)
                &&& event == event_of(r, after.board.halted())
                &&& steps == r.cycles
            };
        batch::law_watched_is_seen::<DebuggerExecutionHook>(
            before.hook@,
            before.board.hart(),
            seen,
            after.hook@,
            after.board.hart(),
            r.hook_stopped,
        );
        lemma_trace_grows(before.hook@, FtraceModel::started(), past, seen);
    }
}

/// Whether no cycle that a run may have had executes an instruction that writes the cycle counter.
pub open spec fn run_leaves_clock<B: HookedBoard<DebuggerExecutionHook>>(
    before: Debugger<B>,
    max_steps: u64,
    after: Debugger<B>,
) -> bool {
    forall|r: BatchResult, seen: Seq<SeenCycle>| #[trigger]
        Debugger::<B>::may_end(before, max_steps, after, r, seen) ==> batch::seen_leave_clock(seen)
}

/// Whatever the board is, the debugger counts steps as its hart counts cycles: over a run of
/// `steps` steps, whatever ends it, the number of cycles grows by that many, modulo 2^64, unless an
/// instruction of the run writes the counter. Steps that trap or take an interrupt count too.
pub proof fn law_cycle_counts_steps<B: HookedBoard<DebuggerExecutionHook>>(
    before: Debugger<B>,
    max_steps: u64,
    after: Debugger<B>,
    event: DebugEvent,
    steps: u64,
)
    requires
        Debugger::<B>::may_continue(before, max_steps, after, event, steps),
        run_leaves_clock(before, max_steps, after),
    ensures
        after.board.hart().csr.value(csr_index::mcycle) == (before.board.hart().csr.value(
            csr_index::mcycle,
        ) + steps) % 0x1_0000_0000_0000_0000,
{
    if max_steps != 0 && !before.board.halted() {
        let (r, seen) = choose|r: BatchResult, seen: Seq<SeenCycle>|
            {
                &&& #[trigger] Debugger::<B>::may_end(before, max_steps, after, r, seen)
                &&& event == event_of(r, after.board.halted())
                &&& steps == r.cycles
            };
        law_debugger_only_watches();
        batch::law_watched_cycles_are_counted::<DebuggerExecutionHook>(
            before.hook@,
            before.board.hart(),
            seen,
            after.hook@,
            after.board.hart(),
            r.hook_stopped,
        );
    }
}

/// A hart alone, under the debugger: over a run of `steps` steps the number of cycles grows by that
/// many, modulo 2^64, unless an instruction of the batch writes the counter.
pub proof fn law_hart_counts_steps(
    before: Debugger<RVCPU>,
    max_steps: u64,
    after: Debugger<RVCPU>,
    event: DebugEvent,
    steps: u64,
)
    requires
        before.wf(),
        Debugger::<RVCPU>::may_continue(before, max_steps, after, event, steps),
        laws::batch_leaves_clock(before.board@, steps as nat),
    ensures
        after.board@.csr.value(csr_index::mcycle) == (before.board@.csr.value(csr_index::mcycle)
            + steps) % 0x1_0000_0000_0000_0000,
{
    if max_steps != 0 {
        let (r, seen) = choose|r: BatchResult, seen: Seq<SeenCycle>|
            {
                &&& #[trigger] Debugger::<RVCPU>::may_end(before, max_steps, after, r, seen)
                &&& event == event_of(r, after.board.halted())
                &&& steps == r.cycles
            };
        law_debugger_only_watches();
        batch::law_watching_changes_nothing::<DebuggerExecutionHook>(
            before.hook@,
            before.board@,
            max_steps,
        );
        assert(after.board@ == before.board@.batched(steps as nat));
        laws::law_state_is_valid(before.board);
        laws::law_batch_counts_cycles(before.board@, steps as nat);
    }
}

/// Whatever the board is, a run that a breakpoint stops ends at a breakpoint and came to none
/// before; another run came to none. The breakpoints and the symbols stay.
pub proof fn law_runs_stop_at_breakpoints<B: HookedBoard<DebuggerExecutionHook>>(
    before: Debugger<B>,
    max_steps: u64,
    after: Debugger<B>,
    r: BatchResult,
    seen: Seq<SeenCycle>,
)
    requires
        Debugger::<B>::may_end(before, max_steps, after, r, seen),
    ensures
        after.hook@.breakpoints == before.hook@.breakpoints,
        after.hook@.symtab == before.hook@.symtab,
        r.hook_stopped ==> r.cycles > 0 && seen.last().after == after.board.hart()
            && stands_at_breakpoint(before.hook@.breakpoints, after.board.hart()),
        forall|i: int|
            0 <= i < (if r.hook_stopped {
                r.cycles - 1
            } else {
                r.cycles as int
            }) ==> !stands_at_breakpoint(before.hook@.breakpoints, (#[trigger] seen[i]).after),
{
    lemma_watched_breakpoints(
        before.hook@,
        before.board.hart(),
        seen,
        after.hook@,
        after.board.hart(),
        r.hook_stopped,
    );
}

proof fn lemma_watched_breakpoints(
    m: HookModel,
    start: CpuState,
    cycles: Seq<SeenCycle>,
    after: HookModel,
    end: CpuState,
    stopped: bool,
)
    requires
        batch::watched::<DebuggerExecutionHook>(m, start, cycles, after, end, stopped),
    ensures
        after.breakpoints == m.breakpoints,
        after.symtab == m.symtab,
        stopped ==> cycles.len() > 0 && cycles.last().after == end && stands_at_breakpoint(
            m.breakpoints,
            end,
        ),
        forall|i: int|
            0 <= i < (if stopped {
                cycles.len() - 1
            } else {
                cycles.len() as int
            }) ==> !stands_at_breakpoint(m.breakpoints, (#[trigger] cycles[i]).after),
    decreases cycles.len(),
{
    if cycles.len() > 0 {
        let (m1, s, stop) = batch::seen::<DebuggerExecutionHook>(m, cycles.first());
        assert(m1.breakpoints == m.breakpoints && m1.symtab == m.symtab);
        assert(s == cycles[0].after);
        if !stop {
            let rest = cycles.drop_first();
            lemma_watched_breakpoints(m1, s, rest, after, end, stopped);
            assert forall|i: int|
                0 <= i < (if stopped {
                    cycles.len() - 1
                } else {
                    cycles.len() as int
                }) implies !stands_at_breakpoint(m.breakpoints, (#[trigger] cycles[i]).after) by {
                if i > 0 {
                    assert(rest[i - 1] == cycles[i]);
                }
            }
        }
    }
}

} // verus!
