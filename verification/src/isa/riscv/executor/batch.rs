//! Running many cycles, with or without a hook that watches them.
use vstd::prelude::*;

use crate::isa::riscv::csr_reg::csr_index;
use crate::isa::riscv::csr_reg::field::CsrField;
use crate::isa::riscv::csr_reg::file;
use crate::isa::riscv::trap::trap_controller::TrapController;
use crate::isa::riscv::trap::{Exception, Interrupt};

use super::laws;
use super::{CpuContext, CpuState, RVCPU};

verus! {

/// How a batch ended.
#[derive(Clone, Copy, Debug, PartialEq, Eq, Structural)]
pub struct BatchResult {
    pub cycles: u64,
    pub hook_stopped: bool,
}

/// Runs harts.
pub trait ExecutorBackend {
    /// Executes exactly `cycles` cycles.
    fn step_batch(&mut self, cpu: &mut RVCPU, cycles: u64)
        requires
            old(cpu).wf(),
        ensures
            final(cpu).wf(),
            final(cpu)@ == old(cpu)@.batched(cycles as nat),
    ;
}

/// Interprets one instruction after the other.
pub struct InterpreterBackend;

impl ExecutorBackend for InterpreterBackend {
    fn step_batch(&mut self, cpu: &mut RVCPU, cycles: u64) {
        cpu.step_batch(cycles);
    }
}

/// Watches the cycles of a batch. What a method does is a function of the hook and the hart; a
/// hook may change the hart but keeps it valid.
pub trait ExecutionHook: Sized {
    /// What is carried from before a cycle to after it.
    type CycleContext;

    /// The hook as plain values.
    type Model;

    spec fn model(&self) -> Self::Model;

    /// The hook, the hart and the context after `before_step`.
    spec fn before(m: Self::Model, s: CpuState) -> (Self::Model, CpuState, Self::CycleContext);

    /// The hook and the context after `on_interrupt_taken`.
    spec fn interrupted(m: Self::Model, pc: u64) -> (Self::Model, Self::CycleContext);

    /// The hook and the hart after `after_step`, and whether the batch stops.
    spec fn after(m: Self::Model, context: Self::CycleContext, s: CpuState) -> (
        Self::Model,
        CpuState,
        bool,
    );

    fn before_step(&mut self, cpu: &mut RVCPU) -> (r: Self::CycleContext)
        requires
            old(cpu).wf(),
        ensures
            final(cpu).wf(),
            final(self).model() == Self::before(old(self).model(), old(cpu)@).0,
            final(cpu)@ == Self::before(old(self).model(), old(cpu)@).1,
            r == Self::before(old(self).model(), old(cpu)@).2,
    ;

    fn on_interrupt_taken(&mut self, interrupted_pc: u64) -> (r: Self::CycleContext)
        ensures
            final(self).model() == Self::interrupted(old(self).model(), interrupted_pc).0,
            r == Self::interrupted(old(self).model(), interrupted_pc).1,
    ;

    /// Returns `true` to stop the batch after this cycle.
    fn after_step(&mut self, context: Self::CycleContext, cpu: &mut RVCPU) -> (r: bool)
        requires
            old(cpu).wf(),
        ensures
            final(cpu).wf(),
            final(self).model() == Self::after(old(self).model(), context, old(cpu)@).0,
            final(cpu)@ == Self::after(old(self).model(), context, old(cpu)@).1,
            r == Self::after(old(self).model(), context, old(cpu)@).2,
    ;
}

/// A hook that does nothing and never stops.
pub struct NoopExecutionHook;

impl ExecutionHook for NoopExecutionHook {
    type CycleContext = ();

    type Model = ();

    open spec fn model(&self) -> () {
        ()
    }

    open spec fn before(m: (), s: CpuState) -> ((), CpuState, ()) {
        ((), s, ())
    }

    open spec fn interrupted(m: (), pc: u64) -> ((), ()) {
        ((), ())
    }

    open spec fn after(m: (), context: (), s: CpuState) -> ((), CpuState, bool) {
        ((), s, false)
    }

    fn before_step(&mut self, cpu: &mut RVCPU) -> (r: ()) {
        ()
    }

    fn on_interrupt_taken(&mut self, interrupted_pc: u64) -> (r: ()) {
        ()
    }

    fn after_step(&mut self, context: (), cpu: &mut RVCPU) -> (r: bool) {
        false
    }
}

impl CpuState {
    /// The state after `n` cycles without interrupts.
    pub open spec fn ran(self, n: nat) -> CpuState
        decreases n,
    {
        if n == 0 {
            self
        } else {
            self.stepped().cycled(1).ran((n - 1) as nat)
        }
    }

    /// The state after a block of generated code.
    pub open spec fn block_finished(
        self,
        next_pc: u64,
        instr_count: u64,
        exception: Option<(Exception, u64)>,
    ) -> CpuState {
        let s = self.with_pc(next_pc).with_reg(0, 0).cycled(instr_count).counted(instr_count);
        match exception {
            None => s,
            Some((cause, tval)) => CpuState { pending_tval: None, ..s.cycled(1) }.exception_taken(
                cause,
                tval,
            ),
        }
    }

    /// What the addresses of instructions are multiples of.
    pub open spec fn ialign(self) -> u64 {
        if self.csr.value(csr_index::misa) / 4 % 2 == 1 {
            2
        } else {
            4
        }
    }

    /// The state after `n` cycles. An interrupt that waits is taken first, in a cycle of its own.
    pub open spec fn batched(self, n: nat) -> CpuState {
        if n == 0 {
            self
        } else if self.csr.next_interrupt() is Some {
            self.interrupt_taken().cycled(1).ran((n - 1) as nat)
        } else {
            self.ran(n)
        }
    }
}

/// What `n` cycles without interrupts do under a hook, after `done` cycles of the same batch.
pub open spec fn hooked_run<H: ExecutionHook>(hook: H::Model, s: CpuState, n: nat, done: nat) -> (
    H::Model,
    CpuState,
    BatchResult,
)
    decreases n,
{
    if n == 0 {
        (hook, s, BatchResult { cycles: done as u64, hook_stopped: false })
    } else {
        let (hook1, s1, context) = H::before(hook, s);
        let (hook2, s2, stop) = H::after(hook1, context, s1.stepped().cycled(1));
        if stop {
            (hook2, s2, BatchResult { cycles: (done + 1) as u64, hook_stopped: true })
        } else {
            hooked_run::<H>(hook2, s2, (n - 1) as nat, done + 1)
        }
    }
}

/// What a batch does under a hook.
pub open spec fn hooked_batch<H: ExecutionHook>(hook: H::Model, s: CpuState, cycles: u64) -> (
    H::Model,
    CpuState,
    BatchResult,
) {
    if cycles == 0 || s.csr.next_interrupt() is None {
        hooked_run::<H>(hook, s, cycles as nat, 0)
    } else {
        let (hook1, context) = H::interrupted(hook, s.pc);
        let (hook2, s2, stop) = H::after(hook1, context, s.interrupt_taken().cycled(1));
        if stop {
            (hook2, s2, BatchResult { cycles: 1, hook_stopped: true })
        } else {
            hooked_run::<H>(hook2, s2, (cycles - 1) as nat, 1)
        }
    }
}

/// A batch runs as many cycles as were asked for, unless the hook stopped it.
pub proof fn law_batch_cycles<H: ExecutionHook>(hook: H::Model, s: CpuState, cycles: u64)
    ensures
        hooked_batch::<H>(hook, s, cycles).2.cycles <= cycles,
        !hooked_batch::<H>(hook, s, cycles).2.hook_stopped ==> hooked_batch::<H>(hook, s, cycles).2.cycles
            == cycles,
        hooked_batch::<H>(hook, s, cycles).2.hook_stopped ==> hooked_batch::<H>(hook, s, cycles).2.cycles > 0,
{
    if cycles == 0 || s.csr.next_interrupt() is None {
        lemma_run_cycles::<H>(hook, s, cycles as nat, 0);
    } else {
        let (hook1, context) = H::interrupted(hook, s.pc);
        let (hook2, s2, stop) = H::after(hook1, context, s.interrupt_taken().cycled(1));
        lemma_run_cycles::<H>(hook2, s2, (cycles - 1) as nat, 1);
    }
}

proof fn lemma_run_cycles<H: ExecutionHook>(hook: H::Model, s: CpuState, n: nat, done: nat)
    requires
        n + done <= u64::MAX,
    ensures
        ({
            let r = hooked_run::<H>(hook, s, n, done).2;
            &&& r.cycles <= n + done
            &&& !r.hook_stopped ==> r.cycles == n + done
            &&& r.hook_stopped ==> r.cycles > done
        }),
    decreases n,
{
    if n > 0 {
        let (hook1, s1, context) = H::before(hook, s);
        let (hook2, s2, stop) = H::after(hook1, context, s1.stepped().cycled(1));
        if !stop {
            lemma_run_cycles::<H>(hook2, s2, (n - 1) as nat, done + 1);
        }
    }
}

/// A cycle as a hook sees it: the hart before it, whether an interrupt took it, and the hart after
/// it.
pub struct SeenCycle {
    pub before: CpuState,
    pub interrupt: bool,
    pub after: CpuState,
}

/// Cycles in the order in which a hook saw them.
pub type SeenCycles = Seq<SeenCycle>;

/// A hook and the hart after a cycle that the hook saw, and whether it stops the batch there.
pub open spec fn seen<H: ExecutionHook>(hook: H::Model, c: SeenCycle) -> (H::Model, CpuState, bool) {
    if c.interrupt {
        let (hook1, context) = H::interrupted(hook, c.before.pc);
        H::after(hook1, context, c.after)
    } else {
        let (hook1, _, context) = H::before(hook, c.before);
        H::after(hook1, context, c.after)
    }
}

/// A hook after one cycle after the other.
pub open spec fn seen_all<H: ExecutionHook>(hook: H::Model, cycles: Seq<SeenCycle>) -> H::Model
    decreases cycles.len(),
{
    if cycles.len() == 0 {
        hook
    } else {
        seen_all::<H>(seen::<H>(hook, cycles.first()).0, cycles.drop_first())
    }
}

/// Whether a valid hart goes through a cycle so, under a hook: it takes an interrupt that waits, or
/// it executes an instruction.
pub open spec fn gone_through<H: ExecutionHook>(hook: H::Model, c: SeenCycle) -> bool {
    &&& c.before.valid()
    &&& if c.interrupt {
        &&& c.before.csr.next_interrupt() is Some
        &&& c.after == c.before.interrupt_taken().cycled(1)
    } else {
        c.after == H::before(hook, c.before).1.stepped().cycled(1)
    }
}

/// Whether two harts have counted as many cycles.
pub open spec fn same_clock(a: CpuState, b: CpuState) -> bool {
    a.csr.value(csr_index::mcycle) == b.csr.value(csr_index::mcycle)
}

/// Whether a run that leads a hart from `start` to `end` may consist of some cycles, and lead the
/// hook that saw them from `hook` to `after`. Between two cycles, and after the last one, the hart
/// may change, but not its cycle counter. The hook stopped the last cycle but none before it, and
/// then the hart is as it left it, or it stopped none.
pub open spec fn watched<H: ExecutionHook>(
    hook: H::Model,
    start: CpuState,
    cycles: Seq<SeenCycle>,
    after: H::Model,
    end: CpuState,
    stopped: bool,
) -> bool
    decreases cycles.len(),
{
    if cycles.len() == 0 {
        after == hook && same_clock(start, end) && !stopped
    } else {
        let c = cycles.first();
        let (hook1, s, stop) = seen::<H>(hook, c);
        &&& same_clock(start, c.before)
        &&& gone_through::<H>(hook, c)
        &&& if stop {
            cycles.len() == 1 && after == hook1 && end == s && stopped
        } else {
            watched::<H>(hook1, s, cycles.drop_first(), after, end, stopped)
        }
    }
}

/// A hook that watched cycles is where seeing them one after the other brings it.
pub proof fn law_watched_is_seen<H: ExecutionHook>(
    hook: H::Model,
    start: CpuState,
    cycles: Seq<SeenCycle>,
    after: H::Model,
    end: CpuState,
    stopped: bool,
)
    requires
        watched::<H>(hook, start, cycles, after, end, stopped),
    ensures
        after == seen_all::<H>(hook, cycles),
    decreases cycles.len(),
{
    if cycles.len() > 0 {
        let (hook1, s, stop) = seen::<H>(hook, cycles.first());
        if stop {
            assert(seen_all::<H>(hook1, cycles.drop_first()) == hook1);
        } else {
            law_watched_is_seen::<H>(hook1, s, cycles.drop_first(), after, end, stopped);
        }
    }
}

/// Over cycles that a hook watched without touching the hart, the cycle counter grows by their
/// number, modulo 2^64, unless an instruction among them writes it.
pub proof fn law_watched_cycles_are_counted<H: ExecutionHook>(
    hook: H::Model,
    start: CpuState,
    cycles: Seq<SeenCycle>,
    after: H::Model,
    end: CpuState,
    stopped: bool,
)
    requires
        only_watches::<H>(),
        watched::<H>(hook, start, cycles, after, end, stopped),
        seen_leave_clock(cycles),
    ensures
        end.csr.value(csr_index::mcycle) == (start.csr.value(csr_index::mcycle) + cycles.len())
            % 0x1_0000_0000_0000_0000,
    decreases cycles.len(),
{
    if cycles.len() > 0 {
        let c = cycles.first();
        let (hook1, s, stop) = seen::<H>(hook, c);
        assert(c == cycles[0]);
        assert(H::before(hook, c.before).1 == c.before);
        assert(s == c.after);
        if c.interrupt {
            laws::law_interrupt_is_counted(c.before);
        } else {
            laws::law_cycle_is_counted(c.before);
        }
        if !stop {
            let rest = cycles.drop_first();
            assert forall|i: int| 0 <= i < rest.len() implies leaves_clock(#[trigger] rest[i]) by {
                assert(rest[i] == cycles[i + 1]);
            }
            law_watched_cycles_are_counted::<H>(hook1, s, rest, after, end, stopped);
        }
    }
}

/// Whether a cycle takes an interrupt or executes an instruction that does not write the cycle
/// counter.
pub open spec fn leaves_clock(c: SeenCycle) -> bool {
    c.interrupt || !laws::writes_clock(c.before)
}

/// Whether none of some cycles executes an instruction that writes the cycle counter.
pub open spec fn seen_leave_clock(cycles: Seq<SeenCycle>) -> bool {
    forall|i: int| 0 <= i < cycles.len() ==> leaves_clock(#[trigger] cycles[i])
}

/// Whether the hart is valid before each of some cycles.
pub open spec fn all_valid(cycles: Seq<SeenCycle>) -> bool {
    forall|i: int| 0 <= i < cycles.len() ==> (#[trigger] cycles[i]).before.valid()
}

/// The cycles that a hook sees in a run without interrupts.
pub open spec fn run_seen<H: ExecutionHook>(hook: H::Model, s: CpuState, n: nat) -> Seq<SeenCycle>
    decreases n,
{
    if n == 0 {
        Seq::empty()
    } else {
        let (hook1, s1, context) = H::before(hook, s);
        let end = s1.stepped().cycled(1);
        let (hook2, s2, stop) = H::after(hook1, context, end);
        let cycle = SeenCycle { before: s, interrupt: false, after: end };
        if stop {
            seq![cycle]
        } else {
            seq![cycle] + run_seen::<H>(hook2, s2, (n - 1) as nat)
        }
    }
}

/// The cycles that a hook sees in a batch.
pub open spec fn batch_seen<H: ExecutionHook>(hook: H::Model, s: CpuState, cycles: u64) -> Seq<
    SeenCycle,
> {
    if cycles == 0 || s.csr.next_interrupt() is None {
        run_seen::<H>(hook, s, cycles as nat)
    } else {
        let (hook1, context) = H::interrupted(hook, s.pc);
        let end = s.interrupt_taken().cycled(1);
        let (hook2, s2, stop) = H::after(hook1, context, end);
        let cycle = SeenCycle { before: s, interrupt: true, after: end };
        if stop {
            seq![cycle]
        } else {
            seq![cycle] + run_seen::<H>(hook2, s2, (cycles - 1) as nat)
        }
    }
}

proof fn lemma_run_watched<H: ExecutionHook>(hook: H::Model, s: CpuState, n: nat, done: nat)
    requires
        n + done <= u64::MAX,
        all_valid(run_seen::<H>(hook, s, n)),
    ensures
        ({
            let (after, end, r) = hooked_run::<H>(hook, s, n, done);
            &&& watched::<H>(hook, s, run_seen::<H>(hook, s, n), after, end, r.hook_stopped)
            &&& run_seen::<H>(hook, s, n).len() + done == r.cycles
        }),
    decreases n,
{
    if n > 0 {
        let (hook1, s1, context) = H::before(hook, s);
        let end = s1.stepped().cycled(1);
        let (hook2, s2, stop) = H::after(hook1, context, end);
        let all = run_seen::<H>(hook, s, n);
        assert(all[0].before.valid());
        if !stop {
            let rest = run_seen::<H>(hook2, s2, (n - 1) as nat);
            assert(all.drop_first() =~= rest);
            assert forall|i: int| 0 <= i < rest.len() implies (#[trigger] rest[i]).before.valid() by {
                assert(rest[i] == all[i + 1]);
            }
            lemma_run_watched::<H>(hook2, s2, (n - 1) as nat, done + 1);
        }
    }
}

/// A batch of a hart that stays valid shows its hook every cycle that it counts, and no other.
pub proof fn law_batch_is_watched<H: ExecutionHook>(hook: H::Model, s: CpuState, cycles: u64)
    requires
        all_valid(batch_seen::<H>(hook, s, cycles)),
    ensures
        ({
            let (after, end, r) = hooked_batch::<H>(hook, s, cycles);
            &&& watched::<H>(
                hook,
                s,
                batch_seen::<H>(hook, s, cycles),
                after,
                end,
                r.hook_stopped,
            )
            &&& batch_seen::<H>(hook, s, cycles).len() == r.cycles
        }),
{
    if cycles == 0 || s.csr.next_interrupt() is None {
        lemma_run_watched::<H>(hook, s, cycles as nat, 0);
    } else {
        let (hook1, context) = H::interrupted(hook, s.pc);
        let end = s.interrupt_taken().cycled(1);
        let (hook2, s2, stop) = H::after(hook1, context, end);
        let all = batch_seen::<H>(hook, s, cycles);
        assert(all[0].before.valid());
        if !stop {
            let rest = run_seen::<H>(hook2, s2, (cycles - 1) as nat);
            assert(all.drop_first() =~= rest);
            assert forall|i: int| 0 <= i < rest.len() implies (#[trigger] rest[i]).before.valid() by {
                assert(rest[i] == all[i + 1]);
            }
            lemma_run_watched::<H>(hook2, s2, (cycles - 1) as nat, 1);
        }
    }
}

/// A hook that leaves the hart alone.
pub open spec fn only_watches<H: ExecutionHook>() -> bool {
    &&& forall|m: H::Model, s: CpuState| (#[trigger] H::before(m, s)).1 == s
    &&& forall|m: H::Model, c: H::CycleContext, s: CpuState|
        (#[trigger] H::after(m, c, s)).1 == s
}

/// A hook that leaves the hart alone does not change what is executed: the hart is where as many
/// cycles without a hook bring it.
pub proof fn law_watching_changes_nothing<H: ExecutionHook>(
    hook: H::Model,
    s: CpuState,
    cycles: u64,
)
    requires
        only_watches::<H>(),
    ensures
        hooked_batch::<H>(hook, s, cycles).1 == s.batched(
            hooked_batch::<H>(hook, s, cycles).2.cycles as nat,
        ),
{
    law_batch_cycles::<H>(hook, s, cycles);
    if cycles == 0 || s.csr.next_interrupt() is None {
        lemma_watched_run::<H>(hook, s, cycles as nat, 0);
    } else {
        let (hook1, context) = H::interrupted(hook, s.pc);
        let (hook2, s2, stop) = H::after(hook1, context, s.interrupt_taken().cycled(1));
        if stop {
            assert(s2.ran(0) == s2);
        } else {
            lemma_watched_run::<H>(hook2, s2, (cycles - 1) as nat, 1);
            lemma_run_cycles::<H>(hook2, s2, (cycles - 1) as nat, 1);
        }
    }
}

proof fn lemma_watched_run<H: ExecutionHook>(hook: H::Model, s: CpuState, n: nat, done: nat)
    requires
        only_watches::<H>(),
        n + done <= u64::MAX,
    ensures
        hooked_run::<H>(hook, s, n, done).2.cycles >= done,
        hooked_run::<H>(hook, s, n, done).1 == s.ran(
            (hooked_run::<H>(hook, s, n, done).2.cycles - done) as nat,
        ),
    decreases n,
{
    if n > 0 {
        let (hook1, s1, context) = H::before(hook, s);
        let (hook2, s2, stop) = H::after(hook1, context, s1.stepped().cycled(1));
        if stop {
            assert(s2.ran(0) == s2);
        } else {
            lemma_watched_run::<H>(hook2, s2, (n - 1) as nat, done + 1);
            lemma_run_cycles::<H>(hook2, s2, (n - 1) as nat, done + 1);
        }
    }
}

/// Batches without an interrupt in between add up.
pub proof fn law_runs_add_up(s: CpuState, a: nat, b: nat)
    ensures
        s.ran(a + b) == s.ran(a).ran(b),
    decreases a,
{
    if a > 0 {
        law_runs_add_up(s.stepped().cycled(1), (a - 1) as nat, b);
    }
}

impl RVCPU {
    /// Executes one cycle. Batches are faster.
    pub fn step(&mut self)
        requires
            old(self).wf(),
        ensures
            final(self).wf(),
            final(self)@ == old(self)@.batched(1),
    {
        self.step_batch(1);
    }

    /// Executes exactly `cycles` cycles.
    pub fn step_batch(&mut self, cycles: u64)
        requires
            old(self).wf(),
        ensures
            final(self).wf(),
            final(self)@ == old(self)@.batched(cycles as nat),
    {
        let mut hook = NoopExecutionHook;
        proof {
            law_watching_changes_nothing::<NoopExecutionHook>((), self@, cycles);
            law_batch_cycles::<NoopExecutionHook>((), self@, cycles);
            lemma_noop_never_stops(self@, cycles);
        }
        let _ = self.step_batch_with_hook(cycles, &mut hook);
    }

    /// Executes exactly `cycles` cycles without looking for interrupts.
    pub fn step_batch_no_interrupt(&mut self, cycles: u64)
        requires
            old(self).wf(),
        ensures
            final(self).wf(),
            final(self)@ == old(self)@.ran(cycles as nat),
    {
        let mut executed: u64 = 0;
        while executed < cycles
            invariant
                executed <= cycles,
                self.wf(),
                self@.ran((cycles - executed) as nat) == old(self)@.ran(cycles as nat),
            decreases cycles - executed,
        {
            self.step_impl();
            self.increment_mcycle_by(1);
            executed = executed + 1;
        }
    }

    /// Executes up to `cycles` cycles, until the hook stops them.
    pub fn step_batch_with_hook<H: ExecutionHook>(&mut self, cycles: u64, hook: &mut H) -> (r:
        BatchResult)
        requires
            old(self).wf(),
        ensures
            final(self).wf(),
            final(hook).model() == hooked_batch::<H>(old(hook).model(), old(self)@, cycles).0,
            final(self)@ == hooked_batch::<H>(old(hook).model(), old(self)@, cycles).1,
            r == hooked_batch::<H>(old(hook).model(), old(self)@, cycles).2,
            all_valid(batch_seen::<H>(old(hook).model(), old(self)@, cycles)),
    {
        let ghost all = batch_seen::<H>(hook.model(), self@, cycles);
        let ghost mut past: Seq<SeenCycle> = Seq::empty();
        if cycles == 0 {
            return BatchResult { cycles: 0, hook_stopped: false };
        }
        let mut executed: u64 = 0;
        let interrupt_pc: u64 = self.context.pc;
        proof {
            laws::law_state_is_valid(*self);
        }
        if TrapController::try_take_interrupt(self).is_some() {
            let context = hook.on_interrupt_taken(interrupt_pc);
            self.increment_mcycle_by(1);
            executed = executed + 1;
            proof {
                past = past.push(SeenCycle { before: old(self)@, interrupt: true, after: self@ });
            }
            if hook.after_step(context, self) {
                assert(all =~= past);
                return BatchResult { cycles: executed, hook_stopped: true };
            }
        }
        assert(past + run_seen::<H>(hook.model(), self@, (cycles - executed) as nat) =~= all);
        while executed < cycles
            invariant
                executed <= cycles,
                self.wf(),
                all == batch_seen::<H>(old(hook).model(), old(self)@, cycles),
                past + run_seen::<H>(hook.model(), self@, (cycles - executed) as nat) =~= all,
                all_valid(past),
                hooked_run::<H>(hook.model(), self@, (cycles - executed) as nat, executed as nat)
                    == hooked_batch::<H>(old(hook).model(), old(self)@, cycles),
            decreases cycles - executed,
        {
            let ghost before = self@;
            let ghost so_far = past;
            let ghost rest = run_seen::<H>(hook.model(), self@, (cycles - executed) as nat);
            proof {
                laws::law_state_is_valid(*self);
            }
            let context = hook.before_step(self);
            self.step_impl();
            self.increment_mcycle_by(1);
            executed = executed + 1;
            let ghost cycle = SeenCycle { before, interrupt: false, after: self@ };
            proof {
                past = past.push(cycle);
                assert(rest.len() > 0 && rest[0] == cycle);
            }
            if hook.after_step(context, self) {
                assert(all =~= past);
                return BatchResult { cycles: executed, hook_stopped: true };
            }
            assert(rest =~= seq![cycle] + run_seen::<H>(
                hook.model(),
                self@,
                (cycles - executed) as nat,
            ));
            assert(so_far + rest =~= past + run_seen::<H>(
                hook.model(),
                self@,
                (cycles - executed) as nat,
            ));
        }
        assert(all =~= past);
        BatchResult { cycles: executed, hook_stopped: false }
    }

    /// Takes an interrupt that waits, in a cycle of its own. Says whether there was one.
    pub fn try_take_pending_interrupt(&mut self) -> (r: bool)
        requires
            old(self).wf(),
        ensures
            final(self).wf(),
            r == (old(self)@.csr.next_interrupt() is Some),
            final(self)@ == if r {
                old(self)@.interrupt_taken().cycled(1)
            } else {
                old(self)@
            },
    {
        if TrapController::try_take_interrupt(self).is_none() {
            return false;
        }
        self.increment_mcycle_by(1);
        true
    }

    /// Counts a block of generated code that retired `instr_count` instructions. It goes on at
    /// `next_pc`, or an exception was raised there, which costs a cycle of its own.
    pub fn finish_jit_block(
        &mut self,
        next_pc: u64,
        instr_count: u64,
        exception: Option<(Exception, u64)>,
    )
        requires
            old(self).wf(),
        ensures
            final(self).wf(),
            final(self)@ == old(self)@.block_finished(next_pc, instr_count, exception),
    {
        self.context.pc = next_pc;
        self.write_reg(0, 0);
        self.increment_mcycle_by(instr_count);
        self.count_instructions(instr_count);
        if let Some((cause, tval)) = exception {
            self.increment_mcycle_by(1);
            self.pending_tval = None;
            TrapController::take_exception(self, cause, tval);
        }
    }

    /// What the addresses of instructions are multiples of.
    pub fn instruction_alignment(&self) -> (r: u64)
        requires
            self.wf(),
        ensures
            r == self@.ialign(),
    {
        if self.csr.value_of(csr_index::misa) / 4 % 2 == 1 {
            2
        } else {
            4
        }
    }

    /// The part of the state that generated code works on.
    pub fn context_mut(&mut self) -> (r: &mut CpuContext)
        ensures
            *r == old(self).context,
            *final(self) == (RVCPU { context: *final(r), ..*old(self) }),
    {
        &mut self.context
    }

    /// Sets or clears the line of an interrupt.
    pub fn handle_irq(&mut self, interrupt: Interrupt, level: bool)
        requires
            old(self).wf(),
            irq_line(interrupt) is Some,
        ensures
            final(self).wf(),
            final(self)@ == (CpuState {
                csr: old(self)@.csr.with_field(
                    irq_line(interrupt)->0,
                    if level {
                        1
                    } else {
                        0
                    },
                ),
                ..old(self)@
            }),
    {
        let level: u64 = if level {
            1
        } else {
            0
        };
        let line = match interrupt {
            Interrupt::MachineTimer => CsrField::Mip_mtip,
            Interrupt::MachineExternal => CsrField::Mip_meip,
            Interrupt::SupervisorExternal => CsrField::Mip_seip,
            _ => CsrField::Mip_msip,
        };
        proof {
            file::lemma_complete_field(self.csr@, line);
        }
        self.csr.set_field(line, level);
    }
}

/// The pending bit of an interrupt that has a line from outside.
pub open spec fn irq_line(interrupt: Interrupt) -> Option<CsrField> {
    match interrupt {
        Interrupt::MachineTimer => Some(CsrField::Mip_mtip),
        Interrupt::MachineExternal => Some(CsrField::Mip_meip),
        Interrupt::SupervisorExternal => Some(CsrField::Mip_seip),
        Interrupt::MachineSoft => Some(CsrField::Mip_msip),
        _ => None,
    }
}

proof fn lemma_noop_never_stops(s: CpuState, cycles: u64)
    ensures
        !hooked_batch::<NoopExecutionHook>((), s, cycles).2.hook_stopped,
{
    if cycles == 0 || s.csr.next_interrupt() is None {
        lemma_noop_run_never_stops(s, cycles as nat, 0);
    } else {
        lemma_noop_run_never_stops(s.interrupt_taken().cycled(1), (cycles - 1) as nat, 1);
    }
}

proof fn lemma_noop_run_never_stops(s: CpuState, n: nat, done: nat)
    ensures
        !hooked_run::<NoopExecutionHook>((), s, n, done).2.hook_stopped,
    decreases n,
{
    if n > 0 {
        lemma_noop_run_never_stops(s.stepped().cycled(1), (n - 1) as nat, done + 1);
    }
}

} // verus!
